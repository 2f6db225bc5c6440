//! A flat, pre-order index over a symbol tree: every node gets a handle
//! (its pre-order position) and remembers its identity, display name,
//! parent and whether it is a leaf page. Navigation and search work on
//! handles.

use vstd::prelude::*;

use crate::symbol::{is_leaf_item, is_leaf_spec, same_id, IdView, SymbolId, SymbolNode};

verus! {

/// What the index keeps of one node.
pub struct IndexEntry {
    pub id: SymbolId,
    pub name: String,
    pub parent: Option<usize>,
    pub leaf: bool,
}

/// The abstract entry: identity, name, parent handle and leaf flag.
pub type EntryView = (IdView, Seq<char>, Option<int>, bool);

/// The entry of `node` with parent `parent`.
pub open spec fn entry_of(node: SymbolNode, parent: Option<int>) -> EntryView {
    (node.id@, node.name@, parent, is_leaf_spec(node))
}

/// Pre-order entries of the subtree at `node`, whose handle is `base` and
/// whose parent is `parent`.
pub open spec fn flatten(node: SymbolNode, parent: Option<int>, base: int) -> Seq<EntryView>
    decreases node,
{
    seq![entry_of(node, parent)] + flatten_all(node.children@, base, base + 1)
}

/// Pre-order entries of the subtrees `cs` (children of handle `parent`),
/// the first of them at handle `base`.
pub open spec fn flatten_all(cs: Seq<SymbolNode>, parent: int, base: int) -> Seq<EntryView>
    decreases cs,
{
    if cs.len() == 0 {
        Seq::empty()
    } else {
        let init = flatten_all(cs.drop_last(), parent, base);
        init + flatten(cs.last(), Some(parent), base + init.len())
    }
}

/// The view of an entry.
pub open spec fn entry_view(e: IndexEntry) -> EntryView {
    (e.id@, e.name@, match e.parent {
        Some(p) => Some(p as int),
        None => None,
    }, e.leaf)
}

proof fn lemma_flatten_parents(node: SymbolNode, parent: Option<int>, base: int)
    requires
        parent matches Some(p) ==> 0 <= p < base,
        base >= 0,
    ensures
        flatten(node, parent, base).len() >= 1,
        flatten(node, parent, base)[0] == entry_of(node, parent),
        forall|k: int| 0 < k < flatten(node, parent, base).len() ==> ((#[trigger] flatten(node, parent, base)[k]).2 matches Some(p)
            && base <= p < base + k),
    decreases node,
{
    lemma_flatten_all_parents(node.children@, base, base + 1);
}

proof fn lemma_flatten_all_parents(cs: Seq<SymbolNode>, parent: int, base: int)
    requires
        0 <= parent < base,
    ensures
        forall|k: int| 0 <= k < flatten_all(cs, parent, base).len() ==> ((#[trigger] flatten_all(cs, parent, base)[k]).2 matches Some(p)
            && parent <= p < base + k),
    decreases cs,
{
    if cs.len() > 0 {
        let init = flatten_all(cs.drop_last(), parent, base);
        lemma_flatten_all_parents(cs.drop_last(), parent, base);
        lemma_flatten_parents(cs.last(), Some(parent), base + init.len());
        let whole = flatten_all(cs, parent, base);
        assert forall|k: int| 0 <= k < whole.len() implies ((#[trigger] whole[k]).2 matches Some(p) && parent <= p < base + k) by {
            if k < init.len() {
                assert(whole[k] == init[k]);
            } else {
                assert(whole[k] == flatten(cs.last(), Some(parent), base + init.len())[k - init.len()]);
            }
        }
    }
}

/// Lookup tables over a symbol tree, built once per use.
pub struct TreeIndex {
    entries: Vec<IndexEntry>,
}

impl View for TreeIndex {
    type V = Seq<EntryView>;

    closed spec fn view(&self) -> Seq<EntryView> {
        self.entries@.map_values(|e: IndexEntry| entry_view(e))
    }
}

/// Number of ancestors of handle `h` (parents always precede children).
pub open spec fn depth_spec(entries: Seq<EntryView>, h: int) -> nat
    decreases h,
{
    if 0 <= h < entries.len() {
        match entries[h].2 {
            Some(p) => if 0 <= p < h { 1 + depth_spec(entries, p) } else { 0 },
            None => 0,
        }
    } else {
        0
    }
}

/// The handles whose parent is `h`, in increasing order.
pub open spec fn children_spec(entries: Seq<EntryView>, h: int) -> Seq<int> {
    Seq::new(entries.len(), |k: int| k).filter(|k: int| entries[k].2 == Some(h))
}

/// Parents precede their children.
pub open spec fn parents_precede(entries: Seq<EntryView>) -> bool {
    forall|k: int| 0 <= k < entries.len() ==> ((#[trigger] entries[k]).2 matches Some(p) ==> 0 <= p < k)
}

impl TreeIndex {
    fn walk(node: &SymbolNode, parent: Option<usize>, out: &mut Vec<IndexEntry>)
        requires
            parent matches Some(p) ==> p < old(out)@.len(),
        ensures
            final(out)@.map_values(|e: IndexEntry| entry_view(e)) == old(out)@.map_values(|e: IndexEntry| entry_view(e)) + flatten(
                *node,
                match parent {
                    Some(p) => Some(p as int),
                    None => None,
                },
                old(out)@.len() as int,
            ),
        decreases node,
    {
        let ghost before = out@.map_values(|e: IndexEntry| entry_view(e));
        let ghost par = match parent {
            Some(p) => Some(p as int),
            None => None,
        };
        let h = out.len();
        let entry = IndexEntry {
            id: node.id.clone(),
            name: node.name.clone(),
            parent,
            leaf: is_leaf_item(node),
        };
        out.push(entry);
        let ghost head = before.push(entry_of(*node, par));
        assert(out@.map_values(|e: IndexEntry| entry_view(e)) =~= head);
        let mut i: usize = 0;
        assert(node.children@.take(0) =~= Seq::<SymbolNode>::empty());
        assert(head + flatten_all(node.children@.take(0), h as int, h + 1) =~= head);
        while i < node.children.len()
            invariant
                i <= node.children@.len(),
                h < out@.len(),
                out@.map_values(|e: IndexEntry| entry_view(e)) == head + flatten_all(
                    node.children@.take(i as int),
                    h as int,
                    h + 1,
                ),
                head.len() == h + 1,
            decreases node.children@.len() - i,
        {
            let ghost cs = node.children@.take(i + 1);
            assert(cs.drop_last() =~= node.children@.take(i as int));
            assert(cs.last() == node.children@[i as int]);
            proof {
                assert(decreases_to!(*node => node.children));
                assert(decreases_to!(node.children => node.children@));
                assert(decreases_to!(node.children@ => node.children@[i as int]));
            }
            let ghost len_before = out@.len();
            Self::walk(&node.children[i], Some(h), out);
            assert(out@.map_values(|e: IndexEntry| entry_view(e)) =~= head + flatten_all(cs, h as int, h + 1));
            i += 1;
        }
        assert(node.children@.take(node.children@.len() as int) =~= node.children@);
    }

    /// The pre-order index of the tree rooted at `root`.
    pub fn new(root: &SymbolNode) -> (r: Self)
        ensures
            r@ == flatten(*root, None, 0),
            parents_precede(r@),
    {
        let mut entries: Vec<IndexEntry> = Vec::new();
        Self::walk(root, None, &mut entries);
        assert(entries@.map_values(|e: IndexEntry| entry_view(e)) =~= flatten(*root, None, 0));
        proof {
            lemma_flatten_parents(*root, None, 0);
        }
        TreeIndex { entries }
    }

    /// Number of nodes.
    pub fn len(&self) -> (r: usize)
        ensures
            r == self@.len(),
    {
        self.entries.len()
    }

    /// Identity of handle `h`.
    pub fn id(&self, h: usize) -> (r: &SymbolId)
        requires
            h < self@.len(),
        ensures
            r@ == self@[h as int].0,
    {
        &self.entries[h].id
    }

    /// Display name of handle `h`.
    pub fn name(&self, h: usize) -> (r: &String)
        requires
            h < self@.len(),
        ensures
            r@ == self@[h as int].1,
    {
        &self.entries[h].name
    }

    /// Whether handle `h` is a leaf page.
    pub fn is_leaf(&self, h: usize) -> (r: bool)
        requires
            h < self@.len(),
        ensures
            r == self@[h as int].3,
    {
        self.entries[h].leaf
    }

    /// Structural parent of handle `h`, or `None` for the root.
    pub fn parent(&self, h: usize) -> (r: Option<usize>)
        requires
            h < self@.len(),
        ensures
            match r {
                Some(p) => self@[h as int].2 == Some(p as int),
                None => self@[h as int].2 is None,
            },
    {
        self.entries[h].parent
    }

    /// Handle of the first node with identity `id`, if any.
    pub fn handle_of(&self, id: &SymbolId) -> (r: Option<usize>)
        ensures
            match r {
                Some(h) => h < self@.len() && self@[h as int].0 == id@ && forall|k: int| 0 <= k < h ==> self@[k].0 != id@,
                None => forall|k: int| 0 <= k < self@.len() ==> self@[k].0 != id@,
            },
    {
        let mut i: usize = 0;
        while i < self.entries.len()
            invariant
                i <= self@.len(),
                self@.len() == self.entries@.len(),
                forall|k: int| 0 <= k < i ==> self@[k].0 != id@,
            decreases self.entries.len() - i,
        {
            if same_id(&self.entries[i].id, id) {
                return Some(i);
            }
            i += 1;
        }
        None
    }

    /// Children of handle `h`, in tree order.
    pub fn children(&self, h: usize) -> (r: Vec<usize>)
        ensures
            r@.map_values(|k: usize| k as int) == children_spec(self@, h as int),
    {
        let ghost all = Seq::new(self@.len(), |k: int| k);
        let ghost pred = |k: int| self@[k].2 == Some(h as int);
        let mut out: Vec<usize> = Vec::new();
        let mut i: usize = 0;
        assert(all.take(0).filter(pred) =~= Seq::<int>::empty()) by {
            assert(all.take(0) =~= Seq::<int>::empty());
            reveal(Seq::filter);
        }
        while i < self.entries.len()
            invariant
                i <= self@.len(),
                self@.len() == self.entries@.len(),
                all == Seq::new(self@.len(), |k: int| k),
                pred == (|k: int| self@[k].2 == Some(h as int)),
                out@.map_values(|k: usize| k as int) == all.take(i as int).filter(pred),
            decreases self.entries.len() - i,
        {
            let ghost before = out@;
            assert(all.take(i + 1).drop_last() =~= all.take(i as int));
            assert(all.take(i + 1).last() == i as int);
            proof {
                reveal(Seq::filter);
                assert(all.take(i + 1).filter(pred) == if pred(i as int) {
                    all.take(i as int).filter(pred).push(i as int)
                } else {
                    all.take(i as int).filter(pred)
                });
            }
            let is_child = match self.entries[i].parent {
                Some(p) => p == h,
                None => false,
            };
            assert(is_child == pred(i as int));
            if is_child {
                out.push(i);
                assert(out@.map_values(|k: usize| k as int) =~= before.map_values(|k: usize| k as int).push(i as int));
            }
            i += 1;
        }
        assert(all.take(self@.len() as int) =~= all);
        out
    }

    /// Number of ancestors above handle `h`.
    pub fn depth(&self, h: usize) -> (r: usize)
        requires
            h < self@.len(),
            parents_precede(self@),
        ensures
            r == depth_spec(self@, h as int),
    {
        let mut d: usize = 0;
        let mut cur: usize = h;
        loop
            invariant
                cur < self@.len(),
                cur <= h,
                parents_precede(self@),
                d + depth_spec(self@, cur as int) == depth_spec(self@, h as int),
                d <= h - cur,
            ensures
                d == depth_spec(self@, h as int),
            decreases cur,
        {
            match self.entries[cur].parent {
                Some(p) => {
                    assert(self@[cur as int].2 == Some(p as int));
                    d = d + 1;
                    cur = p;
                },
                None => {
                    assert(self@[cur as int].2 is None);
                    break;
                },
            }
        }
        d
    }
}

} // verus!
