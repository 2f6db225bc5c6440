//! Materialized source files: where each file's symbols start (for every
//! file of a symbol tree, the items inside it, or for a file without items
//! the file itself, with the byte offset where an editor buffer anchors
//! them), and the least-recently-used cache of materialized files.

use vstd::prelude::*;

use crate::keyed::{
    lemma_pairs_map_at, lemma_pairs_map_dom, lemma_pairs_map_len, lemma_pairs_map_push,
    lemma_pairs_map_update, pairs_map, unique_keys,
};
use crate::symbol::{IdView, SymbolId, SymbolNode};
use crate::text::str_eq;

verus! {

/// An anchor: the identity of a symbol and the byte where it starts.
pub type AnchorView = (IdView, int);

/// The anchor of `node` itself, when it has source bytes.
pub open spec fn anchor_of(node: SymbolNode) -> Seq<AnchorView> {
    match node.byte_range {
        Some(r) => seq![(node.id@, r.0 as int)],
        None => Seq::empty(),
    }
}

/// Anchors of every node with source bytes strictly below `node`, in
/// pre-order.
pub open spec fn anchored_below(node: SymbolNode) -> Seq<AnchorView>
    decreases node,
{
    anchored_all(node.children@)
}

/// Anchors of the subtrees `cs` (roots included), in pre-order.
pub open spec fn anchored_all(cs: Seq<SymbolNode>) -> Seq<AnchorView>
    decreases cs,
{
    if cs.len() == 0 {
        Seq::empty()
    } else {
        anchored_all(cs.drop_last()) + anchor_of(cs.last()) + anchored_below(cs.last())
    }
}

/// What a file contributes: the items inside it, or the file itself at
/// its start when it has no children (a text page).
pub open spec fn file_entry(node: SymbolNode) -> Seq<AnchorView> {
    if node.children@.len() == 0 {
        anchor_of(node)
    } else {
        anchored_below(node)
    }
}

/// `m` with the entry of every file at or below `node` filed under its
/// path; the walk does not look inside files, and a later file with the
/// same path replaces an earlier one.
pub open spec fn files_in(node: SymbolNode, m: Map<Seq<char>, Seq<AnchorView>>) -> Map<
    Seq<char>,
    Seq<AnchorView>,
>
    decreases node,
{
    if node.id.kind is File {
        m.insert(node.id.qualified_path@, file_entry(node))
    } else {
        files_in_all(node.children@, m)
    }
}

/// `files_in` over the subtrees `cs`, in order.
pub open spec fn files_in_all(cs: Seq<SymbolNode>, m: Map<Seq<char>, Seq<AnchorView>>) -> Map<
    Seq<char>,
    Seq<AnchorView>,
>
    decreases cs,
{
    if cs.len() == 0 {
        m
    } else {
        files_in(cs.last(), files_in_all(cs.drop_last(), m))
    }
}

/// The view of a list of anchors.
pub open spec fn anchors_view(v: Seq<(SymbolId, usize)>) -> Seq<AnchorView> {
    v.map_values(|a: (SymbolId, usize)| (a.0@, a.1 as int))
}

/// The view of one file's entry.
pub open spec fn file_view(e: (String, Vec<(SymbolId, usize)>)) -> (Seq<char>, Seq<AnchorView>) {
    (e.0@, anchors_view(e.1@))
}

/// Relative file path to the anchors of the symbols in that file.
pub struct FileSymbols {
    entries: Vec<(String, Vec<(SymbolId, usize)>)>,
}

impl View for FileSymbols {
    type V = Map<Seq<char>, Seq<AnchorView>>;

    closed spec fn view(&self) -> Map<Seq<char>, Seq<AnchorView>> {
        pairs_map(self.entries@.map_values(|e: (String, Vec<(SymbolId, usize)>)| file_view(e)))
    }
}

impl FileSymbols {
    /// No path is filed twice.
    pub closed spec fn wf(&self) -> bool {
        unique_keys(self.entries@.map_values(|e: (String, Vec<(SymbolId, usize)>)| file_view(e)))
    }

    fn position(&self, path: &str) -> (r: Option<usize>)
        requires
            self.wf(),
        ensures
            match r {
                Some(i) => i < self.entries@.len() && self.entries@[i as int].0@ == path@,
                None => !self@.dom().contains(path@),
            },
    {
        let ghost s = self.entries@.map_values(|e: (String, Vec<(SymbolId, usize)>)| file_view(e));
        let mut i: usize = 0;
        while i < self.entries.len()
            invariant
                i <= self.entries@.len(),
                s == self.entries@.map_values(|e: (String, Vec<(SymbolId, usize)>)| file_view(e)),
                forall|j: int| 0 <= j < i ==> s[j].0 != path@,
            decreases self.entries.len() - i,
        {
            if str_eq(self.entries[i].0.as_str(), path) {
                return Some(i);
            }
            i += 1;
        }
        proof {
            lemma_pairs_map_dom(s, path@);
        }
        None
    }

    /// Files `anchors` under `path`, replacing what was there.
    fn insert(&mut self, path: String, anchors: Vec<(SymbolId, usize)>)
        requires
            old(self).wf(),
        ensures
            final(self).wf(),
            final(self)@ == old(self)@.insert(path@, anchors_view(anchors@)),
    {
        let ghost s = self.entries@.map_values(|e: (String, Vec<(SymbolId, usize)>)| file_view(e));
        let ghost e = (path, anchors);
        match self.position(path.as_str()) {
            Some(i) => {
                proof {
                    lemma_pairs_map_update(s, i as int, anchors_view(anchors@));
                    assert(s[i as int].0 == path@);
                }
                self.entries.set(i, (path, anchors));
                assert(self.entries@.map_values(|e: (String, Vec<(SymbolId, usize)>)| file_view(e))
                    =~= s.update(i as int, (s[i as int].0, anchors_view(anchors@))));
            },
            None => {
                proof {
                    lemma_pairs_map_push(s, path@, anchors_view(anchors@));
                }
                self.entries.push((path, anchors));
                assert(self.entries@.map_values(|e: (String, Vec<(SymbolId, usize)>)| file_view(e))
                    =~= s.push((e.0@, anchors_view(e.1@))));
            },
        }
    }

    /// The anchors filed under `path`, if any.
    pub fn get(&self, path: &str) -> (r: Option<&Vec<(SymbolId, usize)>>)
        requires
            self.wf(),
        ensures
            match r {
                Some(v) => self@.dom().contains(path@) && anchors_view(v@) == self@[path@],
                None => !self@.dom().contains(path@),
            },
    {
        match self.position(path) {
            Some(i) => {
                proof {
                    lemma_pairs_map_at(
                        self.entries@.map_values(|e: (String, Vec<(SymbolId, usize)>)| file_view(e)),
                        i as int,
                    );
                }
                Some(&self.entries[i].1)
            },
            None => None,
        }
    }

    /// Number of files.
    pub fn len(&self) -> (r: usize)
        requires
            self.wf(),
        ensures
            r == self@.dom().len(),
    {
        proof {
            lemma_pairs_map_len(
                self.entries@.map_values(|e: (String, Vec<(SymbolId, usize)>)| file_view(e)),
            );
        }
        self.entries.len()
    }
}

/// Appends the anchors strictly below `node`, in pre-order.
fn push_items(node: &SymbolNode, out: &mut Vec<(SymbolId, usize)>)
    ensures
        anchors_view(final(out)@) == anchors_view(old(out)@) + anchored_below(*node),
    decreases node,
{
    let ghost before = anchors_view(out@);
    let mut i: usize = 0;
    assert(node.children@.take(0) =~= Seq::<SymbolNode>::empty());
    assert(before + anchored_all(node.children@.take(0)) =~= before);
    while i < node.children.len()
        invariant
            i <= node.children@.len(),
            anchors_view(out@) == before + anchored_all(node.children@.take(i as int)),
        decreases node.children@.len() - i,
    {
        let ghost cs = node.children@.take(i + 1);
        assert(cs.drop_last() =~= node.children@.take(i as int));
        assert(cs.last() == node.children@[i as int]);
        let c = &node.children[i];
        let ghost mid = anchors_view(out@);
        match c.byte_range {
            Some(r) => {
                out.push((c.id.clone(), r.0));
                assert(anchors_view(out@) =~= mid + anchor_of(*c));
            },
            None => {
                assert(mid + anchor_of(*c) =~= mid);
            },
        }
        proof {
            assert(decreases_to!(*node => node.children));
            assert(decreases_to!(node.children => node.children@));
            assert(decreases_to!(node.children@ => node.children@[i as int]));
        }
        push_items(c, out);
        assert(anchors_view(out@) =~= before + anchored_all(cs));
        i += 1;
    }
    assert(node.children@.take(node.children@.len() as int) =~= node.children@);
}

/// Files the entry of every file at or below `node`.
fn walk_files(node: &SymbolNode, out: &mut FileSymbols)
    requires
        old(out).wf(),
    ensures
        final(out).wf(),
        final(out)@ == files_in(*node, old(out)@),
    decreases node,
{
    if matches!(node.id.kind, crate::symbol::SymbolKind::File) {
        let mut v: Vec<(SymbolId, usize)> = Vec::new();
        if node.children.len() == 0 {
            match node.byte_range {
                Some(r) => {
                    v.push((node.id.clone(), r.0));
                },
                None => {},
            }
            assert(anchors_view(v@) =~= anchor_of(*node));
        } else {
            assert(anchors_view(v@) =~= Seq::<AnchorView>::empty());
            push_items(node, &mut v);
            assert(anchors_view(v@) =~= anchored_below(*node));
        }
        out.insert(node.id.qualified_path.clone(), v);
    } else {
        let ghost m0 = out@;
        let mut i: usize = 0;
        assert(node.children@.take(0) =~= Seq::<SymbolNode>::empty());
        while i < node.children.len()
            invariant
                i <= node.children@.len(),
                out.wf(),
                out@ == files_in_all(node.children@.take(i as int), m0),
            decreases node.children@.len() - i,
        {
            let ghost cs = node.children@.take(i + 1);
            assert(cs.drop_last() =~= node.children@.take(i as int));
            assert(cs.last() == node.children@[i as int]);
            proof {
                assert(decreases_to!(*node => node.children));
                assert(decreases_to!(node.children => node.children@));
                assert(decreases_to!(node.children@ => node.children@[i as int]));
            }
            walk_files(&node.children[i], out);
            i += 1;
        }
        assert(node.children@.take(node.children@.len() as int) =~= node.children@);
    }
}

/// For every file of the tree at `root`, keyed by its path: the anchors
/// of the items inside it in pre-order, or, for a file without children,
/// the file itself at its start (see `files_in`).
pub fn collect_file_symbols(root: &SymbolNode) -> (r: FileSymbols)
    ensures
        r.wf(),
        r@ == files_in(*root, Map::empty()),
{
    let mut out = FileSymbols { entries: Vec::new() };
    assert(out.entries@.map_values(|e: (String, Vec<(SymbolId, usize)>)| file_view(e)) =~= Seq::<
        (Seq<char>, Seq<AnchorView>),
    >::empty());
    assert(out@ =~= Map::<Seq<char>, Seq<AnchorView>>::empty());
    walk_files(root, &mut out);
    out
}


/// Most files kept materialized at once.
pub const MAX_BUFFERS: usize = 64;

/// The paths of an LRU list, least recently used first.
pub open spec fn lru_paths<T>(entries: Seq<(Seq<char>, T)>) -> Seq<Seq<char>> {
    entries.map_values(|e: (Seq<char>, T)| e.0)
}

/// Materialized files keyed by relative path, least recently used first;
/// at most `MAX_BUFFERS` are kept.
pub struct BufferLru<T> {
    entries: Vec<(String, T)>,
}

impl<T> BufferLru<T> {
    /// The entries by recency, least recent first.
    pub closed spec fn view_entries(&self) -> Seq<(Seq<char>, T)> {
        self.entries@.map_values(|e: (String, T)| (e.0@, e.1))
    }

    /// Well-formedness: each path once, and no more than the cap.
    pub closed spec fn wf(&self) -> bool {
        &&& lru_paths(self.view_entries()).no_duplicates()
        &&& self.entries@.len() <= MAX_BUFFERS
    }

    /// An empty cache.
    pub fn new() -> (r: Self)
        ensures
            r.wf(),
            r.view_entries().len() == 0,
    {
        let r = BufferLru { entries: Vec::new() };
        assert(lru_paths(r.view_entries()) =~= Seq::<Seq<char>>::empty());
        r
    }

    /// Number of files kept.
    pub fn len(&self) -> (r: usize)
        ensures
            r == self.view_entries().len(),
    {
        self.entries.len()
    }

    fn position(&self, path: &str) -> (r: Option<usize>)
        ensures
            match r {
                Some(i) => i < self.view_entries().len() && self.view_entries()[i as int].0 == path@,
                None => !lru_paths(self.view_entries()).contains(path@),
            },
    {
        let mut i: usize = 0;
        while i < self.entries.len()
            invariant
                i <= self.entries@.len(),
                forall|j: int| 0 <= j < i ==> self.entries@[j].0@ != path@,
            decreases self.entries.len() - i,
        {
            if str_eq(self.entries[i].0.as_str(), path) {
                return Some(i);
            }
            i += 1;
        }
        proof {
            if lru_paths(self.view_entries()).contains(path@) {
                let j = choose|j: int| 0 <= j < lru_paths(self.view_entries()).len() && lru_paths(self.view_entries())[j] == path@;
                assert(self.entries@[j].0@ == path@);
            }
        }
        None
    }

    /// A cache hit on `path` makes it the most recently used entry;
    /// returns whether it was cached. A miss changes nothing.
    pub fn touch(&mut self, path: &str) -> (r: bool)
        requires
            old(self).wf(),
        ensures
            final(self).wf(),
            r == lru_paths(old(self).view_entries()).contains(path@),
            r ==> exists|i: int|
                0 <= i < old(self).view_entries().len() && old(self).view_entries()[i].0 == path@
                    && final(self).view_entries() == old(self).view_entries().remove(i).push(
                    old(self).view_entries()[i],
                ),
            !r ==> final(self).view_entries() == old(self).view_entries(),
    {
        match self.position(path) {
            Some(i) => {
                let ghost v0 = self.view_entries();
                let e = self.entries.remove(i);
                self.entries.push(e);
                assert(self.view_entries() =~= v0.remove(i as int).push(v0[i as int]));
                proof {
                    assert(lru_paths(v0)[i as int] == path@);
                    let p = lru_paths(self.view_entries());
                    assert(p =~= lru_paths(v0).remove(i as int).push(lru_paths(v0)[i as int]));
                    assert forall|a: int, b: int| 0 <= a < p.len() && 0 <= b < p.len() && a != b implies p[a] != p[b] by {
                        let q = lru_paths(v0);
                        let a2 = if a == p.len() - 1 { i as int } else if a < i { a } else { a + 1 };
                        let b2 = if b == p.len() - 1 { i as int } else if b < i { b } else { b + 1 };
                        assert(p[a] == q[a2] && p[b] == q[b2]);
                    }
                }
                true
            },
            None => false,
        }
    }

    /// Adds a newly materialized file as the most recently used entry;
    /// past the cap, the least recently used entry is evicted and returned.
    pub fn insert(&mut self, path: String, value: T) -> (evicted: Option<(String, T)>)
        requires
            old(self).wf(),
            !lru_paths(old(self).view_entries()).contains(path@),
        ensures
            final(self).wf(),
            old(self).view_entries().len() < MAX_BUFFERS ==> evicted is None
                && final(self).view_entries() == old(self).view_entries().push((path@, value)),
            old(self).view_entries().len() == MAX_BUFFERS ==> (evicted matches Some(e) && (e.0@, e.1)
                == old(self).view_entries()[0]) && final(self).view_entries()
                == old(self).view_entries().push((path@, value)).skip(1),
    {
        let ghost v0 = self.view_entries();
        let ghost np = path@;
        self.entries.push((path, value));
        assert(self.view_entries() =~= v0.push((np, value)));
        proof {
            let p = lru_paths(self.view_entries());
            assert(p =~= lru_paths(v0).push(np));
            assert forall|a: int, b: int| 0 <= a < p.len() && 0 <= b < p.len() && a != b implies p[a] != p[b] by {
                if a == p.len() - 1 {
                    assert(lru_paths(v0)[b] == p[b]);
                } else if b == p.len() - 1 {
                    assert(lru_paths(v0)[a] == p[a]);
                }
            }
        }
        if self.entries.len() > MAX_BUFFERS {
            let ghost v1 = self.view_entries();
            let e = self.entries.remove(0);
            assert(self.view_entries() =~= v1.skip(1));
            proof {
                let p = lru_paths(self.view_entries());
                let q = lru_paths(v1);
                assert(p =~= q.skip(1));
                assert forall|a: int, b: int| 0 <= a < p.len() && 0 <= b < p.len() && a != b implies p[a] != p[b] by {
                    assert(p[a] == q[a + 1] && p[b] == q[b + 1]);
                }
            }
            Some(e)
        } else {
            None
        }
    }

    /// The most recently used entry's value, if any.
    pub fn most_recent(&self) -> (r: Option<&T>)
        ensures
            match r {
                Some(v) => self.view_entries().len() > 0 && *v == self.view_entries().last().1,
                None => self.view_entries().len() == 0,
            },
    {
        if self.entries.len() == 0 {
            None
        } else {
            Some(&self.entries[self.entries.len() - 1].1)
        }
    }
}

} // verus!
