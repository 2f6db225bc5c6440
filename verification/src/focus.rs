//! Keyboard focus over the tree index: Enter steps into the last-visited
//! (or first) child, Esc steps out to the parent, a click sets the focus;
//! each move remembers the child last visited under its parent.

use vstd::prelude::*;

use std::collections::BTreeMap;

use crate::tree_index::{children_spec, parents_precede, EntryView, TreeIndex};

verus! {

/// Cardinal direction of a spatial arrow-key step.
#[derive(Clone, Copy, Debug, PartialEq, Eq, Structural)]
pub enum Dir {
    Left,
    Right,
    Up,
    Down,
}

/// The focused handle and, per parent handle, the child visited last.
pub type FocusView = (int, Map<u64, u64>);

/// Remembers `next` as the last-visited child of its parent.
pub open spec fn record_visit(ix: Seq<EntryView>, next: int, memory: Map<u64, u64>) -> Map<u64, u64> {
    match ix[next].2 {
        Some(p) => memory.insert(p as u64, next as u64),
        None => memory,
    }
}

/// Moves the focus to `next` (and reports a move), unless it is already
/// there.
pub open spec fn land_spec(f: FocusView, next: int, ix: Seq<EntryView>) -> (FocusView, bool) {
    if next == f.0 {
        (f, false)
    } else {
        ((next, record_visit(ix, next, f.1)), true)
    }
}

/// Enter: the remembered child when it is still a child, else the first
/// child; nothing happens at a leaf.
pub open spec fn step_in_spec(f: FocusView, ix: Seq<EntryView>) -> (FocusView, bool) {
    let ch = children_spec(ix, f.0);
    if ch.len() == 0 {
        (f, false)
    } else {
        let remembered = f.1.dom().contains(f.0 as u64) && ch.contains(f.1[f.0 as u64] as int);
        let next = if remembered { f.1[f.0 as u64] as int } else { ch[0] };
        land_spec(f, next, ix)
    }
}

/// Esc: the parent; nothing happens at the root.
pub open spec fn step_out_spec(f: FocusView, ix: Seq<EntryView>) -> (FocusView, bool) {
    match ix[f.0].2 {
        Some(p) => land_spec(f, p, ix),
        None => (f, false),
    }
}

/// Keyboard focus with last-visited child memory.
pub struct Focus {
    pub current: usize,
    last_child: BTreeMap<u64, u64>,
}

impl Focus {
    /// The focused handle and the remembered children.
    pub closed spec fn spec_view(&self) -> FocusView {
        (self.current as int, self.last_child@)
    }

    /// Well-formedness against `ix`: the focus is a node of it and the
    /// memory has each parent once.
    pub closed spec fn wf(&self, ix: Seq<EntryView>) -> bool {
        &&& self.current < ix.len()
    }

    /// Focus on `root` with nothing remembered.
    pub fn new(root: usize) -> (r: Self)
        ensures
            r.spec_view() == (root as int, Map::<u64, u64>::empty()),
            forall|ix: Seq<EntryView>| root < ix.len() ==> r.wf(ix),
    {
        Focus { current: root, last_child: BTreeMap::new() }
    }

    fn land(&mut self, next: usize, index: &TreeIndex) -> (r: bool)
        requires
            old(self).wf(index@),
            next < index@.len(),
        ensures
            final(self).wf(index@),
            (final(self).spec_view(), r) == land_spec(old(self).spec_view(), next as int, index@),
    {
        if next == self.current {
            return false;
        }
        self.current = next;
        match index.parent(next) {
            Some(p) => {
                self.last_child.insert(p as u64, next as u64);
            },
            None => {},
        }
        true
    }

    /// Enter: steps into the last-visited child if it is still a child of
    /// the focused node, else its first child; returns whether the focus
    /// moved.
    pub fn step_in(&mut self, index: &TreeIndex) -> (r: bool)
        requires
            old(self).wf(index@),
        ensures
            final(self).wf(index@),
            (final(self).spec_view(), r) == step_in_spec(old(self).spec_view(), index@),
    {
        let children = index.children(self.current);
        if children.len() == 0 {
            return false;
        }
        let ghost ch = children_spec(index@, self.current as int);
        assert(ch.len() == children@.len());
        let first = children[0];
        let key = self.current as u64;
        let remembered: Option<u64> = match self.last_child.get(&key) {
            Some(v) => Some(*v),
            None => None,
        };
        let next = match remembered {
            Some(lc) => {
                let mut found = false;
                let mut i: usize = 0;
                while i < children.len()
                    invariant
                        i <= children@.len(),
                        children@.map_values(|k: usize| k as int) == ch,
                        found == exists|j: int| 0 <= j < i && children@[j] as int == lc as int,
                    decreases children.len() - i,
                {
                    if children[i] as u64 == lc {
                        found = true;
                    }
                    i += 1;
                }
                proof {
                    if found {
                        let j = choose|j: int| 0 <= j < children@.len() && children@[j] as int == lc as int;
                        assert(ch[j] == lc as int);
                    }
                    if ch.contains(lc as int) {
                        let j = choose|j: int| 0 <= j < ch.len() && ch[j] == lc as int;
                        assert(children@[j] as int == lc as int);
                    }
                }
                if found {
                    lc as usize
                } else {
                    first
                }
            },
            None => first,
        };
        proof {
            assert(ch[0] == first as int);
            assert forall|j: int| 0 <= j < ch.len() implies 0 <= #[trigger] ch[j] < index@.len() by {
                let all = Seq::new(index@.len(), |k: int| k);
                let pred = |k: int| index@[k].2 == Some(self.current as int);
                assert(ch == all.filter(pred));
                assert(all.filter(pred).contains(ch[j]));
                all.lemma_filter_contains_rev(pred, ch[j]);
                let i = choose|i: int| 0 <= i < all.len() && all[i] == ch[j];
                assert(all[i] == i);
            }
        }
        self.land(next, index)
    }

    /// Esc: steps out to the parent; returns whether the focus moved.
    pub fn step_out(&mut self, index: &TreeIndex) -> (r: bool)
        requires
            old(self).wf(index@),
            parents_precede(index@),
        ensures
            final(self).wf(index@),
            (final(self).spec_view(), r) == step_out_spec(old(self).spec_view(), index@),
    {
        match index.parent(self.current) {
            Some(p) => self.land(p, index),
            None => false,
        }
    }

    /// Click: sets the focus to `h`; returns whether it moved.
    pub fn set(&mut self, h: usize, index: &TreeIndex) -> (r: bool)
        requires
            old(self).wf(index@),
            h < index@.len(),
        ensures
            final(self).wf(index@),
            (final(self).spec_view(), r) == land_spec(old(self).spec_view(), h as int, index@),
    {
        self.land(h, index)
    }
}

/// Setting the focus to where it already is changes nothing.
pub proof fn lemma_set_to_current_is_noop(f: FocusView, ix: Seq<EntryView>)
    ensures
        land_spec(f, f.0, ix) == (f, false),
{
}

/// Esc and then Enter come back to the child one left: moving into a node
/// remembers it under its parent, and Esc does not touch that memory.
pub proof fn lemma_esc_then_enter_returns(f: FocusView, ix: Seq<EntryView>)
    requires
        parents_precede(ix),
        0 <= f.0 < ix.len(),
        ix[f.0].2 matches Some(p) && f.1.dom().contains(p as u64) && f.1[p as u64] == f.0 as u64,
        ix.len() <= u64::MAX,
    ensures
        step_in_spec(step_out_spec(f, ix).0, ix).0.0 == f.0,
        step_in_spec(step_out_spec(f, ix).0, ix).1,
{
    let p = ix[f.0].2->0;
    assert(0 <= p < f.0);
    let out = step_out_spec(f, ix).0;
    assert(out.0 == p);
    assert(out.1.dom().contains(p as u64) && out.1[p as u64] == f.0 as u64) by {
        match ix[p].2 {
            Some(pp) => {
                assert(0 <= pp < p);
                assert(pp as u64 != p as u64);
            },
            None => {},
        }
    }
    let all = Seq::new(ix.len(), |k: int| k);
    let pred = |k: int| ix[k].2 == Some(p);
    reveal(Seq::filter);
    all.filter_lemma(pred);
    assert(all[f.0] == f.0);
    assert(pred(all[f.0]));
    assert(children_spec(ix, p).contains(f.0));
}

/// Entering a node whose remembered child is still its child lands there.
pub proof fn lemma_enter_uses_memory(f: FocusView, ix: Seq<EntryView>)
    requires
        f.1.dom().contains(f.0 as u64),
        children_spec(ix, f.0).contains(f.1[f.0 as u64] as int),
        f.1[f.0 as u64] as int != f.0,
    ensures
        step_in_spec(f, ix).0.0 == f.1[f.0 as u64] as int,
        step_in_spec(f, ix).1,
{
}

} // verus!
