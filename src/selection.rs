use vstd::prelude::*;

verus! {

/// Where the cursor of a list of `len` entries goes from `idx` when the
/// "previous" and "next" keys are (or are not) pressed this frame.
///
/// "Previous" is looked at first; only when it does not move the cursor is
/// "next" looked at, so one frame moves the cursor by at most one step. The
/// cursor never leaves the list: a step past either end is dropped.
pub open spec fn next_index(idx: nat, len: nat, prev: bool, next: bool) -> nat {
    if prev && idx > 0 {
        (idx - 1) as nat
    } else if next && idx + 1 < len {
        idx + 1
    } else {
        idx
    }
}

/// A cursor step never leaves the list: from any position of a list, with
/// any keys pressed, the cursor lands on a position of the same list.
pub proof fn lemma_next_index_in_bounds(idx: nat, len: nat, prev: bool, next: bool)
    requires
        idx < len,
    ensures
        next_index(idx, len, prev, next) < len,
{
}

/// The marker moves that one cursor step asks for: take the marker off
/// `deselect`, then put it on `select`.
#[derive(Clone, Copy, Debug, PartialEq, Eq, Structural)]
pub struct SelectionChange {
    pub deselect: u64,
    pub select: u64,
}

/// An append-only list of cube identifiers, in the order the cubes were
/// made, with a cursor on the one that is selected.
pub struct CubeSelection {
    order: Vec<u64>,
    idx: usize,
}

impl CubeSelection {
    /// The identifiers, oldest first.
    pub closed spec fn order(&self) -> Seq<u64> {
        self.order@
    }

    /// The position of the cursor.
    pub closed spec fn index(&self) -> nat {
        self.idx as nat
    }

    /// The cursor stands on an entry of the list.
    pub open spec fn wf(&self) -> bool {
        self.index() < self.order().len()
    }

    /// The identifier under the cursor.
    pub open spec fn selected_spec(&self) -> u64 {
        self.order()[self.index() as int]
    }

    /// A list that holds the first cube alone, which is selected.
    pub fn new(first: u64) -> (s: CubeSelection)
        ensures
            s.wf(),
            s.order() == seq![first],
            s.index() == 0,
    {
        CubeSelection { order: vec![first], idx: 0 }
    }

    /// Appends a newly made cube; the cursor stays where it is.
    pub fn push(&mut self, id: u64)
        requires
            old(self).wf(),
        ensures
            final(self).wf(),
            final(self).order() == old(self).order().push(id),
            final(self).index() == old(self).index(),
    {
        self.order.push(id);
    }

    /// The number of cubes in the list.
    pub fn len(&self) -> (r: usize)
        ensures
            r == self.order().len(),
    {
        self.order.len()
    }

    /// The position of the cursor.
    pub fn current_index(&self) -> (r: usize)
        ensures
            r == self.index(),
    {
        self.idx
    }

    /// The identifier of the selected cube.
    pub fn selected(&self) -> (r: u64)
        requires
            self.wf(),
        ensures
            r == self.selected_spec(),
    {
        self.order[self.idx]
    }

    /// Moves the cursor one step back on `prev`, else one step on on `next`,
    /// as far as the list allows.
    ///
    /// When the cursor moved, returns the identifiers that lose and gain the
    /// marker; when it did not, returns `None`.
    pub fn step(&mut self, prev: bool, next: bool) -> (r: Option<SelectionChange>)
        requires
            old(self).wf(),
        ensures
            final(self).wf(),
            final(self).order() == old(self).order(),
            final(self).index() == next_index(
                old(self).index(),
                old(self).order().len(),
                prev,
                next,
            ),
            r == (if final(self).index() == old(self).index() {
                None
            } else {
                Some(
                    SelectionChange {
                        deselect: old(self).selected_spec(),
                        select: final(self).selected_spec(),
                    },
                )
            }),
    {
        let old_idx = self.idx;
        if prev && self.idx > 0 {
            self.idx = self.idx - 1;
        } else if next && self.idx < self.order.len() - 1 {
            self.idx = self.idx + 1;
        }
        if self.idx == old_idx {
            None
        } else {
            Some(SelectionChange { deselect: self.order[old_idx], select: self.order[self.idx] })
        }
    }
}

} // verus!
