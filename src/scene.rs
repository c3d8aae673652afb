use vstd::prelude::*;

use crate::appearance::{appearance_for, appearance_of, Appearance};
use crate::selection::{next_index, CubeSelection, SelectionChange};

verus! {

/// What the selection logic knows of one cube: its identifier, whether it
/// carries the selection marker, and which shared look it was last given.
#[derive(Clone, Copy, Debug, PartialEq, Eq, Structural)]
pub struct Cube {
    pub id: u64,
    pub selected: bool,
    pub appearance: Appearance,
}

/// The cube with the look that its marker asks for.
pub open spec fn highlight_cube(c: Cube) -> Cube {
    Cube { appearance: appearance_of(c.selected), ..c }
}

/// Every cube with the look that its marker asks for.
pub open spec fn highlight_all(cubes: Seq<Cube>) -> Seq<Cube> {
    cubes.map_values(|c: Cube| highlight_cube(c))
}

/// The positions of the cubes that carry the marker.
pub open spec fn marked(cubes: Seq<Cube>) -> Set<int> {
    Set::new(|i: int| 0 <= i < cubes.len() && cubes[i].selected)
}

/// The positions of the cubes that are shown as selected.
pub open spec fn shown_selected(cubes: Seq<Cube>) -> Set<int> {
    Set::new(|i: int| 0 <= i < cubes.len() && cubes[i].appearance == Appearance::Selected)
}

/// The cubes with the marker on the one at `idx` and on no other.
pub open spec fn with_marker_at(cubes: Seq<Cube>, idx: int) -> Seq<Cube> {
    Seq::new(cubes.len(), |i: int| Cube { selected: i == idx, ..cubes[i] })
}

/// A fresh cube: not selected, shown in the plain look.
pub open spec fn fresh_cube(id: u64) -> Cube {
    Cube { id, selected: false, appearance: Appearance::Unselected }
}

/// The state that the per-frame routines share: every cube made so far, in
/// the order it was made, and the selection list over them.
pub struct Scene {
    cubes: Vec<Cube>,
    selection: CubeSelection,
}

impl Scene {
    /// The cubes, oldest first.
    pub closed spec fn cubes(&self) -> Seq<Cube> {
        self.cubes@
    }

    /// The selection list.
    pub closed spec fn selection(&self) -> CubeSelection {
        self.selection
    }

    /// The position of the selected cube.
    pub open spec fn index(&self) -> nat {
        self.selection().index()
    }

    /// The cursor is on a cube, the list names the cubes in order, and the
    /// cube under the cursor is the only one with the marker.
    pub open spec fn wf(&self) -> bool {
        &&& self.selection().wf()
        &&& self.cubes().len() == self.selection().order().len()
        &&& forall|i: int|
            #![trigger self.cubes()[i]]
            0 <= i < self.cubes().len() ==> {
                &&& self.cubes()[i].id == self.selection().order()[i]
                &&& self.cubes()[i].selected == (i == self.index())
            }
    }

    /// Every cube shows the look that its marker asks for.
    pub open spec fn is_highlighted(&self) -> bool {
        forall|i: int|
            #![trigger self.cubes()[i]]
            0 <= i < self.cubes().len() ==> self.cubes()[i].appearance == appearance_of(
                self.cubes()[i].selected,
            )
    }

    /// The scene at start-up: one cube, selected and shown as selected.
    pub fn new(first: u64) -> (s: Scene)
        ensures
            s.wf(),
            s.is_highlighted(),
            s.cubes() == seq![Cube { id: first, selected: true, appearance: Appearance::Selected }],
            s.index() == 0,
    {
        let mut cubes: Vec<Cube> = Vec::new();
        cubes.push(Cube { id: first, selected: true, appearance: Appearance::Selected });
        let s = Scene { cubes, selection: CubeSelection::new(first) };
        assert(s.cubes@ =~= seq![Cube { id: first, selected: true, appearance: Appearance::Selected }]);
        s
    }

    /// Adds a newly made cube at the end of the list. It is not selected and
    /// the cursor does not move.
    pub fn spawn(&mut self, id: u64)
        requires
            old(self).wf(),
        ensures
            final(self).wf(),
            final(self).cubes() == old(self).cubes().push(fresh_cube(id)),
            final(self).selection().order() == old(self).selection().order().push(id),
            final(self).index() == old(self).index(),
            old(self).is_highlighted() ==> final(self).is_highlighted(),
    {
        self.cubes.push(Cube { id, selected: false, appearance: Appearance::Unselected });
        self.selection.push(id);
    }

    /// Moves the selection one step back on `prev`, else one step on on
    /// `next`, as far as the list allows, and moves the marker with it.
    ///
    /// When the selection moved, returns the identifiers of the cube that
    /// lost the marker and of the one that gained it; otherwise `None`.
    pub fn select(&mut self, prev: bool, next: bool) -> (r: Option<SelectionChange>)
        requires
            old(self).wf(),
        ensures
            final(self).wf(),
            final(self).index() == next_index(
                old(self).index(),
                old(self).cubes().len(),
                prev,
                next,
            ),
            final(self).selection().order() == old(self).selection().order(),
            final(self).cubes() == with_marker_at(old(self).cubes(), final(self).index() as int),
            r == (if final(self).index() == old(self).index() {
                None
            } else {
                Some(
                    SelectionChange {
                        deselect: old(self).cubes()[old(self).index() as int].id,
                        select: old(self).cubes()[final(self).index() as int].id,
                    },
                )
            }),
    {
        let old_idx = self.selection.current_index();
        let change = self.selection.step(prev, next);
        if change.is_some() {
            let new_idx = self.selection.current_index();
            self.cubes[old_idx].selected = false;
            self.cubes[new_idx].selected = true;
        }
        assert(self.cubes@ =~= with_marker_at(old(self).cubes@, self.selection.index() as int));
        change
    }

    /// Gives every cube the look that its marker asks for: the selected look
    /// to the cube with the marker, the plain look to all others.
    pub fn highlight(&mut self)
        requires
            old(self).wf(),
        ensures
            final(self).wf(),
            final(self).is_highlighted(),
            final(self).cubes() == highlight_all(old(self).cubes()),
            final(self).selection() == old(self).selection(),
    {
        let n = self.cubes.len();
        let mut i: usize = 0;
        while i < n
            invariant
                i <= n,
                n == self.cubes@.len(),
                n == old(self).cubes@.len(),
                self.selection == old(self).selection,
                forall|j: int| 0 <= j < i ==> self.cubes@[j] == highlight_cube(old(self).cubes@[j]),
                forall|j: int| i <= j < n ==> self.cubes@[j] == old(self).cubes@[j],
            decreases n - i,
        {
            let look = appearance_for(self.cubes[i].selected);
            self.cubes[i].appearance = look;
            i = i + 1;
        }
        assert(self.cubes@ =~= highlight_all(old(self).cubes@));
    }

    /// The number of cubes.
    pub fn len(&self) -> (r: usize)
        ensures
            r == self.cubes().len(),
    {
        self.cubes.len()
    }

    /// The position of the selected cube.
    pub fn current_index(&self) -> (r: usize)
        ensures
            r == self.index(),
    {
        self.selection.current_index()
    }

    /// The identifier of the selected cube.
    pub fn selected_id(&self) -> (r: u64)
        requires
            self.wf(),
        ensures
            r == self.cubes()[self.index() as int].id,
    {
        self.selection.selected()
    }

    /// The cube at position `i`.
    pub fn cube(&self, i: usize) -> (r: Cube)
        requires
            i < self.cubes().len(),
        ensures
            r == self.cubes()[i as int],
    {
        self.cubes[i]
    }
}

/// In a well-formed scene the selected position is a position of the list.
pub proof fn lemma_index_in_bounds(s: Scene)
    requires
        s.wf(),
    ensures
        s.index() < s.cubes().len(),
{
}

/// Exactly one cube carries the marker: the one under the cursor. Once the
/// highlight pass has run, it is also the one and only cube shown as selected.
pub proof fn lemma_exactly_one_selected(s: Scene)
    requires
        s.wf(),
    ensures
        marked(s.cubes()) == set![s.index() as int],
        marked(s.cubes()).len() == 1,
        s.is_highlighted() ==> shown_selected(s.cubes()) == set![s.index() as int],
        s.is_highlighted() ==> shown_selected(s.cubes()).len() == 1,
{
    assert(marked(s.cubes()) =~= set![s.index() as int]);
    if s.is_highlighted() {
        assert(shown_selected(s.cubes()) =~= set![s.index() as int]);
    }
}

/// Running the highlight pass twice in a row gives what running it once
/// gives.
pub proof fn lemma_highlight_idempotent(cubes: Seq<Cube>)
    ensures
        highlight_all(highlight_all(cubes)) == highlight_all(cubes),
{
    assert(highlight_all(highlight_all(cubes)) =~= highlight_all(cubes));
}

} // verus!
