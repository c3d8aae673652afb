use vstd::prelude::*;

verus! {

/// One of the two shared looks a cube can have.
#[derive(Clone, Copy, Debug, PartialEq, Eq, Structural)]
pub enum Appearance {
    /// The highlight colour (red) of the selected cube.
    Selected,
    /// The plain colour (gray) of every other cube.
    Unselected,
}

/// The appearance a cube must have, given whether it carries the marker.
pub open spec fn appearance_of(selected: bool) -> Appearance {
    if selected {
        Appearance::Selected
    } else {
        Appearance::Unselected
    }
}

/// Picks the appearance for a cube that does or does not carry the marker.
pub fn appearance_for(selected: bool) -> (r: Appearance)
    ensures
        r == appearance_of(selected),
{
    if selected {
        Appearance::Selected
    } else {
        Appearance::Unselected
    }
}

} // verus!
