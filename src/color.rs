use vstd::prelude::*;

verus! {

/// The colours the world is drawn in.
#[derive(Clone, Copy, Debug, PartialEq, Eq, Structural)]
pub enum Color {
    White,
    Gray,
    DarkGray,
    Black,
    Red,
    Yellow,
    Violet,
    Green,
    Blue,
    SkyBlue,
    Orange,
    DarkBrown,
}

} // verus!
