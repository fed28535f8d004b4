//! Screen geometry.

use vstd::prelude::*;

pub mod layout;
pub mod library_renderer;
pub mod queue_renderer;

verus! {

/// A rectangle of terminal cells: its top left corner and its size.
#[derive(Clone, Copy, PartialEq, Eq, Debug)]
pub struct Rect {
    pub x: u16,
    pub y: u16,
    pub width: u16,
    pub height: u16,
}

impl Rect {
    pub fn new(x: u16, y: u16, width: u16, height: u16) -> (r: Rect)
        ensures
            r == (Rect { x, y, width, height }),
    {
        Rect { x, y, width, height }
    }
}

} // verus!
