//! Small shared value types: a two-component vector used for cursor and
//! scroll positions, and the key events the editor core consumes.

use vstd::prelude::*;

verus! {

/// A pair of like-typed components, used for scroll offsets and other
/// (x, y) positions.
#[derive(Clone, Copy, Debug)]
pub struct Vec2<T> {
    pub x: T,
    pub y: T,
}

impl<T> Vec2<T> {
    pub fn new(x: T, y: T) -> (r: Self)
        ensures
            r.x == x,
            r.y == y,
    {
        Vec2 { x, y }
    }
}

impl Default for Vec2<usize> {
    fn default() -> (r: Self)
        ensures
            r.x == 0,
            r.y == 0,
    {
        Vec2 { x: 0, y: 0 }
    }
}

/// One key event as the editor core sees it: a printable character or a
/// named control key. The program around the core translates whatever
/// its terminal backend reports into this type.
#[derive(Clone, Copy, Debug, PartialEq, Eq, Structural)]
pub enum Key {
    Char(char),
    Ctrl(char),
    Esc,
    Enter,
    Backspace,
    Delete,
    Tab,
}

} // verus!
