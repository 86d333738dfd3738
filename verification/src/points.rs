use vstd::prelude::*;

verus! {

/// A point on the integer plane.
#[derive(Clone, Copy, Debug, PartialEq, Eq, Structural)]
pub struct Point {
    pub x: i32,
    pub y: i32,
}

/// A field can be borrowed mutably on its own; the write lands in the
/// owning struct once the borrow ends, and the other field is untouched.
pub fn main8() {
    let mut p = Point { x: 0, y: 0 };

    let x = &mut p.x;
    *x += 1;

    assert(p.x == 1 && p.y == 0);
}

} // verus!
