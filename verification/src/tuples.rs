use vstd::prelude::*;

verus! {

/// A colour as three channels.
#[derive(Clone, Copy, Debug)]
pub struct Color(pub i32, pub i32, pub i32);

/// A point in three-dimensional space.
#[derive(Clone, Copy, Debug)]
pub struct Point(pub i32, pub i32, pub i32);

/// A marker type with no data at all.
#[derive(Clone, Copy, Debug)]
pub struct AlwaysEqual;

/// `black` and `origin` hold the same three numbers, but the two tuple
/// structs are distinct types.
pub fn main5() {
    let black = Color(0, 0, 0);
    let origin = Point(0, 0, 0);
    assert(black.0 == 0 && black.1 == 0 && black.2 == 0);
    assert(origin.0 == 0 && origin.1 == 0 && origin.2 == 0);
}

/// A unit-like struct is built from just its name.
pub fn main6() {
    let _subject = AlwaysEqual;
}

} // verus!
