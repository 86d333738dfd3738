use vstd::prelude::*;

verus! {

/// The area of a `width` by `height` rectangle, as a mathematical integer.
pub open spec fn rect_area(width: u32, height: u32) -> int {
    width * height
}

/// The larger of two dimensions.
pub open spec fn dim_max(a: u32, b: u32) -> u32 {
    if a >= b {
        a
    } else {
        b
    }
}

/// Computes the area of a rectangle given as two separate dimensions.
pub fn area(width: u32, height: u32) -> (a: u32)
    requires
        rect_area(width, height) <= u32::MAX,
    ensures
        a == rect_area(width, height),
{
    width * height
}

/// Computes the area of a rectangle given as a `(width, height)` pair.
pub fn area2(rect: (u32, u32)) -> (a: u32)
    requires
        rect_area(rect.0, rect.1) <= u32::MAX,
    ensures
        a == rect_area(rect.0, rect.1),
{
    rect.0 * rect.1
}

/// A rectangle with its dimensions in pixels.
#[derive(Clone, Copy, Debug)]
pub struct Rectangle {
    pub width: u32,
    pub height: u32,
}

/// Computes the area of a borrowed `Rectangle`.
pub fn area3(rect: &Rectangle) -> (a: u32)
    requires
        rect_area(rect.width, rect.height) <= u32::MAX,
    ensures
        a == rect_area(rect.width, rect.height),
{
    rect.width * rect.height
}

impl Rectangle {
    /// A square: both dimensions equal to `size`.
    pub fn sqaure(size: u32) -> (r: Self)
        ensures
            r.width == size,
            r.height == size,
    {
        Self { width: size, height: size }
    }

    /// The area of this rectangle.
    pub fn area(&self) -> (a: u32)
        requires
            rect_area(self.width, self.height) <= u32::MAX,
        ensures
            a == rect_area(self.width, self.height),
    {
        self.width * self.height
    }

    /// Whether `other` fits completely inside `self`, with room to spare
    /// in both dimensions.
    pub fn can_hold(&self, other: &Rectangle) -> (r: bool)
        ensures
            r == (self.width > other.width && self.height > other.height),
    {
        self.width > other.width && self.height > other.height
    }

    /// Replaces the width, leaving the height unchanged.
    pub fn set_width(&mut self, width: u32)
        ensures
            final(self).width == width,
            final(self).height == old(self).height,
    {
        self.width = width;
    }

    /// The smallest rectangle that both `self` and `other` fit into:
    /// the larger width paired with the larger height.
    pub fn max(self, other: Rectangle) -> (r: Rectangle)
        ensures
            r.width == dim_max(self.width, other.width),
            r.height == dim_max(self.height, other.height),
    {
        Rectangle {
            width: if self.width >= other.width {
                self.width
            } else {
                other.width
            },
            height: if self.height >= other.height {
                self.height
            } else {
                other.height
            },
        }
    }

    /// Grows `self` just enough to cover `other` as well.
    pub fn set_to_max(&mut self, other: Rectangle)
        ensures
            final(self).width == dim_max(old(self).width, other.width),
            final(self).height == dim_max(old(self).height, other.height),
    {
        *self = self.max(other);
    }
}

/// A rectangle that offers a ready-made default size.
#[derive(Clone, Copy, Debug)]
pub struct Rectangle4 {
    pub width: u32,
    pub height: u32,
}

impl Rectangle4 {
    /// A fresh rectangle of the stock size, 30 by 50.
    pub fn default(&self) -> (r: Self)
        ensures
            r.width == 30,
            r.height == 50,
    {
        Self { width: 30, height: 50 }
    }

    /// The area of this rectangle.
    pub fn area(&self) -> (a: u32)
        requires
            rect_area(self.width, self.height) <= u32::MAX,
        ensures
            a == rect_area(self.width, self.height),
    {
        self.width * self.height
    }
}

/// A rectangle whose `width` method reports whether the width is nonzero.
#[derive(Clone, Copy, Debug)]
pub struct Rectangle5 {
    pub width: u32,
    pub height: u32,
}

impl Rectangle5 {
    /// Whether this rectangle has a nonzero width.
    pub fn width(&self) -> (r: bool)
        ensures
            r == (self.width > 0),
    {
        self.width > 0
    }
}

/// A rectangle compared against others by containment.
#[derive(Clone, Copy, Debug)]
pub struct Rectangle6 {
    pub width: u32,
    pub height: u32,
}

impl Rectangle6 {
    /// The area of this rectangle.
    pub fn area(&self) -> (a: u32)
        requires
            rect_area(self.width, self.height) <= u32::MAX,
        ensures
            a == rect_area(self.width, self.height),
    {
        self.width * self.height
    }

    /// Whether `other` fits completely inside `self`, with room to spare
    /// in both dimensions.
    pub fn can_hold(&self, other: Rectangle6) -> (r: bool)
        ensures
            r == (self.width > other.width && self.height > other.height),
    {
        self.width > other.width && self.height > other.height
    }
}

/// A method call and the equivalent fully qualified call compute the same
/// area, and `set_width` overwrites the width either way it is invoked.
pub fn example() {
    let mut r = Rectangle { width: 1, height: 2 };
    let area1 = r.area();
    let area2 = Rectangle::area(&r);
    assert(area1 == area2);

    r.set_width(2);
    assert(r.width == 2);
    Rectangle::set_width(&mut r, 3);
    assert(r.width == 3 && r.height == 2);
}

/// Calling `area` through a boxed rectangle reads the same dimensions.
pub fn example_again() {
    let r = &mut Box::new(Rectangle { width: 1, height: 2 });
    let area1 = r.area();
    let area2 = Rectangle::area(&**r);
    assert(area1 == area2);
}

/// Reading through a shared borrow observes the owner's fields.
pub fn another_example2() {
    let rect = Rectangle { width: 0, height: 0 };
    let rect_ref = &rect;
    let a = rect_ref.area();
    assert(a == 0);
}

/// Writes go through the owned binding; a later shared borrow sees them.
pub fn another_example3() {
    let mut rect = Rectangle { width: 0, height: 0 };
    rect.set_width(1);
    let rect_ref = &rect;
    assert(rect_ref.width == 1);
}

/// Growing `{0, 1}` to cover `{1, 0}` yields the unit square.
pub fn example_main() {
    let mut rect = Rectangle { width: 0, height: 1 };
    let other_rect = Rectangle { width: 1, height: 0 };
    rect.set_to_max(other_rect);
    assert(rect.width == 1 && rect.height == 1);
}

} // verus!
