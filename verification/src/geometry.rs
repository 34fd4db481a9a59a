use vstd::prelude::*;

verus! {

/// An axis-aligned rectangle with a width and a height.
pub struct Rectangle {
    pub width: u32,
    pub height: u32,
}

impl Rectangle {
    /// Builds a rectangle from the given width and height.
    pub fn new(width: u32, height: u32) -> (rect: Rectangle)
        ensures
            rect.width == width,
            rect.height == height,
    {
        Rectangle { width, height }
    }

    /// Returns the area, provided it stays within the machine range.
    pub fn area(&self) -> (area: u32)
        requires
            self.width * self.height <= u32::MAX,
        ensures
            area == self.width * self.height,
    {
        self.width * self.height
    }

    /// Replaces the width and the height with the given values.
    pub fn resize(&mut self, width: u32, height: u32)
        ensures
            final(self).width == width,
            final(self).height == height,
    {
        self.width = width;
        self.height = height;
    }

    /// Returns whether `other` fits strictly inside `self` in both dimensions.
    pub fn can_hold(&self, other: &Rectangle) -> (fits: bool)
        ensures
            fits == (self.width > other.width && self.height > other.height),
    {
        self.width > other.width && self.height > other.height
    }
}

} // verus!
