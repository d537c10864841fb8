use vstd::prelude::*;

verus! {

/// A point with integer coordinates.
#[derive(Clone, Copy, Debug, PartialEq, Eq, Structural)]
pub struct IPoint {
    pub x: i32,
    pub y: i32,
}

/// An integer width and height.
#[derive(Clone, Copy, Debug, PartialEq, Eq, Structural)]
pub struct ISize {
    pub width: i32,
    pub height: i32,
}

/// An integer rectangle given by its edges; `right` and `bottom` are exclusive.
#[derive(Clone, Copy, Debug, PartialEq, Eq, Structural)]
pub struct IRect {
    pub left: i32,
    pub top: i32,
    pub right: i32,
    pub bottom: i32,
}

impl IPoint {
    pub fn new(x: i32, y: i32) -> (r: IPoint)
        ensures
            r.x == x,
            r.y == y,
    {
        IPoint { x, y }
    }
}

impl ISize {
    pub fn new(width: i32, height: i32) -> (r: ISize)
        ensures
            r.width == width,
            r.height == height,
    {
        ISize { width, height }
    }

    /// True when either side is zero or negative.
    pub fn is_empty(&self) -> (r: bool)
        ensures
            r == (self.width <= 0 || self.height <= 0),
    {
        self.width <= 0 || self.height <= 0
    }
}

impl IRect {
    pub fn new(left: i32, top: i32, right: i32, bottom: i32) -> (r: IRect)
        ensures
            r == (IRect { left, top, right, bottom }),
    {
        IRect { left, top, right, bottom }
    }

    /// The rectangle at the origin with the given size.
    pub fn from_size(size: ISize) -> (r: IRect)
        ensures
            r == (IRect { left: 0, top: 0, right: size.width, bottom: size.height }),
    {
        IRect { left: 0, top: 0, right: size.width, bottom: size.height }
    }

    pub fn width(&self) -> (r: i64)
        ensures
            r == self.right - self.left,
    {
        self.right as i64 - self.left as i64
    }

    pub fn height(&self) -> (r: i64)
        ensures
            r == self.bottom - self.top,
    {
        self.bottom as i64 - self.top as i64
    }

    pub fn size(&self) -> (r: ISize)
        requires
            i32::MIN <= self.right - self.left <= i32::MAX,
            i32::MIN <= self.bottom - self.top <= i32::MAX,
        ensures
            r.width == self.right - self.left,
            r.height == self.bottom - self.top,
    {
        ISize { width: self.right - self.left, height: self.bottom - self.top }
    }
}

} // verus!
