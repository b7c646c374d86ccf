//! Axis-aligned rectangles in the shared coordinate space of a display, and
//! the area that two of them have in common.

use vstd::prelude::*;

verus! {

/// A rectangle: the position of its top-left corner and its extent.
#[derive(Debug, Clone, Copy, PartialEq, Eq, Structural)]
pub struct Rect {
    pub x: i32,
    pub y: i32,
    pub width: u32,
    pub height: u32,
}

/// The length that the intervals `[a, a + a_len)` and `[b, b + b_len)` share.
pub open spec fn shared_extent(a: int, a_len: int, b: int, b_len: int) -> int {
    let low = if a >= b { a } else { b };
    let high = if a + a_len <= b + b_len { a + a_len } else { b + b_len };
    if high > low { high - low } else { 0 }
}

impl Rect {
    /// The width of the intersection of `self` and `other`, zero if they are
    /// apart horizontally.
    pub open spec fn overlap_width(self, other: Rect) -> int {
        shared_extent(self.x as int, self.width as int, other.x as int, other.width as int)
    }

    /// The height of the intersection of `self` and `other`, zero if they are
    /// apart vertically.
    pub open spec fn overlap_height(self, other: Rect) -> int {
        shared_extent(self.y as int, self.height as int, other.y as int, other.height as int)
    }

    /// The area of the intersection of `self` and `other`, zero if they are
    /// disjoint.
    pub open spec fn spec_overlap_area(self, other: Rect) -> int {
        self.overlap_width(other) * self.overlap_height(other)
    }

    pub fn new(x: i32, y: i32, width: u32, height: u32) -> (rect: Rect)
        ensures
            rect == (Rect { x, y, width, height }),
    {
        Rect { x, y, width, height }
    }

    /// The area of the intersection of `self` and `other`.
    pub fn overlap_area(&self, other: Rect) -> (area: u64)
        ensures
            area == self.spec_overlap_area(other),
    {
        let width: u64 = extent(self.x, self.width, other.x, other.width);
        let height: u64 = extent(self.y, self.height, other.y, other.height);
        assert(width * height <= 0xffff_ffff * 0xffff_ffff) by (nonlinear_arith)
            requires
                width <= 0xffff_ffff,
                height <= 0xffff_ffff,
        ;
        width * height
    }
}

/// The shared length of two intervals given by start and length.
fn extent(a: i32, a_len: u32, b: i32, b_len: u32) -> (len: u64)
    ensures
        len == shared_extent(a as int, a_len as int, b as int, b_len as int),
        len <= a_len,
        len <= b_len,
{
    let low: i64 = if a >= b { a as i64 } else { b as i64 };
    let a_end: i64 = a as i64 + a_len as i64;
    let b_end: i64 = b as i64 + b_len as i64;
    let high: i64 = if a_end <= b_end { a_end } else { b_end };
    if high > low {
        (high - low) as u64
    } else {
        0
    }
}

} // verus!
