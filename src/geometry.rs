use vstd::prelude::*;

use crate::convert::{
    clamp, clamp_i32_to_positive_i32, clamp_isize_to_i32, clamp_usize_to_positive_i32,
    clamp_usize_to_positive_isize, saturating_add_isize, saturating_sub_isize,
};

verus! {

/// A point on a surface, each coordinate held to the platform's 32-bit range.
#[derive(Clone, Copy, PartialEq, Eq, Structural, Debug)]
pub struct Point {
    pub x: i32,
    pub y: i32,
}

/// The point that `Point::new` makes of `x` and `y`.
pub open spec fn spec_point(x: int, y: int) -> Point {
    Point {
        x: clamp(x, i32::MIN as int, i32::MAX as int) as i32,
        y: clamp(y, i32::MIN as int, i32::MAX as int) as i32,
    }
}

impl Point {
    pub fn origin() -> (r: Point)
        ensures
            r == (Point { x: 0, y: 0 }),
    {
        Point { x: 0, y: 0 }
    }

    /// The point at `(x, y)`, each coordinate clamped into the 32-bit range.
    pub fn new(x: isize, y: isize) -> (r: Point)
        ensures
            r == spec_point(x as int, y as int),
    {
        Point { x: clamp_isize_to_i32(x), y: clamp_isize_to_i32(y) }
    }

    pub fn x(&self) -> (r: isize)
        ensures
            r == self.x,
    {
        self.x as isize
    }

    pub fn y(&self) -> (r: isize)
        ensures
            r == self.y,
    {
        self.y as isize
    }

    /// The point moved by `(off_x, off_y)`, clamped into the 32-bit range.
    pub fn offset(&self, off_x: isize, off_y: isize) -> (r: Point)
        ensures
            r == spec_point(self.x + off_x, self.y + off_y),
    {
        Point::new(
            saturating_add_isize(self.x as isize, off_x),
            saturating_add_isize(self.y as isize, off_y),
        )
    }
}

/// An extent on a surface, each dimension held to the platform's non-negative range.
#[derive(Clone, Copy, PartialEq, Eq, Structural, Debug)]
pub struct Size {
    cx: i32,
    cy: i32,
}

impl Size {
    pub closed spec fn spec_cx(self) -> int {
        self.cx as int
    }

    pub closed spec fn spec_cy(self) -> int {
        self.cy as int
    }

    /// Every size has non-negative dimensions.
    pub closed spec fn wf(self) -> bool {
        self.cx >= 0 && self.cy >= 0
    }

    /// The size `cx` by `cy`, each clamped into the platform's non-negative range.
    pub fn new(cx: usize, cy: usize) -> (r: Size)
        ensures
            r.spec_cx() == clamp(cx as int, 0, i32::MAX as int),
            r.spec_cy() == clamp(cy as int, 0, i32::MAX as int),
    {
        Size { cx: clamp_usize_to_positive_i32(cx), cy: clamp_usize_to_positive_i32(cy) }
    }

    pub fn cx(&self) -> (r: usize)
        requires
            self.spec_cx() >= 0,
        ensures
            r == self.spec_cx(),
    {
        self.cx as usize
    }

    pub fn cy(&self) -> (r: usize)
        requires
            self.spec_cy() >= 0,
        ensures
            r == self.spec_cy(),
    {
        self.cy as usize
    }
}

/// A rectangle: its top-left corner and its size.
#[derive(Clone, Copy, PartialEq, Eq, Structural, Debug)]
pub struct Rect {
    pub pos: Point,
    pub size: Size,
}

/// A rectangle as the platform writes it: its four edges.
#[derive(Clone, Copy, PartialEq, Eq, Structural, Debug)]
pub struct Edges {
    pub left: i32,
    pub top: i32,
    pub right: i32,
    pub bottom: i32,
}

impl Rect {
    /// Whether the size has non-negative dimensions, as every constructor ensures.
    pub open spec fn wf(self) -> bool {
        self.size.spec_cx() >= 0 && self.size.spec_cy() >= 0
    }

    pub fn new(pos: Point, size: Size) -> (r: Rect)
        ensures
            r == (Rect { pos, size }),
    {
        Rect { pos, size }
    }

    pub fn size(&self) -> (r: Size)
        ensures
            r == self.size,
    {
        self.size
    }

    pub fn top_left(&self) -> (r: Point)
        ensures
            r == self.pos,
    {
        self.pos
    }

    pub fn bottom_left(&self) -> (r: Point)
        requires
            self.wf(),
        ensures
            r == spec_point(self.pos.x as int, self.pos.y + self.size.spec_cy()),
    {
        Point::new(
            self.pos.x(),
            saturating_add_isize(self.pos.y(), clamp_usize_to_positive_isize(self.size.cy())),
        )
    }

    pub fn top_right(&self) -> (r: Point)
        requires
            self.wf(),
        ensures
            r == spec_point(self.pos.x + self.size.spec_cx(), self.pos.y as int),
    {
        Point::new(
            saturating_add_isize(self.pos.x(), clamp_usize_to_positive_isize(self.size.cx())),
            self.pos.y(),
        )
    }

    pub fn bottom_right(&self) -> (r: Point)
        requires
            self.wf(),
        ensures
            r == spec_point(self.pos.x + self.size.spec_cx(), self.pos.y + self.size.spec_cy()),
    {
        Point::new(
            saturating_add_isize(self.pos.x(), clamp_usize_to_positive_isize(self.size.cx())),
            saturating_add_isize(self.pos.y(), clamp_usize_to_positive_isize(self.size.cy())),
        )
    }

    /// The rectangle moved up and left by `distance`, its size grown by twice
    /// `distance`; every coordinate and dimension clamped into the platform's range.
    pub fn deflate(&self, distance: usize) -> (r: Rect)
        requires
            self.wf(),
        ensures
            r.pos == spec_point(
                self.pos.x - clamp(distance as int, 0, isize::MAX as int),
                self.pos.y - clamp(distance as int, 0, isize::MAX as int),
            ),
            r.size.spec_cx() == clamp(self.size.spec_cx() + 2 * distance, 0, i32::MAX as int),
            r.size.spec_cy() == clamp(self.size.spec_cy() + 2 * distance, 0, i32::MAX as int),
            r.wf(),
    {
        let d = clamp_usize_to_positive_isize(distance);
        let twice = distance.saturating_add(distance);
        Rect {
            pos: Point::new(
                saturating_sub_isize(self.pos.x(), d),
                saturating_sub_isize(self.pos.y(), d),
            ),
            size: Size::new(
                self.size.cx().saturating_add(twice),
                self.size.cy().saturating_add(twice),
            ),
        }
    }

    /// Whether `pt` lies in the rectangle: its top and left edges included, its
    /// bottom and right edges excluded.
    pub fn contains(&self, pt: Point) -> (r: bool)
        requires
            self.wf(),
        ensures
            r == ({
                let br = spec_point(
                    self.pos.x + self.size.spec_cx(),
                    self.pos.y + self.size.spec_cy(),
                );
                self.pos.x <= pt.x < br.x && self.pos.y <= pt.y < br.y
            }),
    {
        let bottom_right = self.bottom_right();
        if pt.x >= self.pos.x && pt.x < bottom_right.x {
            if pt.y >= self.pos.y && pt.y < bottom_right.y {
                return true;
            }
        }
        false
    }

    /// The rectangle with these edges; a negative width or height becomes zero.
    pub fn from_edges(v: Edges) -> (r: Rect)
        requires
            i32::MIN <= v.right - v.left <= i32::MAX,
            i32::MIN <= v.bottom - v.top <= i32::MAX,
        ensures
            r.pos == (Point { x: v.left, y: v.top }),
            r.size.spec_cx() == clamp(v.right - v.left, 0, i32::MAX as int),
            r.size.spec_cy() == clamp(v.bottom - v.top, 0, i32::MAX as int),
            r.wf(),
    {
        Rect {
            pos: Point::new(v.left as isize, v.top as isize),
            size: Size::new(
                clamp_i32_to_positive_i32(v.right - v.left) as usize,
                clamp_i32_to_positive_i32(v.bottom - v.top) as usize,
            ),
        }
    }

    /// The edges of the rectangle: its top-left and bottom-right corners.
    pub fn to_edges(&self) -> (r: Edges)
        requires
            self.wf(),
        ensures
            r.left == self.pos.x,
            r.top == self.pos.y,
            r.right == spec_point(self.pos.x + self.size.spec_cx(), 0).x,
            r.bottom == spec_point(0, self.pos.y + self.size.spec_cy()).y,
    {
        let left_top = self.top_left();
        let right_bottom = self.bottom_right();
        Edges { left: left_top.x, top: left_top.y, right: right_bottom.x, bottom: right_bottom.y }
    }
}

} // verus!
