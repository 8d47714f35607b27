//! Element geometry: points, four-cornered regions and box models, and the
//! relations between regions that the placement checks are built from.
//!
//! Coordinates are integers on a grid of the caller's choosing; nothing
//! here adds or scales them, they are only compared. As on a page, `x`
//! grows to the right and `y` grows downward, so the top of a region is
//! its smallest `y`.

use vstd::prelude::*;

verus! {

/// A point of the page.
#[derive(Clone, Copy, Debug, PartialEq, Eq, Structural)]
pub struct Point {
    pub x: i64,
    pub y: i64,
}

/// A region given by its four corners. The corners need not form an
/// upright rectangle; every relation goes by the region's outermost edges.
#[derive(Clone, Copy, Debug, PartialEq, Eq, Structural)]
pub struct Quad {
    pub top_left: Point,
    pub top_right: Point,
    pub bottom_left: Point,
    pub bottom_right: Point,
}

/// The geometry of one element: its content region and, around it, its
/// margin region.
#[derive(Clone, Copy, Debug, PartialEq, Eq, Structural)]
pub struct BoxModel {
    pub content: Quad,
    pub margin: Quad,
}

/// The smaller of two numbers.
pub open spec fn min2(a: int, b: int) -> int {
    if a <= b {
        a
    } else {
        b
    }
}

/// The larger of two numbers.
pub open spec fn max2(a: int, b: int) -> int {
    if a >= b {
        a
    } else {
        b
    }
}

fn smaller(a: i64, b: i64) -> (r: i64)
    ensures
        r == min2(a as int, b as int),
{
    if a <= b {
        a
    } else {
        b
    }
}

fn larger(a: i64, b: i64) -> (r: i64)
    ensures
        r == max2(a as int, b as int),
{
    if a >= b {
        a
    } else {
        b
    }
}

impl Quad {
    /// Whether `p` is one of the four corners.
    pub open spec fn has_corner(self, p: Point) -> bool {
        p == self.top_left || p == self.top_right || p == self.bottom_left || p
            == self.bottom_right
    }

    /// The smallest `x` of the corners.
    pub open spec fn left_edge(self) -> int {
        min2(
            min2(min2(self.top_right.x as int, self.top_left.x as int), self.bottom_right.x as int),
            self.bottom_left.x as int,
        )
    }

    /// The largest `x` of the corners.
    pub open spec fn right_edge(self) -> int {
        max2(
            max2(max2(self.top_right.x as int, self.top_left.x as int), self.bottom_right.x as int),
            self.bottom_left.x as int,
        )
    }

    /// The smallest `y` of the corners.
    pub open spec fn top_edge(self) -> int {
        min2(
            min2(min2(self.top_right.y as int, self.top_left.y as int), self.bottom_right.y as int),
            self.bottom_left.y as int,
        )
    }

    /// The largest `y` of the corners.
    pub open spec fn bottom_edge(self) -> int {
        max2(
            max2(max2(self.top_right.y as int, self.top_left.y as int), self.bottom_right.y as int),
            self.bottom_left.y as int,
        )
    }

    /// Whether `p` lies between the outermost edges of the region.
    pub open spec fn bounds(self, p: Point) -> bool {
        self.left_edge() <= p.x <= self.right_edge() && self.top_edge() <= p.y
            <= self.bottom_edge()
    }

    /// No part of the region lies lower than any part of `other`.
    pub open spec fn is_above(self, other: Quad) -> bool {
        self.bottom_edge() <= other.top_edge()
    }

    /// The region's horizontal extent lies within that of `other`.
    pub open spec fn is_within_horizontal_bounds_of(self, other: Quad) -> bool {
        self.left_edge() >= other.left_edge() && self.right_edge() <= other.right_edge()
    }

    /// The region's vertical extent lies within that of `other`.
    pub open spec fn is_within_vertical_bounds_of(self, other: Quad) -> bool {
        self.top_edge() >= other.top_edge() && self.bottom_edge() <= other.bottom_edge()
    }

    /// The region lies within the outermost edges of `other`.
    pub open spec fn is_within_bounds_of(self, other: Quad) -> bool {
        self.is_within_horizontal_bounds_of(other) && self.is_within_vertical_bounds_of(other)
    }

    /// The right edges of the two regions coincide.
    pub open spec fn shares_right_edge_with(self, other: Quad) -> bool {
        self.right_edge() == other.right_edge()
    }

    /// The region sits on `other` without a gap: its lowest edge is the
    /// highest edge of `other`.
    pub open spec fn is_flush_above(self, other: Quad) -> bool {
        self.bottom_edge() == other.top_edge()
    }

    /// The smallest `x` of the corners.
    pub fn most_left(&self) -> (r: i64)
        ensures
            r == self.left_edge(),
    {
        smaller(
            smaller(smaller(self.top_right.x, self.top_left.x), self.bottom_right.x),
            self.bottom_left.x,
        )
    }

    /// The largest `x` of the corners.
    pub fn most_right(&self) -> (r: i64)
        ensures
            r == self.right_edge(),
    {
        larger(
            larger(larger(self.top_right.x, self.top_left.x), self.bottom_right.x),
            self.bottom_left.x,
        )
    }

    /// The smallest `y` of the corners.
    pub fn most_top(&self) -> (r: i64)
        ensures
            r == self.top_edge(),
    {
        smaller(
            smaller(smaller(self.top_right.y, self.top_left.y), self.bottom_right.y),
            self.bottom_left.y,
        )
    }

    /// The largest `y` of the corners.
    pub fn most_bottom(&self) -> (r: i64)
        ensures
            r == self.bottom_edge(),
    {
        larger(
            larger(larger(self.top_right.y, self.top_left.y), self.bottom_right.y),
            self.bottom_left.y,
        )
    }

    /// Whether the region lies above `other`, touching allowed.
    pub fn above(&self, other: &Quad) -> (r: bool)
        ensures
            r == self.is_above(*other),
    {
        self.most_bottom() <= other.most_top()
    }

    /// Whether the region's horizontal extent lies within that of `other`.
    pub fn within_horizontal_bounds_of(&self, other: &Quad) -> (r: bool)
        ensures
            r == self.is_within_horizontal_bounds_of(*other),
    {
        self.most_left() >= other.most_left() && self.most_right() <= other.most_right()
    }

    /// Whether the region's vertical extent lies within that of `other`.
    pub fn within_vertical_bounds_of(&self, other: &Quad) -> (r: bool)
        ensures
            r == self.is_within_vertical_bounds_of(*other),
    {
        self.most_top() >= other.most_top() && self.most_bottom() <= other.most_bottom()
    }

    /// Whether the region lies within the outermost edges of `other`.
    pub fn within_bounds_of(&self, other: &Quad) -> (r: bool)
        ensures
            r == self.is_within_bounds_of(*other),
    {
        self.within_horizontal_bounds_of(other) && self.within_vertical_bounds_of(other)
    }

    /// Whether the right edges of the two regions coincide.
    pub fn right_edge_matches(&self, other: &Quad) -> (r: bool)
        ensures
            r == self.shares_right_edge_with(*other),
    {
        self.most_right() == other.most_right()
    }

    /// Whether the region sits on `other` without a gap.
    pub fn flush_above(&self, other: &Quad) -> (r: bool)
        ensures
            r == self.is_flush_above(*other),
    {
        self.most_bottom() == other.most_top()
    }

    /// The outermost edges enclose every corner, and each of them runs
    /// through a corner.
    pub proof fn lemma_edges(self)
        ensures
            forall|p: Point| self.has_corner(p) ==> self.bounds(p),
            exists|p: Point| self.has_corner(p) && p.x == self.left_edge(),
            exists|p: Point| self.has_corner(p) && p.x == self.right_edge(),
            exists|p: Point| self.has_corner(p) && p.y == self.top_edge(),
            exists|p: Point| self.has_corner(p) && p.y == self.bottom_edge(),
    {
        let l = self.left_edge();
        let r = self.right_edge();
        let t = self.top_edge();
        let b = self.bottom_edge();
        self.lemma_edge_corner(l, r, t, b);
    }

    /// Each outermost edge runs through one of the four corners.
    proof fn lemma_edge_corner(self, l: int, r: int, t: int, b: int)
        requires
            l == self.left_edge(),
            r == self.right_edge(),
            t == self.top_edge(),
            b == self.bottom_edge(),
        ensures
            exists|p: Point| self.has_corner(p) && p.x == l,
            exists|p: Point| self.has_corner(p) && p.x == r,
            exists|p: Point| self.has_corner(p) && p.y == t,
            exists|p: Point| self.has_corner(p) && p.y == b,
    {
        let c = seq![self.top_left, self.top_right, self.bottom_left, self.bottom_right];
        assert(forall|i: int| 0 <= i < 4 ==> self.has_corner(#[trigger] c[i]));
        assert(c[0].x == l || c[1].x == l || c[2].x == l || c[3].x == l);
        assert(c[0].x == r || c[1].x == r || c[2].x == r || c[3].x == r);
        assert(c[0].y == t || c[1].y == t || c[2].y == t || c[3].y == t);
        assert(c[0].y == b || c[1].y == b || c[2].y == b || c[3].y == b);
    }

    /// A region lies within the bounds of another exactly when each of its
    /// corners does.
    pub proof fn lemma_within_bounds_by_corners(self, other: Quad)
        ensures
            self.is_within_bounds_of(other) <==> (forall|p: Point|
                self.has_corner(p) ==> other.bounds(p)),
    {
        self.lemma_edges();
        if forall|p: Point| self.has_corner(p) ==> other.bounds(p) {
            assert(other.bounds(self.top_left));
            assert(other.bounds(self.top_right));
            assert(other.bounds(self.bottom_left));
            assert(other.bounds(self.bottom_right));
        }
    }

    /// A region lies above another exactly when none of its corners is
    /// lower than any corner of the other.
    pub proof fn lemma_above_by_corners(self, other: Quad)
        ensures
            self.is_above(other) <==> (forall|p: Point, q: Point|
                self.has_corner(p) && other.has_corner(q) ==> p.y <= q.y),
    {
        self.lemma_edges();
        other.lemma_edges();
        if forall|p: Point, q: Point| self.has_corner(p) && other.has_corner(q) ==> p.y <= q.y {
            let p = choose|p: Point| self.has_corner(p) && p.y == self.bottom_edge();
            let q = choose|q: Point| other.has_corner(q) && q.y == other.top_edge();
            assert(p.y <= q.y);
        }
    }
}

} // verus!
