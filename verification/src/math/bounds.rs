use crate::math::fixed::{fits, trunc_div, Fixed};
use crate::math::vector2::Vector2;
use std::ops::{Add, Sub};
use vstd::prelude::*;
use vstd::std_specs::ops::{AddSpec, SubSpec};

verus! {

/// A position in the plane.
pub type Point = Vector2<Fixed>;

/// An axis-aligned rectangle. Width and height may be negative: the
/// rectangle then extends to the left of `x`, or above `y`.
#[derive(Clone, Copy, Debug, PartialEq, Eq, Structural)]
pub struct Rect {
    pub x: Fixed,
    pub y: Fixed,
    pub w: Fixed,
    pub h: Fixed,
}

/// The point halfway between the given edges.
pub open spec fn center_between(left: Fixed, right: Fixed, top: Fixed, bottom: Fixed) -> Point {
    Vector2 { x: left.spec_midpoint(right), y: top.spec_midpoint(bottom) }
}

/// Whether `point` lies within the given edges or on one of them.
pub open spec fn edges_contain(
    left: Fixed,
    right: Fixed,
    top: Fixed,
    bottom: Fixed,
    point: Point,
) -> bool {
    &&& point.x@ >= left@
    &&& point.x@ <= right@
    &&& point.y@ >= top@
    &&& point.y@ <= bottom@
}

/// Whether two shapes with the given edges share at least one point: the
/// closed intervals overlap on both axes, so touching edges count.
pub open spec fn edges_intersect(
    left: Fixed,
    right: Fixed,
    top: Fixed,
    bottom: Fixed,
    other_left: Fixed,
    other_right: Fixed,
    other_top: Fixed,
    other_bottom: Fixed,
) -> bool {
    &&& left@ <= other_right@
    &&& right@ >= other_left@
    &&& top@ <= other_bottom@
    &&& bottom@ >= other_top@
}

/// The four edges of a shape, its center, and what follows from them.
pub trait Bounds: Sized {
    spec fn spec_top(&self) -> Fixed;

    spec fn spec_bottom(&self) -> Fixed;

    spec fn spec_left(&self) -> Fixed;

    spec fn spec_right(&self) -> Fixed;

    /// The shape moved so that its center lies at `position`.
    spec fn spec_set_center(&self, position: Point) -> Self;

    /// The left edge is never right of the right edge, nor the top edge
    /// below the bottom edge, whatever the signs of width and height.
    proof fn lemma_edges_ordered(&self)
        ensures
            self.spec_left()@ <= self.spec_right()@,
            self.spec_top()@ <= self.spec_bottom()@,
    ;

    /// The smaller of the two vertical ends.
    fn top(&self) -> (r: Fixed)
        ensures
            r == self.spec_top(),
    ;

    /// The larger of the two vertical ends.
    fn bottom(&self) -> (r: Fixed)
        ensures
            r == self.spec_bottom(),
    ;

    /// The smaller of the two horizontal ends.
    fn left(&self) -> (r: Fixed)
        ensures
            r == self.spec_left(),
    ;

    /// The larger of the two horizontal ends.
    fn right(&self) -> (r: Fixed)
        ensures
            r == self.spec_right(),
    ;

    /// The point halfway between the edges.
    fn center(&self) -> (r: Point)
        ensures
            r == center_between(
                self.spec_left(),
                self.spec_right(),
                self.spec_top(),
                self.spec_bottom(),
            ),
    ;

    /// Moves the shape so that its center lies at `position`.
    fn set_center(&mut self, position: Point)
        ensures
            *final(self) == old(self).spec_set_center(position),
    ;

    /// Whether `point` lies within the shape or on its border.
    fn is_inside(&self, point: Point) -> (r: bool)
        ensures
            r == edges_contain(
                self.spec_left(),
                self.spec_right(),
                self.spec_top(),
                self.spec_bottom(),
                point,
            ),
    {
        let top = self.top();
        let bottom = self.bottom();
        let left = self.left();
        let right = self.right();

        point.x.raw >= left.raw && point.x.raw <= right.raw && point.y.raw >= top.raw
            && point.y.raw <= bottom.raw
    }

    /// Whether the two shapes share at least one point.
    fn intersects(&self, other: Self) -> (r: bool)
        ensures
            r == edges_intersect(
                self.spec_left(),
                self.spec_right(),
                self.spec_top(),
                self.spec_bottom(),
                other.spec_left(),
                other.spec_right(),
                other.spec_top(),
                other.spec_bottom(),
            ),
    {
        self.left().raw <= other.right().raw && self.right().raw >= other.left().raw
            && self.top().raw <= other.bottom().raw && self.bottom().raw >= other.top().raw
    }
}

impl Rect {
    pub fn new(x: Fixed, y: Fixed, w: Fixed, h: Fixed) -> (r: Self)
        ensures
            r == (Rect { x, y, w, h }),
    {
        Rect { x, y, w, h }
    }

    /// The point halfway between the edges.
    pub open spec fn spec_center(&self) -> Point {
        center_between(self.spec_left(), self.spec_right(), self.spec_top(), self.spec_bottom())
    }

    /// Whether `point` lies inside the rectangle or on its border.
    pub open spec fn spec_is_inside(&self, point: Point) -> bool {
        edges_contain(
            self.spec_left(),
            self.spec_right(),
            self.spec_top(),
            self.spec_bottom(),
            point,
        )
    }

    /// Whether the two rectangles share at least one point.
    pub open spec fn spec_intersects(&self, other: Rect) -> bool {
        edges_intersect(
            self.spec_left(),
            self.spec_right(),
            self.spec_top(),
            self.spec_bottom(),
            other.spec_left(),
            other.spec_right(),
            other.spec_top(),
            other.spec_bottom(),
        )
    }

    /// The part that two rectangles have in common, with a width and a
    /// height that are not negative where the two intersect.
    pub open spec fn spec_intersection(&self, other: Rect) -> Rect {
        let x = self.spec_left().spec_max(other.spec_left());
        let y = self.spec_top().spec_max(other.spec_top());
        Rect {
            x,
            y,
            w: self.spec_right().spec_min(other.spec_right()).sub_spec(x),
            h: self.spec_bottom().spec_min(other.spec_bottom()).sub_spec(y),
        }
    }

    /// The part that the two rectangles have in common.
    pub fn intersection(&self, other: Rect) -> (r: Rect)
        ensures
            r == self.spec_intersection(other),
    {
        let x = self.left().max(other.left());
        let y = self.top().max(other.top());
        Rect {
            x,
            y,
            w: self.right().min(other.right()) - x,
            h: self.bottom().min(other.bottom()) - y,
        }
    }
}

/// Intersection does not depend on the order of the two rectangles.
pub proof fn lemma_intersects_symmetric(a: Rect, b: Rect)
    ensures
        a.spec_intersects(b) == b.spec_intersects(a),
{
}

/// Two rectangles that share a vertical boundary edge, the right edge of
/// one being the left edge of the other, and that overlap vertically,
/// intersect.
pub proof fn lemma_shared_vertical_edge_intersects(a: Rect, b: Rect)
    requires
        a.spec_right()@ == b.spec_left()@,
        a.spec_top()@ <= b.spec_bottom()@,
        a.spec_bottom()@ >= b.spec_top()@,
    ensures
        a.spec_intersects(b),
        b.spec_intersects(a),
{
    a.lemma_edges_ordered();
    b.lemma_edges_ordered();
}

/// Two rectangles that share a horizontal boundary edge, the bottom edge
/// of one being the top edge of the other, and that overlap horizontally,
/// intersect.
pub proof fn lemma_shared_horizontal_edge_intersects(a: Rect, b: Rect)
    requires
        a.spec_bottom()@ == b.spec_top()@,
        a.spec_left()@ <= b.spec_right()@,
        a.spec_right()@ >= b.spec_left()@,
    ensures
        a.spec_intersects(b),
        b.spec_intersects(a),
{
    a.lemma_edges_ordered();
    b.lemma_edges_ordered();
}

/// A rectangle intersects itself.
pub proof fn lemma_intersects_reflexive(a: Rect)
    ensures
        a.spec_intersects(a),
{
    a.lemma_edges_ordered();
}

/// Where two rectangles intersect, what they have in common is neither
/// narrower nor lower than nothing, starts at the larger of the two left
/// and top edges, and ends no further than the smaller of the two right
/// and bottom edges: exactly there as long as its width and height can be
/// told. It does not depend on the order of the two.
pub proof fn lemma_intersection_within(a: Rect, b: Rect)
    requires
        a.spec_intersects(b),
    ensures
        a.spec_intersection(b) == b.spec_intersection(a),
        a.spec_intersection(b).w@ >= 0,
        a.spec_intersection(b).h@ >= 0,
        a.spec_intersection(b).spec_left() == a.spec_left().spec_max(b.spec_left()),
        a.spec_intersection(b).spec_top() == a.spec_top().spec_max(b.spec_top()),
        a.spec_intersection(b).spec_right()@ <= a.spec_right().spec_min(b.spec_right())@,
        a.spec_intersection(b).spec_bottom()@ <= a.spec_bottom().spec_min(b.spec_bottom())@,
        fits(a.spec_right().spec_min(b.spec_right())@ - a.spec_left().spec_max(b.spec_left())@)
            ==> a.spec_intersection(b).spec_right() == a.spec_right().spec_min(b.spec_right()),
        fits(a.spec_bottom().spec_min(b.spec_bottom())@ - a.spec_top().spec_max(b.spec_top())@)
            ==> a.spec_intersection(b).spec_bottom() == a.spec_bottom().spec_min(
            b.spec_bottom(),
        ),
        a.spec_intersects(a.spec_intersection(b)),
        b.spec_intersects(a.spec_intersection(b)),
{
    a.lemma_edges_ordered();
    b.lemma_edges_ordered();
}

/// Moving a rectangle's center to `position` puts its center there, to
/// within one millionth, and exactly where width and height are an even
/// number of millionths. This holds as long as the moved rectangle stays
/// within the range of numbers.
pub proof fn lemma_set_center_then_center(r: Rect, position: Point)
    requires
        fits(position.x@ - trunc_div(r.w@, 2)),
        fits(position.y@ - trunc_div(r.h@, 2)),
        fits(position.x@ - trunc_div(r.w@, 2) + r.w@),
        fits(position.y@ - trunc_div(r.h@, 2) + r.h@),
    ensures
        r.spec_set_center(position).w == r.w,
        r.spec_set_center(position).h == r.h,
        -1 <= r.spec_set_center(position).spec_center().x@ - position.x@ <= 1,
        -1 <= r.spec_set_center(position).spec_center().y@ - position.y@ <= 1,
        r.w@ % 2 == 0 ==> r.spec_set_center(position).spec_center().x == position.x,
        r.h@ % 2 == 0 ==> r.spec_set_center(position).spec_center().y == position.y,
{
}

impl Bounds for Rect {
    open spec fn spec_top(&self) -> Fixed {
        if self.h@ < 0 {
            self.y.add_spec(self.h)
        } else {
            self.y
        }
    }

    open spec fn spec_bottom(&self) -> Fixed {
        if self.h@ < 0 {
            self.y
        } else {
            self.y.add_spec(self.h)
        }
    }

    open spec fn spec_left(&self) -> Fixed {
        if self.w@ < 0 {
            self.x.add_spec(self.w)
        } else {
            self.x
        }
    }

    open spec fn spec_right(&self) -> Fixed {
        if self.w@ < 0 {
            self.x
        } else {
            self.x.add_spec(self.w)
        }
    }

    open spec fn spec_set_center(&self, position: Point) -> Rect {
        Rect {
            x: position.x.sub_spec(self.w.spec_half()),
            y: position.y.sub_spec(self.h.spec_half()),
            w: self.w,
            h: self.h,
        }
    }

    proof fn lemma_edges_ordered(&self) {
    }

    fn top(&self) -> (r: Fixed) {
        if self.h.raw < 0 {
            self.y + self.h
        } else {
            self.y
        }
    }

    fn bottom(&self) -> (r: Fixed) {
        if self.h.raw < 0 {
            self.y
        } else {
            self.y + self.h
        }
    }

    fn left(&self) -> (r: Fixed) {
        if self.w.raw < 0 {
            self.x + self.w
        } else {
            self.x
        }
    }

    fn right(&self) -> (r: Fixed) {
        if self.w.raw < 0 {
            self.x
        } else {
            self.x + self.w
        }
    }

    fn center(&self) -> (r: Point) {
        Vector2 {
            x: self.left().midpoint(self.right()),
            y: self.top().midpoint(self.bottom()),
        }
    }

    fn set_center(&mut self, position: Point) {
        self.x = position.x - self.w.half();
        self.y = position.y - self.h.half();
    }
}

} // verus!
