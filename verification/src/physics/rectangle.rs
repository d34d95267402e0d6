//! Oriented rectangles on an integer grid and their overlap test.
//!
//! A rectangle is its four corners. Coordinates are whole numbers of grid
//! steps; how fine a step is (a pixel, a 64th of a pixel, ...) is the
//! caller's choice and the only place where a position is ever rounded.
//! From there on every projection is computed exactly, in integers wide
//! enough that nothing can overflow, and intervals are compared without any
//! tolerance.

use crate::physics::vector::Vector2;
use vstd::math::{max, min};
use vstd::prelude::*;

verus! {

/// A point or a direction of the plane, in grid steps.
pub type Point = (int, int);

/// The four corners of a rectangle, as mathematical points.
pub struct Corners {
    pub lower_left: Point,
    pub upper_left: Point,
    pub lower_right: Point,
    pub upper_right: Point,
}

/// The mathematical point that a grid vector stands for.
pub open spec fn point_of(v: Vector2<i32>) -> Point {
    (v@.0 as int, v@.1 as int)
}

/// The mathematical direction that an axis stands for.
pub open spec fn direction_of(v: Vector2<i64>) -> Point {
    (v@.0 as int, v@.1 as int)
}

/// `a - b`, component by component.
pub open spec fn difference(a: Point, b: Point) -> Point {
    (a.0 - b.0, a.1 - b.1)
}

/// The scalar that places `corner` along `axis`: their dot product. It is
/// the length of the projection of `corner` onto `axis`, scaled by the
/// length of `axis`, so along one axis it orders points exactly as their
/// projections do.
pub open spec fn projection(corner: Point, axis: Point) -> int {
    corner.0 * axis.0 + corner.1 * axis.1
}

/// The low end of the interval that the corners cover along `axis`.
pub open spec fn low_end(corners: Corners, axis: Point) -> int {
    min(
        min(projection(corners.upper_left, axis), projection(corners.upper_right, axis)),
        min(projection(corners.lower_left, axis), projection(corners.lower_right, axis)),
    )
}

/// The high end of the interval that the corners cover along `axis`.
pub open spec fn high_end(corners: Corners, axis: Point) -> int {
    max(
        max(projection(corners.upper_left, axis), projection(corners.upper_right, axis)),
        max(projection(corners.lower_left, axis), projection(corners.lower_right, axis)),
    )
}

/// Along `axis` the two intervals share at least one value. Touching ends
/// count as shared.
pub open spec fn overlap_on(a: Corners, b: Corners, axis: Point) -> bool {
    low_end(a, axis) <= high_end(b, axis) && low_end(b, axis) <= high_end(a, axis)
}

/// The four directions that are tested: two edges of `a`, then two edges of
/// `b`.
pub open spec fn candidate_axes(a: Corners, b: Corners) -> Seq<Point> {
    seq![
        difference(a.upper_right, a.upper_left),
        difference(a.upper_right, a.lower_right),
        difference(b.upper_left, b.lower_left),
        difference(b.upper_left, b.upper_right),
    ]
}

/// No candidate axis separates `a` from `b`.
pub open spec fn no_axis_separates(a: Corners, b: Corners) -> bool {
    forall|k: int| 0 <= k < 4 ==> overlap_on(a, b, #[trigger] candidate_axes(a, b)[k])
}

/// Four weights, one for each corner of a rectangle.
pub struct Weights {
    pub lower_left: int,
    pub upper_left: int,
    pub lower_right: int,
    pub upper_right: int,
}

impl Weights {
    /// The four weights together.
    pub open spec fn total(self) -> int {
        self.lower_left + self.upper_left + self.lower_right + self.upper_right
    }

    /// No weight is negative and not all are zero.
    pub open spec fn valid(self) -> bool {
        &&& self.lower_left >= 0
        &&& self.upper_left >= 0
        &&& self.lower_right >= 0
        &&& self.upper_right >= 0
        &&& self.total() > 0
    }
}

/// The corners, each multiplied by its weight, added up. Divided by the total
/// weight this is a point of the area that the corners span, and every point
/// of that area with rational coordinates arises so.
pub open spec fn blend(corners: Corners, weights: Weights) -> Point {
    (
        weights.lower_left * corners.lower_left.0 + weights.upper_left * corners.upper_left.0
            + weights.lower_right * corners.lower_right.0 + weights.upper_right
            * corners.upper_right.0,
        weights.lower_left * corners.lower_left.1 + weights.upper_left * corners.upper_left.1
            + weights.lower_right * corners.lower_right.1 + weights.upper_right
            * corners.upper_right.1,
    )
}

/// The weighted point of `a` and the weighted point of `b` are one and the
/// same point of the plane. Both sides are cleared of their divisors.
pub open spec fn same_point(a: Corners, wa: Weights, b: Corners, wb: Weights) -> bool {
    &&& wb.total() * blend(a, wa).0 == wa.total() * blend(b, wb).0
    &&& wb.total() * blend(a, wa).1 == wa.total() * blend(b, wb).1
}

/// Along any axis a weighted point lies between the ends of the interval
/// that the corners cover.
proof fn lemma_blend_within_ends(corners: Corners, weights: Weights, axis: Point)
    requires
        weights.valid(),
    ensures
        weights.total() * low_end(corners, axis) <= projection(blend(corners, weights), axis),
        projection(blend(corners, weights), axis) <= weights.total() * high_end(corners, axis),
{
    let low = low_end(corners, axis);
    let high = high_end(corners, axis);
    let p0 = projection(corners.lower_left, axis);
    let p1 = projection(corners.upper_left, axis);
    let p2 = projection(corners.lower_right, axis);
    let p3 = projection(corners.upper_right, axis);
    let w0 = weights.lower_left;
    let w1 = weights.upper_left;
    let w2 = weights.lower_right;
    let w3 = weights.upper_right;
    lemma_weighted_projection(w0, corners.lower_left, axis);
    lemma_weighted_projection(w1, corners.upper_left, axis);
    lemma_weighted_projection(w2, corners.lower_right, axis);
    lemma_weighted_projection(w3, corners.upper_right, axis);
    lemma_sum_times(
        w0 * corners.lower_left.0,
        w1 * corners.upper_left.0,
        w2 * corners.lower_right.0,
        w3 * corners.upper_right.0,
        axis.0,
    );
    lemma_sum_times(
        w0 * corners.lower_left.1,
        w1 * corners.upper_left.1,
        w2 * corners.lower_right.1,
        w3 * corners.upper_right.1,
        axis.1,
    );
    assert(projection(blend(corners, weights), axis) == w0 * p0 + w1 * p1 + w2 * p2 + w3 * p3);
    lemma_weighted_between(w0, p0, low, high);
    lemma_weighted_between(w1, p1, low, high);
    lemma_weighted_between(w2, p2, low, high);
    lemma_weighted_between(w3, p3, low, high);
    lemma_sum_times(w0, w1, w2, w3, low);
    lemma_sum_times(w0, w1, w2, w3, high);
}

/// A weight times a projection is the projection of the weighted point.
proof fn lemma_weighted_projection(weight: int, corner: Point, axis: Point)
    by (nonlinear_arith)
    ensures
        weight * projection(corner, axis) == (weight * corner.0) * axis.0 + (weight * corner.1)
            * axis.1,
{
}

/// A sum of four terms times a factor is the sum of the four products.
proof fn lemma_sum_times(a: int, b: int, c: int, d: int, factor: int)
    by (nonlinear_arith)
    ensures
        (a + b + c + d) * factor == a * factor + b * factor + c * factor + d * factor,
{
}

/// A value between two bounds stays between them when all three are
/// multiplied by a weight that is not negative.
proof fn lemma_weighted_between(weight: int, value: int, low: int, high: int)
    by (nonlinear_arith)
    requires
        weight >= 0,
        low <= value <= high,
    ensures
        weight * low <= weight * value <= weight * high,
{
}

/// If two intervals are apart, so are they after both are stretched by the
/// same positive factors.
proof fn lemma_gap_survives_scaling(wa: int, wb: int, high: int, low: int, sa: int, sb: int)
    by (nonlinear_arith)
    requires
        wa > 0,
        wb > 0,
        high < low,
        sa <= wa * high,
        wb * low <= sb,
    ensures
        wb * sa < wa * sb,
{
    assert(wb * sa <= wb * (wa * high));
    assert(wa * (wb * low) <= wa * sb);
    assert(wb * (wa * high) < wa * (wb * low));
}

/// The projection of a weighted point is the weighted point's two
/// coordinates taken along the axis, so equal points project equally.
proof fn lemma_same_point_projects_equally(
    a: Corners,
    wa: Weights,
    b: Corners,
    wb: Weights,
    axis: Point,
)
    requires
        same_point(a, wa, b, wb),
    ensures
        wb.total() * projection(blend(a, wa), axis) == wa.total() * projection(
            blend(b, wb),
            axis,
        ),
{
    let pa = blend(a, wa);
    let pb = blend(b, wb);
    let ta = wa.total();
    let tb = wb.total();
    assert(tb * (pa.0 * axis.0 + pa.1 * axis.1) == ta * (pb.0 * axis.0 + pb.1 * axis.1))
        by (nonlinear_arith)
        requires
            tb * pa.0 == ta * pb.0,
            tb * pa.1 == ta * pb.1,
    {
        assert(tb * (pa.0 * axis.0) == (tb * pa.0) * axis.0);
        assert(tb * (pa.1 * axis.1) == (tb * pa.1) * axis.1);
        assert(ta * (pb.0 * axis.0) == (ta * pb.0) * axis.0);
        assert(ta * (pb.1 * axis.1) == (ta * pb.1) * axis.1);
    }
}

/// Two sets of corners whose intervals along one axis are apart span areas
/// without a common point.
pub proof fn lemma_separating_axis(a: Corners, b: Corners, axis: Point, wa: Weights, wb: Weights)
    requires
        !overlap_on(a, b, axis),
        wa.valid(),
        wb.valid(),
    ensures
        !same_point(a, wa, b, wb),
{
    if same_point(a, wa, b, wb) {
        lemma_same_point_projects_equally(a, wa, b, wb, axis);
        lemma_blend_within_ends(a, wa, axis);
        lemma_blend_within_ends(b, wb, axis);
        let sa = projection(blend(a, wa), axis);
        let sb = projection(blend(b, wb), axis);
        if high_end(b, axis) < low_end(a, axis) {
            lemma_gap_survives_scaling(
                wb.total(),
                wa.total(),
                high_end(b, axis),
                low_end(a, axis),
                sb,
                sa,
            );
        } else {
            lemma_gap_survives_scaling(
                wa.total(),
                wb.total(),
                high_end(a, axis),
                low_end(b, axis),
                sa,
                sb,
            );
        }
    }
}

/// Where the test reports no collision there is none: the two rectangles
/// have no point in common, whatever their shape.
pub proof fn lemma_no_collision_means_apart(a: Corners, b: Corners, wa: Weights, wb: Weights)
    requires
        !no_axis_separates(a, b),
        wa.valid(),
        wb.valid(),
    ensures
        !same_point(a, wa, b, wb),
{
    let k = choose|k: int| 0 <= k < 4 && !overlap_on(a, b, #[trigger] candidate_axes(a, b)[k]);
    lemma_separating_axis(a, b, candidate_axes(a, b)[k], wa, wb);
}

/// Every rectangle collides with itself.
pub proof fn lemma_collides_with_itself(a: Corners)
    ensures
        no_axis_separates(a, a),
{
}

/// An oriented rectangle, held as its four corners.
pub struct Rectangle {
    lower_left: Vector2<i32>,
    upper_left: Vector2<i32>,
    lower_right: Vector2<i32>,
    upper_right: Vector2<i32>,
}

impl View for Rectangle {
    type V = Corners;

    closed spec fn view(&self) -> Corners {
        Corners {
            lower_left: point_of(self.lower_left),
            upper_left: point_of(self.upper_left),
            lower_right: point_of(self.lower_right),
            upper_right: point_of(self.upper_right),
        }
    }
}

impl Rectangle {
    /// The rectangle with the given corners.
    pub fn from_corners(
        lower_left: Vector2<i32>,
        upper_left: Vector2<i32>,
        lower_right: Vector2<i32>,
        upper_right: Vector2<i32>,
    ) -> (rectangle: Self)
        ensures
            rectangle@ == (Corners {
                lower_left: point_of(lower_left),
                upper_left: point_of(upper_left),
                lower_right: point_of(lower_right),
                upper_right: point_of(upper_right),
            }),
    {
        Rectangle { lower_left, upper_left, lower_right, upper_right }
    }

    pub fn get_lower_left(&self) -> (corner: &Vector2<i32>)
        ensures
            point_of(*corner) == self@.lower_left,
    {
        &self.lower_left
    }

    pub fn get_upper_left(&self) -> (corner: &Vector2<i32>)
        ensures
            point_of(*corner) == self@.upper_left,
    {
        &self.upper_left
    }

    pub fn get_lower_right(&self) -> (corner: &Vector2<i32>)
        ensures
            point_of(*corner) == self@.lower_right,
    {
        &self.lower_right
    }

    pub fn get_upper_right(&self) -> (corner: &Vector2<i32>)
        ensures
            point_of(*corner) == self@.upper_right,
    {
        &self.upper_right
    }

    /// The direction from `from` to `to`.
    pub fn edge(to: &Vector2<i32>, from: &Vector2<i32>) -> (axis: Vector2<i64>)
        ensures
            direction_of(axis) == difference(point_of(*to), point_of(*from)),
    {
        Vector2::new(to.get_x() as i64 - from.get_x() as i64, to.get_y() as i64 - from.get_y() as i64)
    }

    /// Places `corner` along `axis`.
    pub fn generate_scalar(corner: &Vector2<i32>, axis: &Vector2<i64>) -> (scalar: i128)
        ensures
            scalar == projection(point_of(*corner), direction_of(*axis)),
    {
        let cx: i128 = corner.get_x() as i128;
        let cy: i128 = corner.get_y() as i128;
        let ax: i128 = axis.get_x() as i128;
        let ay: i128 = axis.get_y() as i128;
        assert(-0x8000_0000_0000_0000_0000_0000 <= cx * ax <= 0x8000_0000_0000_0000_0000_0000)
            by (nonlinear_arith)
            requires
                -0x8000_0000 <= cx <= 0x8000_0000,
                -0x8000_0000_0000_0000 <= ax <= 0x8000_0000_0000_0000,
        ;
        assert(-0x8000_0000_0000_0000_0000_0000 <= cy * ay <= 0x8000_0000_0000_0000_0000_0000)
            by (nonlinear_arith)
            requires
                -0x8000_0000 <= cy <= 0x8000_0000,
                -0x8000_0000_0000_0000 <= ay <= 0x8000_0000_0000_0000,
        ;
        cx * ax + cy * ay
    }

    /// The least and the greatest of four scalars.
    pub fn min_max(values: [i128; 4]) -> (ends: (i128, i128))
        ensures
            ends.0 == min(
                min(values[0] as int, values[1] as int),
                min(values[2] as int, values[3] as int),
            ),
            ends.1 == max(
                max(values[0] as int, values[1] as int),
                max(values[2] as int, values[3] as int),
            ),
    {
        let mut min: i128 = values[0];
        let mut max: i128 = values[0];
        let mut i: usize = 1;
        while i < 4
            invariant
                1 <= i <= 4,
                forall|k: int| 0 <= k < i ==> min <= values[k] && values[k] <= max,
                exists|k: int| 0 <= k < i && values[k] == min,
                exists|k: int| 0 <= k < i && values[k] == max,
            decreases 4 - i,
        {
            let value: i128 = values[i];
            if min > value {
                min = value;
            }
            if max < value {
                max = value;
            }
            i += 1;
        }
        (min, max)
    }

    /// Whether the two rectangles overlap when both are projected onto
    /// `axis`.
    pub fn is_axis_collision(&self, rect: &Rectangle, axis: &Vector2<i64>) -> (overlap: bool)
        ensures
            overlap == overlap_on(self@, rect@, direction_of(*axis)),
    {
        let other = [
            Self::generate_scalar(&rect.upper_left, axis),
            Self::generate_scalar(&rect.upper_right, axis),
            Self::generate_scalar(&rect.lower_left, axis),
            Self::generate_scalar(&rect.lower_right, axis),
        ];
        let own = [
            Self::generate_scalar(&self.upper_left, axis),
            Self::generate_scalar(&self.upper_right, axis),
            Self::generate_scalar(&self.lower_left, axis),
            Self::generate_scalar(&self.lower_right, axis),
        ];
        let (other_min, other_max) = Self::min_max(other);
        let (own_min, own_max) = Self::min_max(own);
        own_min <= other_max && other_min <= own_max
    }

    /// The separating-axis test: the rectangles are taken to overlap unless
    /// their projections are disjoint along an edge direction of either.
    pub fn has_collided(&self, rect: &Rectangle) -> (hit: bool)
        ensures
            hit == no_axis_separates(self@, rect@),
    {
        let axes = [
            Self::edge(&self.upper_right, &self.upper_left),
            Self::edge(&self.upper_right, &self.lower_right),
            Self::edge(&rect.upper_left, &rect.lower_left),
            Self::edge(&rect.upper_left, &rect.upper_right),
        ];
        let mut k: usize = 0;
        while k < 4
            invariant
                0 <= k <= 4,
                forall|j: int|
                    0 <= j < 4 ==> direction_of(#[trigger] axes[j]) == candidate_axes(
                        self@,
                        rect@,
                    )[j],
                forall|j: int|
                    0 <= j < k ==> overlap_on(
                        self@,
                        rect@,
                        #[trigger] candidate_axes(self@, rect@)[j],
                    ),
            decreases 4 - k,
        {
            if !self.is_axis_collision(rect, &axes[k]) {
                return false;
            }
            k += 1;
        }
        true
    }
}

} // verus!
