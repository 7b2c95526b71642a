//! Piecewise-linear activation curves: a non-empty list of `(x, y)` control
//! points with strictly increasing `x`, looked up by linear interpolation
//! with clamping at both ends. A step-function variant maps onto valve
//! states.
use vstd::prelude::*;
use crate::valve::ValveState;

verus! {

/// Bound on curve coordinates, so that interpolation arithmetic stays inside
/// a 64-bit word.
pub const CURVE_COORD_BOUND: i64 = 1_000_000_000;

/// Errors in creating a curve.
#[derive(Debug, Clone, Copy, PartialEq, Eq, Structural)]
pub enum CurveError {
    /// Curves cannot be empty.
    Empty,
}

/// Control points with strictly increasing `x`.
pub open spec fn pts_sorted(ps: Seq<(i64, i64)>) -> bool {
    forall|a: int, b: int| 0 <= a < b < ps.len() ==> (#[trigger] ps[a]).0 < (#[trigger] ps[b]).0
}

/// Control points whose coordinates fit the interpolation bound.
pub open spec fn pts_bounded(ps: Seq<(i64, i64)>) -> bool {
    forall|k: int|
        0 <= k < ps.len() ==> -CURVE_COORD_BOUND <= (#[trigger] ps[k]).0 <= CURVE_COORD_BOUND
            && -CURVE_COORD_BOUND <= ps[k].1 <= CURVE_COORD_BOUND
}

/// The value at `x` of the line through `p1` and `p2`, with the fractional
/// part of the slope step truncated toward `p1`.
pub open spec fn spec_interp(p1: (i64, i64), p2: (i64, i64), x: int) -> int {
    if p2.1 >= p1.1 {
        p1.1 + (p2.1 - p1.1) * (x - p1.0) / (p2.0 - p1.0)
    } else {
        p1.1 - (p1.1 - p2.1) * (x - p1.0) / (p2.0 - p1.0)
    }
}

/// The curve's value at `x`: the `y` of an end point when `x` lies at or
/// beyond it, and otherwise the interpolation between the two control points
/// that bracket `x`.
pub open spec fn spec_lookup(ps: Seq<(i64, i64)>, x: int) -> int
    recommends
        ps.len() > 0,
        pts_sorted(ps),
{
    if x <= ps[0].0 {
        ps[0].1 as int
    } else if x >= ps[ps.len() - 1].0 {
        ps[ps.len() - 1].1 as int
    } else {
        let i = choose|i: int|
            0 <= i < ps.len() - 1 && (#[trigger] ps[i]).0 <= x && x < ps[i + 1].0;
        spec_interp(ps[i], ps[i + 1], x)
    }
}

/// A curve mapping one physical quantity to another, used to define the
/// activation curves of the control system. Curves cannot be empty and their
/// control points have strictly increasing `x`.
#[derive(Debug, PartialEq, Eq)]
pub struct Curve {
    points: Vec<(i64, i64)>,
}

impl View for Curve {
    type V = Seq<(i64, i64)>;

    closed spec fn view(&self) -> Seq<(i64, i64)> {
        self.points@
    }
}

impl Curve {
    /// Every curve is non-empty, strictly increasing in `x`, and bounded.
    #[verifier::type_invariant]
    pub closed spec fn inv(self) -> bool {
        self.points@.len() > 0 && pts_sorted(self.points@) && pts_bounded(self.points@)
    }

    /// Create a new curve from a list of control points with strictly
    /// increasing `x`. Fails exactly on an empty list.
    pub fn new(points: Vec<(i64, i64)>) -> (r: Result<Self, CurveError>)
        requires
            pts_sorted(points@),
            pts_bounded(points@),
        ensures
            points@.len() > 0 <==> r is Ok,
            r matches Ok(c) ==> c@ == points@,
            points@.len() == 0 ==> r == Err::<Self, CurveError>(CurveError::Empty),
    {
        if points.len() == 0 {
            return Err(CurveError::Empty);
        }
        Ok(Self { points })
    }

    /// The control points.
    pub fn points(&self) -> (r: &Vec<(i64, i64)>)
        ensures
            r@ == self@,
            r@.len() > 0,
            pts_sorted(r@),
            pts_bounded(r@),
    {
        proof {
            use_type_invariant(self);
        }
        &self.points
    }

    /// Find the last control point whose `x` lies at or before `x`, or the
    /// earliest point when `x` lies before all of them.
    pub fn find_last_point_before_x(&self, x: i64) -> (r: Option<(i64, i64)>)
        ensures
            x < self@[0].0 ==> r == Some(self@[0]),
            self@[0].0 <= x ==> exists|i: int|
                0 <= i < self@.len() && (#[trigger] self@[i]).0 <= x && (i == self@.len() - 1 || x
                    < self@[i + 1].0) && r == Some(self@[i]),
    {
        proof {
            use_type_invariant(self);
        }
        let n = self.points.len();
        if x < self.points[0].0 {
            return Some(self.points[0]);
        }
        let mut i: usize = 0;
        while i + 1 < n && self.points[i + 1].0 <= x
            invariant
                n == self@.len(),
                0 < n,
                i < n,
                self@[i as int].0 <= x,
            decreases n - i,
        {
            i = i + 1;
        }
        Some(self.points[i])
    }

    /// Find the first control point whose `x` lies at or after `x`, or the
    /// latest point when `x` lies after all of them.
    pub fn find_first_point_after_x(&self, x: i64) -> (r: Option<(i64, i64)>)
        ensures
            x > self@[self@.len() - 1].0 ==> r == Some(self@[self@.len() - 1]),
            x <= self@[self@.len() - 1].0 ==> exists|i: int|
                0 <= i < self@.len() && x <= (#[trigger] self@[i]).0 && (i == 0 || self@[i - 1].0
                    < x) && r == Some(self@[i]),
    {
        proof {
            use_type_invariant(self);
        }
        let n = self.points.len();
        if x > self.points[n - 1].0 {
            return Some(self.points[n - 1]);
        }
        let mut i: usize = n - 1;
        while i > 0 && self.points[i - 1].0 >= x
            invariant
                n == self@.len(),
                0 < n,
                i < n,
                x <= self@[i as int].0,
            decreases i,
        {
            i = i - 1;
        }
        Some(self.points[i])
    }

    /// Look up the curve's value at `x` by linear interpolation, clamping to
    /// the lowest control point below the curve and to the highest above it.
    /// The value always lies between the curve's least and greatest `y`.
    pub fn lookup(&self, x: i64) -> (r: Option<i64>)
        ensures
            r matches Some(y) && y == spec_lookup(self@, x as int),
            x < self@[0].0 ==> r == Some(self@[0].1),
            x > self@[self@.len() - 1].0 ==> r == Some(self@[self@.len() - 1].1),
            exists|k: int| 0 <= k < self@.len() && (#[trigger] self@[k]).1 <= r.unwrap(),
            exists|k: int| 0 <= k < self@.len() && r.unwrap() <= (#[trigger] self@[k]).1,
    {
        proof {
            use_type_invariant(self);
        }
        let ghost ps = self@;
        let n = self.points.len();
        if x <= self.points[0].0 {
            return Some(self.points[0].1);
        }
        if x >= self.points[n - 1].0 {
            return Some(self.points[n - 1].1);
        }
        let mut i: usize = 0;
        while i + 1 < n && self.points[i + 1].0 <= x
            invariant
                n == ps.len(),
                0 < n,
                ps == self@,
                i < n,
                ps[i as int].0 <= x || i == 0,
                ps[0].0 < x,
                x < ps[n - 1].0,
                pts_sorted(ps),
            decreases n - i,
        {
            i = i + 1;
        }
        assert(i + 1 < n) by {
            if i + 1 == n {
                assert(ps[i as int].0 <= x || i == 0);
            }
        }
        assert(ps[i as int].0 <= x && x < ps[i as int + 1].0);
        let p1 = self.points[i];
        let p2 = self.points[i + 1];
        let y = interp(p1, p2, x);
        proof {
            let i0 = choose|i0: int|
                0 <= i0 < ps.len() - 1 && (#[trigger] ps[i0]).0 <= x && x < ps[i0 + 1].0;
            assert(i0 == i as int) by {
                if i0 < i as int {
                    assert(ps[i0 + 1].0 <= ps[i as int].0);
                } else if i0 > i as int {
                    assert(ps[i as int + 1].0 <= ps[i0].0);
                }
            }
        }
        Some(y)
    }
}

/// Interpolate between two control points; the result lies between their `y`
/// values.
fn interp(p1: (i64, i64), p2: (i64, i64), x: i64) -> (r: i64)
    requires
        p1.0 < p2.0,
        p1.0 <= x <= p2.0,
        -CURVE_COORD_BOUND <= p1.0 && p1.0 <= CURVE_COORD_BOUND,
        -CURVE_COORD_BOUND <= p1.1 && p1.1 <= CURVE_COORD_BOUND,
        -CURVE_COORD_BOUND <= p2.0 && p2.0 <= CURVE_COORD_BOUND,
        -CURVE_COORD_BOUND <= p2.1 && p2.1 <= CURVE_COORD_BOUND,
        -CURVE_COORD_BOUND <= x && x <= CURVE_COORD_BOUND,
    ensures
        r == spec_interp(p1, p2, x as int),
        p1.1 <= p2.1 ==> p1.1 <= r <= p2.1,
        p2.1 <= p1.1 ==> p2.1 <= r <= p1.1,
{
    let den = p2.0 - p1.0;
    let dx = x - p1.0;
    if p2.1 >= p1.1 {
        let dy = p2.1 - p1.1;
        proof {
            vstd::arithmetic::mul::lemma_mul_upper_bound(
                dy as int,
                2 * CURVE_COORD_BOUND as int,
                dx as int,
                2 * CURVE_COORD_BOUND as int,
            );
        }
        let q = dy * dx / den;
        proof {
            lemma_scaled_fraction_bounds(dy as int, dx as int, den as int);
        }
        p1.1 + q
    } else {
        let dy = p1.1 - p2.1;
        proof {
            vstd::arithmetic::mul::lemma_mul_upper_bound(
                dy as int,
                2 * CURVE_COORD_BOUND as int,
                dx as int,
                2 * CURVE_COORD_BOUND as int,
            );
        }
        let q = dy * dx / den;
        proof {
            lemma_scaled_fraction_bounds(dy as int, dx as int, den as int);
        }
        p1.1 - q
    }
}

/// For `0 <= dx <= den` and `dy >= 0`, the scaled fraction `dy * dx / den`
/// lies between `0` and `dy`.
proof fn lemma_scaled_fraction_bounds(dy: int, dx: int, den: int)
    requires
        dy >= 0,
        0 <= dx <= den,
        0 < den,
    ensures
        0 <= dy * dx / den <= dy,
{
    vstd::arithmetic::mul::lemma_mul_nonnegative(dy, dx);
    vstd::arithmetic::div_mod::lemma_div_pos_is_pos(dy * dx, den);
    vstd::arithmetic::mul::lemma_mul_inequality(dx, den, dy);
    vstd::arithmetic::mul::lemma_mul_is_commutative(dx, dy);
    vstd::arithmetic::mul::lemma_mul_is_commutative(den, dy);
    vstd::arithmetic::div_mod::lemma_div_is_ordered(dy * dx, dy * den, den);
    vstd::arithmetic::div_mod::lemma_div_multiples_vanish(dy, den);
}

/// Between the end points there is always a pair of control points that
/// brackets `x`.
proof fn lemma_segment_exists(ps: Seq<(i64, i64)>, x: int)
    requires
        ps.len() > 0,
        pts_sorted(ps),
        ps[0].0 <= x,
        x < ps[ps.len() - 1].0,
    ensures
        exists|i: int| 0 <= i < ps.len() - 1 && (#[trigger] ps[i]).0 <= x && x < ps[i + 1].0,
    decreases ps.len(),
{
    let n = ps.len() as int;
    if ps[n - 2].0 <= x {
        assert(0 <= n - 2 < ps.len() - 1 && ps[n - 2].0 <= x && x < ps[n - 2 + 1].0);
    } else {
        let front = ps.take(n - 1);
        lemma_segment_exists(front, x);
        let i = choose|i: int|
            0 <= i < front.len() - 1 && (#[trigger] front[i]).0 <= x && x < front[i + 1].0;
        assert(ps[i].0 <= x && x < ps[i + 1].0);
    }
}

/// When every control point's `y` lies between `lo` and `hi`, so does every
/// lookup: interpolation and clamping never leave the curve's `y` range.
pub proof fn lemma_lookup_in_y_range(ps: Seq<(i64, i64)>, x: int, lo: int, hi: int)
    requires
        ps.len() > 0,
        pts_sorted(ps),
        forall|k: int| 0 <= k < ps.len() ==> lo <= (#[trigger] ps[k]).1 <= hi,
    ensures
        lo <= spec_lookup(ps, x) <= hi,
{
    if x <= ps[0].0 {
    } else if x >= ps[ps.len() - 1].0 {
    } else {
        lemma_segment_exists(ps, x);
        let i = choose|i: int| 0 <= i < ps.len() - 1 && (#[trigger] ps[i]).0 <= x && x < ps[i
            + 1].0;
        let p1 = ps[i];
        let p2 = ps[i + 1];
        if p2.1 >= p1.1 {
            lemma_scaled_fraction_bounds(p2.1 - p1.1, x - p1.0, p2.0 - p1.0);
        } else {
            lemma_scaled_fraction_bounds(p1.1 - p2.1, x - p1.0, p2.0 - p1.0);
        }
    }
}

/// The step curve used for the valve: the value at `x` is the `y` of the
/// last control point at or before `x`, or of the earliest point when `x`
/// lies before all of them.
pub open spec fn spec_step_lookup(ps: Seq<(i64, ValveState)>, x: int) -> ValveState
    recommends
        ps.len() > 0,
{
    if x < ps[0].0 {
        ps[0].1
    } else if x >= ps[ps.len() - 1].0 {
        ps[ps.len() - 1].1
    } else {
        let i = choose|i: int|
            0 <= i < ps.len() - 1 && (#[trigger] ps[i]).0 <= x && x < ps[i + 1].0;
        ps[i].1
    }
}

/// Control points with strictly increasing `x`, valve-valued.
pub open spec fn valve_pts_sorted(ps: Seq<(i64, ValveState)>) -> bool {
    forall|a: int, b: int| 0 <= a < b < ps.len() ==> (#[trigger] ps[a]).0 < (#[trigger] ps[b]).0
}

/// A curve mapping a physical quantity to a valve state: lookup is a step
/// function through the control points rather than an interpolation.
#[derive(Debug, PartialEq, Eq)]
pub struct ValveCurve {
    points: Vec<(i64, ValveState)>,
}

impl View for ValveCurve {
    type V = Seq<(i64, ValveState)>;

    closed spec fn view(&self) -> Seq<(i64, ValveState)> {
        self.points@
    }
}

impl ValveCurve {
    /// Every valve curve is non-empty and strictly increasing in `x`.
    #[verifier::type_invariant]
    pub closed spec fn inv(self) -> bool {
        self.points@.len() > 0 && valve_pts_sorted(self.points@)
    }

    /// Create a new valve curve from a list of control points with strictly
    /// increasing `x`. Fails exactly on an empty list.
    pub fn new(points: Vec<(i64, ValveState)>) -> (r: Result<Self, CurveError>)
        requires
            valve_pts_sorted(points@),
        ensures
            points@.len() > 0 <==> r is Ok,
            r matches Ok(c) ==> c@ == points@,
            points@.len() == 0 ==> r == Err::<Self, CurveError>(CurveError::Empty),
    {
        if points.len() == 0 {
            return Err(CurveError::Empty);
        }
        Ok(Self { points })
    }

    /// Look up the valve state at `x`: the state of the nearest control
    /// point at or below `x`, clamped to the earliest point below the curve.
    #[verifier::rlimit(50)]
    pub fn lookup(&self, x: i64) -> (r: Option<ValveState>)
        ensures
            r == Some(spec_step_lookup(self@, x as int)),
    {
        proof {
            use_type_invariant(self);
        }
        let ghost ps = self@;
        let n = self.points.len();
        if x < self.points[0].0 {
            return Some(self.points[0].1);
        }
        if x >= self.points[n - 1].0 {
            return Some(self.points[n - 1].1);
        }
        let mut i: usize = 0;
        while i + 1 < n && self.points[i + 1].0 <= x
            invariant
                n == ps.len(),
                0 < n,
                ps == self@,
                i < n,
                ps[i as int].0 <= x,
                x < ps[n - 1].0,
                valve_pts_sorted(ps),
            decreases n - i,
        {
            i = i + 1;
        }
        assert(i + 1 < n);
        assert(ps[i as int].0 <= x && x < ps[i as int + 1].0);
        proof {
            let i0 = choose|i0: int|
                0 <= i0 < ps.len() - 1 && (#[trigger] ps[i0]).0 <= x && x < ps[i0 + 1].0;
            assert(i0 == i as int) by {
                if i0 < i as int {
                    assert(ps[i0 + 1].0 <= ps[i as int].0);
                } else if i0 > i as int {
                    assert(ps[i as int + 1].0 <= ps[i0].0);
                }
            }
        }
        Some(self.points[i].1)
    }
}

} // verus!
