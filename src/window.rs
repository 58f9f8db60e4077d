//! Axis-aligned screen rectangles and the geometry computed on them.
use vstd::prelude::*;

use crate::config::{Direction, Metric, Ratio};

verus! {

/// Whether `x` can be held in an `i32`.
pub open spec fn in_i32(x: int) -> bool {
    i32::MIN <= x <= i32::MAX
}

pub open spec fn min_int(a: int, b: int) -> int {
    if a <= b {
        a
    } else {
        b
    }
}

pub open spec fn max_int(a: int, b: int) -> int {
    if a <= b {
        b
    } else {
        a
    }
}

pub open spec fn abs_int(x: int) -> int {
    if x < 0 {
        -x
    } else {
        x
    }
}

/// `x` brought into the range of `i32`, as a saturating cast does.
pub open spec fn clamp_i32(x: int) -> int {
    if x > i32::MAX {
        i32::MAX as int
    } else if x < i32::MIN {
        i32::MIN as int
    } else {
        x
    }
}

/// `a / b` rounded toward zero, for `b > 0`.
pub open spec fn trunc_div(a: int, b: int) -> int {
    if a >= 0 {
        a / b
    } else {
        -((-a) / b)
    }
}

/// An axis-aligned rectangle in screen coordinates.
#[derive(Debug, Clone, Copy, PartialEq, Eq, Structural)]
pub struct Rect {
    pub left: i32,
    pub top: i32,
    pub right: i32,
    pub bottom: i32,
}

/// The rectangle spanned by two corners given in any order.
pub open spec fn rect_xyxy(x0: int, y0: int, x1: int, y1: int) -> Rect {
    Rect {
        left: min_int(x0, x1) as i32,
        top: min_int(y0, y1) as i32,
        right: max_int(x0, x1) as i32,
        bottom: max_int(y0, y1) as i32,
    }
}

/// The rectangle with corner `(x, y)` and extent `w` by `h`.
pub open spec fn rect_xywh(x: int, y: int, w: int, h: int) -> Rect {
    rect_xyxy(x, y, x + w, y + h)
}

/// The far corner of a rectangle built from `(x, y)`, `w` and `h` is
/// representable.
pub open spec fn xywh_fits(x: int, y: int, w: int, h: int) -> bool {
    in_i32(x + w) && in_i32(y + h)
}

/// The length of `1 / fraction` of `dim`, rounded toward zero and saturated
/// into `i32`.
pub open spec fn slice_len(dim: int, fraction: Ratio) -> int {
    clamp_i32(dim * fraction.denom / (fraction.numer as int))
}

/// Computes `slice_len(dim, fraction)`.
fn slice_length(dim: i32, fraction: Ratio) -> (r: i32)
    requires
        dim >= 0,
        fraction.is_positive(),
    ensures
        r == slice_len(dim as int, fraction),
        r >= 0,
{
    assert(0 <= dim * fraction.denom <= (i32::MAX as int) * (i32::MAX as int)) by (nonlinear_arith)
        requires
            0 <= dim <= i32::MAX,
            0 < fraction.denom <= i32::MAX,
    ;
    let q: u64 = (dim as u64) * (fraction.denom as u64) / (fraction.numer as u64);
    if q > i32::MAX as u64 {
        i32::MAX
    } else {
        q as i32
    }
}

impl Rect {
    pub open spec fn width(self) -> int {
        abs_int(self.right - self.left)
    }

    pub open spec fn height(self) -> int {
        abs_int(self.bottom - self.top)
    }

    /// The corners are in order: the left edge is not right of the right
    /// edge, the top not below the bottom. Every constructor ensures it.
    pub open spec fn is_normalized(self) -> bool {
        self.left <= self.right && self.top <= self.bottom
    }

    /// Width and height can be held in an `i32`.
    pub open spec fn is_measurable(self) -> bool {
        self.width() <= i32::MAX && self.height() <= i32::MAX
    }

    /// The extent of the rectangle along the axis of `direction`.
    pub open spec fn extent_along(self, direction: Direction) -> int {
        if direction.is_vertical() {
            self.height()
        } else {
            self.width()
        }
    }

    /// The edges of the slice can all be represented, so that slicing is
    /// defined.
    pub open spec fn slice_fits(self, direction: Direction, fraction: Ratio) -> bool {
        let w = self.width();
        let h = self.height();
        let ws = slice_len(w, fraction);
        let hs = slice_len(h, fraction);
        match direction {
            Direction::Up => xywh_fits(self.left as int, self.top as int, w, hs),
            Direction::Left => xywh_fits(self.left as int, self.top as int, ws, h),
            Direction::Right => in_i32(self.left + w) && in_i32(self.left + w - ws) && xywh_fits(
                self.left + w - ws,
                self.top as int,
                ws,
                h,
            ),
            Direction::Down => in_i32(self.top + h) && in_i32(self.top + h - hs) && xywh_fits(
                self.left as int,
                self.top + h - hs,
                w,
                hs,
            ),
        }
    }

    /// The part of the rectangle that is `1 / fraction` of its extent along
    /// the axis of `direction`, against the edge that `direction` names,
    /// with its full extent along the other axis.
    pub open spec fn sliced(self, direction: Direction, fraction: Ratio) -> Rect {
        let w = self.width();
        let h = self.height();
        let ws = slice_len(w, fraction);
        let hs = slice_len(h, fraction);
        match direction {
            Direction::Up => rect_xywh(self.left as int, self.top as int, w, hs),
            Direction::Left => rect_xywh(self.left as int, self.top as int, ws, h),
            Direction::Right => rect_xywh(self.left + w - ws, self.top as int, ws, h),
            Direction::Down => rect_xywh(self.left as int, self.top + h - hs, w, hs),
        }
    }

    /// Builds the rectangle with corners `(left, top)` and `(right, bottom)`,
    /// swapping the coordinates of an axis given out of order.
    pub fn xyxy(left: i32, top: i32, right: i32, bottom: i32) -> (r: Rect)
        ensures
            r == rect_xyxy(left as int, top as int, right as int, bottom as int),
            r.left <= r.right,
            r.top <= r.bottom,
    {
        let (x0, x1) = if left < right {
            (left, right)
        } else {
            (right, left)
        };
        let (y0, y1) = if top < bottom {
            (top, bottom)
        } else {
            (bottom, top)
        };
        Rect { left: x0, top: y0, right: x1, bottom: y1 }
    }

    /// Builds the rectangle with corner `(left, top)` and extent `width` by
    /// `height`; a negative extent reaches to the other side of the corner.
    pub fn xywh(left: i32, top: i32, width: i32, height: i32) -> (r: Rect)
        requires
            xywh_fits(left as int, top as int, width as int, height as int),
        ensures
            r == rect_xywh(left as int, top as int, width as int, height as int),
            r.left <= r.right,
            r.top <= r.bottom,
    {
        let right = left + width;
        let bottom = top + height;
        Rect::xyxy(left, top, right, bottom)
    }

    /// Width and height.
    pub fn wh(&self) -> (r: (i32, i32))
        requires
            self.is_measurable(),
        ensures
            r.0 == self.width(),
            r.1 == self.height(),
    {
        let w = if self.left <= self.right {
            self.right - self.left
        } else {
            self.left - self.right
        };
        let h = if self.top <= self.bottom {
            self.bottom - self.top
        } else {
            self.top - self.bottom
        };
        (w, h)
    }

    /// The slice of this rectangle that occupies `1 / fraction` of its
    /// width (Left, Right) or height (Up, Down), anchored to the edge that
    /// `direction` names.
    pub fn slice_rect(&self, direction: Direction, fraction: Ratio) -> (r: Rect)
        requires
            self.is_measurable(),
            fraction.is_positive(),
            self.slice_fits(direction, fraction),
        ensures
            r == self.sliced(direction, fraction),
    {
        let (width, height) = self.wh();
        let width_slice = slice_length(width, fraction);
        let height_slice = slice_length(height, fraction);
        match direction {
            Direction::Up => Rect::xywh(self.left, self.top, width, height_slice),
            Direction::Left => Rect::xywh(self.left, self.top, width_slice, height),
            Direction::Right => Rect::xywh(
                self.left + width - width_slice,
                self.top,
                width_slice,
                height,
            ),
            Direction::Down => Rect::xywh(
                self.left,
                self.top + height - height_slice,
                width,
                height_slice,
            ),
        }
    }

    /// Whether width and height can be held in an `i32`.
    pub fn size_fits(&self) -> (r: bool)
        ensures
            r == self.is_measurable(),
    {
        let w = (self.right as i64) - (self.left as i64);
        let h = (self.bottom as i64) - (self.top as i64);
        -(i32::MAX as i64) <= w && w <= i32::MAX as i64 && -(i32::MAX as i64) <= h && h
            <= i32::MAX as i64
    }
}


/// The move of `nudge(rect, direction, distance)` keeps every edge
/// representable.
pub open spec fn nudge_fits(rect: Rect, direction: Direction, distance: int) -> bool {
    let w = rect.width();
    let h = rect.height();
    match direction {
        Direction::Up => in_i32(rect.top - distance) && xywh_fits(
            rect.left as int,
            rect.top - distance,
            w,
            h,
        ),
        Direction::Down => in_i32(rect.top + distance) && xywh_fits(
            rect.left as int,
            rect.top + distance,
            w,
            h,
        ),
        Direction::Left => in_i32(rect.left - distance) && xywh_fits(
            rect.left - distance,
            rect.top as int,
            w,
            h,
        ),
        Direction::Right => in_i32(rect.left + distance) && xywh_fits(
            rect.left + distance,
            rect.top as int,
            w,
            h,
        ),
    }
}

/// `rect` moved by `distance` towards `direction`, with its width and height.
pub open spec fn nudged(rect: Rect, direction: Direction, distance: int) -> Rect {
    let w = rect.width();
    let h = rect.height();
    match direction {
        Direction::Up => rect_xywh(rect.left as int, rect.top - distance, w, h),
        Direction::Down => rect_xywh(rect.left as int, rect.top + distance, w, h),
        Direction::Left => rect_xywh(rect.left - distance, rect.top as int, w, h),
        Direction::Right => rect_xywh(rect.left + distance, rect.top as int, w, h),
    }
}

/// Moves `rect` by `distance` pixels towards `direction`: Up and Down move
/// its top edge, Left and Right its left edge; width and height are kept.
pub fn nudge(rect: Rect, direction: Direction, distance: i32) -> (r: Rect)
    requires
        rect.is_measurable(),
        nudge_fits(rect, direction, distance as int),
    ensures
        r == nudged(rect, direction, distance as int),
{
    let (width, height) = rect.wh();
    match direction {
        Direction::Up => Rect::xywh(rect.left, rect.top - distance, width, height),
        Direction::Down => Rect::xywh(rect.left, rect.top + distance, width, height),
        Direction::Left => Rect::xywh(rect.left - distance, rect.top, width, height),
        Direction::Right => Rect::xywh(rect.left + distance, rect.top, width, height),
    }
}

/// A metric can be resolved: a percentage has a valid ratio.
pub open spec fn metric_is_valid(metric: Metric) -> bool {
    match metric {
        Metric::Percent(fraction) => fraction.is_valid(),
        Metric::Absolute(_) => true,
    }
}

/// The distance in pixels that `metric` stands for, against `reference`: a
/// percentage scales the extent of `reference` along the axis of
/// `direction`, rounded toward zero and saturated into `i32`.
pub open spec fn metric_distance(metric: Metric, direction: Direction, reference: Rect) -> int {
    match metric {
        Metric::Percent(fraction) => clamp_i32(
            trunc_div(reference.extent_along(direction) * fraction.numer, fraction.denom as int),
        ),
        Metric::Absolute(distance) => distance as int,
    }
}

/// Converts `metric` into a distance in pixels along the axis of
/// `direction`, measured against `reference`.
pub fn resolve_metric(metric: Metric, direction: Direction, reference: &Rect) -> (r: i32)
    requires
        metric_is_valid(metric),
        metric is Percent ==> reference.is_measurable(),
    ensures
        r == metric_distance(metric, direction, *reference),
{
    match metric {
        Metric::Absolute(distance) => distance,
        Metric::Percent(fraction) => {
            let (width, height) = reference.wh();
            let extent = match direction {
                Direction::Up | Direction::Down => height,
                Direction::Left | Direction::Right => width,
            };
            let magnitude: u64 = if fraction.numer >= 0 {
                fraction.numer as u64
            } else {
                (-(fraction.numer as i64)) as u64
            };
            assert(0 <= extent * magnitude <= (i32::MAX as int) * 0x8000_0000) by (nonlinear_arith)
                requires
                    0 <= extent <= i32::MAX,
                    0 <= magnitude <= 0x8000_0000,
            ;
            let q: u64 = (extent as u64) * magnitude / (fraction.denom as u64);
            proof {
                if fraction.numer < 0 {
                    assert(extent * fraction.numer == -(extent * magnitude)) by (nonlinear_arith)
                        requires
                            magnitude == -fraction.numer,
                    ;
                } else {
                    assert(extent * fraction.numer == extent * magnitude);
                }
            }
            if fraction.numer >= 0 || q == 0 {
                if q > i32::MAX as u64 {
                    i32::MAX
                } else {
                    q as i32
                }
            } else if q > 0x8000_0000u64 {
                i32::MIN
            } else {
                (-(q as i64)) as i32
            }
        },
    }
}

/// Whether `x` can be held in an `i32`.
fn fits_i32(x: i64) -> (r: bool)
    ensures
        r == in_i32(x as int),
{
    i32::MIN as i64 <= x && x <= i32::MAX as i64
}

/// Whether `rect.slice_rect(direction, fraction)` is defined.
pub fn can_slice(rect: &Rect, direction: Direction, fraction: Ratio) -> (r: bool)
    ensures
        r == (rect.is_measurable() && fraction.is_positive() && rect.slice_fits(
            direction,
            fraction,
        )),
{
    if !rect.size_fits() || fraction.numer <= 0 || fraction.denom <= 0 {
        return false;
    }
    let (width, height) = rect.wh();
    let w = width as i64;
    let h = height as i64;
    let ws = slice_length(width, fraction) as i64;
    let hs = slice_length(height, fraction) as i64;
    let l = rect.left as i64;
    let t = rect.top as i64;
    match direction {
        Direction::Up => fits_i32(l + w) && fits_i32(t + hs),
        Direction::Left => fits_i32(l + ws) && fits_i32(t + h),
        Direction::Right => fits_i32(l + w) && fits_i32(l + w - ws) && fits_i32(l + w - ws + ws)
            && fits_i32(t + h),
        Direction::Down => fits_i32(t + h) && fits_i32(t + h - hs) && fits_i32(l + w) && fits_i32(
            t + h - hs + hs,
        ),
    }
}

/// Whether `nudge(rect, direction, distance)` is defined.
pub fn can_nudge(rect: &Rect, direction: Direction, distance: i32) -> (r: bool)
    ensures
        r == (rect.is_measurable() && nudge_fits(*rect, direction, distance as int)),
{
    if !rect.size_fits() {
        return false;
    }
    let (width, height) = rect.wh();
    let w = width as i64;
    let h = height as i64;
    let n = distance as i64;
    let l = rect.left as i64;
    let t = rect.top as i64;
    match direction {
        Direction::Up => fits_i32(t - n) && fits_i32(l + w) && fits_i32(t - n + h),
        Direction::Down => fits_i32(t + n) && fits_i32(l + w) && fits_i32(t + n + h),
        Direction::Left => fits_i32(l - n) && fits_i32(l - n + w) && fits_i32(t + h),
        Direction::Right => fits_i32(l + n) && fits_i32(l + n + w) && fits_i32(t + h),
    }
}

/// Facts on `slice_len` for a fraction of at least one: the slice is no
/// longer than `dim`, and is `dim / fraction` rounded down.
proof fn lemma_slice_len_bounds(dim: int, fraction: Ratio)
    requires
        0 <= dim <= i32::MAX,
        0 < fraction.denom <= fraction.numer,
    ensures
        0 <= slice_len(dim, fraction) <= dim,
        slice_len(dim, fraction) * fraction.numer <= dim * fraction.denom,
        dim * fraction.denom < (slice_len(dim, fraction) + 1) * fraction.numer,
{
    let n = fraction.numer as int;
    let d = fraction.denom as int;
    let q = dim * d / n;
    assert(dim * d <= dim * n) by (nonlinear_arith)
        requires
            0 <= dim,
            d <= n,
    ;
    assert(0 <= q <= dim && q * n <= dim * d < (q + 1) * n) by (nonlinear_arith)
        requires
            q == dim * d / n,
            0 <= dim * d <= dim * n,
            0 < n,
    ;
}

/// Slicing by a fraction greater than one yields a rectangle inside the
/// given one, against the edge that the direction names, whose extent along
/// the sliced axis is the given one's divided by the fraction and rounded
/// down (so within one unit of it), and whose other extent is unchanged.
pub proof fn lemma_slice_within(rect: Rect, direction: Direction, fraction: Ratio)
    requires
        rect.is_normalized(),
        rect.is_measurable(),
        0 < fraction.denom < fraction.numer,
    ensures
        rect.slice_fits(direction, fraction),
        ({
            let s = rect.sliced(direction, fraction);
            &&& s.is_normalized()
            &&& rect.left <= s.left && s.right <= rect.right
            &&& rect.top <= s.top && s.bottom <= rect.bottom
            &&& direction == Direction::Up ==> s.top == rect.top
            &&& direction == Direction::Down ==> s.bottom == rect.bottom
            &&& direction == Direction::Left ==> s.left == rect.left
            &&& direction == Direction::Right ==> s.right == rect.right
            &&& s.extent_along(direction) * fraction.numer <= rect.extent_along(direction)
                * fraction.denom
            &&& rect.extent_along(direction) * fraction.denom < (s.extent_along(direction) + 1)
                * fraction.numer
            &&& direction.is_vertical() ==> s.width() == rect.width()
            &&& !direction.is_vertical() ==> s.height() == rect.height()
        }),
{
    lemma_slice_len_bounds(rect.width(), fraction);
    lemma_slice_len_bounds(rect.height(), fraction);
}

/// Slicing by a fraction equal to one leaves the rectangle as it is.
pub proof fn lemma_slice_whole(rect: Rect, direction: Direction, fraction: Ratio)
    requires
        rect.is_normalized(),
        rect.is_measurable(),
        0 < fraction.denom == fraction.numer,
    ensures
        rect.slice_fits(direction, fraction),
        rect.sliced(direction, fraction).width() == rect.width(),
        rect.sliced(direction, fraction).height() == rect.height(),
        rect.sliced(direction, fraction) == rect,
{
    let n = fraction.numer as int;
    let w = rect.width();
    let h = rect.height();
    assert(w * n / n == w && h * n / n == h) by (nonlinear_arith)
        requires
            0 < n,
            0 <= w,
            0 <= h,
    ;
    assert(slice_len(w, fraction) == w);
    assert(slice_len(h, fraction) == h);
}

/// Nudging right and then left by the same distance brings a rectangle back
/// to where it was.
pub proof fn lemma_nudge_right_left(rect: Rect, distance: int)
    requires
        rect.is_normalized(),
        rect.is_measurable(),
        distance >= 0,
    ensures
        nudge_fits(rect, Direction::Right, distance) ==> {
            let moved = nudged(rect, Direction::Right, distance);
            &&& moved.is_measurable()
            &&& nudge_fits(moved, Direction::Left, distance)
            &&& nudged(moved, Direction::Left, distance) == rect
        },
{
}

/// A percentage of one whole resolves to the reference's width for a
/// horizontal move and to its height for a vertical one.
pub proof fn lemma_full_percent(reference: Rect, fraction: Ratio)
    requires
        reference.is_measurable(),
        0 < fraction.denom == fraction.numer,
    ensures
        metric_distance(Metric::Percent(fraction), Direction::Left, reference)
            == reference.width(),
        metric_distance(Metric::Percent(fraction), Direction::Right, reference)
            == reference.width(),
        metric_distance(Metric::Percent(fraction), Direction::Up, reference)
            == reference.height(),
        metric_distance(Metric::Percent(fraction), Direction::Down, reference)
            == reference.height(),
{
    let n = fraction.numer as int;
    let w = reference.width();
    let h = reference.height();
    assert(w * n / n == w && h * n / n == h) by (nonlinear_arith)
        requires
            0 < n,
            0 <= w,
            0 <= h,
    ;
}

} // verus!
