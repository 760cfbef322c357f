//! Resolution of size and position rules into pixel values.
use vstd::prelude::*;

use crate::styles::{Position, Size};

verus! {

/// Division of `a` by a positive `d`, rounded toward zero.
pub open spec fn trunc_div(a: int, d: int) -> int {
    if a >= 0 {
        a / d
    } else {
        -((-a) / d)
    }
}

/// `p` percent of `extent`, rounded toward zero.
pub open spec fn percent_of(extent: int, p: int) -> int {
    trunc_div(extent * p, 100)
}

/// Half of `v`, rounded toward zero.
pub open spec fn half(v: int) -> int {
    trunc_div(v, 2)
}

/// `v` clipped to the range of `i32`.
pub open spec fn clip(v: int) -> int {
    if v < i32::MIN {
        i32::MIN as int
    } else if v > i32::MAX {
        i32::MAX as int
    } else {
        v
    }
}

/// The raw value of a size rule; `Auto` and `Fill` take the parent's extent.
pub open spec fn base_value(rule: Size, parent: int, viewport: int) -> int {
    match rule {
        Size::Auto => parent,
        Size::Fill => parent,
        Size::Pixel(v) => v as int,
        Size::Percent(p) => percent_of(parent, p as int),
        Size::AbsFill => viewport,
        Size::AbsPercent(p) => percent_of(viewport, p as int),
    }
}

/// The lower bound a `min` rule sets: zero when it is `Auto` or `Fill`.
pub open spec fn lower_bound(rule: Size, parent: int, viewport: int) -> int {
    match rule {
        Size::Auto | Size::Fill => 0,
        _ => base_value(rule, parent, viewport),
    }
}

/// The upper bound a `max` rule sets: none when it is `Auto` or `Fill`.
pub open spec fn upper_bound(rule: Size, parent: int, viewport: int) -> Option<int> {
    match rule {
        Size::Auto | Size::Fill => Option::None,
        _ => Option::Some(base_value(rule, parent, viewport)),
    }
}

/// The length an offset rule (margin, spacing) stands for: zero unless it is
/// `Pixel`, `Percent` or `AbsPercent`.
pub open spec fn offset_value(rule: Size, parent: int, viewport: int) -> int {
    match rule {
        Size::Pixel(_) | Size::Percent(_) | Size::AbsPercent(_) => base_value(rule, parent, viewport),
        _ => 0,
    }
}

/// `v` capped at `hi` first, then raised to `lo`.
pub open spec fn clamp_to(v: int, lo: int, hi: Option<int>) -> int {
    let capped = match hi {
        Option::Some(h) => if v > h {
            h
        } else {
            v
        },
        Option::None => v,
    };
    if capped < lo {
        lo
    } else {
        capped
    }
}

/// The exact extent that `size`, bounded by `min` and `max` and reduced by
/// `margin`, resolves to on one axis: the margin is taken off before clamping.
pub open spec fn resolved_size(
    size: Size,
    min: Size,
    max: Size,
    margin: Size,
    parent: int,
    viewport: int,
) -> int {
    clamp_to(
        base_value(size, parent, viewport) - offset_value(margin, parent, viewport),
        lower_bound(min, parent, viewport),
        upper_bound(max, parent, viewport),
    )
}

/// An offset given by a `Custom` coordinate: pixels, or a percentage of `extent`.
pub open spec fn custom_offset(s: Size, extent: int) -> int {
    match s {
        Size::Pixel(v) => v as int,
        Size::Percent(p) => percent_of(extent, p as int),
        _ => 0,
    }
}

/// Horizontal offset of an anchor from the parent's center.
pub open spec fn anchor_dx(anchor: Position, parent_w: int) -> int {
    match anchor {
        Position::BottomLeft | Position::Left | Position::TopLeft => -half(parent_w),
        Position::Bottom | Position::Center | Position::Top => 0,
        Position::BottomRight | Position::Right | Position::TopRight => half(parent_w),
        Position::Custom(x, _) => custom_offset(x, parent_w),
    }
}

/// Vertical offset of an anchor from the parent's center (y grows downwards).
pub open spec fn anchor_dy(anchor: Position, parent_h: int) -> int {
    match anchor {
        Position::TopLeft | Position::Top | Position::TopRight => -half(parent_h),
        Position::Left | Position::Center | Position::Right => 0,
        Position::BottomLeft | Position::Bottom | Position::BottomRight => half(parent_h),
        Position::Custom(_, y) => custom_offset(y, parent_h),
    }
}

/// Horizontal self-alignment offset for an element of width `w`.
pub open spec fn align_dx(align: Position, w: int) -> int {
    match align {
        Position::BottomLeft | Position::Left | Position::TopLeft => half(w),
        Position::Bottom | Position::Center | Position::Top => 0,
        Position::BottomRight | Position::Right | Position::TopRight => -half(w),
        Position::Custom(x, _) => custom_offset(x, w),
    }
}

/// Vertical self-alignment offset for an element of height `h`.
pub open spec fn align_dy(align: Position, h: int) -> int {
    match align {
        Position::TopLeft | Position::Top | Position::TopRight => half(h),
        Position::Left | Position::Center | Position::Right => 0,
        Position::BottomLeft | Position::Bottom | Position::BottomRight => -half(h),
        Position::Custom(_, y) => custom_offset(y, h),
    }
}

/// Exact horizontal center: anchor offset from the parent, then self-alignment.
pub open spec fn resolved_x(anchor: Position, align: Position, parent_x: int, parent_w: int, w: int) -> int {
    parent_x + anchor_dx(anchor, parent_w) + align_dx(align, w)
}

/// Exact vertical center: anchor offset from the parent, then self-alignment.
pub open spec fn resolved_y(anchor: Position, align: Position, parent_y: int, parent_h: int, h: int) -> int {
    parent_y + anchor_dy(anchor, parent_h) + align_dy(align, h)
}

/// Bound that every intermediate value below stays within.
pub open spec fn wide_bound() -> int {
    0x1_0000_0000_0000_0000_0000_0000
}

fn div_toward_zero(a: i128, d: i128) -> (r: i128)
    requires
        0 < d,
        -wide_bound() <= a <= wide_bound(),
    ensures
        r == trunc_div(a as int, d as int),
{
    if a >= 0 {
        a / d
    } else {
        -((-a) / d)
    }
}

/// `p` percent of `extent`, rounded toward zero.
pub fn percent(extent: i64, p: i32) -> (r: i128)
    ensures
        r == percent_of(extent as int, p as int),
        -0x1_0000_0000_0000_0000_0000_0000 <= r <= 0x1_0000_0000_0000_0000_0000_0000,
{
    let e = extent as i128;
    let q = p as i128;
    assert(-0x8000_0000_0000_0000_0000_0000 <= e * q <= 0x8000_0000_0000_0000_0000_0000) by (nonlinear_arith)
        requires
            -0x8000_0000_0000_0000 <= e <= 0x8000_0000_0000_0000,
            -0x8000_0000 <= q <= 0x8000_0000,
    ;
    let prod = e * q;
    let r = div_toward_zero(prod, 100);
    assert(-0x1_0000_0000_0000_0000_0000_0000 <= r <= 0x1_0000_0000_0000_0000_0000_0000) by {
        if prod >= 0 {
            assert(prod / 100 <= prod) by (nonlinear_arith) requires prod >= 0;
        } else {
            assert((-prod) / 100 <= -prod) by (nonlinear_arith) requires -prod >= 0;
        }
    }
    r
}

/// `v` clipped to the range of `i32`.
pub fn clip_i32(v: i128) -> (r: i32)
    ensures
        r == clip(v as int),
{
    if v < i32::MIN as i128 {
        i32::MIN
    } else if v > i32::MAX as i128 {
        i32::MAX
    } else {
        v as i32
    }
}

fn base_value_exec(rule: Size, parent: i64, viewport: i64) -> (r: i128)
    ensures
        r == base_value(rule, parent as int, viewport as int),
        -wide_bound() <= r <= wide_bound(),
{
    match rule {
        Size::Auto => parent as i128,
        Size::Fill => parent as i128,
        Size::Pixel(v) => v as i128,
        Size::Percent(p) => percent(parent, p),
        Size::AbsFill => viewport as i128,
        Size::AbsPercent(p) => percent(viewport, p),
    }
}

fn offset_value_exec(rule: Size, parent: i64, viewport: i64) -> (r: i128)
    ensures
        r == offset_value(rule, parent as int, viewport as int),
        -wide_bound() <= r <= wide_bound(),
{
    match rule {
        Size::Pixel(_) | Size::Percent(_) | Size::AbsPercent(_) => base_value_exec(rule, parent, viewport),
        _ => 0,
    }
}

/// Resolves one axis of an element: the raw value of `size` less `margin`,
/// capped at `max` and then raised to `min`, clipped to `i32`.
pub fn resolve_size(size: Size, min: Size, max: Size, margin: Size, parent: i64, viewport: i64) -> (r: i32)
    ensures
        r == clip(resolved_size(size, min, max, margin, parent as int, viewport as int)),
{
    let v = base_value_exec(size, parent, viewport) - offset_value_exec(margin, parent, viewport);
    let capped = match max {
        Size::Auto | Size::Fill => v,
        _ => {
            let hi = base_value_exec(max, parent, viewport);
            if v > hi {
                hi
            } else {
                v
            }
        },
    };
    let r = match min {
        Size::Auto | Size::Fill => if capped < 0 {
            0
        } else {
            capped
        },
        _ => {
            let lo = base_value_exec(min, parent, viewport);
            if capped < lo {
                lo
            } else {
                capped
            }
        },
    };
    clip_i32(r)
}

fn custom_offset_exec(s: Size, extent: i64) -> (r: i128)
    ensures
        r == custom_offset(s, extent as int),
        -wide_bound() <= r <= wide_bound(),
{
    match s {
        Size::Pixel(v) => v as i128,
        Size::Percent(p) => percent(extent, p),
        _ => 0,
    }
}

fn half_exec(v: i64) -> (r: i128)
    ensures
        r == half(v as int),
        -0x8000_0000_0000_0000 <= r <= 0x8000_0000_0000_0000,
{
    div_toward_zero(v as i128, 2)
}

/// Resolves an element's center from its anchor in the parent and its
/// self-alignment, clipped to `i32`.
pub fn resolve_position(
    anchor: Position,
    align: Position,
    parent_x: i64,
    parent_y: i64,
    parent_w: i64,
    parent_h: i64,
    w: i64,
    h: i64,
) -> (r: (i32, i32))
    ensures
        r.0 == clip(resolved_x(anchor, align, parent_x as int, parent_w as int, w as int)),
        r.1 == clip(resolved_y(anchor, align, parent_y as int, parent_h as int, h as int)),
{
    let dx: i128 = match anchor {
        Position::BottomLeft | Position::Left | Position::TopLeft => -half_exec(parent_w),
        Position::Bottom | Position::Center | Position::Top => 0,
        Position::BottomRight | Position::Right | Position::TopRight => half_exec(parent_w),
        Position::Custom(x, _) => custom_offset_exec(x, parent_w),
    };
    let dy: i128 = match anchor {
        Position::TopLeft | Position::Top | Position::TopRight => -half_exec(parent_h),
        Position::Left | Position::Center | Position::Right => 0,
        Position::BottomLeft | Position::Bottom | Position::BottomRight => half_exec(parent_h),
        Position::Custom(_, y) => custom_offset_exec(y, parent_h),
    };
    let ax: i128 = match align {
        Position::BottomLeft | Position::Left | Position::TopLeft => half_exec(w),
        Position::Bottom | Position::Center | Position::Top => 0,
        Position::BottomRight | Position::Right | Position::TopRight => -half_exec(w),
        Position::Custom(x, _) => custom_offset_exec(x, w),
    };
    let ay: i128 = match align {
        Position::TopLeft | Position::Top | Position::TopRight => half_exec(h),
        Position::Left | Position::Center | Position::Right => 0,
        Position::BottomLeft | Position::Bottom | Position::BottomRight => -half_exec(h),
        Position::Custom(_, y) => custom_offset_exec(y, h),
    };
    (clip_i32(parent_x as i128 + dx + ax), clip_i32(parent_y as i128 + dy + ay))
}

} // verus!
