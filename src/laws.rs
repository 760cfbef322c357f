//! Laws of the size algebra and of the propagation pass.
use vstd::prelude::*;

use crate::algebra::{
    anchor_dx, anchor_dy, clamp_to, clip, half, lower_bound, offset_value, percent_of, resolved_size, resolved_x,
    resolved_y, upper_bound,
};
use crate::styles::{Position, Size};
use crate::tree::{lemma_walk_fuel, outcome_view, viewport_box, walk, ElementKey, Gui};

verus! {

/// A non-negative pixel width with no margin and no bounds resolves to
/// itself, whatever the parent's and the viewport's extents.
pub proof fn lemma_pixel_is_exact(v: i32, parent: int, viewport: int)
    requires
        v >= 0,
    ensures
        resolved_size(Size::Pixel(v), Size::Auto, Size::Auto, Size::Auto, parent, viewport) == v,
        clip(resolved_size(Size::Pixel(v), Size::Auto, Size::Auto, Size::Auto, parent, viewport)) == v,
{
}

/// A percentage width is that percentage of the parent's width, less the
/// margin, clamped by the bounds.
pub proof fn lemma_percent_of_parent(p: i32, min: Size, max: Size, margin: Size, parent: int, viewport: int)
    ensures
        resolved_size(Size::Percent(p), min, max, margin, parent, viewport) == clamp_to(
            percent_of(parent, p as int) - offset_value(margin, parent, viewport),
            lower_bound(min, parent, viewport),
            upper_bound(max, parent, viewport),
        ),
{
}

/// Whether a rule reads the parent's extent when it bounds or offsets.
pub open spec fn reads_parent(s: Size) -> bool {
    s is Percent
}

/// A viewport percentage does not depend on the parent's extent, as long as
/// neither bound nor the margin is a percentage of the parent.
pub proof fn lemma_viewport_percent_ignores_parent(
    p: i32,
    min: Size,
    max: Size,
    margin: Size,
    parent_a: int,
    parent_b: int,
    viewport: int,
)
    requires
        !reads_parent(min),
        !reads_parent(max),
        !reads_parent(margin),
    ensures
        resolved_size(Size::AbsPercent(p), min, max, margin, parent_a, viewport) == resolved_size(
            Size::AbsPercent(p),
            min,
            max,
            margin,
            parent_b,
            viewport,
        ),
{
}

/// Whenever the lower bound does not exceed the upper bound, the resolved
/// extent lies between them, before and after clipping to `i32`.
pub proof fn lemma_within_bounds(size: Size, min: Size, max: Size, margin: Size, parent: int, viewport: int)
    requires
        upper_bound(max, parent, viewport) matches Option::Some(hi) ==> lower_bound(min, parent, viewport) <= hi,
    ensures
        lower_bound(min, parent, viewport) <= resolved_size(size, min, max, margin, parent, viewport),
        upper_bound(max, parent, viewport) matches Option::Some(hi) ==> resolved_size(
            size,
            min,
            max,
            margin,
            parent,
            viewport,
        ) <= hi,
        clip(lower_bound(min, parent, viewport)) <= clip(resolved_size(size, min, max, margin, parent, viewport)),
        upper_bound(max, parent, viewport) matches Option::Some(hi) ==> clip(
            resolved_size(size, min, max, margin, parent, viewport),
        ) <= clip(hi),
{
}

/// Anchored at the parent's top-left corner and centered on itself, an
/// element's center is that corner, whatever its own size.
pub proof fn lemma_top_left_anchor_centered(parent_w: int, parent_h: int, w: int, h: int)
    ensures
        resolved_x(Position::TopLeft, Position::Center, 0, parent_w, w) == -half(parent_w),
        resolved_y(Position::TopLeft, Position::Center, 0, parent_h, h) == -half(parent_h),
{
    assert(anchor_dx(Position::TopLeft, parent_w) == -half(parent_w));
    assert(anchor_dy(Position::TopLeft, parent_h) == -half(parent_h));
}

/// A pass reads the tree, the entry and the viewport, and nothing that an
/// earlier pass left: two passes over the same tree and viewport store the
/// same placements.
pub proof fn lemma_passes_agree(first: Gui, second: Gui)
    requires
        first.slots() == second.slots(),
        first.entry_key() == second.entry_key(),
        first.viewport() == second.viewport(),
        outcome_view(first.stored_pass()) == first.spec_pass(),
        outcome_view(second.stored_pass()) == second.spec_pass(),
    ensures
        outcome_view(first.stored_pass()) == outcome_view(second.stored_pass()),
{
}


/// The depth bound of a pass never cuts it short: walking from the entry
/// with any larger bound gives the same outcome, so a pass reports a cycle
/// only where a key comes back on its own path.
pub proof fn lemma_depth_bound_is_ample(g: Gui, fuel: nat)
    requires
        g.entry_key() is Some,
        fuel >= g.slots().len(),
    ensures
        g.spec_pass() == walk(
            g.slots(),
            g.viewport().0 as int,
            g.viewport().1 as int,
            g.entry_key().unwrap(),
            viewport_box(g.viewport()),
            Seq::<ElementKey>::empty(),
            fuel,
        ),
{
    lemma_walk_fuel(
        g.slots(),
        g.viewport().0 as int,
        g.viewport().1 as int,
        g.entry_key().unwrap(),
        viewport_box(g.viewport()),
        Seq::<ElementKey>::empty(),
        g.slots().len(),
        fuel,
    );
}

} // verus!
