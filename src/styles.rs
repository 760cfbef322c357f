use std::sync::Arc;

use vstd::prelude::*;

use crate::algebra::{resolve_position, resolve_size, resolved_size, resolved_x, resolved_y, clip};

verus! {

/// A length rule, used for widths, heights, their bounds, margins and spacing.
#[derive(Clone, Copy, Debug, PartialEq, Eq, Structural, Default)]
pub enum Size {
    /// Defer to the parent's extent.
    Auto,
    /// Take the parent's whole extent.
    #[default]
    Fill,
    /// A fixed number of pixels.
    Pixel(i32),
    /// A percentage of the parent's extent.
    Percent(i32),
    /// Take the viewport's whole extent.
    AbsFill,
    /// A percentage of the viewport's extent.
    AbsPercent(i32),
}

/// An anchor within the parent, or an alignment of an element against itself.
#[derive(Clone, Copy, Debug, PartialEq, Eq, Structural, Default)]
pub enum Position {
    Top,
    TopLeft,
    TopRight,
    Right,
    Bottom,
    BottomRight,
    BottomLeft,
    Left,
    #[default]
    Center,
    Custom(Size, Size),
}


/// A rotation rule. It is carried with the style but not resolved: resolved
/// boxes have no rotation. Payloads are in thousandths of their unit.
#[derive(Clone, Copy, Debug, PartialEq, Eq, Structural, Default)]
pub enum Rotation {
    #[default]
    Auto,
    AbsAuto,
    Deg(i32),
    Rad(i32),
    Percent(i32),
    AbsDeg(i32),
    AbsRad(i32),
    AbsPercent(i32),
}

/// An RGBA color, one byte per channel.
#[derive(Clone, Copy, Debug, PartialEq, Eq, Structural, Default)]
pub struct Color {
    pub r: u8,
    pub g: u8,
    pub b: u8,
    pub a: u8,
}

impl Color {
    /// Fully transparent black.
    pub fn zeroed() -> (r: Color)
        ensures
            r == (Color { r: 0, g: 0, b: 0, a: 0 }),
    {
        Color { r: 0, g: 0, b: 0, a: 0 }
    }
}

/// A handle to a decoded image that the host has uploaded.
#[derive(Clone, Copy, Debug, PartialEq, Eq, Structural)]
pub struct Texture {
    pub id: u64,
    pub width: u32,
    pub height: u32,
}

/// A color at a position, one end of a gradient.
#[derive(Clone, Copy, Debug, PartialEq, Eq, Structural, Default)]
pub struct ColorPoint {
    pub position: Position,
    pub color: Color,
}

/// A linear gradient between two color points (carried, not resolved).
#[derive(Clone, Copy, Debug, PartialEq, Eq, Structural, Default)]
pub struct LinearGradient {
    pub p1: ColorPoint,
    pub p2: ColorPoint,
}

/// A radial gradient between two color points (carried, not resolved).
#[derive(Clone, Copy, Debug, PartialEq, Eq, Structural, Default)]
pub struct RadialGradient {
    pub p1: ColorPoint,
    pub p2: ColorPoint,
}

/// Background layers. They are drawn texture first, then the linear and the
/// radial gradient, and the color last, as a tint on top.
#[derive(Clone, Debug)]
pub struct Background {
    pub color: Color,
    pub texture: Option<Arc<Texture>>,
    pub lin_gradient: Option<LinearGradient>,
    pub rad_gradient: Option<RadialGradient>,
}

/// Border of an element (carried, not resolved).
#[derive(Clone, Debug)]
pub struct Border {
    pub background: Background,
    pub width: Size,
    pub min_width: Size,
    pub max_width: Size,
    pub radius: Size,
    pub min_radius: Size,
    pub max_radius: Size,
    pub visible: bool,
}

/// Text style of an element.
#[derive(Clone, Copy, Debug, PartialEq, Eq, Structural)]
pub struct Text {
    pub size: Size,
    pub color: Color,
    pub justify: Position,
    pub fit: bool,
}

/// Size and position rules of an element.
#[derive(Clone, Copy, Debug, PartialEq, Eq, Structural)]
pub struct Transform {
    pub rotation: Rotation,
    /// Anchor of the element within its parent.
    pub position: Position,
    /// Alignment of the element against itself.
    pub align: Position,
    pub width: Size,
    pub max_width: Size,
    pub min_width: Size,
    pub height: Size,
    pub max_height: Size,
    pub min_height: Size,
    /// Space taken off the element's extent before clamping.
    pub margin: Size,
    /// Carried, not resolved.
    pub padding: Size,
}

/// One flag per render-relevant aspect that changed since the last sync.
#[derive(Clone, Copy, Debug, PartialEq, Eq, Structural)]
pub struct Flags {
    pub dirty_color: bool,
    pub dirty_texture: bool,
    pub dirty_lin_gradient: bool,
    pub dirty_rad_gradient: bool,
    pub dirty_text: bool,
    pub dirty_transform: bool,
    pub dirty_border: bool,
    pub recalc_transform: bool,
}

/// Every flag set.
pub open spec fn all_flags() -> Flags {
    Flags {
        dirty_color: true,
        dirty_texture: true,
        dirty_lin_gradient: true,
        dirty_rad_gradient: true,
        dirty_text: true,
        dirty_transform: true,
        dirty_border: true,
        recalc_transform: true,
    }
}

/// The flags of `f` that `consumed` does not hold.
pub open spec fn flags_left(f: Flags, consumed: Flags) -> Flags {
    Flags {
        dirty_color: f.dirty_color && !consumed.dirty_color,
        dirty_texture: f.dirty_texture && !consumed.dirty_texture,
        dirty_lin_gradient: f.dirty_lin_gradient && !consumed.dirty_lin_gradient,
        dirty_rad_gradient: f.dirty_rad_gradient && !consumed.dirty_rad_gradient,
        dirty_text: f.dirty_text && !consumed.dirty_text,
        dirty_transform: f.dirty_transform && !consumed.dirty_transform,
        dirty_border: f.dirty_border && !consumed.dirty_border,
        recalc_transform: f.recalc_transform && !consumed.recalc_transform,
    }
}

impl Default for Flags {
    fn default() -> (r: Flags)
        ensures
            r == all_flags(),
    {
        Flags {
            dirty_color: true,
            dirty_texture: true,
            dirty_lin_gradient: true,
            dirty_rad_gradient: true,
            dirty_text: true,
            dirty_transform: true,
            dirty_border: true,
            recalc_transform: true,
        }
    }
}

impl Flags {
    /// Clears the flags that a render sync consumed and keeps the others.
    pub fn clear_consumed(&mut self, consumed: &Flags)
        ensures
            *final(self) == flags_left(*old(self), *consumed),
    {
        self.dirty_color = self.dirty_color && !consumed.dirty_color;
        self.dirty_texture = self.dirty_texture && !consumed.dirty_texture;
        self.dirty_lin_gradient = self.dirty_lin_gradient && !consumed.dirty_lin_gradient;
        self.dirty_rad_gradient = self.dirty_rad_gradient && !consumed.dirty_rad_gradient;
        self.dirty_text = self.dirty_text && !consumed.dirty_text;
        self.dirty_transform = self.dirty_transform && !consumed.dirty_transform;
        self.dirty_border = self.dirty_border && !consumed.dirty_border;
        self.recalc_transform = self.recalc_transform && !consumed.recalc_transform;
    }
}


/// The rule set of one element, with flags that mark what changed since the
/// last render sync.
#[derive(Clone, Debug)]
pub struct StyleSheet {
    pub transform: Transform,
    pub background: Background,
    pub border: Border,
    pub text: Text,
    pub visible: bool,
    pub flags: Flags,
}

/// Transform rules of a new style sheet: fill the parent, centered.
pub open spec fn default_transform() -> Transform {
    Transform {
        rotation: Rotation::Auto,
        position: Position::Center,
        align: Position::Center,
        width: Size::Fill,
        max_width: Size::Auto,
        min_width: Size::Auto,
        height: Size::Fill,
        max_height: Size::Auto,
        min_height: Size::Auto,
        margin: Size::Auto,
        padding: Size::Auto,
    }
}

/// A background with no layer and a fully transparent tint.
pub open spec fn empty_background() -> Background {
    Background {
        color: Color { r: 0, g: 0, b: 0, a: 0 },
        texture: Option::None,
        lin_gradient: Option::None,
        rad_gradient: Option::None,
    }
}

/// Text rules of a new style sheet.
pub open spec fn default_text() -> Text {
    Text { size: Size::Fill, color: Color { r: 0, g: 0, b: 0, a: 0 }, justify: Position::Center, fit: false }
}

/// The rules of a new element: fill the parent, centered, visible, with no
/// background layer, a transparent tint, and every flag set.
pub open spec fn is_default_sheet(r: StyleSheet) -> bool {
    &&& r.transform == default_transform()
    &&& r.background == empty_background()
    &&& r.border == (Border {
        background: empty_background(),
        width: Size::Auto,
        min_width: Size::Auto,
        max_width: Size::Auto,
        radius: Size::Auto,
        min_radius: Size::Auto,
        max_radius: Size::Auto,
        visible: false,
    })
    &&& r.text == default_text()
    &&& r.visible
    &&& r.flags == all_flags()
}

fn new_background() -> (r: Background)
    ensures
        r == empty_background(),
{
    Background { color: Color::zeroed(), texture: None, lin_gradient: None, rad_gradient: None }
}

impl Default for StyleSheet {
    fn default() -> (r: StyleSheet)
        ensures
            is_default_sheet(r),
    {
        StyleSheet {
            transform: Transform {
                rotation: Rotation::Auto,
                position: Position::Center,
                align: Position::Center,
                width: Size::Fill,
                max_width: Size::Auto,
                min_width: Size::Auto,
                height: Size::Fill,
                max_height: Size::Auto,
                min_height: Size::Auto,
                margin: Size::Auto,
                padding: Size::Auto,
            },
            background: new_background(),
            border: Border {
                background: new_background(),
                width: Size::Auto,
                min_width: Size::Auto,
                max_width: Size::Auto,
                radius: Size::Auto,
                min_radius: Size::Auto,
                max_radius: Size::Auto,
                visible: false,
            },
            text: Text { size: Size::Fill, color: Color::zeroed(), justify: Position::Center, fit: false },
            visible: true,
            flags: Flags::default(),
        }
    }
}

impl StyleSheet {
    /// The exact width these rules give inside a parent of `parent_width`.
    pub open spec fn spec_width(&self, parent_width: int, window_width: int) -> int {
        resolved_size(
            self.transform.width,
            self.transform.min_width,
            self.transform.max_width,
            self.transform.margin,
            parent_width,
            window_width,
        )
    }

    /// The exact height these rules give inside a parent of `parent_height`.
    pub open spec fn spec_height(&self, parent_height: int, window_height: int) -> int {
        resolved_size(
            self.transform.height,
            self.transform.min_height,
            self.transform.max_height,
            self.transform.margin,
            parent_height,
            window_height,
        )
    }

    /// Resolved width against the parent's and the viewport's widths.
    pub fn get_width(&self, parent_width: i64, window_width: i64) -> (r: i32)
        ensures
            r == clip(self.spec_width(parent_width as int, window_width as int)),
    {
        let t = &self.transform;
        resolve_size(t.width, t.min_width, t.max_width, t.margin, parent_width, window_width)
    }

    /// Resolved height against the parent's and the viewport's heights.
    pub fn get_height(&self, parent_height: i64, window_height: i64) -> (r: i32)
        ensures
            r == clip(self.spec_height(parent_height as int, window_height as int)),
    {
        let t = &self.transform;
        resolve_size(t.height, t.min_height, t.max_height, t.margin, parent_height, window_height)
    }

    /// Horizontal center of an element of resolved `width` in a parent
    /// centered at `parent_x` with `parent_width`.
    pub fn get_x(&self, parent_x: i64, parent_width: i64, width: i64) -> (r: i32)
        ensures
            r == clip(resolved_x(self.transform.position, self.transform.align, parent_x as int, parent_width as int, width as int)),
    {
        let p = resolve_position(self.transform.position, self.transform.align, parent_x, 0, parent_width, 0, width, 0);
        p.0
    }

    /// Vertical center of an element of resolved `height` in a parent
    /// centered at `parent_y` with `parent_height`.
    pub fn get_y(&self, parent_y: i64, parent_height: i64, height: i64) -> (r: i32)
        ensures
            r == clip(resolved_y(self.transform.position, self.transform.align, parent_y as int, parent_height as int, height as int)),
    {
        let p = resolve_position(self.transform.position, self.transform.align, 0, parent_y, 0, parent_height, 0, height);
        p.1
    }

    pub fn get_transform(&self) -> (r: &Transform)
        ensures
            *r == self.transform,
    {
        &self.transform
    }

    /// Hands out the transform rules and marks the transform for recalculation.
    pub fn transfomr_mut(&mut self) -> (r: &mut Transform)
        ensures
            *r == old(self).transform,
            *final(self) == (StyleSheet {
                transform: *final(r),
                flags: Flags { recalc_transform: true, ..old(self).flags },
                ..*old(self)
            }),
    {
        self.flags.recalc_transform = true;
        &mut self.transform
    }

    pub fn bg_color(&self) -> (r: &Color)
        ensures
            *r == self.background.color,
    {
        &self.background.color
    }

    /// Hands out the background tint and marks the color dirty.
    pub fn bg_color_mut(&mut self) -> (r: &mut Color)
        ensures
            *r == old(self).background.color,
            *final(self) == (StyleSheet {
                background: Background { color: *final(r), ..old(self).background },
                flags: Flags { dirty_color: true, ..old(self).flags },
                ..*old(self)
            }),
    {
        self.flags.dirty_color = true;
        &mut self.background.color
    }

    pub fn get_bg_texture(&self) -> (r: Option<Arc<Texture>>)
        ensures
            r.is_some() == self.background.texture.is_some(),
    {
        self.background.texture.clone()
    }

    /// Replaces the background texture and marks the texture dirty.
    pub fn set_bg_texture(&mut self, texture: Option<Arc<Texture>>)
        ensures
            *final(self) == (StyleSheet {
                background: Background { texture: texture, ..old(self).background },
                flags: Flags { dirty_texture: true, ..old(self).flags },
                ..*old(self)
            }),
    {
        self.flags.dirty_texture = true;
        self.background.texture = texture;
    }

    pub fn get_bg_lin_gradient(&self) -> (r: Option<LinearGradient>)
        ensures
            r == self.background.lin_gradient,
    {
        self.background.lin_gradient
    }

    /// Replaces the linear gradient and marks it dirty.
    pub fn set_bg_lin_gradient(&mut self, lin_gradient: Option<LinearGradient>)
        ensures
            *final(self) == (StyleSheet {
                background: Background { lin_gradient: lin_gradient, ..old(self).background },
                flags: Flags { dirty_lin_gradient: true, ..old(self).flags },
                ..*old(self)
            }),
    {
        self.flags.dirty_lin_gradient = true;
        self.background.lin_gradient = lin_gradient;
    }

    pub fn get_bg_rad_gradient(&self) -> (r: Option<RadialGradient>)
        ensures
            r == self.background.rad_gradient,
    {
        self.background.rad_gradient
    }

    /// Replaces the radial gradient and marks it dirty.
    pub fn set_bg_rad_gradient(&mut self, rad_gradient: Option<RadialGradient>)
        ensures
            *final(self) == (StyleSheet {
                background: Background { rad_gradient: rad_gradient, ..old(self).background },
                flags: Flags { dirty_rad_gradient: true, ..old(self).flags },
                ..*old(self)
            }),
    {
        self.flags.dirty_rad_gradient = true;
        self.background.rad_gradient = rad_gradient;
    }

    pub fn get_text(&self) -> (r: &Text)
        ensures
            *r == self.text,
    {
        &self.text
    }

    /// Hands out the text rules and marks the text dirty.
    pub fn text_mut(&mut self) -> (r: &mut Text)
        ensures
            *r == old(self).text,
            *final(self) == (StyleSheet {
                text: *final(r),
                flags: Flags { dirty_text: true, ..old(self).flags },
                ..*old(self)
            }),
    {
        self.flags.dirty_text = true;
        &mut self.text
    }

    pub fn get_border(&self) -> (r: &Border)
        ensures
            *r == self.border,
    {
        &self.border
    }

    /// Hands out the border and marks the border dirty.
    pub fn border_mut(&mut self) -> (r: &mut Border)
        ensures
            *r == old(self).border,
            *final(self) == (StyleSheet {
                border: *final(r),
                flags: Flags { dirty_border: true, ..old(self).flags },
                ..*old(self)
            }),
    {
        self.flags.dirty_border = true;
        &mut self.border
    }

    pub fn is_visible(&self) -> (r: bool)
        ensures
            r == self.visible,
    {
        self.visible
    }

    pub fn set_visible(&mut self, visible: bool)
        ensures
            *final(self) == (StyleSheet { visible: visible, ..*old(self) }),
    {
        self.visible = visible;
    }

    pub fn flags(&self) -> (r: &Flags)
        ensures
            *r == self.flags,
    {
        &self.flags
    }

    /// Clears the flags that a render sync consumed; the others stay set.
    pub fn clear_flags(&mut self, consumed: &Flags)
        ensures
            *final(self) == (StyleSheet { flags: flags_left(old(self).flags, *consumed), ..*old(self) }),
    {
        self.flags.clear_consumed(consumed);
    }
}

} // verus!
