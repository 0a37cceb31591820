//! The declared style of a box and its resolved geometry.
use vstd::prelude::*;
use crate::arith::{max, min, px_add, px_max, px_min, sat};
use crate::units::{Context, Units};

verus! {

#[derive(Clone, Copy, Debug, PartialEq, Eq, Structural)]
pub enum Position {
    Static,
    Relative,
    Absolute,
    Fixed,
    Sticky,
}

#[derive(Clone, Copy, Debug, PartialEq, Eq, Structural)]
pub enum BoxSizing {
    ContentBox,
    BorderBox,
}

/// Display modes. Only `Block`, `Inline`, `InlineBlock`, `Contents` and `Removed`
/// take part in layout; the others are declared and give no box.
#[derive(Clone, Copy, Debug, PartialEq, Eq, Structural)]
pub enum Display {
    Inline,
    Block,
    InlineBlock,
    Flex,
    Contents,
    InlineFlex,
    Grid,
    InlineGrid,
    Table,
    InlineTable,
    ListItem,
    /// `display: none`: the box and its whole subtree are left out.
    Removed,
    RunIn,
}

#[derive(Clone, Copy, Debug, PartialEq, Eq, Structural)]
pub enum BorderStyle {
    /// `border-style: none`.
    Absent,
    Solid,
    Dotted,
    Dashed,
    Double,
    Groove,
    Ridge,
    Inset,
    Outset,
    Hidden,
}

#[derive(Clone, Copy, Debug, PartialEq, Eq, Structural)]
pub enum OutlineStyle {
    /// `outline-style: none`.
    Absent,
    Solid,
    Dotted,
    Dashed,
    Double,
    Groove,
    Ridge,
    Hidden,
}

/// An RGBA color, one byte per channel.
#[derive(Clone, Copy, Debug, PartialEq, Eq, Structural)]
pub struct Color {
    pub r: u8,
    pub g: u8,
    pub b: u8,
    pub a: u8,
}

impl Color {
    pub open spec fn premultiplied_spec(self) -> Color {
        Color {
            r: (self.r * self.a / 255) as u8,
            g: (self.g * self.a / 255) as u8,
            b: (self.b * self.a / 255) as u8,
            a: self.a,
        }
    }

    /// The color with its channels scaled by its alpha.
    #[verifier::when_used_as_spec(premultiplied_spec)]
    pub fn premultiplied(self) -> (r: Color)
        ensures
            r == self.premultiplied_spec(),
    {
        Color {
            r: premultiply(self.r, self.a),
            g: premultiply(self.g, self.a),
            b: premultiply(self.b, self.a),
            a: self.a,
        }
    }
}

fn premultiply(c: u8, a: u8) -> (r: u8)
    ensures
        r == c * a / 255,
{
    proof {
        assert(c * a <= 255 * 255) by (nonlinear_arith)
            requires
                c <= 255,
                a <= 255,
        ;
        assert(c * a / 255 <= 255) by (nonlinear_arith)
            requires
                c * a <= 255 * 255,
                c * a >= 0,
        ;
    }
    ((c as u32 * a as u32) / 255) as u8
}

/// A font family, named or generic.
#[derive(Clone, Debug, PartialEq, Eq)]
pub enum FontFamily {
    Name(String),
    Serif,
    SansSerif,
    Cursive,
    Fantasy,
    Monospace,
}

/// The declared, unresolved properties of a box. Four-entry arrays are
/// ordered top, right, bottom, left.
#[derive(Debug)]
pub struct Style {
    pub top: Units,
    pub right: Units,
    pub bottom: Units,
    pub left: Units,
    pub position: Position,
    pub display: Display,
    pub margin: [Units; 4],
    pub padding: [Units; 4],
    pub border_size: [Units; 4],
    pub border_radius: [Units; 4],
    pub outline_width: Units,
    pub outline_offset: Units,
    pub box_sizing: BoxSizing,
    pub font_color: Color,
    pub font_size: Units,
    pub line_height: Units,
    pub font_family: FontFamily,
    pub height: Units,
    pub width: Units,
    pub max_width: Units,
    pub max_height: Units,
    pub min_width: Units,
    pub min_height: Units,
}

impl Style {
    /// The declared height `h` in `ctx`, raised to the minimum (whose `Auto`
    /// is 0) and then held to the maximum, which resolves with `h` as its
    /// `Auto`; a maximum that is `Auto` itself sets no cap.
    pub open spec fn height_px(&self, ctx: Context) -> int {
        let h = self.height.px(ctx);
        let raised = max(h, self.min_height.px(ctx.with_auto(0)));
        let cap = if self.max_height is Auto {
            raised
        } else {
            self.max_height.px(ctx.with_auto(h as i64))
        };
        min(raised, cap)
    }

    /// The declared width in `ctx`, clamped as `height_px` is.
    pub open spec fn width_px(&self, ctx: Context) -> int {
        let w = self.width.px(ctx);
        let raised = max(w, self.min_width.px(ctx.with_auto(0)));
        let cap = if self.max_width is Auto {
            raised
        } else {
            self.max_width.px(ctx.with_auto(w as i64))
        };
        min(raised, cap)
    }

    pub fn height(&self, context: &Context) -> (r: i64)
        ensures
            r == self.height_px(*context),
    {
        let v = self.height.to_px(context);
        let raised = px_max(v, self.min_height.to_px(&context.with_auto(0)));
        if self.max_height.is_auto() {
            raised
        } else {
            px_min(raised, self.max_height.to_px(&context.with_auto(v)))
        }
    }

    pub fn width(&self, context: &Context) -> (r: i64)
        ensures
            r == self.width_px(*context),
    {
        let v = self.width.to_px(context);
        let raised = px_max(v, self.min_width.to_px(&context.with_auto(0)));
        if self.max_width.is_auto() {
            raised
        } else {
            px_min(raised, self.max_width.to_px(&context.with_auto(v)))
        }
    }

    pub open spec fn default_spec() -> Style {
        Style {
            top: Units::Auto,
            right: Units::Auto,
            bottom: Units::Auto,
            left: Units::Auto,
            position: Position::Static,
            display: Display::Block,
            width: Units::Auto,
            height: Units::Auto,
            outline_width: Units::Px(0),
            outline_offset: Units::Px(0),
            margin: [Units::Px(0), Units::Px(0), Units::Px(0), Units::Px(0)],
            padding: [Units::Px(0), Units::Px(0), Units::Px(0), Units::Px(0)],
            border_size: [Units::Px(0), Units::Px(0), Units::Px(0), Units::Px(0)],
            border_radius: [Units::Px(0), Units::Px(0), Units::Px(0), Units::Px(0)],
            box_sizing: BoxSizing::ContentBox,
            font_size: Units::Px(16),
            font_color: Color { r: 255, g: 255, b: 255, a: 255 },
            line_height: Units::Perc(120),
            font_family: FontFamily::Serif,
            max_width: Units::Auto,
            max_height: Units::Auto,
            min_width: Units::Auto,
            min_height: Units::Auto,
        }
    }
}

impl Default for Style {
    /// Static block box of automatic size, no spacing, 16px serif white text
    /// with a line height of 120%.
    fn default() -> (r: Style)
        ensures
            r == Style::default_spec(),
    {
        Style {
            top: Units::Auto,
            right: Units::Auto,
            bottom: Units::Auto,
            left: Units::Auto,
            position: Position::Static,
            display: Display::Block,
            width: Units::Auto,
            height: Units::Auto,
            outline_width: Units::Px(0),
            outline_offset: Units::Px(0),
            margin: [Units::Px(0), Units::Px(0), Units::Px(0), Units::Px(0)],
            padding: [Units::Px(0), Units::Px(0), Units::Px(0), Units::Px(0)],
            border_size: [Units::Px(0), Units::Px(0), Units::Px(0), Units::Px(0)],
            border_radius: [Units::Px(0), Units::Px(0), Units::Px(0), Units::Px(0)],
            box_sizing: BoxSizing::ContentBox,
            font_size: Units::Px(16),
            font_color: Color { r: 255, g: 255, b: 255, a: 255 },
            line_height: Units::Perc(120),
            font_family: FontFamily::Serif,
            max_width: Units::Auto,
            max_height: Units::Auto,
            min_width: Units::Auto,
            min_height: Units::Auto,
        }
    }
}

#[derive(Clone, Copy, Debug)]
pub struct Border {
    pub radius: [i64; 4],
    pub size: [i64; 4],
    pub top_color: Color,
    pub bottom_color: Color,
    pub left_color: Color,
    pub right_color: Color,
    pub style: BorderStyle,
}

#[derive(Clone, Copy, Debug)]
pub struct Outline {
    pub width: i64,
    pub color: Color,
    pub offset: i64,
    pub style: OutlineStyle,
}

impl Border {
    pub open spec fn default_spec() -> Border {
        Border {
            radius: [0, 0, 0, 0],
            size: [0, 0, 0, 0],
            top_color: Color { r: 0, g: 0, b: 0, a: 0 },
            bottom_color: Color { r: 0, g: 0, b: 0, a: 0 },
            left_color: Color { r: 0, g: 0, b: 0, a: 0 },
            right_color: Color { r: 0, g: 0, b: 0, a: 0 },
            style: BorderStyle::Solid,
        }
    }
}

impl Default for Border {
    /// A solid border of no width, no radius and transparent colors.
    fn default() -> (r: Border)
        ensures
            r == Border::default_spec(),
    {
        Border {
            radius: [0, 0, 0, 0],
            size: [0, 0, 0, 0],
            top_color: Color { r: 0, g: 0, b: 0, a: 0 },
            bottom_color: Color { r: 0, g: 0, b: 0, a: 0 },
            left_color: Color { r: 0, g: 0, b: 0, a: 0 },
            right_color: Color { r: 0, g: 0, b: 0, a: 0 },
            style: BorderStyle::Solid,
        }
    }
}

impl Outline {
    pub open spec fn default_spec() -> Outline {
        Outline { width: 0, color: Color { r: 0, g: 0, b: 0, a: 0 }, offset: 0, style: OutlineStyle::Solid }
    }
}

impl Default for Outline {
    /// A solid outline of no width and no offset, transparent.
    fn default() -> (r: Outline)
        ensures
            r == Outline::default_spec(),
    {
        Outline { width: 0, color: Color { r: 0, g: 0, b: 0, a: 0 }, offset: 0, style: OutlineStyle::Solid }
    }
}

/// A box's position and outer (border-box) size.
#[derive(Clone, Copy, Debug, PartialEq, Eq, Structural)]
pub struct Extents {
    pub x: i64,
    pub y: i64,
    pub width: i64,
    pub height: i64,
}

/// The resolved state of a box, beside its declared style.
///
/// `x` and `y` give the top-left corner of the border box; `width` and
/// `height` the content box. Filters are in percent, angles in degrees,
/// `scale` in percent and `translate` in pixels.
#[derive(Debug)]
pub struct Rectangle {
    pub x: i64,
    pub y: i64,
    pub width: i64,
    pub height: i64,
    pub background_color: Color,
    pub margin: [i64; 4],
    pub padding: [i64; 4],
    pub border: Border,
    pub outline: Outline,
    pub brightness: i64,
    pub contrast: i64,
    pub grayscale: i64,
    pub hue_rotate: i64,
    pub invert: i64,
    pub saturate: i64,
    pub sepia: i64,
    pub scale: [i64; 2],
    pub rotate: i64,
    pub skew: [i64; 2],
    pub translate: [i64; 2],
    pub font_size: i64,
    pub line_height: i64,
    pub style: Style,
}

/// Padding plus border across the horizontal axis.
pub open spec fn spacing_h(r: &Rectangle) -> int {
    sat(sat(sat(r.padding[1] + r.padding[3]) + r.border.size[1]) + r.border.size[3])
}

/// Padding plus border across the vertical axis.
pub open spec fn spacing_v(r: &Rectangle) -> int {
    sat(sat(sat(r.padding[0] + r.padding[2]) + r.border.size[0]) + r.border.size[2])
}

impl Rectangle {
    pub open spec fn extents_spec(&self) -> Extents {
        Extents {
            x: self.x,
            y: self.y,
            width: sat(self.width + spacing_h(self)) as i64,
            height: sat(self.height + spacing_v(self)) as i64,
        }
    }

    /// Padding plus border across the horizontal axis.
    pub fn spacing_h(&self) -> (r: i64)
        ensures
            r == spacing_h(self),
    {
        px_add(
            px_add(px_add(self.padding[1], self.padding[3]), self.border.size[1]),
            self.border.size[3],
        )
    }

    /// Padding plus border across the vertical axis.
    pub fn spacing_v(&self) -> (r: i64)
        ensures
            r == spacing_v(self),
    {
        px_add(
            px_add(px_add(self.padding[0], self.padding[2]), self.border.size[0]),
            self.border.size[2],
        )
    }

    /// Position and border-box size: the content size plus padding and border.
    #[verifier::when_used_as_spec(extents_spec)]
    pub fn get_extents(&self) -> (r: Extents)
        ensures
            r == self.extents_spec(),
    {
        Extents {
            x: self.x,
            y: self.y,
            width: px_add(self.width, self.spacing_h()),
            height: px_add(self.height, self.spacing_v()),
        }
    }

    pub open spec fn new_spec() -> Rectangle {
        Rectangle {
            x: 0,
            y: 0,
            width: 0,
            height: 0,
            margin: [0, 0, 0, 0],
            padding: [0, 0, 0, 0],
            background_color: Color { r: 0, g: 0, b: 0, a: 0 },
            border: Border::default_spec(),
            outline: Outline::default_spec(),
            brightness: 0,
            contrast: 100,
            grayscale: 0,
            hue_rotate: 0,
            invert: 0,
            saturate: 100,
            sepia: 0,
            scale: [100, 100],
            rotate: 0,
            skew: [0, 0],
            translate: [0, 0],
            font_size: 16,
            line_height: 19,
            style: Style::default_spec(),
        }
    }

    /// A box at the origin with no size, neutral filters and the default style.
    pub fn new() -> (r: Rectangle)
        ensures
            r == Rectangle::new_spec(),
    {
        Rectangle {
            x: 0,
            y: 0,
            width: 0,
            height: 0,
            margin: [0, 0, 0, 0],
            padding: [0, 0, 0, 0],
            background_color: Color { r: 0, g: 0, b: 0, a: 0 },
            border: Border::default(),
            outline: Outline::default(),
            brightness: 0,
            contrast: 100,
            grayscale: 0,
            hue_rotate: 0,
            invert: 0,
            saturate: 100,
            sepia: 0,
            scale: [100, 100],
            rotate: 0,
            skew: [0, 0],
            translate: [0, 0],
            font_size: 16,
            line_height: 19,
            style: Style::default(),
        }
    }
}

} // verus!
