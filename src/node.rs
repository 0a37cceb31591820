//! Tree nodes and the flow layout engine.
use vstd::prelude::*;
use crate::arith::{max, px_add, px_div, px_max, px_sub, quot, sat};
use crate::rectangle::{
    spacing_h, spacing_v, Border, BorderStyle, BoxSizing, Color, Display, FontFamily, Outline,
    OutlineStyle, Position, Rectangle, Style,
};
use crate::tree::State;
use crate::units::{Context, Units};

verus! {

/// A measured run of text: an opaque handle chosen by the caller, and the
/// natural width and height that text shaping gave it.
#[derive(Clone, Copy, Debug, PartialEq, Eq, Structural)]
pub struct Text {
    pub handle: u64,
    pub width: i64,
    pub height: i64,
}

/// The containing box that a node is laid out in: the origin and size of its
/// content box, and the font size that `em` refers to.
#[derive(Clone, Copy, Debug, PartialEq, Eq, Structural)]
pub struct ParentState {
    pub x: i64,
    pub y: i64,
    pub width: i64,
    pub height: i64,
    pub font_size: i64,
}

/// The state of a flow: the cursor where the next in-flow box goes, the
/// height of the line under way, and the extent covered so far.
#[derive(Clone, Copy, Debug, PartialEq, Eq, Structural)]
pub struct Flow {
    pub x: i64,
    pub y: i64,
    pub line: i64,
    pub width: i64,
    pub height: i64,
}

impl Flow {
    pub open spec fn start_spec() -> Flow {
        Flow { x: 0, y: 0, line: 0, width: 0, height: 0 }
    }

    /// An empty flow at the origin.
    #[verifier::when_used_as_spec(start_spec)]
    pub fn start() -> (r: Flow)
        ensures
            r == Flow::start_spec(),
    {
        Flow { x: 0, y: 0, line: 0, width: 0, height: 0 }
    }
}

/// A node of the tree: its resolved box with its declared style, its
/// children in flow order, and an optional run of text.
#[derive(Debug)]
pub struct Node {
    pub children: Vec<Node>,
    pub data: Rectangle,
    pub text: Option<Text>,
}

/// The resolution context for a box laid out in `c`.
pub open spec fn context_for(g: State, c: ParentState, reference: i64, auto: i64) -> Context {
    Context {
        root_font_size: g.root_font_size,
        reference_size: reference,
        parent_font_size: c.font_size,
        viewport: g.viewport,
        auto,
        dpi: g.dpi,
    }
}

fn make_context(g: &State, c: &ParentState, reference: i64, auto: i64) -> (r: Context)
    ensures
        r == context_for(*g, *c, reference, auto),
{
    Context {
        root_font_size: g.root_font_size,
        reference_size: reference,
        parent_font_size: c.font_size,
        viewport: g.viewport,
        auto,
        dpi: g.dpi,
    }
}

/// The font size of a box with style `s` laid out in `c`.
pub open spec fn font_size_in(s: &Style, c: ParentState, g: State) -> i64 {
    s.font_size.px(context_for(g, c, c.font_size, 0)) as i64
}

/// `r` with its margins, padding, border, radius, outline and font metrics
/// resolved in `c`: box lengths against the container's width, the font
/// size against the parent's font size and the line height against the
/// box's own font size. `Auto` counts as 0 here.
pub open spec fn resolve_static(r: Rectangle, c: ParentState, g: State) -> Rectangle {
    let ctx = context_for(g, c, c.width, 0);
    let s = r.style;
    let fs = font_size_in(&s, c, g);
    Rectangle {
        outline: Outline {
            width: s.outline_width.px(ctx) as i64,
            offset: s.outline_offset.px(ctx) as i64,
            ..r.outline
        },
        padding: [
            s.padding[0].px(ctx) as i64,
            s.padding[1].px(ctx) as i64,
            s.padding[2].px(ctx) as i64,
            s.padding[3].px(ctx) as i64,
        ],
        border: Border {
            size: [
                s.border_size[0].px(ctx) as i64,
                s.border_size[1].px(ctx) as i64,
                s.border_size[2].px(ctx) as i64,
                s.border_size[3].px(ctx) as i64,
            ],
            radius: [
                s.border_radius[0].px(ctx) as i64,
                s.border_radius[1].px(ctx) as i64,
                s.border_radius[2].px(ctx) as i64,
                s.border_radius[3].px(ctx) as i64,
            ],
            ..r.border
        },
        margin: [
            s.margin[0].px(ctx) as i64,
            s.margin[1].px(ctx) as i64,
            s.margin[2].px(ctx) as i64,
            s.margin[3].px(ctx) as i64,
        ],
        font_size: fs,
        line_height: s.line_height.px(context_for(g, c, fs, 0)) as i64,
        ..r
    }
}

/// Whether a display mode gives a box that takes part in flow layout.
pub open spec fn is_participant(d: Display) -> bool {
    d == Display::Block || d == Display::Inline || d == Display::InlineBlock
}

/// Whether a position mode keeps the box in normal flow.
pub open spec fn in_flow(p: Position) -> bool {
    p == Position::Static || p == Position::Relative || p == Position::Sticky
}

/// What the declared width counts besides the content box.
pub open spec fn sizing_w(r: &Rectangle) -> int {
    if r.style.box_sizing == BoxSizing::BorderBox {
        spacing_h(r)
    } else {
        0
    }
}

/// What the declared height counts besides the content box.
pub open spec fn sizing_h(r: &Rectangle) -> int {
    if r.style.box_sizing == BoxSizing::BorderBox {
        spacing_v(r)
    } else {
        0
    }
}

pub open spec fn margins_w(r: &Rectangle) -> int {
    sat(r.margin[1] + r.margin[3])
}

pub open spec fn margins_h(r: &Rectangle) -> int {
    sat(r.margin[0] + r.margin[2])
}

/// The content width that the box's children are laid out in: the
/// container's content width for an inline box, which has no width of its
/// own; otherwise the declared width, whose `Auto` fills the container (it
/// is the container's content width).
pub open spec fn measure_width(r: &Rectangle, c: ParentState, g: State) -> int {
    if r.style.display == Display::Inline {
        c.width as int
    } else {
        sat(r.style.width_px(context_for(g, c, c.width, c.width)) - sizing_w(r))
    }
}

/// The content height that the box's children resolve percentages against:
/// the declared height with `Auto` as 0.
pub open spec fn measure_height(r: &Rectangle, c: ParentState, g: State) -> int {
    sat(r.style.height_px(context_for(g, c, c.height, 0)) - sizing_h(r))
}

/// The container that the children of a box resolved as `r` are laid out in.
pub open spec fn inner_state(r: &Rectangle, c: ParentState, g: State) -> ParentState {
    ParentState {
        x: 0,
        y: 0,
        width: measure_width(r, c, g) as i64,
        height: measure_height(r, c, g) as i64,
        font_size: r.font_size,
    }
}

pub open spec fn text_width(t: Option<Text>) -> int {
    match t {
        Some(t) => t.width as int,
        None => 0,
    }
}

pub open spec fn text_height(t: Option<Text>) -> int {
    match t {
        Some(t) => t.height as int,
        None => 0,
    }
}

/// The final content width, given what the children covered.
pub open spec fn final_width(
    r: &Rectangle,
    t: Option<Text>,
    c: ParentState,
    g: State,
    kids: Flow,
) -> int {
    let natural = max(kids.width as int, text_width(t));
    if r.style.display == Display::Block {
        measure_width(r, c, g)
    } else if r.style.display == Display::InlineBlock {
        let auto = sat(natural + sizing_w(r));
        sat(r.style.width_px(context_for(g, c, c.width, auto as i64)) - sizing_w(r))
    } else {
        natural
    }
}

/// The final content height, given what the children covered.
pub open spec fn final_height(
    r: &Rectangle,
    t: Option<Text>,
    c: ParentState,
    g: State,
    kids: Flow,
) -> int {
    let natural = max(kids.height as int, text_height(t));
    if r.style.display == Display::Inline {
        natural
    } else {
        let auto = sat(natural + sizing_h(r));
        sat(r.style.height_px(context_for(g, c, c.height, auto as i64)) - sizing_h(r))
    }
}

/// Where the margin box of an in-flow box starts, and the height of the line
/// it joins: blocks start at the cursor's height; an inline box moves to a
/// new line when it would cross the container's right edge and is narrower
/// than the container.
pub open spec fn flow_start(r: &Rectangle, c: ParentState, f: Flow, outer_w: int) -> (int, int, int) {
    if !in_flow(r.style.position) {
        (0, 0, f.line as int)
    } else if r.style.display == Display::Block {
        (0, f.y as int, 0)
    } else {
        let wide = sat(outer_w + margins_w(r));
        if sat(f.x + wide) > c.width && wide < c.width {
            (0, sat(f.y + f.line), 0)
        } else {
            (f.x as int, f.y as int, f.line as int)
        }
    }
}

/// The margins once `Auto` margins take the space left in the container:
/// split evenly when both sides of an axis are `Auto`, all of it when one is.
pub open spec fn auto_margins(
    r: &Rectangle,
    c: ParentState,
    x0: int,
    y0: int,
    outer_w: int,
    outer_h: int,
) -> [i64; 4] {
    let s = r.style;
    let room_w = sat(sat(c.width - x0) - sat(outer_w + margins_w(r)));
    let room_h = sat(sat(c.height - y0) - sat(outer_h + margins_h(r)));
    let (left, right) = if s.margin[3] is Auto && s.margin[1] is Auto {
        (quot(room_w, 2), quot(room_w, 2))
    } else if s.margin[3] is Auto {
        (room_w, r.margin[1] as int)
    } else if s.margin[1] is Auto {
        (r.margin[3] as int, room_w)
    } else {
        (r.margin[3] as int, r.margin[1] as int)
    };
    let (top, bottom) = if s.margin[0] is Auto && s.margin[2] is Auto {
        (quot(room_h, 2), quot(room_h, 2))
    } else if s.margin[0] is Auto {
        (room_h, r.margin[2] as int)
    } else if s.margin[2] is Auto {
        (r.margin[0] as int, room_h)
    } else {
        (r.margin[0] as int, r.margin[2] as int)
    };
    [top as i64, right as i64, bottom as i64, left as i64]
}

/// An offset (`top`, `left`, ...) resolved against a container dimension.
pub open spec fn offset_in(u: Units, g: State, c: ParentState, reference: i64) -> int {
    u.px(context_for(g, c, reference, 0))
}

/// The border-box corner of a box in its container. An absolutely
/// positioned box keeps its static position, the flow cursor; the offset
/// pass places it against its positioned ancestor.
pub open spec fn corner(
    r: &Rectangle,
    c: ParentState,
    g: State,
    f: Flow,
    x0: int,
    y0: int,
    m: [i64; 4],
) -> (int, int) {
    let s = r.style;
    if s.position == Position::Absolute || s.position == Position::Fixed {
        (f.x as int, f.y as int)
    } else if s.position == Position::Relative {
        (
            sat(sat(x0 + m[3]) + offset_in(s.left, g, c, c.width)),
            sat(sat(y0 + m[0]) + offset_in(s.top, g, c, c.height)),
        )
    } else {
        (sat(x0 + m[3]), sat(y0 + m[0]))
    }
}

/// The flow after an in-flow box with margins `m` is placed at `(x0, y0)`.
pub open spec fn advance(
    r: &Rectangle,
    f: Flow,
    x0: int,
    y0: int,
    line0: int,
    m: [i64; 4],
    outer_w: int,
    outer_h: int,
) -> Flow {
    let box_w = sat(sat(m[3] + outer_w) + m[1]);
    let box_h = sat(sat(m[0] + outer_h) + m[2]);
    if !in_flow(r.style.position) {
        f
    } else if r.style.display == Display::Block {
        let y = sat(y0 + box_h);
        Flow {
            x: 0,
            y: y as i64,
            line: 0,
            width: max(f.width as int, box_w) as i64,
            height: max(f.height as int, y) as i64,
        }
    } else {
        let x = sat(x0 + box_w);
        let line = max(line0, box_h);
        Flow {
            x: x as i64,
            y: y0 as i64,
            line: line as i64,
            width: max(f.width as int, x) as i64,
            height: max(f.height as int, sat(y0 + line)) as i64,
        }
    }
}

/// A box resolved as `r`, whose children covered `kids`, sized and placed at
/// flow state `f` of container `c`; and the flow after it.
#[verifier::opaque]
pub open spec fn arrange(
    r: Rectangle,
    t: Option<Text>,
    c: ParentState,
    g: State,
    f: Flow,
    kids: Flow,
) -> (Rectangle, Flow) {
    let w = final_width(&r, t, c, g, kids);
    let h = final_height(&r, t, c, g, kids);
    let ow = sat(w + spacing_h(&r));
    let oh = sat(h + spacing_v(&r));
    let (x0, y0, line0) = flow_start(&r, c, f, ow);
    let m = auto_margins(&r, c, x0, y0, ow, oh);
    let (x, y) = corner(&r, c, g, f, x0, y0, m);
    (
        Rectangle { x: x as i64, y: y as i64, width: w as i64, height: h as i64, margin: m, ..r },
        advance(&r, f, x0, y0, line0, m, ow, oh),
    )
}

impl Rectangle {
    /// Resolves margins, padding, border, radius, outline and font metrics
    /// of this box for container `c`.
    pub fn resolve_static_in(&mut self, c: &ParentState, g: &State)
        ensures
            *final(self) == resolve_static(*old(self), *c, *g),
    {
        let ctx = make_context(g, c, c.width, 0);
        let fs = self.style.font_size.to_px(&make_context(g, c, c.font_size, 0));
        let lh = self.style.line_height.to_px(&make_context(g, c, fs, 0));
        self.outline.width = self.style.outline_width.to_px(&ctx);
        self.outline.offset = self.style.outline_offset.to_px(&ctx);
        self.padding = [
            self.style.padding[0].to_px(&ctx),
            self.style.padding[1].to_px(&ctx),
            self.style.padding[2].to_px(&ctx),
            self.style.padding[3].to_px(&ctx),
        ];
        self.border.size = [
            self.style.border_size[0].to_px(&ctx),
            self.style.border_size[1].to_px(&ctx),
            self.style.border_size[2].to_px(&ctx),
            self.style.border_size[3].to_px(&ctx),
        ];
        self.border.radius = [
            self.style.border_radius[0].to_px(&ctx),
            self.style.border_radius[1].to_px(&ctx),
            self.style.border_radius[2].to_px(&ctx),
            self.style.border_radius[3].to_px(&ctx),
        ];
        self.margin = [
            self.style.margin[0].to_px(&ctx),
            self.style.margin[1].to_px(&ctx),
            self.style.margin[2].to_px(&ctx),
            self.style.margin[3].to_px(&ctx),
        ];
        self.font_size = fs;
        self.line_height = lh;
    }

    fn sizing_w(&self) -> (r: i64)
        ensures
            r == sizing_w(self),
    {
        if self.style.box_sizing == BoxSizing::BorderBox {
            self.spacing_h()
        } else {
            0
        }
    }

    fn sizing_h(&self) -> (r: i64)
        ensures
            r == sizing_h(self),
    {
        if self.style.box_sizing == BoxSizing::BorderBox {
            self.spacing_v()
        } else {
            0
        }
    }

    fn inner_state(&self, c: &ParentState, g: &State) -> (r: ParentState)
        ensures
            r == inner_state(self, *c, *g),
    {
        let width = if self.style.display == Display::Inline {
            c.width
        } else {
            px_sub(self.style.width(&make_context(g, c, c.width, c.width)), self.sizing_w())
        };
        let height = px_sub(self.style.height(&make_context(g, c, c.height, 0)), self.sizing_h());
        ParentState { x: 0, y: 0, width, height, font_size: self.font_size }
    }

    fn final_size(&self, t: &Option<Text>, c: &ParentState, g: &State, kids: Flow) -> (r: (
        i64,
        i64,
    ))
        ensures
            r.0 == final_width(self, *t, *c, *g, kids),
            r.1 == final_height(self, *t, *c, *g, kids),
    {
        let (text_w, text_h): (i64, i64) = match t {
            Some(t) => (t.width, t.height),
            None => (0, 0),
        };
        let natural_w = px_max(kids.width, text_w);
        let natural_h = px_max(kids.height, text_h);
        let width = if self.style.display == Display::Block {
            self.inner_state(c, g).width
        } else if self.style.display == Display::InlineBlock {
            let auto = px_add(natural_w, self.sizing_w());
            px_sub(self.style.width(&make_context(g, c, c.width, auto)), self.sizing_w())
        } else {
            natural_w
        };
        let height = if self.style.display == Display::Inline {
            natural_h
        } else {
            let auto = px_add(natural_h, self.sizing_h());
            px_sub(self.style.height(&make_context(g, c, c.height, auto)), self.sizing_h())
        };
        (width, height)
    }

    fn flow_start(&self, c: &ParentState, f: Flow, outer_w: i64) -> (r: (i64, i64, i64))
        ensures
            (r.0 as int, r.1 as int, r.2 as int) == flow_start(self, *c, f, outer_w as int),
    {
        let p = self.style.position;
        if !(p == Position::Static || p == Position::Relative || p == Position::Sticky) {
            (0, 0, f.line)
        } else if self.style.display == Display::Block {
            (0, f.y, 0)
        } else {
            let wide = px_add(outer_w, px_add(self.margin[1], self.margin[3]));
            if px_add(f.x, wide) > c.width && wide < c.width {
                (0, px_add(f.y, f.line), 0)
            } else {
                (f.x, f.y, f.line)
            }
        }
    }

    fn auto_margins(&self, c: &ParentState, x0: i64, y0: i64, outer_w: i64, outer_h: i64) -> (r: [i64; 4])
        ensures
            r == auto_margins(self, *c, x0 as int, y0 as int, outer_w as int, outer_h as int),
    {
        let s = &self.style;
        let room_w = px_sub(
            px_sub(c.width, x0),
            px_add(outer_w, px_add(self.margin[1], self.margin[3])),
        );
        let room_h = px_sub(
            px_sub(c.height, y0),
            px_add(outer_h, px_add(self.margin[0], self.margin[2])),
        );
        let (left, right) = if s.margin[3].is_auto() && s.margin[1].is_auto() {
            (px_div(room_w, 2), px_div(room_w, 2))
        } else if s.margin[3].is_auto() {
            (room_w, self.margin[1])
        } else if s.margin[1].is_auto() {
            (self.margin[3], room_w)
        } else {
            (self.margin[3], self.margin[1])
        };
        let (top, bottom) = if s.margin[0].is_auto() && s.margin[2].is_auto() {
            (px_div(room_h, 2), px_div(room_h, 2))
        } else if s.margin[0].is_auto() {
            (room_h, self.margin[2])
        } else if s.margin[2].is_auto() {
            (self.margin[0], room_h)
        } else {
            (self.margin[0], self.margin[2])
        };
        [top, right, bottom, left]
    }

    fn corner(&self, c: &ParentState, g: &State, f: Flow, x0: i64, y0: i64, m: [i64; 4]) -> (r: (
        i64,
        i64,
    ))
        ensures
            (r.0 as int, r.1 as int) == corner(self, *c, *g, f, x0 as int, y0 as int, m),
    {
        let s = &self.style;
        if s.position == Position::Absolute || s.position == Position::Fixed {
            (f.x, f.y)
        } else if s.position == Position::Relative {
            (
                px_add(px_add(x0, m[3]), s.left.to_px(&make_context(g, c, c.width, 0))),
                px_add(px_add(y0, m[0]), s.top.to_px(&make_context(g, c, c.height, 0))),
            )
        } else {
            (px_add(x0, m[3]), px_add(y0, m[0]))
        }
    }

    fn advance(
        &self,
        f: Flow,
        x0: i64,
        y0: i64,
        line0: i64,
        m: [i64; 4],
        outer_w: i64,
        outer_h: i64,
    ) -> (r: Flow)
        ensures
            r == advance(
                self,
                f,
                x0 as int,
                y0 as int,
                line0 as int,
                m,
                outer_w as int,
                outer_h as int,
            ),
    {
        let box_w = px_add(px_add(m[3], outer_w), m[1]);
        let box_h = px_add(px_add(m[0], outer_h), m[2]);
        let p = self.style.position;
        if !(p == Position::Static || p == Position::Relative || p == Position::Sticky) {
            f
        } else if self.style.display == Display::Block {
            let y = px_add(y0, box_h);
            Flow { x: 0, y, line: 0, width: px_max(f.width, box_w), height: px_max(f.height, y) }
        } else {
            let x = px_add(x0, box_w);
            let line = px_max(line0, box_h);
            Flow {
                x,
                y: y0,
                line,
                width: px_max(f.width, x),
                height: px_max(f.height, px_add(y0, line)),
            }
        }
    }

    /// Sizes and places this box, already resolved for container `c`, at
    /// flow state `f`, given what its children covered; returns the flow
    /// after it.
    pub fn arrange(&mut self, t: &Option<Text>, c: &ParentState, g: &State, f: Flow, kids: Flow) -> (r: Flow)
        ensures
            (*final(self), r) == arrange(*old(self), *t, *c, *g, f, kids),
    {
        reveal(arrange);
        let (w, h) = self.final_size(t, c, g, kids);
        let ow = px_add(w, self.spacing_h());
        let oh = px_add(h, self.spacing_v());
        let (x0, y0, line0) = self.flow_start(c, f, ow);
        let m = self.auto_margins(c, x0, y0, ow, oh);
        let (x, y) = self.corner(c, g, f, x0, y0, m);
        let next = self.advance(f, x0, y0, line0, m, ow, oh);
        self.x = x;
        self.y = y;
        self.width = w;
        self.height = h;
        self.margin = m;
        next
    }
}

/// The flow of container `c` after node `b` is laid out in it at flow `f`.
/// A `Contents` box hands its children, unchanged, to the flow in its place,
/// so they are laid out exactly as direct children of `c`; boxes that
/// are removed or whose display is not run leave the flow as it is.
pub open spec fn node_flow(b: Node, c: ParentState, g: State, f: Flow) -> Flow
    decreases b, 0int,
{
    let d = b.data.style.display;
    if d == Display::Contents {
        flow_seq(b.children@, b.children@.len() as int, c, g, f)
    } else if is_participant(d) {
        let r = resolve_static(b.data, c, g);
        let kids = flow_seq(
            b.children@,
            b.children@.len() as int,
            inner_state(&r, c, g),
            g,
            Flow::start_spec(),
        );
        arrange(r, b.text, c, g, f, kids).1
    } else {
        f
    }
}

/// The flow of container `c` after the first `n` nodes of `s`, starting at `f`.
pub open spec fn flow_seq(s: Seq<Node>, n: int, c: ParentState, g: State, f: Flow) -> Flow
    decreases s, n,
{
    if n <= 0 || n > s.len() {
        f
    } else {
        node_flow(s[n - 1], c, g, flow_seq(s, n - 1, c, g, f))
    }
}

/// `a` is `b` laid out in container `c` at flow `f`, with coordinates
/// relative to the container's content box.
#[verifier::opaque]
pub open spec fn laid_out(b: Node, a: Node, c: ParentState, g: State, f: Flow) -> bool
    decreases b,
{
    let d = b.data.style.display;
    if d == Display::Contents {
        &&& a.text == b.text
        &&& a.data == b.data
        &&& seq_laid_out(b.children@, a.children@, c, g, f)
    } else if is_participant(d) {
        let r = resolve_static(b.data, c, g);
        let inner = inner_state(&r, c, g);
        let kids = flow_seq(b.children@, b.children@.len() as int, inner, g, Flow::start_spec());
        &&& a.text == b.text
        &&& a.data == arrange(r, b.text, c, g, f, kids).0
        &&& seq_laid_out(b.children@, a.children@, inner, g, Flow::start_spec())
    } else {
        a == b
    }
}

/// `a` is the sequence `b` laid out one after another in container `c`,
/// from flow `f`.
pub open spec fn seq_laid_out(b: Seq<Node>, a: Seq<Node>, c: ParentState, g: State, f: Flow) -> bool
    decreases b,
{
    &&& a.len() == b.len()
    &&& forall|i: int|
        0 <= i < b.len() ==> laid_out(#[trigger] b[i], a[i], c, g, flow_seq(b, i, c, g, f))
}

impl Node {
    /// Resolves this node's margins, padding, border, radius, outline and
    /// font metrics for container `parent_state`.
    pub fn compute_static_properties(&mut self, parent_state: &ParentState, state: &State)
        ensures
            final(self).data == resolve_static(old(self).data, *parent_state, *state),
            final(self).children == old(self).children,
            final(self).text == old(self).text,
    {
        self.data.resolve_static_in(parent_state, state);
    }

    /// Lays this node out in container `parent_state` at flow `cursor`, with
    /// its subtree, and returns the flow after it. Coordinates are relative
    /// to the content box of the container.
    pub fn compute_layout(&mut self, parent_state: &ParentState, state: &State, cursor: Flow) -> (r: Flow)
        ensures
            laid_out(*old(self), *final(self), *parent_state, *state, cursor),
            r == node_flow(*old(self), *parent_state, *state, cursor),
        decreases *old(self), 1int,
    {
        reveal(laid_out);
        let d = self.data.style.display;
        if d == Display::Contents {
            layout_children(&mut self.children, parent_state, state, cursor)
        } else if d == Display::Block || d == Display::Inline || d == Display::InlineBlock {
            self.compute_static_properties(parent_state, state);
            let inner = self.data.inner_state(parent_state, state);
            let kids = layout_children(&mut self.children, &inner, state, Flow::start());
            self.data.arrange(&self.text, parent_state, state, cursor, kids)
        } else {
            cursor
        }
    }
}

/// Lays out `children` one after another in container `c` from flow `f`,
/// and returns the flow after the last.
pub fn layout_children(children: &mut Vec<Node>, c: &ParentState, g: &State, f: Flow) -> (r: Flow)
    ensures
        seq_laid_out(old(children)@, final(children)@, *c, *g, f),
        r == flow_seq(old(children)@, old(children)@.len() as int, *c, *g, f),
    decreases *old(children), 0int,
{
    let ghost orig = children@;
    let n = children.len();
    let mut cur = f;
    let mut i: usize = 0;
    while i < n
        invariant
            n == orig.len(),
            children@.len() == n,
            i <= n,
            orig == old(children)@,
            forall|j: int| i <= j < n ==> children@[j] == orig[j],
            forall|j: int|
                0 <= j < i ==> laid_out(#[trigger] orig[j], children@[j], *c, *g, flow_seq(orig, j, *c, *g, f)),
            cur == flow_seq(orig, i as int, *c, *g, f),
        decreases n - i,
    {
        proof {
            assert(decreases_to!(*old(children) => orig[i as int]));
        }
        let ghost before = children@;
        let ghost at = cur;
        cur = children[i].compute_layout(c, g, cur);
        proof {
            assert(laid_out(orig[i as int], children@[i as int], *c, *g, at));
            assert forall|j: int| 0 <= j < i + 1 implies laid_out(
                #[trigger] orig[j],
                children@[j],
                *c,
                *g,
                flow_seq(orig, j, *c, *g, f),
            ) by {
                if j < i {
                    assert(children@[j] == before[j]);
                }
            }
        }
        i += 1;
    }
    assert(children@.len() == orig.len());
    assert(forall|j: int|
        0 <= j < orig.len() ==> laid_out(#[trigger] orig[j], children@[j], *c, *g, flow_seq(orig, j, *c, *g, f)));
    assert(seq_laid_out(orig, children@, *c, *g, f)) by {
        reveal(laid_out);
    }
    cur
}

/// The corner of the content box of a box placed as `r`.
pub open spec fn content_origin(r: &Rectangle) -> (i64, i64) {
    (
        sat(sat(r.x + r.border.size[3]) + r.padding[3]) as i64,
        sat(sat(r.y + r.border.size[0]) + r.padding[0]) as i64,
    )
}

/// Whether a position mode makes a box the containing block of its
/// absolutely positioned descendants.
pub open spec fn is_positioned(p: Position) -> bool {
    p != Position::Static
}

/// The content box of a box placed as `r`, as a container.
pub open spec fn box_state(r: &Rectangle) -> ParentState {
    ParentState {
        x: content_origin(r).0,
        y: content_origin(r).1,
        width: r.width,
        height: r.height,
        font_size: r.font_size,
    }
}

/// The corner of an absolutely positioned box placed as `r` whose container
/// is `c` and whose nearest positioned ancestor has content box `pa`: its
/// `left` from the ancestor's left edge, or else its `right` from the
/// ancestor's right edge, or else its static position; `top` and `bottom`
/// the same way.
pub open spec fn anchored_corner(r: &Rectangle, c: ParentState, pa: ParentState, g: State) -> (int, int) {
    let s = r.style;
    let ow = sat(r.width + spacing_h(r));
    let oh = sat(r.height + spacing_v(r));
    let x = if !(s.left is Auto) {
        sat(pa.x + offset_in(s.left, g, c, pa.width))
    } else if !(s.right is Auto) {
        sat(sat(sat(pa.x + pa.width) - ow) - offset_in(s.right, g, c, pa.width))
    } else {
        sat(r.x + c.x)
    };
    let y = if !(s.top is Auto) {
        sat(pa.y + offset_in(s.top, g, c, pa.height))
    } else if !(s.bottom is Auto) {
        sat(sat(sat(pa.y + pa.height) - oh) - offset_in(s.bottom, g, c, pa.height))
    } else {
        sat(r.y + c.y)
    };
    (x, y)
}

/// `b` placed as `r` after the offset pass, in container `c` (whose `x` and
/// `y` are now absolute) under positioned ancestor `pa`.
pub open spec fn moved(r: Rectangle, c: ParentState, pa: ParentState, g: State) -> Rectangle {
    let (x, y) = if r.style.position == Position::Absolute || r.style.position == Position::Fixed {
        anchored_corner(&r, c, pa, g)
    } else {
        (sat(r.x + c.x), sat(r.y + c.y))
    };
    Rectangle { x: x as i64, y: y as i64, ..r }
}

/// `a` is `b` with coordinates relative to the content box of container `c`
/// turned into absolute ones, given that `c`'s own corner is absolute and
/// that `pa` is the content box of the nearest positioned ancestor:
/// in-flow boxes move by the container's corner, absolutely positioned
/// ones are placed against `pa`, and each box's children follow its own
/// content box. A `Contents` box passes its container on to its children;
/// removed boxes and boxes whose display is not run stay as they are.
#[verifier::opaque]
pub open spec fn shifted(b: Node, a: Node, c: ParentState, pa: ParentState, g: State) -> bool
    decreases b,
{
    let d = b.data.style.display;
    if d == Display::Contents {
        &&& a.text == b.text
        &&& a.data == b.data
        &&& seq_shifted(b.children@, a.children@, c, pa, g)
    } else if is_participant(d) {
        let r = moved(b.data, c, pa, g);
        let inner = box_state(&r);
        let pa2 = if is_positioned(r.style.position) {
            inner
        } else {
            pa
        };
        &&& a.text == b.text
        &&& a.data == r
        &&& seq_shifted(b.children@, a.children@, inner, pa2, g)
    } else {
        a == b
    }
}

/// Each node of `a` is the node of `b` at its index after the offset pass.
pub open spec fn seq_shifted(b: Seq<Node>, a: Seq<Node>, c: ParentState, pa: ParentState, g: State) -> bool
    decreases b,
{
    &&& a.len() == b.len()
    &&& forall|i: int| 0 <= i < b.len() ==> shifted(#[trigger] b[i], a[i], c, pa, g)
}

impl Rectangle {
    pub(crate) fn content_origin(&self) -> (r: (i64, i64))
        ensures
            r == content_origin(self),
    {
        (
            px_add(px_add(self.x, self.border.size[3]), self.padding[3]),
            px_add(px_add(self.y, self.border.size[0]), self.padding[0]),
        )
    }
}

impl Rectangle {
    fn box_state(&self) -> (r: ParentState)
        ensures
            r == box_state(self),
    {
        let (x, y) = self.content_origin();
        ParentState { x, y, width: self.width, height: self.height, font_size: self.font_size }
    }

    fn move_into(&mut self, c: &ParentState, pa: &ParentState, g: &State)
        ensures
            *final(self) == moved(*old(self), *c, *pa, *g),
    {
        let s = &self.style;
        if s.position == Position::Absolute || s.position == Position::Fixed {
            let ow = px_add(self.width, self.spacing_h());
            let oh = px_add(self.height, self.spacing_v());
            let x = if !s.left.is_auto() {
                px_add(pa.x, s.left.to_px(&make_context(g, c, pa.width, 0)))
            } else if !s.right.is_auto() {
                px_sub(
                    px_sub(px_add(pa.x, pa.width), ow),
                    s.right.to_px(&make_context(g, c, pa.width, 0)),
                )
            } else {
                px_add(self.x, c.x)
            };
            let y = if !s.top.is_auto() {
                px_add(pa.y, s.top.to_px(&make_context(g, c, pa.height, 0)))
            } else if !s.bottom.is_auto() {
                px_sub(
                    px_sub(px_add(pa.y, pa.height), oh),
                    s.bottom.to_px(&make_context(g, c, pa.height, 0)),
                )
            } else {
                px_add(self.y, c.y)
            };
            self.x = x;
            self.y = y;
        } else {
            self.x = px_add(self.x, c.x);
            self.y = px_add(self.y, c.y);
        }
    }
}

impl Node {
    /// The offset pass: turns this subtree's coordinates, relative to the
    /// content box of container `c`, into absolute ones, given `c`'s
    /// absolute corner and the content box `pa` of the nearest positioned
    /// ancestor.
    pub fn offset(&mut self, c: &ParentState, pa: &ParentState, state: &State)
        ensures
            shifted(*old(self), *final(self), *c, *pa, *state),
        decreases *old(self), 1int,
    {
        reveal(shifted);
        let d = self.data.style.display;
        if d == Display::Contents {
            offset_all(&mut self.children, c, pa, state);
        } else if d == Display::Block || d == Display::Inline || d == Display::InlineBlock {
            self.data.move_into(c, pa, state);
            let inner = self.data.box_state();
            let p = self.data.style.position;
            let pa2 = if p != Position::Static {
                inner
            } else {
                *pa
            };
            offset_all(&mut self.children, &inner, &pa2, state);
        }
    }

    /// Runs the offset pass on the children of this node, already at its
    /// absolute position, under positioned ancestor `pa` (this node's own
    /// content box when it is positioned).
    pub fn offset_children(&mut self, pa: &ParentState, state: &State)
        ensures
            final(self).data == old(self).data,
            final(self).text == old(self).text,
            seq_shifted(
                old(self).children@,
                final(self).children@,
                box_state(&old(self).data),
                if is_positioned(old(self).data.style.position) {
                    box_state(&old(self).data)
                } else {
                    *pa
                },
                *state,
            ),
    {
        let inner = self.data.box_state();
        let p = self.data.style.position;
        let pa2 = if p != Position::Static {
            inner
        } else {
            *pa
        };
        offset_all(&mut self.children, &inner, &pa2, state);
    }
}

fn offset_all(children: &mut Vec<Node>, c: &ParentState, pa: &ParentState, g: &State)
    ensures
        seq_shifted(old(children)@, final(children)@, *c, *pa, *g),
    decreases *old(children), 2int,
{
    let ghost orig = children@;
    let n = children.len();
    let mut i: usize = 0;
    while i < n
        invariant
            n == orig.len(),
            children@.len() == n,
            i <= n,
            orig == old(children)@,
            forall|j: int| i <= j < n ==> children@[j] == orig[j],
            forall|j: int| 0 <= j < i ==> shifted(#[trigger] orig[j], children@[j], *c, *pa, *g),
        decreases n - i,
    {
        proof {
            assert(decreases_to!(*old(children) => orig[i as int]));
        }
        let ghost before = children@;
        children[i].offset(c, pa, g);
        proof {
            assert forall|j: int| 0 <= j < i + 1 implies shifted(#[trigger] orig[j], children@[j], *c, *pa, *g) by {
                if j < i {
                    assert(children@[j] == before[j]);
                }
            }
        }
        i += 1;
    }
    assert(seq_shifted(orig, children@, *c, *pa, *g)) by {
        reveal(shifted);
    }
}

/// A node as `Node::new` makes it: no children, no text, a new rectangle.
pub open spec fn is_fresh(n: Node) -> bool {
    &&& n.children@.len() == 0
    &&& n.data == Rectangle::new_spec()
    &&& n.text is None
}

impl Node {
    pub fn new() -> (r: Node)
        ensures
            is_fresh(r),
    {
        Node { data: Rectangle::new(), children: Vec::new(), text: None }
    }

    /// This node's box as a container: its corner, content size and font size.
    pub fn get_state(&self) -> (r: ParentState)
        ensures
            r == (ParentState {
                x: self.data.x,
                y: self.data.y,
                width: self.data.width,
                height: self.data.height,
                font_size: self.data.font_size,
            }),
    {
        ParentState {
            x: self.data.x,
            y: self.data.y,
            width: self.data.width,
            height: self.data.height,
            font_size: self.data.font_size,
        }
    }

    /// Appends the child that `f` makes from a new node.
    pub fn add_child<F: Fn(Node) -> Node>(self, f: F) -> (r: Node)
        requires
            forall|n: Node| f.requires((n,)),
        ensures
            r.data == self.data,
            r.text == self.text,
            r.children@.len() == self.children@.len() + 1,
            r.children@.drop_last() == self.children@,
            exists|seed: Node| is_fresh(seed) && f.ensures((seed,), r.children@.last()),
    {
        let mut node = self;
        let seed = Node::new();
        let ghost s = seed;
        let child = f(seed);
        node.children.push(child);
        assert(node.children@.drop_last() =~= self.children@);
        assert(is_fresh(s) && f.ensures((s,), node.children@.last()));
        node
    }
}

impl Node {
    /// Gives this node a run of text: `handle` names it for the caller, and
    /// its measured size starts at zero until `set_text_size` sets it.
    pub fn set_content(self, handle: u64) -> (r: Node)
        ensures
            r == (Node { text: Some(Text { handle, width: 0, height: 0 }), ..self }),
    {
        let mut node = self;
        node.text = Some(Text { handle, width: 0, height: 0 });
        node
    }

    /// Records the natural size that text shaping gave this node's text; a
    /// node without text is left as it is.
    pub fn set_text_size(&mut self, width: i64, height: i64)
        ensures
            final(self).children == old(self).children,
            final(self).data == old(self).data,
            final(self).text == match old(self).text {
                Some(t) => Some(Text { width, height, ..t }),
                None => None,
            },
    {
        match self.text {
            Some(t) => {
                self.text = Some(Text { width, height, ..t });
            },
            None => {},
        }
    }

    /// Sets the font family.
    pub fn set_font_family(self, font_family: FontFamily) -> (r: Node)
        ensures
            r == (Node { data: Rectangle { style: Style { font_family, ..self.data.style }, ..self.data }, ..self }),
    {
        let mut node = self;
        node.data.style.font_family = font_family;
        node
    }

    /// Sets the declared font size.
    pub fn set_font_size(self, font_size: Units) -> (r: Node)
        ensures
            r == (Node { data: Rectangle { style: Style { font_size, ..self.data.style }, ..self.data }, ..self }),
    {
        let mut node = self;
        node.data.style.font_size = font_size;
        node
    }

    /// Sets the declared line height.
    pub fn set_line_height(self, line_height: Units) -> (r: Node)
        ensures
            r == (Node { data: Rectangle { style: Style { line_height, ..self.data.style }, ..self.data }, ..self }),
    {
        let mut node = self;
        node.data.style.line_height = line_height;
        node
    }

    /// Sets the text color.
    pub fn set_font_color(self, font_color: Color) -> (r: Node)
        ensures
            r == (Node { data: Rectangle { style: Style { font_color, ..self.data.style }, ..self.data }, ..self }),
    {
        let mut node = self;
        node.data.style.font_color = font_color;
        node
    }

    /// Sets the `top`, `right`, `bottom` and `left` offsets.
    pub fn set_coordinates(self, top: Units, right: Units, bottom: Units, left: Units) -> (r: Node)
        ensures
            r == (Node { data: Rectangle { style: Style { top, right, bottom, left, ..self.data.style }, ..self.data }, ..self }),
    {
        let mut node = self;
        node.data.style.top = top;
        node.data.style.right = right;
        node.data.style.bottom = bottom;
        node.data.style.left = left;
        node
    }

    /// Sets the position mode.
    pub fn set_position(self, position: Position) -> (r: Node)
        ensures
            r == (Node { data: Rectangle { style: Style { position, ..self.data.style }, ..self.data }, ..self }),
    {
        let mut node = self;
        node.data.style.position = position;
        node
    }

    /// Sets the display mode.
    pub fn set_display(self, display: Display) -> (r: Node)
        ensures
            r == (Node { data: Rectangle { style: Style { display, ..self.data.style }, ..self.data }, ..self }),
    {
        let mut node = self;
        node.data.style.display = display;
        node
    }

    /// Sets the declared width and height.
    pub fn set_size(self, width: Units, height: Units) -> (r: Node)
        ensures
            r == (Node { data: Rectangle { style: Style { width, height, ..self.data.style }, ..self.data }, ..self }),
    {
        let mut node = self;
        node.data.style.width = width;
        node.data.style.height = height;
        node
    }

    /// Sets the maximum width and height.
    pub fn set_max_size(self, max_width: Units, max_height: Units) -> (r: Node)
        ensures
            r == (Node { data: Rectangle { style: Style { max_width, max_height, ..self.data.style }, ..self.data }, ..self }),
    {
        let mut node = self;
        node.data.style.max_width = max_width;
        node.data.style.max_height = max_height;
        node
    }

    /// Sets the minimum width and height.
    pub fn set_min_size(self, min_width: Units, min_height: Units) -> (r: Node)
        ensures
            r == (Node { data: Rectangle { style: Style { min_width, min_height, ..self.data.style }, ..self.data }, ..self }),
    {
        let mut node = self;
        node.data.style.min_width = min_width;
        node.data.style.min_height = min_height;
        node
    }

    /// Sets what the declared width and height measure.
    pub fn set_box_sizing(self, box_sizing: BoxSizing) -> (r: Node)
        ensures
            r == (Node { data: Rectangle { style: Style { box_sizing, ..self.data.style }, ..self.data }, ..self }),
    {
        let mut node = self;
        node.data.style.box_sizing = box_sizing;
        node
    }

    /// Sets the padding, top, right, bottom, left.
    pub fn set_padding(self, top: Units, right: Units, bottom: Units, left: Units) -> (r: Node)
        ensures
            r == (Node { data: Rectangle { style: Style { padding: [top, right, bottom, left], ..self.data.style }, ..self.data }, ..self }),
    {
        let mut node = self;
        node.data.style.padding = [top, right, bottom, left];
        node
    }

    /// Sets the margins, top, right, bottom, left.
    pub fn set_margin(self, top: Units, right: Units, bottom: Units, left: Units) -> (r: Node)
        ensures
            r == (Node { data: Rectangle { style: Style { margin: [top, right, bottom, left], ..self.data.style }, ..self.data }, ..self }),
    {
        let mut node = self;
        node.data.style.margin = [top, right, bottom, left];
        node
    }

    /// Sets the border widths, top, right, bottom, left.
    pub fn set_border_size(self, top: Units, right: Units, bottom: Units, left: Units) -> (r: Node)
        ensures
            r == (Node { data: Rectangle { style: Style { border_size: [top, right, bottom, left], ..self.data.style }, ..self.data }, ..self }),
    {
        let mut node = self;
        node.data.style.border_size = [top, right, bottom, left];
        node
    }

    /// Sets the corner radii, clockwise from the top-left corner.
    pub fn set_border_radius(self, top_left: Units, top_right: Units, bottom_right: Units, bottom_left: Units) -> (r: Node)
        ensures
            r == (Node { data: Rectangle { style: Style { border_radius: [top_left, top_right, bottom_right, bottom_left], ..self.data.style }, ..self.data }, ..self }),
    {
        let mut node = self;
        node.data.style.border_radius = [top_left, top_right, bottom_right, bottom_left];
        node
    }

    /// Sets the outline width.
    pub fn set_outline_width(self, width: Units) -> (r: Node)
        ensures
            r == (Node { data: Rectangle { style: Style { outline_width: width, ..self.data.style }, ..self.data }, ..self }),
    {
        let mut node = self;
        node.data.style.outline_width = width;
        node
    }

    /// Sets the gap between border and outline.
    pub fn set_outline_offset(self, offset: Units) -> (r: Node)
        ensures
            r == (Node { data: Rectangle { style: Style { outline_offset: offset, ..self.data.style }, ..self.data }, ..self }),
    {
        let mut node = self;
        node.data.style.outline_offset = offset;
        node
    }

    /// Sets the background color.
    pub fn set_background_color(self, r: u8, g: u8, b: u8, a: u8) -> (node: Node)
        ensures
            node == (Node { data: Rectangle { background_color: Color { r, g, b, a }, ..self.data }, ..self }),
    {
        let mut node = self;
        node.data.background_color = Color { r, g, b, a };
        node
    }

    /// Sets the color of the top border.
    pub fn set_border_top_color(self, r: u8, g: u8, b: u8, a: u8) -> (node: Node)
        ensures
            node == (Node { data: Rectangle { border: Border { top_color: Color { r, g, b, a }, ..self.data.border }, ..self.data }, ..self }),
    {
        let mut node = self;
        node.data.border.top_color = Color { r, g, b, a };
        node
    }

    /// Sets the color of the bottom border.
    pub fn set_border_bottom_color(self, r: u8, g: u8, b: u8, a: u8) -> (node: Node)
        ensures
            node == (Node { data: Rectangle { border: Border { bottom_color: Color { r, g, b, a }, ..self.data.border }, ..self.data }, ..self }),
    {
        let mut node = self;
        node.data.border.bottom_color = Color { r, g, b, a };
        node
    }

    /// Sets the color of the left border.
    pub fn set_border_left_color(self, r: u8, g: u8, b: u8, a: u8) -> (node: Node)
        ensures
            node == (Node { data: Rectangle { border: Border { left_color: Color { r, g, b, a }, ..self.data.border }, ..self.data }, ..self }),
    {
        let mut node = self;
        node.data.border.left_color = Color { r, g, b, a };
        node
    }

    /// Sets the color of the right border.
    pub fn set_border_right_color(self, r: u8, g: u8, b: u8, a: u8) -> (node: Node)
        ensures
            node == (Node { data: Rectangle { border: Border { right_color: Color { r, g, b, a }, ..self.data.border }, ..self.data }, ..self }),
    {
        let mut node = self;
        node.data.border.right_color = Color { r, g, b, a };
        node
    }

    /// Sets the color of all four borders.
    pub fn set_border_color(self, r: u8, g: u8, b: u8, a: u8) -> (node: Node)
        ensures
            node == (Node { data: Rectangle { border: Border { top_color: Color { r, g, b, a }, right_color: Color { r, g, b, a }, bottom_color: Color { r, g, b, a }, left_color: Color { r, g, b, a }, ..self.data.border }, ..self.data }, ..self }),
    {
        let mut node = self;
        node.data.border.top_color = Color { r, g, b, a };
        node.data.border.right_color = Color { r, g, b, a };
        node.data.border.bottom_color = Color { r, g, b, a };
        node.data.border.left_color = Color { r, g, b, a };
        node
    }

    /// Sets the border style.
    pub fn set_border_style(self, style: BorderStyle) -> (r: Node)
        ensures
            r == (Node { data: Rectangle { border: Border { style, ..self.data.border }, ..self.data }, ..self }),
    {
        let mut node = self;
        node.data.border.style = style;
        node
    }

    /// Sets the outline color.
    pub fn set_outline_color(self, r: u8, g: u8, b: u8, a: u8) -> (node: Node)
        ensures
            node == (Node { data: Rectangle { outline: Outline { color: Color { r, g, b, a }, ..self.data.outline }, ..self.data }, ..self }),
    {
        let mut node = self;
        node.data.outline.color = Color { r, g, b, a };
        node
    }

    /// Sets the outline style.
    pub fn set_outline_style(self, style: OutlineStyle) -> (r: Node)
        ensures
            r == (Node { data: Rectangle { outline: Outline { style, ..self.data.outline }, ..self.data }, ..self }),
    {
        let mut node = self;
        node.data.outline.style = style;
        node
    }

    /// Sets the sepia filter, in percent.
    pub fn set_sepia(self, sepia: i64) -> (r: Node)
        ensures
            r == (Node { data: Rectangle { sepia, ..self.data }, ..self }),
    {
        let mut node = self;
        node.data.sepia = sepia;
        node
    }

    /// Sets the brightness filter, in percent.
    pub fn set_brightness(self, brightness: i64) -> (r: Node)
        ensures
            r == (Node { data: Rectangle { brightness, ..self.data }, ..self }),
    {
        let mut node = self;
        node.data.brightness = brightness;
        node
    }

    /// Sets the contrast filter, in percent.
    pub fn set_contrast(self, contrast: i64) -> (r: Node)
        ensures
            r == (Node { data: Rectangle { contrast, ..self.data }, ..self }),
    {
        let mut node = self;
        node.data.contrast = contrast;
        node
    }

    /// Sets the grayscale filter, in percent.
    pub fn set_grayscale(self, grayscale: i64) -> (r: Node)
        ensures
            r == (Node { data: Rectangle { grayscale, ..self.data }, ..self }),
    {
        let mut node = self;
        node.data.grayscale = grayscale;
        node
    }

    /// Sets the hue rotation, in degrees.
    pub fn set_hue_rotate(self, hue_rotate: i64) -> (r: Node)
        ensures
            r == (Node { data: Rectangle { hue_rotate, ..self.data }, ..self }),
    {
        let mut node = self;
        node.data.hue_rotate = hue_rotate;
        node
    }

    /// Sets the invert filter, in percent.
    pub fn set_invert(self, invert: i64) -> (r: Node)
        ensures
            r == (Node { data: Rectangle { invert, ..self.data }, ..self }),
    {
        let mut node = self;
        node.data.invert = invert;
        node
    }

    /// Sets the saturation filter, in percent.
    pub fn set_saturate(self, saturate: i64) -> (r: Node)
        ensures
            r == (Node { data: Rectangle { saturate, ..self.data }, ..self }),
    {
        let mut node = self;
        node.data.saturate = saturate;
        node
    }

    /// Sets the alpha of the background color.
    pub fn set_opacity(self, opacity: u8) -> (r: Node)
        ensures
            r == (Node { data: Rectangle { background_color: Color { a: opacity, ..self.data.background_color }, ..self.data }, ..self }),
    {
        let mut node = self;
        node.data.background_color = Color { a: opacity, ..node.data.background_color };
        node
    }

    /// Sets the scale along x and y, in percent.
    pub fn set_scale(self, x: i64, y: i64) -> (r: Node)
        ensures
            r == (Node { data: Rectangle { scale: [x, y], ..self.data }, ..self }),
    {
        let mut node = self;
        node.data.scale = [x, y];
        node
    }

    /// Sets the skew along x and y, in degrees.
    pub fn set_skew(self, x: i64, y: i64) -> (r: Node)
        ensures
            r == (Node { data: Rectangle { skew: [x, y], ..self.data }, ..self }),
    {
        let mut node = self;
        node.data.skew = [x, y];
        node
    }

    /// Sets the rotation, in degrees.
    pub fn set_rotate(self, rotation: i64) -> (r: Node)
        ensures
            r == (Node { data: Rectangle { rotate: rotation, ..self.data }, ..self }),
    {
        let mut node = self;
        node.data.rotate = rotation;
        node
    }

    /// Sets the translation, in pixels.
    pub fn set_translate(self, translate: [i64; 2]) -> (r: Node)
        ensures
            r == (Node { data: Rectangle { translate, ..self.data }, ..self }),
    {
        let mut node = self;
        node.data.translate = translate;
        node
    }
}

/// A box whose left and right margins are both `Auto` gets two equal
/// margins from layout: it is centered in the room its container leaves.
pub proof fn lemma_auto_margins_center(b: Node, a: Node, c: ParentState, g: State, f: Flow)
    requires
        laid_out(b, a, c, g, f),
        is_participant(b.data.style.display),
        b.data.style.margin[1] is Auto,
        b.data.style.margin[3] is Auto,
    ensures
        a.data.margin[1] == a.data.margin[3],
{
    reveal(laid_out);
    reveal(arrange);
}

/// An absolutely positioned or fixed box neither reads nor moves the flow:
/// the flow after it is the flow before it.
pub proof fn lemma_absolute_leaves_flow(b: Node, c: ParentState, g: State, f: Flow)
    requires
        is_participant(b.data.style.display),
        b.data.style.position == Position::Absolute || b.data.style.position == Position::Fixed,
    ensures
        node_flow(b, c, g, f) == f,
{
    reveal(arrange);
}

proof fn lemma_flow_seq_prefix(s: Seq<Node>, t: Seq<Node>, n: int, c: ParentState, g: State, f: Flow)
    requires
        0 <= n <= s.len(),
        n <= t.len(),
        forall|j: int| 0 <= j < n ==> s[j] == t[j],
    ensures
        flow_seq(s, n, c, g, f) == flow_seq(t, n, c, g, f),
    decreases n,
{
    if n > 0 {
        lemma_flow_seq_prefix(s, t, n - 1, c, g, f);
    }
}

/// Siblings do not see an absolutely positioned or fixed box: after it, at
/// every later sibling, the flow is what it would be without it.
pub proof fn lemma_absolute_invisible_to_siblings(s: Seq<Node>, i: int, n: int, c: ParentState, g: State, f: Flow)
    requires
        0 <= i < n <= s.len(),
        is_participant(s[i].data.style.display),
        s[i].data.style.position == Position::Absolute || s[i].data.style.position == Position::Fixed,
    ensures
        flow_seq(s, n, c, g, f) == flow_seq(s.remove(i), n - 1, c, g, f),
    decreases n,
{
    let t = s.remove(i);
    if n == i + 1 {
        lemma_flow_seq_prefix(s, t, i, c, g, f);
        lemma_absolute_leaves_flow(s[i], c, g, flow_seq(s, i, c, g, f));
    } else {
        lemma_absolute_invisible_to_siblings(s, i, n - 1, c, g, f);
        assert(s[n - 1] == t[n - 2]);
    }
}

/// With `left` and `top` declared, the offset pass puts an absolutely
/// positioned or fixed box at those offsets from the content box of its
/// positioned ancestor, whatever its static position in the flow.
pub proof fn lemma_absolute_anchored(r: Rectangle, c: ParentState, pa: ParentState, g: State)
    requires
        r.style.position == Position::Absolute || r.style.position == Position::Fixed,
        !(r.style.left is Auto),
        !(r.style.top is Auto),
    ensures
        moved(r, c, pa, g).x == sat(pa.x + offset_in(r.style.left, g, c, pa.width)),
        moved(r, c, pa, g).y == sat(pa.y + offset_in(r.style.top, g, c, pa.height)),
{
}

/// A `Contents` box is transparent to layout: the flow goes through its
/// children in its place, in the container it was given, and they are laid
/// out exactly as direct children of that container.
pub proof fn lemma_contents_transparent(b: Node, a: Node, c: ParentState, g: State, f: Flow)
    requires
        b.data.style.display == Display::Contents,
    ensures
        node_flow(b, c, g, f) == flow_seq(b.children@, b.children@.len() as int, c, g, f),
        laid_out(b, a, c, g, f) ==> seq_laid_out(b.children@, a.children@, c, g, f),
{
    reveal(laid_out);
}

} // verus!
