//! The paint traversal: one record per visible box, and one per run of text.
use vstd::prelude::*;
use crate::arith::{max, min, px_add, px_max, px_min, px_mul, px_sub, sat};
use crate::node::{content_origin, context_for, Node, ParentState, Text};
use crate::rectangle::{spacing_h, spacing_v, Color, Display, Position, Rectangle};
use crate::tree::State;

verus! {

/// What a renderer needs to draw one box. Positions and sizes are in
/// pixels, filters and `scale` in percent, angles in degrees; border colors
/// are premultiplied by their alpha.
#[derive(Clone, Copy, Debug)]
pub struct InstanceData {
    pub rect_pos: [i64; 2],
    pub rect_size: [i64; 2],
    pub outline_width: i64,
    pub outline_offset: i64,
    pub scale: [i64; 2],
    pub skew: [i64; 2],
    pub rotation: i64,
    pub invert: i64,
    pub brightness: i64,
    pub saturate: i64,
    pub contrast: i64,
    pub grayscale: i64,
    pub sepia: i64,
    pub hue_rotate: i64,
    pub rect_color: Color,
    pub outline_color: Color,
    pub border_radius: [i64; 4],
    pub border_size: [i64; 4],
    pub border_top_color: Color,
    pub border_right_color: Color,
    pub border_bottom_color: Color,
    pub border_left_color: Color,
}

/// Where to draw a run of text: the corner of its box's content box, its
/// measured size, the caller's handle for it and its color.
#[derive(Clone, Copy, Debug, PartialEq, Eq, Structural)]
pub struct TextData {
    pub x: i64,
    pub y: i64,
    pub width: i64,
    pub height: i64,
    pub handle: u64,
    pub color: Color,
}

/// The outline ring of `r`: outline width plus offset.
pub open spec fn ring_of(r: &Rectangle) -> int {
    sat(r.outline.width + r.outline.offset)
}

/// The painted size of `r`: the border box grown by the ring on every side.
pub open spec fn painted_size(r: &Rectangle) -> (int, int) {
    (
        sat(sat(r.width + spacing_h(r)) + sat(ring_of(r) * 2)),
        sat(sat(r.height + spacing_v(r)) + sat(ring_of(r) * 2)),
    )
}

/// The painted corner of `r`: its border-box corner less the ring, moved by
/// the translation. A fixed box then moves with the scroll offset; a sticky
/// box has this painted position held inside the scrolled viewport, less its
/// declared offsets, on each side that declares one.
pub open spec fn painted_corner(r: &Rectangle, p: ParentState, g: State) -> (int, int) {
    let s = r.style;
    let px = sat(sat(r.x - ring_of(r)) + r.translate[0]);
    let py = sat(sat(r.y - ring_of(r)) + r.translate[1]);
    let w = painted_size(r).0;
    let h = painted_size(r).1;
    if s.position == Position::Fixed {
        (sat(px + g.scroll.0), sat(py + g.scroll.1))
    } else if s.position == Position::Sticky {
        let left = s.left.px(context_for(g, p, p.width, 0));
        let right = s.right.px(context_for(g, p, p.width, 0));
        let top = s.top.px(context_for(g, p, p.height, 0));
        let bottom = s.bottom.px(context_for(g, p, p.height, 0));
        let x1 = if s.left is Auto {
            px
        } else {
            max(px, sat(g.scroll.0 + left))
        };
        let x2 = if s.right is Auto {
            x1
        } else {
            min(x1, sat(sat(sat(g.scroll.0 + g.viewport.0) - right) - w))
        };
        let y1 = if s.top is Auto {
            py
        } else {
            max(py, sat(g.scroll.1 + top))
        };
        let y2 = if s.bottom is Auto {
            y1
        } else {
            min(y1, sat(sat(sat(g.scroll.1 + g.viewport.1) - bottom) - h))
        };
        (x2, y2)
    } else {
        (px, py)
    }
}

/// The paint record of a box placed as `r`, whose container is `p`: its
/// painted corner and size, and its paint values.
pub open spec fn instance_of(r: &Rectangle, p: ParentState, g: State) -> InstanceData {
    InstanceData {
        rect_pos: [painted_corner(r, p, g).0 as i64, painted_corner(r, p, g).1 as i64],
        rect_size: [painted_size(r).0 as i64, painted_size(r).1 as i64],
        outline_width: r.outline.width,
        outline_offset: r.outline.offset,
        scale: r.scale,
        skew: r.skew,
        rotation: r.rotate,
        invert: r.invert,
        brightness: r.brightness,
        saturate: r.saturate,
        contrast: r.contrast,
        grayscale: r.grayscale,
        sepia: r.sepia,
        hue_rotate: r.hue_rotate,
        rect_color: r.background_color,
        outline_color: r.outline.color,
        border_radius: r.border.radius,
        border_size: r.border.size,
        border_top_color: r.border.top_color.premultiplied(),
        border_right_color: r.border.right_color.premultiplied(),
        border_bottom_color: r.border.bottom_color.premultiplied(),
        border_left_color: r.border.left_color.premultiplied(),
    }
}

/// The text record of a box placed as `r` that carries `t`.
pub open spec fn text_of(r: &Rectangle, t: Text) -> TextData {
    TextData {
        x: content_origin(r).0,
        y: content_origin(r).1,
        width: t.width,
        height: t.height,
        handle: t.handle,
        color: r.style.font_color,
    }
}

/// The container that the children of `b` are painted in.
pub open spec fn paint_state(b: &Node, p: ParentState) -> ParentState {
    if b.data.style.display == Display::Contents {
        p
    } else {
        ParentState {
            x: b.data.x,
            y: b.data.y,
            width: b.data.width,
            height: b.data.height,
            font_size: b.data.font_size,
        }
    }
}

/// The records of the subtree of `b`, depth first: nothing for a removed
/// box; for a `Contents` box only those of its children; for any other box
/// its own record, its text record if it carries text, then its children's.
pub open spec fn paint(b: Node, p: ParentState, g: State) -> (Seq<InstanceData>, Seq<TextData>)
    decreases b, 0int,
{
    if b.data.style.display == Display::Removed {
        (Seq::empty(), Seq::empty())
    } else {
        let kids = paint_seq(b.children@, b.children@.len() as int, paint_state(&b, p), g);
        if b.data.style.display == Display::Contents {
            kids
        } else {
            let own = seq![instance_of(&b.data, p, g)];
            let text = match b.text {
                Some(t) => seq![text_of(&b.data, t)],
                None => Seq::empty(),
            };
            (own + kids.0, text + kids.1)
        }
    }
}

/// The records of the first `n` nodes of `s`, one subtree after another.
pub open spec fn paint_seq(s: Seq<Node>, n: int, p: ParentState, g: State) -> (
    Seq<InstanceData>,
    Seq<TextData>,
)
    decreases s, n,
{
    if n <= 0 || n > s.len() {
        (Seq::empty(), Seq::empty())
    } else {
        let front = paint_seq(s, n - 1, p, g);
        let last = paint(s[n - 1], p, g);
        (front.0 + last.0, front.1 + last.1)
    }
}

impl Rectangle {
    fn painted_corner(&self, parent_state: &ParentState, state: &State) -> (r: (i64, i64))
        ensures
            (r.0 as int, r.1 as int) == painted_corner(self, *parent_state, *state),
    {
        let s = &self.style;
        let ring = px_add(self.outline.width, self.outline.offset);
        let px = px_add(px_sub(self.x, ring), self.translate[0]);
        let py = px_add(px_sub(self.y, ring), self.translate[1]);
        let (w, h) = self.painted_size();
        if s.position == Position::Fixed {
            (px_add(px, state.scroll.0), px_add(py, state.scroll.1))
        } else if s.position == Position::Sticky {
            let across = crate::units::Context {
                root_font_size: state.root_font_size,
                reference_size: parent_state.width,
                parent_font_size: parent_state.font_size,
                viewport: state.viewport,
                auto: 0,
                dpi: state.dpi,
            };
            let down = across.with_reference(parent_state.height);
            let x1 = if s.left.is_auto() {
                px
            } else {
                px_max(px, px_add(state.scroll.0, s.left.to_px(&across)))
            };
            let x2 = if s.right.is_auto() {
                x1
            } else {
                px_min(
                    x1,
                    px_sub(
                        px_sub(px_add(state.scroll.0, state.viewport.0), s.right.to_px(&across)),
                        w,
                    ),
                )
            };
            let y1 = if s.top.is_auto() {
                py
            } else {
                px_max(py, px_add(state.scroll.1, s.top.to_px(&down)))
            };
            let y2 = if s.bottom.is_auto() {
                y1
            } else {
                px_min(
                    y1,
                    px_sub(
                        px_sub(px_add(state.scroll.1, state.viewport.1), s.bottom.to_px(&down)),
                        h,
                    ),
                )
            };
            (x2, y2)
        } else {
            (px, py)
        }
    }

    fn painted_size(&self) -> (r: (i64, i64))
        ensures
            (r.0 as int, r.1 as int) == painted_size(self),
    {
        let ring2 = px_mul(px_add(self.outline.width, self.outline.offset), 2);
        (
            px_add(px_add(self.width, self.spacing_h()), ring2),
            px_add(px_add(self.height, self.spacing_v()), ring2),
        )
    }

    /// The paint record of this box in container `parent_state`.
    pub fn get_instance_data(&self, parent_state: &ParentState, state: &State) -> (r: InstanceData)
        ensures
            r == instance_of(self, *parent_state, *state),
    {
        let (x, y) = self.painted_corner(parent_state, state);
        let (w, h) = self.painted_size();
        InstanceData {
            rect_pos: [x, y],
            rect_size: [w, h],
            outline_width: self.outline.width,
            outline_offset: self.outline.offset,
            scale: self.scale,
            skew: self.skew,
            rotation: self.rotate,
            invert: self.invert,
            brightness: self.brightness,
            saturate: self.saturate,
            contrast: self.contrast,
            grayscale: self.grayscale,
            sepia: self.sepia,
            hue_rotate: self.hue_rotate,
            rect_color: self.background_color,
            outline_color: self.outline.color,
            border_radius: self.border.radius,
            border_size: self.border.size,
            border_top_color: self.border.top_color.premultiplied(),
            border_right_color: self.border.right_color.premultiplied(),
            border_bottom_color: self.border.bottom_color.premultiplied(),
            border_left_color: self.border.left_color.premultiplied(),
        }
    }
}

impl Node {
    /// Appends the records of this subtree to `instance_data` and `text_data`.
    pub fn collect_instances(
        &self,
        instance_data: &mut Vec<InstanceData>,
        text_data: &mut Vec<TextData>,
        parent_state: &ParentState,
        state: &State,
    )
        ensures
            final(instance_data)@ == old(instance_data)@ + paint(*self, *parent_state, *state).0,
            final(text_data)@ == old(text_data)@ + paint(*self, *parent_state, *state).1,
        decreases *self, 1int,
    {
        let d = self.data.style.display;
        if d == Display::Removed {
            assert(old(instance_data)@ + Seq::<InstanceData>::empty() =~= old(instance_data)@);
            assert(old(text_data)@ + Seq::<TextData>::empty() =~= old(text_data)@);
            return ;
        }
        let inner = if d == Display::Contents {
            *parent_state
        } else {
            instance_data.push(self.data.get_instance_data(parent_state, state));
            match &self.text {
                Some(t) => {
                    let (x, y) = self.data.content_origin();
                    text_data.push(
                        TextData {
                            x,
                            y,
                            width: t.width,
                            height: t.height,
                            handle: t.handle,
                            color: self.data.style.font_color,
                        },
                    );
                },
                None => {},
            }
            self.get_state()
        };
        let ghost mid_i = instance_data@;
        let ghost mid_t = text_data@;
        collect_all(&self.children, instance_data, text_data, &inner, state);
        proof {
            let kids = paint_seq(self.children@, self.children@.len() as int, inner, *state);
            if d == Display::Contents {
                assert(mid_i == old(instance_data)@);
                assert(mid_t == old(text_data)@);
            } else {
                let own = seq![instance_of(&self.data, *parent_state, *state)];
                assert(mid_i == old(instance_data)@ + own);
                assert(instance_data@ =~= old(instance_data)@ + (own + kids.0));
                match self.text {
                    Some(t) => {
                        assert(text_data@ =~= old(text_data)@ + (seq![text_of(&self.data, t)] + kids.1));
                    },
                    None => {
                        assert(mid_t == old(text_data)@);
                        assert(text_data@ =~= old(text_data)@ + (Seq::<TextData>::empty() + kids.1));
                    },
                }
            }
        }
    }
}

fn collect_all(
    children: &Vec<Node>,
    instance_data: &mut Vec<InstanceData>,
    text_data: &mut Vec<TextData>,
    parent_state: &ParentState,
    state: &State,
)
    ensures
        final(instance_data)@ == old(instance_data)@ + paint_seq(
            children@,
            children@.len() as int,
            *parent_state,
            *state,
        ).0,
        final(text_data)@ == old(text_data)@ + paint_seq(
            children@,
            children@.len() as int,
            *parent_state,
            *state,
        ).1,
    decreases *children, 0int,
{
    let n = children.len();
    let mut i: usize = 0;
    assert(old(instance_data)@ + Seq::<InstanceData>::empty() =~= old(instance_data)@);
    assert(old(text_data)@ + Seq::<TextData>::empty() =~= old(text_data)@);
    while i < n
        invariant
            n == children@.len(),
            i <= n,
            instance_data@ == old(instance_data)@ + paint_seq(children@, i as int, *parent_state, *state).0,
            text_data@ == old(text_data)@ + paint_seq(children@, i as int, *parent_state, *state).1,
        decreases n - i,
    {
        proof {
            assert(decreases_to!(*children => children@[i as int]));
        }
        let ghost before_i = instance_data@;
        let ghost before_t = text_data@;
        children[i].collect_instances(instance_data, text_data, parent_state, state);
        proof {
            let front = paint_seq(children@, i as int, *parent_state, *state);
            let last = paint(children@[i as int], *parent_state, *state);
            assert(instance_data@ =~= old(instance_data)@ + (front.0 + last.0));
            assert(text_data@ =~= old(text_data)@ + (front.1 + last.1));
        }
        i += 1;
    }
}

/// A removed box adds no record, neither its own nor any of its subtree's.
/// (The records of any box are its own followed by its children's, so see
/// `lemma_removed_child_unpainted` for a removed box among siblings.)
pub proof fn lemma_removed_subtree_unpainted(b: Node, p: ParentState, g: State)
    requires
        b.data.style.display == Display::Removed,
    ensures
        paint(b, p, g).0.len() == 0,
        paint(b, p, g).1.len() == 0,
{
}

proof fn lemma_paint_seq_prefix(s: Seq<Node>, t: Seq<Node>, n: int, p: ParentState, g: State)
    requires
        0 <= n <= s.len(),
        n <= t.len(),
        forall|j: int| 0 <= j < n ==> s[j] == t[j],
    ensures
        paint_seq(s, n, p, g) == paint_seq(t, n, p, g),
    decreases n,
{
    if n > 0 {
        lemma_paint_seq_prefix(s, t, n - 1, p, g);
    }
}

/// A removed box among siblings leaves the traversal as if it were not
/// there: the records of the first `n` siblings are those of the same
/// siblings without it. With `lemma_removed_subtree_unpainted` and the
/// records of a box being its own followed by its children's, no record at
/// any depth comes from a removed box or its subtree.
pub proof fn lemma_removed_child_unpainted(s: Seq<Node>, i: int, n: int, p: ParentState, g: State)
    requires
        0 <= i < n <= s.len(),
        s[i].data.style.display == Display::Removed,
    ensures
        paint_seq(s, n, p, g) == paint_seq(s.remove(i), n - 1, p, g),
    decreases n,
{
    let t = s.remove(i);
    if n == i + 1 {
        lemma_paint_seq_prefix(s, t, i, p, g);
        let front = paint_seq(s, i, p, g);
        let last = paint(s[i], p, g);
        assert(last.0 =~= Seq::<InstanceData>::empty());
        assert(last.1 =~= Seq::<TextData>::empty());
        assert(front.0 + last.0 =~= front.0);
        assert(front.1 + last.1 =~= front.1);
        assert(paint_seq(s, n, p, g) == (front.0 + last.0, front.1 + last.1));
    } else {
        lemma_removed_child_unpainted(s, i, n - 1, p, g);
        assert(s[n - 1] == t[n - 2]);
    }
}

/// A `Contents` box adds no record of its own: its records are exactly its
/// children's, in order, painted in its own container.
pub proof fn lemma_contents_unpainted(b: Node, p: ParentState, g: State)
    requires
        b.data.style.display == Display::Contents,
    ensures
        paint(b, p, g) == paint_seq(b.children@, b.children@.len() as int, p, g),
{
}

} // verus!
