//! Layout reads only what is declared, so laying a tree out again changes
//! nothing.
use vstd::prelude::*;
use crate::node::{
    arrange, box_state, flow_seq, inner_state, is_participant, is_positioned,
    laid_out, moved, node_flow, resolve_static, seq_laid_out, seq_shifted, shifted, Flow, Node,
    ParentState, final_width, final_height, flow_start, auto_margins, corner, advance,
};
use crate::arith::sat;
use crate::rectangle::{spacing_h, spacing_v};
use crate::rectangle::{Border, Display, Outline, Rectangle};
use crate::tree::{root_state, State, Tree};

verus! {

/// `r` without the values that layout computes.
pub open spec fn unplaced(r: Rectangle) -> Rectangle {
    Rectangle {
        x: 0,
        y: 0,
        width: 0,
        height: 0,
        margin: [0, 0, 0, 0],
        padding: [0, 0, 0, 0],
        border: Border { size: [0, 0, 0, 0], radius: [0, 0, 0, 0], ..r.border },
        outline: Outline { width: 0, offset: 0, ..r.outline },
        font_size: 0,
        line_height: 0,
        ..r
    }
}

/// `a` and `b` are the same input to layout: they differ at most in values
/// that layout computes for boxes it places.
pub open spec fn same_input(a: Node, b: Node) -> bool
    decreases a,
{
    let d = a.data.style.display;
    if is_participant(d) {
        &&& a.text == b.text
        &&& unplaced(a.data) == unplaced(b.data)
        &&& seq_same_input(a.children@, b.children@)
    } else if d == Display::Contents {
        &&& a.text == b.text
        &&& a.data == b.data
        &&& seq_same_input(a.children@, b.children@)
    } else {
        a == b
    }
}

pub open spec fn seq_same_input(a: Seq<Node>, b: Seq<Node>) -> bool
    decreases a,
{
    &&& a.len() == b.len()
    &&& forall|i: int| 0 <= i < a.len() ==> same_input(#[trigger] a[i], b[i])
}

/// `a` and `b` hold the same boxes, texts and geometry throughout.
pub open spec fn same_tree(a: Node, b: Node) -> bool
    decreases a,
{
    &&& a.data == b.data
    &&& a.text == b.text
    &&& seq_same_tree(a.children@, b.children@)
}

pub open spec fn seq_same_tree(a: Seq<Node>, b: Seq<Node>) -> bool
    decreases a,
{
    &&& a.len() == b.len()
    &&& forall|i: int| 0 <= i < a.len() ==> same_tree(#[trigger] a[i], b[i])
}

proof fn lemma_same_tree_refl(a: Node)
    ensures
        same_tree(a, a),
    decreases a, 1int,
{
    lemma_seq_same_tree_refl(a.children@);
}

proof fn lemma_seq_same_tree_refl(a: Seq<Node>)
    ensures
        seq_same_tree(a, a),
    decreases a, 0int,
{
    assert forall|i: int| 0 <= i < a.len() implies same_tree(#[trigger] a[i], a[i]) by {
        lemma_same_tree_refl(a[i]);
    }
}

proof fn lemma_same_input_trans(a: Node, b: Node, c: Node)
    requires
        same_input(a, b),
        same_input(b, c),
    ensures
        same_input(a, c),
    decreases a, 1int,
{
    let d = a.data.style.display;
    if is_participant(d) || d == Display::Contents {
        assert(b.data.style == unplaced(b.data).style);
        lemma_seq_same_input_trans(a.children@, b.children@, c.children@);
    }
}

proof fn lemma_seq_same_input_trans(a: Seq<Node>, b: Seq<Node>, c: Seq<Node>)
    requires
        seq_same_input(a, b),
        seq_same_input(b, c),
    ensures
        seq_same_input(a, c),
    decreases a, 0int,
{
    assert forall|i: int| 0 <= i < a.len() implies same_input(#[trigger] a[i], c[i]) by {
        lemma_same_input_trans(a[i], b[i], c[i]);
    }
}

/// `r` placed at the origin with no size.
pub open spec fn at_origin(r: Rectangle) -> Rectangle {
    Rectangle { x: 0, y: 0, width: 0, height: 0, ..r }
}

/// Two boxes that are the same input resolve to rectangles that differ at
/// most in position and size.
proof fn lemma_resolved_alike(b1: Node, b2: Node, c: ParentState, g: State)
    requires
        same_input(b1, b2),
        is_participant(b1.data.style.display),
    ensures
        at_origin(resolve_static(b1.data, c, g)) == at_origin(resolve_static(b2.data, c, g)),
{
    assert(b1.data.style == unplaced(b1.data).style);
    assert(b2.data.style == unplaced(b2.data).style);
    assert(unplaced(b1.data).border == unplaced(b2.data).border);
    assert(unplaced(b1.data).outline == unplaced(b2.data).outline);
}

/// Neither the container of a box's children nor its arrangement depends
/// on where the box was before.
proof fn lemma_placement_ignored(r: Rectangle, t: Option<crate::node::Text>, c: ParentState, g: State, f: Flow, k: Flow)
    ensures
        inner_state(&r, c, g) == inner_state(&at_origin(r), c, g),
        arrange(r, t, c, g, f, k) == arrange(at_origin(r), t, c, g, f, k),
{
    let o = at_origin(r);
    assert(r.style == o.style && r.margin == o.margin && r.padding == o.padding);
    assert(r.border == o.border && r.font_size == o.font_size);
    assert(spacing_h(&r) == spacing_h(&o));
    assert(spacing_v(&r) == spacing_v(&o));
    assert(inner_state(&r, c, g) == inner_state(&o, c, g));
    let w = final_width(&r, t, c, g, k);
    let h = final_height(&r, t, c, g, k);
    assert(w == final_width(&o, t, c, g, k));
    assert(h == final_height(&o, t, c, g, k));
    let ow = sat(w + spacing_h(&r));
    let oh = sat(h + spacing_v(&r));
    let (x0, y0, line0) = flow_start(&r, c, f, ow);
    assert(flow_start(&o, c, f, ow) == (x0, y0, line0));
    let m = auto_margins(&r, c, x0, y0, ow, oh);
    assert(auto_margins(&o, c, x0, y0, ow, oh) == m);
    assert(corner(&o, c, g, f, x0, y0, m) == corner(&r, c, g, f, x0, y0, m));
    assert(advance(&o, f, x0, y0, line0, m, ow, oh) == advance(&r, f, x0, y0, line0, m, ow, oh));
    reveal(arrange);
}

/// Layout moves the flow the same way for two nodes that are the same input.
proof fn lemma_flow_alike(b1: Node, b2: Node, c: ParentState, g: State, f: Flow)
    requires
        same_input(b1, b2),
    ensures
        node_flow(b1, c, g, f) == node_flow(b2, c, g, f),
    decreases b1, 0int,
{
    let d = b1.data.style.display;
    if d == Display::Contents {
        lemma_flow_seq_alike(b1.children@, b2.children@, b1.children@.len() as int, c, g, f);
    } else if is_participant(d) {
        lemma_resolved_alike(b1, b2, c, g);
        let r1 = resolve_static(b1.data, c, g);
        let r2 = resolve_static(b2.data, c, g);
        let inner = inner_state(&r1, c, g);
        lemma_flow_seq_alike(b1.children@, b2.children@, b1.children@.len() as int, inner, g, Flow::start_spec());
        let k = flow_seq(b1.children@, b1.children@.len() as int, inner, g, Flow::start_spec());
        lemma_placement_ignored(r1, b1.text, c, g, f, k);
        lemma_placement_ignored(r2, b2.text, c, g, f, k);
    }
}

proof fn lemma_flow_seq_alike(s1: Seq<Node>, s2: Seq<Node>, n: int, c: ParentState, g: State, f: Flow)
    requires
        seq_same_input(s1, s2),
    ensures
        flow_seq(s1, n, c, g, f) == flow_seq(s2, n, c, g, f),
    decreases s1, n,
{
    if 0 < n <= s1.len() {
        lemma_flow_seq_alike(s1, s2, n - 1, c, g, f);
        lemma_flow_alike(s1[n - 1], s2[n - 1], c, g, flow_seq(s1, n - 1, c, g, f));
    }
}

/// Laying out two nodes that are the same input gives the same tree.
proof fn lemma_layout_alike(
    b1: Node,
    b2: Node,
    a1: Node,
    a2: Node,
    c: ParentState,
    g: State,
    f: Flow,
)
    requires
        same_input(b1, b2),
        laid_out(b1, a1, c, g, f),
        laid_out(b2, a2, c, g, f),
    ensures
        same_tree(a1, a2),
    decreases b1, 1int,
{
    reveal(laid_out);
    let d = b1.data.style.display;
    if d == Display::Contents {
        lemma_seq_layout_alike(b1.children@, b2.children@, a1.children@, a2.children@, c, g, f);
    } else if is_participant(d) {
        lemma_resolved_alike(b1, b2, c, g);
        let r1 = resolve_static(b1.data, c, g);
        let r2 = resolve_static(b2.data, c, g);
        let inner = inner_state(&r1, c, g);
        lemma_flow_seq_alike(b1.children@, b2.children@, b1.children@.len() as int, inner, g, Flow::start_spec());
        let k = flow_seq(b1.children@, b1.children@.len() as int, inner, g, Flow::start_spec());
        lemma_placement_ignored(r1, b1.text, c, g, f, k);
        lemma_placement_ignored(r2, b2.text, c, g, f, k);
        lemma_seq_layout_alike(b1.children@, b2.children@, a1.children@, a2.children@, inner, g, Flow::start_spec());
    } else {
        lemma_same_tree_refl(a1);
    }
}

proof fn lemma_seq_layout_alike(
    s1: Seq<Node>,
    s2: Seq<Node>,
    t1: Seq<Node>,
    t2: Seq<Node>,
    c: ParentState,
    g: State,
    f: Flow,
)
    requires
        seq_same_input(s1, s2),
        seq_laid_out(s1, t1, c, g, f),
        seq_laid_out(s2, t2, c, g, f),
    ensures
        seq_same_tree(t1, t2),
    decreases s1, 0int,
{
    reveal(laid_out);
    assert forall|i: int| 0 <= i < t1.len() implies same_tree(#[trigger] t1[i], t2[i]) by {
        lemma_flow_seq_alike(s1, s2, i, c, g, f);
        lemma_layout_alike(s1[i], s2[i], t1[i], t2[i], c, g, flow_seq(s1, i, c, g, f));
    }
}

/// Layout changes only the values it computes.
proof fn lemma_layout_keeps_input(b: Node, a: Node, c: ParentState, g: State, f: Flow)
    requires
        laid_out(b, a, c, g, f),
    ensures
        same_input(b, a),
    decreases b, 1int,
{
    reveal(laid_out);
    let d = b.data.style.display;
    if d == Display::Contents {
        lemma_seq_layout_keeps_input(b.children@, a.children@, c, g, f);
    } else if is_participant(d) {
        reveal(arrange);
        let r = resolve_static(b.data, c, g);
        lemma_seq_layout_keeps_input(b.children@, a.children@, inner_state(&r, c, g), g, Flow::start_spec());
        assert(unplaced(b.data) == unplaced(a.data));
    }
}

proof fn lemma_seq_layout_keeps_input(b: Seq<Node>, a: Seq<Node>, c: ParentState, g: State, f: Flow)
    requires
        seq_laid_out(b, a, c, g, f),
    ensures
        seq_same_input(b, a),
    decreases b, 0int,
{
    reveal(laid_out);
    assert forall|i: int| 0 <= i < b.len() implies same_input(#[trigger] b[i], a[i]) by {
        lemma_layout_keeps_input(b[i], a[i], c, g, flow_seq(b, i, c, g, f));
    }
}

/// The offset pass changes only positions.
proof fn lemma_shift_keeps_input(b: Node, a: Node, c: ParentState, pa: ParentState, g: State)
    requires
        shifted(b, a, c, pa, g),
    ensures
        same_input(b, a),
    decreases b, 1int,
{
    reveal(shifted);
    let d = b.data.style.display;
    if d == Display::Contents {
        lemma_seq_shift_keeps_input(b.children@, a.children@, c, pa, g);
    } else if is_participant(d) {
        let r = moved(b.data, c, pa, g);
        let inner = box_state(&r);
        let pa2 = if is_positioned(r.style.position) {
            inner
        } else {
            pa
        };
        lemma_seq_shift_keeps_input(b.children@, a.children@, inner, pa2, g);
        assert(unplaced(b.data) == unplaced(a.data));
    }
}

proof fn lemma_seq_shift_keeps_input(b: Seq<Node>, a: Seq<Node>, c: ParentState, pa: ParentState, g: State)
    requires
        seq_shifted(b, a, c, pa, g),
    ensures
        seq_same_input(b, a),
    decreases b, 0int,
{
    reveal(shifted);
    assert forall|i: int| 0 <= i < b.len() implies same_input(#[trigger] b[i], a[i]) by {
        lemma_shift_keeps_input(b[i], a[i], c, pa, g);
    }
}

/// The offset pass on two trees with the same geometry gives trees with
/// the same geometry.
proof fn lemma_shift_alike(m1: Node, m2: Node, t1: Node, t2: Node, c: ParentState, pa: ParentState, g: State)
    requires
        same_tree(m1, m2),
        shifted(m1, t1, c, pa, g),
        shifted(m2, t2, c, pa, g),
    ensures
        same_tree(t1, t2),
    decreases m1, 1int,
{
    reveal(shifted);
    let d = m1.data.style.display;
    if d == Display::Contents {
        lemma_seq_shift_alike(m1.children@, m2.children@, t1.children@, t2.children@, c, pa, g);
    } else if is_participant(d) {
        let r = moved(m1.data, c, pa, g);
        let inner = box_state(&r);
        let pa2 = if is_positioned(r.style.position) {
            inner
        } else {
            pa
        };
        lemma_seq_shift_alike(m1.children@, m2.children@, t1.children@, t2.children@, inner, pa2, g);
    } else {
        assert(t1 == m1 && t2 == m2);
    }
}

proof fn lemma_seq_shift_alike(
    s1: Seq<Node>,
    s2: Seq<Node>,
    t1: Seq<Node>,
    t2: Seq<Node>,
    c: ParentState,
    pa: ParentState,
    g: State,
)
    requires
        seq_same_tree(s1, s2),
        seq_shifted(s1, t1, c, pa, g),
        seq_shifted(s2, t2, c, pa, g),
    ensures
        seq_same_tree(t1, t2),
    decreases s1, 0int,
{
    reveal(shifted);
    assert forall|i: int| 0 <= i < t1.len() implies same_tree(#[trigger] t1[i], t2[i]) by {
        lemma_shift_alike(s1[i], s2[i], t1[i], t2[i], c, pa, g);
    }
}

/// Laying a tree out is idempotent: lay out `t0` and move it to viewport
/// coordinates (giving `t1`, as `Tree::finish` does), then do the same to
/// `t1`, and every box, text and coordinate comes out as in `t1`.
pub proof fn lemma_layout_idempotent(t0: Node, m1: Node, t1: Node, m2: Node, t2: Node, g: State)
    requires
        laid_out(t0, m1, root_state(g), g, Flow::start_spec()),
        shifted(m1, t1, root_state(g), root_state(g), g),
        laid_out(t1, m2, root_state(g), g, Flow::start_spec()),
        shifted(m2, t2, root_state(g), root_state(g), g),
    ensures
        same_tree(t1, t2),
{
    lemma_layout_keeps_input(t0, m1, root_state(g), g, Flow::start_spec());
    lemma_shift_keeps_input(m1, t1, root_state(g), root_state(g), g);
    lemma_same_input_trans(t0, m1, t1);
    lemma_layout_alike(t0, t1, m1, m2, root_state(g), g, Flow::start_spec());
    lemma_shift_alike(m1, m2, t1, t2, root_state(g), root_state(g), g);
}

/// `Tree::finish` is idempotent: if `t1` is what `finish` makes of `t0` and
/// `t2` what it makes of `t1`, as its contract describes them, then `t2`
/// holds the same boxes, texts and geometry as `t1`.
pub proof fn lemma_finish_idempotent(t0: Tree, t1: Tree, t2: Tree)
    requires
        t1.state == t0.state,
        exists|m: Node|
            laid_out(t0.node, m, root_state(t0.state), t0.state, Flow::start_spec()) && shifted(m, t1.node, root_state(t0.state), root_state(t0.state), t0.state),
        t2.state == t1.state,
        exists|m: Node|
            laid_out(t1.node, m, root_state(t1.state), t1.state, Flow::start_spec()) && shifted(m, t2.node, root_state(t1.state), root_state(t1.state), t1.state),
    ensures
        same_tree(t1.node, t2.node),
{
    let g = t0.state;
    let m1 = choose|m: Node|
        laid_out(t0.node, m, root_state(g), g, Flow::start_spec()) && shifted(m, t1.node, root_state(t0.state), root_state(t0.state), t0.state);
    let m2 = choose|m: Node|
        laid_out(t1.node, m, root_state(g), g, Flow::start_spec()) && shifted(m, t2.node, root_state(t1.state), root_state(t1.state), t1.state);
    lemma_layout_idempotent(t0.node, m1, t1.node, m2, t2.node, g);
}

/// `Node::compute_layout` is idempotent: laying out again, in the same
/// container at the same flow, a node it has already laid out gives the same
/// boxes, texts and geometry, and moves the flow the same way.
pub proof fn lemma_compute_layout_idempotent(b: Node, a: Node, a2: Node, c: ParentState, g: State, f: Flow)
    requires
        laid_out(b, a, c, g, f),
        laid_out(a, a2, c, g, f),
    ensures
        same_tree(a, a2),
        node_flow(a, c, g, f) == node_flow(b, c, g, f),
{
    lemma_layout_keeps_input(b, a, c, g, f);
    lemma_layout_alike(b, a, a, a2, c, g, f);
    lemma_flow_alike(b, a, c, g, f);
}

} // verus!
