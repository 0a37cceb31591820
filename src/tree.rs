//! The layout root and the values shared by one layout pass.
use vstd::prelude::*;
use crate::arith::{max, min, px_add, px_max, px_min, px_sub, sat};
use crate::node::{laid_out, shifted, Flow, Node, ParentState};
use crate::rectangle::{Rectangle, Style};
use crate::units::Units;

verus! {

/// Per-tree values that a layout pass reads and never changes.
#[derive(Clone, Copy, Debug)]
pub struct State {
    pub root_font_size: i64,
    /// Viewport width and height.
    pub viewport: (i64, i64),
    /// Scroll offset along x and y.
    pub scroll: (i64, i64),
    /// Pixels per inch.
    pub dpi: i64,
}

/// The size and resolution of the surface a tree is laid out for.
#[derive(Clone, Copy, Debug)]
pub struct Config {
    pub width: i64,
    pub height: i64,
    pub dpi: i64,
}

/// A tree of nodes with the state it is laid out in.
#[derive(Debug)]
pub struct Tree {
    pub node: Node,
    pub state: State,
}

/// The container that the root is laid out in: the viewport, with the root
/// font size.
pub open spec fn root_state(g: State) -> ParentState {
    ParentState { x: 0, y: 0, width: g.viewport.0, height: g.viewport.1, font_size: g.root_font_size }
}

/// A scroll position kept between 0 and `limit` (0 when `limit` is negative).
pub open spec fn scroll_clamp(v: int, limit: int) -> int {
    max(0, min(v, limit))
}

impl Tree {
    /// A tree for `config` whose root is what `f` makes from a new node of
    /// width 100%; the root font size is 16px and nothing is scrolled.
    pub fn new<F: Fn(Node) -> Node>(config: &Config, f: F) -> (r: Tree)
        requires
            forall|n: Node| f.requires((n,)),
        ensures
            r.state.root_font_size == 16,
            r.state.viewport == (config.width, config.height),
            r.state.scroll == (0i64, 0i64),
            r.state.dpi == config.dpi,
            exists|seed: Node|
                {
                    &&& seed.children@.len() == 0
                    &&& seed.text is None
                    &&& seed.data == (Rectangle {
                        style: Style { width: Units::Perc(100), ..Style::default_spec() },
                        ..Rectangle::new_spec()
                    })
                    &&& f.ensures((seed,), r.node)
                },
    {
        let state = State {
            root_font_size: 16,
            viewport: (config.width, config.height),
            scroll: (0, 0),
            dpi: config.dpi,
        };
        let mut seed = Node::new();
        seed.data.style.width = Units::Perc(100);
        let ghost s = seed;
        let node = f(seed);
        assert(s.data == (Rectangle {
            style: Style { width: Units::Perc(100), ..Style::default_spec() },
            ..Rectangle::new_spec()
        }));
        assert(f.ensures((s,), node));
        let tree = Tree { node, state };
        assert({
            &&& s.children@.len() == 0
            &&& s.text is None
            &&& s.data == (Rectangle {
                style: Style { width: Units::Perc(100), ..Style::default_spec() },
                ..Rectangle::new_spec()
            })
            &&& f.ensures((s,), tree.node)
        });
        tree
    }

    /// The container that the root is laid out in.
    pub fn root_state(&self) -> (r: ParentState)
        ensures
            r == root_state(self.state),
    {
        ParentState {
            x: 0,
            y: 0,
            width: self.state.viewport.0,
            height: self.state.viewport.1,
            font_size: self.state.root_font_size,
        }
    }

    /// Lays the tree out in the viewport and moves every box to coordinates
    /// relative to the viewport's corner; the viewport is the containing
    /// block of absolutely positioned boxes that have no positioned ancestor.
    pub fn finish(self) -> (r: Tree)
        ensures
            r.state == self.state,
            exists|m: Node|
                laid_out(self.node, m, root_state(self.state), self.state, Flow::start_spec())
                    && shifted(m, r.node, root_state(self.state), root_state(self.state), self.state),
    {
        let mut tree = self;
        let root = tree.root_state();
        tree.node.compute_layout(&root, &tree.state, Flow::start());
        let ghost m = tree.node;
        tree.node.offset(&root, &root, &tree.state);
        assert(laid_out(self.node, m, root_state(self.state), self.state, Flow::start_spec())
            && shifted(m, tree.node, root_state(self.state), root_state(self.state), self.state));
        tree
    }

    /// Scrolls by `(x, y)`, keeping the viewport within the root's content box.
    pub fn scroll(&mut self, x: i64, y: i64)
        ensures
            final(self).node == old(self).node,
            final(self).state == (State {
                scroll: (
                    scroll_clamp(
                        sat(old(self).state.scroll.0 + x),
                        sat(old(self).node.data.width - old(self).state.viewport.0),
                    ) as i64,
                    scroll_clamp(
                        sat(old(self).state.scroll.1 + y),
                        sat(old(self).node.data.height - old(self).state.viewport.1),
                    ) as i64,
                ),
                ..old(self).state
            }),
    {
        let new_x = px_add(self.state.scroll.0, x);
        let new_y = px_add(self.state.scroll.1, y);
        let limit_x = px_sub(self.node.data.width, self.state.viewport.0);
        let limit_y = px_sub(self.node.data.height, self.state.viewport.1);
        self.state.scroll = (px_max(0, px_min(new_x, limit_x)), px_max(0, px_min(new_y, limit_y)));
    }

    /// Sets the viewport size.
    pub fn set_viewport(&mut self, width: i64, height: i64)
        ensures
            final(self).node == old(self).node,
            final(self).state == (State { viewport: (width, height), ..old(self).state }),
    {
        self.state.viewport = (width, height);
    }
}

} // verus!
