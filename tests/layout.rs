use moxui::node::{Flow, Node, ParentState};
use moxui::paint::{InstanceData, TextData};
use moxui::rectangle::{BoxSizing, Display, Position};
use moxui::tree::{Config, State, Tree};
use moxui::units::{CalcExpr, Context, Units};

fn config(width: i64, height: i64) -> Config {
    Config { width, height, dpi: 96 }
}

fn block(height: i64) -> impl Fn(Node) -> Node {
    move |n: Node| n.set_size(Units::Auto, Units::Px(height))
}

fn paint(tree: &Tree) -> (Vec<InstanceData>, Vec<TextData>) {
    let mut boxes = Vec::new();
    let mut texts = Vec::new();
    let root = tree.root_state();
    tree.node.collect_instances(&mut boxes, &mut texts, &root, &tree.state);
    (boxes, texts)
}

fn geometry(n: &Node) -> Vec<i64> {
    let mut out = vec![n.data.x, n.data.y, n.data.width, n.data.height];
    out.extend_from_slice(&n.data.margin);
    out.extend_from_slice(&n.data.padding);
    for c in &n.children {
        out.extend(geometry(c));
    }
    out
}

#[test]
fn two_blocks_stack_and_size_their_container() {
    let tree = Tree::new(&config(300, 600), |n| n.add_child(block(50)).add_child(block(50))).finish();
    let root = &tree.node;
    assert_eq!((root.data.x, root.data.y, root.data.width, root.data.height), (0, 0, 300, 100));
    let a = &root.children[0].data;
    let b = &root.children[1].data;
    assert_eq!((a.x, a.y, a.width, a.height), (0, 0, 300, 50));
    assert_eq!((b.x, b.y, b.width, b.height), (0, 50, 300, 50));
}

#[test]
fn auto_margins_center_a_block() {
    let tree = Tree::new(&config(200, 100), |n| {
        n.add_child(|c| {
            c.set_size(Units::Perc(50), Units::Px(10)).set_margin(
                Units::Px(0),
                Units::Auto,
                Units::Px(0),
                Units::Auto,
            )
        })
    })
    .finish();
    let child = &tree.node.children[0].data;
    assert_eq!(child.x, 50);
    assert_eq!(child.get_extents().width, 100);
    assert_eq!(child.margin[1], 50);
    assert_eq!(child.margin[3], 50);
}

#[test]
fn one_auto_margin_takes_the_rest() {
    let tree = Tree::new(&config(200, 100), |n| {
        n.add_child(|c| {
            c.set_size(Units::Px(60), Units::Px(10)).set_margin(
                Units::Px(0),
                Units::Px(10),
                Units::Px(0),
                Units::Auto,
            )
        })
    })
    .finish();
    let child = &tree.node.children[0].data;
    assert_eq!(child.margin[3], 130);
    assert_eq!(child.x, 130);
}

#[test]
fn calc_percent_minus_pixels() {
    let ctx = Context {
        root_font_size: 16,
        reference_size: 200,
        parent_font_size: 16,
        viewport: (800, 600),
        auto: 0,
        dpi: 96,
    };
    let len = Units::Calc(Box::new(CalcExpr::Sub(
        Box::new(CalcExpr::Value(Units::Perc(50))),
        Box::new(CalcExpr::Value(Units::Px(25))),
    )));
    assert_eq!(len.to_px(&ctx), 75);
}

#[test]
fn absolute_box_ignores_the_flow() {
    let tree = Tree::new(&config(400, 300), |n| {
        n.set_position(Position::Relative)
            .add_child(block(70))
            .add_child(|c| {
                c.set_position(Position::Absolute)
                    .set_size(Units::Px(30), Units::Px(30))
                    .set_coordinates(Units::Px(10), Units::Auto, Units::Auto, Units::Px(20))
            })
            .add_child(block(20))
    })
    .finish();
    let root = &tree.node;
    let abs = &root.children[1].data;
    assert_eq!((abs.x, abs.y), (20, 10));
    // the block after it continues the flow as if the absolute box were not there
    assert_eq!(root.children[2].data.y, 70);
    assert_eq!(root.data.height, 90);
}

#[test]
fn absolute_box_from_right_and_bottom() {
    let tree = Tree::new(&config(400, 300), |n| {
        n.set_size(Units::Px(400), Units::Px(300)).add_child(|c| {
            c.set_position(Position::Absolute)
                .set_size(Units::Px(30), Units::Px(40))
                .set_coordinates(Units::Auto, Units::Px(10), Units::Px(20), Units::Auto)
        })
    })
    .finish();
    let abs = &tree.node.children[0].data;
    assert_eq!((abs.x, abs.y), (360, 240));
}

#[test]
fn contents_children_flow_in_the_parent() {
    let flat = Tree::new(&config(300, 600), |n| {
        n.add_child(block(10)).add_child(block(20)).add_child(block(30))
    })
    .finish();
    let nested = Tree::new(&config(300, 600), |n| {
        n.add_child(block(10))
            .add_child(|c| c.set_display(Display::Contents).add_child(block(20)).add_child(block(30)))
    })
    .finish();
    let wrapper = &nested.node.children[1];
    for (i, got) in wrapper.children.iter().enumerate() {
        let want = &flat.node.children[i + 1].data;
        assert_eq!((got.data.x, got.data.y, got.data.width, got.data.height), (want.x, want.y, want.width, want.height));
    }
    assert_eq!(nested.node.data.height, 60);
    let (boxes, _) = paint(&nested);
    // the root, the first block and the two grandchildren; no box for the wrapper
    assert_eq!(boxes.len(), 4);
}

#[test]
fn removed_subtree_is_not_painted() {
    let tree = Tree::new(&config(300, 600), |n| {
        n.add_child(block(10))
            .add_child(|c| c.set_display(Display::Removed).add_child(block(20)).set_content(7))
            .add_child(block(30))
    })
    .finish();
    let (boxes, texts) = paint(&tree);
    assert_eq!(boxes.len(), 3);
    assert!(texts.is_empty());
    // the removed box takes no room
    assert_eq!(tree.node.children[2].data.y, 10);
}

#[test]
fn layout_twice_is_identical() {
    let build = |n: Node| {
        n.set_padding(Units::Px(5), Units::Px(6), Units::Px(7), Units::Px(8))
            .add_child(block(40))
            .add_child(|c| {
                c.set_display(Display::InlineBlock)
                    .set_size(Units::Px(50), Units::Px(20))
                    .set_margin(Units::Px(1), Units::Px(2), Units::Px(3), Units::Px(4))
            })
            .add_child(|c| c.set_display(Display::Contents).add_child(block(15)))
    };
    let once = Tree::new(&config(320, 200), build).finish();
    let first = geometry(&once.node);
    let twice = once.finish();
    assert_eq!(first, geometry(&twice.node));
}

#[test]
fn inline_blocks_share_a_line_then_wrap() {
    let item = |w: i64| move |c: Node| c.set_display(Display::InlineBlock).set_size(Units::Px(w), Units::Px(10));
    // exactly filling the line does not wrap
    let fits = Tree::new(&config(100, 100), |n| n.add_child(item(60)).add_child(item(40))).finish();
    assert_eq!((fits.node.children[1].data.x, fits.node.children[1].data.y), (60, 0));
    // one pixel more does
    let wraps = Tree::new(&config(100, 100), |n| n.add_child(item(60)).add_child(item(41))).finish();
    assert_eq!((wraps.node.children[1].data.x, wraps.node.children[1].data.y), (0, 10));
    assert_eq!(wraps.node.data.height, 20);
}

#[test]
fn wider_than_container_does_not_wrap() {
    let item = |w: i64| move |c: Node| c.set_display(Display::InlineBlock).set_size(Units::Px(w), Units::Px(10));
    let tree = Tree::new(&config(100, 100), |n| n.add_child(item(30)).add_child(item(150))).finish();
    assert_eq!((tree.node.children[1].data.x, tree.node.children[1].data.y), (30, 0));
}

#[test]
fn inline_block_shrinks_to_text() {
    let tree = Tree::new(&config(300, 100), |n| {
        n.add_child(|c| c.set_display(Display::InlineBlock).set_content(1))
    });
    let mut tree = tree;
    tree.node.children[0].set_text_size(42, 19);
    let tree = tree.finish();
    let child = &tree.node.children[0];
    assert_eq!((child.data.width, child.data.height), (42, 19));
    let (_, texts) = paint(&tree);
    assert_eq!(texts.len(), 1);
    assert_eq!((texts[0].x, texts[0].y, texts[0].width, texts[0].handle), (0, 0, 42, 1));
}

#[test]
fn min_and_max_clamp_the_width() {
    let tree = Tree::new(&config(300, 100), |n| {
        n.add_child(|c| c.set_size(Units::Px(500), Units::Px(10)).set_max_size(Units::Px(120), Units::Auto))
            .add_child(|c| c.set_size(Units::Px(5), Units::Px(10)).set_min_size(Units::Px(40), Units::Px(30)))
    })
    .finish();
    assert_eq!(tree.node.children[0].data.width, 120);
    assert_eq!(tree.node.children[1].data.width, 40);
    assert_eq!(tree.node.children[1].data.height, 30);
}

#[test]
fn border_box_counts_padding_and_border() {
    let tree = Tree::new(&config(300, 100), |n| {
        n.add_child(|c| {
            c.set_box_sizing(BoxSizing::BorderBox)
                .set_size(Units::Px(100), Units::Px(50))
                .set_padding(Units::Px(10), Units::Px(10), Units::Px(10), Units::Px(10))
                .set_border_size(Units::Px(2), Units::Px(2), Units::Px(2), Units::Px(2))
        })
    })
    .finish();
    let child = &tree.node.children[0].data;
    assert_eq!((child.width, child.height), (76, 26));
    assert_eq!(child.get_extents().width, 100);
    assert_eq!(child.get_extents().height, 50);
}

#[test]
fn children_move_with_their_parent_content_box() {
    let tree = Tree::new(&config(300, 300), |n| {
        n.add_child(block(25)).add_child(|c| {
            c.set_padding(Units::Px(4), Units::Px(0), Units::Px(0), Units::Px(6))
                .set_border_size(Units::Px(1), Units::Px(0), Units::Px(0), Units::Px(2))
                .add_child(block(10))
        })
    })
    .finish();
    let inner = &tree.node.children[1].children[0].data;
    assert_eq!((inner.x, inner.y), (8, 30));
}

#[test]
fn relative_offsets_shift_without_moving_siblings() {
    let tree = Tree::new(&config(300, 300), |n| {
        n.add_child(|c| {
            c.set_position(Position::Relative)
                .set_size(Units::Auto, Units::Px(10))
                .set_coordinates(Units::Px(5), Units::Auto, Units::Auto, Units::Px(7))
        })
        .add_child(block(10))
    })
    .finish();
    assert_eq!((tree.node.children[0].data.x, tree.node.children[0].data.y), (7, 5));
    assert_eq!(tree.node.children[1].data.y, 10);
}

#[test]
fn fixed_and_sticky_follow_the_scroll() {
    let mut tree = Tree::new(&config(100, 100), |n| {
        n.set_size(Units::Px(100), Units::Px(1000))
            .add_child(|c| {
                c.set_position(Position::Sticky)
                    .set_size(Units::Auto, Units::Px(10))
                    .set_coordinates(Units::Px(0), Units::Auto, Units::Auto, Units::Auto)
            })
            .add_child(|c| {
                c.set_position(Position::Fixed)
                    .set_size(Units::Px(10), Units::Px(10))
                    .set_coordinates(Units::Px(3), Units::Auto, Units::Auto, Units::Px(4))
            })
    })
    .finish();
    tree.scroll(0, 250);
    assert_eq!(tree.state.scroll, (0, 250));
    let (boxes, _) = paint(&tree);
    assert_eq!(boxes[1].rect_pos, [0, 250]);
    assert_eq!(boxes[2].rect_pos, [4, 253]);
    // scrolling stops at the end of the content
    tree.scroll(0, 5000);
    assert_eq!(tree.state.scroll, (0, 900));
    tree.scroll(-10, -5000);
    assert_eq!(tree.state.scroll, (0, 0));
}

#[test]
fn paint_record_grows_by_the_outline() {
    let tree = Tree::new(&config(300, 300), |n| {
        n.add_child(|c| {
            c.set_size(Units::Px(20), Units::Px(10))
                .set_outline_width(Units::Px(2))
                .set_outline_offset(Units::Px(1))
                .set_translate([5, 6])
                .set_border_top_color(200, 100, 50, 51)
        })
    })
    .finish();
    let (boxes, _) = paint(&tree);
    assert_eq!(boxes[1].rect_pos, [2, 3]);
    assert_eq!(boxes[1].rect_size, [26, 16]);
    assert_eq!(
        (boxes[1].border_top_color.r, boxes[1].border_top_color.g, boxes[1].border_top_color.b),
        (40, 20, 10)
    );
}

#[test]
fn font_metrics_resolve_down_the_tree() {
    let tree = Tree::new(&config(300, 300), |n| {
        n.set_font_size(Units::Px(20)).add_child(|c| {
            c.set_font_size(Units::Em(2)).set_line_height(Units::Perc(150)).add_child(|g| g.set_font_size(Units::Rem(1)))
        })
    })
    .finish();
    let child = &tree.node.children[0];
    assert_eq!(child.data.font_size, 40);
    assert_eq!(child.data.line_height, 60);
    assert_eq!(child.children[0].data.font_size, 16);
}

#[test]
fn layout_of_a_single_node_reports_the_flow() {
    let mut node = Node::new().set_size(Units::Px(10), Units::Px(10)).set_margin(
        Units::Px(1),
        Units::Px(2),
        Units::Px(3),
        Units::Px(4),
    );
    let parent = ParentState { x: 0, y: 0, width: 100, height: 100, font_size: 16 };
    let state = State { root_font_size: 16, viewport: (100, 100), scroll: (0, 0), dpi: 96 };
    let after = node.compute_layout(&parent, &state, Flow::start());
    assert_eq!((after.x, after.y, after.width, after.height), (0, 14, 16, 14));
    assert_eq!((node.data.x, node.data.y), (4, 1));
}

#[test]
fn absolute_box_uses_the_nearest_positioned_ancestor() {
    let tree = Tree::new(&config(400, 300), |n| {
        n.add_child(block(50)).add_child(|c| {
            c.set_position(Position::Relative)
                .set_padding(Units::Px(10), Units::Px(10), Units::Px(10), Units::Px(10))
                .add_child(|wrapper| {
                    wrapper.add_child(block(20)).add_child(|abs| {
                        abs.set_position(Position::Absolute)
                            .set_size(Units::Px(5), Units::Px(5))
                            .set_coordinates(Units::Px(5), Units::Auto, Units::Auto, Units::Px(7))
                    })
                })
        })
    })
    .finish();
    let positioned = &tree.node.children[1];
    let abs = &positioned.children[0].children[1].data;
    assert_eq!((abs.x, abs.y), (17, 65));
}

#[test]
fn absolute_box_without_offsets_keeps_its_static_position() {
    let tree = Tree::new(&config(400, 300), |n| {
        n.add_child(block(30)).add_child(|c| c.set_position(Position::Absolute).set_size(Units::Px(5), Units::Px(5)))
    })
    .finish();
    let abs = &tree.node.children[1].data;
    assert_eq!((abs.x, abs.y), (0, 30));
}

#[test]
fn max_width_resolves_auto_against_the_width() {
    let tree = Tree::new(&config(300, 100), |n| {
        n.add_child(|c| {
            c.set_size(Units::Px(0), Units::Px(10)).set_min_size(Units::Px(60), Units::Auto).set_max_size(
                Units::Calc(Box::new(CalcExpr::Sub(
                    Box::new(CalcExpr::Value(Units::Px(100))),
                    Box::new(CalcExpr::Value(Units::Auto)),
                ))),
                Units::Auto,
            )
        })
    })
    .finish();
    assert_eq!(tree.node.children[0].data.width, 60);
}

#[test]
fn sticky_clamps_the_painted_position() {
    let tree = Tree::new(&config(100, 100), |n| {
        n.add_child(|c| {
            c.set_position(Position::Sticky)
                .set_size(Units::Px(10), Units::Px(10))
                .set_coordinates(Units::Px(5), Units::Auto, Units::Auto, Units::Auto)
                .set_translate([0, 10])
        })
    })
    .finish();
    let (boxes, _) = paint(&tree);
    assert_eq!(boxes[1].rect_pos, [0, 10]);
}

#[test]
fn contents_box_is_transparent_for_font_size() {
    let child = |c: Node| {
        c.set_size(Units::Auto, Units::Px(10)).set_margin(Units::Em(1), Units::Px(0), Units::Px(0), Units::Px(0))
    };
    let nested = Tree::new(&config(300, 300), |n| {
        n.add_child(|k| k.set_display(Display::Contents).set_font_size(Units::Px(32)).add_child(child))
    })
    .finish();
    let flat = Tree::new(&config(300, 300), |n| n.add_child(child)).finish();
    assert_eq!(nested.node.children[0].children[0].data.margin[0], 16);
    assert_eq!(nested.node.children[0].children[0].data.y, flat.node.children[0].data.y);
}

#[test]
fn block_after_inline_starts_at_the_cursor() {
    let tree = Tree::new(&config(300, 300), |n| {
        n.add_child(|c| c.set_display(Display::InlineBlock).set_size(Units::Px(40), Units::Px(20)))
            .add_child(block(50))
    })
    .finish();
    assert_eq!((tree.node.children[1].data.x, tree.node.children[1].data.y), (0, 0));
    assert_eq!(tree.node.data.height, 50);
}

#[test]
fn auto_width_is_the_container_width() {
    let tree = Tree::new(&config(300, 300), |n| {
        n.add_child(|c| {
            c.set_size(Units::Auto, Units::Px(10))
                .set_padding(Units::Px(0), Units::Px(5), Units::Px(0), Units::Px(5))
                .set_margin(Units::Px(0), Units::Px(7), Units::Px(0), Units::Px(7))
        })
    })
    .finish();
    assert_eq!(tree.node.children[0].data.width, 300);
}
