//! A box-layout engine: CSS-like lengths, per-node box resolution and block /
//! inline flow layout, over whole-pixel integer geometry.
//!
//! - `units`: lengths and `calc()` expressions, resolved to pixels;
//!   `calc` reads their textual form.
//! - `rectangle`: the declared style of a box and its resolved geometry.
//! - `node`: the tree, the flow layout pass and the offset pass.
//! - `tree`: the layout root with the viewport, scroll and resolution.
//! - `paint`: the records a renderer draws, one per visible box and text.
//! - `stability`: laying a tree out again leaves it as it was.
//! - `arith`: the saturating pixel arithmetic all of it is computed in.
pub mod arith;
pub mod units;
pub mod rectangle;
pub mod tree;
pub mod node;
pub mod paint;
pub mod flexbox;
pub mod stability;
pub mod calc;
