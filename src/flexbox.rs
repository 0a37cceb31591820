//! Flexbox properties. They can be declared, but layout does not run them.
use vstd::prelude::*;
use crate::units::Units;

verus! {

#[derive(Clone, Copy, Debug, PartialEq, Eq, Structural)]
pub enum FlexDirection {
    Row,
    RowReverse,
    Column,
    ColumnReverse,
}

#[derive(Clone, Copy, Debug, PartialEq, Eq, Structural)]
pub enum FlexWrap {
    Nowrap,
    Wrap,
    WrapReverse,
}

#[derive(Debug)]
pub enum JustifyContent {
    Start,
    Center,
    End,
    FlexStart,
    FlexEnd,
    Left,
    Right,
    Normal,
    SpaceBetween,
    SpaceAround,
    SpaceEvenly,
    Stretch,
    Safe(Box<JustifyContent>),
    Unsafe(Box<JustifyContent>),
}

#[derive(Debug)]
pub enum AlignItems {
    Normal,
    Stretch,
    Center,
    Start,
    End,
    FlexStart,
    SelfStart,
    SelfEnd,
    AnchorCenter,
    Baseline,
    First(Box<AlignItems>),
    Last(Box<AlignItems>),
    Safe(Box<AlignItems>),
    Unsafe(Box<AlignItems>),
}

#[derive(Debug)]
pub enum AlignContent {
    Normal,
    Stretch,
    Center,
    Start,
    End,
    FlexStart,
    FlexEnd,
    SpaceBetween,
    SpaceAround,
    SpaceEvenly,
    Baseline,
    First(Box<AlignContent>),
    Last(Box<AlignContent>),
    Safe(Box<AlignContent>),
    Unsafe(Box<AlignContent>),
}

#[derive(Clone, Copy, Debug, PartialEq, Eq, Structural)]
pub struct Order(pub i32);

#[derive(Clone, Copy, Debug, PartialEq, Eq, Structural)]
pub struct FlexGrow(pub i32);

#[derive(Clone, Copy, Debug, PartialEq, Eq, Structural)]
pub struct FlexShrink(pub i32);

#[derive(Debug)]
pub enum FlexBasis {
    Auto,
    Content,
    Length(Units),
}

#[derive(Debug)]
pub enum AlignSelf {
    Auto,
    Normal,
    Center,
    Start,
    End,
    SelfStart,
    SelfEnd,
    FlexStart,
    FlexEnd,
    AnchorCenter,
    Baseline,
    Stretch,
    First(Box<AlignSelf>),
    Last(Box<AlignSelf>),
    Safe(Box<AlignSelf>),
    Unsafe(Box<AlignSelf>),
}

} // verus!
