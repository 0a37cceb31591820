//! Lengths and their resolution to pixels.
use vstd::prelude::*;
use vstd::arithmetic::div_mod::{lemma_fundamental_div_mod, lemma_mod_multiples_vanish};
use crate::arith::{
    max, min, px_add, px_div, px_max, px_min, px_mul, px_scaled, px_sub, quot, sat, scaled,
    trunc_div,
};

verus! {

/// A declared length. The amounts are whole numbers: pixels for `Px`,
/// percent for `Perc` and the viewport units, and counts of the unit for the
/// physical and font-relative ones.
#[derive(Debug)]
pub enum Units {
    Px(i64),
    Perc(i64),
    Vw(i64),
    Vh(i64),
    Vmin(i64),
    Vmax(i64),
    In(i64),
    Mm(i64),
    Pt(i64),
    Pc(i64),
    Em(i64),
    Rem(i64),
    Calc(Box<CalcExpr>),
    Auto,
}

/// A `calc()` expression over lengths.
#[derive(Debug)]
pub enum CalcExpr {
    Value(Units),
    Add(Box<CalcExpr>, Box<CalcExpr>),
    Sub(Box<CalcExpr>, Box<CalcExpr>),
    Mul(Box<CalcExpr>, Box<CalcExpr>),
    Div(Box<CalcExpr>, Box<CalcExpr>),
    Paren(Box<CalcExpr>),
}

/// What a length is resolved against.
#[derive(Clone, Copy, Debug, PartialEq)]
pub struct Context {
    pub root_font_size: i64,
    /// The containing dimension that percentages refer to.
    pub reference_size: i64,
    pub parent_font_size: i64,
    /// Viewport width and height.
    pub viewport: (i64, i64),
    /// The value that `Auto` stands for at this use.
    pub auto: i64,
    /// Pixels per inch.
    pub dpi: i64,
}

impl Context {
    pub open spec fn with_auto_spec(self, auto: i64) -> Context {
        Context { auto, ..self }
    }

    /// The same context with another fallback for `Auto`.
    #[verifier::when_used_as_spec(with_auto_spec)]
    pub fn with_auto(self, auto: i64) -> (r: Context)
        ensures
            r == self.with_auto_spec(auto),
    {
        Context { auto, ..self }
    }

    pub open spec fn with_reference_spec(self, reference_size: i64) -> Context {
        Context { reference_size, ..self }
    }

    /// The same context with another reference size for percentages.
    #[verifier::when_used_as_spec(with_reference_spec)]
    pub fn with_reference(self, reference_size: i64) -> (r: Context)
        ensures
            r == self.with_reference_spec(reference_size),
    {
        Context { reference_size, ..self }
    }
}

impl Units {
    /// The pixel value of this length in `ctx`.
    pub open spec fn px(self, ctx: Context) -> int
        decreases self,
    {
        match self {
            Units::Px(n) => n as int,
            Units::Perc(p) => scaled(p as int, ctx.reference_size as int, 1, 100),
            Units::Vw(p) => scaled(p as int, ctx.viewport.0 as int, 1, 100),
            Units::Vh(p) => scaled(p as int, ctx.viewport.1 as int, 1, 100),
            Units::Vmin(p) => scaled(
                p as int,
                min(ctx.viewport.0 as int, ctx.viewport.1 as int),
                1,
                100,
            ),
            Units::Vmax(p) => scaled(
                p as int,
                max(ctx.viewport.0 as int, ctx.viewport.1 as int),
                1,
                100,
            ),
            Units::In(n) => scaled(n as int, ctx.dpi as int, 1, 1),
            // n / 25.4 inches
            Units::Mm(n) => scaled(n as int, ctx.dpi as int, 5, 127),
            // n / 72 inches
            Units::Pt(n) => scaled(n as int, ctx.dpi as int, 1, 72),
            // n * 12 / 72 inches
            Units::Pc(n) => scaled(n as int, ctx.dpi as int, 1, 6),
            Units::Em(n) => scaled(n as int, ctx.parent_font_size as int, 1, 1),
            Units::Rem(n) => scaled(n as int, ctx.root_font_size as int, 1, 1),
            Units::Calc(e) => e.px(ctx),
            Units::Auto => ctx.auto as int,
        }
    }

    /// Resolves this length to pixels.
    pub fn to_px(&self, context: &Context) -> (r: i64)
        ensures
            r == self.px(*context),
        decreases self,
    {
        match self {
            Units::Px(n) => *n,
            Units::Perc(p) => px_scaled(*p, context.reference_size, 1, 100),
            Units::Vw(p) => px_scaled(*p, context.viewport.0, 1, 100),
            Units::Vh(p) => px_scaled(*p, context.viewport.1, 1, 100),
            Units::Vmin(p) => px_scaled(
                *p,
                px_min(context.viewport.0, context.viewport.1),
                1,
                100,
            ),
            Units::Vmax(p) => px_scaled(
                *p,
                px_max(context.viewport.0, context.viewport.1),
                1,
                100,
            ),
            Units::In(n) => px_scaled(*n, context.dpi, 1, 1),
            Units::Mm(n) => px_scaled(*n, context.dpi, 5, 127),
            Units::Pt(n) => px_scaled(*n, context.dpi, 1, 72),
            Units::Pc(n) => px_scaled(*n, context.dpi, 1, 6),
            Units::Em(n) => px_scaled(*n, context.parent_font_size, 1, 1),
            Units::Rem(n) => px_scaled(*n, context.root_font_size, 1, 1),
            Units::Calc(e) => e.evaluate(context),
            Units::Auto => context.auto,
        }
    }

    /// Whether this length is the `Auto` sentinel.
    pub fn is_auto(&self) -> (r: bool)
        ensures
            r == (*self is Auto),
    {
        match self {
            Units::Auto => true,
            _ => false,
        }
    }
}

impl CalcExpr {
    /// The pixel value of this expression in `ctx`.
    pub open spec fn px(self, ctx: Context) -> int
        decreases self,
    {
        match self {
            CalcExpr::Value(u) => u.px(ctx),
            CalcExpr::Add(l, r) => sat(l.px(ctx) + r.px(ctx)),
            CalcExpr::Sub(l, r) => sat(l.px(ctx) - r.px(ctx)),
            CalcExpr::Mul(l, r) => sat(l.px(ctx) * r.px(ctx)),
            CalcExpr::Div(l, r) => quot(l.px(ctx), r.px(ctx)),
            CalcExpr::Paren(e) => e.px(ctx),
        }
    }

    /// Evaluates this expression to pixels; both sides of an operator are
    /// resolved in the same context.
    pub fn evaluate(&self, context: &Context) -> (r: i64)
        ensures
            r == self.px(*context),
        decreases self,
    {
        match self {
            CalcExpr::Value(u) => u.to_px(context),
            CalcExpr::Add(l, r) => px_add(l.evaluate(context), r.evaluate(context)),
            CalcExpr::Sub(l, r) => px_sub(l.evaluate(context), r.evaluate(context)),
            CalcExpr::Mul(l, r) => px_mul(l.evaluate(context), r.evaluate(context)),
            CalcExpr::Div(l, r) => px_div(l.evaluate(context), r.evaluate(context)),
            CalcExpr::Paren(e) => e.evaluate(context),
        }
    }
}

/// A pixel length resolves to its own amount, whatever the context.
pub proof fn lemma_px_is_context_free(n: i64, a: Context, b: Context)
    ensures
        Units::Px(n).px(a) == n,
        Units::Px(n).px(a) == Units::Px(n).px(b),
{
}

/// A percentage resolves to `p / 100` of the reference size: exactly when
/// `p * R` is a multiple of 100 and the result is in range, and otherwise
/// truncated toward zero and saturated.
pub proof fn lemma_percent_of_reference(p: i64, ctx: Context)
    ensures
        Units::Perc(p).px(ctx) == sat(trunc_div(p * ctx.reference_size, 100)),
        (p * ctx.reference_size) % 100 == 0 && i64::MIN <= (p * ctx.reference_size) / 100
            <= i64::MAX ==> Units::Perc(p).px(ctx) * 100 == p * ctx.reference_size,
{
    let t = p * ctx.reference_size;
    assert(t * 1 == t);
    if t % 100 == 0 && i64::MIN <= t / 100 <= i64::MAX {
        lemma_fundamental_div_mod(t, 100);
        lemma_fundamental_div_mod(-t, 100);
        if t < 0 {
            assert((-t) % 100 == 0) by {
                lemma_mod_multiples_vanish(-1, t, 100);
            }
        }
    }
}

/// The difference of two lengths in `calc()` is the difference of their
/// values, saturated; exactly the difference when it is in range.
pub proof fn lemma_calc_difference(a: Units, b: Units, ctx: Context)
    ensures
        Units::Calc(Box::new(CalcExpr::Sub(Box::new(CalcExpr::Value(a)), Box::new(CalcExpr::Value(b))))).px(ctx)
            == sat(a.px(ctx) - b.px(ctx)),
        i64::MIN <= a.px(ctx) - b.px(ctx) <= i64::MAX ==> Units::Calc(
            Box::new(CalcExpr::Sub(Box::new(CalcExpr::Value(a)), Box::new(CalcExpr::Value(b)))),
        ).px(ctx) == a.px(ctx) - b.px(ctx),
{
    let l = CalcExpr::Value(a);
    let r = CalcExpr::Value(b);
    let d = CalcExpr::Sub(Box::new(l), Box::new(r));
    assert(l.px(ctx) == a.px(ctx));
    assert(r.px(ctx) == b.px(ctx));
    assert(d.px(ctx) == sat(a.px(ctx) - b.px(ctx)));
    assert(Units::Calc(Box::new(d)).px(ctx) == d.px(ctx));
}

/// The difference of any two sub-expressions is the difference of their
/// values, both resolved in the same context, saturated; exactly the
/// difference when it is in range.
pub proof fn lemma_calc_sub_expressions(a: CalcExpr, b: CalcExpr, ctx: Context)
    ensures
        CalcExpr::Sub(Box::new(a), Box::new(b)).px(ctx) == sat(a.px(ctx) - b.px(ctx)),
        i64::MIN <= a.px(ctx) - b.px(ctx) <= i64::MAX ==> CalcExpr::Sub(Box::new(a), Box::new(b)).px(
            ctx,
        ) == a.px(ctx) - b.px(ctx),
{
}

/// `Auto` stands for the fallback that the context carries.
pub proof fn lemma_auto_passes_through(ctx: Context)
    ensures
        Units::Auto.px(ctx) == ctx.auto,
{
}

} // verus!
