use moxui::units::{CalcExpr, Context, Units};

fn ctx() -> Context {
    Context {
        root_font_size: 16,
        reference_size: 250,
        parent_font_size: 20,
        viewport: (1000, 500),
        auto: 33,
        dpi: 96,
    }
}

#[test]
fn pixels_ignore_the_context() {
    let other = Context { reference_size: 1, dpi: 1, ..ctx() };
    assert_eq!(Units::Px(17).to_px(&ctx()), 17);
    assert_eq!(Units::Px(17).to_px(&other), 17);
    assert_eq!(Units::Px(i64::MIN).to_px(&ctx()), i64::MIN);
}

#[test]
fn percent_of_the_reference() {
    assert_eq!(Units::Perc(40).to_px(&ctx()), 100);
    // 25% of 250 is 62.5, truncated toward zero
    assert_eq!(Units::Perc(25).to_px(&ctx()), 62);
    assert_eq!(Units::Perc(-25).to_px(&ctx()), -62);
}

#[test]
fn auto_is_the_fallback() {
    assert_eq!(Units::Auto.to_px(&ctx()), 33);
    assert!(Units::Auto.is_auto());
    assert!(!Units::Px(0).is_auto());
}

#[test]
fn viewport_units() {
    assert_eq!(Units::Vw(10).to_px(&ctx()), 100);
    assert_eq!(Units::Vh(10).to_px(&ctx()), 50);
    assert_eq!(Units::Vmin(10).to_px(&ctx()), 50);
    assert_eq!(Units::Vmax(10).to_px(&ctx()), 100);
}

#[test]
fn physical_units() {
    assert_eq!(Units::In(2).to_px(&ctx()), 192);
    // 127 mm are 5 inches
    assert_eq!(Units::Mm(127).to_px(&ctx()), 480);
    assert_eq!(Units::Pt(72).to_px(&ctx()), 96);
    assert_eq!(Units::Pc(6).to_px(&ctx()), 96);
}

#[test]
fn font_units() {
    assert_eq!(Units::Em(3).to_px(&ctx()), 60);
    assert_eq!(Units::Rem(3).to_px(&ctx()), 48);
}

#[test]
fn calc_difference_of_two_lengths() {
    let e = Units::Calc(Box::new(CalcExpr::Sub(
        Box::new(CalcExpr::Value(Units::Em(2))),
        Box::new(CalcExpr::Value(Units::Perc(10))),
    )));
    assert_eq!(e.to_px(&ctx()), 40 - 25);
}

#[test]
fn division_by_zero_saturates() {
    let div = |a: i64| {
        Units::Calc(Box::new(CalcExpr::Div(
            Box::new(CalcExpr::Value(Units::Px(a))),
            Box::new(CalcExpr::Value(Units::Px(0))),
        )))
        .to_px(&ctx())
    };
    assert_eq!(div(5), i64::MAX);
    assert_eq!(div(-5), i64::MIN);
    assert_eq!(div(0), 0);
}

#[test]
fn overflow_saturates() {
    let mul = Units::Calc(Box::new(CalcExpr::Mul(
        Box::new(CalcExpr::Value(Units::Px(i64::MAX / 2))),
        Box::new(CalcExpr::Value(Units::Px(-3))),
    )));
    assert_eq!(mul.to_px(&ctx()), i64::MIN);
    assert_eq!(Units::Mm(i64::MAX).to_px(&ctx()), i64::MAX);
    let div = Units::Calc(Box::new(CalcExpr::Div(
        Box::new(CalcExpr::Value(Units::Px(i64::MIN))),
        Box::new(CalcExpr::Value(Units::Px(-1))),
    )));
    assert_eq!(div.to_px(&ctx()), i64::MAX);
}

#[test]
fn division_truncates_toward_zero() {
    let div = |a: i64, b: i64| {
        Units::Calc(Box::new(CalcExpr::Div(
            Box::new(CalcExpr::Value(Units::Px(a))),
            Box::new(CalcExpr::Value(Units::Px(b))),
        )))
        .to_px(&ctx())
    };
    assert_eq!(div(7, 2), 3);
    assert_eq!(div(-7, 2), -3);
    assert_eq!(div(7, -2), -3);
    assert_eq!(div(-7, -2), 3);
}
