use moxui::units::{CalcExpr, Context, Units};

fn context() -> Context {
    Context {
        root_font_size: 16,
        viewport: (1920, 1080),
        parent_font_size: 16,
        reference_size: 200,
        auto: 0,
        dpi: 97,
    }
}

fn evaluate_calc(units: Units) -> i64 {
    match units {
        Units::Calc(expr) => expr.evaluate(&context()),
        _ => panic!("Expected Units::Calc variant"),
    }
}

#[test]
fn test_cal_subtraction() {
    let result = moxui::calc::calc("30px - 10px").unwrap();
    assert_eq!(evaluate_calc(result), 20);
}

#[test]
fn test_cal_multiplication() {
    let result = moxui::calc::calc("5px * 6px").unwrap();
    assert_eq!(evaluate_calc(result), 30);
}

#[test]
fn test_cal_division() {
    let result = moxui::calc::calc("20px / 4px").unwrap();
    assert_eq!(evaluate_calc(result), 5);
}

#[test]
fn test_cal_nested_expression() {
    let result = moxui::calc::calc("(10px + 20px) * 2px").unwrap();
    assert_eq!(evaluate_calc(result), 60);
}

#[test]
fn test_cal_negative_value() {
    let result = moxui::calc::calc("-10px").unwrap();
    assert_eq!(evaluate_calc(result), -10);
}

#[test]
fn test_cal_percentage_addition() {
    let result = moxui::calc::calc(r#""20%" + "30%""#).unwrap();
    assert_eq!(evaluate_calc(result), 100);
}

#[test]
fn test_cal_percentage_of_parent_size() {
    let result = moxui::calc::calc(r#""50%""#).unwrap();
    assert_eq!(evaluate_calc(result), 100);
}

#[test]
fn test_cal_percentage_subtraction() {
    let result = moxui::calc::calc(r#""60%" - "20%""#).unwrap();
    assert_eq!(evaluate_calc(result), 80);
}

#[test]
fn test_cal_percentage_multiplication() {
    let result = moxui::calc::calc(r#""20%" * 2.0"#).unwrap();
    assert_eq!(evaluate_calc(result), 80);
}

#[test]
fn test_cal_percentage_division() {
    let result = moxui::calc::calc(r#""50%" / 2.0"#).unwrap();
    assert_eq!(evaluate_calc(result), 50);
}

#[test]
fn test_cal_vh() {
    let result = moxui::calc::calc("50vh").unwrap();
    assert_eq!(evaluate_calc(result), 540);
}

#[test]
fn test_cal_vw() {
    let result = moxui::calc::calc("25vw").unwrap();
    assert_eq!(evaluate_calc(result), 480);
}

#[test]
fn test_cal_vmin() {
    let result = moxui::calc::calc("10vmin").unwrap();
    assert_eq!(evaluate_calc(result), 108);
}

#[test]
fn test_cal_vmax() {
    let result = moxui::calc::calc("15vmax").unwrap();
    assert_eq!(evaluate_calc(result), 288);
}

#[test]
fn test_cal_combined_vh_vw() {
    let result = moxui::calc::calc("10vh + 20vw").unwrap();
    assert_eq!(evaluate_calc(result), 492);
}

fn tree_of(src: &str) -> String {
    match moxui::calc::calc(src) {
        Some(Units::Calc(e)) => format!("{:?}", e),
        other => format!("{:?}", other),
    }
}

#[test]
fn products_bind_tighter_than_sums() {
    let e = moxui::calc::calc("1px + 2px * 3px").unwrap();
    assert_eq!(evaluate_calc(e), 7);
    let e = moxui::calc::calc("(1px + 2px) * 3px").unwrap();
    assert_eq!(evaluate_calc(e), 9);
}

#[test]
fn operators_associate_to_the_left() {
    assert_eq!(evaluate_calc(moxui::calc::calc("10px - 4px - 3px").unwrap()), 3);
    assert_eq!(evaluate_calc(moxui::calc::calc("64px / 4px / 2px").unwrap()), 8);
}

#[test]
fn negation_reads_as_zero_minus() {
    let want = format!(
        "{:?}",
        CalcExpr::Sub(Box::new(CalcExpr::Value(Units::Px(0))), Box::new(CalcExpr::Value(Units::Px(10))))
    );
    assert_eq!(tree_of("-10px"), want);
}

#[test]
fn spaces_between_tokens_are_optional() {
    assert_eq!(evaluate_calc(moxui::calc::calc("  30px-10px ").unwrap()), 20);
    assert_eq!(evaluate_calc(moxui::calc::calc("\t(\n5px\r)*2.0").unwrap()), 10);
}

#[test]
fn percent_minus_pixels_through_text() {
    let ctx = Context { viewport: (800, 600), dpi: 96, ..context() };
    assert_eq!(moxui::calc::calc(r#""50%" - 25px"#).unwrap().to_px(&ctx), 75);
}

#[test]
fn malformed_text_is_rejected() {
    for bad in [
        "", "10", "10em", "10pxx", "px", "1px +", "(1px", "1px)", "1px 2px", r#""50""#, r#""%""#,
        "2.5", "2.", "1px ^ 2px", "99999999999999999999px", "\u{e9}1px",
    ] {
        assert!(moxui::calc::calc(bad).is_none(), "accepted {:?}", bad);
    }
}

#[test]
fn largest_amount_is_accepted() {
    let e = moxui::calc::calc("9223372036854775807px").unwrap();
    assert_eq!(evaluate_calc(e), i64::MAX);
    assert!(moxui::calc::calc("9223372036854775808px").is_none());
}
