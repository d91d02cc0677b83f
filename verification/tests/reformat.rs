use rink_core::ast::{BinOpType, DateToken, Degree, Function, Numeric};
use rink_core::expr::Expr;
use rink_core::span::FmtToken;

/// Renders the spans of `expr` with a `<kind>` tag wherever the kind of
/// token changes, starting from plain text.
fn render(expr: &Expr) -> String {
    let mut string = String::new();
    let mut last_token = FmtToken::Plain;
    for span in expr.to_spans() {
        if span.token != last_token {
            string.push('<');
            string.push_str(span.token.as_str());
            string.push('>');
            last_token = span.token;
        }
        string.push_str(&span.text);
    }
    string
}

fn unit(name: &str) -> Expr {
    Expr::new_unit(name.to_string())
}

fn num(x: i64) -> Expr {
    Expr::new_const(Numeric::new(x))
}

#[test]
fn test_temperature() {
    let cases = [
        (Degree::Celsius, "<number>5<plain> °C"),
        (Degree::Fahrenheit, "<number>5<plain> °F"),
        (Degree::Newton, "<number>5<plain> °N"),
        (Degree::Reaumur, "<number>5<plain> °Ré"),
        (Degree::Romer, "<number>5<plain> °Rø"),
        (Degree::Delisle, "<number>5<plain> °De"),
    ];
    for (degree, expected) in cases {
        assert_eq!(render(&Expr::new_suffix(degree, num(5))), expected);
    }
}

#[test]
fn test_expressions() {
    assert_eq!(
        render(&Expr::new_add(unit("foot"), unit("inch"))),
        "<unit>foot<plain> + <unit>inch"
    );
    assert_eq!(render(&Expr::new_plus(unit("inch"))), "+<unit>inch");
    assert_eq!(
        render(&Expr::new_mul(vec![unit("foot"), unit("foot")])),
        "<unit>foot<plain> <unit>foot"
    );
    assert_eq!(
        render(&Expr::new_of("density", unit("water"))),
        "<prop_name>density<plain> <keyword>of<plain> <unit>water"
    );
    assert_eq!(render(&Expr::new_plus(num(1))), "+<number>1");
    assert_eq!(
        render(&Expr::new_pow(unit("centimeter"), num(3))),
        "<unit>centimeter<plain>^<number>3"
    );
    assert_eq!(
        render(&Expr::new_call(
            Function::Tan,
            vec![Expr::new_mul(vec![num(1), unit("degree")])]
        )),
        "tan(<number>1<plain> <unit>degree<plain>)"
    );
}

#[test]
fn test_canonicalizations() {
    assert_eq!(render(&unit("c")), "<unit>c");
}

#[test]
fn test_dates() {
    let tokens = vec![
        DateToken::Literal("jan".to_string()),
        DateToken::Space,
        DateToken::Number("01".to_string(), None),
        DateToken::Literal(",".to_string()),
        DateToken::Space,
        DateToken::Number("1970".to_string(), None),
    ];
    assert_eq!(
        render(&Expr::Date { tokens }),
        "<date_time>#jan 01, 1970#"
    );
}

#[test]
fn test_unaryop_prec() {
    // LHS
    assert_eq!(
        render(&Expr::new_pow(Expr::new_negate(num(5)), num(2))),
        "(-<number>5<plain>)^<number>2"
    );
    assert_eq!(
        render(&Expr::new_mul(vec![
            num(5),
            Expr::new_pow(Expr::new_negate(num(1)), num(2))
        ])),
        "<number>5<plain> * (-<number>1<plain>)^<number>2"
    );
    assert_eq!(
        render(&Expr::new_pow(Expr::new_negate(unit("meter")), num(2))),
        "(-<unit>meter<plain>)^<number>2"
    );

    // RHS
    assert_eq!(
        render(&Expr::new_pow(num(5), Expr::new_negate(num(2)))),
        "<number>5<plain>^(-<number>2<plain>)"
    );
    assert_eq!(
        render(&Expr::new_pow(unit("meter"), Expr::new_negate(num(1)))),
        "<unit>meter<plain>^(-<number>1<plain>)"
    );
}

#[test]
fn test_associativity_prec() {
    assert_eq!(
        render(&Expr::new_sub(num(1), Expr::new_sub(num(2), num(3)))),
        "<number>1<plain> - (<number>2<plain> - <number>3<plain>)"
    );
    assert_eq!(
        render(&Expr::new_sub(num(1), Expr::new_add(num(2), num(3)))),
        "<number>1<plain> - (<number>2<plain> + <number>3<plain>)"
    );
    assert_eq!(
        render(&Expr::new_frac(num(1), Expr::new_frac(num(2), num(3)))),
        "<number>1<plain> / (<number>2<plain> / <number>3<plain>)"
    );
    assert_eq!(
        render(&Expr::new_frac(
            num(10),
            Expr::new_frac(unit("meter"), unit("second"))
        )),
        "<number>10<plain> / (<unit>meter<plain> / <unit>second<plain>)"
    );
    assert_eq!(
        render(&Expr::new_bin(
            BinOpType::ShiftL,
            num(5),
            Expr::new_bin(BinOpType::ShiftL, num(2), num(1))
        )),
        "<number>5<plain> << (<number>2<plain> << <number>1<plain>)"
    );
    assert_eq!(
        render(&Expr::new_bin(
            BinOpType::ShiftR,
            num(5),
            Expr::new_bin(BinOpType::ShiftR, num(2), num(1))
        )),
        "<number>5<plain> >> (<number>2<plain> >> <number>1<plain>)"
    );
    assert_eq!(
        render(&Expr::new_bin(
            BinOpType::And,
            num(5),
            Expr::new_bin(BinOpType::Or, num(2), num(1))
        )),
        "<number>5<plain> and (<number>2<plain> or <number>1<plain>)"
    );
}

#[test]
fn test_mul_juxt_or_not() {
    assert_eq!(
        render(&Expr::new_frac(
            num(5),
            Expr::new_mul(vec![unit("meter"), unit("second")])
        )),
        "<number>5<plain> / <unit>meter<plain> <unit>second"
    );
    assert_eq!(
        render(&Expr::new_frac(
            num(5),
            Expr::new_mul(vec![num(2), unit("meter"), unit("second")])
        )),
        "<number>5<plain> / <number>2<plain> <unit>meter<plain> <unit>second"
    );
    assert_eq!(
        render(&Expr::new_frac(num(5), Expr::new_mul(vec![num(2), num(3)]))),
        "<number>5<plain> / (<number>2<plain> * <number>3<plain>)"
    );
}
