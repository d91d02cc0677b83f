use rink_core::ast::{BinOpType, DateToken, Degree, Function, Numeric, UnaryOpType};
use rink_core::expr::{BinOpExpr, Expr, Precedence, UnaryOpExpr};
use rink_core::span::{spans_to_string, FmtToken, Span};

fn unit(name: &str) -> Expr {
    Expr::new_unit(name.to_string())
}

fn num(x: i64) -> Expr {
    Expr::from(x)
}

fn texts(expr: &Expr) -> Vec<(FmtToken, String)> {
    expr.to_spans().into_iter().map(|s| (s.token, s.text)).collect()
}

fn plain(t: &str) -> (FmtToken, String) {
    (FmtToken::Plain, t.to_string())
}

#[test]
fn error_expression_is_three_error_spans() {
    let e = Expr::new_error("Expected term, got `/`".to_string());
    assert_eq!(
        texts(&e),
        vec![
            (FmtToken::Error, "<error: ".to_string()),
            (FmtToken::Error, "Expected term, got `/`".to_string()),
            (FmtToken::Error, ">".to_string()),
        ]
    );
    assert_eq!(e.to_string(), "<error: Expected term, got `/`>");
}

#[test]
fn quote_is_a_unit_span_in_single_quotes() {
    let e = Expr::Quote { string: "US/Pacific".to_string() };
    assert_eq!(texts(&e), vec![(FmtToken::Unit, "'US/Pacific'".to_string())]);
}

#[test]
fn numbers_print_as_decimal_numerals() {
    assert_eq!(num(0).to_string(), "0");
    assert_eq!(num(1970).to_string(), "1970");
    assert_eq!(num(-42).to_string(), "-42");
    assert_eq!(num(i64::MIN).to_string(), "-9223372036854775808");
    assert_eq!(num(i64::MAX).to_string(), "9223372036854775807");
    assert_eq!(texts(&num(7)), vec![(FmtToken::Number, "7".to_string())]);
    assert_eq!(Numeric::new(12).to_text(), "12");
}

#[test]
fn from_builds_a_constant() {
    assert_eq!(Expr::from(3), Expr::new_const(Numeric::new(3)));
}

#[test]
fn new_mul_of_one_factor_is_that_factor() {
    assert_eq!(Expr::new_mul(vec![unit("meter")]), unit("meter"));
    assert_eq!(
        Expr::new_mul(vec![unit("meter"), unit("second")]),
        Expr::Mul { exprs: vec![unit("meter"), unit("second")] }
    );
    assert_eq!(Expr::new_mul(vec![]), Expr::Mul { exprs: vec![] });
}

#[test]
fn empty_product_prints_nothing() {
    assert_eq!(texts(&Expr::new_mul(vec![])), vec![]);
}

#[test]
fn constructors_build_their_variants() {
    assert_eq!(
        Expr::new_add(num(1), num(2)),
        Expr::BinOp(BinOpExpr { op: BinOpType::Add, left: Box::new(num(1)), right: Box::new(num(2)) })
    );
    assert_eq!(
        Expr::new_equals(num(1), num(2)),
        Expr::new_bin(BinOpType::Equals, num(1), num(2))
    );
    assert_eq!(
        Expr::new_negate(num(1)),
        Expr::UnaryOp(UnaryOpExpr { op: UnaryOpType::Negative, expr: Box::new(num(1)) })
    );
    assert_eq!(
        Expr::new_suffix(Degree::Celsius, num(1)),
        Expr::new_unary(UnaryOpType::Degree(Degree::Celsius), num(1))
    );
    assert_eq!(
        Expr::new_of("density", unit("water")),
        Expr::Of { property: "density".to_string(), expr: Box::new(unit("water")) }
    );
}

#[test]
fn equation_and_modulo_symbols() {
    assert_eq!(Expr::new_equals(unit("a"), num(2)).to_string(), "a = 2");
    assert_eq!(Expr::new_bin(BinOpType::Mod, num(7), num(2)).to_string(), "7 mod 2");
    assert_eq!(Expr::new_bin(BinOpType::Xor, num(7), num(2)).to_string(), "7 xor 2");
}

#[test]
fn call_arguments_are_separated_by_commas() {
    let e = Expr::new_call(Function::Atan2, vec![num(1), Expr::new_add(num(2), num(3))]);
    assert_eq!(e.to_string(), "atan2(1, 2 + 3)");
    assert_eq!(Expr::new_call(Function::Sqrt, vec![]).to_string(), "sqrt()");
}

#[test]
fn property_in_a_product_is_parenthesized() {
    let e = Expr::new_mul(vec![num(2), Expr::new_of("density", unit("water"))]);
    assert_eq!(e.to_string(), "2 * (density of water)");
}

#[test]
fn temperature_is_never_juxtaposed() {
    let t = Expr::new_suffix(Degree::Celsius, num(5));
    let e = Expr::new_mul(vec![num(2), t]);
    assert_eq!(e.to_string(), "2 * (5 °C)");
    let e = Expr::new_frac(Expr::new_suffix(Degree::Fahrenheit, num(5)), unit("second"));
    assert_eq!(e.to_string(), "5 °F / second");
    let e = Expr::new_pow(Expr::new_suffix(Degree::Fahrenheit, num(5)), num(2));
    assert_eq!(e.to_string(), "(5 °F)^2");
}

#[test]
fn power_with_numeric_exponent_counts_as_its_base() {
    // m^2 s juxtaposes: m^2 stands for m
    let e = Expr::new_mul(vec![Expr::new_pow(unit("meter"), num(2)), unit("second")]);
    assert_eq!(e.to_string(), "meter^2 second");
    // s m^-1 juxtaposes too: a sign is looked through
    let e = Expr::new_mul(vec![unit("second"), Expr::new_pow(unit("meter"), Expr::new_negate(num(1)))]);
    assert_eq!(e.to_string(), "second meter^(-1)");
    // a unit exponent does not count
    let e = Expr::new_mul(vec![num(2), Expr::new_pow(unit("meter"), unit("x"))]);
    assert_eq!(e.to_string(), "2 * meter^x");
}

#[test]
fn same_operator_operands_keep_parentheses_except_addition() {
    let e = Expr::new_add(num(1), Expr::new_add(num(2), num(3)));
    assert_eq!(e.to_string(), "1 + 2 + 3");
    let e = Expr::new_sub(Expr::new_sub(num(1), num(2)), num(3));
    assert_eq!(e.to_string(), "(1 - 2) - 3");
    let e = Expr::new_pow(Expr::new_pow(num(1), num(2)), num(3));
    assert_eq!(e.to_string(), "(1^2)^3");
}

#[test]
fn parentheses_are_balanced_in_a_deep_expression() {
    let e = Expr::new_frac(
        Expr::new_pow(Expr::new_negate(Expr::new_sub(num(1), num(2))), num(2)),
        Expr::new_mul(vec![num(2), num(3), Expr::new_call(Function::Ln, vec![unit("x")])]),
    );
    let s = e.to_string();
    assert_eq!(s, "(-(1 - 2))^2 / (2 * 3 * ln(x))");
    let mut depth = 0i32;
    for span in e.to_spans() {
        if span.token == FmtToken::Plain && span.text == "(" {
            depth += 1;
        }
        if span.token == FmtToken::Plain && span.text == ")" {
            depth -= 1;
        }
        assert!(depth >= 0);
    }
    assert_eq!(depth, 0);
}

#[test]
fn date_tokens_text() {
    let tokens = vec![
        DateToken::Number("12".to_string(), Some("5".to_string())),
        DateToken::Colon,
        DateToken::Dash,
        DateToken::Plus,
        DateToken::Error("bad".to_string()),
    ];
    assert_eq!(Expr::Date { tokens }.to_string(), "#12.5:-+<bad>#");
}

#[test]
fn precedence_tables() {
    assert!(Precedence::from(BinOpType::Sub) == Precedence::Add);
    assert!(Precedence::left(BinOpType::Sub) == Precedence::Div);
    assert!(Precedence::right(BinOpType::Pow) == Precedence::Term);
    assert!(Precedence::left(BinOpType::Equals) == Precedence::Add);
    assert!(Precedence::from(BinOpType::Xor) == Precedence::Div);
    assert!(Precedence::Term < Precedence::Equals);
    assert_eq!(Precedence::Mul.level(), 3);
}

#[test]
fn spans_to_string_concatenates() {
    let spans = vec![Span::new(FmtToken::Unit, "a"), Span::new(FmtToken::Plain, " b")];
    assert_eq!(spans_to_string(&spans), "a b");
}

#[test]
fn clone_is_a_deep_copy() {
    let e = Expr::new_call(Function::Hypot, vec![num(3), Expr::new_mul(vec![num(4), unit("m")])]);
    let c = e.clone();
    assert_eq!(c, e);
    assert_eq!(c.to_string(), e.to_string());
}

#[test]
fn names_of_tokens_functions_and_degrees() {
    assert_eq!(FmtToken::PropName.as_str(), "prop_name");
    assert_eq!(Function::Log10.name(), "log10");
    assert_eq!(Degree::Romer.as_str(), "°Rø");
    assert_eq!(BinOpType::ShiftL.symbol(), " << ");
}

#[test]
fn operands_bind_at_least_as_tightly_as_their_operator() {
    let ops = [
        BinOpType::Add,
        BinOpType::Sub,
        BinOpType::Frac,
        BinOpType::Pow,
        BinOpType::Equals,
        BinOpType::ShiftL,
        BinOpType::ShiftR,
        BinOpType::Mod,
        BinOpType::And,
        BinOpType::Or,
        BinOpType::Xor,
    ];
    for op in ops {
        let own = Precedence::from(op).level();
        assert!(Precedence::left(op).level() <= own);
        assert!(Precedence::right(op).level() <= own);
        assert_eq!(Precedence::left(op).level() == own, op == BinOpType::Add);
        assert_eq!(Precedence::right(op).level() == own, op == BinOpType::Add);
    }
}

#[test]
fn sign_and_of_parenthesized_only_in_tighter_contexts() {
    // a sign binds like Pow: kept bare as a factor (and looked through when
    // deciding on juxtaposition), wrapped as a base
    let e = Expr::new_mul(vec![num(2), Expr::new_negate(unit("x"))]);
    assert_eq!(e.to_string(), "2 -x");
    let e = Expr::new_pow(Expr::new_negate(unit("x")), num(2));
    assert_eq!(e.to_string(), "(-x)^2");
    // a property binds like Add: bare as an addend, wrapped in a quotient
    let e = Expr::new_add(Expr::new_of("mass", unit("earth")), num(1));
    assert_eq!(e.to_string(), "mass of earth + 1");
    let e = Expr::new_frac(Expr::new_of("mass", unit("earth")), num(2));
    assert_eq!(e.to_string(), "(mass of earth) / 2");
}
