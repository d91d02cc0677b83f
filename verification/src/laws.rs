//! Properties of the printer that hold for every expression.

use vstd::prelude::*;

use crate::ast::{
    binop_symbol, decimal_text, degree_text, function_name, BinOpType, Degree, Function, Numeric,
    UnaryOpType,
};
use crate::expr::{
    lemma_same_prefix_at, same_expr, same_prefix, BinOpExpr, Expr, Precedence, UnaryOpExpr,
};
use crate::print::{
    all_juxtaposed, arg_spans, expr_spans, factor_sep, juxtaposes, pair_juxtaposes, parens_if, plain,
    product_level, product_spans, terminal,
};
use crate::span::FmtToken;

verus! {

/// The loosest level at which `e` is printed without parentheses of its
/// own: that of its operator, `Pow` for a sign, `Mul` for a temperature,
/// the level of a product, `Add` for a property; `Term` for everything that
/// is never put in parentheses.
pub open spec fn own_level(e: Expr) -> Precedence {
    match e {
        Expr::BinOp(b) => Precedence::of_op(b.op),
        Expr::UnaryOp(u) => match u.op {
            UnaryOpType::Degree(_) => Precedence::Mul,
            _ => Precedence::Pow,
        },
        Expr::Mul { exprs } => product_level(exprs@),
        Expr::Of { .. } => Precedence::Add,
        _ => Precedence::Term,
    }
}

/// Each operand of a binary operator is printed at a level at least as
/// tight as the operator's own, and strictly tighter for every operator
/// but `+`, the one operator that is associative.
pub proof fn lemma_operands_bind_tighter(op: BinOpType)
    ensures
        Precedence::left_of_op(op).rank() <= Precedence::of_op(op).rank(),
        Precedence::right_of_op(op).rank() <= Precedence::of_op(op).rank(),
        (Precedence::left_of_op(op) == Precedence::of_op(op)) <==> op == BinOpType::Add,
        (Precedence::right_of_op(op) == Precedence::of_op(op)) <==> op == BinOpType::Add,
{
}

/// Printing `e` where the context asks for the level `prec` gives what
/// printing it on its own gives, in parentheses exactly when `prec` binds
/// more tightly than `e`'s own level.
pub proof fn lemma_parens_exactly_when_needed(e: Expr, prec: Precedence)
    ensures
        expr_spans(e, prec) == parens_if(
            prec.tighter(own_level(e)),
            expr_spans(e, Precedence::Equals),
        ),
{
}

/// An operand that is itself an application of the same binary operator is
/// printed in parentheses, on either side, unless the operator is `+`:
/// `1 - (2 - 3)` keeps its parentheses, `1 + 2 + 3` needs none.
pub proof fn lemma_same_operator_operand(op: BinOpType, a: Expr, b: Expr)
    ensures
        ({
            let inner = Expr::BinOp(BinOpExpr { op, left: Box::new(a), right: Box::new(b) });
            &&& expr_spans(inner, Precedence::left_of_op(op)) == parens_if(
                op != BinOpType::Add,
                expr_spans(inner, Precedence::Equals),
            )
            &&& expr_spans(inner, Precedence::right_of_op(op)) == parens_if(
                op != BinOpType::Add,
                expr_spans(inner, Precedence::Equals),
            )
        }),
{
    let inner = Expr::BinOp(BinOpExpr { op, left: Box::new(a), right: Box::new(b) });
    lemma_parens_exactly_when_needed(inner, Precedence::left_of_op(op));
    lemma_parens_exactly_when_needed(inner, Precedence::right_of_op(op));
}

/// A number is printed, in any context, as the single number span of its
/// decimal numeral.
pub proof fn lemma_number_spans(x: i64, prec: Precedence)
    ensures
        expr_spans(Expr::Const { value: Numeric { value: x } }, prec) == seq![
            (FmtToken::Number, decimal_text(x as int)),
        ],
{
}


/// How a span changes the depth of parentheses: a plain `(` opens one, a
/// plain `)` closes one, anything else leaves it.
pub open spec fn paren_delta(s: (FmtToken, Seq<char>)) -> int {
    if s == plain("("@) {
        1
    } else if s == plain(")"@) {
        -1
    } else {
        0
    }
}

/// The depth of parentheses after the spans `s`.
pub open spec fn paren_depth(s: Seq<(FmtToken, Seq<char>)>) -> int
    decreases s.len(),
{
    if s.len() == 0 {
        0
    } else {
        paren_depth(s.drop_last()) + paren_delta(s.last())
    }
}

/// The plain parentheses of `s` match: no prefix closes more than it opens,
/// and the whole closes all it opens.
pub open spec fn well_nested(s: Seq<(FmtToken, Seq<char>)>) -> bool {
    &&& paren_depth(s) == 0
    &&& forall|i: int| 0 <= i <= s.len() ==> #[trigger] paren_depth(s.take(i)) >= 0
}

proof fn lemma_depth_concat(a: Seq<(FmtToken, Seq<char>)>, b: Seq<(FmtToken, Seq<char>)>)
    ensures
        paren_depth(a + b) == paren_depth(a) + paren_depth(b),
    decreases b.len(),
{
    if b.len() == 0 {
        assert(a + b =~= a);
    } else {
        assert((a + b).drop_last() =~= a + b.drop_last());
        lemma_depth_concat(a, b.drop_last());
    }
}

proof fn lemma_concat_well_nested(a: Seq<(FmtToken, Seq<char>)>, b: Seq<(FmtToken, Seq<char>)>)
    requires
        well_nested(a),
        well_nested(b),
    ensures
        well_nested(a + b),
{
    lemma_depth_concat(a, b);
    assert forall|i: int| 0 <= i <= (a + b).len() implies #[trigger] paren_depth((a + b).take(i)) >= 0 by {
        if i <= a.len() {
            assert((a + b).take(i) =~= a.take(i));
        } else {
            assert((a + b).take(i) =~= a + b.take(i - a.len()));
            assert(a.take(a.len() as int) =~= a);
            lemma_depth_concat(a, b.take(i - a.len()));
        }
    }
}

proof fn lemma_paren_free_depth(s: Seq<(FmtToken, Seq<char>)>)
    requires
        forall|i: int| 0 <= i < s.len() ==> #[trigger] paren_delta(s[i]) == 0,
    ensures
        paren_depth(s) == 0,
    decreases s.len(),
{
    if s.len() > 0 {
        lemma_paren_free_depth(s.drop_last());
    }
}

proof fn lemma_paren_free_well_nested(s: Seq<(FmtToken, Seq<char>)>)
    requires
        forall|i: int| 0 <= i < s.len() ==> #[trigger] paren_delta(s[i]) == 0,
    ensures
        well_nested(s),
{
    lemma_paren_free_depth(s);
    assert forall|i: int| 0 <= i <= s.len() implies #[trigger] paren_depth(s.take(i)) >= 0 by {
        lemma_paren_free_depth(s.take(i));
    }
}

proof fn lemma_parens_if_well_nested(c: bool, s: Seq<(FmtToken, Seq<char>)>)
    requires
        well_nested(s),
    ensures
        well_nested(parens_if(c, s)),
{
    if c {
        lemma_parens_are_parens();
        let open = seq![plain("("@)];
        let close = seq![plain(")"@)];
        let w = open + s + close;
        assert(parens_if(c, s) == w);
        assert(paren_depth(open) == 1) by {
            assert(open.drop_last() =~= Seq::<(FmtToken, Seq<char>)>::empty());
            assert(paren_depth(open.drop_last()) == 0);
        }
        assert(paren_depth(close) == -1) by {
            assert(close.drop_last() =~= Seq::<(FmtToken, Seq<char>)>::empty());
            assert(paren_depth(close.drop_last()) == 0);
        }
        lemma_depth_concat(open, s);
        lemma_depth_concat(open + s, close);
        assert forall|i: int| 0 <= i <= w.len() implies #[trigger] paren_depth(w.take(i)) >= 0 by {
            if i == 0 {
                assert(w.take(i) =~= Seq::<(FmtToken, Seq<char>)>::empty());
            } else if i <= s.len() + 1 {
                assert(w.take(i) =~= open + s.take(i - 1));
                lemma_depth_concat(open, s.take(i - 1));
            } else {
                assert(w.take(i) =~= w);
            }
        }
    }
}

proof fn lemma_not_paren(t: Seq<char>)
    requires
        t.len() != 1 || (t[0] != '(' && t[0] != ')'),
    ensures
        paren_delta(plain(t)) == 0,
{
    lemma_parens_are_parens();
}

proof fn lemma_parens_are_parens()
    ensures
        "("@.len() == 1 && "("@[0] == '(',
        ")"@.len() == 1 && ")"@[0] == ')',
        paren_delta(plain("("@)) == 1,
        paren_delta(plain(")"@)) == -1,
{
    reveal_strlit("(");
    reveal_strlit(")");
    assert("("@.len() == 1 && "("@[0] == '(');
    assert(")"@.len() == 1 && ")"@[0] == ')');
}

/// No plain text that the printer writes, but for its parentheses, is a
/// parenthesis.
proof fn lemma_plain_texts_paren_free(op: BinOpType, f: Function, d: Degree)
    ensures
        paren_delta(plain(binop_symbol(op))) == 0,
        paren_delta(plain(function_name(f))) == 0,
        paren_delta(plain(degree_text(d))) == 0,
        paren_delta(plain(" "@)) == 0,
        paren_delta(plain("*"@)) == 0,
        paren_delta(plain(", "@)) == 0,
        paren_delta(plain("+"@)) == 0,
        paren_delta(plain("-"@)) == 0,
{
    match op {
        BinOpType::Add => {
            reveal_strlit(" + ");
            assert(" + "@.len() == 3);
            lemma_not_paren(" + "@);
        },
        BinOpType::Sub => {
            reveal_strlit(" - ");
            assert(" - "@.len() == 3);
            lemma_not_paren(" - "@);
        },
        BinOpType::Frac => {
            reveal_strlit(" / ");
            assert(" / "@.len() == 3);
            lemma_not_paren(" / "@);
        },
        BinOpType::Pow => {
            reveal_strlit("^");
            assert("^"@.len() == 1 && "^"@[0] == '^');
            lemma_not_paren("^"@);
        },
        BinOpType::Equals => {
            reveal_strlit(" = ");
            assert(" = "@.len() == 3);
            lemma_not_paren(" = "@);
        },
        BinOpType::ShiftL => {
            reveal_strlit(" << ");
            assert(" << "@.len() == 4);
            lemma_not_paren(" << "@);
        },
        BinOpType::ShiftR => {
            reveal_strlit(" >> ");
            assert(" >> "@.len() == 4);
            lemma_not_paren(" >> "@);
        },
        BinOpType::Mod => {
            reveal_strlit(" mod ");
            assert(" mod "@.len() == 5);
            lemma_not_paren(" mod "@);
        },
        BinOpType::And => {
            reveal_strlit(" and ");
            assert(" and "@.len() == 5);
            lemma_not_paren(" and "@);
        },
        BinOpType::Or => {
            reveal_strlit(" or ");
            assert(" or "@.len() == 4);
            lemma_not_paren(" or "@);
        },
        BinOpType::Xor => {
            reveal_strlit(" xor ");
            assert(" xor "@.len() == 5);
            lemma_not_paren(" xor "@);
        },
    }
    match f {
        Function::Sqrt => {
            reveal_strlit("sqrt");
            assert("sqrt"@.len() == 4);
            lemma_not_paren("sqrt"@);
        },
        Function::Exp => {
            reveal_strlit("exp");
            assert("exp"@.len() == 3);
            lemma_not_paren("exp"@);
        },
        Function::Ln => {
            reveal_strlit("ln");
            assert("ln"@.len() == 2);
            lemma_not_paren("ln"@);
        },
        Function::Log => {
            reveal_strlit("log");
            assert("log"@.len() == 3);
            lemma_not_paren("log"@);
        },
        Function::Log2 => {
            reveal_strlit("log2");
            assert("log2"@.len() == 4);
            lemma_not_paren("log2"@);
        },
        Function::Log10 => {
            reveal_strlit("log10");
            assert("log10"@.len() == 5);
            lemma_not_paren("log10"@);
        },
        Function::Hypot => {
            reveal_strlit("hypot");
            assert("hypot"@.len() == 5);
            lemma_not_paren("hypot"@);
        },
        Function::Sin => {
            reveal_strlit("sin");
            assert("sin"@.len() == 3);
            lemma_not_paren("sin"@);
        },
        Function::Cos => {
            reveal_strlit("cos");
            assert("cos"@.len() == 3);
            lemma_not_paren("cos"@);
        },
        Function::Tan => {
            reveal_strlit("tan");
            assert("tan"@.len() == 3);
            lemma_not_paren("tan"@);
        },
        Function::Asin => {
            reveal_strlit("asin");
            assert("asin"@.len() == 4);
            lemma_not_paren("asin"@);
        },
        Function::Acos => {
            reveal_strlit("acos");
            assert("acos"@.len() == 4);
            lemma_not_paren("acos"@);
        },
        Function::Atan => {
            reveal_strlit("atan");
            assert("atan"@.len() == 4);
            lemma_not_paren("atan"@);
        },
        Function::Atan2 => {
            reveal_strlit("atan2");
            assert("atan2"@.len() == 5);
            lemma_not_paren("atan2"@);
        },
        Function::Sinh => {
            reveal_strlit("sinh");
            assert("sinh"@.len() == 4);
            lemma_not_paren("sinh"@);
        },
        Function::Cosh => {
            reveal_strlit("cosh");
            assert("cosh"@.len() == 4);
            lemma_not_paren("cosh"@);
        },
        Function::Tanh => {
            reveal_strlit("tanh");
            assert("tanh"@.len() == 4);
            lemma_not_paren("tanh"@);
        },
        Function::Asinh => {
            reveal_strlit("asinh");
            assert("asinh"@.len() == 5);
            lemma_not_paren("asinh"@);
        },
        Function::Acosh => {
            reveal_strlit("acosh");
            assert("acosh"@.len() == 5);
            lemma_not_paren("acosh"@);
        },
        Function::Atanh => {
            reveal_strlit("atanh");
            assert("atanh"@.len() == 5);
            lemma_not_paren("atanh"@);
        },
    }
    match d {
        Degree::Celsius => {
            reveal_strlit("°C");
            assert("°C"@.len() == 2);
            lemma_not_paren("°C"@);
        },
        Degree::Fahrenheit => {
            reveal_strlit("°F");
            assert("°F"@.len() == 2);
            lemma_not_paren("°F"@);
        },
        Degree::Newton => {
            reveal_strlit("°N");
            assert("°N"@.len() == 2);
            lemma_not_paren("°N"@);
        },
        Degree::Reaumur => {
            reveal_strlit("°Ré");
            assert("°Ré"@.len() == 3);
            lemma_not_paren("°Ré"@);
        },
        Degree::Romer => {
            reveal_strlit("°Rø");
            assert("°Rø"@.len() == 3);
            lemma_not_paren("°Rø"@);
        },
        Degree::Delisle => {
            reveal_strlit("°De");
            assert("°De"@.len() == 3);
            lemma_not_paren("°De"@);
        },
    }
    reveal_strlit(" ");
    assert(" "@.len() == 1 && " "@[0] == ' ');
    lemma_not_paren(" "@);
    reveal_strlit("*");
    assert("*"@.len() == 1 && "*"@[0] == '*');
    lemma_not_paren("*"@);
    reveal_strlit(", ");
    assert(", "@.len() == 2);
    lemma_not_paren(", "@);
    reveal_strlit("+");
    assert("+"@.len() == 1 && "+"@[0] == '+');
    lemma_not_paren("+"@);
    reveal_strlit("-");
    assert("-"@.len() == 1 && "-"@[0] == '-');
    lemma_not_paren("-"@);
}

/// The plain parentheses that the printer writes for `e` are well nested,
/// whatever the context.
pub proof fn lemma_parentheses_well_nested(e: Expr, prec: Precedence)
    ensures
        well_nested(expr_spans(e, prec)),
    decreases e, 0nat,
{
    let s = expr_spans(e, prec);
    match e {
        Expr::BinOp(b) => {
            lemma_plain_texts_paren_free(b.op, Function::Sqrt, Degree::Celsius);
            lemma_parentheses_well_nested(*b.left, Precedence::left_of_op(b.op));
            lemma_parentheses_well_nested(*b.right, Precedence::right_of_op(b.op));
            let sym = seq![plain(binop_symbol(b.op))];
            lemma_paren_free_well_nested(sym);
            let l = expr_spans(*b.left, Precedence::left_of_op(b.op));
            let r = expr_spans(*b.right, Precedence::right_of_op(b.op));
            lemma_concat_well_nested(l, sym);
            lemma_concat_well_nested(l + sym, r);
            lemma_parens_if_well_nested(prec.tighter(Precedence::of_op(b.op)), l + sym + r);
        },
        Expr::UnaryOp(u) => {
            lemma_parentheses_well_nested(*u.expr, Precedence::Plus);
            lemma_parentheses_well_nested(*u.expr, Precedence::Mul);
            match u.op {
                UnaryOpType::Degree(d) => {
                    lemma_plain_texts_paren_free(BinOpType::Add, Function::Sqrt, d);
                    let suffix = seq![plain(" "@), plain(degree_text(d))];
                    lemma_paren_free_well_nested(suffix);
                    lemma_concat_well_nested(expr_spans(*u.expr, Precedence::Mul), suffix);
                    lemma_parens_if_well_nested(
                        prec.tighter(Precedence::Mul),
                        expr_spans(*u.expr, Precedence::Mul) + suffix,
                    );
                },
                UnaryOpType::Positive => {
                    lemma_plain_texts_paren_free(BinOpType::Add, Function::Sqrt, Degree::Celsius);
                    let sign = seq![plain("+"@)];
                    lemma_paren_free_well_nested(sign);
                    lemma_concat_well_nested(sign, expr_spans(*u.expr, Precedence::Plus));
                    lemma_parens_if_well_nested(
                        prec.tighter(Precedence::Pow),
                        sign + expr_spans(*u.expr, Precedence::Plus),
                    );
                },
                UnaryOpType::Negative => {
                    lemma_plain_texts_paren_free(BinOpType::Add, Function::Sqrt, Degree::Celsius);
                    let sign = seq![plain("-"@)];
                    lemma_paren_free_well_nested(sign);
                    lemma_concat_well_nested(sign, expr_spans(*u.expr, Precedence::Plus));
                    lemma_parens_if_well_nested(
                        prec.tighter(Precedence::Pow),
                        sign + expr_spans(*u.expr, Precedence::Plus),
                    );
                },
            }
        },
        Expr::Mul { exprs } => {
            assert(decreases_to!(e => exprs@));
            lemma_product_well_nested(exprs@, exprs@.len());
            lemma_parens_if_well_nested(
                prec.tighter(product_level(exprs@)),
                product_spans(exprs@, exprs@.len()),
            );
        },
        Expr::Call { func, args } => {
            assert(decreases_to!(e => args@));
            lemma_plain_texts_paren_free(BinOpType::Add, func, Degree::Celsius);
            lemma_args_well_nested(args@, args@.len());
            let inner = arg_spans(args@, args@.len());
            let name = seq![plain(function_name(func))];
            lemma_paren_free_well_nested(name);
            lemma_parens_if_well_nested(true, inner);
            lemma_concat_well_nested(name, parens_if(true, inner));
            assert(s =~= name + parens_if(true, inner));
        },
        Expr::Of { property, expr } => {
            lemma_plain_texts_paren_free(BinOpType::Add, Function::Sqrt, Degree::Celsius);
            lemma_parentheses_well_nested(*expr, Precedence::Div);
            let head = seq![
                (FmtToken::PropName, property@),
                plain(" "@),
                (FmtToken::Keyword, "of"@),
                plain(" "@),
            ];
            lemma_paren_free_well_nested(head);
            lemma_concat_well_nested(head, expr_spans(*expr, Precedence::Div));
            lemma_parens_if_well_nested(
                prec.tighter(Precedence::Add),
                head + expr_spans(*expr, Precedence::Div),
            );
        },
        _ => {
            lemma_paren_free_well_nested(s);
        },
    }
}

proof fn lemma_product_well_nested(exprs: Seq<Expr>, n: nat)
    ensures
        well_nested(product_spans(exprs, n)),
    decreases exprs, n,
{
    if n == 0 || n > exprs.len() {
        lemma_paren_free_well_nested(product_spans(exprs, n));
    } else if n == 1 {
        lemma_parentheses_well_nested(exprs[0], Precedence::Pow);
    } else {
        lemma_product_well_nested(exprs, (n - 1) as nat);
        lemma_plain_texts_paren_free(BinOpType::Add, Function::Sqrt, Degree::Celsius);
        let sep = factor_sep(exprs[n - 2], exprs[n - 1]);
        lemma_paren_free_well_nested(sep);
        lemma_parentheses_well_nested(exprs[n - 1], Precedence::Pow);
        lemma_concat_well_nested(product_spans(exprs, (n - 1) as nat), sep);
        lemma_concat_well_nested(
            product_spans(exprs, (n - 1) as nat) + sep,
            expr_spans(exprs[n - 1], Precedence::Pow),
        );
    }
}

proof fn lemma_args_well_nested(args: Seq<Expr>, n: nat)
    ensures
        well_nested(arg_spans(args, n)),
    decreases args, n,
{
    if n == 0 || n > args.len() {
        lemma_paren_free_well_nested(arg_spans(args, n));
    } else if n == 1 {
        lemma_parentheses_well_nested(args[0], Precedence::Equals);
    } else {
        lemma_args_well_nested(args, (n - 1) as nat);
        lemma_plain_texts_paren_free(BinOpType::Add, Function::Sqrt, Degree::Celsius);
        let sep = seq![plain(", "@)];
        lemma_paren_free_well_nested(sep);
        lemma_parentheses_well_nested(args[n - 1], Precedence::Equals);
        lemma_concat_well_nested(arg_spans(args, (n - 1) as nat), sep);
        lemma_concat_well_nested(
            arg_spans(args, (n - 1) as nat) + sep,
            expr_spans(args[n - 1], Precedence::Equals),
        );
    }
}


proof fn lemma_same_terminal(a: Expr, b: Expr)
    requires
        same_expr(a, b),
    ensures
        terminal(a) is None <==> terminal(b) is None,
        terminal(a) matches Some(x) ==> (terminal(b) matches Some(y) && same_expr(x, y)),
    decreases a,
{
    match a {
        Expr::UnaryOp(x) => match b {
            Expr::UnaryOp(y) => {
                lemma_same_terminal(*x.expr, *y.expr);
            },
            _ => {},
        },
        Expr::BinOp(x) => match b {
            Expr::BinOp(y) => {
                lemma_same_terminal(*x.right, *y.right);
            },
            _ => {},
        },
        _ => {},
    }
}

proof fn lemma_same_juxtaposes(a1: Expr, a2: Expr, b1: Expr, b2: Expr)
    requires
        same_expr(a1, b1),
        same_expr(a2, b2),
    ensures
        juxtaposes(a1, a2) == juxtaposes(b1, b2),
{
    lemma_same_terminal(a1, b1);
    lemma_same_terminal(a2, b2);
}

/// Two expressions that are the same, as a deep copy is of its original,
/// print the same spans in every context.
pub proof fn lemma_same_expr_same_spans(a: Expr, b: Expr, prec: Precedence)
    requires
        same_expr(a, b),
    ensures
        expr_spans(a, prec) == expr_spans(b, prec),
    decreases a, 0nat,
{
    match a {
        Expr::BinOp(x) => match b {
            Expr::BinOp(y) => {
                lemma_same_expr_same_spans(*x.left, *y.left, Precedence::left_of_op(x.op));
                lemma_same_expr_same_spans(*x.right, *y.right, Precedence::right_of_op(x.op));
            },
            _ => {},
        },
        Expr::UnaryOp(x) => match b {
            Expr::UnaryOp(y) => {
                lemma_same_expr_same_spans(*x.expr, *y.expr, Precedence::Plus);
                lemma_same_expr_same_spans(*x.expr, *y.expr, Precedence::Mul);
            },
            _ => {},
        },
        Expr::Of { property, expr } => match b {
            Expr::Of { property: p, expr: y } => {
                lemma_same_expr_same_spans(*expr, *y, Precedence::Div);
            },
            _ => {},
        },
        Expr::Mul { exprs } => match b {
            Expr::Mul { exprs: t } => {
                assert(decreases_to!(a => exprs@));
                lemma_same_products(exprs@, t@, exprs@.len());
                assert forall|k: int| 0 <= k < exprs@.len() - 1 implies pair_juxtaposes(exprs@, k)
                    == pair_juxtaposes(t@, k) by {
                    lemma_same_prefix_at(exprs@, t@, exprs@.len(), k);
                    lemma_same_prefix_at(exprs@, t@, exprs@.len(), k + 1);
                    lemma_same_juxtaposes(exprs@[k], exprs@[k + 1], t@[k], t@[k + 1]);
                }
                if all_juxtaposed(exprs@) {
                    assert forall|k: int| 0 <= k < t@.len() - 1 implies #[trigger] pair_juxtaposes(
                        t@,
                        k,
                    ) by {
                        assert(pair_juxtaposes(exprs@, k));
                    }
                }
                if all_juxtaposed(t@) {
                    assert forall|k: int| 0 <= k < exprs@.len() - 1 implies #[trigger] pair_juxtaposes(
                        exprs@,
                        k,
                    ) by {
                        assert(pair_juxtaposes(t@, k));
                    }
                }
                assert(all_juxtaposed(exprs@) == all_juxtaposed(t@));
            },
            _ => {},
        },
        Expr::Call { func, args } => match b {
            Expr::Call { func: f, args: t } => {
                assert(decreases_to!(a => args@));
                lemma_same_args(args@, t@, args@.len());
            },
            _ => {},
        },
        _ => {},
    }
}

proof fn lemma_same_products(s: Seq<Expr>, t: Seq<Expr>, n: nat)
    requires
        s.len() == t.len(),
        n <= s.len(),
        same_prefix(s, t, n),
    ensures
        product_spans(s, n) == product_spans(t, n),
    decreases s, n,
{
    if n >= 1 {
        lemma_same_prefix_at(s, t, n, n - 1);
        lemma_same_expr_same_spans(s[n - 1], t[n - 1], Precedence::Pow);
        if n >= 2 {
            lemma_same_prefix_at(s, t, n, n - 2);
            lemma_same_juxtaposes(s[n - 2], s[n - 1], t[n - 2], t[n - 1]);
            lemma_same_products(s, t, (n - 1) as nat);
        }
    }
}

proof fn lemma_same_args(s: Seq<Expr>, t: Seq<Expr>, n: nat)
    requires
        s.len() == t.len(),
        n <= s.len(),
        same_prefix(s, t, n),
    ensures
        arg_spans(s, n) == arg_spans(t, n),
    decreases s, n,
{
    if n >= 1 {
        lemma_same_prefix_at(s, t, n, n - 1);
        lemma_same_expr_same_spans(s[n - 1], t[n - 1], Precedence::Equals);
        if n >= 2 {
            lemma_same_args(s, t, (n - 1) as nat);
        }
    }
}


/// A product is printed at the level `Mul` (written side by side) exactly
/// when every two neighbouring factors juxtapose, and at the level `Div`
/// (with a `*`) otherwise.
pub proof fn lemma_product_level_iff_all_juxtapose(exprs: Seq<Expr>)
    ensures
        product_level(exprs) == Precedence::Mul <==> (forall|k: int|
            0 <= k < exprs.len() - 1 ==> juxtaposes(#[trigger] exprs[k], exprs[k + 1])),
        product_level(exprs) == Precedence::Mul || product_level(exprs) == Precedence::Div,
{
    if product_level(exprs) == Precedence::Mul {
        assert forall|k: int| 0 <= k < exprs.len() - 1 implies juxtaposes(
            #[trigger] exprs[k],
            exprs[k + 1],
        ) by {
            assert(pair_juxtaposes(exprs, k));
        }
    }
    if forall|k: int| 0 <= k < exprs.len() - 1 ==> juxtaposes(#[trigger] exprs[k], exprs[k + 1]) {
        assert forall|k: int| 0 <= k < exprs.len() - 1 implies #[trigger] pair_juxtaposes(
            exprs,
            k,
        ) by {
            assert(juxtaposes(exprs[k], exprs[k + 1]));
        }
    }
}

/// A product in which some two neighbouring factors do not juxtapose (so a
/// `*` stands between them) is put in parentheses where the context asks
/// for the level `Mul`, as the denominator of a quotient does; a product
/// whose factors all juxtapose is not.
pub proof fn lemma_product_parenthesized_unless_juxtaposed(exprs: Vec<Expr>, prec: Precedence)
    ensures
        (exists|k: int|
            0 <= k < exprs@.len() - 1 && !juxtaposes(#[trigger] exprs@[k], exprs@[k + 1]))
            ==> ({
            let s = expr_spans(Expr::Mul { exprs }, Precedence::Mul);
            &&& s.len() >= 2
            &&& s[0] == plain("("@)
            &&& s.last() == plain(")"@)
            &&& s == parens_if(true, expr_spans(Expr::Mul { exprs }, Precedence::Equals))
        }),
        (forall|k: int|
            0 <= k < exprs@.len() - 1 ==> juxtaposes(#[trigger] exprs@[k], exprs@[k + 1]))
            ==> expr_spans(Expr::Mul { exprs }, Precedence::Mul) == expr_spans(
            Expr::Mul { exprs },
            Precedence::Equals,
        ),
{
    lemma_product_level_iff_all_juxtapose(exprs@);
    let e = Expr::Mul { exprs };
    lemma_parens_exactly_when_needed(e, Precedence::Mul);
}

/// When two factors are written side by side: two units (`m s`), a number
/// before a unit (`2 m`); never before a number or a product, never next to
/// a temperature; a sign is looked through (`2 -x`), and a power of a unit
/// with a numeric exponent counts as that unit (`m^2 s`).
pub proof fn lemma_juxtaposition_cases(
    n1: String,
    n2: String,
    v: Numeric,
    w: Numeric,
    d: Degree,
    l: Expr,
    r: Expr,
    exprs: Vec<Expr>,
)
    ensures
        juxtaposes(Expr::Unit { name: n1 }, Expr::Unit { name: n2 }),
        juxtaposes(Expr::Const { value: v }, Expr::Unit { name: n2 }),
        !juxtaposes(l, Expr::Const { value: v }),
        !juxtaposes(Expr::Unit { name: n1 }, Expr::Const { value: v }),
        !juxtaposes(l, Expr::Mul { exprs }),
        !juxtaposes(l, Expr::UnaryOp(UnaryOpExpr { op: UnaryOpType::Degree(d), expr: Box::new(r) })),
        !juxtaposes(Expr::UnaryOp(UnaryOpExpr { op: UnaryOpType::Degree(d), expr: Box::new(l) }), r),
        juxtaposes(l, Expr::UnaryOp(UnaryOpExpr { op: UnaryOpType::Negative, expr: Box::new(r) }))
            == juxtaposes(l, r),
        juxtaposes(l, Expr::UnaryOp(UnaryOpExpr { op: UnaryOpType::Positive, expr: Box::new(r) }))
            == juxtaposes(l, r),
        juxtaposes(Expr::UnaryOp(UnaryOpExpr { op: UnaryOpType::Negative, expr: Box::new(l) }), r)
            == juxtaposes(l, r),
        juxtaposes(
            Expr::Unit { name: n1 },
            Expr::BinOp(
                BinOpExpr {
                    op: BinOpType::Pow,
                    left: Box::new(Expr::Unit { name: n2 }),
                    right: Box::new(Expr::Const { value: w }),
                },
            ),
        ),
        juxtaposes(
            Expr::BinOp(
                BinOpExpr {
                    op: BinOpType::Pow,
                    left: Box::new(Expr::Unit { name: n1 }),
                    right: Box::new(Expr::Const { value: w }),
                },
            ),
            Expr::Unit { name: n2 },
        ),
{
    assert(terminal(Expr::Const { value: w }) == Some(Expr::Const { value: w }));
}

/// Whether `op` is one of the operators that bind like `/`.
pub open spec fn is_division_like(op: BinOpType) -> bool {
    op == BinOpType::Frac || op == BinOpType::ShiftL || op == BinOpType::ShiftR || op
        == BinOpType::Mod || op == BinOpType::And || op == BinOpType::Or || op == BinOpType::Xor
}

/// `mod`, `<<`, `>>`, `and`, `or` and `xor` bind exactly like `/`: at the
/// level `Div`, which lies between `Mul` and `Add`, with both operands at
/// the level `Mul`. `+` and `-` share the level `Add`, `=` binds loosest,
/// `^` at `Pow` with both operands at `Term`.
pub proof fn lemma_operator_levels(op: BinOpType)
    ensures
        is_division_like(op) ==> Precedence::of_op(op) == Precedence::of_op(BinOpType::Frac)
            && Precedence::left_of_op(op) == Precedence::left_of_op(BinOpType::Frac)
            && Precedence::right_of_op(op) == Precedence::right_of_op(BinOpType::Frac),
        Precedence::of_op(BinOpType::Frac) == Precedence::Div,
        Precedence::left_of_op(BinOpType::Frac) == Precedence::Mul,
        Precedence::right_of_op(BinOpType::Frac) == Precedence::Mul,
        Precedence::Mul.tighter(Precedence::Div) && Precedence::Div.tighter(Precedence::Add),
        Precedence::of_op(BinOpType::Add) == Precedence::of_op(BinOpType::Sub),
        Precedence::of_op(BinOpType::Sub) == Precedence::Add,
        Precedence::of_op(BinOpType::Pow) == Precedence::Pow,
        Precedence::left_of_op(BinOpType::Pow) == Precedence::Term,
        Precedence::right_of_op(BinOpType::Pow) == Precedence::Term,
        op != BinOpType::Equals ==> Precedence::of_op(op).tighter(
            Precedence::of_op(BinOpType::Equals),
        ),
        forall|p: Precedence| !Precedence::Equals.tighter(p),
{
}

/// An operation of a division-like operator (`/`, `mod`, `<<`, ...) or of a
/// looser one, as either operand of a division-like operator, is printed in
/// parentheses: `1 / (7 mod 2)`, `(7 mod 2) / 1`, `1 / (2 + 3)`.
pub proof fn lemma_division_like_operands(op: BinOpType, inner: BinOpExpr, other: Expr)
    requires
        is_division_like(op),
        Precedence::of_op(inner.op).rank() >= Precedence::Div.rank(),
    ensures
        ({
            let i = Expr::BinOp(inner);
            let ispans = seq![plain("("@)] + expr_spans(i, Precedence::Equals) + seq![plain(")"@)];
            &&& expr_spans(
                Expr::BinOp(BinOpExpr { op, left: Box::new(other), right: Box::new(i) }),
                Precedence::Equals,
            ) == expr_spans(other, Precedence::Mul) + seq![plain(binop_symbol(op))] + ispans
            &&& expr_spans(
                Expr::BinOp(BinOpExpr { op, left: Box::new(i), right: Box::new(other) }),
                Precedence::Equals,
            ) == ispans + seq![plain(binop_symbol(op))] + expr_spans(other, Precedence::Mul)
        }),
{
    lemma_operator_levels(op);
    lemma_parens_exactly_when_needed(Expr::BinOp(inner), Precedence::Mul);
}

/// The operand of `of` is printed at the level `Div`: in parentheses when
/// it is a sum, a difference or an equation (`mass of (earth + moon)`), bare
/// otherwise; the whole is in parentheses where the context is tighter than
/// `Add`.
pub proof fn lemma_of_operand(property: String, e: Expr, prec: Precedence)
    ensures
        expr_spans(Expr::Of { property, expr: Box::new(e) }, prec) == parens_if(
            prec.tighter(Precedence::Add),
            seq![
                (FmtToken::PropName, property@),
                plain(" "@),
                (FmtToken::Keyword, "of"@),
                plain(" "@),
            ] + parens_if(Precedence::Div.tighter(own_level(e)), expr_spans(e, Precedence::Equals)),
        ),
        e matches Expr::BinOp(b) ==> (Precedence::Div.tighter(own_level(e)) <==> (b.op
            == BinOpType::Add || b.op == BinOpType::Sub || b.op == BinOpType::Equals)),
{
    lemma_parens_exactly_when_needed(e, Precedence::Div);
}

/// The operand of a temperature is printed at the level `Mul`: in
/// parentheses when it is a sum, difference, quotient or any operation
/// binding more loosely than a product (`(20 + 5) °C`), bare when it is a
/// number, unit, power or sign (`5 °C`); the whole is in parentheses where
/// the context is tighter than `Mul`.
pub proof fn lemma_degree_operand(d: Degree, e: Expr, prec: Precedence)
    ensures
        expr_spans(
            Expr::UnaryOp(UnaryOpExpr { op: UnaryOpType::Degree(d), expr: Box::new(e) }),
            prec,
        ) == parens_if(
            prec.tighter(Precedence::Mul),
            parens_if(Precedence::Mul.tighter(own_level(e)), expr_spans(e, Precedence::Equals))
                + seq![plain(" "@), plain(degree_text(d))],
        ),
        e matches Expr::BinOp(b) ==> (Precedence::Mul.tighter(own_level(e)) <==> b.op
            != BinOpType::Pow),
{
    lemma_parens_exactly_when_needed(e, Precedence::Mul);
}

/// The operand of a sign is printed at the level `Plus`: bare when it is a
/// number or unit (`-5`), in parentheses when it is any operation
/// (`-(2 + 3)`, `-(x^2)`, `-(-x)`).
pub proof fn lemma_sign_operand(neg: bool, e: Expr)
    ensures
        ({
            let op = if neg { UnaryOpType::Negative } else { UnaryOpType::Positive };
            let sign = if neg { "-"@ } else { "+"@ };
            expr_spans(
                Expr::UnaryOp(UnaryOpExpr { op, expr: Box::new(e) }),
                Precedence::Equals,
            ) == seq![plain(sign)] + parens_if(
                Precedence::Plus.tighter(own_level(e)),
                expr_spans(e, Precedence::Equals),
            )
        }),
        (e is BinOp || e is UnaryOp || e is Of) ==> Precedence::Plus.tighter(own_level(e)),
        (e is Unit || e is Const) ==> !Precedence::Plus.tighter(own_level(e)),
{
    lemma_parens_exactly_when_needed(e, Precedence::Plus);
}

} // verus!
