//! The printer: an expression as a sequence of tagged text spans, with
//! parentheses only where the precedence of the context asks for them.

use vstd::prelude::*;

use crate::ast::{
    binop_symbol, date_text, decimal_text, degree_text, function_name, push_date_text, BinOpType,
    UnaryOpType,
};
use crate::expr::{BinOpExpr, Expr, Precedence};
use crate::span::{push_span, push_string, span_views, spans_text, spans_to_string, FmtToken, Span};

verus! {

/// The expression that stands for `e` when deciding whether two factors of
/// a product can be written side by side: a unit or a number stands for
/// itself, a sign is looked through, a power with a numeric exponent stands
/// for its base, and anything else (a temperature among them) has none.
pub open spec fn terminal(e: Expr) -> Option<Expr>
    decreases e,
{
    match e {
        Expr::Unit { .. } => Some(e),
        Expr::Const { .. } => Some(e),
        Expr::UnaryOp(u) => match u.op {
            UnaryOpType::Degree(_) => None,
            _ => terminal(*u.expr),
        },
        Expr::BinOp(b) => if b.op == BinOpType::Pow && terminal(*b.right) matches Some(
            Expr::Const { .. },
        ) {
            Some(*b.left)
        } else {
            None
        },
        _ => None,
    }
}

fn as_terminal(expr: &Expr) -> (r: Option<&Expr>)
    ensures
        r is None <==> terminal(*expr) is None,
        r matches Some(t) ==> terminal(*expr) == Some(*t),
    decreases expr,
{
    match expr {
        Expr::Unit { .. } => Some(expr),
        Expr::Const { .. } => Some(expr),
        Expr::UnaryOp(unary) => {
            if let UnaryOpType::Degree(_) = unary.op {
                None
            } else {
                as_terminal(&*unary.expr)
            }
        },
        Expr::BinOp(BinOpExpr { op: BinOpType::Pow, left, right }) => {
            if let Some(Expr::Const { .. }) = as_terminal(right) {
                Some(left)
            } else {
                None
            }
        },
        _ => None,
    }
}

/// Whether the factors `left` and `right` of a product are written side by
/// side (`2 m`, `m s`) rather than with a `*` between them: so it is when
/// `right` stands for a unit and `left` for a unit or a number.
pub open spec fn juxtaposes(left: Expr, right: Expr) -> bool {
    &&& terminal(right) matches Some(r) && r is Unit
    &&& terminal(left) matches Some(l) && (l is Unit || l is Const)
}

fn should_use_juxt(left: &Expr, right: &Expr) -> (r: bool)
    ensures
        r == juxtaposes(*left, *right),
{
    let left = as_terminal(left);
    let right = as_terminal(right);
    match (left, right) {
        (Some(Expr::Unit { .. }), Some(Expr::Unit { .. })) => true,
        (Some(Expr::Const { .. }), Some(Expr::Unit { .. })) => true,
        _ => false,
    }
}

/// A plain span with the text `t`.
pub open spec fn plain(t: Seq<char>) -> (FmtToken, Seq<char>) {
    (FmtToken::Plain, t)
}

/// `s` between a plain `(` and a plain `)` when `cond` holds, else `s`.
pub open spec fn parens_if(cond: bool, s: Seq<(FmtToken, Seq<char>)>) -> Seq<(FmtToken, Seq<char>)> {
    if cond {
        seq![plain("("@)] + s + seq![plain(")"@)]
    } else {
        s
    }
}

/// Whether the factors at `k` and `k + 1` are written side by side.
pub open spec fn pair_juxtaposes(exprs: Seq<Expr>, k: int) -> bool {
    juxtaposes(exprs[k], exprs[k + 1])
}

/// Whether every two neighbouring factors of a product are written side by side.
pub open spec fn all_juxtaposed(exprs: Seq<Expr>) -> bool {
    forall|k: int| 0 <= k < exprs.len() - 1 ==> #[trigger] pair_juxtaposes(exprs, k)
}

/// The level of a product: a product written entirely side by side binds
/// like `Mul`, one with a `*` in it like `Div`.
pub open spec fn product_level(exprs: Seq<Expr>) -> Precedence {
    if all_juxtaposed(exprs) {
        Precedence::Mul
    } else {
        Precedence::Div
    }
}

/// What stands between two neighbouring factors of a product.
pub open spec fn factor_sep(left: Expr, right: Expr) -> Seq<(FmtToken, Seq<char>)> {
    if juxtaposes(left, right) {
        seq![plain(" "@)]
    } else {
        seq![plain(" "@), plain("*"@), plain(" "@)]
    }
}

/// The spans of `e` printed where the context asks for the level `prec`.
pub open spec fn expr_spans(e: Expr, prec: Precedence) -> Seq<(FmtToken, Seq<char>)>
    decreases e, 0nat,
{
    match e {
        Expr::Unit { name } => seq![(FmtToken::Unit, name@)],
        Expr::Quote { string } => seq![(FmtToken::Unit, "'"@ + string@ + "'"@)],
        Expr::Const { value } => seq![(FmtToken::Number, decimal_text(value.value as int))],
        Expr::Date { tokens } => seq![(FmtToken::DateTime, "#"@ + date_text(tokens@) + "#"@)],
        Expr::BinOp(b) => parens_if(
            prec.tighter(Precedence::of_op(b.op)),
            expr_spans(*b.left, Precedence::left_of_op(b.op)) + seq![plain(binop_symbol(b.op))]
                + expr_spans(*b.right, Precedence::right_of_op(b.op)),
        ),
        Expr::UnaryOp(u) => match u.op {
            UnaryOpType::Positive => parens_if(
                prec.tighter(Precedence::Pow),
                seq![plain("+"@)] + expr_spans(*u.expr, Precedence::Plus),
            ),
            UnaryOpType::Negative => parens_if(
                prec.tighter(Precedence::Pow),
                seq![plain("-"@)] + expr_spans(*u.expr, Precedence::Plus),
            ),
            UnaryOpType::Degree(d) => parens_if(
                prec.tighter(Precedence::Mul),
                expr_spans(*u.expr, Precedence::Mul) + seq![plain(" "@), plain(degree_text(d))],
            ),
        },
        Expr::Mul { exprs } => {
            proof {
                assert(decreases_to!(e => exprs@));
            }
            parens_if(
                prec.tighter(product_level(exprs@)),
                product_spans(exprs@, exprs@.len()),
            )
        },
        Expr::Call { func, args } => {
            proof {
                assert(decreases_to!(e => args@));
            }
            seq![plain(function_name(func)), plain("("@)] + arg_spans(args@, args@.len())
                + seq![plain(")"@)]
        },
        Expr::Of { property, expr } => parens_if(
            prec.tighter(Precedence::Add),
            seq![
                (FmtToken::PropName, property@),
                plain(" "@),
                (FmtToken::Keyword, "of"@),
                plain(" "@),
            ] + expr_spans(*expr, Precedence::Div),
        ),
        Expr::Error { message } => seq![
            (FmtToken::Error, "<error: "@),
            (FmtToken::Error, message@),
            (FmtToken::Error, ">"@),
        ],
    }
}

/// The spans of the first `n` factors of a product, each printed at the
/// level `Pow`, with their separators.
pub open spec fn product_spans(exprs: Seq<Expr>, n: nat) -> Seq<(FmtToken, Seq<char>)>
    decreases exprs, n,
{
    if n == 0 || n > exprs.len() {
        Seq::empty()
    } else if n == 1 {
        expr_spans(exprs[0], Precedence::Pow)
    } else {
        product_spans(exprs, (n - 1) as nat) + factor_sep(exprs[n - 2], exprs[n - 1])
            + expr_spans(exprs[n - 1], Precedence::Pow)
    }
}

/// The spans of the first `n` arguments of a call, each printed at the
/// level `Equals`, separated by `, `.
pub open spec fn arg_spans(args: Seq<Expr>, n: nat) -> Seq<(FmtToken, Seq<char>)>
    decreases args, n,
{
    if n == 0 || n > args.len() {
        Seq::empty()
    } else if n == 1 {
        expr_spans(args[0], Precedence::Equals)
    } else {
        arg_spans(args, (n - 1) as nat) + seq![plain(", "@)] + expr_spans(
            args[n - 1],
            Precedence::Equals,
        )
    }
}


fn to_spans_impl(out: &mut Vec<Span>, expr: &Expr, prec: Precedence)
    ensures
        span_views(final(out)@) == span_views(old(out)@) + expr_spans(*expr, prec),
    decreases expr,
{
    let ghost v0 = span_views(out@);
    match expr {
        Expr::Unit { name } => push_span(out, FmtToken::Unit, name.as_str()),
        Expr::Quote { string } => {
            let mut text = String::from_str("'");
            text.append(string.as_str());
            text.append("'");
            push_string(out, FmtToken::Unit, text);
            assert(span_views(out@) =~= v0 + expr_spans(*expr, prec));
        },
        Expr::Const { value } => push_string(out, FmtToken::Number, value.to_text()),
        Expr::Date { tokens } => {
            let mut res = String::new();
            res.append("#");
            push_date_text(&mut res, tokens);
            res.append("#");
            push_string(out, FmtToken::DateTime, res);
            assert(span_views(out@) =~= v0 + expr_spans(*expr, prec));
        },
        Expr::BinOp(binop) => {
            let op_prec = Precedence::from(binop.op);
            let wrap = prec.level() < op_prec.level();
            if wrap {
                push_span(out, FmtToken::Plain, "(");
            }
            to_spans_impl(out, &binop.left, Precedence::left(binop.op));
            push_span(out, FmtToken::Plain, binop.op.symbol());
            to_spans_impl(out, &binop.right, Precedence::right(binop.op));
            if wrap {
                push_span(out, FmtToken::Plain, ")");
            }
        },
        Expr::UnaryOp(unaryop) => match unaryop.op {
            UnaryOpType::Positive => {
                let wrap = prec.level() < Precedence::Pow.level();
                if wrap {
                    push_span(out, FmtToken::Plain, "(");
                }
                push_span(out, FmtToken::Plain, "+");
                to_spans_impl(out, &unaryop.expr, Precedence::Plus);
                if wrap {
                    push_span(out, FmtToken::Plain, ")");
                }
            },
            UnaryOpType::Negative => {
                let wrap = prec.level() < Precedence::Pow.level();
                if wrap {
                    push_span(out, FmtToken::Plain, "(");
                }
                push_span(out, FmtToken::Plain, "-");
                to_spans_impl(out, &unaryop.expr, Precedence::Plus);
                if wrap {
                    push_span(out, FmtToken::Plain, ")");
                }
            },
            UnaryOpType::Degree(suffix) => {
                let wrap = prec.level() < Precedence::Mul.level();
                if wrap {
                    push_span(out, FmtToken::Plain, "(");
                }
                to_spans_impl(out, &unaryop.expr, Precedence::Mul);
                push_span(out, FmtToken::Plain, " ");
                push_span(out, FmtToken::Plain, suffix.as_str());
                if wrap {
                    push_span(out, FmtToken::Plain, ")");
                }
            },
        },
        Expr::Mul { exprs } => {
            product_to_spans(out, exprs, prec);
        },
        Expr::Call { func, args } => {
            push_span(out, FmtToken::Plain, func.name());
            push_span(out, FmtToken::Plain, "(");
            args_to_spans(out, args);
            push_span(out, FmtToken::Plain, ")");
        },
        Expr::Of { property, expr: inner } => {
            let wrap = prec.level() < Precedence::Add.level();
            if wrap {
                push_span(out, FmtToken::Plain, "(");
            }
            push_span(out, FmtToken::PropName, property.as_str());
            push_span(out, FmtToken::Plain, " ");
            push_span(out, FmtToken::Keyword, "of");
            push_span(out, FmtToken::Plain, " ");
            to_spans_impl(out, inner, Precedence::Div);
            if wrap {
                push_span(out, FmtToken::Plain, ")");
            }
        },
        Expr::Error { message } => {
            push_span(out, FmtToken::Error, "<error: ");
            push_span(out, FmtToken::Error, message.as_str());
            push_span(out, FmtToken::Error, ">");
        },
    }
    assert(span_views(out@) =~= v0 + expr_spans(*expr, prec));
}


/// Appends the spans of the product of `exprs` printed at the level `prec`.
fn product_to_spans(out: &mut Vec<Span>, exprs: &Vec<Expr>, prec: Precedence)
    ensures
        span_views(final(out)@) == span_views(old(out)@) + parens_if(
            prec.tighter(product_level(exprs@)),
            product_spans(exprs@, exprs@.len()),
        ),
    decreases exprs,
{
    let ghost v0 = span_views(out@);
    let n = exprs.len();
    let mut use_juxt_for_all = true;
    let mut k: usize = 1;
    while k < n
        invariant
            1 <= k,
            n == exprs@.len(),
            k <= n || k == 1,
            use_juxt_for_all == forall|j: int|
                0 <= j < k - 1 ==> #[trigger] pair_juxtaposes(exprs@, j),
        decreases n - k,
    {
        if !should_use_juxt(&exprs[k - 1], &exprs[k]) {
            use_juxt_for_all = false;
        }
        assert(pair_juxtaposes(exprs@, k - 1) == juxtaposes(exprs@[k - 1], exprs@[k as int]));
        k = k + 1;
    }
    let necessary_prec = if use_juxt_for_all {
        Precedence::Mul
    } else {
        Precedence::Div
    };
    assert(necessary_prec == product_level(exprs@));
    let wrap = prec.level() < necessary_prec.level();
    if wrap {
        push_span(out, FmtToken::Plain, "(");
    }
    let ghost v1 = span_views(out@);
    if n > 0 {
        proof {
            assert(decreases_to!(exprs => exprs@[0]));
        }
        to_spans_impl(out, &exprs[0], Precedence::Pow);
        let mut i: usize = 1;
        while i < n
            invariant
                1 <= i <= n,
                n == exprs@.len(),
                span_views(out@) == v1 + product_spans(exprs@, i as nat),
            decreases n - i,
        {
            let ghost before = span_views(out@);
            if should_use_juxt(&exprs[i - 1], &exprs[i]) {
                push_span(out, FmtToken::Plain, " ");
            } else {
                push_span(out, FmtToken::Plain, " ");
                push_span(out, FmtToken::Plain, "*");
                push_span(out, FmtToken::Plain, " ");
            }
            assert(span_views(out@) =~= before + factor_sep(exprs@[i - 1], exprs@[i as int]));
            proof {
                assert(decreases_to!(exprs => exprs@[i as int]));
            }
            to_spans_impl(out, &exprs[i], Precedence::Pow);
            i = i + 1;
            assert(span_views(out@) =~= v1 + product_spans(exprs@, i as nat));
        }
    } else {
        assert(span_views(out@) =~= v1 + product_spans(exprs@, 0));
    }
    if wrap {
        push_span(out, FmtToken::Plain, ")");
    }
    assert(span_views(out@) =~= v0 + parens_if(
        prec.tighter(product_level(exprs@)),
        product_spans(exprs@, exprs@.len()),
    ));
}

/// Appends the spans of the arguments `args` of a call, separated by `, `.
fn args_to_spans(out: &mut Vec<Span>, args: &Vec<Expr>)
    ensures
        span_views(final(out)@) == span_views(old(out)@) + arg_spans(args@, args@.len()),
    decreases args,
{
    let ghost v1 = span_views(out@);
    let n = args.len();
    if n > 0 {
        proof {
            assert(decreases_to!(args => args@[0]));
        }
        to_spans_impl(out, &args[0], Precedence::Equals);
        let mut i: usize = 1;
        while i < n
            invariant
                1 <= i <= n,
                n == args@.len(),
                span_views(out@) == v1 + arg_spans(args@, i as nat),
            decreases n - i,
        {
            push_span(out, FmtToken::Plain, ", ");
            proof {
                assert(decreases_to!(args => args@[i as int]));
            }
            to_spans_impl(out, &args[i], Precedence::Equals);
            i = i + 1;
            assert(span_views(out@) =~= v1 + arg_spans(args@, i as nat));
        }
    } else {
        assert(span_views(out@) =~= v1 + arg_spans(args@, 0));
    }
}


impl Expr {
    /// The spans of this expression printed on its own.
    pub fn to_spans(&self) -> (r: Vec<Span>)
        ensures
            span_views(r@) == expr_spans(*self, Precedence::Equals),
    {
        let mut res: Vec<Span> = Vec::new();
        assert(span_views(res@) =~= Seq::empty());
        to_spans_impl(&mut res, self, Precedence::Equals);
        assert(span_views(res@) =~= expr_spans(*self, Precedence::Equals));
        res
    }

    /// The text of this expression printed on its own.
    pub fn to_string(&self) -> (r: String)
        ensures
            r@ == spans_text(expr_spans(*self, Precedence::Equals)),
    {
        spans_to_string(&self.to_spans())
    }
}

} // verus!
