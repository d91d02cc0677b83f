//! Expression trees and their printer.

use vstd::prelude::*;

use crate::ast::{BinOpType, DateToken, Degree, Function, Numeric, UnaryOpType};

verus! {

/// A binary operator applied to two operands.
#[derive(Debug, PartialEq)]
pub struct BinOpExpr {
    pub op: BinOpType,
    pub left: Box<Expr>,
    pub right: Box<Expr>,
}

/// A prefix or suffix operator applied to one operand.
#[derive(Debug, PartialEq)]
pub struct UnaryOpExpr {
    pub op: UnaryOpType,
    pub expr: Box<Expr>,
}

/// An expression of the query language.
#[derive(Debug, PartialEq)]
pub enum Expr {
    /// A unit name.
    Unit { name: String },
    /// A quoted string.
    Quote { string: String },
    /// A number.
    Const { value: Numeric },
    /// A date literal.
    Date { tokens: Vec<DateToken> },
    /// A binary operation.
    BinOp(BinOpExpr),
    /// A prefix or suffix operation.
    UnaryOp(UnaryOpExpr),
    /// A product of several factors.
    Mul { exprs: Vec<Expr> },
    /// A property of a substance, as in `density of water`.
    Of { property: String, expr: Box<Expr> },
    /// A call of a built-in function.
    Call { func: Function, args: Vec<Expr> },
    /// An expression that could not be read, with a message.
    Error { message: String },
}

impl Expr {
    /// The number `value`.
    pub fn new_const(value: Numeric) -> (r: Expr)
        ensures
            r == (Expr::Const { value }),
    {
        Expr::Const { value }
    }

    /// An error with the given message.
    pub fn new_error(message: String) -> (r: Expr)
        ensures
            r == (Expr::Error { message }),
    {
        Expr::Error { message }
    }

    /// The unit called `name`.
    pub fn new_unit(name: String) -> (r: Expr)
        ensures
            r == (Expr::Unit { name }),
    {
        Expr::Unit { name }
    }

    /// A call of `func` on `args`.
    pub fn new_call(func: Function, args: Vec<Expr>) -> (r: Expr)
        ensures
            r == (Expr::Call { func, args }),
    {
        Expr::Call { func, args }
    }

    /// The product of `exprs`; a product of one factor is that factor.
    pub fn new_mul(exprs: Vec<Expr>) -> (r: Expr)
        ensures
            exprs.len() == 1 ==> r == exprs@[0],
            exprs.len() != 1 ==> r == (Expr::Mul { exprs }),
    {
        let mut exprs = exprs;
        if exprs.len() == 1 {
            exprs.pop().unwrap()
        } else {
            Expr::Mul { exprs }
        }
    }

    /// The operator `op` applied to `numer` and `denom`.
    pub fn new_bin(op: BinOpType, numer: Expr, denom: Expr) -> (r: Expr)
        ensures
            r == Expr::BinOp(BinOpExpr { op, left: Box::new(numer), right: Box::new(denom) }),
    {
        let left = Box::new(numer);
        let right = Box::new(denom);
        Expr::BinOp(BinOpExpr { op, left, right })
    }

    /// The sum `numer + denom`.
    pub fn new_add(numer: Expr, denom: Expr) -> (r: Expr)
        ensures
            r == Expr::BinOp(BinOpExpr { op: BinOpType::Add, left: Box::new(numer), right: Box::new(denom) }),
    {
        Expr::new_bin(BinOpType::Add, numer, denom)
    }

    /// The difference `numer - denom`.
    pub fn new_sub(numer: Expr, denom: Expr) -> (r: Expr)
        ensures
            r == Expr::BinOp(BinOpExpr { op: BinOpType::Sub, left: Box::new(numer), right: Box::new(denom) }),
    {
        Expr::new_bin(BinOpType::Sub, numer, denom)
    }

    /// The quotient `numer / denom`.
    pub fn new_frac(numer: Expr, denom: Expr) -> (r: Expr)
        ensures
            r == Expr::BinOp(BinOpExpr { op: BinOpType::Frac, left: Box::new(numer), right: Box::new(denom) }),
    {
        Expr::new_bin(BinOpType::Frac, numer, denom)
    }

    /// The power `numer ^ denom`.
    pub fn new_pow(numer: Expr, denom: Expr) -> (r: Expr)
        ensures
            r == Expr::BinOp(BinOpExpr { op: BinOpType::Pow, left: Box::new(numer), right: Box::new(denom) }),
    {
        Expr::new_bin(BinOpType::Pow, numer, denom)
    }

    /// The equation `numer = denom`.
    pub fn new_equals(numer: Expr, denom: Expr) -> (r: Expr)
        ensures
            r == Expr::BinOp(BinOpExpr { op: BinOpType::Equals, left: Box::new(numer), right: Box::new(denom) }),
    {
        Expr::new_bin(BinOpType::Equals, numer, denom)
    }

    /// The property `property` of `expr`.
    pub fn new_of(property: &str, expr: Expr) -> (r: Expr)
        ensures
            r matches Expr::Of { property: p, expr: e } && p@ == property@ && *e == expr,
    {
        let property = property.to_owned();
        let expr = Box::new(expr);
        Expr::Of { property, expr }
    }

    /// The operator `op` applied to `expr`.
    pub fn new_unary(op: UnaryOpType, expr: Expr) -> (r: Expr)
        ensures
            r == Expr::UnaryOp(UnaryOpExpr { op, expr: Box::new(expr) }),
    {
        let expr = Box::new(expr);
        Expr::UnaryOp(UnaryOpExpr { op, expr })
    }

    /// `expr` in degrees of the scale `suffix`.
    pub fn new_suffix(suffix: Degree, expr: Expr) -> (r: Expr)
        ensures
            r == Expr::UnaryOp(UnaryOpExpr { op: UnaryOpType::Degree(suffix), expr: Box::new(expr) }),
    {
        let op = UnaryOpType::Degree(suffix);
        Expr::new_unary(op, expr)
    }

    /// `expr` with a leading `+`.
    pub fn new_plus(expr: Expr) -> (r: Expr)
        ensures
            r == Expr::UnaryOp(UnaryOpExpr { op: UnaryOpType::Positive, expr: Box::new(expr) }),
    {
        Expr::new_unary(UnaryOpType::Positive, expr)
    }

    /// `expr` with a leading `-`.
    pub fn new_negate(expr: Expr) -> (r: Expr)
        ensures
            r == Expr::UnaryOp(UnaryOpExpr { op: UnaryOpType::Negative, expr: Box::new(expr) }),
    {
        Expr::new_unary(UnaryOpType::Negative, expr)
    }
}


/// Whether `b` is the same expression as `a`: the same variant, with equal
/// texts, numbers and operators, and operands that are in turn the same.
pub open spec fn same_expr(a: Expr, b: Expr) -> bool
    decreases a, 0nat,
{
    match a {
        Expr::Unit { name } => b matches Expr::Unit { name: n } && n@ == name@,
        Expr::Quote { string } => b matches Expr::Quote { string: s } && s@ == string@,
        Expr::Const { value } => b matches Expr::Const { value: v } && v == value,
        Expr::Date { tokens } => b matches Expr::Date { tokens: t } && t@ == tokens@,
        Expr::BinOp(x) => b matches Expr::BinOp(y) && x.op == y.op && same_expr(*x.left, *y.left)
            && same_expr(*x.right, *y.right),
        Expr::UnaryOp(x) => b matches Expr::UnaryOp(y) && x.op == y.op && same_expr(
            *x.expr,
            *y.expr,
        ),
        Expr::Mul { exprs } => {
            proof {
                assert(decreases_to!(a => exprs@));
            }
            b matches Expr::Mul { exprs: t } && t@.len() == exprs@.len() && same_prefix(
                exprs@,
                t@,
                exprs@.len(),
            )
        },
        Expr::Of { property, expr } => b matches Expr::Of { property: p, expr: x } && p@
            == property@ && same_expr(*expr, *x),
        Expr::Call { func, args } => {
            proof {
                assert(decreases_to!(a => args@));
            }
            b matches Expr::Call { func: f, args: t } && f == func && t@.len() == args@.len()
                && same_prefix(args@, t@, args@.len())
        },
        Expr::Error { message } => b matches Expr::Error { message: m } && m@ == message@,
    }
}

/// Whether the first `n` expressions of `t` are the same as those of `s`.
pub open spec fn same_prefix(s: Seq<Expr>, t: Seq<Expr>, n: nat) -> bool
    decreases s, n,
{
    if n == 0 || n > s.len() || n > t.len() {
        n == 0
    } else {
        same_prefix(s, t, (n - 1) as nat) && same_expr(s[n - 1], t[n - 1])
    }
}

/// The `k`-th expression of a prefix that is the same is the same.
pub proof fn lemma_same_prefix_at(s: Seq<Expr>, t: Seq<Expr>, n: nat, k: int)
    requires
        same_prefix(s, t, n),
        0 <= k < n,
    ensures
        same_expr(s[k], t[k]),
    decreases n,
{
    if k < n - 1 {
        lemma_same_prefix_at(s, t, (n - 1) as nat, k);
    }
}

proof fn lemma_same_prefix_extend(s: Seq<Expr>, t: Seq<Expr>, u: Seq<Expr>, n: nat)
    requires
        same_prefix(s, t, n),
        n <= u.len(),
        forall|k: int| 0 <= k < n ==> t[k] == u[k],
    ensures
        same_prefix(s, u, n),
    decreases n,
{
    if n > 0 {
        lemma_same_prefix_extend(s, t, u, (n - 1) as nat);
    }
}

/// A deep copy of `e`.
fn clone_expr(e: &Expr) -> (r: Expr)
    ensures
        same_expr(*e, r),
    decreases e,
{
    match e {
        Expr::Unit { name } => Expr::Unit { name: name.clone() },
        Expr::Quote { string } => Expr::Quote { string: string.clone() },
        Expr::Const { value } => Expr::Const { value: *value },
        Expr::Date { tokens } => Expr::Date { tokens: tokens.clone() },
        Expr::BinOp(b) => Expr::BinOp(
            BinOpExpr {
                op: b.op,
                left: Box::new(clone_expr(&b.left)),
                right: Box::new(clone_expr(&b.right)),
            },
        ),
        Expr::UnaryOp(u) => Expr::UnaryOp(
            UnaryOpExpr { op: u.op, expr: Box::new(clone_expr(&u.expr)) },
        ),
        Expr::Mul { exprs } => Expr::Mul { exprs: clone_exprs(exprs) },
        Expr::Of { property, expr } => Expr::Of {
            property: property.clone(),
            expr: Box::new(clone_expr(expr)),
        },
        Expr::Call { func, args } => Expr::Call { func: *func, args: clone_exprs(args) },
        Expr::Error { message } => Expr::Error { message: message.clone() },
    }
}

/// A deep copy of each of `exprs`.
fn clone_exprs(exprs: &Vec<Expr>) -> (r: Vec<Expr>)
    ensures
        r@.len() == exprs@.len(),
        same_prefix(exprs@, r@, exprs@.len()),
    decreases exprs,
{
    let mut res: Vec<Expr> = Vec::new();
    let mut i: usize = 0;
    while i < exprs.len()
        invariant
            i <= exprs.len(),
            res@.len() == i,
            same_prefix(exprs@, res@, i as nat),
        decreases exprs.len() - i,
    {
        proof {
            assert(decreases_to!(exprs => exprs@[i as int]));
        }
        let c = clone_expr(&exprs[i]);
        let ghost before = res@;
        res.push(c);
        proof {
            lemma_same_prefix_extend(exprs@, before, res@, i as nat);
        }
        i = i + 1;
    }
    res
}

/// Two expressions that are the same have the same variant, equal texts,
/// numbers, date pieces, operators and functions, the same number of
/// factors or arguments, and operands that are in turn the same.
pub proof fn lemma_same_expr_fields(a: Expr, b: Expr)
    requires
        same_expr(a, b),
    ensures
        a matches Expr::Unit { name } ==> (b matches Expr::Unit { name: n } && n@ == name@),
        a matches Expr::Quote { string } ==> (b matches Expr::Quote { string: s } && s@ == string@),
        a matches Expr::Const { value } ==> (b matches Expr::Const { value: v } && v == value),
        a matches Expr::Date { tokens } ==> (b matches Expr::Date { tokens: t } && t@ == tokens@),
        a matches Expr::Error { message } ==> (b matches Expr::Error { message: m } && m@
            == message@),
        a matches Expr::BinOp(x) ==> (b matches Expr::BinOp(y) && y.op == x.op && same_expr(
            *x.left,
            *y.left,
        ) && same_expr(*x.right, *y.right)),
        a matches Expr::UnaryOp(x) ==> (b matches Expr::UnaryOp(y) && y.op == x.op && same_expr(
            *x.expr,
            *y.expr,
        )),
        a matches Expr::Of { property, expr } ==> (b matches Expr::Of { property: p, expr: x }
            && p@ == property@ && same_expr(*expr, *x)),
        a matches Expr::Mul { exprs } ==> (b matches Expr::Mul { exprs: t } && t@.len()
            == exprs@.len() && forall|i: int|
            0 <= i < exprs@.len() ==> #[trigger] same_expr(exprs@[i], t@[i])),
        a matches Expr::Call { func, args } ==> (b matches Expr::Call { func: f, args: t } && f
            == func && t@.len() == args@.len() && forall|i: int|
            0 <= i < args@.len() ==> #[trigger] same_expr(args@[i], t@[i])),
{
    match a {
        Expr::Mul { exprs } => match b {
            Expr::Mul { exprs: t } => {
                assert forall|i: int| 0 <= i < exprs@.len() implies #[trigger] same_expr(
                    exprs@[i],
                    t@[i],
                ) by {
                    lemma_same_prefix_at(exprs@, t@, exprs@.len(), i);
                }
            },
            _ => {},
        },
        Expr::Call { func, args } => match b {
            Expr::Call { func: f, args: t } => {
                assert forall|i: int| 0 <= i < args@.len() implies #[trigger] same_expr(
                    args@[i],
                    t@[i],
                ) by {
                    lemma_same_prefix_at(args@, t@, args@.len(), i);
                }
            },
            _ => {},
        },
        _ => {},
    }
}

impl Clone for Expr {
    /// A deep copy: the same variant with equal texts, numbers, date pieces,
    /// operators and functions, and operands that are in turn deep copies.
    fn clone(&self) -> (r: Self)
        ensures
            same_expr(*self, r),
            *self matches Expr::Unit { name } ==> (r matches Expr::Unit { name: n } && n@ == name@),
            *self matches Expr::Quote { string } ==> (r matches Expr::Quote { string: s } && s@
                == string@),
            *self matches Expr::Const { value } ==> (r matches Expr::Const { value: v } && v
                == value),
            *self matches Expr::Date { tokens } ==> (r matches Expr::Date { tokens: t } && t@
                == tokens@),
            *self matches Expr::Error { message } ==> (r matches Expr::Error { message: m } && m@
                == message@),
            *self matches Expr::BinOp(x) ==> (r matches Expr::BinOp(y) && y.op == x.op),
            *self matches Expr::UnaryOp(x) ==> (r matches Expr::UnaryOp(y) && y.op == x.op),
            *self matches Expr::Of { property, expr } ==> (r matches Expr::Of {
                property: p,
                expr: x,
            } && p@ == property@),
            *self matches Expr::Mul { exprs } ==> (r matches Expr::Mul { exprs: t } && t@.len()
                == exprs@.len()),
            *self matches Expr::Call { func, args } ==> (r matches Expr::Call { func: f, args: t }
                && f == func && t@.len() == args@.len()),
    {
        let r = clone_expr(self);
        proof {
            lemma_same_expr_fields(*self, r);
        }
        r
    }
}

impl Clone for BinOpExpr {
    /// A deep copy.
    fn clone(&self) -> (r: Self)
        ensures
            r.op == self.op,
            same_expr(*self.left, *r.left),
            same_expr(*self.right, *r.right),
    {
        BinOpExpr {
            op: self.op,
            left: Box::new(clone_expr(&self.left)),
            right: Box::new(clone_expr(&self.right)),
        }
    }
}

impl Clone for UnaryOpExpr {
    /// A deep copy.
    fn clone(&self) -> (r: Self)
        ensures
            r.op == self.op,
            same_expr(*self.expr, *r.expr),
    {
        UnaryOpExpr { op: self.op, expr: Box::new(clone_expr(&self.expr)) }
    }
}


/// How loosely an operator binds, from tightest (`Term`) to loosest
/// (`Equals`). An operand printed where the context asks for a tighter
/// level than its own operator has is put in parentheses.
#[derive(PartialOrd, Ord, PartialEq, Eq, Clone, Copy, Debug, Structural)]
pub enum Precedence {
    Term,
    Plus,
    Pow,
    Mul,
    Div,
    Add,
    Equals,
}

impl Precedence {
    /// The position of this level, from the tightest (0) to the loosest.
    pub open spec fn rank(self) -> nat {
        match self {
            Precedence::Term => 0,
            Precedence::Plus => 1,
            Precedence::Pow => 2,
            Precedence::Mul => 3,
            Precedence::Div => 4,
            Precedence::Add => 5,
            Precedence::Equals => 6,
        }
    }

    /// The position of this level, from the tightest (0) to the loosest.
    pub fn level(self) -> (r: u8)
        ensures
            r == self.rank(),
    {
        match self {
            Precedence::Term => 0,
            Precedence::Plus => 1,
            Precedence::Pow => 2,
            Precedence::Mul => 3,
            Precedence::Div => 4,
            Precedence::Add => 5,
            Precedence::Equals => 6,
        }
    }

    /// Whether this level binds more tightly than `other`.
    pub open spec fn tighter(self, other: Precedence) -> bool {
        self.rank() < other.rank()
    }

    /// The level of the operator `op` itself.
    pub open spec fn of_op(op: BinOpType) -> Precedence {
        match op {
            BinOpType::Add => Precedence::Add,
            BinOpType::Sub => Precedence::Add,
            BinOpType::Pow => Precedence::Pow,
            BinOpType::Frac => Precedence::Div,
            BinOpType::ShiftL => Precedence::Div,
            BinOpType::ShiftR => Precedence::Div,
            BinOpType::Mod => Precedence::Div,
            BinOpType::And => Precedence::Div,
            BinOpType::Or => Precedence::Div,
            BinOpType::Xor => Precedence::Div,
            BinOpType::Equals => Precedence::Equals,
        }
    }

    /// The level at which the left operand of `op` is printed.
    pub open spec fn left_of_op(op: BinOpType) -> Precedence {
        match op {
            BinOpType::Sub => Precedence::Div,
            BinOpType::Pow => Precedence::Term,
            BinOpType::Frac => Precedence::Mul,
            BinOpType::ShiftL => Precedence::Mul,
            BinOpType::ShiftR => Precedence::Mul,
            BinOpType::Mod => Precedence::Mul,
            BinOpType::And => Precedence::Mul,
            BinOpType::Or => Precedence::Mul,
            BinOpType::Xor => Precedence::Mul,
            BinOpType::Equals => Precedence::Add,
            BinOpType::Add => Precedence::Add,
        }
    }

    /// The level at which the right operand of `op` is printed.
    pub open spec fn right_of_op(op: BinOpType) -> Precedence {
        match op {
            BinOpType::Pow => Precedence::Term,
            BinOpType::Sub => Precedence::Div,
            BinOpType::Frac => Precedence::Mul,
            BinOpType::ShiftL => Precedence::Mul,
            BinOpType::ShiftR => Precedence::Mul,
            BinOpType::Mod => Precedence::Mul,
            BinOpType::And => Precedence::Mul,
            BinOpType::Or => Precedence::Mul,
            BinOpType::Xor => Precedence::Mul,
            BinOpType::Equals => Precedence::Add,
            BinOpType::Add => Precedence::Add,
        }
    }

    /// The level of the operator `binop_type`.
    pub fn from(binop_type: BinOpType) -> (r: Precedence)
        ensures
            r == Precedence::of_op(binop_type),
    {
        match binop_type {
            BinOpType::Add => Precedence::Add,
            BinOpType::Sub => Precedence::Add,
            BinOpType::Pow => Precedence::Pow,
            BinOpType::Frac => Precedence::Div,
            BinOpType::ShiftL => Precedence::Div,
            BinOpType::ShiftR => Precedence::Div,
            BinOpType::Mod => Precedence::Div,
            BinOpType::And => Precedence::Div,
            BinOpType::Or => Precedence::Div,
            BinOpType::Xor => Precedence::Div,
            BinOpType::Equals => Precedence::Equals,
        }
    }

    /// The level at which the left operand of `binop_type` is printed;
    /// one tighter than the operator itself unless the operator is `+`.
    pub fn left(binop_type: BinOpType) -> (r: Precedence)
        ensures
            r == Precedence::left_of_op(binop_type),
    {
        match binop_type {
            BinOpType::Sub => Precedence::Div,
            BinOpType::Pow => Precedence::Term,
            BinOpType::Frac => Precedence::Mul,
            BinOpType::ShiftL => Precedence::Mul,
            BinOpType::ShiftR => Precedence::Mul,
            BinOpType::Mod => Precedence::Mul,
            BinOpType::And => Precedence::Mul,
            BinOpType::Or => Precedence::Mul,
            BinOpType::Xor => Precedence::Mul,
            BinOpType::Equals => Precedence::Add,
            BinOpType::Add => Precedence::Add,
        }
    }

    /// The level at which the right operand of `binop_type` is printed;
    /// one tighter than the operator itself unless the operator is `+`.
    pub fn right(binop_type: BinOpType) -> (r: Precedence)
        ensures
            r == Precedence::right_of_op(binop_type),
    {
        match binop_type {
            BinOpType::Pow => Precedence::Term,
            BinOpType::Sub => Precedence::Div,
            BinOpType::Frac => Precedence::Mul,
            BinOpType::ShiftL => Precedence::Mul,
            BinOpType::ShiftR => Precedence::Mul,
            BinOpType::Mod => Precedence::Mul,
            BinOpType::And => Precedence::Mul,
            BinOpType::Or => Precedence::Mul,
            BinOpType::Xor => Precedence::Mul,
            BinOpType::Equals => Precedence::Add,
            BinOpType::Add => Precedence::Add,
        }
    }
}


impl From<i64> for Expr {
    /// The number `x`.
    fn from(x: i64) -> (r: Self) {
        Expr::new_const(Numeric::new(x))
    }
}

impl vstd::std_specs::convert::FromSpecImpl<i64> for Expr {
    open spec fn obeys_from_spec() -> bool {
        true
    }

    open spec fn from_spec(v: i64) -> Self {
        Expr::Const { value: Numeric { value: v } }
    }
}

} // verus!
