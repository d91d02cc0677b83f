//! The leaves and operators that expression trees are built from.

use vstd::prelude::*;

verus! {

/// An exact number, as written in a query.
#[derive(Debug, Clone, Copy, PartialEq, Eq, Structural)]
pub struct Numeric {
    pub value: i64,
}

/// The character of a decimal digit.
pub open spec fn digit_char(d: nat) -> char {
    if d == 0 {
        '0'
    } else if d == 1 {
        '1'
    } else if d == 2 {
        '2'
    } else if d == 3 {
        '3'
    } else if d == 4 {
        '4'
    } else if d == 5 {
        '5'
    } else if d == 6 {
        '6'
    } else if d == 7 {
        '7'
    } else if d == 8 {
        '8'
    } else {
        '9'
    }
}

/// The decimal digits of `n`, most significant first, without leading zeros
/// (`0` is the single digit `0`).
pub open spec fn decimal_digits(n: nat) -> Seq<char>
    decreases n,
{
    if n < 10 {
        seq![digit_char(n)]
    } else {
        decimal_digits(n / 10).push(digit_char(n % 10))
    }
}

/// The decimal numeral of `v`, with a leading `-` when it is negative.
pub open spec fn decimal_text(v: int) -> Seq<char> {
    if v < 0 {
        seq!['-'] + decimal_digits((-v) as nat)
    } else {
        decimal_digits(v as nat)
    }
}

/// The one-character text of the digit `d`.
fn digit_str(d: u64) -> (r: &'static str)
    requires
        d < 10,
    ensures
        r@ == seq![digit_char(d as nat)],
{
    if d == 0 {
        proof { reveal_strlit("0"); }
        "0"
    } else if d == 1 {
        proof { reveal_strlit("1"); }
        "1"
    } else if d == 2 {
        proof { reveal_strlit("2"); }
        "2"
    } else if d == 3 {
        proof { reveal_strlit("3"); }
        "3"
    } else if d == 4 {
        proof { reveal_strlit("4"); }
        "4"
    } else if d == 5 {
        proof { reveal_strlit("5"); }
        "5"
    } else if d == 6 {
        proof { reveal_strlit("6"); }
        "6"
    } else if d == 7 {
        proof { reveal_strlit("7"); }
        "7"
    } else if d == 8 {
        proof { reveal_strlit("8"); }
        "8"
    } else {
        proof { reveal_strlit("9"); }
        "9"
    }
}

/// Appends the decimal digits of `n` to `s`.
fn push_digits(s: &mut String, n: u64)
    ensures
        final(s)@ == old(s)@ + decimal_digits(n as nat),
    decreases n,
{
    if n >= 10 {
        push_digits(s, n / 10);
    }
    s.append(digit_str(n % 10));
    proof {
        if n >= 10 {
            assert(decimal_digits(n as nat) == decimal_digits((n / 10) as nat).push(digit_char((n % 10) as nat)));
        }
    }
}

/// The magnitude of `v`.
fn magnitude(v: i64) -> (r: u64)
    ensures
        r as int == if v < 0 { -v } else { v as int },
{
    if v < 0 {
        if v == i64::MIN {
            9223372036854775808u64
        } else {
            (-v) as u64
        }
    } else {
        v as u64
    }
}

impl Numeric {
    /// The number `value`.
    pub fn new(value: i64) -> (r: Numeric)
        ensures
            r.value == value,
    {
        Numeric { value }
    }

    /// The decimal numeral of this number.
    pub fn to_text(&self) -> (r: String)
        ensures
            r@ == decimal_text(self.value as int),
    {
        let mut s = String::new();
        if self.value < 0 {
            s.append("-");
            proof { reveal_strlit("-"); }
        }
        push_digits(&mut s, magnitude(self.value));
        s
    }
}


/// A temperature scale whose degrees can follow a number, as in `5 °C`.
#[derive(Debug, Clone, Copy, PartialEq, Eq, Structural)]
pub enum Degree {
    Celsius,
    Fahrenheit,
    Newton,
    Reaumur,
    Romer,
    Delisle,
}

/// The suffix that names a temperature scale.
pub open spec fn degree_text(d: Degree) -> Seq<char> {
    match d {
        Degree::Celsius => "°C"@,
        Degree::Fahrenheit => "°F"@,
        Degree::Newton => "°N"@,
        Degree::Reaumur => "°Ré"@,
        Degree::Romer => "°Rø"@,
        Degree::Delisle => "°De"@,
    }
}

impl Degree {
    /// The suffix that names this temperature scale.
    pub fn as_str(&self) -> (r: &'static str)
        ensures
            r@ == degree_text(*self),
    {
        match self {
            Degree::Celsius => "°C",
            Degree::Fahrenheit => "°F",
            Degree::Newton => "°N",
            Degree::Reaumur => "°Ré",
            Degree::Romer => "°Rø",
            Degree::Delisle => "°De",
        }
    }
}

/// A built-in function of the query language.
#[derive(Debug, Clone, Copy, PartialEq, Eq, Structural)]
pub enum Function {
    Sqrt,
    Exp,
    Ln,
    Log,
    Log2,
    Log10,
    Hypot,
    Sin,
    Cos,
    Tan,
    Asin,
    Acos,
    Atan,
    Atan2,
    Sinh,
    Cosh,
    Tanh,
    Asinh,
    Acosh,
    Atanh,
}

/// The name under which a built-in function is called.
pub open spec fn function_name(f: Function) -> Seq<char> {
    match f {
        Function::Sqrt => "sqrt"@,
        Function::Exp => "exp"@,
        Function::Ln => "ln"@,
        Function::Log => "log"@,
        Function::Log2 => "log2"@,
        Function::Log10 => "log10"@,
        Function::Hypot => "hypot"@,
        Function::Sin => "sin"@,
        Function::Cos => "cos"@,
        Function::Tan => "tan"@,
        Function::Asin => "asin"@,
        Function::Acos => "acos"@,
        Function::Atan => "atan"@,
        Function::Atan2 => "atan2"@,
        Function::Sinh => "sinh"@,
        Function::Cosh => "cosh"@,
        Function::Tanh => "tanh"@,
        Function::Asinh => "asinh"@,
        Function::Acosh => "acosh"@,
        Function::Atanh => "atanh"@,
    }
}

impl Function {
    /// The name under which this function is called.
    pub fn name(&self) -> (r: &'static str)
        ensures
            r@ == function_name(*self),
    {
        match self {
            Function::Sqrt => "sqrt",
            Function::Exp => "exp",
            Function::Ln => "ln",
            Function::Log => "log",
            Function::Log2 => "log2",
            Function::Log10 => "log10",
            Function::Hypot => "hypot",
            Function::Sin => "sin",
            Function::Cos => "cos",
            Function::Tan => "tan",
            Function::Asin => "asin",
            Function::Acos => "acos",
            Function::Atan => "atan",
            Function::Atan2 => "atan2",
            Function::Sinh => "sinh",
            Function::Cosh => "cosh",
            Function::Tanh => "tanh",
            Function::Asinh => "asinh",
            Function::Acosh => "acosh",
            Function::Atanh => "atanh",
        }
    }
}

/// A binary operator.
#[derive(Debug, Clone, Copy, PartialEq, Eq, Structural)]
pub enum BinOpType {
    Add,
    Sub,
    Frac,
    Pow,
    Equals,
    ShiftL,
    ShiftR,
    Mod,
    And,
    Or,
    Xor,
}

/// The text that shows a binary operator between its operands.
pub open spec fn binop_symbol(op: BinOpType) -> Seq<char> {
    match op {
        BinOpType::Add => " + "@,
        BinOpType::Sub => " - "@,
        BinOpType::Frac => " / "@,
        BinOpType::Pow => "^"@,
        BinOpType::Equals => " = "@,
        BinOpType::ShiftL => " << "@,
        BinOpType::ShiftR => " >> "@,
        BinOpType::Mod => " mod "@,
        BinOpType::And => " and "@,
        BinOpType::Or => " or "@,
        BinOpType::Xor => " xor "@,
    }
}

impl BinOpType {
    /// The text that shows this operator between its operands.
    pub fn symbol(&self) -> (r: &'static str)
        ensures
            r@ == binop_symbol(*self),
    {
        match self {
            BinOpType::Add => " + ",
            BinOpType::Sub => " - ",
            BinOpType::Frac => " / ",
            BinOpType::Pow => "^",
            BinOpType::Equals => " = ",
            BinOpType::ShiftL => " << ",
            BinOpType::ShiftR => " >> ",
            BinOpType::Mod => " mod ",
            BinOpType::And => " and ",
            BinOpType::Or => " or ",
            BinOpType::Xor => " xor ",
        }
    }
}

/// A prefix or suffix operator.
#[derive(Debug, Clone, Copy, PartialEq, Eq, Structural)]
pub enum UnaryOpType {
    /// A leading `+`.
    Positive,
    /// A leading `-`.
    Negative,
    /// A trailing temperature scale.
    Degree(Degree),
}

/// A piece of a date literal.
#[derive(Debug, PartialEq)]
pub enum DateToken {
    /// A word or other literal text.
    Literal(String),
    /// A number: its integer digits and, after a point, its fraction digits.
    Number(String, Option<String>),
    Colon,
    Dash,
    Space,
    Plus,
    /// A piece that could not be read, with a message.
    Error(String),
}

/// The text of a piece of a date literal.
pub open spec fn date_token_text(t: DateToken) -> Seq<char> {
    match t {
        DateToken::Literal(l) => l@,
        DateToken::Number(i, None) => i@,
        DateToken::Number(i, Some(f)) => i@ + "."@ + f@,
        DateToken::Colon => ":"@,
        DateToken::Dash => "-"@,
        DateToken::Space => " "@,
        DateToken::Plus => "+"@,
        DateToken::Error(e) => "<"@ + e@ + ">"@,
    }
}

/// The text of a sequence of date pieces, read one after the other.
pub open spec fn date_text(tokens: Seq<DateToken>) -> Seq<char>
    decreases tokens.len(),
{
    if tokens.len() == 0 {
        Seq::empty()
    } else {
        date_text(tokens.drop_last()) + date_token_text(tokens.last())
    }
}

impl Clone for DateToken {
    fn clone(&self) -> (r: Self)
        ensures
            r == *self,
    {
        match self {
            DateToken::Literal(l) => DateToken::Literal(l.clone()),
            DateToken::Number(i, f) => DateToken::Number(
                i.clone(),
                match f {
                    Some(f) => Some(f.clone()),
                    None => None,
                },
            ),
            DateToken::Colon => DateToken::Colon,
            DateToken::Dash => DateToken::Dash,
            DateToken::Space => DateToken::Space,
            DateToken::Plus => DateToken::Plus,
            DateToken::Error(e) => DateToken::Error(e.clone()),
        }
    }
}

impl DateToken {
    /// Appends the text of this piece to `s`.
    pub fn push_text(&self, s: &mut String)
        ensures
            final(s)@ == old(s)@ + date_token_text(*self),
    {
        match self {
            DateToken::Literal(l) => s.append(l.as_str()),
            DateToken::Number(i, None) => s.append(i.as_str()),
            DateToken::Number(i, Some(f)) => {
                s.append(i.as_str());
                s.append(".");
                s.append(f.as_str());
            },
            DateToken::Colon => s.append(":"),
            DateToken::Dash => s.append("-"),
            DateToken::Space => s.append(" "),
            DateToken::Plus => s.append("+"),
            DateToken::Error(e) => {
                s.append("<");
                s.append(e.as_str());
                s.append(">");
            },
        }
    }
}

/// Appends the text of the date pieces `tokens` to `s`.
pub fn push_date_text(s: &mut String, tokens: &Vec<DateToken>)
    ensures
        final(s)@ == old(s)@ + date_text(tokens@),
{
    let mut i: usize = 0;
    while i < tokens.len()
        invariant
            i <= tokens.len(),
            s@ == old(s)@ + date_text(tokens@.take(i as int)),
        decreases tokens.len() - i,
    {
        tokens[i].push_text(s);
        i = i + 1;
        proof {
            assert(tokens@.take(i as int).drop_last() =~= tokens@.take(i - 1));
        }
    }
    assert(tokens@.take(i as int) =~= tokens@);
}

} // verus!
