//! Formatted output: a sequence of text pieces, each tagged with the kind
//! of token it shows (plain text, a unit name, a number, ...).

use vstd::prelude::*;

verus! {

/// The kind of token a piece of formatted text stands for.
#[derive(Debug, Clone, Copy, PartialEq, Eq, Structural)]
pub enum FmtToken {
    /// Punctuation, operators and spacing.
    Plain,
    /// An error message.
    Error,
    /// The name of a unit.
    Unit,
    /// A number.
    Number,
    /// A date or time literal.
    DateTime,
    /// The name of a property (as in `density of water`).
    PropName,
    /// A keyword of the query language.
    Keyword,
}

/// The name under which a token kind is shown, as in `<number>`.
pub open spec fn token_name(token: FmtToken) -> Seq<char> {
    match token {
        FmtToken::Plain => seq!['p', 'l', 'a', 'i', 'n'],
        FmtToken::Error => seq!['e', 'r', 'r', 'o', 'r'],
        FmtToken::Unit => seq!['u', 'n', 'i', 't'],
        FmtToken::Number => seq!['n', 'u', 'm', 'b', 'e', 'r'],
        FmtToken::DateTime => seq!['d', 'a', 't', 'e', '_', 't', 'i', 'm', 'e'],
        FmtToken::PropName => seq!['p', 'r', 'o', 'p', '_', 'n', 'a', 'm', 'e'],
        FmtToken::Keyword => seq!['k', 'e', 'y', 'w', 'o', 'r', 'd'],
    }
}

impl FmtToken {
    /// The name of this token kind.
    pub fn as_str(&self) -> (r: &'static str)
        ensures
            r@ == token_name(*self),
    {
        match self {
            FmtToken::Plain => {
                proof { reveal_strlit("plain"); }
                "plain"
            },
            FmtToken::Error => {
                proof { reveal_strlit("error"); }
                "error"
            },
            FmtToken::Unit => {
                proof { reveal_strlit("unit"); }
                "unit"
            },
            FmtToken::Number => {
                proof { reveal_strlit("number"); }
                "number"
            },
            FmtToken::DateTime => {
                proof { reveal_strlit("date_time"); }
                "date_time"
            },
            FmtToken::PropName => {
                proof { reveal_strlit("prop_name"); }
                "prop_name"
            },
            FmtToken::Keyword => {
                proof { reveal_strlit("keyword"); }
                "keyword"
            },
        }
    }
}

/// A piece of formatted text together with its token kind.
#[derive(Debug)]
pub struct Span {
    pub text: String,
    pub token: FmtToken,
}

impl View for Span {
    type V = (FmtToken, Seq<char>);

    open spec fn view(&self) -> (FmtToken, Seq<char>) {
        (self.token, self.text@)
    }
}

/// The abstract contents of a sequence of spans.
pub open spec fn span_views(spans: Seq<Span>) -> Seq<(FmtToken, Seq<char>)> {
    spans.map_values(|s: Span| s@)
}

/// The text of a sequence of spans, read one after the other.
pub open spec fn spans_text(spans: Seq<(FmtToken, Seq<char>)>) -> Seq<char>
    decreases spans.len(),
{
    if spans.len() == 0 {
        Seq::empty()
    } else {
        spans_text(spans.drop_last()) + spans.last().1
    }
}

impl Clone for Span {
    fn clone(&self) -> (r: Self)
        ensures
            r@ == self@,
    {
        Span { text: self.text.clone(), token: self.token }
    }
}

impl Span {
    /// A span of the given kind holding a copy of `text`.
    pub fn new(token: FmtToken, text: &str) -> (r: Span)
        ensures
            r@ == (token, text@),
    {
        Span { text: text.to_owned(), token }
    }
}

/// Appends a span of the given kind holding a copy of `text`.
pub fn push_span(out: &mut Vec<Span>, token: FmtToken, text: &str)
    ensures
        span_views(final(out)@) == span_views(old(out)@).push((token, text@)),
{
    let s = Span::new(token, text);
    out.push(s);
    assert(span_views(out@) =~= span_views(old(out)@).push((token, text@)));
}

/// Appends a span of the given kind holding `text`.
pub fn push_string(out: &mut Vec<Span>, token: FmtToken, text: String)
    ensures
        span_views(final(out)@) == span_views(old(out)@).push((token, text@)),
{
    let ghost t = text@;
    out.push(Span { text, token });
    assert(span_views(out@) =~= span_views(old(out)@).push((token, t)));
}

/// The text of `spans`, read one after the other.
pub fn spans_to_string(spans: &Vec<Span>) -> (r: String)
    ensures
        r@ == spans_text(span_views(spans@)),
{
    let mut res = String::new();
    let mut i: usize = 0;
    while i < spans.len()
        invariant
            i <= spans.len(),
            res@ == spans_text(span_views(spans@.take(i as int))),
        decreases spans.len() - i,
    {
        let ghost before = spans@.take(i as int);
        res.append(spans[i].text.as_str());
        i = i + 1;
        proof {
            assert(span_views(spans@.take(i as int)).drop_last() =~= span_views(before));
        }
    }
    assert(spans@.take(i as int) =~= spans@);
    res
}

} // verus!
