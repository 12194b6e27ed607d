//! What an expression matches, stated over the bytes of the text.
use vstd::prelude::*;
use vstd::utf8::is_char_boundary;
use crate::hit::{branch, collapsed, leaf, total_length, Hit};
use crate::text::{drop_bytes, first_char, first_width, utf8};

verus! {

/// The single-character classes.
#[derive(Clone, Copy, PartialEq, Eq, Debug)]
pub enum CharClass {
    Whitespace,
    Linebreak,
    InlineWhitespace,
    Digit,
    Alphabetic,
    Lowercase,
    Uppercase,
}

/// Unicode `White_Space`.
pub open spec fn is_space(c: char) -> bool {
    ('\u{9}' <= c <= '\u{d}') || c == ' ' || c == '\u{85}' || c == '\u{a0}' || c == '\u{1680}'
        || ('\u{2000}' <= c <= '\u{200a}') || c == '\u{2028}' || c == '\u{2029}' || c
        == '\u{202f}' || c == '\u{205f}' || c == '\u{3000}'
}

pub open spec fn is_linebreak(c: char) -> bool {
    c == '\n' || c == '\r'
}

/// Unicode `Alphabetic`, as `char::is_alphabetic` has it.
pub uninterp spec fn alphabetic(c: char) -> bool;

/// Unicode `Lowercase`, as `char::is_lowercase` has it.
pub uninterp spec fn lowercase(c: char) -> bool;

/// Unicode `Uppercase`, as `char::is_uppercase` has it.
pub uninterp spec fn uppercase(c: char) -> bool;

pub open spec fn in_class(k: CharClass, c: char) -> bool {
    match k {
        CharClass::Whitespace => is_space(c),
        CharClass::Linebreak => is_linebreak(c),
        CharClass::InlineWhitespace => is_space(c) && !is_linebreak(c),
        CharClass::Digit => '0' <= c <= '9',
        CharClass::Alphabetic => alphabetic(c),
        CharClass::Lowercase => lowercase(c),
        CharClass::Uppercase => uppercase(c),
    }
}

/// Relies on `char::is_alphabetic`: the answer depends on the character alone.
#[verifier::external_body]
fn alphabetic_char(c: char) -> (r: bool)
    ensures
        r == alphabetic(c),
{
    c.is_alphabetic()
}

/// Relies on `char::is_lowercase`: the answer depends on the character alone.
#[verifier::external_body]
fn lowercase_char(c: char) -> (r: bool)
    ensures
        r == lowercase(c),
{
    c.is_lowercase()
}

/// Relies on `char::is_uppercase`: the answer depends on the character alone.
#[verifier::external_body]
fn uppercase_char(c: char) -> (r: bool)
    ensures
        r == uppercase(c),
{
    c.is_uppercase()
}

/// Whether `c` belongs to the class `k`.
pub fn char_in_class(k: CharClass, c: char) -> (r: bool)
    ensures
        r == in_class(k, c),
{
    match k {
        CharClass::Whitespace => is_space_char(c),
        CharClass::Linebreak => c == '\n' || c == '\r',
        CharClass::InlineWhitespace => is_space_char(c) && !(c == '\n' || c == '\r'),
        CharClass::Digit => '0' <= c && c <= '9',
        CharClass::Alphabetic => alphabetic_char(c),
        CharClass::Lowercase => lowercase_char(c),
        CharClass::Uppercase => uppercase_char(c),
    }
}

fn is_space_char(c: char) -> (r: bool)
    ensures
        r == is_space(c),
{
    ('\u{9}' <= c && c <= '\u{d}') || c == ' ' || c == '\u{85}' || c == '\u{a0}' || c
        == '\u{1680}' || ('\u{2000}' <= c && c <= '\u{200a}') || c == '\u{2028}' || c
        == '\u{2029}' || c == '\u{202f}' || c == '\u{205f}' || c == '\u{3000}'
}

/// An expression as a mathematical value.
pub enum Expr {
    /// One given character.
    Char(char),
    /// A given text.
    Literal(Seq<char>),
    /// Each expression in turn; one child for each.
    Chain(Seq<Expr>),
    /// From a match of the first to the end of the earliest match of the second.
    Span(Box<Expr>, Box<Expr>),
    /// The first, then the second.
    Then(Box<Expr>, Box<Expr>),
    /// The expression exactly the given number of times.
    Times(Box<Expr>, nat),
    /// The expression as often as it matches, at least once.
    OneOrMore(Box<Expr>),
    /// The expression as often as it matches.
    ZeroOrMore(Box<Expr>),
    /// The expression, or nothing.
    Optional(Box<Expr>),
    /// The first, or else the second.
    Either(Box<Expr>, Box<Expr>),
    /// One character where the expression does not match.
    Not(Box<Expr>),
    /// The expression, with its result labelled.
    Named(Seq<char>, Box<Expr>),
    /// One character of a class.
    Class(CharClass),
}

/// The node of a single character at the start of `t`.
pub open spec fn one_char(t: Seq<u8>) -> Hit {
    leaf(Seq::empty(), first_width(t), t)
}

/// `t` begins with a whole character.
pub open spec fn has_char(t: Seq<u8>) -> bool {
    t.len() > 0 && first_width(t) <= t.len()
}

/// What `e` matches at the start of `t`.
pub open spec fn eval(e: Expr, t: Seq<u8>) -> Option<Hit>
    decreases e, 0nat,
{
    match e {
        Expr::Char(c) => if has_char(t) && first_char(t) == c {
            Some(one_char(t))
        } else {
            None
        },
        Expr::Literal(s) => if utf8(s).len() <= t.len() && t.subrange(0, utf8(s).len() as int)
            == utf8(s) {
            Some(leaf(Seq::empty(), utf8(s).len(), t))
        } else {
            None
        },
        Expr::Chain(items) => match eval_chain(items, t) {
            Some(hs) => Some(collapsed(total_length(hs), t, hs)),
            None => None,
        },
        Expr::Span(a, b) => match eval(*a, t) {
            Some(ha) => match span_end(*b, t, ha.length) {
                Some(end) => Some(leaf(Seq::empty(), end, t)),
                None => None,
            },
            None => None,
        },
        Expr::Then(a, b) => match eval(*a, t) {
            Some(ha) => match eval(*b, drop_bytes(t, ha.length)) {
                Some(hb) => Some(collapsed(ha.length + hb.length, t, seq![ha, hb])),
                None => None,
            },
            None => None,
        },
        Expr::Times(a, n) => match eval_times(*a, t, n) {
            Some(hs) => Some(
                branch(
                    if hs.len() > 0 {
                        hs[0].label
                    } else {
                        Seq::empty()
                    },
                    total_length(hs),
                    t,
                    hs,
                ),
            ),
            None => None,
        },
        Expr::OneOrMore(a) => {
            let hs = eval_repeat(*a, t);
            if hs.len() > 0 {
                Some(collapsed(total_length(hs), t, hs))
            } else {
                None
            }
        },
        Expr::ZeroOrMore(a) => {
            let hs = eval_repeat(*a, t);
            Some(collapsed(total_length(hs), t, hs))
        },
        Expr::Optional(a) => match eval(*a, t) {
            Some(h) => Some(h),
            None => Some(leaf(Seq::empty(), 0, t)),
        },
        Expr::Either(a, b) => match eval(*a, t) {
            Some(h) => Some(h),
            None => eval(*b, t),
        },
        Expr::Not(a) => if has_char(t) && eval(*a, t) is None {
            Some(one_char(t))
        } else {
            None
        },
        Expr::Named(name, a) => match eval(*a, t) {
            Some(h) => Some(Hit { label: name, ..h }),
            None => None,
        },
        Expr::Class(k) => if has_char(t) && in_class(k, first_char(t)) {
            Some(one_char(t))
        } else {
            None
        },
    }
}

/// The results of `items`, each matched where the one before ended.
pub open spec fn eval_chain(items: Seq<Expr>, t: Seq<u8>) -> Option<Seq<Hit>>
    decreases items, 0nat,
{
    if items.len() == 0 {
        Some(Seq::empty())
    } else {
        match eval(items[0], t) {
            Some(h) => match eval_chain(items.drop_first(), drop_bytes(t, h.length)) {
                Some(rest) => Some(seq![h] + rest),
                None => None,
            },
            None => None,
        }
    }
}

/// The results of `n` matches of `e`, each where the one before ended.
pub open spec fn eval_times(e: Expr, t: Seq<u8>, n: nat) -> Option<Seq<Hit>>
    decreases e, n + 1,
{
    if n == 0 {
        Some(Seq::empty())
    } else {
        match eval(e, t) {
            Some(h) => match eval_times(e, drop_bytes(t, h.length), (n - 1) as nat) {
                Some(rest) => Some(seq![h] + rest),
                None => None,
            },
            None => None,
        }
    }
}

/// The results of matching `e` again and again, each where the one before ended, until it
/// fails; a match of length zero is the last one, as the next would be the same. (No match
/// reaches past the end of the text; that case is there to keep the definition total.)
pub open spec fn eval_repeat(e: Expr, t: Seq<u8>) -> Seq<Hit>
    decreases e, t.len() + 1,
{
    match eval(e, t) {
        Some(h) => if h.length == 0 || h.length > t.len() {
            seq![h]
        } else {
            seq![h] + eval_repeat(e, drop_bytes(t, h.length))
        },
        None => Seq::empty(),
    }
}

/// The end of the earliest match of `e` that starts at or after byte `i` of `t`, before its end.
pub open spec fn span_end(e: Expr, t: Seq<u8>, i: nat) -> Option<nat>
    decreases e, t.len() - i,
{
    if i >= t.len() {
        None
    } else if is_char_boundary(t, i as int) && eval(e, drop_bytes(t, i)) is Some {
        Some(i + eval(e, drop_bytes(t, i))->0.length)
    } else {
        span_end(e, t, i + 1)
    }
}

} // verus!
