//! Match-expressions: built once from combinators, then matched against any text.
use std::ops::{Add, BitAnd, BitOr, Mul, Not};
use std::rc::Rc;
use vstd::prelude::*;
use vstd::utf8::valid_utf8;
use crate::expr::{
    char_in_class, eval, eval_chain, eval_repeat, eval_times, span_end, CharClass, Expr,
};
use crate::hit::{
    hit_views, lemma_hit_views, lemma_hit_views_push, lemma_total_length_push, total_length,
    Hit, MatchHit,
};
use crate::predicate::TextPredicate;
use crate::text::{
    cut_ok, drop_bytes, first_char_of, lemma_cut_add, lemma_prefix_cut, lemma_utf8_valid,
    split_text, starts_with_text, utf8,
};

verus! {

/// The shape of an expression: one variant for each combinator.
enum Pattern {
    Char(char),
    Literal(String),
    Chain(Vec<MatchExpr>),
    Span(MatchExpr, MatchExpr),
    Then(MatchExpr, MatchExpr),
    Times(MatchExpr, usize),
    OneOrMore(MatchExpr),
    ZeroOrMore(MatchExpr),
    Optional(MatchExpr),
    Either(MatchExpr, MatchExpr),
    Not(MatchExpr),
    Named(String, MatchExpr),
    Class(CharClass),
}

/// An immutable expression, shared by reference counting.
pub struct MatchExpr {
    node: Rc<Pattern>,
}

/// The value of an optional result.
pub open spec fn opt_view(r: Option<MatchHit>) -> Option<Hit> {
    match r {
        Some(h) => Some(h@),
        None => None,
    }
}

/// A result on `t` ends where `t` may be cut.
pub open spec fn fits(r: Option<MatchHit>, t: Seq<u8>) -> bool {
    r matches Some(h) ==> cut_ok(t, h.length as nat)
}

/// The values of a sequence of expressions.
pub open spec fn views(s: Seq<MatchExpr>) -> Seq<Expr>
    decreases s,
{
    if s.len() == 0 {
        Seq::empty()
    } else {
        views(s.drop_last()).push(s.last()@)
    }
}

pub proof fn lemma_views(s: Seq<MatchExpr>)
    ensures
        views(s).len() == s.len(),
        forall|i: int| 0 <= i < s.len() ==> #[trigger] views(s)[i] == s[i]@,
    decreases s.len(),
{
    if s.len() > 0 {
        lemma_views(s.drop_last());
    }
}

spec fn prepend(p: Seq<Hit>, o: Option<Seq<Hit>>) -> Option<Seq<Hit>> {
    match o {
        Some(x) => Some(p + x),
        None => None,
    }
}

/// The number of bytes of `text`.
pub fn byte_len(text: &str) -> (n: usize)
    ensures
        n == utf8(text@).len(),
{
    text.as_bytes().len()
}

impl MatchExpr {
    pub closed spec fn view(&self) -> Expr
        decreases self,
    {
        match *self.node {
            Pattern::Char(c) => Expr::Char(c),
            Pattern::Literal(s) => Expr::Literal(s@),
            Pattern::Chain(v) => Expr::Chain(views(v@)),
            Pattern::Span(a, b) => Expr::Span(Box::new(a@), Box::new(b@)),
            Pattern::Then(a, b) => Expr::Then(Box::new(a@), Box::new(b@)),
            Pattern::Times(a, n) => Expr::Times(Box::new(a@), n as nat),
            Pattern::OneOrMore(a) => Expr::OneOrMore(Box::new(a@)),
            Pattern::ZeroOrMore(a) => Expr::ZeroOrMore(Box::new(a@)),
            Pattern::Optional(a) => Expr::Optional(Box::new(a@)),
            Pattern::Either(a, b) => Expr::Either(Box::new(a@), Box::new(b@)),
            Pattern::Not(a) => Expr::Not(Box::new(a@)),
            Pattern::Named(s, a) => Expr::Named(s@, Box::new(a@)),
            Pattern::Class(k) => Expr::Class(k),
        }
    }

    fn of(p: Pattern) -> (r: MatchExpr)
        ensures
            *r.node == p,
    {
        MatchExpr { node: Rc::new(p) }
    }

    /// Another handle on the same expression.
    pub fn share(&self) -> (r: MatchExpr)
        ensures
            r@ == self@,
    {
        MatchExpr { node: self.node.clone() }
    }

    /// Matches the character `c`.
    pub fn character(c: char) -> (r: MatchExpr)
        ensures
            r@ == Expr::Char(c),
    {
        MatchExpr::of(Pattern::Char(c))
    }

    /// Matches the text `s`.
    pub fn literal(s: &str) -> (r: MatchExpr)
        ensures
            r@ == Expr::Literal(s@),
    {
        MatchExpr::of(Pattern::Literal(s.to_owned()))
    }

    /// Matches each of `items` in turn.
    pub fn sequence(items: Vec<MatchExpr>) -> (r: MatchExpr)
        ensures
            r@ == Expr::Chain(views(items@)),
    {
        MatchExpr::of(Pattern::Chain(items))
    }

    /// Matches from a match of `start` to the end of the earliest match of `end` after it.
    pub fn span(start: MatchExpr, end: MatchExpr) -> (r: MatchExpr)
        ensures
            r@ == Expr::Span(Box::new(start@), Box::new(end@)),
    {
        MatchExpr::of(Pattern::Span(start, end))
    }

    /// Matches this expression, then `next` where it ended.
    pub fn followed_by(self, next: MatchExpr) -> (r: MatchExpr)
        ensures
            r@ == Expr::Then(Box::new(self@), Box::new(next@)),
    {
        MatchExpr::of(Pattern::Then(self, next))
    }

    /// Matches this expression exactly `count` times in a row.
    pub fn times(self, count: usize) -> (r: MatchExpr)
        ensures
            r@ == Expr::Times(Box::new(self@), count as nat),
    {
        MatchExpr::of(Pattern::Times(self, count))
    }

    /// Matches this expression, or else `other`.
    pub fn or(self, other: MatchExpr) -> (r: MatchExpr)
        ensures
            r@ == Expr::Either(Box::new(self@), Box::new(other@)),
    {
        MatchExpr::of(Pattern::Either(self, other))
    }

    /// Matches one character where this expression does not match.
    pub fn negate(self) -> (r: MatchExpr)
        ensures
            r@ == Expr::Not(Box::new(self@)),
    {
        MatchExpr::of(Pattern::Not(self))
    }

    /// Matches this expression and labels the result `name`.
    pub fn labelled(self, name: &str) -> (r: MatchExpr)
        ensures
            r@ == Expr::Named(name@, Box::new(self@)),
    {
        MatchExpr::of(Pattern::Named(name.to_owned(), self))
    }

    /// Matches this expression as often as it does, at least once.
    pub fn one_or_more(self) -> (r: MatchExpr)
        ensures
            r@ == Expr::OneOrMore(Box::new(self@)),
    {
        MatchExpr::of(Pattern::OneOrMore(self))
    }

    /// Matches this expression as often as it does.
    pub fn zero_or_more(self) -> (r: MatchExpr)
        ensures
            r@ == Expr::ZeroOrMore(Box::new(self@)),
    {
        MatchExpr::of(Pattern::ZeroOrMore(self))
    }

    /// Matches this expression, or nothing.
    pub fn or_nothing(self) -> (r: MatchExpr)
        ensures
            r@ == Expr::Optional(Box::new(self@)),
    {
        MatchExpr::of(Pattern::Optional(self))
    }

    /// Matches one character of the class `k`.
    pub fn class(k: CharClass) -> (r: MatchExpr)
        ensures
            r@ == Expr::Class(k),
    {
        MatchExpr::of(Pattern::Class(k))
    }

    /// A match-expression for any predicate.
    pub fn new<T: TextPredicate>(source: T) -> (r: MatchExpr)
        ensures
            r@ == source.expr(),
    {
        source.to_match_expr()
    }

    /// Matches `sub_matcher` and labels its result `name`, in place of any label it had.
    pub fn named<T: TextPredicate>(name: &str, sub_matcher: T) -> (r: MatchExpr)
        ensures
            r@ == Expr::Named(name@, Box::new(sub_matcher.expr())),
    {
        sub_matcher.to_match_expr().labelled(name)
    }

    /// Matches `sub_matcher` as often as it does; fails when it does not match once.
    pub fn repeat_max<T: TextPredicate>(sub_matcher: T) -> (r: MatchExpr)
        ensures
            r@ == Expr::OneOrMore(Box::new(sub_matcher.expr())),
    {
        sub_matcher.to_match_expr().one_or_more()
    }

    /// Matches `sub_matcher` as often as it does, possibly never.
    pub fn optional_repeat_max<T: TextPredicate>(sub_matcher: T) -> (r: MatchExpr)
        ensures
            r@ == Expr::ZeroOrMore(Box::new(sub_matcher.expr())),
    {
        sub_matcher.to_match_expr().zero_or_more()
    }

    /// Matches `sub_matcher`, or else nothing.
    pub fn optional<T: TextPredicate>(sub_matcher: T) -> (r: MatchExpr)
        ensures
            r@ == Expr::Optional(Box::new(sub_matcher.expr())),
    {
        sub_matcher.to_match_expr().or_nothing()
    }

    /// One white-space character.
    pub fn whitespace() -> (r: MatchExpr)
        ensures
            r@ == Expr::Class(CharClass::Whitespace),
    {
        MatchExpr::class(CharClass::Whitespace)
    }

    /// One line break: a line feed or a carriage return.
    pub fn linebreak() -> (r: MatchExpr)
        ensures
            r@ == Expr::Class(CharClass::Linebreak),
    {
        MatchExpr::class(CharClass::Linebreak)
    }

    /// One white-space character that is no line break.
    pub fn inline_whitespace() -> (r: MatchExpr)
        ensures
            r@ == Expr::Class(CharClass::InlineWhitespace),
    {
        MatchExpr::class(CharClass::InlineWhitespace)
    }

    /// One decimal digit.
    pub fn digit() -> (r: MatchExpr)
        ensures
            r@ == Expr::Class(CharClass::Digit),
    {
        MatchExpr::class(CharClass::Digit)
    }

    /// One alphabetic character.
    pub fn alphabetic() -> (r: MatchExpr)
        ensures
            r@ == Expr::Class(CharClass::Alphabetic),
    {
        MatchExpr::class(CharClass::Alphabetic)
    }

    /// One lowercase character.
    pub fn lowercase_alphabetic() -> (r: MatchExpr)
        ensures
            r@ == Expr::Class(CharClass::Lowercase),
    {
        MatchExpr::class(CharClass::Lowercase)
    }

    /// One uppercase character.
    pub fn uppercase_alphabetic() -> (r: MatchExpr)
        ensures
            r@ == Expr::Class(CharClass::Uppercase),
    {
        MatchExpr::class(CharClass::Uppercase)
    }

    /// The longest run of alphabetic characters, at least one.
    pub fn word() -> (r: MatchExpr)
        ensures
            r@ == Expr::OneOrMore(Box::new(Expr::Class(CharClass::Alphabetic))),
    {
        MatchExpr::alphabetic().one_or_more()
    }

    /// The longest run of digits, at least one.
    pub fn unsigned_integer() -> (r: MatchExpr)
        ensures
            r@ == unsigned_integer_expr(),
    {
        MatchExpr::digit().one_or_more()
    }

    /// An optional minus sign, then the longest run of digits.
    pub fn signed_integer() -> (r: MatchExpr)
        ensures
            r@ == signed_integer_expr(),
    {
        let r = MatchExpr::literal("-").or_nothing().followed_by(MatchExpr::unsigned_integer());
        proof {
            reveal_strlit("-");
            assert("-"@ =~= seq!['-']);
        }
        r
    }

    /// A signed integer, then optionally a point and the longest run of digits.
    pub fn float() -> (r: MatchExpr)
        ensures
            r@ == Expr::Then(
                Box::new(signed_integer_expr()),
                Box::new(
                    Expr::Optional(
                        Box::new(
                            Expr::Then(
                                Box::new(Expr::Literal(seq!['.'])),
                                Box::new(unsigned_integer_expr()),
                            ),
                        ),
                    ),
                ),
            ),
    {
        let fraction = MatchExpr::literal(".").followed_by(MatchExpr::unsigned_integer());
        proof {
            reveal_strlit(".");
            assert("."@ =~= seq!['.']);
        }
        MatchExpr::signed_integer().followed_by(fraction.or_nothing())
    }

    /// Tries to match the start of `text`.
    pub fn match_text(&self, text: &str) -> (r: Option<MatchHit>)
        ensures
            opt_view(r) == eval(self@, utf8(text@)),
            fits(r, utf8(text@)),
        decreases self, 0nat,
    {
        let ghost t = utf8(text@);
        proof {
            lemma_utf8_valid(text@);
        }
        match &*self.node {
            Pattern::Char(c) => match first_char_of(text) {
                Some((f, w)) => if f == *c {
                    Some(MatchHit::new(w, text))
                } else {
                    None
                },
                None => None,
            },
            Pattern::Literal(s) => {
                if starts_with_text(text, s.as_str()) {
                    proof {
                        lemma_utf8_valid(s@);
                        lemma_prefix_cut(t, utf8(s@));
                    }
                    Some(MatchHit::new(byte_len(s.as_str()), text))
                } else {
                    None
                }
            },
            Pattern::Chain(items) => match run_chain(items, text) {
                Some((hs, n)) => Some(MatchHit::new_with_sub_matches(n, text, hs)),
                None => None,
            },
            Pattern::Span(a, b) => match a.match_text(text) {
                Some(ha) => match span_scan(b, text, ha.length) {
                    Some(end) => Some(MatchHit::new(end, text)),
                    None => None,
                },
                None => None,
            },
            Pattern::Then(a, b) => match a.match_text(text) {
                Some(ha) => {
                    let (_, rest) = split_text(text, ha.length);
                    match b.match_text(rest) {
                        Some(hb) => {
                            let _size = byte_len(text);
                            proof {
                                lemma_cut_add(t, ha.length as nat, hb.length as nat);
                            }
                            let n = ha.length + hb.length;
                            let mut hs: Vec<MatchHit> = Vec::new();
                            hs.push(ha);
                            hs.push(hb);
                            proof {
                                lemma_pair(hs@);
                            }
                            Some(MatchHit::new_with_sub_matches(n, text, hs))
                        },
                        None => None,
                    }
                },
                None => None,
            },
            Pattern::Times(a, count) => match run_times(a, text, *count) {
                Some((hs, n)) => {
                    proof {
                        lemma_hit_views(hs@);
                    }
                    let name = if hs.len() > 0 {
                        hs[0].label.clone()
                    } else {
                        String::new()
                    };
                    Some(MatchHit::named_with_sub_matches(name.as_str(), n, text, hs))
                },
                None => None,
            },
            Pattern::OneOrMore(a) => {
                let (hs, n) = run_repeat(a, text);
                proof {
                    lemma_hit_views(hs@);
                }
                if hs.len() > 0 {
                    Some(MatchHit::new_with_sub_matches(n, text, hs))
                } else {
                    None
                }
            },
            Pattern::ZeroOrMore(a) => {
                let (hs, n) = run_repeat(a, text);
                Some(MatchHit::new_with_sub_matches(n, text, hs))
            },
            Pattern::Optional(a) => match a.match_text(text) {
                Some(h) => Some(h),
                None => Some(MatchHit::new(0, text)),
            },
            Pattern::Either(a, b) => match a.match_text(text) {
                Some(h) => Some(h),
                None => b.match_text(text),
            },
            Pattern::Not(a) => match first_char_of(text) {
                Some((_, w)) => match a.match_text(text) {
                    Some(_) => None,
                    None => Some(MatchHit::new(w, text)),
                },
                None => None,
            },
            Pattern::Named(name, a) => match a.match_text(text) {
                Some(h) => {
                    let mut h = h;
                    h.label = name.clone();
                    Some(h)
                },
                None => None,
            },
            Pattern::Class(k) => match first_char_of(text) {
                Some((c, w)) => if char_in_class(*k, c) {
                    Some(MatchHit::new(w, text))
                } else {
                    None
                },
                None => None,
            },
        }
    }
}

/// The longest run of digits, at least one.
pub open spec fn unsigned_integer_expr() -> Expr {
    Expr::OneOrMore(Box::new(Expr::Class(CharClass::Digit)))
}

/// An optional minus sign, then the longest run of digits.
pub open spec fn signed_integer_expr() -> Expr {
    Expr::Then(
        Box::new(Expr::Optional(Box::new(Expr::Literal(seq!['-'])))),
        Box::new(unsigned_integer_expr()),
    )
}

impl Clone for MatchExpr {
    fn clone(&self) -> (r: Self)
        ensures
            r@ == self@,
    {
        self.share()
    }
}

impl<T: TextPredicate> Add<T> for MatchExpr {
    type Output = MatchExpr;

    /// This expression, then `rhs`.
    fn add(self, rhs: T) -> (r: MatchExpr)
        ensures
            r@ == Expr::Then(Box::new(self@), Box::new(rhs.expr())),
    {
        self.followed_by(rhs.to_match_expr())
    }
}

impl<T: TextPredicate> vstd::std_specs::ops::AddSpecImpl<T> for MatchExpr {
    /// What the operator builds is stated on its implementation above.
    open spec fn obeys_add_spec() -> bool {
        false
    }

    open spec fn add_req(self, rhs: T) -> bool {
        true
    }

    open spec fn add_spec(self, rhs: T) -> MatchExpr {
        self
    }
}

impl<T: TextPredicate> BitAnd<T> for MatchExpr {
    type Output = MatchExpr;

    /// The same as `+`: this expression, then `rhs`.
    fn bitand(self, rhs: T) -> (r: MatchExpr)
        ensures
            r@ == Expr::Then(Box::new(self@), Box::new(rhs.expr())),
    {
        self.followed_by(rhs.to_match_expr())
    }
}

impl<T: TextPredicate> vstd::std_specs::ops::BitAndSpecImpl<T> for MatchExpr {
    /// What the operator builds is stated on its implementation above.
    open spec fn obeys_bitand_spec() -> bool {
        false
    }

    open spec fn bitand_req(self, rhs: T) -> bool {
        true
    }

    open spec fn bitand_spec(self, rhs: T) -> MatchExpr {
        self
    }
}

impl<T: TextPredicate> BitOr<T> for MatchExpr {
    type Output = MatchExpr;

    /// This expression, or else `rhs`.
    fn bitor(self, rhs: T) -> (r: MatchExpr)
        ensures
            r@ == Expr::Either(Box::new(self@), Box::new(rhs.expr())),
    {
        self.or(rhs.to_match_expr())
    }
}

impl<T: TextPredicate> vstd::std_specs::ops::BitOrSpecImpl<T> for MatchExpr {
    /// What the operator builds is stated on its implementation above.
    open spec fn obeys_bitor_spec() -> bool {
        false
    }

    open spec fn bitor_req(self, rhs: T) -> bool {
        true
    }

    open spec fn bitor_spec(self, rhs: T) -> MatchExpr {
        self
    }
}

impl Mul<usize> for MatchExpr {
    type Output = MatchExpr;

    /// This expression exactly `rhs` times in a row.
    fn mul(self, rhs: usize) -> (r: MatchExpr)
        ensures
            r@ == Expr::Times(Box::new(self@), rhs as nat),
    {
        self.times(rhs)
    }
}

impl vstd::std_specs::ops::MulSpecImpl<usize> for MatchExpr {
    /// What the operator builds is stated on its implementation above.
    open spec fn obeys_mul_spec() -> bool {
        false
    }

    open spec fn mul_req(self, rhs: usize) -> bool {
        true
    }

    open spec fn mul_spec(self, rhs: usize) -> MatchExpr {
        self
    }
}

impl Not for MatchExpr {
    type Output = MatchExpr;

    /// One character where this expression does not match.
    fn not(self) -> (r: MatchExpr)
        ensures
            r@ == Expr::Not(Box::new(self@)),
    {
        self.negate()
    }
}

impl vstd::std_specs::ops::NotSpecImpl for MatchExpr {
    /// What the operator builds is stated on its implementation above.
    open spec fn obeys_not_spec() -> bool {
        false
    }

    open spec fn not_req(self) -> bool {
        true
    }

    open spec fn not_spec(self) -> MatchExpr {
        self
    }
}

proof fn lemma_pair(s: Seq<MatchHit>)
    requires
        s.len() == 2,
    ensures
        hit_views(s) == seq![s[0]@, s[1]@],
        total_length(hit_views(s)) == s[0].length + s[1].length,
{
    lemma_hit_views(s);
    assert(hit_views(s) =~= seq![s[0]@, s[1]@]);
    assert(seq![s[0]@, s[1]@] =~= Seq::<Hit>::empty().push(s[0]@).push(s[1]@));
    lemma_total_length_push(Seq::<Hit>::empty(), s[0]@);
    lemma_total_length_push(Seq::<Hit>::empty().push(s[0]@), s[1]@);
}

/// Matches `items` one after the other; the results and the bytes they cover.
fn run_chain(items: &Vec<MatchExpr>, text: &str) -> (r: Option<(Vec<MatchHit>, usize)>)
    ensures
        match r {
            Some((hs, n)) => {
                &&& eval_chain(views(items@), utf8(text@)) == Some(hit_views(hs@))
                &&& n == total_length(hit_views(hs@))
                &&& cut_ok(utf8(text@), n as nat)
            },
            None => eval_chain(views(items@), utf8(text@)) is None,
        },
    decreases items, 0nat,
{
    broadcast use vstd::std_specs::vec::axiom_vec_index_decreases;

    let ghost t = utf8(text@);
    let ghost v = views(items@);
    let size = byte_len(text);
    proof {
        lemma_utf8_valid(text@);
        lemma_views(items@);
        assert(v.subrange(0, v.len() as int) =~= v);
        assert(drop_bytes(t, 0) =~= t);
        assert(hit_views(Seq::<MatchHit>::empty()) =~= Seq::<Hit>::empty());
        assert(Seq::<Hit>::empty() + eval_chain(v, t)->0 =~= eval_chain(v, t)->0);
    }
    let mut hs: Vec<MatchHit> = Vec::new();
    let mut cursor: usize = 0;
    let mut i: usize = 0;
    while i < items.len()
        invariant
            v == views(items@),
            v.len() == items.len(),
            t == utf8(text@),
            valid_utf8(t),
            size == t.len(),
            i <= items.len(),
            cut_ok(t, cursor as nat),
            cursor == total_length(hit_views(hs@)),
            eval_chain(v, t) == prepend(
                hit_views(hs@),
                eval_chain(v.subrange(i as int, v.len() as int), drop_bytes(t, cursor as nat)),
            ),
        decreases items.len() - i,
    {
        let (_, rest) = split_text(text, cursor);
        match items[i].match_text(rest) {
            Some(h) => {
                proof {
                    lemma_cut_add(t, cursor as nat, h.length as nat);
                    lemma_views(items@);
                    let w = v.subrange(i as int, v.len() as int);
                    assert(w[0] == items@[i as int]@);
                    assert(w.drop_first() =~= v.subrange(i + 1, v.len() as int));
                    lemma_hit_views_push(hs@, h);
                    lemma_total_length_push(hit_views(hs@), h@);
                    let tail = eval_chain(v.subrange(i + 1, v.len() as int), drop_bytes(t, (cursor + h.length) as nat));
                    if tail is Some {
                        assert(hit_views(hs@) + (seq![h@] + tail->0) =~= hit_views(hs@).push(h@) + tail->0);
                    }
                }
                cursor = cursor + h.length;
                hs.push(h);
            },
            None => {
                proof {
                    lemma_views(items@);
                    let w = v.subrange(i as int, v.len() as int);
                    assert(w[0] == items@[i as int]@);
                }
                return None;
            },
        }
        i = i + 1;
    }
    proof {
        assert(v.subrange(i as int, v.len() as int) =~= Seq::<Expr>::empty());
        assert(hit_views(hs@) + Seq::<Hit>::empty() =~= hit_views(hs@));
    }
    Some((hs, cursor))
}

/// Matches `e` exactly `count` times in a row; the results and the bytes they cover.
fn run_times(e: &MatchExpr, text: &str, count: usize) -> (r: Option<(Vec<MatchHit>, usize)>)
    ensures
        match r {
            Some((hs, n)) => {
                &&& eval_times(e@, utf8(text@), count as nat) == Some(hit_views(hs@))
                &&& n == total_length(hit_views(hs@))
                &&& cut_ok(utf8(text@), n as nat)
            },
            None => eval_times(e@, utf8(text@), count as nat) is None,
        },
    decreases e, 1nat,
{
    let ghost t = utf8(text@);
    let size = byte_len(text);
    proof {
        lemma_utf8_valid(text@);
        assert(drop_bytes(t, 0) =~= t);
        assert(hit_views(Seq::<MatchHit>::empty()) =~= Seq::<Hit>::empty());
        let o = eval_times(e@, t, count as nat);
        if o is Some {
            assert(Seq::<Hit>::empty() + o->0 =~= o->0);
        }
    }
    let mut hs: Vec<MatchHit> = Vec::new();
    let mut cursor: usize = 0;
    let mut k: usize = 0;
    while k < count
        invariant
            t == utf8(text@),
            valid_utf8(t),
            size == t.len(),
            k <= count,
            cut_ok(t, cursor as nat),
            cursor == total_length(hit_views(hs@)),
            eval_times(e@, t, count as nat) == prepend(
                hit_views(hs@),
                eval_times(e@, drop_bytes(t, cursor as nat), (count - k) as nat),
            ),
        decreases count - k,
    {
        let (_, rest) = split_text(text, cursor);
        match e.match_text(rest) {
            Some(h) => {
                proof {
                    lemma_cut_add(t, cursor as nat, h.length as nat);
                    lemma_hit_views_push(hs@, h);
                    lemma_total_length_push(hit_views(hs@), h@);
                    let tail = eval_times(e@, drop_bytes(t, (cursor + h.length) as nat), (count - k - 1) as nat);
                    if tail is Some {
                        assert(hit_views(hs@) + (seq![h@] + tail->0) =~= hit_views(hs@).push(h@) + tail->0);
                    }
                }
                cursor = cursor + h.length;
                hs.push(h);
            },
            None => {
                return None;
            },
        }
        k = k + 1;
    }
    proof {
        assert(hit_views(hs@) + Seq::<Hit>::empty() =~= hit_views(hs@));
    }
    Some((hs, cursor))
}

/// Matches `e` again and again until it fails or matches nothing; the results and the bytes
/// they cover.
fn run_repeat(e: &MatchExpr, text: &str) -> (r: (Vec<MatchHit>, usize))
    ensures
        eval_repeat(e@, utf8(text@)) == hit_views(r.0@),
        r.1 == total_length(hit_views(r.0@)),
        cut_ok(utf8(text@), r.1 as nat),
    decreases e, 1nat,
{
    let ghost t = utf8(text@);
    let size = byte_len(text);
    proof {
        lemma_utf8_valid(text@);
        assert(drop_bytes(t, 0) =~= t);
        assert(hit_views(Seq::<MatchHit>::empty()) =~= Seq::<Hit>::empty());
        assert(Seq::<Hit>::empty() + eval_repeat(e@, t) =~= eval_repeat(e@, t));
    }
    let mut hs: Vec<MatchHit> = Vec::new();
    let mut cursor: usize = 0;
    let mut go = true;
    while go
        invariant
            t == utf8(text@),
            valid_utf8(t),
            size == t.len(),
            cut_ok(t, cursor as nat),
            cursor == total_length(hit_views(hs@)),
            go ==> eval_repeat(e@, t) == hit_views(hs@) + eval_repeat(e@, drop_bytes(t, cursor as nat)),
            !go ==> eval_repeat(e@, t) == hit_views(hs@),
        decreases (if go { size - cursor + 1 } else { 0 }),
    {
        let (_, rest) = split_text(text, cursor);
        match e.match_text(rest) {
            Some(h) => {
                proof {
                    lemma_cut_add(t, cursor as nat, h.length as nat);
                    lemma_hit_views_push(hs@, h);
                    lemma_total_length_push(hit_views(hs@), h@);
                    let d = drop_bytes(t, cursor as nat);
                    if h.length == 0 {
                        assert(hit_views(hs@) + seq![h@] =~= hit_views(hs@).push(h@));
                    } else {
                        let tail = eval_repeat(e@, drop_bytes(t, (cursor + h.length) as nat));
                        assert(hit_views(hs@) + (seq![h@] + tail) =~= hit_views(hs@).push(h@) + tail);
                    }
                }
                if h.length == 0 {
                    go = false;
                }
                cursor = cursor + h.length;
                hs.push(h);
            },
            None => {
                proof {
                    assert(hit_views(hs@) + Seq::<Hit>::empty() =~= hit_views(hs@));
                }
                go = false;
            },
        }
    }
    (hs, cursor)
}

/// The end of the earliest match of `e` that starts at a character boundary at or after
/// byte `start` and before the end of `text`.
fn span_scan(e: &MatchExpr, text: &str, start: usize) -> (r: Option<usize>)
    requires
        start <= utf8(text@).len(),
    ensures
        match r {
            Some(n) => span_end(e@, utf8(text@), start as nat) == Some(n as nat) && cut_ok(
                utf8(text@),
                n as nat,
            ),
            None => span_end(e@, utf8(text@), start as nat) is None,
        },
    decreases e, 1nat,
{
    let ghost t = utf8(text@);
    let size = byte_len(text);
    proof {
        lemma_utf8_valid(text@);
    }
    let mut i = start;
    while i < size
        invariant
            t == utf8(text@),
            valid_utf8(t),
            size == t.len(),
            start <= i <= size,
            span_end(e@, t, start as nat) == span_end(e@, t, i as nat),
        decreases size - i,
    {
        if text.is_char_boundary(i) {
            let (_, rest) = split_text(text, i);
            match e.match_text(rest) {
                Some(h) => {
                    proof {
                        lemma_cut_add(t, i as nat, h.length as nat);
                    }
                    return Some(i + h.length);
                },
                None => {},
            }
        }
        i = i + 1;
    }
    None
}

} // verus!
