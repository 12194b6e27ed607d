//! Anything that can stand for an expression: characters, texts, lists, tuples, ranges.
use std::ops::Range;
use vstd::prelude::*;
use crate::expr::{eval, Expr};
use crate::hit::MatchHit;
use crate::matcher::{fits, lemma_views, opt_view, views, MatchExpr};
use crate::text::utf8;

verus! {

/// A recognizer: something that can be matched against the start of a text.
pub trait TextPredicate {
    /// The expression this value stands for.
    spec fn expr(&self) -> Expr;

    /// This value as a match-expression.
    fn to_match_expr(&self) -> (r: MatchExpr)
        ensures
            r@ == self.expr(),
    ;

    /// Tries to match the start of `text`.
    fn match_text(&self, text: &str) -> (r: Option<MatchHit>)
        ensures
            opt_view(r) == eval(self.expr(), utf8(text@)),
            fits(r, utf8(text@)),
    {
        self.to_match_expr().match_text(text)
    }

    /// The length of the match at the start of `text`, if any.
    fn match_text_length(&self, text: &str) -> (r: Option<usize>)
        ensures
            match r {
                Some(n) => eval(self.expr(), utf8(text@)) matches Some(h) && h.length == n,
                None => eval(self.expr(), utf8(text@)) is None,
            },
    {
        match self.match_text(text) {
            Some(h) => Some(h.length),
            None => None,
        }
    }
}

/// A function used as a predicate: matching is calling it.
///
/// Such a function stands on its own and cannot be a part of a `MatchExpr`: an expression
/// would have to hold it behind `dyn Fn`, which Verus does not support.
pub trait FunctionPredicate {
    /// What the function returns on `text`.
    fn match_text(&self, text: &str) -> (r: Option<MatchHit>)
        requires
            self.admits(text),
        ensures
            self.returned(text, r),
    ;

    /// The function may be called on `text`.
    spec fn admits(&self, text: &str) -> bool;

    /// `r` is a result the function may return on `text`.
    spec fn returned(&self, text: &str, r: Option<MatchHit>) -> bool;
}

impl<F: Fn(&str) -> Option<MatchHit>> FunctionPredicate for F {
    fn match_text(&self, text: &str) -> (r: Option<MatchHit>) {
        self(text)
    }

    open spec fn admits(&self, text: &str) -> bool {
        call_requires(*self, (text,))
    }

    open spec fn returned(&self, text: &str, r: Option<MatchHit>) -> bool {
        call_ensures(*self, (text,), r)
    }
}

/// A function that gives the length of a match used as a predicate: matching is calling it.
pub trait FunctionLength {
    /// What the function returns on `text`.
    fn match_text_length(&self, text: &str) -> (r: Option<usize>)
        requires
            self.admits(text),
        ensures
            self.returned(text, r),
    ;

    /// The function may be called on `text`.
    spec fn admits(&self, text: &str) -> bool;

    /// `r` is a result the function may return on `text`.
    spec fn returned(&self, text: &str, r: Option<usize>) -> bool;
}

impl<F: Fn(&str) -> Option<usize>> FunctionLength for F {
    fn match_text_length(&self, text: &str) -> (r: Option<usize>) {
        self(text)
    }

    open spec fn admits(&self, text: &str) -> bool {
        call_requires(*self, (text,))
    }

    open spec fn returned(&self, text: &str, r: Option<usize>) -> bool {
        call_ensures(*self, (text,), r)
    }
}

/// Two predicates in sequence: the first, then the second where it ended.
pub struct TextMatcherAdd<T, U> {
    pub left: T,
    pub right: U,
}

impl<T: TextPredicate, U: TextPredicate> TextMatcherAdd<T, U> {
    /// `left`, then `right`.
    pub fn new(left: T, right: U) -> (r: TextMatcherAdd<T, U>)
        ensures
            r.left == left,
            r.right == right,
    {
        TextMatcherAdd { left, right }
    }

    /// The length of the match of both at the start of `text`, if any.
    pub fn match_text(&self, text: &str) -> (r: Option<usize>)
        ensures
            match r {
                Some(n) => eval(self.expr(), utf8(text@)) matches Some(h) && h.length == n,
                None => eval(self.expr(), utf8(text@)) is None,
            },
    {
        self.match_text_length(text)
    }
}

impl<T: TextPredicate, U: TextPredicate> TextPredicate for TextMatcherAdd<T, U> {
    open spec fn expr(&self) -> Expr {
        Expr::Then(Box::new(self.left.expr()), Box::new(self.right.expr()))
    }

    fn to_match_expr(&self) -> (r: MatchExpr) {
        self.left.to_match_expr().followed_by(self.right.to_match_expr())
    }
}

impl TextPredicate for MatchExpr {
    open spec fn expr(&self) -> Expr {
        self@
    }

    fn to_match_expr(&self) -> (r: MatchExpr) {
        self.share()
    }

    fn match_text(&self, text: &str) -> (r: Option<MatchHit>) {
        MatchExpr::match_text(self, text)
    }
}

impl TextPredicate for char {
    open spec fn expr(&self) -> Expr {
        Expr::Char(*self)
    }

    fn to_match_expr(&self) -> (r: MatchExpr) {
        MatchExpr::character(*self)
    }
}

impl<'a> TextPredicate for &'a str {
    open spec fn expr(&self) -> Expr {
        Expr::Literal(self@)
    }

    fn to_match_expr(&self) -> (r: MatchExpr) {
        MatchExpr::literal(self)
    }
}

impl TextPredicate for String {
    open spec fn expr(&self) -> Expr {
        Expr::Literal(self@)
    }

    fn to_match_expr(&self) -> (r: MatchExpr) {
        MatchExpr::literal(self.as_str())
    }
}

/// The expressions of a sequence of predicates.
pub open spec fn exprs_of<T: TextPredicate>(s: Seq<T>) -> Seq<Expr> {
    s.map_values(|x: T| x.expr())
}

impl<T: TextPredicate> TextPredicate for [T] {
    open spec fn expr(&self) -> Expr {
        Expr::Chain(exprs_of(self@))
    }

    fn to_match_expr(&self) -> (r: MatchExpr) {
        let mut v: Vec<MatchExpr> = Vec::new();
        let mut i: usize = 0;
        while i < self.len()
            invariant
                i <= self@.len(),
                v@.len() == i,
                forall|j: int| 0 <= j < i ==> #[trigger] v@[j]@ == self@[j].expr(),
            decreases self@.len() - i,
        {
            v.push(self[i].to_match_expr());
            i = i + 1;
        }
        proof {
            lemma_views(v@);
            assert(views(v@) =~= exprs_of(self@));
        }
        MatchExpr::sequence(v)
    }
}

impl<T: TextPredicate> TextPredicate for Vec<T> {
    open spec fn expr(&self) -> Expr {
        Expr::Chain(exprs_of(self@))
    }

    fn to_match_expr(&self) -> (r: MatchExpr) {
        self.as_slice().to_match_expr()
    }
}

impl<T: TextPredicate> TextPredicate for Range<T> {
    open spec fn expr(&self) -> Expr {
        Expr::Span(Box::new(self.start.expr()), Box::new(self.end.expr()))
    }

    fn to_match_expr(&self) -> (r: MatchExpr) {
        MatchExpr::span(self.start.to_match_expr(), self.end.to_match_expr())
    }
}

/* TUPLES: each element in turn, as a fixed sequence */

impl<A: TextPredicate, B: TextPredicate> TextPredicate for (A, B) {
    open spec fn expr(&self) -> Expr {
        Expr::Chain(seq![self.0.expr(), self.1.expr()])
    }

    fn to_match_expr(&self) -> (r: MatchExpr) {
        let mut v: Vec<MatchExpr> = Vec::new();
        v.push(self.0.to_match_expr());
        v.push(self.1.to_match_expr());
        proof {
            lemma_views(v@);
            assert(views(v@) =~= seq![self.0.expr(), self.1.expr()]);
        }
        MatchExpr::sequence(v)
    }
}

impl<A: TextPredicate, B: TextPredicate, C: TextPredicate> TextPredicate for (A, B, C) {
    open spec fn expr(&self) -> Expr {
        Expr::Chain(seq![self.0.expr(), self.1.expr(), self.2.expr()])
    }

    fn to_match_expr(&self) -> (r: MatchExpr) {
        let mut v: Vec<MatchExpr> = Vec::new();
        v.push(self.0.to_match_expr());
        v.push(self.1.to_match_expr());
        v.push(self.2.to_match_expr());
        proof {
            lemma_views(v@);
            assert(views(v@) =~= seq![self.0.expr(), self.1.expr(), self.2.expr()]);
        }
        MatchExpr::sequence(v)
    }
}

impl<A: TextPredicate, B: TextPredicate, C: TextPredicate, D: TextPredicate> TextPredicate for (A, B, C, D) {
    open spec fn expr(&self) -> Expr {
        Expr::Chain(seq![self.0.expr(), self.1.expr(), self.2.expr(), self.3.expr()])
    }

    fn to_match_expr(&self) -> (r: MatchExpr) {
        let mut v: Vec<MatchExpr> = Vec::new();
        v.push(self.0.to_match_expr());
        v.push(self.1.to_match_expr());
        v.push(self.2.to_match_expr());
        v.push(self.3.to_match_expr());
        proof {
            lemma_views(v@);
            assert(views(v@) =~= seq![self.0.expr(), self.1.expr(), self.2.expr(), self.3.expr()]);
        }
        MatchExpr::sequence(v)
    }
}

impl<A: TextPredicate, B: TextPredicate, C: TextPredicate, D: TextPredicate, E: TextPredicate> TextPredicate for (A, B, C, D, E) {
    open spec fn expr(&self) -> Expr {
        Expr::Chain(seq![self.0.expr(), self.1.expr(), self.2.expr(), self.3.expr(), self.4.expr()])
    }

    fn to_match_expr(&self) -> (r: MatchExpr) {
        let mut v: Vec<MatchExpr> = Vec::new();
        v.push(self.0.to_match_expr());
        v.push(self.1.to_match_expr());
        v.push(self.2.to_match_expr());
        v.push(self.3.to_match_expr());
        v.push(self.4.to_match_expr());
        proof {
            lemma_views(v@);
            assert(views(v@) =~= seq![self.0.expr(), self.1.expr(), self.2.expr(), self.3.expr(), self.4.expr()]);
        }
        MatchExpr::sequence(v)
    }
}

impl<A: TextPredicate, B: TextPredicate, C: TextPredicate, D: TextPredicate, E: TextPredicate, F: TextPredicate> TextPredicate for (A, B, C, D, E, F) {
    open spec fn expr(&self) -> Expr {
        Expr::Chain(seq![self.0.expr(), self.1.expr(), self.2.expr(), self.3.expr(), self.4.expr(), self.5.expr()])
    }

    fn to_match_expr(&self) -> (r: MatchExpr) {
        let mut v: Vec<MatchExpr> = Vec::new();
        v.push(self.0.to_match_expr());
        v.push(self.1.to_match_expr());
        v.push(self.2.to_match_expr());
        v.push(self.3.to_match_expr());
        v.push(self.4.to_match_expr());
        v.push(self.5.to_match_expr());
        proof {
            lemma_views(v@);
            assert(views(v@) =~= seq![self.0.expr(), self.1.expr(), self.2.expr(), self.3.expr(), self.4.expr(), self.5.expr()]);
        }
        MatchExpr::sequence(v)
    }
}

impl<A: TextPredicate, B: TextPredicate, C: TextPredicate, D: TextPredicate, E: TextPredicate, F: TextPredicate, G: TextPredicate> TextPredicate for (A, B, C, D, E, F, G) {
    open spec fn expr(&self) -> Expr {
        Expr::Chain(seq![self.0.expr(), self.1.expr(), self.2.expr(), self.3.expr(), self.4.expr(), self.5.expr(), self.6.expr()])
    }

    fn to_match_expr(&self) -> (r: MatchExpr) {
        let mut v: Vec<MatchExpr> = Vec::new();
        v.push(self.0.to_match_expr());
        v.push(self.1.to_match_expr());
        v.push(self.2.to_match_expr());
        v.push(self.3.to_match_expr());
        v.push(self.4.to_match_expr());
        v.push(self.5.to_match_expr());
        v.push(self.6.to_match_expr());
        proof {
            lemma_views(v@);
            assert(views(v@) =~= seq![self.0.expr(), self.1.expr(), self.2.expr(), self.3.expr(), self.4.expr(), self.5.expr(), self.6.expr()]);
        }
        MatchExpr::sequence(v)
    }
}

impl<A: TextPredicate, B: TextPredicate, C: TextPredicate, D: TextPredicate, E: TextPredicate, F: TextPredicate, G: TextPredicate, H: TextPredicate> TextPredicate for (A, B, C, D, E, F, G, H) {
    open spec fn expr(&self) -> Expr {
        Expr::Chain(seq![self.0.expr(), self.1.expr(), self.2.expr(), self.3.expr(), self.4.expr(), self.5.expr(), self.6.expr(), self.7.expr()])
    }

    fn to_match_expr(&self) -> (r: MatchExpr) {
        let mut v: Vec<MatchExpr> = Vec::new();
        v.push(self.0.to_match_expr());
        v.push(self.1.to_match_expr());
        v.push(self.2.to_match_expr());
        v.push(self.3.to_match_expr());
        v.push(self.4.to_match_expr());
        v.push(self.5.to_match_expr());
        v.push(self.6.to_match_expr());
        v.push(self.7.to_match_expr());
        proof {
            lemma_views(v@);
            assert(views(v@) =~= seq![self.0.expr(), self.1.expr(), self.2.expr(), self.3.expr(), self.4.expr(), self.5.expr(), self.6.expr(), self.7.expr()]);
        }
        MatchExpr::sequence(v)
    }
}

impl<A: TextPredicate, B: TextPredicate, C: TextPredicate, D: TextPredicate, E: TextPredicate, F: TextPredicate, G: TextPredicate, H: TextPredicate, I: TextPredicate> TextPredicate for (A, B, C, D, E, F, G, H, I) {
    open spec fn expr(&self) -> Expr {
        Expr::Chain(seq![self.0.expr(), self.1.expr(), self.2.expr(), self.3.expr(), self.4.expr(), self.5.expr(), self.6.expr(), self.7.expr(), self.8.expr()])
    }

    fn to_match_expr(&self) -> (r: MatchExpr) {
        let mut v: Vec<MatchExpr> = Vec::new();
        v.push(self.0.to_match_expr());
        v.push(self.1.to_match_expr());
        v.push(self.2.to_match_expr());
        v.push(self.3.to_match_expr());
        v.push(self.4.to_match_expr());
        v.push(self.5.to_match_expr());
        v.push(self.6.to_match_expr());
        v.push(self.7.to_match_expr());
        v.push(self.8.to_match_expr());
        proof {
            lemma_views(v@);
            assert(views(v@) =~= seq![self.0.expr(), self.1.expr(), self.2.expr(), self.3.expr(), self.4.expr(), self.5.expr(), self.6.expr(), self.7.expr(), self.8.expr()]);
        }
        MatchExpr::sequence(v)
    }
}

impl<A: TextPredicate, B: TextPredicate, C: TextPredicate, D: TextPredicate, E: TextPredicate, F: TextPredicate, G: TextPredicate, H: TextPredicate, I: TextPredicate, J: TextPredicate> TextPredicate for (A, B, C, D, E, F, G, H, I, J) {
    open spec fn expr(&self) -> Expr {
        Expr::Chain(seq![self.0.expr(), self.1.expr(), self.2.expr(), self.3.expr(), self.4.expr(), self.5.expr(), self.6.expr(), self.7.expr(), self.8.expr(), self.9.expr()])
    }

    fn to_match_expr(&self) -> (r: MatchExpr) {
        let mut v: Vec<MatchExpr> = Vec::new();
        v.push(self.0.to_match_expr());
        v.push(self.1.to_match_expr());
        v.push(self.2.to_match_expr());
        v.push(self.3.to_match_expr());
        v.push(self.4.to_match_expr());
        v.push(self.5.to_match_expr());
        v.push(self.6.to_match_expr());
        v.push(self.7.to_match_expr());
        v.push(self.8.to_match_expr());
        v.push(self.9.to_match_expr());
        proof {
            lemma_views(v@);
            assert(views(v@) =~= seq![self.0.expr(), self.1.expr(), self.2.expr(), self.3.expr(), self.4.expr(), self.5.expr(), self.6.expr(), self.7.expr(), self.8.expr(), self.9.expr()]);
        }
        MatchExpr::sequence(v)
    }
}

impl<A: TextPredicate, B: TextPredicate, C: TextPredicate, D: TextPredicate, E: TextPredicate, F: TextPredicate, G: TextPredicate, H: TextPredicate, I: TextPredicate, J: TextPredicate, K: TextPredicate> TextPredicate for (A, B, C, D, E, F, G, H, I, J, K) {
    open spec fn expr(&self) -> Expr {
        Expr::Chain(seq![self.0.expr(), self.1.expr(), self.2.expr(), self.3.expr(), self.4.expr(), self.5.expr(), self.6.expr(), self.7.expr(), self.8.expr(), self.9.expr(), self.10.expr()])
    }

    fn to_match_expr(&self) -> (r: MatchExpr) {
        let mut v: Vec<MatchExpr> = Vec::new();
        v.push(self.0.to_match_expr());
        v.push(self.1.to_match_expr());
        v.push(self.2.to_match_expr());
        v.push(self.3.to_match_expr());
        v.push(self.4.to_match_expr());
        v.push(self.5.to_match_expr());
        v.push(self.6.to_match_expr());
        v.push(self.7.to_match_expr());
        v.push(self.8.to_match_expr());
        v.push(self.9.to_match_expr());
        v.push(self.10.to_match_expr());
        proof {
            lemma_views(v@);
            assert(views(v@) =~= seq![self.0.expr(), self.1.expr(), self.2.expr(), self.3.expr(), self.4.expr(), self.5.expr(), self.6.expr(), self.7.expr(), self.8.expr(), self.9.expr(), self.10.expr()]);
        }
        MatchExpr::sequence(v)
    }
}

impl<A: TextPredicate, B: TextPredicate, C: TextPredicate, D: TextPredicate, E: TextPredicate, F: TextPredicate, G: TextPredicate, H: TextPredicate, I: TextPredicate, J: TextPredicate, K: TextPredicate, L: TextPredicate> TextPredicate for (A, B, C, D, E, F, G, H, I, J, K, L) {
    open spec fn expr(&self) -> Expr {
        Expr::Chain(seq![self.0.expr(), self.1.expr(), self.2.expr(), self.3.expr(), self.4.expr(), self.5.expr(), self.6.expr(), self.7.expr(), self.8.expr(), self.9.expr(), self.10.expr(), self.11.expr()])
    }

    fn to_match_expr(&self) -> (r: MatchExpr) {
        let mut v: Vec<MatchExpr> = Vec::new();
        v.push(self.0.to_match_expr());
        v.push(self.1.to_match_expr());
        v.push(self.2.to_match_expr());
        v.push(self.3.to_match_expr());
        v.push(self.4.to_match_expr());
        v.push(self.5.to_match_expr());
        v.push(self.6.to_match_expr());
        v.push(self.7.to_match_expr());
        v.push(self.8.to_match_expr());
        v.push(self.9.to_match_expr());
        v.push(self.10.to_match_expr());
        v.push(self.11.to_match_expr());
        proof {
            lemma_views(v@);
            assert(views(v@) =~= seq![self.0.expr(), self.1.expr(), self.2.expr(), self.3.expr(), self.4.expr(), self.5.expr(), self.6.expr(), self.7.expr(), self.8.expr(), self.9.expr(), self.10.expr(), self.11.expr()]);
        }
        MatchExpr::sequence(v)
    }
}

impl<A: TextPredicate, B: TextPredicate, C: TextPredicate, D: TextPredicate, E: TextPredicate, F: TextPredicate, G: TextPredicate, H: TextPredicate, I: TextPredicate, J: TextPredicate, K: TextPredicate, L: TextPredicate, M: TextPredicate> TextPredicate for (A, B, C, D, E, F, G, H, I, J, K, L, M) {
    open spec fn expr(&self) -> Expr {
        Expr::Chain(seq![self.0.expr(), self.1.expr(), self.2.expr(), self.3.expr(), self.4.expr(), self.5.expr(), self.6.expr(), self.7.expr(), self.8.expr(), self.9.expr(), self.10.expr(), self.11.expr(), self.12.expr()])
    }

    fn to_match_expr(&self) -> (r: MatchExpr) {
        let mut v: Vec<MatchExpr> = Vec::new();
        v.push(self.0.to_match_expr());
        v.push(self.1.to_match_expr());
        v.push(self.2.to_match_expr());
        v.push(self.3.to_match_expr());
        v.push(self.4.to_match_expr());
        v.push(self.5.to_match_expr());
        v.push(self.6.to_match_expr());
        v.push(self.7.to_match_expr());
        v.push(self.8.to_match_expr());
        v.push(self.9.to_match_expr());
        v.push(self.10.to_match_expr());
        v.push(self.11.to_match_expr());
        v.push(self.12.to_match_expr());
        proof {
            lemma_views(v@);
            assert(views(v@) =~= seq![self.0.expr(), self.1.expr(), self.2.expr(), self.3.expr(), self.4.expr(), self.5.expr(), self.6.expr(), self.7.expr(), self.8.expr(), self.9.expr(), self.10.expr(), self.11.expr(), self.12.expr()]);
        }
        MatchExpr::sequence(v)
    }
}

impl<A: TextPredicate, B: TextPredicate, C: TextPredicate, D: TextPredicate, E: TextPredicate, F: TextPredicate, G: TextPredicate, H: TextPredicate, I: TextPredicate, J: TextPredicate, K: TextPredicate, L: TextPredicate, M: TextPredicate, N: TextPredicate> TextPredicate for (A, B, C, D, E, F, G, H, I, J, K, L, M, N) {
    open spec fn expr(&self) -> Expr {
        Expr::Chain(seq![self.0.expr(), self.1.expr(), self.2.expr(), self.3.expr(), self.4.expr(), self.5.expr(), self.6.expr(), self.7.expr(), self.8.expr(), self.9.expr(), self.10.expr(), self.11.expr(), self.12.expr(), self.13.expr()])
    }

    fn to_match_expr(&self) -> (r: MatchExpr) {
        let mut v: Vec<MatchExpr> = Vec::new();
        v.push(self.0.to_match_expr());
        v.push(self.1.to_match_expr());
        v.push(self.2.to_match_expr());
        v.push(self.3.to_match_expr());
        v.push(self.4.to_match_expr());
        v.push(self.5.to_match_expr());
        v.push(self.6.to_match_expr());
        v.push(self.7.to_match_expr());
        v.push(self.8.to_match_expr());
        v.push(self.9.to_match_expr());
        v.push(self.10.to_match_expr());
        v.push(self.11.to_match_expr());
        v.push(self.12.to_match_expr());
        v.push(self.13.to_match_expr());
        proof {
            lemma_views(v@);
            assert(views(v@) =~= seq![self.0.expr(), self.1.expr(), self.2.expr(), self.3.expr(), self.4.expr(), self.5.expr(), self.6.expr(), self.7.expr(), self.8.expr(), self.9.expr(), self.10.expr(), self.11.expr(), self.12.expr(), self.13.expr()]);
        }
        MatchExpr::sequence(v)
    }
}

impl<A: TextPredicate, B: TextPredicate, C: TextPredicate, D: TextPredicate, E: TextPredicate, F: TextPredicate, G: TextPredicate, H: TextPredicate, I: TextPredicate, J: TextPredicate, K: TextPredicate, L: TextPredicate, M: TextPredicate, N: TextPredicate, O: TextPredicate> TextPredicate for (A, B, C, D, E, F, G, H, I, J, K, L, M, N, O) {
    open spec fn expr(&self) -> Expr {
        Expr::Chain(seq![self.0.expr(), self.1.expr(), self.2.expr(), self.3.expr(), self.4.expr(), self.5.expr(), self.6.expr(), self.7.expr(), self.8.expr(), self.9.expr(), self.10.expr(), self.11.expr(), self.12.expr(), self.13.expr(), self.14.expr()])
    }

    fn to_match_expr(&self) -> (r: MatchExpr) {
        let mut v: Vec<MatchExpr> = Vec::new();
        v.push(self.0.to_match_expr());
        v.push(self.1.to_match_expr());
        v.push(self.2.to_match_expr());
        v.push(self.3.to_match_expr());
        v.push(self.4.to_match_expr());
        v.push(self.5.to_match_expr());
        v.push(self.6.to_match_expr());
        v.push(self.7.to_match_expr());
        v.push(self.8.to_match_expr());
        v.push(self.9.to_match_expr());
        v.push(self.10.to_match_expr());
        v.push(self.11.to_match_expr());
        v.push(self.12.to_match_expr());
        v.push(self.13.to_match_expr());
        v.push(self.14.to_match_expr());
        proof {
            lemma_views(v@);
            assert(views(v@) =~= seq![self.0.expr(), self.1.expr(), self.2.expr(), self.3.expr(), self.4.expr(), self.5.expr(), self.6.expr(), self.7.expr(), self.8.expr(), self.9.expr(), self.10.expr(), self.11.expr(), self.12.expr(), self.13.expr(), self.14.expr()]);
        }
        MatchExpr::sequence(v)
    }
}

impl<A: TextPredicate, B: TextPredicate, C: TextPredicate, D: TextPredicate, E: TextPredicate, F: TextPredicate, G: TextPredicate, H: TextPredicate, I: TextPredicate, J: TextPredicate, K: TextPredicate, L: TextPredicate, M: TextPredicate, N: TextPredicate, O: TextPredicate, P: TextPredicate> TextPredicate for (A, B, C, D, E, F, G, H, I, J, K, L, M, N, O, P) {
    open spec fn expr(&self) -> Expr {
        Expr::Chain(seq![self.0.expr(), self.1.expr(), self.2.expr(), self.3.expr(), self.4.expr(), self.5.expr(), self.6.expr(), self.7.expr(), self.8.expr(), self.9.expr(), self.10.expr(), self.11.expr(), self.12.expr(), self.13.expr(), self.14.expr(), self.15.expr()])
    }

    fn to_match_expr(&self) -> (r: MatchExpr) {
        let mut v: Vec<MatchExpr> = Vec::new();
        v.push(self.0.to_match_expr());
        v.push(self.1.to_match_expr());
        v.push(self.2.to_match_expr());
        v.push(self.3.to_match_expr());
        v.push(self.4.to_match_expr());
        v.push(self.5.to_match_expr());
        v.push(self.6.to_match_expr());
        v.push(self.7.to_match_expr());
        v.push(self.8.to_match_expr());
        v.push(self.9.to_match_expr());
        v.push(self.10.to_match_expr());
        v.push(self.11.to_match_expr());
        v.push(self.12.to_match_expr());
        v.push(self.13.to_match_expr());
        v.push(self.14.to_match_expr());
        v.push(self.15.to_match_expr());
        proof {
            lemma_views(v@);
            assert(views(v@) =~= seq![self.0.expr(), self.1.expr(), self.2.expr(), self.3.expr(), self.4.expr(), self.5.expr(), self.6.expr(), self.7.expr(), self.8.expr(), self.9.expr(), self.10.expr(), self.11.expr(), self.12.expr(), self.13.expr(), self.14.expr(), self.15.expr()]);
        }
        MatchExpr::sequence(v)
    }
}

impl<A: TextPredicate, B: TextPredicate, C: TextPredicate, D: TextPredicate, E: TextPredicate, F: TextPredicate, G: TextPredicate, H: TextPredicate, I: TextPredicate, J: TextPredicate, K: TextPredicate, L: TextPredicate, M: TextPredicate, N: TextPredicate, O: TextPredicate, P: TextPredicate, Q: TextPredicate> TextPredicate for (A, B, C, D, E, F, G, H, I, J, K, L, M, N, O, P, Q) {
    open spec fn expr(&self) -> Expr {
        Expr::Chain(seq![self.0.expr(), self.1.expr(), self.2.expr(), self.3.expr(), self.4.expr(), self.5.expr(), self.6.expr(), self.7.expr(), self.8.expr(), self.9.expr(), self.10.expr(), self.11.expr(), self.12.expr(), self.13.expr(), self.14.expr(), self.15.expr(), self.16.expr()])
    }

    fn to_match_expr(&self) -> (r: MatchExpr) {
        let mut v: Vec<MatchExpr> = Vec::new();
        v.push(self.0.to_match_expr());
        v.push(self.1.to_match_expr());
        v.push(self.2.to_match_expr());
        v.push(self.3.to_match_expr());
        v.push(self.4.to_match_expr());
        v.push(self.5.to_match_expr());
        v.push(self.6.to_match_expr());
        v.push(self.7.to_match_expr());
        v.push(self.8.to_match_expr());
        v.push(self.9.to_match_expr());
        v.push(self.10.to_match_expr());
        v.push(self.11.to_match_expr());
        v.push(self.12.to_match_expr());
        v.push(self.13.to_match_expr());
        v.push(self.14.to_match_expr());
        v.push(self.15.to_match_expr());
        v.push(self.16.to_match_expr());
        proof {
            lemma_views(v@);
            assert(views(v@) =~= seq![self.0.expr(), self.1.expr(), self.2.expr(), self.3.expr(), self.4.expr(), self.5.expr(), self.6.expr(), self.7.expr(), self.8.expr(), self.9.expr(), self.10.expr(), self.11.expr(), self.12.expr(), self.13.expr(), self.14.expr(), self.15.expr(), self.16.expr()]);
        }
        MatchExpr::sequence(v)
    }
}

impl<A: TextPredicate, B: TextPredicate, C: TextPredicate, D: TextPredicate, E: TextPredicate, F: TextPredicate, G: TextPredicate, H: TextPredicate, I: TextPredicate, J: TextPredicate, K: TextPredicate, L: TextPredicate, M: TextPredicate, N: TextPredicate, O: TextPredicate, P: TextPredicate, Q: TextPredicate, R: TextPredicate> TextPredicate for (A, B, C, D, E, F, G, H, I, J, K, L, M, N, O, P, Q, R) {
    open spec fn expr(&self) -> Expr {
        Expr::Chain(seq![self.0.expr(), self.1.expr(), self.2.expr(), self.3.expr(), self.4.expr(), self.5.expr(), self.6.expr(), self.7.expr(), self.8.expr(), self.9.expr(), self.10.expr(), self.11.expr(), self.12.expr(), self.13.expr(), self.14.expr(), self.15.expr(), self.16.expr(), self.17.expr()])
    }

    fn to_match_expr(&self) -> (r: MatchExpr) {
        let mut v: Vec<MatchExpr> = Vec::new();
        v.push(self.0.to_match_expr());
        v.push(self.1.to_match_expr());
        v.push(self.2.to_match_expr());
        v.push(self.3.to_match_expr());
        v.push(self.4.to_match_expr());
        v.push(self.5.to_match_expr());
        v.push(self.6.to_match_expr());
        v.push(self.7.to_match_expr());
        v.push(self.8.to_match_expr());
        v.push(self.9.to_match_expr());
        v.push(self.10.to_match_expr());
        v.push(self.11.to_match_expr());
        v.push(self.12.to_match_expr());
        v.push(self.13.to_match_expr());
        v.push(self.14.to_match_expr());
        v.push(self.15.to_match_expr());
        v.push(self.16.to_match_expr());
        v.push(self.17.to_match_expr());
        proof {
            lemma_views(v@);
            assert(views(v@) =~= seq![self.0.expr(), self.1.expr(), self.2.expr(), self.3.expr(), self.4.expr(), self.5.expr(), self.6.expr(), self.7.expr(), self.8.expr(), self.9.expr(), self.10.expr(), self.11.expr(), self.12.expr(), self.13.expr(), self.14.expr(), self.15.expr(), self.16.expr(), self.17.expr()]);
        }
        MatchExpr::sequence(v)
    }
}

impl<A: TextPredicate, B: TextPredicate, C: TextPredicate, D: TextPredicate, E: TextPredicate, F: TextPredicate, G: TextPredicate, H: TextPredicate, I: TextPredicate, J: TextPredicate, K: TextPredicate, L: TextPredicate, M: TextPredicate, N: TextPredicate, O: TextPredicate, P: TextPredicate, Q: TextPredicate, R: TextPredicate, S: TextPredicate> TextPredicate for (A, B, C, D, E, F, G, H, I, J, K, L, M, N, O, P, Q, R, S) {
    open spec fn expr(&self) -> Expr {
        Expr::Chain(seq![self.0.expr(), self.1.expr(), self.2.expr(), self.3.expr(), self.4.expr(), self.5.expr(), self.6.expr(), self.7.expr(), self.8.expr(), self.9.expr(), self.10.expr(), self.11.expr(), self.12.expr(), self.13.expr(), self.14.expr(), self.15.expr(), self.16.expr(), self.17.expr(), self.18.expr()])
    }

    fn to_match_expr(&self) -> (r: MatchExpr) {
        let mut v: Vec<MatchExpr> = Vec::new();
        v.push(self.0.to_match_expr());
        v.push(self.1.to_match_expr());
        v.push(self.2.to_match_expr());
        v.push(self.3.to_match_expr());
        v.push(self.4.to_match_expr());
        v.push(self.5.to_match_expr());
        v.push(self.6.to_match_expr());
        v.push(self.7.to_match_expr());
        v.push(self.8.to_match_expr());
        v.push(self.9.to_match_expr());
        v.push(self.10.to_match_expr());
        v.push(self.11.to_match_expr());
        v.push(self.12.to_match_expr());
        v.push(self.13.to_match_expr());
        v.push(self.14.to_match_expr());
        v.push(self.15.to_match_expr());
        v.push(self.16.to_match_expr());
        v.push(self.17.to_match_expr());
        v.push(self.18.to_match_expr());
        proof {
            lemma_views(v@);
            assert(views(v@) =~= seq![self.0.expr(), self.1.expr(), self.2.expr(), self.3.expr(), self.4.expr(), self.5.expr(), self.6.expr(), self.7.expr(), self.8.expr(), self.9.expr(), self.10.expr(), self.11.expr(), self.12.expr(), self.13.expr(), self.14.expr(), self.15.expr(), self.16.expr(), self.17.expr(), self.18.expr()]);
        }
        MatchExpr::sequence(v)
    }
}

impl<A: TextPredicate, B: TextPredicate, C: TextPredicate, D: TextPredicate, E: TextPredicate, F: TextPredicate, G: TextPredicate, H: TextPredicate, I: TextPredicate, J: TextPredicate, K: TextPredicate, L: TextPredicate, M: TextPredicate, N: TextPredicate, O: TextPredicate, P: TextPredicate, Q: TextPredicate, R: TextPredicate, S: TextPredicate, T: TextPredicate> TextPredicate for (A, B, C, D, E, F, G, H, I, J, K, L, M, N, O, P, Q, R, S, T) {
    open spec fn expr(&self) -> Expr {
        Expr::Chain(seq![self.0.expr(), self.1.expr(), self.2.expr(), self.3.expr(), self.4.expr(), self.5.expr(), self.6.expr(), self.7.expr(), self.8.expr(), self.9.expr(), self.10.expr(), self.11.expr(), self.12.expr(), self.13.expr(), self.14.expr(), self.15.expr(), self.16.expr(), self.17.expr(), self.18.expr(), self.19.expr()])
    }

    fn to_match_expr(&self) -> (r: MatchExpr) {
        let mut v: Vec<MatchExpr> = Vec::new();
        v.push(self.0.to_match_expr());
        v.push(self.1.to_match_expr());
        v.push(self.2.to_match_expr());
        v.push(self.3.to_match_expr());
        v.push(self.4.to_match_expr());
        v.push(self.5.to_match_expr());
        v.push(self.6.to_match_expr());
        v.push(self.7.to_match_expr());
        v.push(self.8.to_match_expr());
        v.push(self.9.to_match_expr());
        v.push(self.10.to_match_expr());
        v.push(self.11.to_match_expr());
        v.push(self.12.to_match_expr());
        v.push(self.13.to_match_expr());
        v.push(self.14.to_match_expr());
        v.push(self.15.to_match_expr());
        v.push(self.16.to_match_expr());
        v.push(self.17.to_match_expr());
        v.push(self.18.to_match_expr());
        v.push(self.19.to_match_expr());
        proof {
            lemma_views(v@);
            assert(views(v@) =~= seq![self.0.expr(), self.1.expr(), self.2.expr(), self.3.expr(), self.4.expr(), self.5.expr(), self.6.expr(), self.7.expr(), self.8.expr(), self.9.expr(), self.10.expr(), self.11.expr(), self.12.expr(), self.13.expr(), self.14.expr(), self.15.expr(), self.16.expr(), self.17.expr(), self.18.expr(), self.19.expr()]);
        }
        MatchExpr::sequence(v)
    }
}

impl<A: TextPredicate, B: TextPredicate, C: TextPredicate, D: TextPredicate, E: TextPredicate, F: TextPredicate, G: TextPredicate, H: TextPredicate, I: TextPredicate, J: TextPredicate, K: TextPredicate, L: TextPredicate, M: TextPredicate, N: TextPredicate, O: TextPredicate, P: TextPredicate, Q: TextPredicate, R: TextPredicate, S: TextPredicate, T: TextPredicate, U: TextPredicate> TextPredicate for (A, B, C, D, E, F, G, H, I, J, K, L, M, N, O, P, Q, R, S, T, U) {
    open spec fn expr(&self) -> Expr {
        Expr::Chain(seq![self.0.expr(), self.1.expr(), self.2.expr(), self.3.expr(), self.4.expr(), self.5.expr(), self.6.expr(), self.7.expr(), self.8.expr(), self.9.expr(), self.10.expr(), self.11.expr(), self.12.expr(), self.13.expr(), self.14.expr(), self.15.expr(), self.16.expr(), self.17.expr(), self.18.expr(), self.19.expr(), self.20.expr()])
    }

    fn to_match_expr(&self) -> (r: MatchExpr) {
        let mut v: Vec<MatchExpr> = Vec::new();
        v.push(self.0.to_match_expr());
        v.push(self.1.to_match_expr());
        v.push(self.2.to_match_expr());
        v.push(self.3.to_match_expr());
        v.push(self.4.to_match_expr());
        v.push(self.5.to_match_expr());
        v.push(self.6.to_match_expr());
        v.push(self.7.to_match_expr());
        v.push(self.8.to_match_expr());
        v.push(self.9.to_match_expr());
        v.push(self.10.to_match_expr());
        v.push(self.11.to_match_expr());
        v.push(self.12.to_match_expr());
        v.push(self.13.to_match_expr());
        v.push(self.14.to_match_expr());
        v.push(self.15.to_match_expr());
        v.push(self.16.to_match_expr());
        v.push(self.17.to_match_expr());
        v.push(self.18.to_match_expr());
        v.push(self.19.to_match_expr());
        v.push(self.20.to_match_expr());
        proof {
            lemma_views(v@);
            assert(views(v@) =~= seq![self.0.expr(), self.1.expr(), self.2.expr(), self.3.expr(), self.4.expr(), self.5.expr(), self.6.expr(), self.7.expr(), self.8.expr(), self.9.expr(), self.10.expr(), self.11.expr(), self.12.expr(), self.13.expr(), self.14.expr(), self.15.expr(), self.16.expr(), self.17.expr(), self.18.expr(), self.19.expr(), self.20.expr()]);
        }
        MatchExpr::sequence(v)
    }
}

impl<A: TextPredicate, B: TextPredicate, C: TextPredicate, D: TextPredicate, E: TextPredicate, F: TextPredicate, G: TextPredicate, H: TextPredicate, I: TextPredicate, J: TextPredicate, K: TextPredicate, L: TextPredicate, M: TextPredicate, N: TextPredicate, O: TextPredicate, P: TextPredicate, Q: TextPredicate, R: TextPredicate, S: TextPredicate, T: TextPredicate, U: TextPredicate, V: TextPredicate> TextPredicate for (A, B, C, D, E, F, G, H, I, J, K, L, M, N, O, P, Q, R, S, T, U, V) {
    open spec fn expr(&self) -> Expr {
        Expr::Chain(seq![self.0.expr(), self.1.expr(), self.2.expr(), self.3.expr(), self.4.expr(), self.5.expr(), self.6.expr(), self.7.expr(), self.8.expr(), self.9.expr(), self.10.expr(), self.11.expr(), self.12.expr(), self.13.expr(), self.14.expr(), self.15.expr(), self.16.expr(), self.17.expr(), self.18.expr(), self.19.expr(), self.20.expr(), self.21.expr()])
    }

    fn to_match_expr(&self) -> (r: MatchExpr) {
        let mut v: Vec<MatchExpr> = Vec::new();
        v.push(self.0.to_match_expr());
        v.push(self.1.to_match_expr());
        v.push(self.2.to_match_expr());
        v.push(self.3.to_match_expr());
        v.push(self.4.to_match_expr());
        v.push(self.5.to_match_expr());
        v.push(self.6.to_match_expr());
        v.push(self.7.to_match_expr());
        v.push(self.8.to_match_expr());
        v.push(self.9.to_match_expr());
        v.push(self.10.to_match_expr());
        v.push(self.11.to_match_expr());
        v.push(self.12.to_match_expr());
        v.push(self.13.to_match_expr());
        v.push(self.14.to_match_expr());
        v.push(self.15.to_match_expr());
        v.push(self.16.to_match_expr());
        v.push(self.17.to_match_expr());
        v.push(self.18.to_match_expr());
        v.push(self.19.to_match_expr());
        v.push(self.20.to_match_expr());
        v.push(self.21.to_match_expr());
        proof {
            lemma_views(v@);
            assert(views(v@) =~= seq![self.0.expr(), self.1.expr(), self.2.expr(), self.3.expr(), self.4.expr(), self.5.expr(), self.6.expr(), self.7.expr(), self.8.expr(), self.9.expr(), self.10.expr(), self.11.expr(), self.12.expr(), self.13.expr(), self.14.expr(), self.15.expr(), self.16.expr(), self.17.expr(), self.18.expr(), self.19.expr(), self.20.expr(), self.21.expr()]);
        }
        MatchExpr::sequence(v)
    }
}

impl<A: TextPredicate, B: TextPredicate, C: TextPredicate, D: TextPredicate, E: TextPredicate, F: TextPredicate, G: TextPredicate, H: TextPredicate, I: TextPredicate, J: TextPredicate, K: TextPredicate, L: TextPredicate, M: TextPredicate, N: TextPredicate, O: TextPredicate, P: TextPredicate, Q: TextPredicate, R: TextPredicate, S: TextPredicate, T: TextPredicate, U: TextPredicate, V: TextPredicate, W: TextPredicate> TextPredicate for (A, B, C, D, E, F, G, H, I, J, K, L, M, N, O, P, Q, R, S, T, U, V, W) {
    open spec fn expr(&self) -> Expr {
        Expr::Chain(seq![self.0.expr(), self.1.expr(), self.2.expr(), self.3.expr(), self.4.expr(), self.5.expr(), self.6.expr(), self.7.expr(), self.8.expr(), self.9.expr(), self.10.expr(), self.11.expr(), self.12.expr(), self.13.expr(), self.14.expr(), self.15.expr(), self.16.expr(), self.17.expr(), self.18.expr(), self.19.expr(), self.20.expr(), self.21.expr(), self.22.expr()])
    }

    fn to_match_expr(&self) -> (r: MatchExpr) {
        let mut v: Vec<MatchExpr> = Vec::new();
        v.push(self.0.to_match_expr());
        v.push(self.1.to_match_expr());
        v.push(self.2.to_match_expr());
        v.push(self.3.to_match_expr());
        v.push(self.4.to_match_expr());
        v.push(self.5.to_match_expr());
        v.push(self.6.to_match_expr());
        v.push(self.7.to_match_expr());
        v.push(self.8.to_match_expr());
        v.push(self.9.to_match_expr());
        v.push(self.10.to_match_expr());
        v.push(self.11.to_match_expr());
        v.push(self.12.to_match_expr());
        v.push(self.13.to_match_expr());
        v.push(self.14.to_match_expr());
        v.push(self.15.to_match_expr());
        v.push(self.16.to_match_expr());
        v.push(self.17.to_match_expr());
        v.push(self.18.to_match_expr());
        v.push(self.19.to_match_expr());
        v.push(self.20.to_match_expr());
        v.push(self.21.to_match_expr());
        v.push(self.22.to_match_expr());
        proof {
            lemma_views(v@);
            assert(views(v@) =~= seq![self.0.expr(), self.1.expr(), self.2.expr(), self.3.expr(), self.4.expr(), self.5.expr(), self.6.expr(), self.7.expr(), self.8.expr(), self.9.expr(), self.10.expr(), self.11.expr(), self.12.expr(), self.13.expr(), self.14.expr(), self.15.expr(), self.16.expr(), self.17.expr(), self.18.expr(), self.19.expr(), self.20.expr(), self.21.expr(), self.22.expr()]);
        }
        MatchExpr::sequence(v)
    }
}

impl<A: TextPredicate, B: TextPredicate, C: TextPredicate, D: TextPredicate, E: TextPredicate, F: TextPredicate, G: TextPredicate, H: TextPredicate, I: TextPredicate, J: TextPredicate, K: TextPredicate, L: TextPredicate, M: TextPredicate, N: TextPredicate, O: TextPredicate, P: TextPredicate, Q: TextPredicate, R: TextPredicate, S: TextPredicate, T: TextPredicate, U: TextPredicate, V: TextPredicate, W: TextPredicate, X: TextPredicate> TextPredicate for (A, B, C, D, E, F, G, H, I, J, K, L, M, N, O, P, Q, R, S, T, U, V, W, X) {
    open spec fn expr(&self) -> Expr {
        Expr::Chain(seq![self.0.expr(), self.1.expr(), self.2.expr(), self.3.expr(), self.4.expr(), self.5.expr(), self.6.expr(), self.7.expr(), self.8.expr(), self.9.expr(), self.10.expr(), self.11.expr(), self.12.expr(), self.13.expr(), self.14.expr(), self.15.expr(), self.16.expr(), self.17.expr(), self.18.expr(), self.19.expr(), self.20.expr(), self.21.expr(), self.22.expr(), self.23.expr()])
    }

    fn to_match_expr(&self) -> (r: MatchExpr) {
        let mut v: Vec<MatchExpr> = Vec::new();
        v.push(self.0.to_match_expr());
        v.push(self.1.to_match_expr());
        v.push(self.2.to_match_expr());
        v.push(self.3.to_match_expr());
        v.push(self.4.to_match_expr());
        v.push(self.5.to_match_expr());
        v.push(self.6.to_match_expr());
        v.push(self.7.to_match_expr());
        v.push(self.8.to_match_expr());
        v.push(self.9.to_match_expr());
        v.push(self.10.to_match_expr());
        v.push(self.11.to_match_expr());
        v.push(self.12.to_match_expr());
        v.push(self.13.to_match_expr());
        v.push(self.14.to_match_expr());
        v.push(self.15.to_match_expr());
        v.push(self.16.to_match_expr());
        v.push(self.17.to_match_expr());
        v.push(self.18.to_match_expr());
        v.push(self.19.to_match_expr());
        v.push(self.20.to_match_expr());
        v.push(self.21.to_match_expr());
        v.push(self.22.to_match_expr());
        v.push(self.23.to_match_expr());
        proof {
            lemma_views(v@);
            assert(views(v@) =~= seq![self.0.expr(), self.1.expr(), self.2.expr(), self.3.expr(), self.4.expr(), self.5.expr(), self.6.expr(), self.7.expr(), self.8.expr(), self.9.expr(), self.10.expr(), self.11.expr(), self.12.expr(), self.13.expr(), self.14.expr(), self.15.expr(), self.16.expr(), self.17.expr(), self.18.expr(), self.19.expr(), self.20.expr(), self.21.expr(), self.22.expr(), self.23.expr()]);
        }
        MatchExpr::sequence(v)
    }
}

impl<A: TextPredicate, B: TextPredicate, C: TextPredicate, D: TextPredicate, E: TextPredicate, F: TextPredicate, G: TextPredicate, H: TextPredicate, I: TextPredicate, J: TextPredicate, K: TextPredicate, L: TextPredicate, M: TextPredicate, N: TextPredicate, O: TextPredicate, P: TextPredicate, Q: TextPredicate, R: TextPredicate, S: TextPredicate, T: TextPredicate, U: TextPredicate, V: TextPredicate, W: TextPredicate, X: TextPredicate, Y: TextPredicate> TextPredicate for (A, B, C, D, E, F, G, H, I, J, K, L, M, N, O, P, Q, R, S, T, U, V, W, X, Y) {
    open spec fn expr(&self) -> Expr {
        Expr::Chain(seq![self.0.expr(), self.1.expr(), self.2.expr(), self.3.expr(), self.4.expr(), self.5.expr(), self.6.expr(), self.7.expr(), self.8.expr(), self.9.expr(), self.10.expr(), self.11.expr(), self.12.expr(), self.13.expr(), self.14.expr(), self.15.expr(), self.16.expr(), self.17.expr(), self.18.expr(), self.19.expr(), self.20.expr(), self.21.expr(), self.22.expr(), self.23.expr(), self.24.expr()])
    }

    fn to_match_expr(&self) -> (r: MatchExpr) {
        let mut v: Vec<MatchExpr> = Vec::new();
        v.push(self.0.to_match_expr());
        v.push(self.1.to_match_expr());
        v.push(self.2.to_match_expr());
        v.push(self.3.to_match_expr());
        v.push(self.4.to_match_expr());
        v.push(self.5.to_match_expr());
        v.push(self.6.to_match_expr());
        v.push(self.7.to_match_expr());
        v.push(self.8.to_match_expr());
        v.push(self.9.to_match_expr());
        v.push(self.10.to_match_expr());
        v.push(self.11.to_match_expr());
        v.push(self.12.to_match_expr());
        v.push(self.13.to_match_expr());
        v.push(self.14.to_match_expr());
        v.push(self.15.to_match_expr());
        v.push(self.16.to_match_expr());
        v.push(self.17.to_match_expr());
        v.push(self.18.to_match_expr());
        v.push(self.19.to_match_expr());
        v.push(self.20.to_match_expr());
        v.push(self.21.to_match_expr());
        v.push(self.22.to_match_expr());
        v.push(self.23.to_match_expr());
        v.push(self.24.to_match_expr());
        proof {
            lemma_views(v@);
            assert(views(v@) =~= seq![self.0.expr(), self.1.expr(), self.2.expr(), self.3.expr(), self.4.expr(), self.5.expr(), self.6.expr(), self.7.expr(), self.8.expr(), self.9.expr(), self.10.expr(), self.11.expr(), self.12.expr(), self.13.expr(), self.14.expr(), self.15.expr(), self.16.expr(), self.17.expr(), self.18.expr(), self.19.expr(), self.20.expr(), self.21.expr(), self.22.expr(), self.23.expr(), self.24.expr()]);
        }
        MatchExpr::sequence(v)
    }
}

impl<A: TextPredicate, B: TextPredicate, C: TextPredicate, D: TextPredicate, E: TextPredicate, F: TextPredicate, G: TextPredicate, H: TextPredicate, I: TextPredicate, J: TextPredicate, K: TextPredicate, L: TextPredicate, M: TextPredicate, N: TextPredicate, O: TextPredicate, P: TextPredicate, Q: TextPredicate, R: TextPredicate, S: TextPredicate, T: TextPredicate, U: TextPredicate, V: TextPredicate, W: TextPredicate, X: TextPredicate, Y: TextPredicate, Z: TextPredicate> TextPredicate for (A, B, C, D, E, F, G, H, I, J, K, L, M, N, O, P, Q, R, S, T, U, V, W, X, Y, Z) {
    open spec fn expr(&self) -> Expr {
        Expr::Chain(seq![self.0.expr(), self.1.expr(), self.2.expr(), self.3.expr(), self.4.expr(), self.5.expr(), self.6.expr(), self.7.expr(), self.8.expr(), self.9.expr(), self.10.expr(), self.11.expr(), self.12.expr(), self.13.expr(), self.14.expr(), self.15.expr(), self.16.expr(), self.17.expr(), self.18.expr(), self.19.expr(), self.20.expr(), self.21.expr(), self.22.expr(), self.23.expr(), self.24.expr(), self.25.expr()])
    }

    fn to_match_expr(&self) -> (r: MatchExpr) {
        let mut v: Vec<MatchExpr> = Vec::new();
        v.push(self.0.to_match_expr());
        v.push(self.1.to_match_expr());
        v.push(self.2.to_match_expr());
        v.push(self.3.to_match_expr());
        v.push(self.4.to_match_expr());
        v.push(self.5.to_match_expr());
        v.push(self.6.to_match_expr());
        v.push(self.7.to_match_expr());
        v.push(self.8.to_match_expr());
        v.push(self.9.to_match_expr());
        v.push(self.10.to_match_expr());
        v.push(self.11.to_match_expr());
        v.push(self.12.to_match_expr());
        v.push(self.13.to_match_expr());
        v.push(self.14.to_match_expr());
        v.push(self.15.to_match_expr());
        v.push(self.16.to_match_expr());
        v.push(self.17.to_match_expr());
        v.push(self.18.to_match_expr());
        v.push(self.19.to_match_expr());
        v.push(self.20.to_match_expr());
        v.push(self.21.to_match_expr());
        v.push(self.22.to_match_expr());
        v.push(self.23.to_match_expr());
        v.push(self.24.to_match_expr());
        v.push(self.25.to_match_expr());
        proof {
            lemma_views(v@);
            assert(views(v@) =~= seq![self.0.expr(), self.1.expr(), self.2.expr(), self.3.expr(), self.4.expr(), self.5.expr(), self.6.expr(), self.7.expr(), self.8.expr(), self.9.expr(), self.10.expr(), self.11.expr(), self.12.expr(), self.13.expr(), self.14.expr(), self.15.expr(), self.16.expr(), self.17.expr(), self.18.expr(), self.19.expr(), self.20.expr(), self.21.expr(), self.22.expr(), self.23.expr(), self.24.expr(), self.25.expr()]);
        }
        MatchExpr::sequence(v)
    }
}

impl<A: TextPredicate, B: TextPredicate, C: TextPredicate, D: TextPredicate, E: TextPredicate, F: TextPredicate, G: TextPredicate, H: TextPredicate, I: TextPredicate, J: TextPredicate, K: TextPredicate, L: TextPredicate, M: TextPredicate, N: TextPredicate, O: TextPredicate, P: TextPredicate, Q: TextPredicate, R: TextPredicate, S: TextPredicate, T: TextPredicate, U: TextPredicate, V: TextPredicate, W: TextPredicate, X: TextPredicate, Y: TextPredicate, Z: TextPredicate, AA: TextPredicate> TextPredicate for (A, B, C, D, E, F, G, H, I, J, K, L, M, N, O, P, Q, R, S, T, U, V, W, X, Y, Z, AA) {
    open spec fn expr(&self) -> Expr {
        Expr::Chain(seq![self.0.expr(), self.1.expr(), self.2.expr(), self.3.expr(), self.4.expr(), self.5.expr(), self.6.expr(), self.7.expr(), self.8.expr(), self.9.expr(), self.10.expr(), self.11.expr(), self.12.expr(), self.13.expr(), self.14.expr(), self.15.expr(), self.16.expr(), self.17.expr(), self.18.expr(), self.19.expr(), self.20.expr(), self.21.expr(), self.22.expr(), self.23.expr(), self.24.expr(), self.25.expr(), self.26.expr()])
    }

    fn to_match_expr(&self) -> (r: MatchExpr) {
        let mut v: Vec<MatchExpr> = Vec::new();
        v.push(self.0.to_match_expr());
        v.push(self.1.to_match_expr());
        v.push(self.2.to_match_expr());
        v.push(self.3.to_match_expr());
        v.push(self.4.to_match_expr());
        v.push(self.5.to_match_expr());
        v.push(self.6.to_match_expr());
        v.push(self.7.to_match_expr());
        v.push(self.8.to_match_expr());
        v.push(self.9.to_match_expr());
        v.push(self.10.to_match_expr());
        v.push(self.11.to_match_expr());
        v.push(self.12.to_match_expr());
        v.push(self.13.to_match_expr());
        v.push(self.14.to_match_expr());
        v.push(self.15.to_match_expr());
        v.push(self.16.to_match_expr());
        v.push(self.17.to_match_expr());
        v.push(self.18.to_match_expr());
        v.push(self.19.to_match_expr());
        v.push(self.20.to_match_expr());
        v.push(self.21.to_match_expr());
        v.push(self.22.to_match_expr());
        v.push(self.23.to_match_expr());
        v.push(self.24.to_match_expr());
        v.push(self.25.to_match_expr());
        v.push(self.26.to_match_expr());
        proof {
            lemma_views(v@);
            assert(views(v@) =~= seq![self.0.expr(), self.1.expr(), self.2.expr(), self.3.expr(), self.4.expr(), self.5.expr(), self.6.expr(), self.7.expr(), self.8.expr(), self.9.expr(), self.10.expr(), self.11.expr(), self.12.expr(), self.13.expr(), self.14.expr(), self.15.expr(), self.16.expr(), self.17.expr(), self.18.expr(), self.19.expr(), self.20.expr(), self.21.expr(), self.22.expr(), self.23.expr(), self.24.expr(), self.25.expr(), self.26.expr()]);
        }
        MatchExpr::sequence(v)
    }
}

impl<A: TextPredicate, B: TextPredicate, C: TextPredicate, D: TextPredicate, E: TextPredicate, F: TextPredicate, G: TextPredicate, H: TextPredicate, I: TextPredicate, J: TextPredicate, K: TextPredicate, L: TextPredicate, M: TextPredicate, N: TextPredicate, O: TextPredicate, P: TextPredicate, Q: TextPredicate, R: TextPredicate, S: TextPredicate, T: TextPredicate, U: TextPredicate, V: TextPredicate, W: TextPredicate, X: TextPredicate, Y: TextPredicate, Z: TextPredicate, AA: TextPredicate, AB: TextPredicate> TextPredicate for (A, B, C, D, E, F, G, H, I, J, K, L, M, N, O, P, Q, R, S, T, U, V, W, X, Y, Z, AA, AB) {
    open spec fn expr(&self) -> Expr {
        Expr::Chain(seq![self.0.expr(), self.1.expr(), self.2.expr(), self.3.expr(), self.4.expr(), self.5.expr(), self.6.expr(), self.7.expr(), self.8.expr(), self.9.expr(), self.10.expr(), self.11.expr(), self.12.expr(), self.13.expr(), self.14.expr(), self.15.expr(), self.16.expr(), self.17.expr(), self.18.expr(), self.19.expr(), self.20.expr(), self.21.expr(), self.22.expr(), self.23.expr(), self.24.expr(), self.25.expr(), self.26.expr(), self.27.expr()])
    }

    fn to_match_expr(&self) -> (r: MatchExpr) {
        let mut v: Vec<MatchExpr> = Vec::new();
        v.push(self.0.to_match_expr());
        v.push(self.1.to_match_expr());
        v.push(self.2.to_match_expr());
        v.push(self.3.to_match_expr());
        v.push(self.4.to_match_expr());
        v.push(self.5.to_match_expr());
        v.push(self.6.to_match_expr());
        v.push(self.7.to_match_expr());
        v.push(self.8.to_match_expr());
        v.push(self.9.to_match_expr());
        v.push(self.10.to_match_expr());
        v.push(self.11.to_match_expr());
        v.push(self.12.to_match_expr());
        v.push(self.13.to_match_expr());
        v.push(self.14.to_match_expr());
        v.push(self.15.to_match_expr());
        v.push(self.16.to_match_expr());
        v.push(self.17.to_match_expr());
        v.push(self.18.to_match_expr());
        v.push(self.19.to_match_expr());
        v.push(self.20.to_match_expr());
        v.push(self.21.to_match_expr());
        v.push(self.22.to_match_expr());
        v.push(self.23.to_match_expr());
        v.push(self.24.to_match_expr());
        v.push(self.25.to_match_expr());
        v.push(self.26.to_match_expr());
        v.push(self.27.to_match_expr());
        proof {
            lemma_views(v@);
            assert(views(v@) =~= seq![self.0.expr(), self.1.expr(), self.2.expr(), self.3.expr(), self.4.expr(), self.5.expr(), self.6.expr(), self.7.expr(), self.8.expr(), self.9.expr(), self.10.expr(), self.11.expr(), self.12.expr(), self.13.expr(), self.14.expr(), self.15.expr(), self.16.expr(), self.17.expr(), self.18.expr(), self.19.expr(), self.20.expr(), self.21.expr(), self.22.expr(), self.23.expr(), self.24.expr(), self.25.expr(), self.26.expr(), self.27.expr()]);
        }
        MatchExpr::sequence(v)
    }
}

impl<A: TextPredicate, B: TextPredicate, C: TextPredicate, D: TextPredicate, E: TextPredicate, F: TextPredicate, G: TextPredicate, H: TextPredicate, I: TextPredicate, J: TextPredicate, K: TextPredicate, L: TextPredicate, M: TextPredicate, N: TextPredicate, O: TextPredicate, P: TextPredicate, Q: TextPredicate, R: TextPredicate, S: TextPredicate, T: TextPredicate, U: TextPredicate, V: TextPredicate, W: TextPredicate, X: TextPredicate, Y: TextPredicate, Z: TextPredicate, AA: TextPredicate, AB: TextPredicate, AC: TextPredicate> TextPredicate for (A, B, C, D, E, F, G, H, I, J, K, L, M, N, O, P, Q, R, S, T, U, V, W, X, Y, Z, AA, AB, AC) {
    open spec fn expr(&self) -> Expr {
        Expr::Chain(seq![self.0.expr(), self.1.expr(), self.2.expr(), self.3.expr(), self.4.expr(), self.5.expr(), self.6.expr(), self.7.expr(), self.8.expr(), self.9.expr(), self.10.expr(), self.11.expr(), self.12.expr(), self.13.expr(), self.14.expr(), self.15.expr(), self.16.expr(), self.17.expr(), self.18.expr(), self.19.expr(), self.20.expr(), self.21.expr(), self.22.expr(), self.23.expr(), self.24.expr(), self.25.expr(), self.26.expr(), self.27.expr(), self.28.expr()])
    }

    fn to_match_expr(&self) -> (r: MatchExpr) {
        let mut v: Vec<MatchExpr> = Vec::new();
        v.push(self.0.to_match_expr());
        v.push(self.1.to_match_expr());
        v.push(self.2.to_match_expr());
        v.push(self.3.to_match_expr());
        v.push(self.4.to_match_expr());
        v.push(self.5.to_match_expr());
        v.push(self.6.to_match_expr());
        v.push(self.7.to_match_expr());
        v.push(self.8.to_match_expr());
        v.push(self.9.to_match_expr());
        v.push(self.10.to_match_expr());
        v.push(self.11.to_match_expr());
        v.push(self.12.to_match_expr());
        v.push(self.13.to_match_expr());
        v.push(self.14.to_match_expr());
        v.push(self.15.to_match_expr());
        v.push(self.16.to_match_expr());
        v.push(self.17.to_match_expr());
        v.push(self.18.to_match_expr());
        v.push(self.19.to_match_expr());
        v.push(self.20.to_match_expr());
        v.push(self.21.to_match_expr());
        v.push(self.22.to_match_expr());
        v.push(self.23.to_match_expr());
        v.push(self.24.to_match_expr());
        v.push(self.25.to_match_expr());
        v.push(self.26.to_match_expr());
        v.push(self.27.to_match_expr());
        v.push(self.28.to_match_expr());
        proof {
            lemma_views(v@);
            assert(views(v@) =~= seq![self.0.expr(), self.1.expr(), self.2.expr(), self.3.expr(), self.4.expr(), self.5.expr(), self.6.expr(), self.7.expr(), self.8.expr(), self.9.expr(), self.10.expr(), self.11.expr(), self.12.expr(), self.13.expr(), self.14.expr(), self.15.expr(), self.16.expr(), self.17.expr(), self.18.expr(), self.19.expr(), self.20.expr(), self.21.expr(), self.22.expr(), self.23.expr(), self.24.expr(), self.25.expr(), self.26.expr(), self.27.expr(), self.28.expr()]);
        }
        MatchExpr::sequence(v)
    }
}

impl<A: TextPredicate, B: TextPredicate, C: TextPredicate, D: TextPredicate, E: TextPredicate, F: TextPredicate, G: TextPredicate, H: TextPredicate, I: TextPredicate, J: TextPredicate, K: TextPredicate, L: TextPredicate, M: TextPredicate, N: TextPredicate, O: TextPredicate, P: TextPredicate, Q: TextPredicate, R: TextPredicate, S: TextPredicate, T: TextPredicate, U: TextPredicate, V: TextPredicate, W: TextPredicate, X: TextPredicate, Y: TextPredicate, Z: TextPredicate, AA: TextPredicate, AB: TextPredicate, AC: TextPredicate, AD: TextPredicate> TextPredicate for (A, B, C, D, E, F, G, H, I, J, K, L, M, N, O, P, Q, R, S, T, U, V, W, X, Y, Z, AA, AB, AC, AD) {
    open spec fn expr(&self) -> Expr {
        Expr::Chain(seq![self.0.expr(), self.1.expr(), self.2.expr(), self.3.expr(), self.4.expr(), self.5.expr(), self.6.expr(), self.7.expr(), self.8.expr(), self.9.expr(), self.10.expr(), self.11.expr(), self.12.expr(), self.13.expr(), self.14.expr(), self.15.expr(), self.16.expr(), self.17.expr(), self.18.expr(), self.19.expr(), self.20.expr(), self.21.expr(), self.22.expr(), self.23.expr(), self.24.expr(), self.25.expr(), self.26.expr(), self.27.expr(), self.28.expr(), self.29.expr()])
    }

    fn to_match_expr(&self) -> (r: MatchExpr) {
        let mut v: Vec<MatchExpr> = Vec::new();
        v.push(self.0.to_match_expr());
        v.push(self.1.to_match_expr());
        v.push(self.2.to_match_expr());
        v.push(self.3.to_match_expr());
        v.push(self.4.to_match_expr());
        v.push(self.5.to_match_expr());
        v.push(self.6.to_match_expr());
        v.push(self.7.to_match_expr());
        v.push(self.8.to_match_expr());
        v.push(self.9.to_match_expr());
        v.push(self.10.to_match_expr());
        v.push(self.11.to_match_expr());
        v.push(self.12.to_match_expr());
        v.push(self.13.to_match_expr());
        v.push(self.14.to_match_expr());
        v.push(self.15.to_match_expr());
        v.push(self.16.to_match_expr());
        v.push(self.17.to_match_expr());
        v.push(self.18.to_match_expr());
        v.push(self.19.to_match_expr());
        v.push(self.20.to_match_expr());
        v.push(self.21.to_match_expr());
        v.push(self.22.to_match_expr());
        v.push(self.23.to_match_expr());
        v.push(self.24.to_match_expr());
        v.push(self.25.to_match_expr());
        v.push(self.26.to_match_expr());
        v.push(self.27.to_match_expr());
        v.push(self.28.to_match_expr());
        v.push(self.29.to_match_expr());
        proof {
            lemma_views(v@);
            assert(views(v@) =~= seq![self.0.expr(), self.1.expr(), self.2.expr(), self.3.expr(), self.4.expr(), self.5.expr(), self.6.expr(), self.7.expr(), self.8.expr(), self.9.expr(), self.10.expr(), self.11.expr(), self.12.expr(), self.13.expr(), self.14.expr(), self.15.expr(), self.16.expr(), self.17.expr(), self.18.expr(), self.19.expr(), self.20.expr(), self.21.expr(), self.22.expr(), self.23.expr(), self.24.expr(), self.25.expr(), self.26.expr(), self.27.expr(), self.28.expr(), self.29.expr()]);
        }
        MatchExpr::sequence(v)
    }
}

impl<A: TextPredicate, B: TextPredicate, C: TextPredicate, D: TextPredicate, E: TextPredicate, F: TextPredicate, G: TextPredicate, H: TextPredicate, I: TextPredicate, J: TextPredicate, K: TextPredicate, L: TextPredicate, M: TextPredicate, N: TextPredicate, O: TextPredicate, P: TextPredicate, Q: TextPredicate, R: TextPredicate, S: TextPredicate, T: TextPredicate, U: TextPredicate, V: TextPredicate, W: TextPredicate, X: TextPredicate, Y: TextPredicate, Z: TextPredicate, AA: TextPredicate, AB: TextPredicate, AC: TextPredicate, AD: TextPredicate, AE: TextPredicate> TextPredicate for (A, B, C, D, E, F, G, H, I, J, K, L, M, N, O, P, Q, R, S, T, U, V, W, X, Y, Z, AA, AB, AC, AD, AE) {
    open spec fn expr(&self) -> Expr {
        Expr::Chain(seq![self.0.expr(), self.1.expr(), self.2.expr(), self.3.expr(), self.4.expr(), self.5.expr(), self.6.expr(), self.7.expr(), self.8.expr(), self.9.expr(), self.10.expr(), self.11.expr(), self.12.expr(), self.13.expr(), self.14.expr(), self.15.expr(), self.16.expr(), self.17.expr(), self.18.expr(), self.19.expr(), self.20.expr(), self.21.expr(), self.22.expr(), self.23.expr(), self.24.expr(), self.25.expr(), self.26.expr(), self.27.expr(), self.28.expr(), self.29.expr(), self.30.expr()])
    }

    fn to_match_expr(&self) -> (r: MatchExpr) {
        let mut v: Vec<MatchExpr> = Vec::new();
        v.push(self.0.to_match_expr());
        v.push(self.1.to_match_expr());
        v.push(self.2.to_match_expr());
        v.push(self.3.to_match_expr());
        v.push(self.4.to_match_expr());
        v.push(self.5.to_match_expr());
        v.push(self.6.to_match_expr());
        v.push(self.7.to_match_expr());
        v.push(self.8.to_match_expr());
        v.push(self.9.to_match_expr());
        v.push(self.10.to_match_expr());
        v.push(self.11.to_match_expr());
        v.push(self.12.to_match_expr());
        v.push(self.13.to_match_expr());
        v.push(self.14.to_match_expr());
        v.push(self.15.to_match_expr());
        v.push(self.16.to_match_expr());
        v.push(self.17.to_match_expr());
        v.push(self.18.to_match_expr());
        v.push(self.19.to_match_expr());
        v.push(self.20.to_match_expr());
        v.push(self.21.to_match_expr());
        v.push(self.22.to_match_expr());
        v.push(self.23.to_match_expr());
        v.push(self.24.to_match_expr());
        v.push(self.25.to_match_expr());
        v.push(self.26.to_match_expr());
        v.push(self.27.to_match_expr());
        v.push(self.28.to_match_expr());
        v.push(self.29.to_match_expr());
        v.push(self.30.to_match_expr());
        proof {
            lemma_views(v@);
            assert(views(v@) =~= seq![self.0.expr(), self.1.expr(), self.2.expr(), self.3.expr(), self.4.expr(), self.5.expr(), self.6.expr(), self.7.expr(), self.8.expr(), self.9.expr(), self.10.expr(), self.11.expr(), self.12.expr(), self.13.expr(), self.14.expr(), self.15.expr(), self.16.expr(), self.17.expr(), self.18.expr(), self.19.expr(), self.20.expr(), self.21.expr(), self.22.expr(), self.23.expr(), self.24.expr(), self.25.expr(), self.26.expr(), self.27.expr(), self.28.expr(), self.29.expr(), self.30.expr()]);
        }
        MatchExpr::sequence(v)
    }
}

impl<A: TextPredicate, B: TextPredicate, C: TextPredicate, D: TextPredicate, E: TextPredicate, F: TextPredicate, G: TextPredicate, H: TextPredicate, I: TextPredicate, J: TextPredicate, K: TextPredicate, L: TextPredicate, M: TextPredicate, N: TextPredicate, O: TextPredicate, P: TextPredicate, Q: TextPredicate, R: TextPredicate, S: TextPredicate, T: TextPredicate, U: TextPredicate, V: TextPredicate, W: TextPredicate, X: TextPredicate, Y: TextPredicate, Z: TextPredicate, AA: TextPredicate, AB: TextPredicate, AC: TextPredicate, AD: TextPredicate, AE: TextPredicate, AF: TextPredicate> TextPredicate for (A, B, C, D, E, F, G, H, I, J, K, L, M, N, O, P, Q, R, S, T, U, V, W, X, Y, Z, AA, AB, AC, AD, AE, AF) {
    open spec fn expr(&self) -> Expr {
        Expr::Chain(seq![self.0.expr(), self.1.expr(), self.2.expr(), self.3.expr(), self.4.expr(), self.5.expr(), self.6.expr(), self.7.expr(), self.8.expr(), self.9.expr(), self.10.expr(), self.11.expr(), self.12.expr(), self.13.expr(), self.14.expr(), self.15.expr(), self.16.expr(), self.17.expr(), self.18.expr(), self.19.expr(), self.20.expr(), self.21.expr(), self.22.expr(), self.23.expr(), self.24.expr(), self.25.expr(), self.26.expr(), self.27.expr(), self.28.expr(), self.29.expr(), self.30.expr(), self.31.expr()])
    }

    fn to_match_expr(&self) -> (r: MatchExpr) {
        let mut v: Vec<MatchExpr> = Vec::new();
        v.push(self.0.to_match_expr());
        v.push(self.1.to_match_expr());
        v.push(self.2.to_match_expr());
        v.push(self.3.to_match_expr());
        v.push(self.4.to_match_expr());
        v.push(self.5.to_match_expr());
        v.push(self.6.to_match_expr());
        v.push(self.7.to_match_expr());
        v.push(self.8.to_match_expr());
        v.push(self.9.to_match_expr());
        v.push(self.10.to_match_expr());
        v.push(self.11.to_match_expr());
        v.push(self.12.to_match_expr());
        v.push(self.13.to_match_expr());
        v.push(self.14.to_match_expr());
        v.push(self.15.to_match_expr());
        v.push(self.16.to_match_expr());
        v.push(self.17.to_match_expr());
        v.push(self.18.to_match_expr());
        v.push(self.19.to_match_expr());
        v.push(self.20.to_match_expr());
        v.push(self.21.to_match_expr());
        v.push(self.22.to_match_expr());
        v.push(self.23.to_match_expr());
        v.push(self.24.to_match_expr());
        v.push(self.25.to_match_expr());
        v.push(self.26.to_match_expr());
        v.push(self.27.to_match_expr());
        v.push(self.28.to_match_expr());
        v.push(self.29.to_match_expr());
        v.push(self.30.to_match_expr());
        v.push(self.31.to_match_expr());
        proof {
            lemma_views(v@);
            assert(views(v@) =~= seq![self.0.expr(), self.1.expr(), self.2.expr(), self.3.expr(), self.4.expr(), self.5.expr(), self.6.expr(), self.7.expr(), self.8.expr(), self.9.expr(), self.10.expr(), self.11.expr(), self.12.expr(), self.13.expr(), self.14.expr(), self.15.expr(), self.16.expr(), self.17.expr(), self.18.expr(), self.19.expr(), self.20.expr(), self.21.expr(), self.22.expr(), self.23.expr(), self.24.expr(), self.25.expr(), self.26.expr(), self.27.expr(), self.28.expr(), self.29.expr(), self.30.expr(), self.31.expr()]);
        }
        MatchExpr::sequence(v)
    }
}

} // verus!
