//! An ordered table of named expressions, and the drivers that scan a text with it.
use std::ops::Index;
use vstd::prelude::*;
use vstd::utf8::{is_char_boundary, valid_utf8};
use crate::expr::{eval, Expr};
use crate::hit::{
    branch, hit_views, lemma_hit_views_push, lemma_total_length_push, total_length, Hit,
    MatchHit,
};
use crate::matcher::{byte_len, fits, opt_view, MatchExpr};
use crate::predicate::TextPredicate;
use crate::text::{cut_ok, drop_bytes, lemma_cut_add, lemma_utf8_valid, split_text, starts_with_text, utf8};

verus! {

/// A rule as a mathematical value: its name and its expression.
pub type Rule = (Seq<char>, Expr);

/// What the first rule that matches at the start of `t` gives, labelled with its name.
pub open spec fn rule_match(rules: Seq<Rule>, t: Seq<u8>) -> Option<Hit>
    decreases rules.len(),
{
    if rules.len() == 0 {
        None
    } else {
        match eval(rules[0].1, t) {
            Some(h) => Some(Hit { label: rules[0].0, ..h }),
            None => rule_match(rules.drop_first(), t),
        }
    }
}

/// The matches of a scan from the start of `t`, each where the one before ended, until no
/// rule matches; or the name of the rule that matched nothing. (No match reaches past the end
/// of the text; that case is there to keep the definition total.)
pub open spec fn scan(rules: Seq<Rule>, t: Seq<u8>) -> Result<Seq<Hit>, Seq<char>>
    decreases t.len(),
{
    match rule_match(rules, t) {
        None => Ok(Seq::empty()),
        Some(h) => if h.length == 0 {
            Err(h.label)
        } else if h.length > t.len() {
            Ok(seq![h])
        } else {
            match scan(rules, drop_bytes(t, h.length)) {
                Ok(rest) => Ok(seq![h] + rest),
                Err(name) => Err(name),
            }
        },
    }
}

/// The earliest offset at or after `i`, before the end of `t`, where a rule matches.
pub open spec fn find_first(rules: Seq<Rule>, t: Seq<u8>, i: nat) -> Option<(nat, Hit)>
    decreases t.len() - i,
{
    if i >= t.len() {
        None
    } else if is_char_boundary(t, i as int) && rule_match(rules, drop_bytes(t, i)) is Some {
        Some((i, rule_match(rules, drop_bytes(t, i))->0))
    } else {
        find_first(rules, t, i + 1)
    }
}

/// Every match found from offset `i` on: after a match the search goes on where it ended,
/// or one byte further when it matched nothing; elsewhere one byte further.
pub open spec fn find_all(rules: Seq<Rule>, t: Seq<u8>, i: nat) -> Seq<(nat, Hit)>
    decreases t.len() - i,
{
    if i >= t.len() {
        Seq::empty()
    } else if is_char_boundary(t, i as int) && rule_match(rules, drop_bytes(t, i)) is Some {
        let h = rule_match(rules, drop_bytes(t, i))->0;
        let next = if h.length == 0 || i + h.length > t.len() {
            i + 1
        } else {
            i + h.length
        };
        seq![(i, h)] + find_all(rules, t, next)
    } else {
        find_all(rules, t, i + 1)
    }
}

/// The values of found matches.
pub open spec fn found_views(s: Seq<(usize, MatchHit)>) -> Seq<(nat, Hit)> {
    s.map_values(|p: (usize, MatchHit)| (p.0 as nat, p.1@))
}

/// A scan stopped at a rule that matched nothing, as it would never get further.
#[derive(Debug)]
pub struct EmptyMatch {
    pub rule_name: String,
}

/// Named expressions in the order they were added.
pub struct MatcherRegistry {
    matchers: Vec<(String, MatchExpr)>,
}

/// The value of one entry.
pub open spec fn rule_view(p: (String, MatchExpr)) -> Rule {
    (p.0@, p.1@)
}

/// Whether two texts are the same.
fn same_text(a: &str, b: &str) -> (r: bool)
    ensures
        r == (a@ == b@),
{
    proof {
        lemma_utf8_valid(a@);
        lemma_utf8_valid(b@);
    }
    if byte_len(a) != byte_len(b) {
        return false;
    }
    let r = starts_with_text(a, b);
    proof {
        assert(utf8(a@).subrange(0, utf8(a@).len() as int) =~= utf8(a@));
        if r {
            assert(utf8(a@) == utf8(b@));
            assert(a@ == b@);
        }
    }
    r
}

impl MatcherRegistry {
    pub closed spec fn view(&self) -> Seq<Rule> {
        self.matchers@.map_values(|p: (String, MatchExpr)| rule_view(p))
    }

    /// An empty registry.
    pub fn new() -> (r: MatcherRegistry)
        ensures
            r@ == Seq::<Rule>::empty(),
    {
        let r = MatcherRegistry { matchers: Vec::new() };
        proof {
            assert(r@ =~= Seq::<Rule>::empty());
        }
        r
    }

    fn push_rule(&mut self, name: &str, e: MatchExpr)
        ensures
            final(self)@ == old(self)@.push((name@, e@)),
    {
        self.matchers.push((name.to_owned(), e));
        proof {
            assert(final(self)@ =~= old(self)@.push((name@, e@)));
        }
    }

    /// This registry with one more rule at the end.
    pub fn with_matcher<T: TextPredicate>(self, name: &str, matcher_source: T) -> (r: Self)
        ensures
            r@ == self@.push((name@, matcher_source.expr())),
    {
        let mut r = self;
        r.push_rule(name, matcher_source.to_match_expr());
        r
    }

    /// This registry with the given rules at the end, in order.
    pub fn with_matchers<T: TextPredicate>(self, sources: Vec<(&str, T)>) -> (r: Self)
        ensures
            r@ == self@ + sources@.map_values(|p: (&str, T)| (p.0@, p.1.expr())),
    {
        let ghost added = sources@.map_values(|p: (&str, T)| (p.0@, p.1.expr()));
        let mut r = self;
        let mut i: usize = 0;
        proof {
            assert(self@ + added.subrange(0, 0) =~= self@);
        }
        while i < sources.len()
            invariant
                i <= sources@.len(),
                added == sources@.map_values(|p: (&str, T)| (p.0@, p.1.expr())),
                r@ == self@ + added.subrange(0, i as int),
            decreases sources@.len() - i,
        {
            let (name, source) = &sources[i];
            r.push_rule(name, source.to_match_expr());
            proof {
                assert(self@ + added.subrange(0, i + 1) =~= (self@ + added.subrange(0, i as int)).push(added[i as int]));
            }
            i = i + 1;
        }
        proof {
            assert(added.subrange(0, i as int) =~= added);
        }
        r
    }

    /// The first entry named `name`.
    pub fn matcher_by_name(&self, name: &str) -> (r: Option<&(String, MatchExpr)>)
        ensures
            match r {
                Some(p) => exists|i: int|
                    0 <= i < self@.len() && rule_view(*p) == self@[i] && self@[i].0 == name@ && (
                    forall|j: int| 0 <= j < i ==> self@[j].0 != name@),
                None => forall|j: int| 0 <= j < self@.len() ==> self@[j].0 != name@,
            },
    {
        let mut i: usize = 0;
        while i < self.matchers.len()
            invariant
                i <= self@.len(),
                self@.len() == self.matchers@.len(),
                forall|j: int| 0 <= j < i ==> self@[j].0 != name@,
            decreases self.matchers@.len() - i,
        {
            proof {
                assert(self@[i as int] == rule_view(self.matchers@[i as int]));
            }
            if same_text(self.matchers[i].0.as_str(), name) {
                return Some(&self.matchers[i]);
            }
            i = i + 1;
        }
        None
    }

    /// Tries each rule in order at the start of `text`; the first match, labelled with the
    /// rule's name.
    pub fn match_text(&self, text: &str) -> (r: Option<MatchHit>)
        ensures
            opt_view(r) == rule_match(self@, utf8(text@)),
            fits(r, utf8(text@)),
    {
        let ghost t = utf8(text@);
        let mut i: usize = 0;
        proof {
            assert(self@.subrange(0, self@.len() as int) =~= self@);
        }
        while i < self.matchers.len()
            invariant
                t == utf8(text@),
                i <= self@.len(),
                self@.len() == self.matchers@.len(),
                rule_match(self@, t) == rule_match(self@.subrange(i as int, self@.len() as int), t),
            decreases self.matchers@.len() - i,
        {
            let ghost rest = self@.subrange(i as int, self@.len() as int);
            proof {
                assert(self@[i as int] == rule_view(self.matchers@[i as int]));
                assert(rest[0] == rule_view(self.matchers@[i as int]));
                assert(rest.drop_first() =~= self@.subrange(i + 1, self@.len() as int));
            }
            match self.matchers[i].1.match_text(text) {
                Some(h) => {
                    let mut h = h;
                    h.label = self.matchers[i].0.clone();
                    return Some(h);
                },
                None => {},
            }
            i = i + 1;
        }
        None
    }

    /// Matches rule after rule from the start of `text`, each where the one before ended,
    /// until no rule matches; the matches are the children of one unlabelled root node, kept
    /// whatever their number. A rule that matches nothing stops the scan with its name, as the
    /// scan would never get further.
    pub fn multi_match_text(&self, text: &str) -> (r: Result<MatchHit, EmptyMatch>)
        ensures
            match r {
                Ok(h) => scan(self@, utf8(text@)) is Ok && h@ == branch(
                    Seq::empty(),
                    total_length(scan(self@, utf8(text@))->Ok_0),
                    utf8(text@),
                    scan(self@, utf8(text@))->Ok_0,
                ) && h.length == total_length(scan(self@, utf8(text@))->Ok_0),
                Err(e) => scan(self@, utf8(text@)) == Err::<Seq<Hit>, Seq<char>>(e.rule_name@),
            },
    {
        let ghost t = utf8(text@);
        let size = byte_len(text);
        proof {
            lemma_utf8_valid(text@);
            assert(drop_bytes(t, 0) =~= t);
            assert(hit_views(Seq::<MatchHit>::empty()) =~= Seq::<Hit>::empty());
            let o = scan(self@, t);
            if o is Ok {
                assert(Seq::<Hit>::empty() + o->Ok_0 =~= o->Ok_0);
            }
        }
        let mut hs: Vec<MatchHit> = Vec::new();
        let mut cursor: usize = 0;
        loop
            invariant
                t == utf8(text@),
                valid_utf8(t),
                size == t.len(),
                cut_ok(t, cursor as nat),
                cursor == total_length(hit_views(hs@)),
                scan(self@, t) == (match scan(self@, drop_bytes(t, cursor as nat)) {
                    Ok(rest) => Ok(hit_views(hs@) + rest),
                    Err(name) => Err(name),
                }),
            decreases size - cursor,
        {
            let (_, rest) = split_text(text, cursor);
            match self.match_text(rest) {
                Some(h) => {
                    if h.length == 0 {
                        return Err(EmptyMatch { rule_name: h.label });
                    }
                    proof {
                        lemma_cut_add(t, cursor as nat, h.length as nat);
                        lemma_hit_views_push(hs@, h);
                        lemma_total_length_push(hit_views(hs@), h@);
                        let tail = scan(self@, drop_bytes(t, (cursor + h.length) as nat));
                        if tail is Ok {
                            assert(hit_views(hs@) + (seq![h@] + tail->Ok_0) =~= hit_views(hs@).push(h@) + tail->Ok_0);
                        }
                    }
                    cursor = cursor + h.length;
                    hs.push(h);
                },
                None => {
                    proof {
                        assert(hit_views(hs@) + Seq::<Hit>::empty() =~= hit_views(hs@));
                    }
                    proof {
                        reveal_strlit("");
                        assert(""@ =~= Seq::<char>::empty());
                    }
                    return Ok(MatchHit::named_with_sub_matches("", cursor, text, hs));
                },
            }
        }
    }

    /// The first offset of `text`, from the start on, where a rule matches, and its match.
    pub fn find_match(&self, text: &str) -> (r: Option<(usize, MatchHit)>)
        ensures
            match r {
                Some((i, h)) => find_first(self@, utf8(text@), 0) == Some((i as nat, h@)),
                None => find_first(self@, utf8(text@), 0) is None,
            },
    {
        let ghost t = utf8(text@);
        let size = byte_len(text);
        proof {
            lemma_utf8_valid(text@);
        }
        let mut i: usize = 0;
        while i < size
            invariant
                t == utf8(text@),
                size == t.len(),
                i <= size,
                find_first(self@, t, 0) == find_first(self@, t, i as nat),
            decreases size - i,
        {
            if text.is_char_boundary(i) {
                let (_, rest) = split_text(text, i);
                match self.match_text(rest) {
                    Some(h) => {
                        return Some((i, h));
                    },
                    None => {},
                }
            }
            i = i + 1;
        }
        None
    }

    /// Every match in `text`, with its offset: after a match the search goes on where it
    /// ended, or one byte further when it matched nothing; elsewhere one byte further.
    pub fn find_matches(&self, text: &str) -> (r: Vec<(usize, MatchHit)>)
        ensures
            found_views(r@) == find_all(self@, utf8(text@), 0),
    {
        let ghost t = utf8(text@);
        let size = byte_len(text);
        proof {
            lemma_utf8_valid(text@);
            assert(found_views(Seq::<(usize, MatchHit)>::empty()) + find_all(self@, t, 0) =~= find_all(self@, t, 0));
        }
        let mut found: Vec<(usize, MatchHit)> = Vec::new();
        let mut i: usize = 0;
        while i < size
            invariant
                t == utf8(text@),
                valid_utf8(t),
                size == t.len(),
                i <= size,
                find_all(self@, t, 0) == found_views(found@) + find_all(self@, t, i as nat),
            decreases size - i,
        {
            let mut next = i + 1;
            if text.is_char_boundary(i) {
                let (_, rest) = split_text(text, i);
                match self.match_text(rest) {
                    Some(h) => {
                        proof {
                            lemma_cut_add(t, i as nat, h.length as nat);
                        }
                        if h.length > 0 {
                            next = i + h.length;
                        }
                        let ghost hv = h@;
                        found.push((i, h));
                        proof {
                            assert(found_views(found@) =~= found_views(found@.drop_last()).push((i as nat, hv)));
                            assert(found_views(found@.drop_last()) + (seq![(i as nat, hv)] + find_all(self@, t, next as nat)) =~= found_views(found@) + find_all(self@, t, next as nat));
                        }
                    },
                    None => {},
                }
            }
            i = next;
        }
        proof {
            assert(found_views(found@) + Seq::<(nat, Hit)>::empty() =~= found_views(found@));
        }
        found
    }
}

impl<'a> Index<&'a str> for MatcherRegistry {
    type Output = (String, MatchExpr);

    /// The first entry named `name`; there must be one.
    fn index(&self, name: &'a str) -> (r: &(String, MatchExpr))
        ensures
            exists|i: int|
                0 <= i < self@.len() && rule_view(*r) == self@[i] && self@[i].0 == name@ && (
                forall|j: int| 0 <= j < i ==> self@[j].0 != name@),
    {
        match self.matcher_by_name(name) {
            Some(p) => p,
            None => &self.matchers[0],
        }
    }
}

impl<'a> vstd::std_specs::core::IndexSpecImpl<&'a str> for MatcherRegistry {
    open spec fn index_req(&self, name: &&'a str) -> bool {
        exists|i: int| 0 <= i < self@.len() && self@[i].0 == (*name)@
    }
}

} // verus!
