//! A grammar for grouped `name=value` rows under `[group]` headers, built on the matcher.
use vstd::prelude::*;
use crate::expr::{CharClass, Expr};
use crate::hit::{branch, rewritten, total_length, Hit, MatchHit};
use crate::matcher::MatchExpr;
use crate::registry::{scan, EmptyMatch, MatcherRegistry, Rule};
use crate::text::utf8;

verus! {

/// The label of a group's name.
pub const CATEGORY_ID: &'static str = "category_name";

/// The label of a row's name.
pub const VARIABLE_NAME_ID: &'static str = "name";

/// The label of a row's value.
pub const VARIABLE_VALUE_ID: &'static str = "value";

/// The text of one character.
pub open spec fn lit(c: char) -> Expr {
    Expr::Literal(seq![c])
}

/// `e` under the label `name`.
pub open spec fn named(name: Seq<char>, e: Expr) -> Expr {
    Expr::Named(name, Box::new(e))
}

/// `a`, then `b`.
pub open spec fn both(a: Expr, b: Expr) -> Expr {
    Expr::Then(Box::new(a), Box::new(b))
}

/// `e` as often as it matches.
pub open spec fn any(e: Expr) -> Expr {
    Expr::ZeroOrMore(Box::new(e))
}

/// One character where `e` does not match.
pub open spec fn not(e: Expr) -> Expr {
    Expr::Not(Box::new(e))
}

/// One white-space character.
pub open spec fn space() -> Expr {
    Expr::Class(CharClass::Whitespace)
}

/// One row: a name that starts with neither white space nor `[` and runs to the first `=`,
/// the `=`, and a value that runs to the end of the line.
pub open spec fn row_expr() -> Expr {
    named(
        "variable_row"@,
        both(
            both(
                named(
                    "name"@,
                    both(
                        not(Expr::Either(Box::new(space()), Box::new(lit('[')))),
                        Expr::OneOrMore(Box::new(not(lit('=')))),
                    ),
                ),
                lit('='),
            ),
            named("value"@, any(not(Expr::Class(CharClass::Linebreak)))),
        ),
    )
}

/// A group: `[`, its name up to `]`, `]`, then rows, each after a run of white space.
pub open spec fn group_expr() -> Expr {
    both(
        both(both(lit('['), named("category_name"@, any(not(lit(']'))))), lit(']')),
        any(both(named("whitespace"@, any(space())), row_expr())),
    )
}

/// The rules: groups, and runs of white space between them.
pub open spec fn ini_rules() -> Seq<Rule> {
    seq![("group"@, group_expr()), ("whitespace"@, Expr::OneOrMore(Box::new(space())))]
}

/// A parser of groups of `name=value` rows.
pub struct IniParser {
    matcher_set: MatcherRegistry,
}

impl IniParser {
    pub closed spec fn view(&self) -> Seq<Rule> {
        self.matcher_set@
    }

    /// A parser with the rules for groups and white space.
    pub fn new() -> (r: IniParser)
        ensures
            r@ == ini_rules(),
    {
        let row = MatchExpr::named(
            VARIABLE_NAME_ID,
            MatchExpr::whitespace().or(MatchExpr::literal("[")).negate().followed_by(
                MatchExpr::repeat_max(MatchExpr::literal("=").negate()),
            ),
        ).followed_by(MatchExpr::literal("=")).followed_by(
            MatchExpr::named(
                VARIABLE_VALUE_ID,
                MatchExpr::optional_repeat_max(MatchExpr::linebreak().negate()),
            ),
        );
        let group = MatchExpr::literal("[").followed_by(
            MatchExpr::named(
                CATEGORY_ID,
                MatchExpr::optional_repeat_max(MatchExpr::literal("]").negate()),
            ),
        ).followed_by(MatchExpr::literal("]")).followed_by(
            MatchExpr::optional_repeat_max(
                MatchExpr::named(
                    "whitespace",
                    MatchExpr::optional_repeat_max(MatchExpr::whitespace()),
                ).followed_by(MatchExpr::named("variable_row", row)),
            ),
        );
        let matcher_set = MatcherRegistry::new().with_matcher("group", group).with_matcher(
            "whitespace",
            MatchExpr::repeat_max(MatchExpr::whitespace()),
        );
        proof {
            reveal_strlit("[");
            reveal_strlit("]");
            reveal_strlit("=");
            reveal_strlit("category_name");
            reveal_strlit("name");
            reveal_strlit("value");
            assert("["@ =~= seq!['[']);
            assert("]"@ =~= seq![']']);
            assert("="@ =~= seq!['=']);
            assert(matcher_set@ =~= ini_rules());
        }
        IniParser { matcher_set }
    }

    /// Scans `text` with the rules, from the start, for as long as one matches; each match is
    /// a child of one unlabelled root node.
    pub fn parse(&self, text: &str) -> (r: Result<MatchHit, EmptyMatch>)
        ensures
            match r {
                Ok(h) => scan(self@, utf8(text@)) is Ok && h@ == branch(
                    Seq::empty(),
                    total_length(scan(self@, utf8(text@))->Ok_0),
                    utf8(text@),
                    scan(self@, utf8(text@))->Ok_0,
                ),
                Err(e) => scan(self@, utf8(text@)) == Err::<Seq<Hit>, Seq<char>>(e.rule_name@),
            },
    {
        self.matcher_set.multi_match_text(text)
    }

    /// Parses `text` as `parse` does, then replaces the contents of every value by what
    /// `formatter` returns on them.
    pub fn parse_formatted<F: Fn(&str) -> String>(&self, text: &str, formatter: F) -> (r: Result<
        MatchHit,
        EmptyMatch,
    >)
        requires
            forall|x: &str| call_requires(formatter, (x,)),
        ensures
            match r {
                Ok(h) => scan(self@, utf8(text@)) is Ok && rewritten(
                    formatter,
                    "value"@,
                    branch(
                        Seq::empty(),
                        total_length(scan(self@, utf8(text@))->Ok_0),
                        utf8(text@),
                        scan(self@, utf8(text@))->Ok_0,
                    ),
                    h@,
                ),
                Err(e) => scan(self@, utf8(text@)) == Err::<Seq<Hit>, Seq<char>>(e.rule_name@),
            },
    {
        match self.parse(text) {
            Ok(h) => {
                let mut h = h;
                h.rewrite_contents(VARIABLE_VALUE_ID, formatter);
                Ok(h)
            },
            Err(e) => Err(e),
        }
    }
}

} // verus!
