//! Composable text matchers that build a tree of named captures.
//!
//! Expressions are built from predicates (characters, texts, sequences, spans) with
//! combinators (sequence, repetition, alternation, negation, labels) and matched against the
//! start of a text. A match is a tree of `MatchHit` nodes; a `MatcherRegistry` holds named
//! expressions and scans a whole text with them. What every match returns is stated by the
//! semantics in `expr`, over the UTF-8 bytes of the text; `laws` proves its main properties.
pub mod expr;
pub mod hit;
pub mod ini;
pub mod laws;
pub mod matcher;
pub mod predicate;
pub mod registry;
pub mod text;

pub use expr::{CharClass, Expr};
pub use hit::MatchHit;
pub use matcher::MatchExpr;
pub use predicate::{FunctionLength, FunctionPredicate, TextMatcherAdd, TextPredicate};
pub use registry::{EmptyMatch, MatcherRegistry};
