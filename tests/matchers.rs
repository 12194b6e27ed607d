use text_matcher::{MatchExpr, MatchHit, TextPredicate};

#[test]
fn test_matcher_creation() {
    // Matchers should be able to be created from any source and tested without panicking.
    assert_eq!(MatchExpr::new('x').match_text("xaba").unwrap().length, 1);
    assert_eq!(MatchExpr::new("xaba").match_text("xaba").unwrap().length, 4);
    assert_eq!(MatchExpr::new("xaba".to_string()).match_text("xaba").unwrap().length, 4);
    assert_eq!(MatchExpr::new(vec!["x", "aba", ""]).match_text("xaba").unwrap().length, 4);
    assert_eq!(MatchExpr::new(('x', "aba", "")).match_text("xaba").unwrap().length, 4);
    assert_eq!(MatchExpr::new('0').match_text("xaba"), None);
}

/* OPERAND TESTS */

#[test]
fn test_matcher_add() {
    let matcher: MatchExpr = MatchExpr::new("xa") + 'b';
    assert_eq!(matcher.match_text("xaba").unwrap().length, 3);

    let matcher: MatchExpr = MatchExpr::new("xa") + 'b' + 'a';
    assert_eq!(matcher.match_text("xaba").unwrap().length, 4);

    let matcher: MatchExpr = MatchExpr::new("xa") + 'b' + 'a' + 's';
    assert_eq!(matcher.match_text("xaba"), None);
}

#[test]
fn test_matcher_mul() {
    let matcher: MatchExpr = MatchExpr::new("xa");
    assert_eq!(matcher.match_text("xaba").unwrap().length, 2);

    let matcher: MatchExpr = MatchExpr::new("xa") * 2;
    assert_eq!(matcher.match_text("xaxaba").unwrap().length, 4);

    let matcher: MatchExpr = MatchExpr::new("xa") * 3;
    assert_eq!(matcher.match_text("xaxaba"), None);
}

#[test]
fn test_matcher_and() {
    let matcher: MatchExpr = MatchExpr::new("xa") & 'b';
    assert_eq!(matcher.match_text("xaba").unwrap().length, 3);
    let matcher: MatchExpr = matcher & 'a';
    assert_eq!(matcher.match_text("xaba").unwrap().length, 4);
    let matcher: MatchExpr = matcher & 'a';
    assert_eq!(matcher.match_text("xaba"), None);
}

#[test]
fn test_matcher_or() {
    let matcher: MatchExpr = MatchExpr::new("xa") | 'b';
    assert_eq!(matcher.match_text("xaba").unwrap().length, 2);
    assert_eq!(matcher.match_text("baba").unwrap().length, 1);
    assert_eq!(matcher.match_text(""), None);

    let matcher: MatchExpr = MatchExpr::new("xa") | "xaba";
    assert_eq!(matcher.match_text("xaba").unwrap().length, 2);
    assert_eq!(matcher.match_text(""), None);

    let matcher: MatchExpr = MatchExpr::new("xa") | "daba";
    assert_eq!(matcher.match_text("daba").unwrap().length, 4);
    assert_eq!(matcher.match_text(""), None);

    let matcher: MatchExpr = MatchExpr::new("xa") | "ba";
    assert_eq!(matcher.match_text("haba"), None);
    assert_eq!(matcher.match_text(""), None);
}

#[test]
fn test_matcher_not() {
    let matcher: MatchExpr = !MatchExpr::new("xa");
    assert_eq!(matcher.match_text("xaba"), None);
    assert_eq!(matcher.match_text("ababa").unwrap().length, 1);
    assert_eq!(matcher.match_text(""), None);

    let matcher: MatchExpr = !MatchExpr::new("xa") + 'b';
    assert_eq!(matcher.match_text("xaba"), None);
    assert_eq!(matcher.match_text("ababa").unwrap().length, 2);
    assert_eq!(matcher.match_text(""), None);

    let matcher: MatchExpr = !MatchExpr::new("xa") | "xaba";
    assert_eq!(matcher.match_text("xaba").unwrap().length, 4);
    assert_eq!(matcher.match_text(""), None);
}

/* REPEATING MATCHER TESTS */

#[test]
fn test_matcher_repeat_max() {
    let matcher: MatchExpr = MatchExpr::repeat_max("xa");
    assert_eq!(matcher.match_text("xaxaxaxaba").unwrap().length, 8);
    assert_eq!(matcher.match_text("baba"), None);
    assert_eq!(matcher.match_text(""), None);
}

#[test]
fn test_matcher_optional_repeat_max() {
    let matcher: MatchExpr = MatchExpr::optional_repeat_max("xa");
    assert_eq!(matcher.match_text("xaxaxaxaba").unwrap().length, 8);
    assert_eq!(matcher.match_text("baba").unwrap().length, 0);
    assert_eq!(matcher.match_text("").unwrap().length, 0);
}

#[test]
fn test_matcher_optional() {
    let matcher: MatchExpr = MatchExpr::optional("xa");
    assert_eq!(matcher.match_text("xaxaxaxaba").unwrap().length, 2);
    assert_eq!(matcher.match_text("baba").unwrap().length, 0);
    assert_eq!(matcher.match_text("").unwrap().length, 0);
}

/* WHITESPACE MATCHER TESTS */

#[test]
fn test_matcher_whitespace() {
    assert_eq!(MatchExpr::whitespace().match_text(" \nxaba").unwrap().length, 1);
    assert_eq!(MatchExpr::whitespace().match_text("\nxaba").unwrap().length, 1);
    assert_eq!(MatchExpr::whitespace().match_text("xaba"), None);
    assert_eq!(MatchExpr::whitespace().match_text(""), None);
}

#[test]
fn test_matcher_linebreak() {
    assert_eq!(MatchExpr::linebreak().match_text(" \nxaba"), None);
    assert_eq!(MatchExpr::linebreak().match_text("\nxaba").unwrap().length, 1);
    assert_eq!(MatchExpr::linebreak().match_text("xaba"), None);
    assert_eq!(MatchExpr::linebreak().match_text(""), None);
}

/* NUMERIC MATCHER TEST */

#[test]
fn test_matcher_inline_whitespace() {
    assert_eq!(MatchExpr::inline_whitespace().match_text(" \nxaba").unwrap().length, 1);
    assert_eq!(MatchExpr::inline_whitespace().match_text("\nxaba"), None);
    assert_eq!(MatchExpr::inline_whitespace().match_text("xaba"), None);
    assert_eq!(MatchExpr::inline_whitespace().match_text(""), None);
}

#[test]
fn test_matcher_digit() {
    assert_eq!(MatchExpr::digit().match_text("-19.0 xaba"), None);
    assert_eq!(MatchExpr::digit().match_text("19.0 xaba").unwrap().length, 1);
    assert_eq!(MatchExpr::digit().match_text("9.0 xaba").unwrap().length, 1);
    assert_eq!(MatchExpr::digit().match_text(".0 xaba"), None);
    assert_eq!(MatchExpr::digit().match_text("0 xaba").unwrap().length, 1);
    assert_eq!(MatchExpr::digit().match_text(" xaba"), None);
    assert_eq!(MatchExpr::digit().match_text(""), None);
}

#[test]
fn test_matcher_unsigned_integer() {
    assert_eq!(MatchExpr::unsigned_integer().match_text("-19.0 xaba"), None);
    assert_eq!(MatchExpr::unsigned_integer().match_text("19.0 xaba").unwrap().length, 2);
    assert_eq!(MatchExpr::unsigned_integer().match_text("9.0 xaba").unwrap().length, 1);
    assert_eq!(MatchExpr::unsigned_integer().match_text(".0 xaba"), None);
    assert_eq!(MatchExpr::unsigned_integer().match_text("0 xaba").unwrap().length, 1);
    assert_eq!(MatchExpr::unsigned_integer().match_text(" xaba"), None);
    assert_eq!(MatchExpr::unsigned_integer().match_text(""), None);
}

#[test]
fn test_matcher_signed_integer() {
    assert_eq!(MatchExpr::signed_integer().match_text("-19.0 xaba").unwrap().length, 3);
    assert_eq!(MatchExpr::signed_integer().match_text("19.0 xaba").unwrap().length, 2);
    assert_eq!(MatchExpr::signed_integer().match_text("9.0 xaba").unwrap().length, 1);
    assert_eq!(MatchExpr::signed_integer().match_text(".0 xaba"), None);
    assert_eq!(MatchExpr::signed_integer().match_text("0 xaba").unwrap().length, 1);
    assert_eq!(MatchExpr::signed_integer().match_text(" xaba"), None);
    assert_eq!(MatchExpr::signed_integer().match_text(""), None);
}

#[test]
fn test_matcher_signed_float() {
    assert_eq!(MatchExpr::float().match_text("-19.0 xaba").unwrap().length, 5);
    assert_eq!(MatchExpr::float().match_text("19.0 xaba").unwrap().length, 4);
    assert_eq!(MatchExpr::float().match_text("9.0 xaba").unwrap().length, 3);
    assert_eq!(MatchExpr::float().match_text(".0 xaba"), None);
    assert_eq!(MatchExpr::float().match_text("0 xaba").unwrap().length, 1);
    assert_eq!(MatchExpr::float().match_text(" xaba"), None);
    assert_eq!(MatchExpr::float().match_text(""), None);
}

/* WORD-LIKE MATCH-EXPRESSION MATCHER TEST */

#[test]
fn test_matcher_alphabetic() {
    assert_eq!(MatchExpr::alphabetic().match_text(" \nzAbA"), None);
    assert_eq!(MatchExpr::alphabetic().match_text("\nzAbA"), None);
    assert_eq!(MatchExpr::alphabetic().match_text("zAbA").unwrap().length, 1);
    assert_eq!(MatchExpr::alphabetic().match_text("AbA").unwrap().length, 1);
    assert_eq!(MatchExpr::alphabetic().match_text(""), None);
}

#[test]
fn test_matcher_lowercase_alphabetic() {
    assert_eq!(MatchExpr::lowercase_alphabetic().match_text(" \nzAbA"), None);
    assert_eq!(MatchExpr::lowercase_alphabetic().match_text("\nzAbA"), None);
    assert_eq!(MatchExpr::lowercase_alphabetic().match_text("zAbA").unwrap().length, 1);
    assert_eq!(MatchExpr::lowercase_alphabetic().match_text("AbA"), None);
    assert_eq!(MatchExpr::lowercase_alphabetic().match_text(""), None);
}

#[test]
fn test_matcher_uppercase_alphabetic() {
    assert_eq!(MatchExpr::uppercase_alphabetic().match_text(" \nzAbA"), None);
    assert_eq!(MatchExpr::uppercase_alphabetic().match_text("\nzAbA"), None);
    assert_eq!(MatchExpr::uppercase_alphabetic().match_text("zAbA"), None);
    assert_eq!(MatchExpr::uppercase_alphabetic().match_text("AbA").unwrap().length, 1);
    assert_eq!(MatchExpr::uppercase_alphabetic().match_text(""), None);
}

#[test]
fn test_matcher_word() {
    assert_eq!(MatchExpr::word().match_text(" \nzAbA"), None);
    assert_eq!(MatchExpr::word().match_text("\nzAbA"), None);
    assert_eq!(MatchExpr::word().match_text("zAbA").unwrap().length, 4);
    assert_eq!(MatchExpr::word().match_text("AbA").unwrap().length, 3);
    assert_eq!(MatchExpr::word().match_text(""), None);
}

/* FURTHER TESTS */

#[test]
fn sequence_lengths_add_up() {
    let a: MatchExpr = MatchExpr::new("ab");
    let b: MatchExpr = MatchExpr::new("cde");
    let both: MatchExpr = a.clone() + b.clone();
    let hit: MatchHit = both.match_text("abcdef").unwrap();
    assert_eq!(hit.length, 5);
    assert_eq!(hit.contents, "abcde");
    assert_eq!(a.match_text("abcdef").unwrap().length + b.match_text("cdef").unwrap().length, 5);
    assert_eq!(both.match_text("abxde"), None);
}

#[test]
fn alternation_keeps_the_first_branch() {
    let short_first: MatchExpr = MatchExpr::new("a") | "abc";
    assert_eq!(short_first.match_text("abcd").unwrap().contents, "a");
    let long_first: MatchExpr = MatchExpr::new("abc") | "a";
    assert_eq!(long_first.match_text("abcd").unwrap().contents, "abc");
}

#[test]
fn negation_takes_one_character() {
    let not_a: MatchExpr = !MatchExpr::new('a');
    let hit: MatchHit = not_a.match_text("bcd").unwrap();
    assert_eq!(hit.length, 1);
    assert_eq!(hit.label, "");
    assert_eq!(hit.contents, "b");
    assert_eq!(not_a.match_text("abc"), None);
    assert_eq!(not_a.match_text(""), None);
    assert_eq!(not_a.match_text("éa").unwrap().contents, "é");
    assert_eq!(not_a.match_text("éa").unwrap().length, 2);
}

#[test]
fn zero_or_more_on_empty_text() {
    let any: MatchExpr = MatchExpr::optional_repeat_max(MatchExpr::digit());
    assert_eq!(any.match_text("").unwrap().length, 0);
    assert_eq!(any.match_text("x1").unwrap().length, 0);
    assert_eq!(any.match_text("123x").unwrap().length, 3);
}

#[test]
fn one_or_more_fails_at_once() {
    let some: MatchExpr = MatchExpr::repeat_max(MatchExpr::digit());
    assert_eq!(some.match_text("x123"), None);
    assert_eq!(some.match_text("1x23").unwrap().length, 1);
}

#[test]
fn repetition_of_an_empty_match_stops() {
    let empty_loop: MatchExpr = MatchExpr::repeat_max(MatchExpr::optional("x"));
    let hit: MatchHit = empty_loop.match_text("xxy").unwrap();
    assert_eq!(hit.length, 2);
    let hit: MatchHit = empty_loop.match_text("y").unwrap();
    assert_eq!(hit.length, 0);
}

#[test]
fn named_replaces_the_label() {
    let inner: MatchExpr = MatchExpr::named("inner", "ab");
    let outer: MatchExpr = MatchExpr::named("outer", inner);
    let hit: MatchHit = outer.match_text("abc").unwrap();
    assert_eq!(hit.label, "outer");
    assert_eq!(hit.contents, "ab");
}

#[test]
fn bounded_repeat_takes_the_first_label() {
    let rep: MatchExpr = MatchExpr::named("x", "ab") * 2;
    let hit: MatchHit = rep.match_text("ababab").unwrap();
    assert_eq!(hit.label, "x");
    assert_eq!(hit.length, 4);
    assert_eq!(hit.sub_matches.len(), 2);
    let none: MatchExpr = MatchExpr::new("ab") * 0;
    assert_eq!(none.match_text("zz").unwrap().length, 0);
}

#[test]
fn character_literal_of_two_bytes() {
    let e: MatchExpr = MatchExpr::new('é');
    assert_eq!(e.match_text("éa").unwrap().length, 2);
    assert_eq!(e.match_text("ea"), None);
}

#[test]
fn span_is_lazy() {
    let e: MatchExpr = MatchExpr::new("<".."> ");
    assert_eq!(e.match_text("<a> b> ").unwrap().contents, "<a> ");
    assert_eq!(e.match_text("<a>"), None);
}

#[test]
fn sequence_of_a_vec_keeps_one_child_each() {
    let e: MatchExpr = MatchExpr::new(vec![MatchExpr::named("a", 'a'), MatchExpr::named("b", 'b')]);
    let hit: MatchHit = e.match_text("abc").unwrap();
    assert_eq!(hit.sub_matches.len(), 2);
    assert_eq!(hit.length, 2);
}

#[test]
fn merge_of_a_leaf_into_a_branch_keeps_the_branch_children() {
    let e: MatchExpr = MatchExpr::new("[") + MatchExpr::named("c", "a") + "]";
    let hit: MatchHit = e.match_text("[a]").unwrap();
    assert_eq!(hit.contents, "[a]");
    assert_eq!(hit.length, 3);
    let parts: Vec<&str> = hit.sub_matches.iter().map(|h| h.contents.as_str()).collect();
    assert_eq!(parts, vec!["[", "a"]);
}

#[test]
fn contents_are_the_text_covered() {
    let text: &str = "-12.5e";
    let hit: MatchHit = MatchExpr::float().match_text(text).unwrap();
    assert_eq!(hit.contents, &text[..hit.length]);
    assert_eq!(hit.contents, "-12.5");
}
