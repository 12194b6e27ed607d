use text_matcher::predicate::{FunctionLength, FunctionPredicate};
use text_matcher::{MatchHit, TextMatcherAdd, TextPredicate};

/* ATOM IMPLEMENTATION TESTS */

#[test]
fn test_text_predicate_atom_char() {
    assert_eq!('x'.match_text("xaba").unwrap().length, 1); // Partial match
    assert_eq!('a'.match_text("xaba"), None); // Full mismatch
    assert_eq!('x'.match_text("xxaba").unwrap().length, 1); // Non-repeating match
    assert_eq!('x'.match_text(""), None); // Empty text mismatch
}

#[test]
fn test_text_predicate_atom_str() {
    assert_eq!("x".match_text("xaba").unwrap().length, 1); // Partial match
    assert_eq!("xaba".match_text("xaba").unwrap().length, 4); // Full match
    assert_eq!("a".match_text("xaba"), None); // Full mismatch
    assert_eq!("xxa".match_text("xxaba").unwrap().length, 3); // Partial lengthy match
    assert_eq!("xxa".match_text(""), None); // Empty text mismatch
}

#[test]
fn test_text_predicate_atom_string() {
    assert_eq!("x".to_string().match_text("xaba").unwrap().length, 1); // Partial match
    assert_eq!("xaba".to_string().match_text("xaba").unwrap().length, 4); // Full match
    assert_eq!("a".to_string().match_text("xaba"), None); // Full mismatch
    assert_eq!("xxa".to_string().match_text("xxaba").unwrap().length, 3); // Partial lengthy match
    assert_eq!("xxa".to_string().match_text(""), None); // Empty text mismatch
}

#[test]
fn test_text_predicate_atom_fn() {
    assert_eq!((|text: &str| if text == "xaba" { Some(MatchHit::new(3, text)) } else { None }).match_text("xaba").unwrap().length, 3);
    assert_eq!((|text: &str| if text == "daba" { Some(MatchHit::new(3, text)) } else { None }).match_text("xaba"), None);
    assert_eq!((|text: &str| if text == "daba" { Some(MatchHit::new(3, text)) } else { None }).match_text(""), None);
}

/* LIST IMPLEMENTATION TESTS */

#[test]
fn test_text_predicate_list_array() {
    assert_eq!(["x", "ab"].match_text("xaba").unwrap().length, 3); // Partial match
    assert_eq!(["x", "ab", "a"].match_text("xaba").unwrap().length, 4); // Full match
    assert_eq!(["a", "ab"].match_text("xaba"), None); // Full mismatch
    assert_eq!(["x", "x", "ab"].match_text("xxaba").unwrap().length, 4); // Partial lengthy match
    assert_eq!(["x", "ad"].match_text("xaba"), None); // Partial mismatch
    assert_eq!(["x", "ab", "a", ""].match_text("xaba").unwrap().length, 4); // Full match with trailing empty
    assert_eq!(["x", "ab", "a", ""].match_text(""), None); // Empty text mismatch
}

#[test]
fn test_text_predicate_list_vec() {
    assert_eq!(vec!["x", "ab"].match_text("xaba").unwrap().length, 3); // Partial match
    assert_eq!(vec!["x", "ab", "a"].match_text("xaba").unwrap().length, 4); // Full match
    assert_eq!(vec!["a", "ab"].match_text("xaba"), None); // Full mismatch
    assert_eq!(vec!["x", "x", "ab"].match_text("xxaba").unwrap().length, 4); // Partial lengthy match
    assert_eq!(vec!["x", "ad"].match_text("xaba"), None); // Partial mismatch
    assert_eq!(vec!["x", "ab", "a", ""].match_text("xaba").unwrap().length, 4); // Full match with trailing empty
    assert_eq!(vec!["x", "ab", "a", ""].match_text(""), None); // Empty text mismatch
}

#[test]
fn test_text_predicate_list_tuple() {
    assert_eq!(('x', "ab").match_text("xaba").unwrap().length, 3); // Partial match
    assert_eq!(('x', "ab", 'a').match_text("xaba").unwrap().length, 4); // Full match
    assert_eq!(('a', "ab").match_text("xaba"), None); // Full mismatch
    assert_eq!(('x', "xab").match_text("xxaba").unwrap().length, 4); // Partial lengthy match
    assert_eq!(('x', "ad").match_text("xaba"), None); // Partial mismatch
    assert_eq!(('x', "ab", 'a', "").match_text("xaba").unwrap().length, 4); // Full match with trailing empty
    assert_eq!(('x', "ab", 'a', 'x', "ab", 'a', 'x', "ab", 'a', 'x', "ab", 'a').match_text("xabaxabaxabaxabaxaba").unwrap().length, 16); // Full lengthy match
    assert_eq!(('x', "ab", 'a', "").match_text(""), None); // Empty text mismatch
}

/* MISCELLANEOUS IMPLEMENTATION TESTS */

#[test]
fn test_text_predicate_misc_range() {
    assert_eq!(("x".."b").match_text("xoba").unwrap().length, 3); // Partial lengthy match
    assert_eq!(("x".."a").match_text("xoba").unwrap().length, 4); // Full match
    assert_eq!(("b".."a").match_text("xoba"), None); // Full mismatch
    assert_eq!(("x".."b").match_text(""), None); // Empty text mismatch
}

/* LENGTH-ONLY MATCHING */

#[test]
fn test_text_matcher_atom_char() {
    assert_eq!('x'.match_text_length("xaba"), Some(1)); // Partial match
    assert_eq!('a'.match_text_length("xaba"), None); // Full mismatch
    assert_eq!('x'.match_text_length("xxaba"), Some(1)); // Non-repeating match
    assert_eq!('x'.match_text_length(""), None); // Empty text mismatch
}

#[test]
fn test_text_matcher_atom_str() {
    assert_eq!("x".match_text_length("xaba"), Some(1)); // Partial match
    assert_eq!("xaba".match_text_length("xaba"), Some(4)); // Full match
    assert_eq!("a".match_text_length("xaba"), None); // Full mismatch
    assert_eq!("xxa".match_text_length("xxaba"), Some(3)); // Partial lengthy match
    assert_eq!("xxa".match_text_length(""), None); // Empty text mismatch
}

#[test]
fn test_text_matcher_atom_string() {
    assert_eq!("x".to_string().match_text_length("xaba"), Some(1)); // Partial match
    assert_eq!("xaba".to_string().match_text_length("xaba"), Some(4)); // Full match
    assert_eq!("a".to_string().match_text_length("xaba"), None); // Full mismatch
    assert_eq!("xxa".to_string().match_text_length("xxaba"), Some(3)); // Partial lengthy match
    assert_eq!("xxa".to_string().match_text_length(""), None); // Empty text mismatch
}

#[test]
fn test_text_matcher_atom_fn() {
    assert_eq!((|text: &str| if text == "xaba" { Some(3) } else { None }).match_text_length("xaba"), Some(3));
    assert_eq!((|text: &str| if text == "daba" { Some(3) } else { None }).match_text_length("xaba"), None);
    assert_eq!((|text: &str| if text == "daba" { Some(3) } else { None }).match_text_length(""), None);
}

#[test]
fn test_text_matcher_list_array() {
    assert_eq!(["x", "ab"].match_text_length("xaba"), Some(3)); // Partial match
    assert_eq!(["x", "ab", "a"].match_text_length("xaba"), Some(4)); // Full match
    assert_eq!(["a", "ab"].match_text_length("xaba"), None); // Full mismatch
    assert_eq!(["x", "x", "ab"].match_text_length("xxaba"), Some(4)); // Partial lengthy match
    assert_eq!(["x", "ad"].match_text_length("xaba"), None); // Partial mismatch
    assert_eq!(["x", "ab", "a", ""].match_text_length("xaba"), Some(4)); // Full match with trailing empty
    assert_eq!(["x", "ab", "a", ""].match_text_length(""), None); // Empty text mismatch
}

#[test]
fn test_text_matcher_list_vec() {
    assert_eq!(vec!["x", "ab"].match_text_length("xaba"), Some(3)); // Partial match
    assert_eq!(vec!["x", "ab", "a"].match_text_length("xaba"), Some(4)); // Full match
    assert_eq!(vec!["a", "ab"].match_text_length("xaba"), None); // Full mismatch
    assert_eq!(vec!["x", "x", "ab"].match_text_length("xxaba"), Some(4)); // Partial lengthy match
    assert_eq!(vec!["x", "ad"].match_text_length("xaba"), None); // Partial mismatch
    assert_eq!(vec!["x", "ab", "a", ""].match_text_length("xaba"), Some(4)); // Full match with trailing empty
    assert_eq!(vec!["x", "ab", "a", ""].match_text_length(""), None); // Empty text mismatch
}

#[test]
fn test_text_matcher_list_tuple() {
    assert_eq!(('x', "ab").match_text_length("xaba"), Some(3)); // Partial match
    assert_eq!(('x', "ab", 'a').match_text_length("xaba"), Some(4)); // Full match
    assert_eq!(('a', "ab").match_text_length("xaba"), None); // Full mismatch
    assert_eq!(('x', "xab").match_text_length("xxaba"), Some(4)); // Partial lengthy match
    assert_eq!(('x', "ad").match_text_length("xaba"), None); // Partial mismatch
    assert_eq!(('x', "ab", 'a', "").match_text_length("xaba"), Some(4)); // Full match with trailing empty
    assert_eq!(('x', "ab", 'a', 'x', "ab", 'a', 'x', "ab", 'a', 'x', "ab", 'a').match_text_length("xabaxabaxabaxabaxaba"), Some(16)); // Full lengthy match
    assert_eq!(('x', "ab", 'a', "").match_text_length(""), None); // Empty text mismatch
}

#[test]
fn test_text_matcher_operation_add() {
    assert_eq!(TextMatcherAdd::new('x', "ab").match_text("xaba"), Some(3)); // Partial match

    assert_eq!(TextMatcherAdd::new('x', "ab").match_text("xaba"), Some(3)); // Partial match
    assert_eq!(TextMatcherAdd::new('x', "aba").match_text("xaba"), Some(4)); // Full match
    assert_eq!(TextMatcherAdd::new('a', "ab").match_text("xaba"), None); // Full mismatch
    assert_eq!(TextMatcherAdd::new('x', "xab").match_text("xxaba"), Some(4)); // Partial lengthy match
    assert_eq!(TextMatcherAdd::new('x', "ad").match_text("xaba"), None); // Partial mismatch
    assert_eq!(TextMatcherAdd::new("xaba", "").match_text("xaba"), Some(4)); // Full match with trailing empty
    assert_eq!(TextMatcherAdd::new(TextMatcherAdd::new('x', "xa"), "b").match_text("xxaba"), Some(4)); // Recursive adding.
}

#[test]
fn empty_literal_matches_nothing_long() {
    assert_eq!("".match_text_length("abc"), Some(0));
    assert_eq!("".match_text_length(""), Some(0));
}
