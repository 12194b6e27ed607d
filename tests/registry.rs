use text_matcher::ini::IniParser;
use text_matcher::{MatchExpr, MatchHit, MatcherRegistry};

#[test]
fn matcher_registry_u_test_matcher_set_find_matcher() {
    let set: MatcherRegistry = MatcherRegistry::new().with_matchers(vec![("a", 'a'), ("b", 'b')]);
    assert_eq!(set["a"].0, "a");
    assert_eq!(set["a"].1.match_text("aba").unwrap().length, 1);
    assert_eq!(set["a"].1.match_text("bab"), None);

    assert_eq!(set["b"].0, "b");
    assert_eq!(set["b"].1.match_text("aba"), None);
    assert_eq!(set["b"].1.match_text("bab").unwrap().length, 1);
}

#[test]
fn matcher_registry_u_test_matcher_set_match_global() {
    let set: MatcherRegistry = MatcherRegistry::new().with_matchers(vec![("a", 'a'), ("b", 'b')]);

    assert_eq!(set.match_text("abax").unwrap(), MatchHit { label: "a".to_string(), length: 1, contents: "a".to_string(), sub_matches: Vec::new() });
    assert_eq!(set.match_text("bax").unwrap(), MatchHit { label: "b".to_string(), length: 1, contents: "b".to_string(), sub_matches: Vec::new() });
    assert_eq!(set.match_text("ax").unwrap(), MatchHit { label: "a".to_string(), length: 1, contents: "a".to_string(), sub_matches: Vec::new() });
    assert_eq!(set.match_text("x"), None);
}

#[test]
fn matcher_registry_u_test_matcher_set_multi_match_global() {
    let set: MatcherRegistry = MatcherRegistry::new().with_matchers(vec![("a", "a"), ("b", "b"), ("x", "xa")]);

    assert_eq!(
        set.multi_match_text("abaxa").unwrap().sub_matches,
        vec![
            MatchHit { label: "a".to_string(), length: 1, contents: "a".to_string(), sub_matches: Vec::new() },
            MatchHit { label: "b".to_string(), length: 1, contents: "b".to_string(), sub_matches: Vec::new() },
            MatchHit { label: "a".to_string(), length: 1, contents: "a".to_string(), sub_matches: Vec::new() },
            MatchHit { label: "x".to_string(), length: 2, contents: "xa".to_string(), sub_matches: Vec::new() }
        ]
    );
}

#[test]
fn test_matcher_set_find_match() {
    let set: MatcherRegistry = MatcherRegistry::new().with_matchers(vec![("a", "a")]);

    assert_eq!(
        set.find_match("ooabaxa").unwrap(),
        (2, MatchHit { label: "a".to_string(), length: 1, contents: "a".to_string(), sub_matches: Vec::new() })
    );
}

#[test]
fn test_matcher_set_find_matches() {
    let set: MatcherRegistry = MatcherRegistry::new().with_matchers(vec![("a", "a")]);

    assert_eq!(
        set.find_matches("ooabaxa"),
        vec![
            (2, MatchHit { label: "a".to_string(), length: 1, contents: "a".to_string(), sub_matches: Vec::new() }),
            (4, MatchHit { label: "a".to_string(), length: 1, contents: "a".to_string(), sub_matches: Vec::new() }),
            (6, MatchHit { label: "a".to_string(), length: 1, contents: "a".to_string(), sub_matches: Vec::new() }),
        ]
    );
}

#[test]
fn text_matcher_set_u_test_matcher_set_find_matcher() {
    let set: MatcherRegistry = MatcherRegistry::new().with_matchers(vec![("a", 'a'), ("b", 'b')]);
    assert_eq!(set["a"].0, "a");
    assert_eq!(set["a"].1.match_text("aba").unwrap().length, 1);
    assert_eq!(set["a"].1.match_text("bab"), None);

    assert_eq!(set["b"].0, "b");
    assert_eq!(set["b"].1.match_text("aba"), None);
    assert_eq!(set["b"].1.match_text("bab").unwrap().length, 1);
}

#[test]
fn text_matcher_set_u_test_matcher_set_match_global() {
    let set: MatcherRegistry = MatcherRegistry::new().with_matchers(vec![("a", 'a'), ("b", 'b')]);

    assert_eq!(set.match_text("abax").unwrap(), MatchHit { label: "a".to_string(), length: 1, contents: "a".to_string(), sub_matches: Vec::new() });
    assert_eq!(set.match_text("bax").unwrap(), MatchHit { label: "b".to_string(), length: 1, contents: "b".to_string(), sub_matches: Vec::new() });
    assert_eq!(set.match_text("ax").unwrap(), MatchHit { label: "a".to_string(), length: 1, contents: "a".to_string(), sub_matches: Vec::new() });
    assert_eq!(set.match_text("x"), None);
}

#[test]
fn text_matcher_set_u_test_matcher_set_multi_match_global() {
    let set: MatcherRegistry = MatcherRegistry::new().with_matchers(vec![("a", "a"), ("b", "b"), ("x", "xa")]);

    assert_eq!(
        set.multi_match_text("abaxa").unwrap().sub_matches,
        vec![
            MatchHit { label: "a".to_string(), length: 1, contents: "a".to_string(), sub_matches: Vec::new() },
            MatchHit { label: "b".to_string(), length: 1, contents: "b".to_string(), sub_matches: Vec::new() },
            MatchHit { label: "a".to_string(), length: 1, contents: "a".to_string(), sub_matches: Vec::new() },
            MatchHit { label: "x".to_string(), length: 2, contents: "xa".to_string(), sub_matches: Vec::new() }
        ]
    );
}

/* FURTHER TESTS */

#[test]
fn scan_consumes_the_whole_text() {
    let set: MatcherRegistry = MatcherRegistry::new().with_matchers(vec![("a", "a"), ("b", "b"), ("x", "xa")]);
    let root: MatchHit = set.multi_match_text("abaxa").unwrap();
    assert_eq!(root.length, 5);
    assert_eq!(root.contents, "abaxa");
}

#[test]
fn scan_stops_where_no_rule_matches() {
    let set: MatcherRegistry = MatcherRegistry::new().with_matchers(vec![("a", "a"), ("b", "b")]);
    let root: MatchHit = set.multi_match_text("abzab").unwrap();
    assert_eq!(root.length, 2);
    assert_eq!(root.sub_matches.len(), 2);
}

#[test]
fn scan_reports_a_rule_that_matches_nothing() {
    let set: MatcherRegistry = MatcherRegistry::new()
        .with_matcher("a", "a")
        .with_matcher("blank", MatchExpr::optional_repeat_max(' '));
    let err = set.multi_match_text("aab").unwrap_err();
    assert_eq!(err.rule_name, "blank");
}

#[test]
fn lookup_takes_the_first_of_equal_names() {
    let set: MatcherRegistry = MatcherRegistry::new().with_matcher("n", "x").with_matcher("n", "y");
    let (name, expr) = set.matcher_by_name("n").unwrap();
    assert_eq!(name, "n");
    assert_eq!(expr.match_text("x").unwrap().length, 1);
    assert!(set.matcher_by_name("m").is_none());
}

#[test]
fn match_prefers_the_earlier_rule() {
    let set: MatcherRegistry = MatcherRegistry::new().with_matchers(vec![("short", "a"), ("long", "ab")]);
    assert_eq!(set.match_text("ab").unwrap().label, "short");
}

#[test]
fn find_match_of_nothing() {
    let set: MatcherRegistry = MatcherRegistry::new().with_matchers(vec![("a", "a")]);
    assert!(set.find_match("xyz").is_none());
    assert!(set.find_matches("").is_empty());
}

#[test]
fn find_matches_after_a_longer_hit() {
    let set: MatcherRegistry = MatcherRegistry::new().with_matchers(vec![("aa", "aa")]);
    let found: Vec<usize> = set.find_matches("aaab").iter().map(|(i, _)| *i).collect();
    assert_eq!(found, vec![0]);
}

#[test]
fn grouped_rows_end_to_end() {
    let text: &str = "[]\nempty data=x\n\n[user]\nname=bob\nage=\t32\njob=soap tester\n\n[test results]\ntest1=full failure\ntest2=partial failure\ntest3=success";
    let root: MatchHit = IniParser::new().parse(text).unwrap();
    let groups: Vec<(&str, &str)> = root.sub_matches.iter().filter(|h| h.label != "whitespace").map(|h| (h.label.as_str(), h.contents.as_str())).collect();
    assert_eq!(
        groups,
        vec![
            ("group", "[]\nempty data=x"),
            ("group", "[user]\nname=bob\nage=\t32\njob=soap tester"),
            ("group", "[test results]\ntest1=full failure\ntest2=partial failure\ntest3=success"),
        ]
    );
    let user: Vec<(&str, &str)> = root.sub_matches[2].sub_matches.iter().filter(|h| h.label != "whitespace").map(|h| (h.label.as_str(), h.contents.as_str())).collect();
    assert_eq!(
        user,
        vec![
            ("", "["),
            ("category_name", "user"),
            ("variable_row", "name=bob"),
            ("variable_row", "age=\t32"),
            ("variable_row", "job=soap tester"),
        ]
    );
    let user_obj: &MatchHit = root.find_child(|child| child.sub_matches.iter().any(|sub| sub.label == "category_name" && sub.contents == "user")).unwrap();
    let age_obj: &MatchHit = user_obj.find_child(|child| child.label == "variable_row" && child.find_child(|sub| sub.contents == "age").is_some()).unwrap();
    assert_eq!(age_obj.find_child(|child| child.label == "value").unwrap().contents, "\t32");
    let empty_group: Vec<(&str, &str)> = root.sub_matches[0].sub_matches.iter().filter(|h| h.label != "whitespace").map(|h| (h.label.as_str(), h.contents.as_str())).collect();
    assert_eq!(empty_group, vec![("", "["), ("category_name", ""), ("variable_row", "empty data=x")]);
}

#[test]
fn find_matches_skips_inside_characters() {
    let set: MatcherRegistry = MatcherRegistry::new().with_matchers(vec![("b", "b")]);
    let found: Vec<usize> = set.find_matches("ébéb").iter().map(|(i, _)| *i).collect();
    assert_eq!(found, vec![2, 5]);
    assert_eq!(set.find_match("éb").unwrap().0, 2);
}

#[test]
fn find_matches_moves_on_after_an_empty_hit() {
    let set: MatcherRegistry = MatcherRegistry::new().with_matcher("maybe", MatchExpr::optional("a"));
    let found: Vec<(usize, usize)> = set.find_matches("ab").iter().map(|(i, h)| (*i, h.length)).collect();
    assert_eq!(found, vec![(0, 1), (1, 0)]);
}

#[test]
fn single_match_scan_keeps_its_root() {
    let set: MatcherRegistry = MatcherRegistry::new().with_matchers(vec![("a", "a")]);
    let root: MatchHit = set.multi_match_text("a").unwrap();
    assert_eq!(root.label, "");
    assert_eq!(root.length, 1);
    assert_eq!(root.contents, "a");
    assert_eq!(root.sub_matches, vec![MatchHit { label: "a".to_string(), length: 1, contents: "a".to_string(), sub_matches: Vec::new() }]);
    let empty: MatchHit = set.multi_match_text("zz").unwrap();
    assert_eq!(empty.length, 0);
    assert!(empty.sub_matches.is_empty());
}

#[test]
fn index_gives_the_first_entry_of_a_name() {
    let set: MatcherRegistry = MatcherRegistry::new().with_matcher("n", "x").with_matcher("n", "y");
    assert_eq!(set["n"].1.match_text("x").unwrap().length, 1);
    assert_eq!(set["n"].1.match_text("y"), None);
}
