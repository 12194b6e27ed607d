use text_matcher::ini::IniParser;
use text_matcher::MatchHit;

#[test]
fn test_ini() {
    const INI_CODE: &str = "[]\nempty data=x\n\n[user]\nname=bob\nage=\t32\njob=soap tester\n\n[test results]\ntest1=full failure\ntest2=partial failure\ntest3=success";
    let parser: IniParser = IniParser::new();
    let parse_result: MatchHit = parser.parse_formatted(INI_CODE, |value: &str| value.trim().to_string()).unwrap();

    println!("{}", parse_result.type_name_tree());

    // Validate general value.
    let remove_whitespace_and_get_type_and_contents = |matches_list: &[MatchHit]| -> Vec<(String, String)> {
        matches_list.iter().filter(|result| result.label != "whitespace").map(|result| (result.label.clone(), result.contents.clone())).collect()
    };
    let pairs = |v: Vec<(&str, &str)>| -> Vec<(String, String)> { v.into_iter().map(|(a, b)| (a.to_string(), b.to_string())).collect() };
    assert_eq!(
        remove_whitespace_and_get_type_and_contents(&parse_result.sub_matches),
        pairs(vec![
            ("group", "[]\nempty data=x"),
            ("group", "[user]\nname=bob\nage=\t32\njob=soap tester"),
            ("group", "[test results]\ntest1=full failure\ntest2=partial failure\ntest3=success")
        ])
    );
    assert_eq!(
        remove_whitespace_and_get_type_and_contents(&parse_result.sub_matches[0].sub_matches),
        pairs(vec![
            ("", "["),
            ("category_name", ""),
            ("variable_row", "empty data=x")
        ])
    );
    assert_eq!(
        remove_whitespace_and_get_type_and_contents(&parse_result.sub_matches[2].sub_matches),
        pairs(vec![
            ("", "["),
            ("category_name", "user"),
            ("variable_row", "name=bob"),
            ("variable_row", "age=\t32"),
            ("variable_row", "job=soap tester")
        ])
    );

    // Get the age of the user.
    let user_obj: &MatchHit = parse_result.find_child(|child| child.sub_matches.iter().any(|sub_child| sub_child.label == "category_name" && sub_child.contents == "user")).unwrap();
    let age_obj: &MatchHit = user_obj.find_child(|child| child.label == "variable_row" && child.find_child(|sub_child| sub_child.contents == "age").is_some()).unwrap();
    let age: &str = &age_obj.find_child(|child| child.label == "value").unwrap().contents;
    assert_eq!(age, "32");
}

#[test]
fn rewrite_touches_only_the_given_label() {
    let mut root: MatchHit = MatchHit::named_with_sub_matches("row", 4, "a= b", vec![
        MatchHit::named("name", 1, "a"),
        MatchHit::new(1, "="),
        MatchHit::named("value", 2, " b"),
    ]);
    root.rewrite_contents("value", |v| v.trim().to_uppercase());
    let parts: Vec<(&str, &str)> = root.sub_matches.iter().map(|h| (h.label.as_str(), h.contents.as_str())).collect();
    assert_eq!(parts, vec![("name", "a"), ("", "="), ("value", "B")]);
    assert_eq!(root.contents, "a= b");
}

#[test]
fn one_group_keeps_its_root() {
    let root: MatchHit = IniParser::new().parse("[]").unwrap();
    assert_eq!(root.label, "");
    assert_eq!(root.length, 2);
    assert_eq!(root.sub_matches.len(), 1);
    assert_eq!(root.sub_matches[0].label, "group");
    assert_eq!(root.sub_matches[0].contents, "[]");
}

#[test]
fn parse_without_formatter_keeps_values() {
    let root: MatchHit = IniParser::new().parse("[g]\nkey= v ").unwrap();
    let value: &MatchHit = root.find_child(|h| h.label == "value").unwrap();
    assert_eq!(value.contents, " v ");
}
