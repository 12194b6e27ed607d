use text_matcher::MatchHit;

/* CONSTRUCTOR TESTS */

#[test]
fn test_new() {
    assert_eq!(
        MatchHit::new(3, "hello"),
        MatchHit {
            label: String::new(),
            length: 3,
            contents: "hel".to_string(),
            sub_matches: Vec::new()
        }
    );
}

#[test]
fn test_new_with_sub_matches_merging() {
    let combined: MatchHit = MatchHit::new_with_sub_matches(5, "abcdef", vec![
        MatchHit::new(2, "abcdef"),
        MatchHit::new(3, "abcdef"),
    ]);
    assert_eq!(combined.length, 5);
    assert_eq!(combined.contents, "ababc");
    assert_eq!(combined.sub_matches.len(), 0); // Wrapper should be removed.
}

#[test]
fn test_new_with_sub_matches_single_unwrapped() {
    let sub: MatchHit = MatchHit::named("only", 3, "abcdef");
    let combined: MatchHit = MatchHit::new_with_sub_matches(3, "abcdef", vec![sub.clone()]);
    assert_eq!(combined, sub); // Wrapper should be removed.
}

#[test]
fn test_named() {
    assert_eq!(
        MatchHit::named("word", 4, "wordplay"),
        MatchHit {
            label: "word".to_string(),
            length: 4,
            contents: "word".to_string(),
            sub_matches: Vec::new()
        }
    );
}

#[test]
fn test_named_with_sub_matches() {
    let sub: MatchHit = MatchHit::named("sub", 2, "abcdef");
    let result: MatchHit = MatchHit::named_with_sub_matches("main", 3, "abcdef", vec![sub.clone()]);
    assert_eq!(result.label, "main");
    assert_eq!(result.contents, "abc");
    assert_eq!(result.sub_matches, vec![sub]);
}

/* CHILD SEARCH TESTS */

#[test]
fn test_type_name_tree_simple() {
    let root: MatchHit = MatchHit::named("root", 3, "abc");
    let tree: String = root.type_name_tree();
    assert_eq!(tree, "root");
}

#[test]
fn test_type_name_tree_nested() {
    let root: MatchHit = MatchHit::named_with_sub_matches("root", 2, "xy", vec![
        MatchHit::named("child", 2, "xy"),
    ]);
    let tree: String = root.type_name_tree();
    assert_eq!(tree, "root\n| child");
}

#[test]
fn test_find_child_matches_self() {
    assert!(MatchHit::named("self", 2, "ab").find_child(|c| c.label == "self").is_some());
}

#[test]
fn test_find_child_nested() {
    let child: MatchHit = MatchHit::named("target", 2, "zz");
    let root: MatchHit = MatchHit::named_with_sub_matches("root", 2, "zz", vec![child.clone()]);
    let found: &MatchHit = root.find_child(|c| c.label == "target").unwrap();
    assert_eq!(found, &child);
}

#[test]
fn test_find_children_nested() {
    let child_a: MatchHit = MatchHit::named("target", 2, "zz");
    let child_b: MatchHit = MatchHit::named("target", 2, "xx");
    let child_b_parent: MatchHit = MatchHit::named_with_sub_matches("target_parent", 2, "zz", vec![child_b.clone()]);
    let root: MatchHit = MatchHit::named_with_sub_matches("root", 2, "zz", vec![child_a.clone(), child_b_parent.clone()]);
    let found: Vec<&MatchHit> = root.find_children(|c| c.label == "target");
    assert_eq!(found, vec![&child_a, &child_b]);
}

#[test]
fn test_find_child_none() {
    let root: MatchHit = MatchHit::named("root", 2, "ab");
    assert!(root.find_child(|c| c.label == "missing").is_none());
}

#[test]
fn test_find_child_by_type_path_direct() {
    let match_result: MatchHit = MatchHit::named("direct", 2, "xy");
    assert!(match_result.find_child_by_type_path(&["direct"]).is_some());
}

#[test]
fn test_find_child_by_type_path_nested() {
    let grandchild: MatchHit = MatchHit::named("gc", 1, "z");
    let child: MatchHit = MatchHit::named_with_sub_matches("c", 1, "z", vec![grandchild.clone()]);
    let root: MatchHit = MatchHit::named_with_sub_matches("r", 1, "z", vec![child]);
    let found: &MatchHit = root.find_child_by_type_path(&["r", "c", "gc"]).unwrap();
    assert_eq!(found, &grandchild);
}

#[test]
fn test_find_child_by_type_path_none() {
    let root: MatchHit = MatchHit::named("root", 2, "ab");
    assert!(root.find_child_by_type_path(&["missing"]).is_none());
}

/* FURTHER TESTS */

#[test]
fn collapse_keeps_a_named_wrapper() {
    let sub: MatchHit = MatchHit::new(3, "abcdef");
    let wrapped: MatchHit = MatchHit::named_with_sub_matches("outer", 3, "abcdef", vec![sub.clone()]);
    assert_eq!(wrapped.label, "outer");
    assert_eq!(wrapped.sub_matches, vec![sub.clone()]);
    let bare: MatchHit = MatchHit::new_with_sub_matches(3, "abcdef", vec![sub.clone()]);
    assert_eq!(bare, sub);
}

#[test]
fn merge_pass_keeps_labelled_nodes_apart() {
    let mut hit: MatchHit = MatchHit::new(6, "abcdef");
    hit.sub_matches = vec![
        MatchHit::new(1, "a"),
        MatchHit::new(1, "b"),
        MatchHit::named("x", 1, "c"),
        MatchHit::new(1, "d"),
        MatchHit::new(2, "ef"),
    ];
    hit.combine_sub_matches();
    let parts: Vec<(&str, &str, usize)> = hit.sub_matches.iter().map(|h| (h.label.as_str(), h.contents.as_str(), h.length)).collect();
    assert_eq!(parts, vec![("", "ab", 2), ("x", "c", 1), ("", "def", 3)]);
}

#[test]
fn merge_pass_on_no_children() {
    let combined: MatchHit = MatchHit::new_with_sub_matches(2, "abc", Vec::new());
    assert_eq!(combined, MatchHit::new(2, "abc"));
}

#[test]
fn children_concatenate_to_their_parent() {
    let parent: MatchHit = MatchHit::named_with_sub_matches("p", 5, "hello!", vec![
        MatchHit::named("a", 2, "he"),
        MatchHit::named("b", 3, "llo"),
    ]);
    let joined: String = parent.sub_matches.iter().map(|h| h.contents.as_str()).collect();
    assert_eq!(joined, parent.contents);
    assert_eq!(parent.sub_matches.iter().map(|h| h.length).sum::<usize>(), parent.length);
}

#[test]
fn type_name_tree_skips_unlabelled_nodes() {
    let leaf: MatchHit = MatchHit::named("leaf", 1, "z");
    let middle: MatchHit = MatchHit::new_with_sub_matches(1, "z", vec![leaf]);
    let other: MatchHit = MatchHit::named("other", 1, "y");
    let root: MatchHit = MatchHit::named_with_sub_matches("root", 2, "zy", vec![middle, other]);
    assert_eq!(root.type_name_tree(), "root\n| leaf\n| other");
}

#[test]
fn path_search_retries_in_children() {
    let target: MatchHit = MatchHit::named("b", 1, "q");
    let inner: MatchHit = MatchHit::named_with_sub_matches("a", 1, "q", vec![target.clone()]);
    let root: MatchHit = MatchHit::named_with_sub_matches("a", 1, "q", vec![inner]);
    assert_eq!(root.find_child_by_type_path(&["a", "b"]).unwrap(), &target);
    assert!(root.find_child_by_type_path(&[]).is_none());
}

#[test]
fn clone_is_equal() {
    let root: MatchHit = MatchHit::named_with_sub_matches("r", 2, "zy", vec![MatchHit::named("c", 1, "z")]);
    assert_eq!(root.clone(), root);
}

#[test]
fn multibyte_contents_are_whole_characters() {
    let hit: MatchHit = MatchHit::new(3, "héllo");
    assert_eq!(hit.contents, "hé");
}

#[test]
fn visitor_sees_every_node_in_pre_order() {
    let root: MatchHit = MatchHit::named_with_sub_matches("r", 2, "zy", vec![
        MatchHit::named_with_sub_matches("a", 1, "z", vec![MatchHit::named("b", 1, "z")]),
        MatchHit::named("c", 1, "y"),
    ]);
    let seen: std::cell::RefCell<Vec<String>> = std::cell::RefCell::new(Vec::new());
    root.execute_recursive(|h| seen.borrow_mut().push(h.label.clone()));
    assert_eq!(seen.into_inner(), vec!["r", "a", "b", "c"]);
}
