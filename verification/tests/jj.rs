use supjj::jj::parse_bookmark_names;

#[test]
fn bookmark_names_are_read_from_each_line() {
    let out = "main: qpvuntsm 1234abcd Fix typo\nfeature-x: zzzzzzzz 99999999 (empty) wip\n  @origin: qpvuntsm 1234abcd Fix typo\n\n";
    assert_eq!(parse_bookmark_names(out), vec!["main", "feature-x", "@origin"]);
}

#[test]
fn empty_names_are_left_out() {
    assert!(parse_bookmark_names("").is_empty());
    assert_eq!(parse_bookmark_names(" : x\n\nb\n   \n"), vec!["b"]);
    assert_eq!(parse_bookmark_names("a:b:c\r\n"), vec!["a"]);
}
