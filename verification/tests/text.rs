use supjj::text::{lines, sort_strings, split_str, starts_with, str_eq, trim, lex_le_str, words_of, chars_of};

fn strings(v: &[&str]) -> Vec<String> {
    v.iter().map(|s| s.to_string()).collect()
}

#[test]
fn trim_matches_std() {
    for s in ["", "  ", " a ", "\tab c\n", "x", "\u{3000}y\u{a0}", "a  b"] {
        assert_eq!(trim(s), s.trim());
    }
}

#[test]
fn split_matches_std() {
    for s in ["", ";", "1;2", ";;3;", "abc"] {
        let ours = split_str(s, ';');
        let std: Vec<String> = s.split(';').map(|p| p.to_string()).collect();
        assert_eq!(ours, std);
    }
}

#[test]
fn lines_match_std() {
    for s in ["", "\n", "a", "a\n", "a\r\nb", "a\n\nb\n", "x\r", "\r\n\r\n", "a\rb\n"] {
        let std: Vec<String> = s.lines().map(|l| l.to_string()).collect();
        assert_eq!(lines(s), std);
    }
}

#[test]
fn words_match_split_whitespace() {
    for s in ["", "  ", "git  remote ", "\tlog\n-r x", "a"] {
        let cs = chars_of(s);
        let std: Vec<String> = s.split_whitespace().map(|w| w.to_string()).collect();
        assert_eq!(words_of(&cs, cs.len()), std);
    }
    let cs = chars_of("git remote add");
    assert_eq!(words_of(&cs, 8), strings(&["git", "remo"]));
}

#[test]
fn order_and_sort_match_std() {
    let v = strings(&["b", "a", "ab", "", "B", "é", "a", "--x"]);
    let mut expected = v.clone();
    expected.sort();
    assert_eq!(sort_strings(&v), expected);
    for a in ["", "a", "ab", "b", "é", "z"] {
        for b in ["", "a", "ab", "b", "é", "z"] {
            assert_eq!(lex_le_str(a, b), a <= b);
        }
    }
}

#[test]
fn prefix_and_equality() {
    assert!(starts_with("bookmark", "book"));
    assert!(starts_with("bookmark", ""));
    assert!(!starts_with("book", "bookmark"));
    assert!(!starts_with("bisect", "bo"));
    assert!(str_eq("abc", "abc"));
    assert!(!str_eq("abc", "abd"));
    assert!(!str_eq("abc", "ab"));
}
