use supjj::commands::{build_tree, expects_bookmark_arg};

#[test]
fn top_level_completions() {
    let tree = build_tree();
    let c = tree.completions(&["b"]);
    assert!(c.contains(&"bookmark".to_string()));
    assert!(c.contains(&"bisect".to_string()));
}

#[test]
fn nested_completions() {
    let tree = build_tree();
    let c = tree.completions(&["bookmark", ""]);
    assert!(c.contains(&"advance".to_string()));
    assert!(c.contains(&"delete".to_string()));
    assert!(c.contains(&"list".to_string()));
}

#[test]
fn flag_completions() {
    let tree = build_tree();
    let c = tree.completions(&["log", "--l"]);
    assert!(c.contains(&"--limit".to_string()));
}

#[test]
fn deep_nested() {
    let tree = build_tree();
    let c = tree.completions(&["git", "remote", ""]);
    assert!(c.contains(&"add".to_string()));
    assert!(c.contains(&"list".to_string()));
    assert!(c.contains(&"remove".to_string()));
}

#[test]
fn empty_input() {
    let tree = build_tree();
    let c = tree.completions(&[""]);
    assert!(c.contains(&"log".to_string()));
    assert!(c.contains(&"status".to_string()));
    assert!(c.len() > 30);
}

#[test]
fn bookmark_arg_detection() {
    assert!(expects_bookmark_arg(&["bookmark", "delete"]));
    assert!(expects_bookmark_arg(&["bookmark", "move", "main"]));
    assert!(!expects_bookmark_arg(&["bookmark", "list"]));
    assert!(!expects_bookmark_arg(&["log"]));
}

fn strings(v: &[&str]) -> Vec<String> {
    v.iter().map(|s| s.to_string()).collect()
}

#[test]
fn completions_of_one_word_are_exact_and_sorted() {
    let tree = build_tree();
    assert_eq!(tree.completions(&["b"]), strings(&["bisect", "bookmark"]));
    assert_eq!(tree.completions(&["re"]), strings(&["rebase", "redo", "resolve", "restore", "revert"]));
    assert_eq!(tree.completions(&["log", "--l"]), strings(&["--limit"]));
}

#[test]
fn nested_options_include_flags() {
    let tree = build_tree();
    assert_eq!(
        tree.completions(&["bookmark", "move", ""]),
        strings(&["--allow-backwards", "--from", "--to"])
    );
    assert_eq!(
        tree.completions(&["git", "remote", ""]),
        strings(&["add", "list", "remove", "rename", "set-url"])
    );
    assert_eq!(
        tree.completions(&["git", "colocation", ""]),
        strings(&["disable", "enable", "status"])
    );
}

#[test]
fn unknown_command_has_no_completions() {
    let tree = build_tree();
    assert!(tree.completions(&["frobnicate", ""]).is_empty());
    assert!(tree.completions(&["log", "--limit", "x", ""]).is_empty());
    assert!(tree.completions(&["zzz"]).is_empty());
}

#[test]
fn no_words_offers_everything_sorted() {
    let tree = build_tree();
    let all = tree.completions(&[]);
    let empty_word = tree.completions(&[""]);
    assert_eq!(all, empty_word);
    let mut sorted = all.clone();
    sorted.sort();
    assert_eq!(all, sorted);
    // 45 top-level commands and 9 global flags
    assert_eq!(all.len(), 54);
    assert_eq!(all[0], "--at-operation");
    assert_eq!(all[all.len() - 1], "workspace");
}

#[test]
fn every_completion_extends_the_last_word() {
    let tree = build_tree();
    for word in ["", "-", "--", "s", "st", "git", "x"] {
        for c in tree.completions(&[word]) {
            assert!(c.starts_with(word));
        }
    }
}

#[test]
fn bookmark_arg_detection_covers_every_subcommand() {
    for sub in ["advance", "create", "delete", "forget", "move", "rename", "set", "track", "untrack"] {
        assert!(expects_bookmark_arg(&["bookmark", sub]));
        assert!(expects_bookmark_arg(&["bookmark", sub, "x", "y"]));
    }
    assert!(!expects_bookmark_arg(&["bookmark"]));
    assert!(!expects_bookmark_arg(&[]));
    assert!(!expects_bookmark_arg(&["bookmarks", "delete"]));
    assert!(!expects_bookmark_arg(&["tag", "delete"]));
    assert!(!expects_bookmark_arg(&["bookmark", "del"]));
}

#[test]
fn completions_never_repeat() {
    let tree = build_tree();
    let paths: [&[&str]; 6] = [
        &[""],
        &["bookmark", ""],
        &["git", "remote", ""],
        &["log", ""],
        &["config", "list", "--"],
        &["squash", ""],
    ];
    for path in paths.iter() {
        let c = tree.completions(path);
        for i in 0..c.len() {
            for j in (i + 1)..c.len() {
                assert_ne!(c[i], c[j]);
            }
        }
    }
}

#[test]
fn a_longer_word_only_filters() {
    let tree = build_tree();
    let short = tree.completions(&["log", "--"]);
    let long = tree.completions(&["log", "--no"]);
    let filtered: Vec<String> = short.into_iter().filter(|o| o.starts_with("--no")).collect();
    assert_eq!(long, filtered);
    assert!(long.contains(&"--no-graph".to_string()));
    let short = tree.completions(&["b"]);
    let long = tree.completions(&["bo"]);
    let filtered: Vec<String> = short.into_iter().filter(|o| o.starts_with("bo")).collect();
    assert_eq!(long, filtered);
    assert_eq!(long, vec!["bookmark".to_string()]);
}
