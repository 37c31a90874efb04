use supjj::tui::{Action, App, Key};

fn type_text(app: &mut App, text: &str) {
    for c in text.chars() {
        assert_eq!(app.handle_key(Key::Char { c, ctrl_only: false }), Action::Continue);
    }
}

fn strings(v: &[&str]) -> Vec<String> {
    v.iter().map(|s| s.to_string()).collect()
}

fn started() -> App {
    let mut app = App::new();
    app.update_suggestions();
    app
}

#[test]
fn starts_empty_with_every_command() {
    let app = App::new();
    assert_eq!(app.input(), "");
    assert_eq!(app.cursor(), 0);
    assert!(app.suggestions().is_empty());
    let app = started();
    assert_eq!(app.suggestions().len(), 54);
    assert_eq!(app.selected_suggestion(), 0);
    assert_eq!(app.ghost_text(), "");
}

#[test]
fn typing_narrows_the_suggestions() {
    let mut app = started();
    type_text(&mut app, "b");
    assert_eq!(app.suggestions(), &strings(&["bisect", "bookmark"]));
    assert_eq!(app.ghost_text(), "isect");
    type_text(&mut app, "o");
    assert_eq!(app.suggestions(), &strings(&["bookmark"]));
    assert_eq!(app.ghost_text(), "okmark");
    type_text(&mut app, "x");
    assert!(app.suggestions().is_empty());
    assert_eq!(app.ghost_text(), "");
}

#[test]
fn tab_accepts_the_selected_suggestion() {
    let mut app = started();
    type_text(&mut app, "gi");
    assert_eq!(app.handle_key(Key::Tab), Action::Continue);
    assert_eq!(app.input(), "git ");
    assert_eq!(app.cursor(), 4);
    assert!(app.suggestions().contains(&"remote".to_string()));
    type_text(&mut app, "rem");
    app.handle_key(Key::Tab);
    assert_eq!(app.input(), "git remote ");
    assert_eq!(app.suggestions(), &strings(&["add", "list", "remove", "rename", "set-url"]));
    // with nothing selectable, Tab does nothing
    type_text(&mut app, "zz");
    app.handle_key(Key::Tab);
    assert_eq!(app.input(), "git remote zz");
}

#[test]
fn tab_in_the_middle_keeps_the_rest() {
    let mut app = started();
    type_text(&mut app, "lo --x");
    for _ in 0..4 {
        app.handle_key(Key::Left);
    }
    assert_eq!(app.before_cursor(), "lo");
    assert_eq!(app.after_cursor(), " --x");
    assert_eq!(app.suggestions(), &strings(&["log"]));
    // no ghost text unless the cursor is at the end
    assert_eq!(app.ghost_text(), "");
    app.handle_key(Key::Tab);
    assert_eq!(app.input(), "log  --x");
    assert_eq!(app.cursor(), 4);
}

#[test]
fn arrows_cycle_the_selection() {
    let mut app = started();
    type_text(&mut app, "s");
    let n = app.suggestions().len();
    assert!(n >= 3);
    app.handle_key(Key::Up);
    assert_eq!(app.selected_suggestion(), n - 1);
    app.handle_key(Key::Down);
    assert_eq!(app.selected_suggestion(), 0);
    app.handle_key(Key::Down);
    app.handle_key(Key::Down);
    assert_eq!(app.selected_suggestion(), 2);
    app.handle_key(Key::Up);
    assert_eq!(app.selected_suggestion(), 1);
    // typing starts again at the first suggestion
    type_text(&mut app, "h");
    assert_eq!(app.selected_suggestion(), 0);
    assert_eq!(app.suggestions(), &strings(&["show"]));
}

#[test]
fn arrows_on_no_suggestions_do_nothing() {
    let mut app = started();
    type_text(&mut app, "qq");
    app.handle_key(Key::Up);
    app.handle_key(Key::Down);
    assert_eq!(app.selected_suggestion(), 0);
}

#[test]
fn visible_window_follows_the_selection() {
    let mut app = started();
    let v = app.visible_suggestions();
    assert_eq!(v.len(), 5);
    assert!(v[0].0);
    assert_eq!(v[0].1, "--at-operation");
    assert_eq!(app.suggestion_rows(), 5);
    for _ in 0..4 {
        app.handle_key(Key::Down);
    }
    let v = app.visible_suggestions();
    assert_eq!(v.len(), 5);
    assert!(!v[0].0 && !v[1].0 && v[2].0);
    assert_eq!(v[2].1, app.suggestions()[4]);
    app.handle_key(Key::Up);
    app.handle_key(Key::Up);
    app.handle_key(Key::Up);
    app.handle_key(Key::Up);
    app.handle_key(Key::Up);
    // the last one is selected: fewer than five are left to show
    let v = app.visible_suggestions();
    assert_eq!(v.len(), 3);
    assert!(v[2].0);
    type_text(&mut app, "bi");
    assert_eq!(app.suggestion_rows(), 1);
}

#[test]
fn editing_keys() {
    let mut app = started();
    type_text(&mut app, "lgo");
    app.handle_key(Key::Left);
    app.handle_key(Key::Left);
    app.handle_key(Key::Backspace);
    assert_eq!(app.input(), "go");
    assert_eq!(app.cursor(), 0);
    app.handle_key(Key::Backspace);
    assert_eq!(app.input(), "go");
    app.handle_key(Key::Delete);
    assert_eq!(app.input(), "o");
    type_text(&mut app, "l");
    app.handle_key(Key::Right);
    type_text(&mut app, "g");
    assert_eq!(app.input(), "log");
    app.handle_key(Key::Right);
    assert_eq!(app.cursor(), 3);
    app.handle_key(Key::Delete);
    assert_eq!(app.input(), "log");
    app.handle_key(Key::Other);
    assert_eq!(app.input(), "log");
}

#[test]
fn backspace_undoes_typing() {
    let mut app = started();
    type_text(&mut app, "re");
    let before = app.suggestions().clone();
    type_text(&mut app, "b");
    app.handle_key(Key::Backspace);
    assert_eq!(app.input(), "re");
    assert_eq!(app.cursor(), 2);
    assert_eq!(app.suggestions(), &before);
}

#[test]
fn enter_runs_the_trimmed_text() {
    let mut app = started();
    type_text(&mut app, "  log -r @  ");
    assert_eq!(app.handle_key(Key::Enter), Action::Execute("log -r @".to_string()));
    assert_eq!(app.input(), "  log -r @  ");
    let mut app = started();
    assert_eq!(app.handle_key(Key::Enter), Action::Execute(String::new()));
}

#[test]
fn escape_and_ctrl_c_dismiss() {
    let mut app = started();
    type_text(&mut app, "st");
    assert_eq!(app.handle_key(Key::Esc), Action::Dismiss);
    assert_eq!(app.handle_key(Key::Char { c: 'c', ctrl_only: true }), Action::Dismiss);
    assert_eq!(app.input(), "st");
    // a plain c, or another control key, is typed
    assert_eq!(app.handle_key(Key::Char { c: 'c', ctrl_only: false }), Action::Continue);
    assert_eq!(app.handle_key(Key::Char { c: 'x', ctrl_only: true }), Action::Continue);
    assert_eq!(app.input(), "stcx");
}

#[test]
fn tokens_follow_the_cursor_and_spaces() {
    let mut app = started();
    type_text(&mut app, "git ");
    assert!(app.suggestions().contains(&"push".to_string()));
    type_text(&mut app, "p");
    assert_eq!(app.suggestions(), &strings(&["push"]));
    app.handle_key(Key::Left);
    // the text before the cursor is "git ": the options of git
    assert!(app.suggestions().contains(&"remote".to_string()));
    app.handle_key(Key::Left);
    // now it is "git": the word is being typed
    assert_eq!(app.suggestions(), &strings(&["git"]));
    let mut app = started();
    type_text(&mut app, "   ");
    assert_eq!(app.suggestions().len(), 54);
}

#[test]
fn bookmark_names_are_offered_when_known() {
    let mut app = started();
    type_text(&mut app, "bookmark delete ");
    assert!(app.needs_bookmarks());
    assert!(app.suggestions().is_empty());
    assert!(app.bookmarks().is_empty());
    app.set_bookmarks(strings(&["main", "dev", "main", "feature"]));
    assert!(!app.needs_bookmarks());
    assert_eq!(app.bookmarks(), strings(&["main", "dev", "main", "feature"]));
    assert_eq!(app.suggestions(), &strings(&["dev", "feature", "main"]));
    type_text(&mut app, "m");
    assert_eq!(app.suggestions(), &strings(&["main"]));
    app.handle_key(Key::Tab);
    assert_eq!(app.input(), "bookmark delete main ");
}

#[test]
fn bookmark_names_join_the_flags() {
    let mut app = started();
    type_text(&mut app, "bookmark set ");
    app.set_bookmarks(strings(&["--allow-backwards", "x"]));
    assert_eq!(app.suggestions(), &strings(&["--allow-backwards", "--revision", "x"]));
    let mut app = started();
    type_text(&mut app, "bookmark list ");
    assert!(!app.needs_bookmarks());
    type_text(&mut app, "--");
    assert!(!app.needs_bookmarks());
}

#[test]
fn any_character_can_be_typed_and_crossed() {
    let mut app = started();
    type_text(&mut app, "bookmark delete ");
    app.set_bookmarks(strings(&["café", "main"]));
    type_text(&mut app, "ca");
    assert_eq!(app.suggestions(), &strings(&["café"]));
    app.handle_key(Key::Tab);
    assert_eq!(app.input(), "bookmark delete café ");
    assert_eq!(app.cursor(), 21);
    app.handle_key(Key::Left);
    app.handle_key(Key::Left);
    assert_eq!(app.before_cursor(), "bookmark delete caf");
    assert_eq!(app.after_cursor(), "é ");
    app.handle_key(Key::Right);
    assert_eq!(app.before_cursor(), "bookmark delete café");
    app.handle_key(Key::Backspace);
    assert_eq!(app.input(), "bookmark delete caf ");
    type_text(&mut app, "ü");
    assert_eq!(app.input(), "bookmark delete cafü ");
    assert_eq!(app.cursor(), 20);
    let mut app = started();
    type_text(&mut app, "日本");
    assert_eq!(app.input(), "日本");
    assert!(app.suggestions().is_empty());
    app.handle_key(Key::Left);
    app.handle_key(Key::Delete);
    assert_eq!(app.input(), "日");
}

#[test]
fn bookmark_names_are_asked_for_once() {
    let mut app = started();
    type_text(&mut app, "bookmark set ");
    assert!(app.needs_bookmarks());
    app.set_bookmarks(strings(&["main"]));
    for key in [Key::Backspace, Key::Left, Key::Right, Key::Tab, Key::Up, Key::Down].iter() {
        app.handle_key(*key);
        assert!(!app.needs_bookmarks());
        assert_eq!(app.bookmarks(), strings(&["main"]));
    }
    type_text(&mut app, "bookmark delete ");
    assert!(!app.needs_bookmarks());
    assert_eq!(app.bookmarks(), strings(&["main"]));
}
