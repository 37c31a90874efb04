//! The state of the command prompt: the text typed so far, the cursor, the
//! completions offered for it, and what each key does to them.

use vstd::prelude::*;
use crate::commands::{
    CommandTree, build_tree, jj_commands, expects_bookmark_arg, takes_bookmark_names,
    lemma_completions_extend_last,
};
use crate::text::{
    has_prefix, sort_strs, sort_strings, starts_with, words, words_of, string_of, chars_of, trimmed,
    trim,
};

verus! {

/// How many suggestions are shown at a time.
pub const MAX_SUGGESTIONS: usize = 5;

// ---------------------------------------------------------------------------
// The model
// ---------------------------------------------------------------------------

/// What the prompt holds: the text, the cursor (a position between
/// characters), the suggestions with the one selected, and the bookmark
/// names once they are known.
pub struct AppView {
    pub input: Seq<char>,
    pub cursor: int,
    pub suggestions: Seq<Seq<char>>,
    pub selected: int,
    pub bookmarks: Option<Seq<Seq<char>>>,
}

/// The words typed before the cursor, the last of which is being typed: an
/// empty last word when nothing is typed, when the text ends in a space, or
/// when it holds only whitespace.
pub open spec fn tokens_of(typed: Seq<char>) -> Seq<Seq<char>> {
    if typed.len() == 0 {
        seq![Seq::empty()]
    } else {
        let w = words(typed);
        let w2 = if typed.last() == ' ' { w.push(Seq::empty()) } else { w };
        if w2.len() == 0 {
            seq![Seq::empty()]
        } else {
            w2
        }
    }
}

/// `comps` with each name of `names` that starts with `prefix` added at the
/// end, in order, unless it is there already.
pub open spec fn with_bookmarks(comps: Seq<Seq<char>>, names: Seq<Seq<char>>, prefix: Seq<char>) -> Seq<Seq<char>>
    decreases names.len(),
{
    if names.len() == 0 {
        comps
    } else {
        let acc = with_bookmarks(comps, names.drop_last(), prefix);
        let b = names.last();
        if has_prefix(b, prefix) && !acc.contains(b) {
            acc.push(b)
        } else {
            acc
        }
    }
}

/// The suggestions for the words `tokens`: the completions of the `jj`
/// command tree, and where the command takes bookmark names, the known
/// bookmark names that start with the last word; all sorted.
pub open spec fn suggestions_for(tokens: Seq<Seq<char>>, bookmarks: Option<Seq<Seq<char>>>) -> Seq<Seq<char>> {
    let comps = jj_commands().completions(tokens);
    let all = match bookmarks {
        Some(names) => if takes_bookmark_names(tokens) {
            with_bookmarks(comps, names, tokens.last())
        } else {
            comps
        },
        None => comps,
    };
    sort_strs(all)
}

impl AppView {
    /// The text before the cursor.
    pub open spec fn typed(self) -> Seq<char> {
        self.input.take(self.cursor)
    }

    /// The words before the cursor.
    pub open spec fn tokens(self) -> Seq<Seq<char>> {
        tokens_of(self.typed())
    }

    /// The word being typed.
    pub open spec fn current_word(self) -> Seq<char> {
        self.tokens().last()
    }

    /// This state with its suggestions computed afresh and the first one
    /// selected.
    pub open spec fn refreshed(self) -> AppView {
        AppView { suggestions: suggestions_for(self.tokens(), self.bookmarks), selected: 0, ..self }
    }

    /// After typing `c` at the cursor.
    pub open spec fn inserted(self, c: char) -> AppView {
        AppView { input: self.input.insert(self.cursor, c), cursor: self.cursor + 1, ..self }.refreshed()
    }

    /// After Backspace: the character before the cursor is gone.
    pub open spec fn backspaced(self) -> AppView {
        if self.cursor > 0 {
            AppView { input: self.input.remove(self.cursor - 1), cursor: self.cursor - 1, ..self }.refreshed()
        } else {
            self
        }
    }

    /// After Delete: the character after the cursor is gone.
    pub open spec fn deleted(self) -> AppView {
        if self.cursor < self.input.len() {
            AppView { input: self.input.remove(self.cursor), ..self }.refreshed()
        } else {
            self
        }
    }

    /// After the left arrow.
    pub open spec fn moved_left(self) -> AppView {
        AppView { cursor: if self.cursor > 0 { self.cursor - 1 } else { 0 }, ..self }.refreshed()
    }

    /// After the right arrow.
    pub open spec fn moved_right(self) -> AppView {
        AppView { cursor: if self.cursor < self.input.len() { self.cursor + 1 } else { self.cursor }, ..self }.refreshed()
    }

    /// After Tab: the rest of the selected suggestion and a space are
    /// inserted at the cursor, and the cursor moves after them.
    pub open spec fn accepted(self) -> AppView {
        if 0 <= self.selected < self.suggestions.len() {
            let rest = self.suggestions[self.selected].skip(self.current_word().len() as int);
            let added = rest.push(' ');
            AppView {
                input: self.input.take(self.cursor) + added + self.input.skip(self.cursor),
                cursor: self.cursor + added.len(),
                ..self
            }.refreshed()
        } else {
            self
        }
    }

    /// After the up arrow: the previous suggestion, from the first to the last.
    pub open spec fn selected_up(self) -> AppView {
        if self.suggestions.len() == 0 {
            self
        } else if self.selected == 0 {
            AppView { selected: self.suggestions.len() - 1, ..self }
        } else {
            AppView { selected: self.selected - 1, ..self }
        }
    }

    /// After the down arrow: the next suggestion, from the last to the first.
    pub open spec fn selected_down(self) -> AppView {
        if self.suggestions.len() == 0 {
            self
        } else {
            AppView { selected: (self.selected + 1) % (self.suggestions.len() as int), ..self }
        }
    }

    /// The completion shown greyed after the cursor: the rest of the
    /// selected suggestion, when the cursor is at the end of the text, a
    /// word is being typed and the suggestion starts with it.
    pub open spec fn ghost_suffix(self) -> Seq<char> {
        if self.cursor < self.input.len() {
            Seq::empty()
        } else if 0 <= self.selected < self.suggestions.len() {
            let s = self.suggestions[self.selected];
            let w = self.current_word();
            if has_prefix(s, w) && w.len() > 0 {
                s.skip(w.len() as int)
            } else {
                Seq::empty()
            }
        } else {
            Seq::empty()
        }
    }

    /// Where the list of shown suggestions starts: two before the selected one.
    pub open spec fn window_start(self) -> int {
        if self.selected >= 2 { self.selected - 2 } else { 0 }
    }

    /// Where the list of shown suggestions ends: at most five after its start.
    pub open spec fn window_end(self) -> int {
        if self.window_start() + 5 <= self.suggestions.len() {
            self.window_start() + 5
        } else {
            self.suggestions.len() as int
        }
    }
}

// ---------------------------------------------------------------------------
// Keys and what they lead to
// ---------------------------------------------------------------------------

/// A key press, as far as the prompt tells keys apart.
#[derive(Clone, Copy, Debug, PartialEq, Eq)]
pub enum Key {
    Esc,
    Enter,
    Tab,
    Up,
    Down,
    Left,
    Right,
    Backspace,
    Delete,
    /// A character key; `ctrl_only` is set when Control, and no other
    /// modifier, is held.
    Char { c: char, ctrl_only: bool },
    Other,
}

/// What to do after a key.
#[derive(Debug, PartialEq, Eq)]
pub enum Action {
    /// Keep reading keys.
    Continue,
    /// Leave without running anything.
    Dismiss,
    /// Leave and run `jj` with these arguments.
    Execute(String),
}

/// The key leaves the prompt without running anything: Escape or Ctrl-C.
pub open spec fn is_dismiss(key: Key) -> bool {
    key == Key::Esc || key == (Key::Char { c: 'c', ctrl_only: true })
}

/// The state after `key`.
pub open spec fn after_key(v: AppView, key: Key) -> AppView {
    if is_dismiss(key) {
        v
    } else {
        match key {
            Key::Tab => v.accepted(),
            Key::Up => v.selected_up(),
            Key::Down => v.selected_down(),
            Key::Left => v.moved_left(),
            Key::Right => v.moved_right(),
            Key::Backspace => v.backspaced(),
            Key::Delete => v.deleted(),
            Key::Char { c, ctrl_only } => v.inserted(c),
            _ => v,
        }
    }
}

// ---------------------------------------------------------------------------
// The prompt
// ---------------------------------------------------------------------------

/// The prompt: its text, cursor and suggestions, the command tree it
/// completes from, and the bookmark names once they are known.
pub struct App {
    input: Vec<char>,
    cursor: usize,
    suggestions: Vec<String>,
    selected_suggestion: usize,
    tree: CommandTree,
    bookmark_cache: Option<Vec<String>>,
}

/// The views of the bookmark names, if they are known.
pub open spec fn cache_view(c: Option<Vec<String>>) -> Option<Seq<Seq<char>>> {
    match c {
        Some(v) => Some(v.deep_view()),
        None => None,
    }
}

impl View for App {
    type V = AppView;

    closed spec fn view(&self) -> AppView {
        AppView {
            input: self.input@,
            cursor: self.cursor as int,
            suggestions: self.suggestions.deep_view(),
            selected: self.selected_suggestion as int,
            bookmarks: cache_view(self.bookmark_cache),
        }
    }
}

/// What holds of every state of the prompt: the cursor is within the text,
/// the selection is on a suggestion (or on the first place when there are
/// none), and every suggestion starts with the word being typed.
pub open spec fn prompt_inv(v: AppView) -> bool {
    &&& 0 <= v.cursor <= v.input.len()
    &&& (v.selected == 0 || 0 <= v.selected < v.suggestions.len())
    &&& forall|i: int| 0 <= i < v.suggestions.len() ==> has_prefix(#[trigger] v.suggestions[i], v.current_word())
}

impl App {
    /// The prompt is well formed: `prompt_inv` holds and it completes from
    /// the `jj` command tree.
    pub closed spec fn wf(&self) -> bool {
        &&& prompt_inv(self@)
        &&& self.tree@ == jj_commands()
    }

    /// A well-formed prompt satisfies `prompt_inv`, and its suggestions
    /// can be computed afresh.
    pub proof fn lemma_wf(&self)
        requires
            self.wf(),
        ensures
            prompt_inv(self@),
            self.settled(),
    {
    }

    /// An empty prompt with no suggestions yet and no bookmark names.
    pub fn new() -> (app: App)
        ensures
            app.wf(),
            app.settled(),
            app@ == (AppView {
                input: Seq::empty(),
                cursor: 0,
                suggestions: Seq::empty(),
                selected: 0,
                bookmarks: None,
            }),
    {
        let app = App {
            input: Vec::new(),
            cursor: 0,
            suggestions: Vec::new(),
            selected_suggestion: 0,
            tree: build_tree(),
            bookmark_cache: None,
        };
        assert(app@.suggestions =~= Seq::<Seq<char>>::empty());
        app
    }

    /// The cursor is within the text and the tree is the `jj` command tree;
    /// the suggestions may be out of date.
    pub closed spec fn settled(&self) -> bool {
        &&& 0 <= self.cursor <= self.input@.len()
        &&& self.tree@ == jj_commands()
    }

    /// Computes the suggestions for the words before the cursor afresh and
    /// selects the first.
    pub fn update_suggestions(&mut self)
        requires
            old(self).settled(),
        ensures
            final(self).wf(),
            final(self)@ == old(self)@.refreshed(),
    {
        let tokens = self.tokenize();
        let n = tokens.len();
        let refs = str_refs(&tokens);
        let toks: &[&str] = refs.as_slice();
        assert(toks.deep_view() =~= refs.deep_view());
        let ghost tv = toks.deep_view();
        let mut completions = self.tree.completions(toks);
        let ghost comps = completions.deep_view();
        proof {
            lemma_tokens_nonempty(self@.typed());
            lemma_completions_extend_last(jj_commands(), tv);
        }
        if expects_bookmark_arg(toks) {
            match &self.bookmark_cache {
                Some(names) => {
                    let prefix: &str = toks[n - 1];
                    assert(prefix@ == tv.last());
                    let m = names.len();
                    let mut j: usize = 0;
                    assert(names.deep_view().take(0) =~= Seq::<Seq<char>>::empty());
                    while j < m
                        invariant
                            m == names@.len(),
                            j <= m,
                            completions.deep_view() == with_bookmarks(comps, names.deep_view().take(j as int), prefix@),
                        decreases m - j,
                    {
                        let ghost before = completions.deep_view();
                        let b: &String = &names[j];
                        proof {
                            let t = names.deep_view().take(j + 1);
                            assert(t.drop_last() =~= names.deep_view().take(j as int));
                            assert(t.last() == b@);
                        }
                        if starts_with(b.as_str(), prefix) && !contains_string(&completions, b) {
                            completions.push(b.clone());
                            assert(completions.deep_view() =~= before.push(b@));
                        }
                        j = j + 1;
                    }
                    assert(names.deep_view().take(m as int) =~= names.deep_view());
                },
                None => {},
            }
        }
        let sorted = sort_strings(&completions);
        proof {
            let all = completions.deep_view();
            let w = self@.current_word();
            assert(w == tv.last());
            lemma_with_bookmarks_prefix(comps, match self@.bookmarks { Some(b) => b, None => Seq::empty() }, w);
            assert forall|x: Seq<char>| all.contains(x) implies has_prefix(x, w) by {
                if comps.contains(x) {
                    let k = choose|k: int| 0 <= k < comps.len() && comps[k] == x;
                    assert(has_prefix(comps[k], w));
                }
            }
            crate::text::lemma_sort_strs(all);
            lemma_sorted_members(all);
        }
        self.suggestions = sorted;
        self.selected_suggestion = 0;
    }

    /// The words before the cursor (see `tokens_of`).
    fn tokenize(&self) -> (r: Vec<String>)
        requires
            self.settled(),
        ensures
            r.deep_view() == self@.tokens(),
            r@.len() >= 1,
    {
        if self.cursor == 0 {
            let r = vec![String::new()];
            assert(self@.typed() =~= Seq::<char>::empty());
            assert(r.deep_view() =~= seq![Seq::<char>::empty()]);
            return r;
        }
        let mut tokens = words_of(&self.input, self.cursor);
        let ghost w = tokens.deep_view();
        if self.input[self.cursor - 1] == ' ' {
            tokens.push(String::new());
            assert(tokens.deep_view() =~= w.push(Seq::<char>::empty()));
        }
        if tokens.len() == 0 {
            tokens.push(String::new());
            assert(tokens.deep_view() =~= seq![Seq::<char>::empty()]);
        }
        proof {
            let t = self@.typed();
            assert(t.len() > 0);
            assert(t.last() == self.input@[self.cursor - 1]);
        }
        tokens
    }

    /// The known bookmark names, none if they are not known yet.
    pub fn bookmarks(&self) -> (r: Vec<String>)
        ensures
            r.deep_view() == match self@.bookmarks {
                Some(b) => b,
                None => Seq::empty(),
            },
    {
        match &self.bookmark_cache {
            Some(names) => {
                let r = names.clone();
                proof { vstd::std_specs::vec::vec_clone_deep_view_proof(*names, r); }
                r
            },
            None => {
                let r: Vec<String> = Vec::new();
                assert(r.deep_view() =~= Seq::<Seq<char>>::empty());
                r
            },
        }
    }

    /// Whether the bookmark names are wanted and not known yet: the command
    /// typed takes bookmark names (see `takes_bookmark_names`).
    pub fn needs_bookmarks(&self) -> (b: bool)
        requires
            self.wf(),
        ensures
            b == wants_bookmarks(self@),
    {
        if self.bookmark_cache.is_some() {
            return false;
        }
        let tokens = self.tokenize();
        let n = tokens.len();
        let refs = str_refs(&tokens);
        let toks: &[&str] = refs.as_slice();
        assert(toks.deep_view() =~= refs.deep_view());
        expects_bookmark_arg(toks)
    }

    /// Records the bookmark names and computes the suggestions afresh.
    pub fn set_bookmarks(&mut self, names: Vec<String>)
        requires
            old(self).wf(),
        ensures
            final(self).wf(),
            final(self)@ == (AppView { bookmarks: Some(names.deep_view()), ..old(self)@ }).refreshed(),
    {
        self.bookmark_cache = Some(names);
        self.update_suggestions();
    }

    /// Types `c` at the cursor.
    pub fn insert_char(&mut self, c: char)
        requires
            old(self).wf(),
        ensures
            final(self).wf(),
            final(self)@ == old(self)@.inserted(c),
    {
        self.input.insert(self.cursor, c);
        let len = self.input.len();
        assert(self.cursor < len);
        self.cursor = self.cursor + 1;
        self.update_suggestions();
    }

    /// Deletes the character before the cursor, if there is one.
    pub fn backspace(&mut self)
        requires
            old(self).wf(),
        ensures
            final(self).wf(),
            final(self)@ == old(self)@.backspaced(),
    {
        if self.cursor > 0 {
            self.cursor = self.cursor - 1;
            self.input.remove(self.cursor);
            self.update_suggestions();
        }
    }

    /// Deletes the character after the cursor, if there is one.
    pub fn delete(&mut self)
        requires
            old(self).wf(),
        ensures
            final(self).wf(),
            final(self)@ == old(self)@.deleted(),
    {
        if self.cursor < self.input.len() {
            self.input.remove(self.cursor);
            self.update_suggestions();
        }
    }

    /// Moves the cursor one character to the left, if it can.
    pub fn move_left(&mut self)
        requires
            old(self).wf(),
        ensures
            final(self).wf(),
            final(self)@ == old(self)@.moved_left(),
    {
        if self.cursor > 0 {
            self.cursor = self.cursor - 1;
        }
        self.update_suggestions();
    }

    /// Moves the cursor one character to the right, if it can.
    pub fn move_right(&mut self)
        requires
            old(self).wf(),
        ensures
            final(self).wf(),
            final(self)@ == old(self)@.moved_right(),
    {
        if self.cursor < self.input.len() {
            self.cursor = self.cursor + 1;
        }
        self.update_suggestions();
    }

    /// Completes the word being typed with the selected suggestion and a
    /// space.
    pub fn accept_suggestion(&mut self)
        requires
            old(self).wf(),
        ensures
            final(self).wf(),
            final(self)@ == old(self)@.accepted(),
    {
        if self.selected_suggestion < self.suggestions.len() {
            let ghost v0 = self@;
            let suggestion = self.suggestions[self.selected_suggestion].clone();
            let tokens = self.tokenize();
            let word_len = tokens[tokens.len() - 1].unicode_len();
            let sc = chars_of(suggestion.as_str());
            proof {
                assert(suggestion@ == v0.suggestions[v0.selected]);
                assert(tokens.deep_view()[tokens@.len() - 1] == v0.current_word());
                assert(has_prefix(v0.suggestions[v0.selected], v0.current_word()));
            }
            let n = sc.len();
            let c0 = self.cursor;
            let mut k: usize = word_len;
            assert(sc@.subrange(word_len as int, word_len as int) =~= Seq::<char>::empty());
            assert(v0.input =~= v0.input.take(c0 as int) + Seq::<char>::empty() + v0.input.skip(c0 as int));
            while k < n
                invariant
                    n == sc@.len(),
                    word_len <= k <= n,
                    self.cursor == c0 + (k - word_len),
                    self.input@ == v0.input.take(c0 as int) + sc@.subrange(word_len as int, k as int) + v0.input.skip(c0 as int),
                    c0 <= v0.input.len(),
                    self.tree@ == jj_commands(),
                    self.suggestions == old(self).suggestions,
                    self.selected_suggestion == old(self).selected_suggestion,
                    self.bookmark_cache == old(self).bookmark_cache,
                decreases n - k,
            {
                self.input.insert(self.cursor, sc[k]);
                let len = self.input.len();
                assert(self.cursor < len);
                self.cursor = self.cursor + 1;
                k = k + 1;
                assert(self.input@ =~= v0.input.take(c0 as int) + sc@.subrange(word_len as int, k as int) + v0.input.skip(c0 as int));
            }
            self.input.insert(self.cursor, ' ');
            let len = self.input.len();
            assert(self.cursor < len);
            self.cursor = self.cursor + 1;
            proof {
                let rest = sc@.skip(word_len as int);
                assert(rest =~= sc@.subrange(word_len as int, n as int));
                assert(self.input@ =~= v0.input.take(c0 as int) + rest.push(' ') + v0.input.skip(c0 as int));
            }
            self.update_suggestions();
        }
    }

    /// Handles one key: Escape and Ctrl-C dismiss the prompt, Enter runs
    /// the text typed (without the whitespace at its ends), Tab accepts the
    /// selected suggestion, the up and down arrows change the selection,
    /// the left and right arrows move the cursor, Backspace and Delete
    /// delete, and a character key types its character.
    pub fn handle_key(&mut self, key: Key) -> (a: Action)
        requires
            old(self).wf(),
        ensures
            final(self).wf(),
            final(self)@ == after_key(old(self)@, key),
            is_dismiss(key) ==> a == Action::Dismiss,
            !is_dismiss(key) && key == Key::Enter ==> (a matches Action::Execute(s) && s@ == trimmed(
                old(self)@.input,
            )),
            !is_dismiss(key) && key != Key::Enter ==> a == Action::Continue,
    {
        match key {
            Key::Esc => Action::Dismiss,
            Key::Enter => {
                let text = string_of(&self.input, 0, self.input.len());
                assert(self.input@.subrange(0, self.input@.len() as int) =~= self.input@);
                Action::Execute(trim(text.as_str()))
            },
            Key::Tab => {
                self.accept_suggestion();
                Action::Continue
            },
            Key::Up => {
                let n = self.suggestions.len();
                if n > 0 {
                    self.selected_suggestion = if self.selected_suggestion == 0 {
                        n - 1
                    } else {
                        self.selected_suggestion - 1
                    };
                }
                Action::Continue
            },
            Key::Down => {
                let n = self.suggestions.len();
                if n > 0 {
                    self.selected_suggestion = (self.selected_suggestion + 1) % n;
                }
                Action::Continue
            },
            Key::Left => {
                self.move_left();
                Action::Continue
            },
            Key::Right => {
                self.move_right();
                Action::Continue
            },
            Key::Backspace => {
                self.backspace();
                Action::Continue
            },
            Key::Delete => {
                self.delete();
                Action::Continue
            },
            Key::Char { c, ctrl_only } => {
                if c == 'c' && ctrl_only {
                    Action::Dismiss
                } else {
                    self.insert_char(c);
                    Action::Continue
                }
            },
            Key::Other => Action::Continue,
        }
    }

    /// The text of the prompt.
    pub fn input(&self) -> (s: String)
        ensures
            s@ == self@.input,
    {
        let s = string_of(&self.input, 0, self.input.len());
        assert(self.input@.subrange(0, self.input@.len() as int) =~= self.input@);
        s
    }

    /// The text before the cursor.
    pub fn before_cursor(&self) -> (s: String)
        requires
            self.wf(),
        ensures
            s@ == self@.input.take(self@.cursor),
    {
        let s = string_of(&self.input, 0, self.cursor);
        assert(self.input@.subrange(0, self.cursor as int) =~= self.input@.take(self.cursor as int));
        s
    }

    /// The text after the cursor.
    pub fn after_cursor(&self) -> (s: String)
        requires
            self.wf(),
        ensures
            s@ == self@.input.skip(self@.cursor),
    {
        let s = string_of(&self.input, self.cursor, self.input.len());
        assert(self.input@.subrange(self.cursor as int, self.input@.len() as int) =~= self.input@.skip(self.cursor as int));
        s
    }

    /// The position of the cursor, in characters.
    pub fn cursor(&self) -> (c: usize)
        ensures
            c == self@.cursor,
    {
        self.cursor
    }

    /// The suggestions.
    pub fn suggestions(&self) -> (r: &Vec<String>)
        ensures
            r.deep_view() == self@.suggestions,
    {
        &self.suggestions
    }

    /// The position of the selected suggestion.
    pub fn selected_suggestion(&self) -> (i: usize)
        ensures
            i == self@.selected,
    {
        self.selected_suggestion
    }

    /// How many rows the suggestions take: as many as there are, at most
    /// five.
    pub fn suggestion_rows(&self) -> (n: usize)
        ensures
            n == if self@.suggestions.len() < MAX_SUGGESTIONS { self@.suggestions.len() as int } else { MAX_SUGGESTIONS as int },
    {
        if self.suggestions.len() < MAX_SUGGESTIONS {
            self.suggestions.len()
        } else {
            MAX_SUGGESTIONS
        }
    }

    /// The suggestions on show, each with whether it is the selected one:
    /// at most five, from two before the selected one.
    pub fn visible_suggestions(&self) -> (r: Vec<(bool, String)>)
        requires
            self.wf(),
        ensures
            r@.len() == self@.window_end() - self@.window_start(),
            forall|k: int|
                0 <= k < r@.len() ==> (#[trigger] r@[k]).0 == (self@.window_start() + k == self@.selected)
                    && r@[k].1@ == self@.suggestions[self@.window_start() + k],
    {
        let n = self.suggestions.len();
        let start: usize = if self.selected_suggestion >= 2 { self.selected_suggestion - 2 } else { 0 };
        let end: usize = if start <= n && n - start >= MAX_SUGGESTIONS { start + MAX_SUGGESTIONS } else { n };
        let mut out: Vec<(bool, String)> = Vec::new();
        let mut i: usize = start;
        while i < end
            invariant
                n == self.suggestions@.len(),
                self.wf(),
                start == self@.window_start(),
                end == self@.window_end(),
                start <= i <= end || (end < start && i == start),
                out@.len() == if i >= start { i - start } else { 0 },
                forall|k: int|
                    0 <= k < out@.len() ==> (#[trigger] out@[k]).0 == (start + k == self@.selected)
                        && out@[k].1@ == self@.suggestions[start + k],
            decreases end - i,
        {
            out.push((i == self.selected_suggestion, self.suggestions[i].clone()));
            i = i + 1;
        }
        out
    }

    /// The rest of the selected suggestion, shown greyed after the cursor
    /// (see `ghost_suffix`).
    pub fn ghost_text(&self) -> (s: String)
        requires
            self.wf(),
        ensures
            s@ == self@.ghost_suffix(),
    {
        if self.cursor < self.input.len() {
            return String::new();
        }
        if self.selected_suggestion >= self.suggestions.len() {
            return String::new();
        }
        let suggestion = &self.suggestions[self.selected_suggestion];
        let tokens = self.tokenize();
        let word = &tokens[tokens.len() - 1];
        assert(tokens.deep_view()[tokens@.len() - 1] == self@.current_word());
        let wl = word.unicode_len();
        if wl > 0 && starts_with(suggestion.as_str(), word.as_str()) {
            let sc = chars_of(suggestion.as_str());
            let r = string_of(&sc, wl, sc.len());
            assert(sc@.subrange(wl as int, sc@.len() as int) =~= sc@.skip(wl as int));
            r
        } else {
            String::new()
        }
    }
}

/// There is always a word being typed, if an empty one.
pub proof fn lemma_tokens_nonempty(typed: Seq<char>)
    ensures
        tokens_of(typed).len() >= 1,
{
}

/// Each name that `with_bookmarks` adds starts with the prefix.
proof fn lemma_with_bookmarks_prefix(comps: Seq<Seq<char>>, names: Seq<Seq<char>>, prefix: Seq<char>)
    ensures
        forall|x: Seq<char>|
            #[trigger] with_bookmarks(comps, names, prefix).contains(x) ==> comps.contains(x) || has_prefix(x, prefix),
    decreases names.len(),
{
    if names.len() > 0 {
        lemma_with_bookmarks_prefix(comps, names.drop_last(), prefix);
        let acc = with_bookmarks(comps, names.drop_last(), prefix);
        let b = names.last();
        if has_prefix(b, prefix) && !acc.contains(b) {
            assert forall|x: Seq<char>| #[trigger] acc.push(b).contains(x) implies acc.contains(x) || x == b by {
                let k = choose|k: int| 0 <= k < acc.push(b).len() && acc.push(b)[k] == x;
                if k < acc.len() {
                    assert(acc[k] == x);
                }
            }
        }
    }
}

/// The sorted strings are the same strings.
proof fn lemma_sorted_members(s: Seq<Seq<char>>)
    ensures
        forall|i: int| 0 <= i < sort_strs(s).len() ==> s.contains(#[trigger] sort_strs(s)[i]),
{
    broadcast use vstd::seq_lib::group_to_multiset_ensures;
    crate::text::lemma_sort_strs(s);
    assert forall|i: int| 0 <= i < sort_strs(s).len() implies s.contains(#[trigger] sort_strs(s)[i]) by {
        let x = sort_strs(s)[i];
        assert(sort_strs(s).to_multiset().count(x) > 0);
        assert(s.to_multiset().count(x) > 0);
    }
}

/// The strings of `v`, borrowed.
fn str_refs<'a>(v: &'a Vec<String>) -> (r: Vec<&'a str>)
    ensures
        r.deep_view() == v.deep_view(),
{
    let n = v.len();
    let mut refs: Vec<&str> = Vec::new();
    let mut i: usize = 0;
    while i < n
        invariant
            n == v@.len(),
            i <= n,
            refs.deep_view() == v.deep_view().take(i as int),
        decreases n - i,
    {
        let ghost prev = refs.deep_view();
        let r: &str = v[i].as_str();
        refs.push(r);
        assert(refs.deep_view() =~= prev.push(r@));
        i = i + 1;
        assert(refs.deep_view() =~= v.deep_view().take(i as int));
    }
    assert(v.deep_view().take(n as int) =~= v.deep_view());
    refs
}

/// Whether `v` holds a string equal to `x`.
fn contains_string(v: &Vec<String>, x: &String) -> (b: bool)
    ensures
        b == v.deep_view().contains(x@),
{
    let n = v.len();
    let mut i: usize = 0;
    while i < n
        invariant
            n == v@.len(),
            i <= n,
            forall|k: int| 0 <= k < i ==> #[trigger] v.deep_view()[k] != x@,
        decreases n - i,
    {
        if v[i] == *x {
            assert(v.deep_view()[i as int] == x@);
            return true;
        }
        i = i + 1;
    }
    false
}

// ---------------------------------------------------------------------------
// What the keys promise
// ---------------------------------------------------------------------------

/// Typing a character and then deleting it with Backspace gives back the
/// text and the cursor, with the suggestions computed for them.
pub proof fn lemma_backspace_undoes_insert(v: AppView, c: char)
    requires
        prompt_inv(v),
    ensures
        v.inserted(c).backspaced() == v.refreshed(),
{
    let w = v.inserted(c);
    assert(w.input.remove(v.cursor) =~= v.input);
}

/// No key changes the bookmark names, known or not.
pub proof fn lemma_keys_keep_bookmarks(v: AppView, key: Key)
    ensures
        after_key(v, key).bookmarks == v.bookmarks,
{
}

/// The state after the keys `keys`, one after the other.
pub open spec fn after_keys(v: AppView, keys: Seq<Key>) -> AppView
    decreases keys.len(),
{
    if keys.len() == 0 {
        v
    } else {
        after_keys(after_key(v, keys[0]), keys.drop_first())
    }
}

/// The prompt wants the bookmark names (what `needs_bookmarks` tells).
pub open spec fn wants_bookmarks(v: AppView) -> bool {
    v.bookmarks is None && takes_bookmark_names(v.tokens())
}

/// Once the bookmark names are recorded (`set_bookmarks`), no sequence of
/// keys changes them and the prompt never wants them again: `jj` is asked
/// for them at most once, and `bookmarks` gives the recorded names from
/// then on.
pub proof fn lemma_bookmarks_asked_once(v: AppView, keys: Seq<Key>)
    requires
        v.bookmarks is Some,
    ensures
        after_keys(v, keys).bookmarks == v.bookmarks,
        !wants_bookmarks(after_keys(v, keys)),
    decreases keys.len(),
{
    if keys.len() > 0 {
        lemma_keys_keep_bookmarks(v, keys[0]);
        lemma_bookmarks_asked_once(after_key(v, keys[0]), keys.drop_first());
    }
}

/// Moving left and then right returns the cursor where it was, when it is
/// not at the start.
pub proof fn lemma_left_then_right(v: AppView)
    requires
        prompt_inv(v),
        v.cursor > 0,
    ensures
        v.moved_left().moved_right() == v.refreshed(),
{
}

/// Moving the selection up and then down returns it where it was.
pub proof fn lemma_up_then_down(v: AppView)
    requires
        prompt_inv(v),
    ensures
        v.selected_up().selected_down() == v,
{
    if v.suggestions.len() > 0 {
        let n = v.suggestions.len() as int;
        if v.selected == 0 {
            assert((n - 1 + 1) % n == 0) by (nonlinear_arith)
                requires
                    n > 0,
            ;
        } else {
            assert((v.selected - 1 + 1) % n == v.selected) by (nonlinear_arith)
                requires
                    0 < v.selected < n,
            ;
        }
    }
}

/// The suggestions are always in ascending lexicographic order.
pub proof fn lemma_suggestions_sorted(tokens: Seq<Seq<char>>, bookmarks: Option<Seq<Seq<char>>>)
    ensures
        crate::text::sorted(suggestions_for(tokens, bookmarks)),
{
    let comps = jj_commands().completions(tokens);
    let all = match bookmarks {
        Some(names) => if takes_bookmark_names(tokens) {
            with_bookmarks(comps, names, tokens.last())
        } else {
            comps
        },
        None => comps,
    };
    crate::text::lemma_sort_strs(all);
}

/// Accepting the selected suggestion puts the part of it not yet typed and
/// a space before the cursor and keeps the text after the cursor: the text
/// before the cursor now ends with the whole suggestion and a space.
pub proof fn lemma_accept_completes_word(v: AppView)
    requires
        prompt_inv(v),
        0 <= v.selected < v.suggestions.len(),
    ensures
        v.accepted().typed() == v.typed() + v.suggestions[v.selected].skip(v.current_word().len() as int).push(' '),
        v.accepted().input.skip(v.accepted().cursor) == v.input.skip(v.cursor),
        v.current_word() + v.suggestions[v.selected].skip(v.current_word().len() as int) == v.suggestions[v.selected],
{
    let s = v.suggestions[v.selected];
    let w = v.current_word();
    assert(has_prefix(s, w));
    let added = s.skip(w.len() as int).push(' ');
    let a = v.accepted();
    assert(a.input == v.input.take(v.cursor) + added + v.input.skip(v.cursor));
    assert(a.typed() =~= v.typed() + added);
    assert(a.input.skip(a.cursor) =~= v.input.skip(v.cursor));
    assert(w + s.skip(w.len() as int) =~= s);
}

/// The greyed text after the cursor is what Tab completes: with the cursor
/// at the end of the text and a word being typed, that word followed by the
/// ghost text is the selected suggestion, and Tab adds the ghost text and a
/// space. With the cursor inside the text nothing is shown.
pub proof fn lemma_ghost_is_rest_of_selected(v: AppView)
    requires
        prompt_inv(v),
    ensures
        v.cursor < v.input.len() ==> v.ghost_suffix().len() == 0,
        v.current_word().len() == 0 ==> v.ghost_suffix().len() == 0,
        v.suggestions.len() == 0 ==> v.ghost_suffix().len() == 0,
        v.cursor == v.input.len() && v.suggestions.len() > 0 && v.current_word().len() > 0
            ==> 0 <= v.selected < v.suggestions.len(),
        v.cursor == v.input.len() && 0 <= v.selected < v.suggestions.len() && v.current_word().len() > 0
            ==> v.current_word() + v.ghost_suffix() == v.suggestions[v.selected]
            && v.accepted().typed() == v.typed() + v.ghost_suffix().push(' '),
{
    if v.cursor == v.input.len() && 0 <= v.selected < v.suggestions.len() && v.current_word().len() > 0 {
        lemma_accept_completes_word(v);
    }
}

/// Every edit of the text (typing a character, Tab on a suggestion, moving
/// the cursor) shows the suggestions for the new text, computed afresh,
/// with the first one selected; the bookmark names stay as they were.
pub proof fn lemma_edits_refresh(v: AppView, c: char)
    requires
        prompt_inv(v),
    ensures
        ({
            let a = v.inserted(c);
            a.selected == 0 && a.suggestions == suggestions_for(a.tokens(), v.bookmarks) && a.bookmarks == v.bookmarks
        }),
        0 <= v.selected < v.suggestions.len() ==> ({
            let a = v.accepted();
            a.selected == 0 && a.suggestions == suggestions_for(a.tokens(), v.bookmarks) && a.bookmarks == v.bookmarks
        }),
        ({
            let a = v.moved_left();
            a.selected == 0 && a.suggestions == suggestions_for(a.tokens(), v.bookmarks) && a.bookmarks == v.bookmarks
        }),
        ({
            let a = v.moved_right();
            a.selected == 0 && a.suggestions == suggestions_for(a.tokens(), v.bookmarks) && a.bookmarks == v.bookmarks
        }),
{
}

proof fn lemma_with_bookmarks_has(comps: Seq<Seq<char>>, names: Seq<Seq<char>>, prefix: Seq<char>, b: Seq<char>)
    requires
        names.contains(b),
        has_prefix(b, prefix),
    ensures
        with_bookmarks(comps, names, prefix).contains(b),
    decreases names.len(),
{
    let acc = with_bookmarks(comps, names.drop_last(), prefix);
    let r = with_bookmarks(comps, names, prefix);
    if names.last() == b {
        if !acc.contains(b) {
            assert(r[acc.len() as int] == b);
        }
    } else {
        let k = choose|k: int| 0 <= k < names.len() && names[k] == b;
        assert(k != names.len() - 1);
        assert(names.drop_last()[k] == b);
        lemma_with_bookmarks_has(comps, names.drop_last(), prefix, b);
        let j = choose|j: int| 0 <= j < acc.len() && acc[j] == b;
        assert(r[j] == b);
    }
}

/// Where the words take bookmark names and the names are known, every
/// known name that starts with the word being typed is suggested, however
/// many names were typed before it.
pub proof fn lemma_known_bookmarks_offered(tokens: Seq<Seq<char>>, names: Seq<Seq<char>>, b: Seq<char>)
    requires
        takes_bookmark_names(tokens),
        names.contains(b),
        has_prefix(b, tokens.last()),
    ensures
        suggestions_for(tokens, Some(names)).contains(b),
{
    broadcast use vstd::seq_lib::group_to_multiset_ensures;
    let all = with_bookmarks(jj_commands().completions(tokens), names, tokens.last());
    lemma_with_bookmarks_has(jj_commands().completions(tokens), names, tokens.last(), b);
    crate::text::lemma_sort_strs(all);
    assert(all.to_multiset().count(b) > 0);
    assert(sort_strs(all).to_multiset().count(b) > 0);
}

/// The bookmark subcommands that act on existing or new bookmarks take
/// bookmark names, for every word after the subcommand; more words never
/// stop a command from taking them.
pub proof fn lemma_bookmark_commands_take_names(tokens: Seq<Seq<char>>, more: Seq<Seq<char>>)
    ensures
        takes_bookmark_names(tokens) ==> takes_bookmark_names(tokens + more),
        takes_bookmark_names(seq!["bookmark"@, "advance"@] + more),
        takes_bookmark_names(seq!["bookmark"@, "create"@] + more),
        takes_bookmark_names(seq!["bookmark"@, "delete"@] + more),
        takes_bookmark_names(seq!["bookmark"@, "forget"@] + more),
        takes_bookmark_names(seq!["bookmark"@, "move"@] + more),
        takes_bookmark_names(seq!["bookmark"@, "rename"@] + more),
        takes_bookmark_names(seq!["bookmark"@, "set"@] + more),
        takes_bookmark_names(seq!["bookmark"@, "track"@] + more),
        takes_bookmark_names(seq!["bookmark"@, "untrack"@] + more),
        takes_bookmark_names(tokens) ==> tokens.len() >= 2 && tokens[0] == "bookmark"@ && (tokens[1] == "advance"@
            || tokens[1] == "create"@ || tokens[1] == "delete"@ || tokens[1] == "forget"@ || tokens[1] == "move"@
            || tokens[1] == "rename"@ || tokens[1] == "set"@ || tokens[1] == "track"@ || tokens[1] == "untrack"@),
{
    if takes_bookmark_names(tokens) {
        assert((tokens + more)[0] == tokens[0]);
        assert((tokens + more)[1] == tokens[1]);
    }
    assert((seq!["bookmark"@, "advance"@] + more)[0] == "bookmark"@);
    assert((seq!["bookmark"@, "advance"@] + more)[1] == "advance"@);
    assert((seq!["bookmark"@, "create"@] + more)[1] == "create"@);
    assert((seq!["bookmark"@, "delete"@] + more)[1] == "delete"@);
    assert((seq!["bookmark"@, "forget"@] + more)[1] == "forget"@);
    assert((seq!["bookmark"@, "move"@] + more)[1] == "move"@);
    assert((seq!["bookmark"@, "rename"@] + more)[1] == "rename"@);
    assert((seq!["bookmark"@, "set"@] + more)[1] == "set"@);
    assert((seq!["bookmark"@, "track"@] + more)[1] == "track"@);
    assert((seq!["bookmark"@, "untrack"@] + more)[1] == "untrack"@);
    assert((seq!["bookmark"@, "create"@] + more)[0] == "bookmark"@);
    assert((seq!["bookmark"@, "delete"@] + more)[0] == "bookmark"@);
    assert((seq!["bookmark"@, "forget"@] + more)[0] == "bookmark"@);
    assert((seq!["bookmark"@, "move"@] + more)[0] == "bookmark"@);
    assert((seq!["bookmark"@, "rename"@] + more)[0] == "bookmark"@);
    assert((seq!["bookmark"@, "set"@] + more)[0] == "bookmark"@);
    assert((seq!["bookmark"@, "track"@] + more)[0] == "bookmark"@);
    assert((seq!["bookmark"@, "untrack"@] + more)[0] == "bookmark"@);
}

proof fn lemma_with_bookmarks_members(comps: Seq<Seq<char>>, names: Seq<Seq<char>>, prefix: Seq<char>, x: Seq<char>)
    ensures
        with_bookmarks(comps, names, prefix).contains(x) <==> (comps.contains(x) || (names.contains(x) && has_prefix(x, prefix))),
    decreases names.len(),
{
    if names.len() > 0 {
        let acc = with_bookmarks(comps, names.drop_last(), prefix);
        let r = with_bookmarks(comps, names, prefix);
        let b = names.last();
        lemma_with_bookmarks_members(comps, names.drop_last(), prefix, x);
        assert(names =~= names.drop_last().push(b));
        if names.drop_last().contains(x) {
            let k = choose|k: int| 0 <= k < names.drop_last().len() && names.drop_last()[k] == x;
            assert(names[k] == x);
        }
        if names.contains(x) && x != b {
            let k = choose|k: int| 0 <= k < names.len() && names[k] == x;
            assert(k < names.len() - 1);
            assert(names.drop_last()[k] == x);
        }
        if names.contains(x) && x == b && has_prefix(x, prefix) {
            if !acc.contains(b) {
                assert(r[acc.len() as int] == b);
            }
        }
        if r.contains(x) && !acc.contains(x) {
            let k = choose|k: int| 0 <= k < r.len() && r[k] == x;
            if k < acc.len() {
                assert(acc[k] == x);
            }
            assert(x == b);
            assert(names[names.len() - 1] == x);
        }
        if acc.contains(x) {
            let k = choose|k: int| 0 <= k < acc.len() && acc[k] == x;
            assert(r[k] == x);
        }
    }
}

/// What is suggested for the words `tokens`: exactly the completions of
/// the `jj` command tree and, where the words take bookmark names and the
/// names are known, the known names that start with the word being typed.
pub proof fn lemma_suggestions_members(tokens: Seq<Seq<char>>, bookmarks: Option<Seq<Seq<char>>>, x: Seq<char>)
    ensures
        suggestions_for(tokens, bookmarks).contains(x) <==> (jj_commands().completions(tokens).contains(x) || (
            bookmarks is Some && takes_bookmark_names(tokens) && bookmarks->0.contains(x) && has_prefix(x, tokens.last()))),
{
    broadcast use vstd::seq_lib::group_to_multiset_ensures;
    let comps = jj_commands().completions(tokens);
    let all = match bookmarks {
        Some(names) => if takes_bookmark_names(tokens) {
            with_bookmarks(comps, names, tokens.last())
        } else {
            comps
        },
        None => comps,
    };
    if bookmarks is Some && takes_bookmark_names(tokens) {
        lemma_with_bookmarks_members(comps, bookmarks->0, tokens.last(), x);
    }
    crate::text::lemma_sort_strs(all);
    assert(all.contains(x) <==> all.to_multiset().count(x) > 0);
    assert(sort_strs(all).contains(x) <==> sort_strs(all).to_multiset().count(x) > 0);
}

} // verus!
