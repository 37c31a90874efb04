//! The static tree of `jj` subcommands and flags, and the completions that
//! it offers for the words typed so far.

use vstd::prelude::*;
use crate::text::{has_prefix, lex_le, sort_strs, sorted, lemma_sort_strs, sort_strings, starts_with, str_eq, owned};

verus! {

/// What a node of the command tree holds: its subcommands, each under its
/// name, and the flags that it accepts.
pub struct CmdSpec {
    pub children: Seq<(Seq<char>, CmdSpec)>,
    pub flags: Seq<Seq<char>>,
}

/// A node with the given flags and no subcommands.
pub open spec fn leaf(flags: Seq<Seq<char>>) -> CmdSpec {
    CmdSpec { children: Seq::empty(), flags }
}

/// The test for strings that start with `p`.
pub open spec fn starts_with_pred(p: Seq<char>) -> spec_fn(Seq<char>) -> bool {
    |o: Seq<char>| has_prefix(o, p)
}

/// The views of a list of string slices.
pub open spec fn strs_view(s: Seq<&str>) -> Seq<Seq<char>> {
    s.map_values(|x: &str| x@)
}

impl CmdSpec {
    /// The names of the subcommands, in the order they were added.
    pub open spec fn names(self) -> Seq<Seq<char>> {
        self.children.map_values(|p: (Seq<char>, CmdSpec)| p.0)
    }

    /// Everything that may follow at this node: subcommand names and flags.
    pub open spec fn options(self) -> Seq<Seq<char>> {
        self.names() + self.flags
    }

    /// There is a subcommand called `name`.
    pub open spec fn has_child(self, name: Seq<char>) -> bool {
        exists|i: int| 0 <= i < self.children.len() && #[trigger] self.children[i].0 == name
    }

    /// The position of the (first) subcommand called `name`.
    pub open spec fn child_index(self, name: Seq<char>) -> int {
        choose|i: int|
            0 <= i < self.children.len() && self.children[i].0 == name && forall|k: int|
                0 <= k < i ==> #[trigger] self.children[k].0 != name
    }

    /// The subcommand called `name`.
    pub open spec fn child(self, name: Seq<char>) -> CmdSpec {
        self.children[self.child_index(name)].1
    }

    /// This node with `node` as its subcommand `name`: it replaces the
    /// subcommand of that name if there is one, and is added last otherwise.
    #[verifier::opaque]
    pub open spec fn with_child(self, name: Seq<char>, node: CmdSpec) -> CmdSpec {
        if self.has_child(name) {
            CmdSpec {
                children: self.children.update(self.child_index(name), (name, node)),
                flags: self.flags,
            }
        } else {
            CmdSpec { children: self.children.push((name, node)), flags: self.flags }
        }
    }

    /// No node has two subcommands of the same name.
    pub open spec fn wf(self) -> bool
        decreases self,
    {
        &&& self.names().no_duplicates()
        &&& forall|i: int| 0 <= i < self.children.len() ==> (#[trigger] self.children[i]).1.wf()
    }

    /// The completions offered for the words `tokens`, the last of which is
    /// being typed: with no word, every option; with one, the options that
    /// start with it; with more, those of the subcommand that the first
    /// word names for the remaining words, and none if there is no such
    /// subcommand. Each list is in ascending lexicographic order.
    pub open spec fn completions(self, tokens: Seq<Seq<char>>) -> Seq<Seq<char>>
        decreases tokens.len(),
    {
        if tokens.len() == 0 {
            sort_strs(self.options())
        } else if tokens.len() == 1 {
            sort_strs(self.options()).filter(starts_with_pred(tokens[0]))
        } else if self.has_child(tokens[0]) {
            self.child(tokens[0]).completions(tokens.drop_first())
        } else {
            Seq::empty()
        }
    }
}

/// Each subcommand name occurs once after `with_child`, given that it did before.
pub proof fn lemma_with_child_wf(t: CmdSpec, name: Seq<char>, node: CmdSpec)
    requires
        t.wf(),
        node.wf(),
    ensures
        t.with_child(name, node).wf(),
{
    reveal(CmdSpec::with_child);
    let r = t.with_child(name, node);
    if t.has_child(name) {
        let i = t.child_index(name);
        let w = choose|w: int| 0 <= w < t.children.len() && #[trigger] t.children[w].0 == name;
        assert(exists|i: int|
            0 <= i < t.children.len() && t.children[i].0 == name && forall|k: int|
                0 <= k < i ==> #[trigger] t.children[k].0 != name) by {
            assert(t.names()[w] == name);
            assert forall|k: int| 0 <= k < w implies #[trigger] t.children[k].0 != name by {
                assert(t.names()[k] == t.children[k].0);
                assert(t.names()[w] == t.children[w].0);
            }
        }
        assert(r.names() =~= t.names());
        assert forall|j: int| 0 <= j < r.children.len() implies (#[trigger] r.children[j]).1.wf() by {
            if j != i {
                assert(r.children[j] == t.children[j]);
            }
        }
    } else {
        assert(r.names() =~= t.names().push(name));
        assert forall|a: int, b: int|
            0 <= a < r.names().len() && 0 <= b < r.names().len() && a != b
            implies r.names()[a] != r.names()[b] by {
            if a == t.children.len() as int {
                assert(t.children[b].0 == t.names()[b]);
            } else if b == t.children.len() as int {
                assert(t.children[a].0 == t.names()[a]);
            }
        }
        assert forall|j: int| 0 <= j < r.children.len() implies (#[trigger] r.children[j]).1.wf() by {
            if j < t.children.len() {
                assert(r.children[j] == t.children[j]);
            }
        }
    }
}

/// A node of the `jj` command tree: its subcommands by name, and its flags.
pub struct CommandTree {
    children: Vec<(&'static str, CommandTree)>,
    flags: &'static [&'static str],
}

impl View for CommandTree {
    type V = CmdSpec;

    closed spec fn view(&self) -> CmdSpec
        decreases self,
    {
        CmdSpec {
            children: Seq::new(
                self.children@.len(),
                |i: int|
                    (
                        self.children@[i].0@,
                        if 0 <= i < self.children@.len() {
                            self.children@[i].1.view()
                        } else {
                            leaf(Seq::empty())
                        },
                    ),
            ),
            flags: strs_view(self.flags@),
        }
    }
}

impl CommandTree {
    proof fn lemma_view_children(&self)
        ensures
            self@.children.len() == self.children@.len(),
            forall|i: int|
                0 <= i < self.children@.len() ==> #[trigger] self@.children[i] == (
                self.children@[i].0@,
                self.children@[i].1@,
            ),
            self@.flags == strs_view(self.flags@),
    {
    }

    /// A node with the given flags and no subcommands.
    fn new(flags: &'static [&'static str]) -> (t: Self)
        ensures
            t@ == node_of(flags),
    {
        let t = Self { children: Vec::new(), flags };
        assert(t@.children =~= Seq::empty());
        t
    }

    /// This node with `node` as its subcommand `name`.
    fn child(self, name: &'static str, node: CommandTree) -> (t: Self)
        ensures
            t@ == self@.with_child(name@, node@),
    {
        reveal(CmdSpec::with_child);
        let mut this = self;
        let ghost old_view = this@;
        proof { this.lemma_view_children(); }
        let n = this.children.len();
        let mut i: usize = 0;
        while i < n && !str_eq(this.children[i].0, name)
            invariant
                n == this.children@.len(),
                i <= n,
                forall|k: int| 0 <= k < i ==> #[trigger] this.children@[k].0@ != name@,
            decreases n - i,
        {
            i = i + 1;
        }
        if i < n {
            this.children.set(i, (name, node));
            proof {
                this.lemma_view_children();
                assert(old_view.has_child(name@)) by {
                    assert(old_view.children[i as int].0 == name@);
                }
                let ci = old_view.child_index(name@);
                assert(ci == i) by {
                    if ci < i {
                        assert(old_view.children[ci].0 == name@);
                    } else if ci > i {
                        assert(old_view.children[i as int].0 != name@);
                    }
                }
                assert(this@.children =~= old_view.children.update(i as int, (name@, node@)));
            }
        } else {
            this.children.push((name, node));
            proof {
                this.lemma_view_children();
                assert(!old_view.has_child(name@));
                assert(this@.children =~= old_view.children.push((name@, node@)));
            }
        }
        this
    }

    /// Every option of this node, sorted.
    fn all_options(&self) -> (r: Vec<String>)
        ensures
            r.deep_view() == sort_strs(self@.options()),
    {
        proof { self.lemma_view_children(); }
        let mut opts: Vec<String> = Vec::new();
        let n = self.children.len();
        let mut i: usize = 0;
        while i < n
            invariant
                n == self.children@.len(),
                n == self@.children.len(),
                i <= n,
                forall|k: int| 0 <= k < n ==> #[trigger] self@.children[k] == (
                    self.children@[k].0@,
                    self.children@[k].1@,
                ),
                opts.deep_view() == self@.names().take(i as int),
            decreases n - i,
        {
            let ghost prev = opts.deep_view();
            let name = owned(self.children[i].0);
            assert(self@.names()[i as int] == name@);
            opts.push(name);
            assert(opts.deep_view() =~= prev.push(name@));
            i = i + 1;
            assert(opts.deep_view() =~= self@.names().take(i as int));
        }
        let m = self.flags.len();
        let mut j: usize = 0;
        while j < m
            invariant
                m == self.flags@.len(),
                self@.flags == strs_view(self.flags@),
                j <= m,
                opts.deep_view() == self@.names() + self@.flags.take(j as int),
            decreases m - j,
        {
            let ghost prev = opts.deep_view();
            let flag = owned(self.flags[j]);
            assert(self@.flags[j as int] == flag@);
            opts.push(flag);
            assert(opts.deep_view() =~= prev.push(flag@));
            j = j + 1;
            assert(opts.deep_view() =~= self@.names() + self@.flags.take(j as int));
        }
        assert(self@.flags.take(m as int) =~= self@.flags);
        sort_strings(&opts)
    }

    /// The options of this node that start with `prefix`, sorted.
    fn matching_options(&self, prefix: &str) -> (r: Vec<String>)
        ensures
            r.deep_view() == sort_strs(self@.options()).filter(starts_with_pred(prefix@)),
    {
        let all = self.all_options();
                let mut out: Vec<String> = Vec::new();
        let n = all.len();
        let mut i: usize = 0;
        assert(all.deep_view().take(0).filter(starts_with_pred(prefix@)) =~= Seq::<Seq<char>>::empty()) by {
            reveal(Seq::filter);
        }
        while i < n
            invariant
                n == all@.len(),
                i <= n,
                out.deep_view() == all.deep_view().take(i as int).filter(starts_with_pred(prefix@)),
            decreases n - i,
        {
            let si: &str = all[i].as_str();
            let keep = starts_with(si, prefix);
            assert(si@ == all@[i as int]@);
            assert(keep == has_prefix(all@[i as int]@, prefix@));
            proof {
                reveal(Seq::filter);
                assert(all.deep_view().take(i + 1).drop_last() =~= all.deep_view().take(i as int));
            }
            let ghost prev = out.deep_view();
            assert(all.deep_view()[i as int] == all@[i as int]@);
            assert(all.deep_view().take(i + 1).last() == all@[i as int]@);
            assert(keep == starts_with_pred(prefix@)(all@[i as int]@));
            if keep {
                let x = all[i].clone();
                out.push(x);
                assert(out.deep_view() =~= prev.push(x@));
            } else {
            }
            i = i + 1;
        }
        assert(all.deep_view().take(n as int) =~= all.deep_view());
        out
    }

    /// The subcommand called `name`, if there is one.
    fn find_child(&self, name: &str) -> (r: Option<&CommandTree>)
        ensures
            r is Some <==> self@.has_child(name@),
            r matches Some(c) ==> c@ == self@.child(name@),
    {
        proof { self.lemma_view_children(); }
        let n = self.children.len();
        let mut i: usize = 0;
        while i < n
            invariant
                n == self.children@.len(),
                n == self@.children.len(),
                i <= n,
                forall|k: int| 0 <= k < n ==> #[trigger] self@.children[k] == (
                    self.children@[k].0@,
                    self.children@[k].1@,
                ),
                forall|k: int| 0 <= k < i ==> #[trigger] self@.children[k].0 != name@,
            decreases n - i,
        {
            if str_eq(self.children[i].0, name) {
                proof {
                    assert(self@.children[i as int].0 == name@);
                    let ci = self@.child_index(name@);
                    assert(ci == i) by {
                        if ci < i {
                            assert(self@.children[ci].0 == name@);
                        } else if ci > i {
                            assert(self@.children[i as int].0 != name@);
                        }
                    }
                }
                return Some(&self.children[i].1);
            }
            i = i + 1;
        }
        None
    }

    /// The completions for the words typed so far, the last of which is
    /// being typed: see `CmdSpec::completions`.
    pub fn completions(&self, tokens: &[&str]) -> (r: Vec<String>)
        ensures
            r.deep_view() == self@.completions(tokens.deep_view()),
        decreases tokens@.len(),
    {
        if tokens.len() == 0 {
            return self.all_options();
        }
        let (first, rest) = tokens.split_at(1);
        let head = first[0];
        assert(tokens.deep_view().drop_first() =~= rest.deep_view());
        if rest.len() == 0 {
            self.matching_options(head)
        } else {
            match self.find_child(head) {
                Some(child) => child.completions(rest),
                None => Vec::new(),
            }
        }
    }
}

/// A node with the given flags and no subcommands.
pub open spec fn node_of(flags: &[&str]) -> CmdSpec {
    leaf(strs_view(flags@))
}

/// The `jj` command line: its top-level commands with their flags, their
/// nested subcommands (down to the third level, as in `git remote add`),
/// and the global flags.
pub open spec fn jj_commands() -> CmdSpec {
    node_of(&["--repository", "--ignore-working-copy", "--ignore-immutable", "--at-operation", "--debug", "--color", "--quiet", "--no-pager", "--config"])
        .with_child("abandon"@, node_of(&["--retain-bookmarks", "--restore-descendants"]))
        .with_child("absorb"@, node_of(&["--from", "--into"]))
        .with_child("arrange"@, node_of(&[]))
        .with_child("bisect"@, node_of(&[])
            .with_child("run"@, node_of(&["--range", "--find-good"])))
        .with_child("bookmark"@, node_of(&[])
            .with_child("advance"@, node_of(&["--to"]))
            .with_child("create"@, node_of(&["--revision"]))
            .with_child("delete"@, node_of(&[]))
            .with_child("forget"@, node_of(&["--include-remotes"]))
            .with_child("list"@, node_of(&["--all-remotes", "--tracked", "--conflicted", "--revision", "--template", "--sort"]))
            .with_child("move"@, node_of(&["--from", "--to", "--allow-backwards"]))
            .with_child("rename"@, node_of(&["--overwrite-existing"]))
            .with_child("set"@, node_of(&["--revision", "--allow-backwards"]))
            .with_child("track"@, node_of(&[]))
            .with_child("untrack"@, node_of(&[])))
        .with_child("commit"@, node_of(&["--interactive", "--tool", "--message", "--editor"]))
        .with_child("config"@, node_of(&[])
            .with_child("edit"@, node_of(&["--user", "--repo", "--workspace"]))
            .with_child("get"@, node_of(&[]))
            .with_child("list"@, node_of(&["--include-defaults", "--include-overridden", "--user", "--repo", "--workspace", "--template"]))
            .with_child("path"@, node_of(&["--user", "--repo", "--workspace"]))
            .with_child("set"@, node_of(&["--user", "--repo", "--workspace"]))
            .with_child("unset"@, node_of(&["--user", "--repo", "--workspace"])))
        .with_child("describe"@, node_of(&["--message", "--editor", "--reset-author"]))
        .with_child("diff"@, node_of(&["--revision", "--from", "--to", "--summary", "--stat", "--types", "--name-only", "--git", "--color-words", "--tool", "--context", "--ignore-all-space", "--ignore-space-change"]))
        .with_child("diffedit"@, node_of(&["--revision", "--from", "--to", "--tool", "--restore-descendants"]))
        .with_child("duplicate"@, node_of(&["--onto", "--insert-after", "--insert-before"]))
        .with_child("edit"@, node_of(&[]))
        .with_child("evolog"@, node_of(&["--revision", "--limit", "--reversed", "--no-graph", "--template", "--patch"]))
        .with_child("file"@, node_of(&[])
            .with_child("annotate"@, node_of(&["--revision", "--template"]))
            .with_child("chmod"@, node_of(&["--revision"]))
            .with_child("list"@, node_of(&["--revision", "--template"]))
            .with_child("search"@, node_of(&["--revision", "--pattern"]))
            .with_child("show"@, node_of(&["--revision", "--template"]))
            .with_child("track"@, node_of(&[]))
            .with_child("untrack"@, node_of(&[])))
        .with_child("fix"@, node_of(&["--source", "--include-unchanged-files"]))
        .with_child("gerrit"@, node_of(&[])
            .with_child("upload"@, node_of(&["--revision"])))
        .with_child("git"@, node_of(&[])
            .with_child("clone"@, node_of(&["--remote", "--colocate", "--no-colocate", "--depth", "--branch"]))
            .with_child("colocation"@, node_of(&[])
                .with_child("disable"@, node_of(&[]))
                .with_child("enable"@, node_of(&[]))
                .with_child("status"@, node_of(&[])))
            .with_child("export"@, node_of(&[]))
            .with_child("fetch"@, node_of(&["--remote", "--branch", "--all-remotes"]))
            .with_child("import"@, node_of(&[]))
            .with_child("init"@, node_of(&["--colocate", "--no-colocate", "--git-repo"]))
            .with_child("push"@, node_of(&["--remote", "--bookmark", "--all", "--change", "--revision", "--dry-run"]))
            .with_child("remote"@, node_of(&[])
                .with_child("add"@, node_of(&["--fetch-tags", "--push-url"]))
                .with_child("list"@, node_of(&[]))
                .with_child("remove"@, node_of(&[]))
                .with_child("rename"@, node_of(&[]))
                .with_child("set-url"@, node_of(&["--push", "--fetch"])))
            .with_child("root"@, node_of(&[])))
        .with_child("help"@, node_of(&["--keyword"]))
        .with_child("interdiff"@, node_of(&["--from", "--to", "--summary", "--stat", "--git", "--color-words"]))
        .with_child("log"@, node_of(&["--revision", "--limit", "--reversed", "--no-graph", "--template", "--patch", "--summary", "--stat", "--git", "--color-words", "--context", "--name-only", "--types", "--count"]))
        .with_child("metaedit"@, node_of(&["--update-change-id", "--message", "--update-author-timestamp"]))
        .with_child("new"@, node_of(&["--message", "--no-edit", "--insert-after", "--insert-before"]))
        .with_child("next"@, node_of(&["--edit", "--no-edit", "--conflict"]))
        .with_child("operation"@, node_of(&[])
            .with_child("abandon"@, node_of(&[]))
            .with_child("diff"@, node_of(&["--operation", "--from", "--to", "--no-graph", "--patch"]))
            .with_child("integrate"@, node_of(&[]))
            .with_child("log"@, node_of(&["--limit", "--reversed", "--no-graph", "--template", "--op-diff", "--patch"]))
            .with_child("restore"@, node_of(&["--what"]))
            .with_child("revert"@, node_of(&["--what"]))
            .with_child("show"@, node_of(&["--no-graph", "--template", "--patch", "--no-op-diff"])))
        .with_child("parallelize"@, node_of(&[]))
        .with_child("prev"@, node_of(&["--edit", "--no-edit", "--conflict"]))
        .with_child("rebase"@, node_of(&["--branch", "--source", "--revision", "--onto", "--insert-after", "--insert-before", "--skip-emptied"]))
        .with_child("redo"@, node_of(&[]))
        .with_child("resolve"@, node_of(&["--revision", "--list", "--tool"]))
        .with_child("restore"@, node_of(&["--from", "--into", "--changes-in", "--interactive", "--tool", "--restore-descendants"]))
        .with_child("revert"@, node_of(&["--revision", "--onto", "--insert-after", "--insert-before"]))
        .with_child("root"@, node_of(&[]))
        .with_child("show"@, node_of(&["--template", "--summary", "--stat", "--types", "--name-only", "--git", "--color-words", "--tool", "--context", "--no-patch"]))
        .with_child("sign"@, node_of(&["--revision", "--key"]))
        .with_child("simplify-parents"@, node_of(&["--source", "--revision"]))
        .with_child("sparse"@, node_of(&[])
            .with_child("edit"@, node_of(&[]))
            .with_child("list"@, node_of(&[]))
            .with_child("reset"@, node_of(&[]))
            .with_child("set"@, node_of(&["--add", "--remove", "--clear"])))
        .with_child("split"@, node_of(&["--revision", "--parallel", "--interactive", "--tool"]))
        .with_child("squash"@, node_of(&["--revision", "--from", "--into", "--message", "--use-destination-message", "--interactive", "--tool", "--keep-emptied"]))
        .with_child("status"@, node_of(&[]))
        .with_child("tag"@, node_of(&[])
            .with_child("delete"@, node_of(&[]))
            .with_child("list"@, node_of(&["--all-remotes", "--conflicted", "--revision", "--template", "--sort"]))
            .with_child("set"@, node_of(&["--revision", "--allow-move"])))
        .with_child("undo"@, node_of(&[]))
        .with_child("unsign"@, node_of(&["--revision"]))
        .with_child("util"@, node_of(&[])
            .with_child("completion"@, node_of(&[]))
            .with_child("config-schema"@, node_of(&[]))
            .with_child("exec"@, node_of(&[]))
            .with_child("gc"@, node_of(&["--expire"]))
            .with_child("install-man-pages"@, node_of(&[]))
            .with_child("markdown-help"@, node_of(&[]))
            .with_child("snapshot"@, node_of(&[])))
        .with_child("version"@, node_of(&[]))
        .with_child("workspace"@, node_of(&[])
            .with_child("add"@, node_of(&["--name", "--revision", "--message", "--sparse-patterns"]))
            .with_child("forget"@, node_of(&[]))
            .with_child("list"@, node_of(&["--template"]))
            .with_child("rename"@, node_of(&[]))
            .with_child("root"@, node_of(&["--name"]))
            .with_child("update-stale"@, node_of(&[])))}

/// Every node of the `jj` command tree names each of its subcommands once.
pub proof fn lemma_jj_commands_wf()
    ensures
        jj_commands().wf(),
{
    assert forall|f: &[&str]| #[trigger] node_of(f).wf() by {
        assert(node_of(f).names() =~= Seq::<Seq<char>>::empty());
    }
    assert forall|t: CmdSpec, name: Seq<char>, n: CmdSpec|
        t.wf() && n.wf() implies #[trigger] t.with_child(name, n).wf() by {
        lemma_with_child_wf(t, name, n);
    }
}

/// The full `jj` command tree (see `jj_commands`).
pub fn build_tree() -> (t: CommandTree)
    ensures
        t@ == jj_commands(),
        t@.wf(),
{
    proof { lemma_jj_commands_wf(); }
    CommandTree::new(&["--repository", "--ignore-working-copy", "--ignore-immutable", "--at-operation", "--debug", "--color", "--quiet", "--no-pager", "--config"])
        .child("abandon", CommandTree::new(&["--retain-bookmarks", "--restore-descendants"]))
        .child("absorb", CommandTree::new(&["--from", "--into"]))
        .child("arrange", CommandTree::new(&[]))
        .child("bisect", CommandTree::new(&[])
            .child("run", CommandTree::new(&["--range", "--find-good"])))
        .child("bookmark", CommandTree::new(&[])
            .child("advance", CommandTree::new(&["--to"]))
            .child("create", CommandTree::new(&["--revision"]))
            .child("delete", CommandTree::new(&[]))
            .child("forget", CommandTree::new(&["--include-remotes"]))
            .child("list", CommandTree::new(&["--all-remotes", "--tracked", "--conflicted", "--revision", "--template", "--sort"]))
            .child("move", CommandTree::new(&["--from", "--to", "--allow-backwards"]))
            .child("rename", CommandTree::new(&["--overwrite-existing"]))
            .child("set", CommandTree::new(&["--revision", "--allow-backwards"]))
            .child("track", CommandTree::new(&[]))
            .child("untrack", CommandTree::new(&[])))
        .child("commit", CommandTree::new(&["--interactive", "--tool", "--message", "--editor"]))
        .child("config", CommandTree::new(&[])
            .child("edit", CommandTree::new(&["--user", "--repo", "--workspace"]))
            .child("get", CommandTree::new(&[]))
            .child("list", CommandTree::new(&["--include-defaults", "--include-overridden", "--user", "--repo", "--workspace", "--template"]))
            .child("path", CommandTree::new(&["--user", "--repo", "--workspace"]))
            .child("set", CommandTree::new(&["--user", "--repo", "--workspace"]))
            .child("unset", CommandTree::new(&["--user", "--repo", "--workspace"])))
        .child("describe", CommandTree::new(&["--message", "--editor", "--reset-author"]))
        .child("diff", CommandTree::new(&["--revision", "--from", "--to", "--summary", "--stat", "--types", "--name-only", "--git", "--color-words", "--tool", "--context", "--ignore-all-space", "--ignore-space-change"]))
        .child("diffedit", CommandTree::new(&["--revision", "--from", "--to", "--tool", "--restore-descendants"]))
        .child("duplicate", CommandTree::new(&["--onto", "--insert-after", "--insert-before"]))
        .child("edit", CommandTree::new(&[]))
        .child("evolog", CommandTree::new(&["--revision", "--limit", "--reversed", "--no-graph", "--template", "--patch"]))
        .child("file", CommandTree::new(&[])
            .child("annotate", CommandTree::new(&["--revision", "--template"]))
            .child("chmod", CommandTree::new(&["--revision"]))
            .child("list", CommandTree::new(&["--revision", "--template"]))
            .child("search", CommandTree::new(&["--revision", "--pattern"]))
            .child("show", CommandTree::new(&["--revision", "--template"]))
            .child("track", CommandTree::new(&[]))
            .child("untrack", CommandTree::new(&[])))
        .child("fix", CommandTree::new(&["--source", "--include-unchanged-files"]))
        .child("gerrit", CommandTree::new(&[])
            .child("upload", CommandTree::new(&["--revision"])))
        .child("git", CommandTree::new(&[])
            .child("clone", CommandTree::new(&["--remote", "--colocate", "--no-colocate", "--depth", "--branch"]))
            .child("colocation", CommandTree::new(&[])
                .child("disable", CommandTree::new(&[]))
                .child("enable", CommandTree::new(&[]))
                .child("status", CommandTree::new(&[])))
            .child("export", CommandTree::new(&[]))
            .child("fetch", CommandTree::new(&["--remote", "--branch", "--all-remotes"]))
            .child("import", CommandTree::new(&[]))
            .child("init", CommandTree::new(&["--colocate", "--no-colocate", "--git-repo"]))
            .child("push", CommandTree::new(&["--remote", "--bookmark", "--all", "--change", "--revision", "--dry-run"]))
            .child("remote", CommandTree::new(&[])
                .child("add", CommandTree::new(&["--fetch-tags", "--push-url"]))
                .child("list", CommandTree::new(&[]))
                .child("remove", CommandTree::new(&[]))
                .child("rename", CommandTree::new(&[]))
                .child("set-url", CommandTree::new(&["--push", "--fetch"])))
            .child("root", CommandTree::new(&[])))
        .child("help", CommandTree::new(&["--keyword"]))
        .child("interdiff", CommandTree::new(&["--from", "--to", "--summary", "--stat", "--git", "--color-words"]))
        .child("log", CommandTree::new(&["--revision", "--limit", "--reversed", "--no-graph", "--template", "--patch", "--summary", "--stat", "--git", "--color-words", "--context", "--name-only", "--types", "--count"]))
        .child("metaedit", CommandTree::new(&["--update-change-id", "--message", "--update-author-timestamp"]))
        .child("new", CommandTree::new(&["--message", "--no-edit", "--insert-after", "--insert-before"]))
        .child("next", CommandTree::new(&["--edit", "--no-edit", "--conflict"]))
        .child("operation", CommandTree::new(&[])
            .child("abandon", CommandTree::new(&[]))
            .child("diff", CommandTree::new(&["--operation", "--from", "--to", "--no-graph", "--patch"]))
            .child("integrate", CommandTree::new(&[]))
            .child("log", CommandTree::new(&["--limit", "--reversed", "--no-graph", "--template", "--op-diff", "--patch"]))
            .child("restore", CommandTree::new(&["--what"]))
            .child("revert", CommandTree::new(&["--what"]))
            .child("show", CommandTree::new(&["--no-graph", "--template", "--patch", "--no-op-diff"])))
        .child("parallelize", CommandTree::new(&[]))
        .child("prev", CommandTree::new(&["--edit", "--no-edit", "--conflict"]))
        .child("rebase", CommandTree::new(&["--branch", "--source", "--revision", "--onto", "--insert-after", "--insert-before", "--skip-emptied"]))
        .child("redo", CommandTree::new(&[]))
        .child("resolve", CommandTree::new(&["--revision", "--list", "--tool"]))
        .child("restore", CommandTree::new(&["--from", "--into", "--changes-in", "--interactive", "--tool", "--restore-descendants"]))
        .child("revert", CommandTree::new(&["--revision", "--onto", "--insert-after", "--insert-before"]))
        .child("root", CommandTree::new(&[]))
        .child("show", CommandTree::new(&["--template", "--summary", "--stat", "--types", "--name-only", "--git", "--color-words", "--tool", "--context", "--no-patch"]))
        .child("sign", CommandTree::new(&["--revision", "--key"]))
        .child("simplify-parents", CommandTree::new(&["--source", "--revision"]))
        .child("sparse", CommandTree::new(&[])
            .child("edit", CommandTree::new(&[]))
            .child("list", CommandTree::new(&[]))
            .child("reset", CommandTree::new(&[]))
            .child("set", CommandTree::new(&["--add", "--remove", "--clear"])))
        .child("split", CommandTree::new(&["--revision", "--parallel", "--interactive", "--tool"]))
        .child("squash", CommandTree::new(&["--revision", "--from", "--into", "--message", "--use-destination-message", "--interactive", "--tool", "--keep-emptied"]))
        .child("status", CommandTree::new(&[]))
        .child("tag", CommandTree::new(&[])
            .child("delete", CommandTree::new(&[]))
            .child("list", CommandTree::new(&["--all-remotes", "--conflicted", "--revision", "--template", "--sort"]))
            .child("set", CommandTree::new(&["--revision", "--allow-move"])))
        .child("undo", CommandTree::new(&[]))
        .child("unsign", CommandTree::new(&["--revision"]))
        .child("util", CommandTree::new(&[])
            .child("completion", CommandTree::new(&[]))
            .child("config-schema", CommandTree::new(&[]))
            .child("exec", CommandTree::new(&[]))
            .child("gc", CommandTree::new(&["--expire"]))
            .child("install-man-pages", CommandTree::new(&[]))
            .child("markdown-help", CommandTree::new(&[]))
            .child("snapshot", CommandTree::new(&[])))
        .child("version", CommandTree::new(&[]))
        .child("workspace", CommandTree::new(&[])
            .child("add", CommandTree::new(&["--name", "--revision", "--message", "--sparse-patterns"]))
            .child("forget", CommandTree::new(&[]))
            .child("list", CommandTree::new(&["--template"]))
            .child("rename", CommandTree::new(&[]))
            .child("root", CommandTree::new(&["--name"]))
            .child("update-stale", CommandTree::new(&[])))}

/// Whether the words name a bookmark subcommand whose arguments are
/// bookmark names: `bookmark` followed by one of `advance`, `create`,
/// `delete`, `forget`, `move`, `rename`, `set`, `track`, `untrack`, with
/// anything after it.
pub open spec fn takes_bookmark_names(tokens: Seq<Seq<char>>) -> bool {
    &&& tokens.len() >= 2
    &&& tokens[0] == "bookmark"@
    &&& {
        let s = tokens[1];
        ||| s == "advance"@
        ||| s == "create"@
        ||| s == "delete"@
        ||| s == "forget"@
        ||| s == "move"@
        ||| s == "rename"@
        ||| s == "set"@
        ||| s == "track"@
        ||| s == "untrack"@
    }
}

/// Whether the command typed so far expects bookmark names as arguments.
pub fn expects_bookmark_arg(tokens: &[&str]) -> (b: bool)
    ensures
        b == takes_bookmark_names(tokens.deep_view()),
{
    if tokens.len() < 2 || !str_eq(tokens[0], "bookmark") {
        return false;
    }
    let s = tokens[1];
    str_eq(s, "advance") || str_eq(s, "create") || str_eq(s, "delete") || str_eq(s, "forget")
        || str_eq(s, "move") || str_eq(s, "rename") || str_eq(s, "set") || str_eq(s, "track")
        || str_eq(s, "untrack")
}

// ---------------------------------------------------------------------------
// What completions promise
// ---------------------------------------------------------------------------

proof fn lemma_filter_sorted(s: Seq<Seq<char>>, p: spec_fn(Seq<char>) -> bool)
    requires
        sorted(s),
    ensures
        sorted(s.filter(p)),
    decreases s.len(),
{
    reveal(Seq::filter);
    if s.len() > 0 {
        let t = s.drop_last();
        assert(sorted(t)) by {
            assert forall|i: int, j: int| 0 <= i < j < t.len() implies lex_le(#[trigger] t[i], #[trigger] t[j]) by {
                assert(t[i] == s[i] && t[j] == s[j]);
            }
        }
        lemma_filter_sorted(t, p);
        let f = t.filter(p);
        if p(s.last()) {
            let r = f.push(s.last());
            assert forall|i: int, j: int| 0 <= i < j < r.len() implies lex_le(#[trigger] r[i], #[trigger] r[j]) by {
                if j == r.len() - 1 {
                    assert(f.contains(r[i])) by {
                        assert(f[i] == r[i]);
                    }
                    t.lemma_filter_contains_rev(p, r[i]);
                    let k = choose|k: int| 0 <= k < t.len() && t[k] == r[i];
                    assert(s[k] == r[i]);
                    assert(lex_le(s[k], s[s.len() - 1]));
                } else {
                    assert(r[i] == f[i] && r[j] == f[j]);
                }
            }
        }
    }
}

proof fn lemma_filter_all(s: Seq<Seq<char>>, p: spec_fn(Seq<char>) -> bool)
    requires
        forall|x: Seq<char>| #[trigger] p(x),
    ensures
        s.filter(p) == s,
    decreases s.len(),
{
    reveal(Seq::filter);
    if s.len() > 0 {
        lemma_filter_all(s.drop_last(), p);
        assert(s.drop_last().push(s.last()) =~= s);
    }
}

/// Completions come in ascending lexicographic order.
pub proof fn lemma_completions_sorted(t: CmdSpec, tokens: Seq<Seq<char>>)
    ensures
        sorted(t.completions(tokens)),
    decreases tokens.len(),
{
    if tokens.len() == 0 {
        lemma_sort_strs(t.options());
    } else if tokens.len() == 1 {
        lemma_sort_strs(t.options());
        lemma_filter_sorted(sort_strs(t.options()), starts_with_pred(tokens[0]));
    } else if t.has_child(tokens[0]) {
        lemma_completions_sorted(t.child(tokens[0]), tokens.drop_first());
    }
}

/// Every completion starts with the word being typed (the last one).
pub proof fn lemma_completions_extend_last(t: CmdSpec, tokens: Seq<Seq<char>>)
    requires
        tokens.len() >= 1,
    ensures
        forall|i: int|
            0 <= i < t.completions(tokens).len() ==> has_prefix(#[trigger] t.completions(tokens)[i], tokens.last()),
    decreases tokens.len(),
{
    if tokens.len() == 1 {
        let s = sort_strs(t.options());
        let p = starts_with_pred(tokens[0]);
        assert(t.completions(tokens) == s.filter(p));
        assert(tokens.last() == tokens[0]);
        assert forall|i: int| 0 <= i < s.filter(p).len() implies has_prefix(#[trigger] s.filter(p)[i], tokens.last()) by {
            s.lemma_filter_pred(p, i);
        }
    } else if t.has_child(tokens[0]) {
        lemma_completions_extend_last(t.child(tokens[0]), tokens.drop_first());
        assert(t.completions(tokens) == t.child(tokens[0]).completions(tokens.drop_first()));
        assert(tokens.drop_first().last() == tokens.last());
    }
}

/// For one word, the completions are exactly the options of the node that
/// start with it.
pub proof fn lemma_completions_are_matching_options(t: CmdSpec, w: Seq<char>, o: Seq<char>)
    ensures
        t.completions(seq![w]).contains(o) <==> (t.options().contains(o) && has_prefix(o, w)),
{
    broadcast use vstd::seq_lib::group_to_multiset_ensures;
    let s = sort_strs(t.options());
    let p = starts_with_pred(w);
    lemma_sort_strs(t.options());
    assert(seq![w].len() == 1 && seq![w][0] == w);
    assert(t.completions(seq![w]) == s.filter(p));
    if s.filter(p).contains(o) {
        s.lemma_filter_contains_rev(p, o);
        let i = choose|i: int| 0 <= i < s.filter(p).len() && s.filter(p)[i] == o;
        s.lemma_filter_pred(p, i);
        assert(s.to_multiset().count(o) > 0);
        assert(t.options().to_multiset().count(o) > 0);
    }
    if t.options().contains(o) && has_prefix(o, w) {
        assert(t.options().to_multiset().count(o) > 0);
        assert(s.to_multiset().count(o) > 0);
        let i = choose|i: int| 0 <= i < s.len() && s[i] == o;
        s.lemma_filter_contains(p, i);
    }
}

/// Typing nothing yet is the same as having no word: every option is
/// offered.
pub proof fn lemma_empty_word_offers_all(t: CmdSpec)
    ensures
        t.completions(seq![Seq::<char>::empty()]) == t.completions(Seq::empty()),
        t.completions(Seq::empty()) == sort_strs(t.options()),
{
    let p = starts_with_pred(Seq::<char>::empty());
    assert forall|x: Seq<char>| #[trigger] p(x) by {
        assert(x.subrange(0, 0) =~= Seq::<char>::empty());
    }
    lemma_filter_all(sort_strs(t.options()), p);
}

proof fn lemma_filter_twice(s: Seq<Seq<char>>, a: spec_fn(Seq<char>) -> bool, b: spec_fn(Seq<char>) -> bool)
    requires
        forall|x: Seq<char>| #[trigger] b(x) ==> a(x),
    ensures
        s.filter(a).filter(b) == s.filter(b),
    decreases s.len(),
{
    reveal(Seq::filter);
    if s.len() > 0 {
        lemma_filter_twice(s.drop_last(), a, b);
        let x = s.last();
        s.drop_last().filter(a).lemma_filter_push(x, b);
    }
}

/// Typing more of the last word only narrows the completions: those for
/// the longer word are the completions for the shorter one that start with
/// the longer word.
pub proof fn lemma_longer_word_filters(t: CmdSpec, path: Seq<Seq<char>>, p: Seq<char>, q: Seq<char>)
    ensures
        t.completions(path.push(p + q)) == t.completions(path.push(p)).filter(starts_with_pred(p + q)),
    decreases path.len(),
{
    let long = path.push(p + q);
    let short = path.push(p);
    if path.len() == 0 {
        assert(long[0] == p + q && short[0] == p);
        let s = sort_strs(t.options());
        assert forall|x: Seq<char>| #[trigger] starts_with_pred(p + q)(x) implies starts_with_pred(p)(x) by {
            assert(x.subrange(0, p.len() as int) =~= (p + q).subrange(0, p.len() as int));
            assert((p + q).subrange(0, p.len() as int) =~= p);
        }
        lemma_filter_twice(s, starts_with_pred(p), starts_with_pred(p + q));
    } else {
        assert(long[0] == path[0] && short[0] == path[0]);
        assert(long.drop_first() =~= path.drop_first().push(p + q));
        assert(short.drop_first() =~= path.drop_first().push(p));
        if t.has_child(path[0]) {
            lemma_longer_word_filters(t.child(path[0]), path.drop_first(), p, q);
        } else {
            assert(Seq::<Seq<char>>::empty().filter(starts_with_pred(p + q)) =~= Seq::<Seq<char>>::empty()) by {
                reveal(Seq::filter);
            }
        }
    }
}

// ---------------------------------------------------------------------------
// No completion is offered twice
// ---------------------------------------------------------------------------

/// `s` is spelled like a flag: it starts with `--`.
pub open spec fn is_flag(s: Seq<char>) -> bool {
    s.len() >= 2 && s[0] == '-' && s[1] == '-'
}

/// `s` is spelled like a subcommand: it does not start with `-`.
pub open spec fn is_subcommand_name(s: Seq<char>) -> bool {
    s.len() == 0 || s[0] != '-'
}

impl CmdSpec {
    /// At every node, the subcommand names are distinct and none starts
    /// with `-`, and the flags are distinct and each starts with `--`.
    pub open spec fn clean(self) -> bool
        decreases self,
    {
        &&& self.names().no_duplicates()
        &&& self.flags.no_duplicates()
        &&& forall|i: int| 0 <= i < self.flags.len() ==> is_flag(#[trigger] self.flags[i])
        &&& forall|i: int| 0 <= i < self.children.len() ==> is_subcommand_name(#[trigger] self.children[i].0)
        &&& forall|i: int| 0 <= i < self.children.len() ==> (#[trigger] self.children[i]).1.clean()
    }
}

proof fn lemma_filter_no_dup(s: Seq<Seq<char>>, p: spec_fn(Seq<char>) -> bool)
    requires
        s.no_duplicates(),
    ensures
        s.filter(p).no_duplicates(),
    decreases s.len(),
{
    reveal(Seq::filter);
    if s.len() > 0 {
        let t = s.drop_last();
        assert(t.no_duplicates()) by {
            assert forall|i: int, j: int| 0 <= i < t.len() && 0 <= j < t.len() && i != j implies t[i] != t[j] by {
                assert(t[i] == s[i] && t[j] == s[j]);
            }
        }
        lemma_filter_no_dup(t, p);
        let f = t.filter(p);
        if p(s.last()) {
            let r = f.push(s.last());
            assert forall|i: int, j: int| 0 <= i < r.len() && 0 <= j < r.len() && i != j implies r[i] != r[j] by {
                if i == r.len() - 1 || j == r.len() - 1 {
                    let k = if i == r.len() - 1 { j } else { i };
                    assert(f.contains(r[k])) by {
                        assert(f[k] == r[k]);
                    }
                    t.lemma_filter_contains_rev(p, r[k]);
                    let m = choose|m: int| 0 <= m < t.len() && t[m] == r[k];
                    assert(s[m] == t[m]);
                    assert(s[m] != s[s.len() - 1]);
                } else {
                    assert(r[i] == f[i] && r[j] == f[j]);
                }
            }
        }
    }
}

proof fn lemma_sort_no_dup(s: Seq<Seq<char>>)
    requires
        s.no_duplicates(),
    ensures
        sort_strs(s).no_duplicates(),
{
    broadcast use vstd::seq_lib::group_to_multiset_ensures;
    lemma_sort_strs(s);
    s.lemma_multiset_has_no_duplicates();
    sort_strs(s).lemma_multiset_has_no_duplicates_conv();
}

proof fn lemma_options_no_dup(t: CmdSpec)
    requires
        t.clean(),
    ensures
        t.options().no_duplicates(),
{
    let names = t.names();
    assert forall|i: int, j: int| 0 <= i < names.len() && 0 <= j < t.flags.len() implies names[i] != t.flags[j] by {
        assert(names[i] == t.children[i].0);
        assert(is_subcommand_name(t.children[i].0));
        assert(is_flag(t.flags[j]));
    }
    vstd::seq_lib::lemma_no_dup_in_concat(names, t.flags);
}

/// In a clean tree, no completion is offered twice.
pub proof fn lemma_completions_no_duplicates(t: CmdSpec, tokens: Seq<Seq<char>>)
    requires
        t.clean(),
    ensures
        t.completions(tokens).no_duplicates(),
    decreases tokens.len(),
{
    if tokens.len() == 0 {
        lemma_options_no_dup(t);
        lemma_sort_no_dup(t.options());
    } else if tokens.len() == 1 {
        lemma_options_no_dup(t);
        lemma_sort_no_dup(t.options());
        lemma_filter_no_dup(sort_strs(t.options()), starts_with_pred(tokens[0]));
    } else if t.has_child(tokens[0]) {
        let i = t.child_index(tokens[0]);
        let w = choose|w: int| 0 <= w < t.children.len() && #[trigger] t.children[w].0 == tokens[0];
        assert(exists|i: int|
            0 <= i < t.children.len() && t.children[i].0 == tokens[0] && forall|k: int|
                0 <= k < i ==> #[trigger] t.children[k].0 != tokens[0]) by {
            assert(t.names()[w] == tokens[0]);
            assert forall|k: int| 0 <= k < w implies #[trigger] t.children[k].0 != tokens[0] by {
                assert(t.names()[k] == t.children[k].0);
                assert(t.names()[w] == t.children[w].0);
            }
        }
        assert(t.children[i].1.clean());
        lemma_completions_no_duplicates(t.child(tokens[0]), tokens.drop_first());
    }
}

/// Adding a subcommand whose name does not start with `-` to a clean node
/// keeps it clean.
pub proof fn lemma_with_child_clean(t: CmdSpec, name: Seq<char>, node: CmdSpec)
    requires
        t.clean(),
        node.clean(),
        is_subcommand_name(name),
    ensures
        t.with_child(name, node).clean(),
{
    reveal(CmdSpec::with_child);
    let r = t.with_child(name, node);
    if t.has_child(name) {
        let i = t.child_index(name);
        let w = choose|w: int| 0 <= w < t.children.len() && #[trigger] t.children[w].0 == name;
        assert(exists|i: int|
            0 <= i < t.children.len() && t.children[i].0 == name && forall|k: int|
                0 <= k < i ==> #[trigger] t.children[k].0 != name) by {
            assert(t.names()[w] == name);
            assert forall|k: int| 0 <= k < w implies #[trigger] t.children[k].0 != name by {
                assert(t.names()[k] == t.children[k].0);
                assert(t.names()[w] == t.children[w].0);
            }
        }
        assert(r.names() =~= t.names());
        assert forall|j: int| 0 <= j < r.children.len() implies (#[trigger] r.children[j]).1.clean()
            && is_subcommand_name(r.children[j].0) by {
            if j != i {
                assert(r.children[j] == t.children[j]);
            }
        }
    } else {
        assert(r.names() =~= t.names().push(name));
        assert forall|a: int, b: int|
            0 <= a < r.names().len() && 0 <= b < r.names().len() && a != b
            implies r.names()[a] != r.names()[b] by {
            if a == t.children.len() as int {
                assert(t.children[b].0 == t.names()[b]);
            } else if b == t.children.len() as int {
                assert(t.children[a].0 == t.names()[a]);
            }
        }
        assert forall|j: int| 0 <= j < r.children.len() implies (#[trigger] r.children[j]).1.clean()
            && is_subcommand_name(r.children[j].0) by {
            if j < t.children.len() {
                assert(r.children[j] == t.children[j]);
            }
        }
    }
}

// ---------------------------------------------------------------------------
// Looking nodes up by path
// ---------------------------------------------------------------------------

impl CmdSpec {
    /// The node reached by following the subcommand names `path` from this
    /// one, if each of them names a subcommand.
    pub open spec fn node_at(self, path: Seq<Seq<char>>) -> Option<CmdSpec>
        decreases path.len(),
    {
        if path.len() == 0 {
            Some(self)
        } else if self.has_child(path[0]) {
            self.child(path[0]).node_at(path.drop_first())
        } else {
            None
        }
    }

    /// The node at `path` exists, its subcommands are named `names` and
    /// its flags are `flags`.
    pub open spec fn has_node(self, path: Seq<Seq<char>>, names: Set<Seq<char>>, flags: Set<Seq<char>>) -> bool {
        match self.node_at(path) {
            Some(n) => n.names().to_set() == names && n.flags.to_set() == flags,
            None => false,
        }
    }
}

/// In a node whose subcommand names are distinct, the subcommand called by
/// the name at position `j` is the one at `j`.
proof fn lemma_child_at(t: CmdSpec, j: int)
    requires
        t.names().no_duplicates(),
        0 <= j < t.children.len(),
    ensures
        t.has_child(t.children[j].0),
        t.child_index(t.children[j].0) == j,
        t.child(t.children[j].0) == t.children[j].1,
{
    let m = t.children[j].0;
    assert(t.names()[j] == m);
    assert forall|k: int| 0 <= k < j implies #[trigger] t.children[k].0 != m by {
        assert(t.names()[k] == t.children[k].0);
    }
    let ci = t.child_index(m);
    assert(t.names()[ci] == t.children[ci].0);
}

/// After `with_child(name, node)` the subcommand `name` is `node`, every
/// other subcommand is as it was, the names are those before and `name`,
/// and the flags are unchanged.
pub proof fn lemma_with_child_lookup(t: CmdSpec, name: Seq<char>, node: CmdSpec, m: Seq<char>)
    requires
        t.names().no_duplicates(),
    ensures
        t.with_child(name, node).names().no_duplicates(),
        t.with_child(name, node).has_child(name),
        t.with_child(name, node).child(name) == node,
        m != name ==> t.with_child(name, node).has_child(m) == t.has_child(m),
        m != name && t.has_child(m) ==> t.with_child(name, node).child(m) == t.child(m),
        t.with_child(name, node).names().to_set() == t.names().to_set().insert(name),
        t.with_child(name, node).flags == t.flags,
{
    reveal(CmdSpec::with_child);
    let r = t.with_child(name, node);
    if t.has_child(name) {
        let w = choose|w: int| 0 <= w < t.children.len() && #[trigger] t.children[w].0 == name;
        lemma_child_at(t, w);
        assert(r.children == t.children.update(w, (name, node)));
        assert(r.names() =~= t.names());
        assert(t.names()[w] == name);
        assert(t.names().to_set().insert(name) =~= t.names().to_set());
        lemma_child_at(r, w);
        if m != name && t.has_child(m) {
            let j = choose|j: int| 0 <= j < t.children.len() && #[trigger] t.children[j].0 == m;
            lemma_child_at(t, j);
            assert(r.children[j] == t.children[j]);
            lemma_child_at(r, j);
        }
        if m != name && r.has_child(m) {
            let j = choose|j: int| 0 <= j < r.children.len() && #[trigger] r.children[j].0 == m;
            assert(j != w);
            assert(t.children[j].0 == m);
        }
    } else {
        let n0 = t.children.len() as int;
        assert(r.children == t.children.push((name, node)));
        assert(r.names() =~= t.names().push(name));
        t.names().lemma_push_to_set_commute(name);
        assert(r.names().no_duplicates()) by {
            assert forall|a: int, b: int| 0 <= a < r.names().len() && 0 <= b < r.names().len() && a != b
                implies r.names()[a] != r.names()[b] by {
                if a == n0 {
                    assert(t.children[b].0 == t.names()[b]);
                } else if b == n0 {
                    assert(t.children[a].0 == t.names()[a]);
                }
            }
        }
        assert(r.children[n0].0 == name);
        lemma_child_at(r, n0);
        if m != name && t.has_child(m) {
            let j = choose|j: int| 0 <= j < t.children.len() && #[trigger] t.children[j].0 == m;
            lemma_child_at(t, j);
            assert(r.children[j] == t.children[j]);
            lemma_child_at(r, j);
        }
        if m != name && r.has_child(m) {
            let j = choose|j: int| 0 <= j < r.children.len() && #[trigger] r.children[j].0 == m;
            assert(j != n0);
            assert(t.children[j].0 == m);
        }
    }
}

/// The completions for words that lead through `path` to a node are that
/// node's completions for the words after the path.
pub proof fn lemma_node_at_completions(t: CmdSpec, path: Seq<Seq<char>>, rest: Seq<Seq<char>>)
    requires
        t.node_at(path) is Some,
        rest.len() > 0,
    ensures
        t.completions(path + rest) == t.node_at(path).unwrap().completions(rest),
    decreases path.len(),
{
    if path.len() == 0 {
        assert(path + rest =~= rest);
    } else {
        let tokens = path + rest;
        assert(tokens[0] == path[0]);
        assert(tokens.drop_first() =~= path.drop_first() + rest);
        lemma_node_at_completions(t.child(path[0]), path.drop_first(), rest);
    }
}

} // verus!
