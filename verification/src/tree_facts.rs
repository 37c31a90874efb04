//! Facts about the `jj` command tree that rest on how its names are
//! spelled: flags start with `--`, subcommand names do not start with `-`,
//! no node repeats a flag; and the tree itself, node by node.

use vstd::prelude::*;
use crate::commands::{
    CmdSpec, is_flag, is_subcommand_name, jj_commands, leaf, lemma_completions_no_duplicates,
    lemma_with_child_clean, lemma_with_child_lookup, node_of, strs_view,
};

verus! {

/// A node without subcommands, made from distinct flags that each start
/// with `--`, is clean.
proof fn lemma_node_clean(f: &[&str])
    requires
        strs_view(f@).no_duplicates(),
        forall|i: int| 0 <= i < f@.len() ==> is_flag(#[trigger] f@[i]@),
    ensures
        node_of(f).clean(),
{
    let s = strs_view(f@);
    assert(leaf(s).names() =~= Seq::<Seq<char>>::empty());
    assert forall|i: int| 0 <= i < s.len() implies is_flag(#[trigger] s[i]) by {
        assert(s[i] == f@[i]@);
    }
}

/// How the flags are spelled, as far as telling them apart goes: each starts
/// with `--`; their lengths; where two of a length that share a node first differ.
proof fn lemma_flag_spellings_0()
    ensures
        is_flag("--add"@),
        is_flag("--all"@),
        is_flag("--all-remotes"@),
        is_flag("--allow-backwards"@),
        is_flag("--allow-move"@),
        is_flag("--at-operation"@),
        is_flag("--bookmark"@),
        is_flag("--branch"@),
        is_flag("--change"@),
        is_flag("--changes-in"@),
        is_flag("--clear"@),
        is_flag("--colocate"@),
        is_flag("--color"@),
        is_flag("--color-words"@),
        is_flag("--config"@),
        is_flag("--conflict"@),
        is_flag("--conflicted"@),
        is_flag("--context"@),
        is_flag("--count"@),
        is_flag("--debug"@),
        is_flag("--depth"@),
        is_flag("--dry-run"@),
        is_flag("--edit"@),
        is_flag("--editor"@),
        is_flag("--expire"@),
        is_flag("--fetch"@),
        is_flag("--fetch-tags"@),
        is_flag("--find-good"@),
        is_flag("--from"@),
        is_flag("--git"@),
        is_flag("--git-repo"@),
        is_flag("--ignore-all-space"@),
        is_flag("--ignore-immutable"@),
        is_flag("--ignore-space-change"@),
        is_flag("--ignore-working-copy"@),
        is_flag("--include-defaults"@),
        is_flag("--include-overridden"@),
        is_flag("--include-remotes"@),
        is_flag("--include-unchanged-files"@),
        is_flag("--insert-after"@),
        is_flag("--insert-before"@),
        is_flag("--interactive"@),
        is_flag("--into"@),
        is_flag("--keep-emptied"@),
        is_flag("--key"@),
        is_flag("--keyword"@),
        is_flag("--limit"@),
        is_flag("--list"@),
        is_flag("--message"@),
        is_flag("--name"@),
        is_flag("--name-only"@),
        is_flag("--no-colocate"@),
        is_flag("--no-edit"@),
        is_flag("--no-graph"@),
        is_flag("--no-op-diff"@),
        is_flag("--no-pager"@),
        is_flag("--no-patch"@),
        is_flag("--onto"@),
        is_flag("--op-diff"@),
        is_flag("--operation"@),
        is_flag("--overwrite-existing"@),
        is_flag("--parallel"@),
        is_flag("--patch"@),
        is_flag("--pattern"@),
        is_flag("--push"@),
        is_flag("--push-url"@),
        is_flag("--quiet"@),
        is_flag("--range"@),
        is_flag("--remote"@),
        is_flag("--remove"@),
        is_flag("--repo"@),
        is_flag("--repository"@),
        is_flag("--reset-author"@),
        is_flag("--restore-descendants"@),
        is_flag("--retain-bookmarks"@),
        is_flag("--reversed"@),
        is_flag("--revision"@),
        is_flag("--skip-emptied"@),
        is_flag("--sort"@),
        is_flag("--source"@),
{
    reveal_strlit("--add");
    reveal_strlit("--all");
    reveal_strlit("--all-remotes");
    reveal_strlit("--allow-backwards");
    reveal_strlit("--allow-move");
    reveal_strlit("--at-operation");
    reveal_strlit("--bookmark");
    reveal_strlit("--branch");
    reveal_strlit("--change");
    reveal_strlit("--changes-in");
    reveal_strlit("--clear");
    reveal_strlit("--colocate");
    reveal_strlit("--color");
    reveal_strlit("--color-words");
    reveal_strlit("--config");
    reveal_strlit("--conflict");
    reveal_strlit("--conflicted");
    reveal_strlit("--context");
    reveal_strlit("--count");
    reveal_strlit("--debug");
    reveal_strlit("--depth");
    reveal_strlit("--dry-run");
    reveal_strlit("--edit");
    reveal_strlit("--editor");
    reveal_strlit("--expire");
    reveal_strlit("--fetch");
    reveal_strlit("--fetch-tags");
    reveal_strlit("--find-good");
    reveal_strlit("--from");
    reveal_strlit("--git");
    reveal_strlit("--git-repo");
    reveal_strlit("--ignore-all-space");
    reveal_strlit("--ignore-immutable");
    reveal_strlit("--ignore-space-change");
    reveal_strlit("--ignore-working-copy");
    reveal_strlit("--include-defaults");
    reveal_strlit("--include-overridden");
    reveal_strlit("--include-remotes");
    reveal_strlit("--include-unchanged-files");
    reveal_strlit("--insert-after");
    reveal_strlit("--insert-before");
    reveal_strlit("--interactive");
    reveal_strlit("--into");
    reveal_strlit("--keep-emptied");
    reveal_strlit("--key");
    reveal_strlit("--keyword");
    reveal_strlit("--limit");
    reveal_strlit("--list");
    reveal_strlit("--message");
    reveal_strlit("--name");
    reveal_strlit("--name-only");
    reveal_strlit("--no-colocate");
    reveal_strlit("--no-edit");
    reveal_strlit("--no-graph");
    reveal_strlit("--no-op-diff");
    reveal_strlit("--no-pager");
    reveal_strlit("--no-patch");
    reveal_strlit("--onto");
    reveal_strlit("--op-diff");
    reveal_strlit("--operation");
    reveal_strlit("--overwrite-existing");
    reveal_strlit("--parallel");
    reveal_strlit("--patch");
    reveal_strlit("--pattern");
    reveal_strlit("--push");
    reveal_strlit("--push-url");
    reveal_strlit("--quiet");
    reveal_strlit("--range");
    reveal_strlit("--remote");
    reveal_strlit("--remove");
    reveal_strlit("--repo");
    reveal_strlit("--repository");
    reveal_strlit("--reset-author");
    reveal_strlit("--restore-descendants");
    reveal_strlit("--retain-bookmarks");
    reveal_strlit("--reversed");
    reveal_strlit("--revision");
    reveal_strlit("--skip-emptied");
    reveal_strlit("--sort");
    reveal_strlit("--source");
    reveal_strlit("--sparse-patterns");
    reveal_strlit("--stat");
    reveal_strlit("--summary");
    reveal_strlit("--template");
    reveal_strlit("--to");
    reveal_strlit("--tool");
    reveal_strlit("--tracked");
    reveal_strlit("--types");
    reveal_strlit("--update-author-timestamp");
    reveal_strlit("--update-change-id");
    reveal_strlit("--use-destination-message");
    reveal_strlit("--user");
    reveal_strlit("--what");
    reveal_strlit("--workspace");
}

/// How the flags are spelled, as far as telling them apart goes: each starts
/// with `--`; their lengths; where two of a length that share a node first differ.
proof fn lemma_flag_spellings_1()
    ensures
        is_flag("--sparse-patterns"@),
        is_flag("--stat"@),
        is_flag("--summary"@),
        is_flag("--template"@),
        is_flag("--to"@),
        is_flag("--tool"@),
        is_flag("--tracked"@),
        is_flag("--types"@),
        is_flag("--update-author-timestamp"@),
        is_flag("--update-change-id"@),
        is_flag("--use-destination-message"@),
        is_flag("--user"@),
        is_flag("--what"@),
        is_flag("--workspace"@),
        "--add"@.len() == 5,
        "--all"@.len() == 5,
        "--all-remotes"@.len() == 13,
        "--allow-backwards"@.len() == 17,
        "--allow-move"@.len() == 12,
        "--at-operation"@.len() == 14,
        "--bookmark"@.len() == 10,
        "--branch"@.len() == 8,
        "--change"@.len() == 8,
        "--changes-in"@.len() == 12,
        "--clear"@.len() == 7,
        "--colocate"@.len() == 10,
        "--color"@.len() == 7,
        "--color-words"@.len() == 13,
        "--config"@.len() == 8,
        "--conflict"@.len() == 10,
        "--conflicted"@.len() == 12,
        "--context"@.len() == 9,
        "--count"@.len() == 7,
        "--debug"@.len() == 7,
        "--depth"@.len() == 7,
        "--dry-run"@.len() == 9,
        "--edit"@.len() == 6,
        "--editor"@.len() == 8,
        "--expire"@.len() == 8,
        "--fetch"@.len() == 7,
        "--fetch-tags"@.len() == 12,
        "--find-good"@.len() == 11,
        "--from"@.len() == 6,
        "--git"@.len() == 5,
        "--git-repo"@.len() == 10,
        "--ignore-all-space"@.len() == 18,
        "--ignore-immutable"@.len() == 18,
        "--ignore-space-change"@.len() == 21,
        "--ignore-working-copy"@.len() == 21,
        "--include-defaults"@.len() == 18,
        "--include-overridden"@.len() == 20,
        "--include-remotes"@.len() == 17,
        "--include-unchanged-files"@.len() == 25,
        "--insert-after"@.len() == 14,
        "--insert-before"@.len() == 15,
        "--interactive"@.len() == 13,
        "--into"@.len() == 6,
        "--keep-emptied"@.len() == 14,
        "--key"@.len() == 5,
        "--keyword"@.len() == 9,
        "--limit"@.len() == 7,
        "--list"@.len() == 6,
        "--message"@.len() == 9,
        "--name"@.len() == 6,
        "--name-only"@.len() == 11,
        "--no-colocate"@.len() == 13,
        "--no-edit"@.len() == 9,
        "--no-graph"@.len() == 10,
        "--no-op-diff"@.len() == 12,
        "--no-pager"@.len() == 10,
        "--no-patch"@.len() == 10,
        "--onto"@.len() == 6,
        "--op-diff"@.len() == 9,
        "--operation"@.len() == 11,
        "--overwrite-existing"@.len() == 20,
        "--parallel"@.len() == 10,
        "--patch"@.len() == 7,
        "--pattern"@.len() == 9,
        "--push"@.len() == 6,
        "--push-url"@.len() == 10,
{
    reveal_strlit("--add");
    reveal_strlit("--all");
    reveal_strlit("--all-remotes");
    reveal_strlit("--allow-backwards");
    reveal_strlit("--allow-move");
    reveal_strlit("--at-operation");
    reveal_strlit("--bookmark");
    reveal_strlit("--branch");
    reveal_strlit("--change");
    reveal_strlit("--changes-in");
    reveal_strlit("--clear");
    reveal_strlit("--colocate");
    reveal_strlit("--color");
    reveal_strlit("--color-words");
    reveal_strlit("--config");
    reveal_strlit("--conflict");
    reveal_strlit("--conflicted");
    reveal_strlit("--context");
    reveal_strlit("--count");
    reveal_strlit("--debug");
    reveal_strlit("--depth");
    reveal_strlit("--dry-run");
    reveal_strlit("--edit");
    reveal_strlit("--editor");
    reveal_strlit("--expire");
    reveal_strlit("--fetch");
    reveal_strlit("--fetch-tags");
    reveal_strlit("--find-good");
    reveal_strlit("--from");
    reveal_strlit("--git");
    reveal_strlit("--git-repo");
    reveal_strlit("--ignore-all-space");
    reveal_strlit("--ignore-immutable");
    reveal_strlit("--ignore-space-change");
    reveal_strlit("--ignore-working-copy");
    reveal_strlit("--include-defaults");
    reveal_strlit("--include-overridden");
    reveal_strlit("--include-remotes");
    reveal_strlit("--include-unchanged-files");
    reveal_strlit("--insert-after");
    reveal_strlit("--insert-before");
    reveal_strlit("--interactive");
    reveal_strlit("--into");
    reveal_strlit("--keep-emptied");
    reveal_strlit("--key");
    reveal_strlit("--keyword");
    reveal_strlit("--limit");
    reveal_strlit("--list");
    reveal_strlit("--message");
    reveal_strlit("--name");
    reveal_strlit("--name-only");
    reveal_strlit("--no-colocate");
    reveal_strlit("--no-edit");
    reveal_strlit("--no-graph");
    reveal_strlit("--no-op-diff");
    reveal_strlit("--no-pager");
    reveal_strlit("--no-patch");
    reveal_strlit("--onto");
    reveal_strlit("--op-diff");
    reveal_strlit("--operation");
    reveal_strlit("--overwrite-existing");
    reveal_strlit("--parallel");
    reveal_strlit("--patch");
    reveal_strlit("--pattern");
    reveal_strlit("--push");
    reveal_strlit("--push-url");
    reveal_strlit("--quiet");
    reveal_strlit("--range");
    reveal_strlit("--remote");
    reveal_strlit("--remove");
    reveal_strlit("--repo");
    reveal_strlit("--repository");
    reveal_strlit("--reset-author");
    reveal_strlit("--restore-descendants");
    reveal_strlit("--retain-bookmarks");
    reveal_strlit("--reversed");
    reveal_strlit("--revision");
    reveal_strlit("--skip-emptied");
    reveal_strlit("--sort");
    reveal_strlit("--source");
    reveal_strlit("--sparse-patterns");
    reveal_strlit("--stat");
    reveal_strlit("--summary");
    reveal_strlit("--template");
    reveal_strlit("--to");
    reveal_strlit("--tool");
    reveal_strlit("--tracked");
    reveal_strlit("--types");
    reveal_strlit("--update-author-timestamp");
    reveal_strlit("--update-change-id");
    reveal_strlit("--use-destination-message");
    reveal_strlit("--user");
    reveal_strlit("--what");
    reveal_strlit("--workspace");
}

/// How the flags are spelled, as far as telling them apart goes: each starts
/// with `--`; their lengths; where two of a length that share a node first differ.
proof fn lemma_flag_spellings_2()
    ensures
        "--quiet"@.len() == 7,
        "--range"@.len() == 7,
        "--remote"@.len() == 8,
        "--remove"@.len() == 8,
        "--repo"@.len() == 6,
        "--repository"@.len() == 12,
        "--reset-author"@.len() == 14,
        "--restore-descendants"@.len() == 21,
        "--retain-bookmarks"@.len() == 18,
        "--reversed"@.len() == 10,
        "--revision"@.len() == 10,
        "--skip-emptied"@.len() == 14,
        "--sort"@.len() == 6,
        "--source"@.len() == 8,
        "--sparse-patterns"@.len() == 17,
        "--stat"@.len() == 6,
        "--summary"@.len() == 9,
        "--template"@.len() == 10,
        "--to"@.len() == 4,
        "--tool"@.len() == 6,
        "--tracked"@.len() == 9,
        "--types"@.len() == 7,
        "--update-author-timestamp"@.len() == 25,
        "--update-change-id"@.len() == 18,
        "--use-destination-message"@.len() == 25,
        "--user"@.len() == 6,
        "--what"@.len() == 6,
        "--workspace"@.len() == 11,
        "--bookmark"@[2] != "--revision"@[2],
        "--branch"@[2] != "--remote"@[2],
        "--branch"@[2] != "--source"@[2],
        "--change"@[2] != "--remote"@[2],
        "--colocate"@[2] != "--git-repo"@[2],
        "--color"@[2] != "--debug"@[2],
        "--color"@[2] != "--quiet"@[2],
        "--context"@[2] != "--summary"@[2],
        "--count"@[2] != "--limit"@[2],
        "--count"@[2] != "--patch"@[2],
        "--count"@[2] != "--types"@[2],
        "--debug"@[2] != "--quiet"@[2],
        "--from"@[2] != "--into"@[2],
        "--from"@[2] != "--stat"@[2],
        "--from"@[2] != "--tool"@[2],
        "--insert-after"@[2] != "--skip-emptied"@[2],
        "--into"@[2] != "--tool"@[2],
        "--limit"@[2] != "--patch"@[2],
        "--limit"@[2] != "--types"@[2],
        "--list"@[2] != "--tool"@[2],
        "--message"@[2] != "--no-edit"@[2],
        "--no-graph"@[2] != "--reversed"@[2],
        "--no-graph"@[2] != "--revision"@[2],
        "--no-graph"@[2] != "--template"@[2],
        "--no-patch"@[2] != "--template"@[2],
        "--parallel"@[2] != "--revision"@[2],
        "--patch"@[2] != "--types"@[2],
        "--repo"@[2] != "--user"@[2],
        "--reversed"@[5] != "--revision"@[5],
        "--reversed"@[2] != "--template"@[2],
        "--revision"@[2] != "--template"@[2],
        "--stat"@[2] != "--tool"@[2],
{
    reveal_strlit("--add");
    reveal_strlit("--all");
    reveal_strlit("--all-remotes");
    reveal_strlit("--allow-backwards");
    reveal_strlit("--allow-move");
    reveal_strlit("--at-operation");
    reveal_strlit("--bookmark");
    reveal_strlit("--branch");
    reveal_strlit("--change");
    reveal_strlit("--changes-in");
    reveal_strlit("--clear");
    reveal_strlit("--colocate");
    reveal_strlit("--color");
    reveal_strlit("--color-words");
    reveal_strlit("--config");
    reveal_strlit("--conflict");
    reveal_strlit("--conflicted");
    reveal_strlit("--context");
    reveal_strlit("--count");
    reveal_strlit("--debug");
    reveal_strlit("--depth");
    reveal_strlit("--dry-run");
    reveal_strlit("--edit");
    reveal_strlit("--editor");
    reveal_strlit("--expire");
    reveal_strlit("--fetch");
    reveal_strlit("--fetch-tags");
    reveal_strlit("--find-good");
    reveal_strlit("--from");
    reveal_strlit("--git");
    reveal_strlit("--git-repo");
    reveal_strlit("--ignore-all-space");
    reveal_strlit("--ignore-immutable");
    reveal_strlit("--ignore-space-change");
    reveal_strlit("--ignore-working-copy");
    reveal_strlit("--include-defaults");
    reveal_strlit("--include-overridden");
    reveal_strlit("--include-remotes");
    reveal_strlit("--include-unchanged-files");
    reveal_strlit("--insert-after");
    reveal_strlit("--insert-before");
    reveal_strlit("--interactive");
    reveal_strlit("--into");
    reveal_strlit("--keep-emptied");
    reveal_strlit("--key");
    reveal_strlit("--keyword");
    reveal_strlit("--limit");
    reveal_strlit("--list");
    reveal_strlit("--message");
    reveal_strlit("--name");
    reveal_strlit("--name-only");
    reveal_strlit("--no-colocate");
    reveal_strlit("--no-edit");
    reveal_strlit("--no-graph");
    reveal_strlit("--no-op-diff");
    reveal_strlit("--no-pager");
    reveal_strlit("--no-patch");
    reveal_strlit("--onto");
    reveal_strlit("--op-diff");
    reveal_strlit("--operation");
    reveal_strlit("--overwrite-existing");
    reveal_strlit("--parallel");
    reveal_strlit("--patch");
    reveal_strlit("--pattern");
    reveal_strlit("--push");
    reveal_strlit("--push-url");
    reveal_strlit("--quiet");
    reveal_strlit("--range");
    reveal_strlit("--remote");
    reveal_strlit("--remove");
    reveal_strlit("--repo");
    reveal_strlit("--repository");
    reveal_strlit("--reset-author");
    reveal_strlit("--restore-descendants");
    reveal_strlit("--retain-bookmarks");
    reveal_strlit("--reversed");
    reveal_strlit("--revision");
    reveal_strlit("--skip-emptied");
    reveal_strlit("--sort");
    reveal_strlit("--source");
    reveal_strlit("--sparse-patterns");
    reveal_strlit("--stat");
    reveal_strlit("--summary");
    reveal_strlit("--template");
    reveal_strlit("--to");
    reveal_strlit("--tool");
    reveal_strlit("--tracked");
    reveal_strlit("--types");
    reveal_strlit("--update-author-timestamp");
    reveal_strlit("--update-change-id");
    reveal_strlit("--use-destination-message");
    reveal_strlit("--user");
    reveal_strlit("--what");
    reveal_strlit("--workspace");
}

/// How the subcommand names are spelled: none starts with `-`; their
/// lengths; where two of a length that share a node first differ.
proof fn lemma_name_spellings_0()
    ensures
        is_subcommand_name("abandon"@),
        is_subcommand_name("absorb"@),
        is_subcommand_name("add"@),
        is_subcommand_name("advance"@),
        is_subcommand_name("annotate"@),
        is_subcommand_name("arrange"@),
        is_subcommand_name("bisect"@),
        is_subcommand_name("bookmark"@),
        is_subcommand_name("chmod"@),
        is_subcommand_name("clone"@),
        is_subcommand_name("colocation"@),
        is_subcommand_name("commit"@),
        is_subcommand_name("completion"@),
        is_subcommand_name("config"@),
        is_subcommand_name("config-schema"@),
        is_subcommand_name("create"@),
        is_subcommand_name("delete"@),
        is_subcommand_name("describe"@),
        is_subcommand_name("diff"@),
        is_subcommand_name("diffedit"@),
        is_subcommand_name("disable"@),
        is_subcommand_name("duplicate"@),
        is_subcommand_name("edit"@),
        is_subcommand_name("enable"@),
        is_subcommand_name("evolog"@),
        is_subcommand_name("exec"@),
        is_subcommand_name("export"@),
        is_subcommand_name("fetch"@),
        is_subcommand_name("file"@),
        is_subcommand_name("fix"@),
        is_subcommand_name("forget"@),
        is_subcommand_name("gc"@),
        is_subcommand_name("gerrit"@),
        is_subcommand_name("get"@),
        is_subcommand_name("git"@),
        is_subcommand_name("help"@),
        is_subcommand_name("import"@),
        is_subcommand_name("init"@),
        is_subcommand_name("install-man-pages"@),
        is_subcommand_name("integrate"@),
        is_subcommand_name("interdiff"@),
        is_subcommand_name("list"@),
        is_subcommand_name("log"@),
        is_subcommand_name("markdown-help"@),
        is_subcommand_name("metaedit"@),
        is_subcommand_name("move"@),
        is_subcommand_name("new"@),
        is_subcommand_name("next"@),
        is_subcommand_name("operation"@),
        is_subcommand_name("parallelize"@),
        is_subcommand_name("path"@),
        is_subcommand_name("prev"@),
        is_subcommand_name("push"@),
        is_subcommand_name("rebase"@),
        is_subcommand_name("redo"@),
        is_subcommand_name("remote"@),
        is_subcommand_name("remove"@),
        is_subcommand_name("rename"@),
        is_subcommand_name("reset"@),
        is_subcommand_name("resolve"@),
        is_subcommand_name("restore"@),
        is_subcommand_name("revert"@),
        is_subcommand_name("root"@),
        is_subcommand_name("run"@),
        is_subcommand_name("search"@),
        is_subcommand_name("set"@),
        is_subcommand_name("set-url"@),
        is_subcommand_name("show"@),
        is_subcommand_name("sign"@),
        is_subcommand_name("simplify-parents"@),
        is_subcommand_name("snapshot"@),
        is_subcommand_name("sparse"@),
        is_subcommand_name("split"@),
        is_subcommand_name("squash"@),
        is_subcommand_name("status"@),
        is_subcommand_name("tag"@),
        is_subcommand_name("track"@),
        is_subcommand_name("undo"@),
        is_subcommand_name("unset"@),
        is_subcommand_name("unsign"@),
{
    reveal_strlit("abandon");
    reveal_strlit("absorb");
    reveal_strlit("add");
    reveal_strlit("advance");
    reveal_strlit("annotate");
    reveal_strlit("arrange");
    reveal_strlit("bisect");
    reveal_strlit("bookmark");
    reveal_strlit("chmod");
    reveal_strlit("clone");
    reveal_strlit("colocation");
    reveal_strlit("commit");
    reveal_strlit("completion");
    reveal_strlit("config");
    reveal_strlit("config-schema");
    reveal_strlit("create");
    reveal_strlit("delete");
    reveal_strlit("describe");
    reveal_strlit("diff");
    reveal_strlit("diffedit");
    reveal_strlit("disable");
    reveal_strlit("duplicate");
    reveal_strlit("edit");
    reveal_strlit("enable");
    reveal_strlit("evolog");
    reveal_strlit("exec");
    reveal_strlit("export");
    reveal_strlit("fetch");
    reveal_strlit("file");
    reveal_strlit("fix");
    reveal_strlit("forget");
    reveal_strlit("gc");
    reveal_strlit("gerrit");
    reveal_strlit("get");
    reveal_strlit("git");
    reveal_strlit("help");
    reveal_strlit("import");
    reveal_strlit("init");
    reveal_strlit("install-man-pages");
    reveal_strlit("integrate");
    reveal_strlit("interdiff");
    reveal_strlit("list");
    reveal_strlit("log");
    reveal_strlit("markdown-help");
    reveal_strlit("metaedit");
    reveal_strlit("move");
    reveal_strlit("new");
    reveal_strlit("next");
    reveal_strlit("operation");
    reveal_strlit("parallelize");
    reveal_strlit("path");
    reveal_strlit("prev");
    reveal_strlit("push");
    reveal_strlit("rebase");
    reveal_strlit("redo");
    reveal_strlit("remote");
    reveal_strlit("remove");
    reveal_strlit("rename");
    reveal_strlit("reset");
    reveal_strlit("resolve");
    reveal_strlit("restore");
    reveal_strlit("revert");
    reveal_strlit("root");
    reveal_strlit("run");
    reveal_strlit("search");
    reveal_strlit("set");
    reveal_strlit("set-url");
    reveal_strlit("show");
    reveal_strlit("sign");
    reveal_strlit("simplify-parents");
    reveal_strlit("snapshot");
    reveal_strlit("sparse");
    reveal_strlit("split");
    reveal_strlit("squash");
    reveal_strlit("status");
    reveal_strlit("tag");
    reveal_strlit("track");
    reveal_strlit("undo");
    reveal_strlit("unset");
    reveal_strlit("unsign");
    reveal_strlit("untrack");
    reveal_strlit("update-stale");
    reveal_strlit("upload");
    reveal_strlit("util");
    reveal_strlit("version");
    reveal_strlit("workspace");
}

/// How the subcommand names are spelled: none starts with `-`; their
/// lengths; where two of a length that share a node first differ.
proof fn lemma_name_spellings_1()
    ensures
        is_subcommand_name("untrack"@),
        is_subcommand_name("update-stale"@),
        is_subcommand_name("upload"@),
        is_subcommand_name("util"@),
        is_subcommand_name("version"@),
        is_subcommand_name("workspace"@),
        "abandon"@.len() == 7,
        "absorb"@.len() == 6,
        "add"@.len() == 3,
        "advance"@.len() == 7,
        "annotate"@.len() == 8,
        "arrange"@.len() == 7,
        "bisect"@.len() == 6,
        "bookmark"@.len() == 8,
        "chmod"@.len() == 5,
        "clone"@.len() == 5,
        "colocation"@.len() == 10,
        "commit"@.len() == 6,
        "completion"@.len() == 10,
        "config"@.len() == 6,
        "config-schema"@.len() == 13,
        "create"@.len() == 6,
        "delete"@.len() == 6,
        "describe"@.len() == 8,
        "diff"@.len() == 4,
        "diffedit"@.len() == 8,
        "disable"@.len() == 7,
        "duplicate"@.len() == 9,
        "edit"@.len() == 4,
        "enable"@.len() == 6,
        "evolog"@.len() == 6,
        "exec"@.len() == 4,
        "export"@.len() == 6,
        "fetch"@.len() == 5,
        "file"@.len() == 4,
        "fix"@.len() == 3,
        "forget"@.len() == 6,
        "gc"@.len() == 2,
        "gerrit"@.len() == 6,
        "get"@.len() == 3,
        "git"@.len() == 3,
        "help"@.len() == 4,
        "import"@.len() == 6,
        "init"@.len() == 4,
        "install-man-pages"@.len() == 17,
        "integrate"@.len() == 9,
        "interdiff"@.len() == 9,
        "list"@.len() == 4,
        "log"@.len() == 3,
        "markdown-help"@.len() == 13,
        "metaedit"@.len() == 8,
        "move"@.len() == 4,
        "new"@.len() == 3,
        "next"@.len() == 4,
        "operation"@.len() == 9,
        "parallelize"@.len() == 11,
        "path"@.len() == 4,
        "prev"@.len() == 4,
        "push"@.len() == 4,
        "rebase"@.len() == 6,
        "redo"@.len() == 4,
        "remote"@.len() == 6,
        "remove"@.len() == 6,
        "rename"@.len() == 6,
        "reset"@.len() == 5,
        "resolve"@.len() == 7,
        "restore"@.len() == 7,
        "revert"@.len() == 6,
        "root"@.len() == 4,
        "run"@.len() == 3,
        "search"@.len() == 6,
        "set"@.len() == 3,
        "set-url"@.len() == 7,
        "show"@.len() == 4,
        "sign"@.len() == 4,
        "simplify-parents"@.len() == 16,
        "snapshot"@.len() == 8,
        "sparse"@.len() == 6,
        "split"@.len() == 5,
        "squash"@.len() == 6,
{
    reveal_strlit("abandon");
    reveal_strlit("absorb");
    reveal_strlit("add");
    reveal_strlit("advance");
    reveal_strlit("annotate");
    reveal_strlit("arrange");
    reveal_strlit("bisect");
    reveal_strlit("bookmark");
    reveal_strlit("chmod");
    reveal_strlit("clone");
    reveal_strlit("colocation");
    reveal_strlit("commit");
    reveal_strlit("completion");
    reveal_strlit("config");
    reveal_strlit("config-schema");
    reveal_strlit("create");
    reveal_strlit("delete");
    reveal_strlit("describe");
    reveal_strlit("diff");
    reveal_strlit("diffedit");
    reveal_strlit("disable");
    reveal_strlit("duplicate");
    reveal_strlit("edit");
    reveal_strlit("enable");
    reveal_strlit("evolog");
    reveal_strlit("exec");
    reveal_strlit("export");
    reveal_strlit("fetch");
    reveal_strlit("file");
    reveal_strlit("fix");
    reveal_strlit("forget");
    reveal_strlit("gc");
    reveal_strlit("gerrit");
    reveal_strlit("get");
    reveal_strlit("git");
    reveal_strlit("help");
    reveal_strlit("import");
    reveal_strlit("init");
    reveal_strlit("install-man-pages");
    reveal_strlit("integrate");
    reveal_strlit("interdiff");
    reveal_strlit("list");
    reveal_strlit("log");
    reveal_strlit("markdown-help");
    reveal_strlit("metaedit");
    reveal_strlit("move");
    reveal_strlit("new");
    reveal_strlit("next");
    reveal_strlit("operation");
    reveal_strlit("parallelize");
    reveal_strlit("path");
    reveal_strlit("prev");
    reveal_strlit("push");
    reveal_strlit("rebase");
    reveal_strlit("redo");
    reveal_strlit("remote");
    reveal_strlit("remove");
    reveal_strlit("rename");
    reveal_strlit("reset");
    reveal_strlit("resolve");
    reveal_strlit("restore");
    reveal_strlit("revert");
    reveal_strlit("root");
    reveal_strlit("run");
    reveal_strlit("search");
    reveal_strlit("set");
    reveal_strlit("set-url");
    reveal_strlit("show");
    reveal_strlit("sign");
    reveal_strlit("simplify-parents");
    reveal_strlit("snapshot");
    reveal_strlit("sparse");
    reveal_strlit("split");
    reveal_strlit("squash");
    reveal_strlit("status");
    reveal_strlit("tag");
    reveal_strlit("track");
    reveal_strlit("undo");
    reveal_strlit("unset");
    reveal_strlit("unsign");
    reveal_strlit("untrack");
    reveal_strlit("update-stale");
    reveal_strlit("upload");
    reveal_strlit("util");
    reveal_strlit("version");
    reveal_strlit("workspace");
}

/// How the subcommand names are spelled: none starts with `-`; their
/// lengths; where two of a length that share a node first differ.
proof fn lemma_name_spellings_2()
    ensures
        "status"@.len() == 6,
        "tag"@.len() == 3,
        "track"@.len() == 5,
        "undo"@.len() == 4,
        "unset"@.len() == 5,
        "unsign"@.len() == 6,
        "untrack"@.len() == 7,
        "update-stale"@.len() == 12,
        "upload"@.len() == 6,
        "util"@.len() == 4,
        "version"@.len() == 7,
        "workspace"@.len() == 9,
        "abandon"@[1] != "arrange"@[1],
        "abandon"@[0] != "resolve"@[0],
        "abandon"@[0] != "restore"@[0],
        "abandon"@[0] != "version"@[0],
        "absorb"@[0] != "bisect"@[0],
        "absorb"@[0] != "commit"@[0],
        "absorb"@[0] != "config"@[0],
        "absorb"@[0] != "evolog"@[0],
        "absorb"@[0] != "gerrit"@[0],
        "absorb"@[0] != "rebase"@[0],
        "absorb"@[0] != "revert"@[0],
        "absorb"@[0] != "sparse"@[0],
        "absorb"@[0] != "squash"@[0],
        "absorb"@[0] != "status"@[0],
        "absorb"@[0] != "unsign"@[0],
        "advance"@[0] != "untrack"@[0],
        "arrange"@[0] != "resolve"@[0],
        "arrange"@[0] != "restore"@[0],
        "arrange"@[0] != "version"@[0],
        "bisect"@[0] != "commit"@[0],
        "bisect"@[0] != "config"@[0],
        "bisect"@[0] != "evolog"@[0],
        "bisect"@[0] != "gerrit"@[0],
        "bisect"@[0] != "rebase"@[0],
        "bisect"@[0] != "revert"@[0],
        "bisect"@[0] != "sparse"@[0],
        "bisect"@[0] != "squash"@[0],
        "bisect"@[0] != "status"@[0],
        "bisect"@[0] != "unsign"@[0],
        "bookmark"@[0] != "describe"@[0],
        "bookmark"@[0] != "diffedit"@[0],
        "bookmark"@[0] != "metaedit"@[0],
        "chmod"@[0] != "track"@[0],
        "clone"@[0] != "fetch"@[0],
        "commit"@[2] != "config"@[2],
        "commit"@[0] != "evolog"@[0],
        "commit"@[0] != "gerrit"@[0],
        "commit"@[0] != "rebase"@[0],
        "commit"@[0] != "revert"@[0],
        "commit"@[0] != "sparse"@[0],
        "commit"@[0] != "squash"@[0],
        "commit"@[0] != "status"@[0],
        "commit"@[0] != "unsign"@[0],
        "config"@[0] != "evolog"@[0],
        "config"@[0] != "gerrit"@[0],
        "config"@[0] != "rebase"@[0],
        "config"@[0] != "revert"@[0],
        "config"@[0] != "sparse"@[0],
        "config"@[0] != "squash"@[0],
        "config"@[0] != "status"@[0],
        "config"@[0] != "unsign"@[0],
        "config-schema"@[0] != "markdown-help"@[0],
        "create"@[0] != "delete"@[0],
        "create"@[0] != "forget"@[0],
        "create"@[0] != "rename"@[0],
        "delete"@[0] != "forget"@[0],
        "delete"@[0] != "rename"@[0],
        "describe"@[1] != "diffedit"@[1],
        "describe"@[0] != "metaedit"@[0],
        "diff"@[0] != "edit"@[0],
        "diff"@[0] != "file"@[0],
        "diff"@[0] != "help"@[0],
        "diff"@[0] != "next"@[0],
        "diff"@[0] != "prev"@[0],
        "diff"@[0] != "redo"@[0],
        "diff"@[0] != "root"@[0],
        "diff"@[0] != "show"@[0],
        "diff"@[0] != "sign"@[0],
{
    reveal_strlit("abandon");
    reveal_strlit("absorb");
    reveal_strlit("add");
    reveal_strlit("advance");
    reveal_strlit("annotate");
    reveal_strlit("arrange");
    reveal_strlit("bisect");
    reveal_strlit("bookmark");
    reveal_strlit("chmod");
    reveal_strlit("clone");
    reveal_strlit("colocation");
    reveal_strlit("commit");
    reveal_strlit("completion");
    reveal_strlit("config");
    reveal_strlit("config-schema");
    reveal_strlit("create");
    reveal_strlit("delete");
    reveal_strlit("describe");
    reveal_strlit("diff");
    reveal_strlit("diffedit");
    reveal_strlit("disable");
    reveal_strlit("duplicate");
    reveal_strlit("edit");
    reveal_strlit("enable");
    reveal_strlit("evolog");
    reveal_strlit("exec");
    reveal_strlit("export");
    reveal_strlit("fetch");
    reveal_strlit("file");
    reveal_strlit("fix");
    reveal_strlit("forget");
    reveal_strlit("gc");
    reveal_strlit("gerrit");
    reveal_strlit("get");
    reveal_strlit("git");
    reveal_strlit("help");
    reveal_strlit("import");
    reveal_strlit("init");
    reveal_strlit("install-man-pages");
    reveal_strlit("integrate");
    reveal_strlit("interdiff");
    reveal_strlit("list");
    reveal_strlit("log");
    reveal_strlit("markdown-help");
    reveal_strlit("metaedit");
    reveal_strlit("move");
    reveal_strlit("new");
    reveal_strlit("next");
    reveal_strlit("operation");
    reveal_strlit("parallelize");
    reveal_strlit("path");
    reveal_strlit("prev");
    reveal_strlit("push");
    reveal_strlit("rebase");
    reveal_strlit("redo");
    reveal_strlit("remote");
    reveal_strlit("remove");
    reveal_strlit("rename");
    reveal_strlit("reset");
    reveal_strlit("resolve");
    reveal_strlit("restore");
    reveal_strlit("revert");
    reveal_strlit("root");
    reveal_strlit("run");
    reveal_strlit("search");
    reveal_strlit("set");
    reveal_strlit("set-url");
    reveal_strlit("show");
    reveal_strlit("sign");
    reveal_strlit("simplify-parents");
    reveal_strlit("snapshot");
    reveal_strlit("sparse");
    reveal_strlit("split");
    reveal_strlit("squash");
    reveal_strlit("status");
    reveal_strlit("tag");
    reveal_strlit("track");
    reveal_strlit("undo");
    reveal_strlit("unset");
    reveal_strlit("unsign");
    reveal_strlit("untrack");
    reveal_strlit("update-stale");
    reveal_strlit("upload");
    reveal_strlit("util");
    reveal_strlit("version");
    reveal_strlit("workspace");
}

/// How the subcommand names are spelled: none starts with `-`; their
/// lengths; where two of a length that share a node first differ.
proof fn lemma_name_spellings_3()
    ensures
        "diff"@[0] != "undo"@[0],
        "diff"@[0] != "util"@[0],
        "diffedit"@[0] != "metaedit"@[0],
        "duplicate"@[0] != "interdiff"@[0],
        "duplicate"@[0] != "operation"@[0],
        "duplicate"@[0] != "workspace"@[0],
        "edit"@[0] != "file"@[0],
        "edit"@[0] != "help"@[0],
        "edit"@[0] != "list"@[0],
        "edit"@[0] != "next"@[0],
        "edit"@[0] != "path"@[0],
        "edit"@[0] != "prev"@[0],
        "edit"@[0] != "redo"@[0],
        "edit"@[0] != "root"@[0],
        "edit"@[0] != "show"@[0],
        "edit"@[0] != "sign"@[0],
        "edit"@[0] != "undo"@[0],
        "edit"@[0] != "util"@[0],
        "enable"@[0] != "status"@[0],
        "evolog"@[0] != "gerrit"@[0],
        "evolog"@[0] != "rebase"@[0],
        "evolog"@[0] != "revert"@[0],
        "evolog"@[0] != "sparse"@[0],
        "evolog"@[0] != "squash"@[0],
        "evolog"@[0] != "status"@[0],
        "evolog"@[0] != "unsign"@[0],
        "export"@[0] != "import"@[0],
        "export"@[0] != "remote"@[0],
        "file"@[0] != "help"@[0],
        "file"@[0] != "next"@[0],
        "file"@[0] != "prev"@[0],
        "file"@[0] != "redo"@[0],
        "file"@[0] != "root"@[0],
        "file"@[0] != "show"@[0],
        "file"@[0] != "sign"@[0],
        "file"@[0] != "undo"@[0],
        "file"@[0] != "util"@[0],
        "fix"@[0] != "git"@[0],
        "fix"@[0] != "log"@[0],
        "fix"@[0] != "new"@[0],
        "fix"@[0] != "tag"@[0],
        "forget"@[0] != "rename"@[0],
        "gerrit"@[0] != "rebase"@[0],
        "gerrit"@[0] != "revert"@[0],
        "gerrit"@[0] != "sparse"@[0],
        "gerrit"@[0] != "squash"@[0],
        "gerrit"@[0] != "status"@[0],
        "gerrit"@[0] != "unsign"@[0],
        "get"@[0] != "set"@[0],
        "git"@[0] != "log"@[0],
        "git"@[0] != "new"@[0],
        "git"@[0] != "tag"@[0],
        "help"@[0] != "next"@[0],
        "help"@[0] != "prev"@[0],
        "help"@[0] != "redo"@[0],
        "help"@[0] != "root"@[0],
        "help"@[0] != "show"@[0],
        "help"@[0] != "sign"@[0],
        "help"@[0] != "undo"@[0],
        "help"@[0] != "util"@[0],
        "import"@[0] != "remote"@[0],
        "init"@[0] != "push"@[0],
        "init"@[0] != "root"@[0],
        "interdiff"@[0] != "operation"@[0],
        "interdiff"@[0] != "workspace"@[0],
        "list"@[0] != "move"@[0],
        "list"@[0] != "path"@[0],
        "list"@[0] != "root"@[0],
        "list"@[0] != "show"@[0],
        "log"@[0] != "new"@[0],
        "log"@[0] != "tag"@[0],
        "new"@[0] != "tag"@[0],
        "next"@[0] != "prev"@[0],
        "next"@[0] != "redo"@[0],
        "next"@[0] != "root"@[0],
        "next"@[0] != "show"@[0],
        "next"@[0] != "sign"@[0],
        "next"@[0] != "undo"@[0],
        "next"@[0] != "util"@[0],
        "operation"@[0] != "workspace"@[0],
{
    reveal_strlit("abandon");
    reveal_strlit("absorb");
    reveal_strlit("add");
    reveal_strlit("advance");
    reveal_strlit("annotate");
    reveal_strlit("arrange");
    reveal_strlit("bisect");
    reveal_strlit("bookmark");
    reveal_strlit("chmod");
    reveal_strlit("clone");
    reveal_strlit("colocation");
    reveal_strlit("commit");
    reveal_strlit("completion");
    reveal_strlit("config");
    reveal_strlit("config-schema");
    reveal_strlit("create");
    reveal_strlit("delete");
    reveal_strlit("describe");
    reveal_strlit("diff");
    reveal_strlit("diffedit");
    reveal_strlit("disable");
    reveal_strlit("duplicate");
    reveal_strlit("edit");
    reveal_strlit("enable");
    reveal_strlit("evolog");
    reveal_strlit("exec");
    reveal_strlit("export");
    reveal_strlit("fetch");
    reveal_strlit("file");
    reveal_strlit("fix");
    reveal_strlit("forget");
    reveal_strlit("gc");
    reveal_strlit("gerrit");
    reveal_strlit("get");
    reveal_strlit("git");
    reveal_strlit("help");
    reveal_strlit("import");
    reveal_strlit("init");
    reveal_strlit("install-man-pages");
    reveal_strlit("integrate");
    reveal_strlit("interdiff");
    reveal_strlit("list");
    reveal_strlit("log");
    reveal_strlit("markdown-help");
    reveal_strlit("metaedit");
    reveal_strlit("move");
    reveal_strlit("new");
    reveal_strlit("next");
    reveal_strlit("operation");
    reveal_strlit("parallelize");
    reveal_strlit("path");
    reveal_strlit("prev");
    reveal_strlit("push");
    reveal_strlit("rebase");
    reveal_strlit("redo");
    reveal_strlit("remote");
    reveal_strlit("remove");
    reveal_strlit("rename");
    reveal_strlit("reset");
    reveal_strlit("resolve");
    reveal_strlit("restore");
    reveal_strlit("revert");
    reveal_strlit("root");
    reveal_strlit("run");
    reveal_strlit("search");
    reveal_strlit("set");
    reveal_strlit("set-url");
    reveal_strlit("show");
    reveal_strlit("sign");
    reveal_strlit("simplify-parents");
    reveal_strlit("snapshot");
    reveal_strlit("sparse");
    reveal_strlit("split");
    reveal_strlit("squash");
    reveal_strlit("status");
    reveal_strlit("tag");
    reveal_strlit("track");
    reveal_strlit("undo");
    reveal_strlit("unset");
    reveal_strlit("unsign");
    reveal_strlit("untrack");
    reveal_strlit("update-stale");
    reveal_strlit("upload");
    reveal_strlit("util");
    reveal_strlit("version");
    reveal_strlit("workspace");
}

/// How the subcommand names are spelled: none starts with `-`; their
/// lengths; where two of a length that share a node first differ.
proof fn lemma_name_spellings_4()
    ensures
        "prev"@[0] != "redo"@[0],
        "prev"@[0] != "root"@[0],
        "prev"@[0] != "show"@[0],
        "prev"@[0] != "sign"@[0],
        "prev"@[0] != "undo"@[0],
        "prev"@[0] != "util"@[0],
        "push"@[0] != "root"@[0],
        "rebase"@[2] != "revert"@[2],
        "rebase"@[0] != "sparse"@[0],
        "rebase"@[0] != "squash"@[0],
        "rebase"@[0] != "status"@[0],
        "rebase"@[0] != "unsign"@[0],
        "redo"@[1] != "root"@[1],
        "redo"@[0] != "show"@[0],
        "redo"@[0] != "sign"@[0],
        "redo"@[0] != "undo"@[0],
        "redo"@[0] != "util"@[0],
        "remove"@[2] != "rename"@[2],
        "resolve"@[3] != "restore"@[3],
        "resolve"@[0] != "version"@[0],
        "restore"@[0] != "version"@[0],
        "revert"@[0] != "sparse"@[0],
        "revert"@[0] != "squash"@[0],
        "revert"@[0] != "status"@[0],
        "revert"@[0] != "unsign"@[0],
        "root"@[0] != "show"@[0],
        "root"@[0] != "sign"@[0],
        "root"@[0] != "undo"@[0],
        "root"@[0] != "util"@[0],
        "show"@[1] != "sign"@[1],
        "show"@[0] != "undo"@[0],
        "show"@[0] != "util"@[0],
        "sign"@[0] != "undo"@[0],
        "sign"@[0] != "util"@[0],
        "sparse"@[1] != "squash"@[1],
        "sparse"@[1] != "status"@[1],
        "sparse"@[0] != "unsign"@[0],
        "squash"@[1] != "status"@[1],
        "squash"@[0] != "unsign"@[0],
        "status"@[0] != "unsign"@[0],
        "undo"@[1] != "util"@[1],
{
    reveal_strlit("abandon");
    reveal_strlit("absorb");
    reveal_strlit("add");
    reveal_strlit("advance");
    reveal_strlit("annotate");
    reveal_strlit("arrange");
    reveal_strlit("bisect");
    reveal_strlit("bookmark");
    reveal_strlit("chmod");
    reveal_strlit("clone");
    reveal_strlit("colocation");
    reveal_strlit("commit");
    reveal_strlit("completion");
    reveal_strlit("config");
    reveal_strlit("config-schema");
    reveal_strlit("create");
    reveal_strlit("delete");
    reveal_strlit("describe");
    reveal_strlit("diff");
    reveal_strlit("diffedit");
    reveal_strlit("disable");
    reveal_strlit("duplicate");
    reveal_strlit("edit");
    reveal_strlit("enable");
    reveal_strlit("evolog");
    reveal_strlit("exec");
    reveal_strlit("export");
    reveal_strlit("fetch");
    reveal_strlit("file");
    reveal_strlit("fix");
    reveal_strlit("forget");
    reveal_strlit("gc");
    reveal_strlit("gerrit");
    reveal_strlit("get");
    reveal_strlit("git");
    reveal_strlit("help");
    reveal_strlit("import");
    reveal_strlit("init");
    reveal_strlit("install-man-pages");
    reveal_strlit("integrate");
    reveal_strlit("interdiff");
    reveal_strlit("list");
    reveal_strlit("log");
    reveal_strlit("markdown-help");
    reveal_strlit("metaedit");
    reveal_strlit("move");
    reveal_strlit("new");
    reveal_strlit("next");
    reveal_strlit("operation");
    reveal_strlit("parallelize");
    reveal_strlit("path");
    reveal_strlit("prev");
    reveal_strlit("push");
    reveal_strlit("rebase");
    reveal_strlit("redo");
    reveal_strlit("remote");
    reveal_strlit("remove");
    reveal_strlit("rename");
    reveal_strlit("reset");
    reveal_strlit("resolve");
    reveal_strlit("restore");
    reveal_strlit("revert");
    reveal_strlit("root");
    reveal_strlit("run");
    reveal_strlit("search");
    reveal_strlit("set");
    reveal_strlit("set-url");
    reveal_strlit("show");
    reveal_strlit("sign");
    reveal_strlit("simplify-parents");
    reveal_strlit("snapshot");
    reveal_strlit("sparse");
    reveal_strlit("split");
    reveal_strlit("squash");
    reveal_strlit("status");
    reveal_strlit("tag");
    reveal_strlit("track");
    reveal_strlit("undo");
    reveal_strlit("unset");
    reveal_strlit("unsign");
    reveal_strlit("untrack");
    reveal_strlit("update-stale");
    reveal_strlit("upload");
    reveal_strlit("util");
    reveal_strlit("version");
    reveal_strlit("workspace");
}

/// Subcommand names that share a node differ.
proof fn lemma_names_apart_0()
    ensures
        "abandon"@ != "absorb"@,
        "abandon"@ != "arrange"@,
        "abandon"@ != "bisect"@,
        "abandon"@ != "bookmark"@,
        "abandon"@ != "commit"@,
        "abandon"@ != "config"@,
        "abandon"@ != "describe"@,
        "abandon"@ != "diff"@,
        "abandon"@ != "diffedit"@,
        "abandon"@ != "duplicate"@,
        "abandon"@ != "edit"@,
        "abandon"@ != "evolog"@,
        "abandon"@ != "file"@,
        "abandon"@ != "fix"@,
        "abandon"@ != "gerrit"@,
        "abandon"@ != "git"@,
        "abandon"@ != "help"@,
        "abandon"@ != "integrate"@,
        "abandon"@ != "interdiff"@,
        "abandon"@ != "log"@,
        "abandon"@ != "metaedit"@,
        "abandon"@ != "new"@,
        "abandon"@ != "next"@,
        "abandon"@ != "operation"@,
        "abandon"@ != "parallelize"@,
        "abandon"@ != "prev"@,
        "abandon"@ != "rebase"@,
        "abandon"@ != "redo"@,
        "abandon"@ != "resolve"@,
        "abandon"@ != "restore"@,
        "abandon"@ != "revert"@,
        "abandon"@ != "root"@,
        "abandon"@ != "show"@,
        "abandon"@ != "sign"@,
        "abandon"@ != "simplify-parents"@,
        "abandon"@ != "sparse"@,
        "abandon"@ != "split"@,
        "abandon"@ != "squash"@,
        "abandon"@ != "status"@,
        "abandon"@ != "tag"@,
        "abandon"@ != "undo"@,
        "abandon"@ != "unsign"@,
        "abandon"@ != "util"@,
        "abandon"@ != "version"@,
        "abandon"@ != "workspace"@,
        "absorb"@ != "arrange"@,
        "absorb"@ != "bisect"@,
        "absorb"@ != "bookmark"@,
        "absorb"@ != "commit"@,
        "absorb"@ != "config"@,
        "absorb"@ != "describe"@,
        "absorb"@ != "diff"@,
        "absorb"@ != "diffedit"@,
        "absorb"@ != "duplicate"@,
        "absorb"@ != "edit"@,
        "absorb"@ != "evolog"@,
        "absorb"@ != "file"@,
        "absorb"@ != "fix"@,
        "absorb"@ != "gerrit"@,
        "absorb"@ != "git"@,
        "absorb"@ != "help"@,
        "absorb"@ != "interdiff"@,
        "absorb"@ != "log"@,
        "absorb"@ != "metaedit"@,
        "absorb"@ != "new"@,
        "absorb"@ != "next"@,
        "absorb"@ != "operation"@,
        "absorb"@ != "parallelize"@,
        "absorb"@ != "prev"@,
        "absorb"@ != "rebase"@,
        "absorb"@ != "redo"@,
        "absorb"@ != "resolve"@,
        "absorb"@ != "restore"@,
        "absorb"@ != "revert"@,
        "absorb"@ != "root"@,
        "absorb"@ != "show"@,
        "absorb"@ != "sign"@,
        "absorb"@ != "simplify-parents"@,
        "absorb"@ != "sparse"@,
        "absorb"@ != "split"@,
        "absorb"@ != "squash"@,
        "absorb"@ != "status"@,
        "absorb"@ != "tag"@,
        "absorb"@ != "undo"@,
        "absorb"@ != "unsign"@,
        "absorb"@ != "util"@,
        "absorb"@ != "version"@,
        "absorb"@ != "workspace"@,
        "add"@ != "forget"@,
        "add"@ != "list"@,
        "add"@ != "remove"@,
        "add"@ != "rename"@,
        "add"@ != "root"@,
        "add"@ != "set-url"@,
        "add"@ != "update-stale"@,
        "advance"@ != "create"@,
        "advance"@ != "delete"@,
        "advance"@ != "forget"@,
        "advance"@ != "list"@,
        "advance"@ != "move"@,
{
    lemma_name_spellings_0();
    lemma_name_spellings_1();
    lemma_name_spellings_2();
    lemma_name_spellings_3();
    lemma_name_spellings_4();
}

/// Subcommand names that share a node differ.
proof fn lemma_names_apart_1()
    ensures
        "advance"@ != "rename"@,
        "advance"@ != "set"@,
        "advance"@ != "track"@,
        "advance"@ != "untrack"@,
        "annotate"@ != "chmod"@,
        "annotate"@ != "list"@,
        "annotate"@ != "search"@,
        "annotate"@ != "show"@,
        "annotate"@ != "track"@,
        "annotate"@ != "untrack"@,
        "arrange"@ != "bisect"@,
        "arrange"@ != "bookmark"@,
        "arrange"@ != "commit"@,
        "arrange"@ != "config"@,
        "arrange"@ != "describe"@,
        "arrange"@ != "diff"@,
        "arrange"@ != "diffedit"@,
        "arrange"@ != "duplicate"@,
        "arrange"@ != "edit"@,
        "arrange"@ != "evolog"@,
        "arrange"@ != "file"@,
        "arrange"@ != "fix"@,
        "arrange"@ != "gerrit"@,
        "arrange"@ != "git"@,
        "arrange"@ != "help"@,
        "arrange"@ != "interdiff"@,
        "arrange"@ != "log"@,
        "arrange"@ != "metaedit"@,
        "arrange"@ != "new"@,
        "arrange"@ != "next"@,
        "arrange"@ != "operation"@,
        "arrange"@ != "parallelize"@,
        "arrange"@ != "prev"@,
        "arrange"@ != "rebase"@,
        "arrange"@ != "redo"@,
        "arrange"@ != "resolve"@,
        "arrange"@ != "restore"@,
        "arrange"@ != "revert"@,
        "arrange"@ != "root"@,
        "arrange"@ != "show"@,
        "arrange"@ != "sign"@,
        "arrange"@ != "simplify-parents"@,
        "arrange"@ != "sparse"@,
        "arrange"@ != "split"@,
        "arrange"@ != "squash"@,
        "arrange"@ != "status"@,
        "arrange"@ != "tag"@,
        "arrange"@ != "undo"@,
        "arrange"@ != "unsign"@,
        "arrange"@ != "util"@,
        "arrange"@ != "version"@,
        "arrange"@ != "workspace"@,
        "bisect"@ != "bookmark"@,
        "bisect"@ != "commit"@,
        "bisect"@ != "config"@,
        "bisect"@ != "describe"@,
        "bisect"@ != "diff"@,
        "bisect"@ != "diffedit"@,
        "bisect"@ != "duplicate"@,
        "bisect"@ != "edit"@,
        "bisect"@ != "evolog"@,
        "bisect"@ != "file"@,
        "bisect"@ != "fix"@,
        "bisect"@ != "gerrit"@,
        "bisect"@ != "git"@,
        "bisect"@ != "help"@,
        "bisect"@ != "interdiff"@,
        "bisect"@ != "log"@,
        "bisect"@ != "metaedit"@,
        "bisect"@ != "new"@,
        "bisect"@ != "next"@,
        "bisect"@ != "operation"@,
        "bisect"@ != "parallelize"@,
        "bisect"@ != "prev"@,
        "bisect"@ != "rebase"@,
        "bisect"@ != "redo"@,
        "bisect"@ != "resolve"@,
        "bisect"@ != "restore"@,
        "bisect"@ != "revert"@,
        "bisect"@ != "root"@,
        "bisect"@ != "show"@,
        "bisect"@ != "sign"@,
        "bisect"@ != "simplify-parents"@,
        "bisect"@ != "sparse"@,
        "bisect"@ != "split"@,
        "bisect"@ != "squash"@,
        "bisect"@ != "status"@,
        "bisect"@ != "tag"@,
        "bisect"@ != "undo"@,
        "bisect"@ != "unsign"@,
        "bisect"@ != "util"@,
        "bisect"@ != "version"@,
        "bisect"@ != "workspace"@,
        "bookmark"@ != "commit"@,
        "bookmark"@ != "config"@,
        "bookmark"@ != "describe"@,
        "bookmark"@ != "diff"@,
        "bookmark"@ != "diffedit"@,
        "bookmark"@ != "duplicate"@,
        "bookmark"@ != "edit"@,
{
    lemma_name_spellings_0();
    lemma_name_spellings_1();
    lemma_name_spellings_2();
    lemma_name_spellings_3();
    lemma_name_spellings_4();
}

/// Subcommand names that share a node differ.
proof fn lemma_names_apart_2()
    ensures
        "bookmark"@ != "evolog"@,
        "bookmark"@ != "file"@,
        "bookmark"@ != "fix"@,
        "bookmark"@ != "gerrit"@,
        "bookmark"@ != "git"@,
        "bookmark"@ != "help"@,
        "bookmark"@ != "interdiff"@,
        "bookmark"@ != "log"@,
        "bookmark"@ != "metaedit"@,
        "bookmark"@ != "new"@,
        "bookmark"@ != "next"@,
        "bookmark"@ != "operation"@,
        "bookmark"@ != "parallelize"@,
        "bookmark"@ != "prev"@,
        "bookmark"@ != "rebase"@,
        "bookmark"@ != "redo"@,
        "bookmark"@ != "resolve"@,
        "bookmark"@ != "restore"@,
        "bookmark"@ != "revert"@,
        "bookmark"@ != "root"@,
        "bookmark"@ != "show"@,
        "bookmark"@ != "sign"@,
        "bookmark"@ != "simplify-parents"@,
        "bookmark"@ != "sparse"@,
        "bookmark"@ != "split"@,
        "bookmark"@ != "squash"@,
        "bookmark"@ != "status"@,
        "bookmark"@ != "tag"@,
        "bookmark"@ != "undo"@,
        "bookmark"@ != "unsign"@,
        "bookmark"@ != "util"@,
        "bookmark"@ != "version"@,
        "bookmark"@ != "workspace"@,
        "chmod"@ != "list"@,
        "chmod"@ != "search"@,
        "chmod"@ != "show"@,
        "chmod"@ != "track"@,
        "chmod"@ != "untrack"@,
        "clone"@ != "colocation"@,
        "clone"@ != "export"@,
        "clone"@ != "fetch"@,
        "clone"@ != "import"@,
        "clone"@ != "init"@,
        "clone"@ != "push"@,
        "clone"@ != "remote"@,
        "clone"@ != "root"@,
        "colocation"@ != "export"@,
        "colocation"@ != "fetch"@,
        "colocation"@ != "import"@,
        "colocation"@ != "init"@,
        "colocation"@ != "push"@,
        "colocation"@ != "remote"@,
        "colocation"@ != "root"@,
        "commit"@ != "config"@,
        "commit"@ != "describe"@,
        "commit"@ != "diff"@,
        "commit"@ != "diffedit"@,
        "commit"@ != "duplicate"@,
        "commit"@ != "edit"@,
        "commit"@ != "evolog"@,
        "commit"@ != "file"@,
        "commit"@ != "fix"@,
        "commit"@ != "gerrit"@,
        "commit"@ != "git"@,
        "commit"@ != "help"@,
        "commit"@ != "interdiff"@,
        "commit"@ != "log"@,
        "commit"@ != "metaedit"@,
        "commit"@ != "new"@,
        "commit"@ != "next"@,
        "commit"@ != "operation"@,
        "commit"@ != "parallelize"@,
        "commit"@ != "prev"@,
        "commit"@ != "rebase"@,
        "commit"@ != "redo"@,
        "commit"@ != "resolve"@,
        "commit"@ != "restore"@,
        "commit"@ != "revert"@,
        "commit"@ != "root"@,
        "commit"@ != "show"@,
        "commit"@ != "sign"@,
        "commit"@ != "simplify-parents"@,
        "commit"@ != "sparse"@,
        "commit"@ != "split"@,
        "commit"@ != "squash"@,
        "commit"@ != "status"@,
        "commit"@ != "tag"@,
        "commit"@ != "undo"@,
        "commit"@ != "unsign"@,
        "commit"@ != "util"@,
        "commit"@ != "version"@,
        "commit"@ != "workspace"@,
        "completion"@ != "config-schema"@,
        "completion"@ != "exec"@,
        "completion"@ != "gc"@,
        "completion"@ != "install-man-pages"@,
        "completion"@ != "markdown-help"@,
        "completion"@ != "snapshot"@,
        "config"@ != "describe"@,
        "config"@ != "diff"@,
{
    lemma_name_spellings_0();
    lemma_name_spellings_1();
    lemma_name_spellings_2();
    lemma_name_spellings_3();
    lemma_name_spellings_4();
}

/// Subcommand names that share a node differ.
proof fn lemma_names_apart_3()
    ensures
        "config"@ != "diffedit"@,
        "config"@ != "duplicate"@,
        "config"@ != "edit"@,
        "config"@ != "evolog"@,
        "config"@ != "file"@,
        "config"@ != "fix"@,
        "config"@ != "gerrit"@,
        "config"@ != "git"@,
        "config"@ != "help"@,
        "config"@ != "interdiff"@,
        "config"@ != "log"@,
        "config"@ != "metaedit"@,
        "config"@ != "new"@,
        "config"@ != "next"@,
        "config"@ != "operation"@,
        "config"@ != "parallelize"@,
        "config"@ != "prev"@,
        "config"@ != "rebase"@,
        "config"@ != "redo"@,
        "config"@ != "resolve"@,
        "config"@ != "restore"@,
        "config"@ != "revert"@,
        "config"@ != "root"@,
        "config"@ != "show"@,
        "config"@ != "sign"@,
        "config"@ != "simplify-parents"@,
        "config"@ != "sparse"@,
        "config"@ != "split"@,
        "config"@ != "squash"@,
        "config"@ != "status"@,
        "config"@ != "tag"@,
        "config"@ != "undo"@,
        "config"@ != "unsign"@,
        "config"@ != "util"@,
        "config"@ != "version"@,
        "config"@ != "workspace"@,
        "config-schema"@ != "exec"@,
        "config-schema"@ != "gc"@,
        "config-schema"@ != "install-man-pages"@,
        "config-schema"@ != "markdown-help"@,
        "config-schema"@ != "snapshot"@,
        "create"@ != "delete"@,
        "create"@ != "forget"@,
        "create"@ != "list"@,
        "create"@ != "move"@,
        "create"@ != "rename"@,
        "create"@ != "set"@,
        "create"@ != "track"@,
        "create"@ != "untrack"@,
        "delete"@ != "forget"@,
        "delete"@ != "list"@,
        "delete"@ != "move"@,
        "delete"@ != "rename"@,
        "delete"@ != "set"@,
        "delete"@ != "track"@,
        "delete"@ != "untrack"@,
        "describe"@ != "diff"@,
        "describe"@ != "diffedit"@,
        "describe"@ != "duplicate"@,
        "describe"@ != "edit"@,
        "describe"@ != "evolog"@,
        "describe"@ != "file"@,
        "describe"@ != "fix"@,
        "describe"@ != "gerrit"@,
        "describe"@ != "git"@,
        "describe"@ != "help"@,
        "describe"@ != "interdiff"@,
        "describe"@ != "log"@,
        "describe"@ != "metaedit"@,
        "describe"@ != "new"@,
        "describe"@ != "next"@,
        "describe"@ != "operation"@,
        "describe"@ != "parallelize"@,
        "describe"@ != "prev"@,
        "describe"@ != "rebase"@,
        "describe"@ != "redo"@,
        "describe"@ != "resolve"@,
        "describe"@ != "restore"@,
        "describe"@ != "revert"@,
        "describe"@ != "root"@,
        "describe"@ != "show"@,
        "describe"@ != "sign"@,
        "describe"@ != "simplify-parents"@,
        "describe"@ != "sparse"@,
        "describe"@ != "split"@,
        "describe"@ != "squash"@,
        "describe"@ != "status"@,
        "describe"@ != "tag"@,
        "describe"@ != "undo"@,
        "describe"@ != "unsign"@,
        "describe"@ != "util"@,
        "describe"@ != "version"@,
        "describe"@ != "workspace"@,
        "diff"@ != "diffedit"@,
        "diff"@ != "duplicate"@,
        "diff"@ != "edit"@,
        "diff"@ != "evolog"@,
        "diff"@ != "file"@,
        "diff"@ != "fix"@,
        "diff"@ != "gerrit"@,
{
    lemma_name_spellings_0();
    lemma_name_spellings_1();
    lemma_name_spellings_2();
    lemma_name_spellings_3();
    lemma_name_spellings_4();
}

/// Subcommand names that share a node differ.
proof fn lemma_names_apart_4()
    ensures
        "diff"@ != "git"@,
        "diff"@ != "help"@,
        "diff"@ != "integrate"@,
        "diff"@ != "interdiff"@,
        "diff"@ != "log"@,
        "diff"@ != "metaedit"@,
        "diff"@ != "new"@,
        "diff"@ != "next"@,
        "diff"@ != "operation"@,
        "diff"@ != "parallelize"@,
        "diff"@ != "prev"@,
        "diff"@ != "rebase"@,
        "diff"@ != "redo"@,
        "diff"@ != "resolve"@,
        "diff"@ != "restore"@,
        "diff"@ != "revert"@,
        "diff"@ != "root"@,
        "diff"@ != "show"@,
        "diff"@ != "sign"@,
        "diff"@ != "simplify-parents"@,
        "diff"@ != "sparse"@,
        "diff"@ != "split"@,
        "diff"@ != "squash"@,
        "diff"@ != "status"@,
        "diff"@ != "tag"@,
        "diff"@ != "undo"@,
        "diff"@ != "unsign"@,
        "diff"@ != "util"@,
        "diff"@ != "version"@,
        "diff"@ != "workspace"@,
        "diffedit"@ != "duplicate"@,
        "diffedit"@ != "edit"@,
        "diffedit"@ != "evolog"@,
        "diffedit"@ != "file"@,
        "diffedit"@ != "fix"@,
        "diffedit"@ != "gerrit"@,
        "diffedit"@ != "git"@,
        "diffedit"@ != "help"@,
        "diffedit"@ != "interdiff"@,
        "diffedit"@ != "log"@,
        "diffedit"@ != "metaedit"@,
        "diffedit"@ != "new"@,
        "diffedit"@ != "next"@,
        "diffedit"@ != "operation"@,
        "diffedit"@ != "parallelize"@,
        "diffedit"@ != "prev"@,
        "diffedit"@ != "rebase"@,
        "diffedit"@ != "redo"@,
        "diffedit"@ != "resolve"@,
        "diffedit"@ != "restore"@,
        "diffedit"@ != "revert"@,
        "diffedit"@ != "root"@,
        "diffedit"@ != "show"@,
        "diffedit"@ != "sign"@,
        "diffedit"@ != "simplify-parents"@,
        "diffedit"@ != "sparse"@,
        "diffedit"@ != "split"@,
        "diffedit"@ != "squash"@,
        "diffedit"@ != "status"@,
        "diffedit"@ != "tag"@,
        "diffedit"@ != "undo"@,
        "diffedit"@ != "unsign"@,
        "diffedit"@ != "util"@,
        "diffedit"@ != "version"@,
        "diffedit"@ != "workspace"@,
        "disable"@ != "enable"@,
        "disable"@ != "status"@,
        "duplicate"@ != "edit"@,
        "duplicate"@ != "evolog"@,
        "duplicate"@ != "file"@,
        "duplicate"@ != "fix"@,
        "duplicate"@ != "gerrit"@,
        "duplicate"@ != "git"@,
        "duplicate"@ != "help"@,
        "duplicate"@ != "interdiff"@,
        "duplicate"@ != "log"@,
        "duplicate"@ != "metaedit"@,
        "duplicate"@ != "new"@,
        "duplicate"@ != "next"@,
        "duplicate"@ != "operation"@,
        "duplicate"@ != "parallelize"@,
        "duplicate"@ != "prev"@,
        "duplicate"@ != "rebase"@,
        "duplicate"@ != "redo"@,
        "duplicate"@ != "resolve"@,
        "duplicate"@ != "restore"@,
        "duplicate"@ != "revert"@,
        "duplicate"@ != "root"@,
        "duplicate"@ != "show"@,
        "duplicate"@ != "sign"@,
        "duplicate"@ != "simplify-parents"@,
        "duplicate"@ != "sparse"@,
        "duplicate"@ != "split"@,
        "duplicate"@ != "squash"@,
        "duplicate"@ != "status"@,
        "duplicate"@ != "tag"@,
        "duplicate"@ != "undo"@,
        "duplicate"@ != "unsign"@,
        "duplicate"@ != "util"@,
        "duplicate"@ != "version"@,
{
    lemma_name_spellings_0();
    lemma_name_spellings_1();
    lemma_name_spellings_2();
    lemma_name_spellings_3();
    lemma_name_spellings_4();
}

/// Subcommand names that share a node differ.
proof fn lemma_names_apart_5()
    ensures
        "duplicate"@ != "workspace"@,
        "edit"@ != "evolog"@,
        "edit"@ != "file"@,
        "edit"@ != "fix"@,
        "edit"@ != "gerrit"@,
        "edit"@ != "get"@,
        "edit"@ != "git"@,
        "edit"@ != "help"@,
        "edit"@ != "interdiff"@,
        "edit"@ != "list"@,
        "edit"@ != "log"@,
        "edit"@ != "metaedit"@,
        "edit"@ != "new"@,
        "edit"@ != "next"@,
        "edit"@ != "operation"@,
        "edit"@ != "parallelize"@,
        "edit"@ != "path"@,
        "edit"@ != "prev"@,
        "edit"@ != "rebase"@,
        "edit"@ != "redo"@,
        "edit"@ != "reset"@,
        "edit"@ != "resolve"@,
        "edit"@ != "restore"@,
        "edit"@ != "revert"@,
        "edit"@ != "root"@,
        "edit"@ != "set"@,
        "edit"@ != "show"@,
        "edit"@ != "sign"@,
        "edit"@ != "simplify-parents"@,
        "edit"@ != "sparse"@,
        "edit"@ != "split"@,
        "edit"@ != "squash"@,
        "edit"@ != "status"@,
        "edit"@ != "tag"@,
        "edit"@ != "undo"@,
        "edit"@ != "unset"@,
        "edit"@ != "unsign"@,
        "edit"@ != "util"@,
        "edit"@ != "version"@,
        "edit"@ != "workspace"@,
        "enable"@ != "status"@,
        "evolog"@ != "file"@,
        "evolog"@ != "fix"@,
        "evolog"@ != "gerrit"@,
        "evolog"@ != "git"@,
        "evolog"@ != "help"@,
        "evolog"@ != "interdiff"@,
        "evolog"@ != "log"@,
        "evolog"@ != "metaedit"@,
        "evolog"@ != "new"@,
        "evolog"@ != "next"@,
        "evolog"@ != "operation"@,
        "evolog"@ != "parallelize"@,
        "evolog"@ != "prev"@,
        "evolog"@ != "rebase"@,
        "evolog"@ != "redo"@,
        "evolog"@ != "resolve"@,
        "evolog"@ != "restore"@,
        "evolog"@ != "revert"@,
        "evolog"@ != "root"@,
        "evolog"@ != "show"@,
        "evolog"@ != "sign"@,
        "evolog"@ != "simplify-parents"@,
        "evolog"@ != "sparse"@,
        "evolog"@ != "split"@,
        "evolog"@ != "squash"@,
        "evolog"@ != "status"@,
        "evolog"@ != "tag"@,
        "evolog"@ != "undo"@,
        "evolog"@ != "unsign"@,
        "evolog"@ != "util"@,
        "evolog"@ != "version"@,
        "evolog"@ != "workspace"@,
        "exec"@ != "gc"@,
        "exec"@ != "install-man-pages"@,
        "exec"@ != "markdown-help"@,
        "exec"@ != "snapshot"@,
        "export"@ != "fetch"@,
        "export"@ != "import"@,
        "export"@ != "init"@,
        "export"@ != "push"@,
        "export"@ != "remote"@,
        "export"@ != "root"@,
        "fetch"@ != "import"@,
        "fetch"@ != "init"@,
        "fetch"@ != "push"@,
        "fetch"@ != "remote"@,
        "fetch"@ != "root"@,
        "file"@ != "fix"@,
        "file"@ != "gerrit"@,
        "file"@ != "git"@,
        "file"@ != "help"@,
        "file"@ != "interdiff"@,
        "file"@ != "log"@,
        "file"@ != "metaedit"@,
        "file"@ != "new"@,
        "file"@ != "next"@,
        "file"@ != "operation"@,
        "file"@ != "parallelize"@,
        "file"@ != "prev"@,
{
    lemma_name_spellings_0();
    lemma_name_spellings_1();
    lemma_name_spellings_2();
    lemma_name_spellings_3();
    lemma_name_spellings_4();
}

/// Subcommand names that share a node differ.
proof fn lemma_names_apart_6()
    ensures
        "file"@ != "rebase"@,
        "file"@ != "redo"@,
        "file"@ != "resolve"@,
        "file"@ != "restore"@,
        "file"@ != "revert"@,
        "file"@ != "root"@,
        "file"@ != "show"@,
        "file"@ != "sign"@,
        "file"@ != "simplify-parents"@,
        "file"@ != "sparse"@,
        "file"@ != "split"@,
        "file"@ != "squash"@,
        "file"@ != "status"@,
        "file"@ != "tag"@,
        "file"@ != "undo"@,
        "file"@ != "unsign"@,
        "file"@ != "util"@,
        "file"@ != "version"@,
        "file"@ != "workspace"@,
        "fix"@ != "gerrit"@,
        "fix"@ != "git"@,
        "fix"@ != "help"@,
        "fix"@ != "interdiff"@,
        "fix"@ != "log"@,
        "fix"@ != "metaedit"@,
        "fix"@ != "new"@,
        "fix"@ != "next"@,
        "fix"@ != "operation"@,
        "fix"@ != "parallelize"@,
        "fix"@ != "prev"@,
        "fix"@ != "rebase"@,
        "fix"@ != "redo"@,
        "fix"@ != "resolve"@,
        "fix"@ != "restore"@,
        "fix"@ != "revert"@,
        "fix"@ != "root"@,
        "fix"@ != "show"@,
        "fix"@ != "sign"@,
        "fix"@ != "simplify-parents"@,
        "fix"@ != "sparse"@,
        "fix"@ != "split"@,
        "fix"@ != "squash"@,
        "fix"@ != "status"@,
        "fix"@ != "tag"@,
        "fix"@ != "undo"@,
        "fix"@ != "unsign"@,
        "fix"@ != "util"@,
        "fix"@ != "version"@,
        "fix"@ != "workspace"@,
        "forget"@ != "list"@,
        "forget"@ != "move"@,
        "forget"@ != "rename"@,
        "forget"@ != "root"@,
        "forget"@ != "set"@,
        "forget"@ != "track"@,
        "forget"@ != "untrack"@,
        "forget"@ != "update-stale"@,
        "gc"@ != "install-man-pages"@,
        "gc"@ != "markdown-help"@,
        "gc"@ != "snapshot"@,
        "gerrit"@ != "git"@,
        "gerrit"@ != "help"@,
        "gerrit"@ != "interdiff"@,
        "gerrit"@ != "log"@,
        "gerrit"@ != "metaedit"@,
        "gerrit"@ != "new"@,
        "gerrit"@ != "next"@,
        "gerrit"@ != "operation"@,
        "gerrit"@ != "parallelize"@,
        "gerrit"@ != "prev"@,
        "gerrit"@ != "rebase"@,
        "gerrit"@ != "redo"@,
        "gerrit"@ != "resolve"@,
        "gerrit"@ != "restore"@,
        "gerrit"@ != "revert"@,
        "gerrit"@ != "root"@,
        "gerrit"@ != "show"@,
        "gerrit"@ != "sign"@,
        "gerrit"@ != "simplify-parents"@,
        "gerrit"@ != "sparse"@,
        "gerrit"@ != "split"@,
        "gerrit"@ != "squash"@,
        "gerrit"@ != "status"@,
        "gerrit"@ != "tag"@,
        "gerrit"@ != "undo"@,
        "gerrit"@ != "unsign"@,
        "gerrit"@ != "util"@,
        "gerrit"@ != "version"@,
        "gerrit"@ != "workspace"@,
        "get"@ != "list"@,
        "get"@ != "path"@,
        "get"@ != "set"@,
        "get"@ != "unset"@,
        "git"@ != "help"@,
        "git"@ != "interdiff"@,
        "git"@ != "log"@,
        "git"@ != "metaedit"@,
        "git"@ != "new"@,
        "git"@ != "next"@,
        "git"@ != "operation"@,
{
    lemma_name_spellings_0();
    lemma_name_spellings_1();
    lemma_name_spellings_2();
    lemma_name_spellings_3();
    lemma_name_spellings_4();
}

/// Subcommand names that share a node differ.
proof fn lemma_names_apart_7()
    ensures
        "git"@ != "parallelize"@,
        "git"@ != "prev"@,
        "git"@ != "rebase"@,
        "git"@ != "redo"@,
        "git"@ != "resolve"@,
        "git"@ != "restore"@,
        "git"@ != "revert"@,
        "git"@ != "root"@,
        "git"@ != "show"@,
        "git"@ != "sign"@,
        "git"@ != "simplify-parents"@,
        "git"@ != "sparse"@,
        "git"@ != "split"@,
        "git"@ != "squash"@,
        "git"@ != "status"@,
        "git"@ != "tag"@,
        "git"@ != "undo"@,
        "git"@ != "unsign"@,
        "git"@ != "util"@,
        "git"@ != "version"@,
        "git"@ != "workspace"@,
        "help"@ != "interdiff"@,
        "help"@ != "log"@,
        "help"@ != "metaedit"@,
        "help"@ != "new"@,
        "help"@ != "next"@,
        "help"@ != "operation"@,
        "help"@ != "parallelize"@,
        "help"@ != "prev"@,
        "help"@ != "rebase"@,
        "help"@ != "redo"@,
        "help"@ != "resolve"@,
        "help"@ != "restore"@,
        "help"@ != "revert"@,
        "help"@ != "root"@,
        "help"@ != "show"@,
        "help"@ != "sign"@,
        "help"@ != "simplify-parents"@,
        "help"@ != "sparse"@,
        "help"@ != "split"@,
        "help"@ != "squash"@,
        "help"@ != "status"@,
        "help"@ != "tag"@,
        "help"@ != "undo"@,
        "help"@ != "unsign"@,
        "help"@ != "util"@,
        "help"@ != "version"@,
        "help"@ != "workspace"@,
        "import"@ != "init"@,
        "import"@ != "push"@,
        "import"@ != "remote"@,
        "import"@ != "root"@,
        "init"@ != "push"@,
        "init"@ != "remote"@,
        "init"@ != "root"@,
        "install-man-pages"@ != "markdown-help"@,
        "install-man-pages"@ != "snapshot"@,
        "integrate"@ != "log"@,
        "integrate"@ != "restore"@,
        "integrate"@ != "revert"@,
        "integrate"@ != "show"@,
        "interdiff"@ != "log"@,
        "interdiff"@ != "metaedit"@,
        "interdiff"@ != "new"@,
        "interdiff"@ != "next"@,
        "interdiff"@ != "operation"@,
        "interdiff"@ != "parallelize"@,
        "interdiff"@ != "prev"@,
        "interdiff"@ != "rebase"@,
        "interdiff"@ != "redo"@,
        "interdiff"@ != "resolve"@,
        "interdiff"@ != "restore"@,
        "interdiff"@ != "revert"@,
        "interdiff"@ != "root"@,
        "interdiff"@ != "show"@,
        "interdiff"@ != "sign"@,
        "interdiff"@ != "simplify-parents"@,
        "interdiff"@ != "sparse"@,
        "interdiff"@ != "split"@,
        "interdiff"@ != "squash"@,
        "interdiff"@ != "status"@,
        "interdiff"@ != "tag"@,
        "interdiff"@ != "undo"@,
        "interdiff"@ != "unsign"@,
        "interdiff"@ != "util"@,
        "interdiff"@ != "version"@,
        "interdiff"@ != "workspace"@,
        "list"@ != "move"@,
        "list"@ != "path"@,
        "list"@ != "remove"@,
        "list"@ != "rename"@,
        "list"@ != "reset"@,
        "list"@ != "root"@,
        "list"@ != "search"@,
        "list"@ != "set"@,
        "list"@ != "set-url"@,
        "list"@ != "show"@,
        "list"@ != "track"@,
        "list"@ != "unset"@,
        "list"@ != "untrack"@,
{
    lemma_name_spellings_0();
    lemma_name_spellings_1();
    lemma_name_spellings_2();
    lemma_name_spellings_3();
    lemma_name_spellings_4();
}

/// Subcommand names that share a node differ.
proof fn lemma_names_apart_8()
    ensures
        "list"@ != "update-stale"@,
        "log"@ != "metaedit"@,
        "log"@ != "new"@,
        "log"@ != "next"@,
        "log"@ != "operation"@,
        "log"@ != "parallelize"@,
        "log"@ != "prev"@,
        "log"@ != "rebase"@,
        "log"@ != "redo"@,
        "log"@ != "resolve"@,
        "log"@ != "restore"@,
        "log"@ != "revert"@,
        "log"@ != "root"@,
        "log"@ != "show"@,
        "log"@ != "sign"@,
        "log"@ != "simplify-parents"@,
        "log"@ != "sparse"@,
        "log"@ != "split"@,
        "log"@ != "squash"@,
        "log"@ != "status"@,
        "log"@ != "tag"@,
        "log"@ != "undo"@,
        "log"@ != "unsign"@,
        "log"@ != "util"@,
        "log"@ != "version"@,
        "log"@ != "workspace"@,
        "markdown-help"@ != "snapshot"@,
        "metaedit"@ != "new"@,
        "metaedit"@ != "next"@,
        "metaedit"@ != "operation"@,
        "metaedit"@ != "parallelize"@,
        "metaedit"@ != "prev"@,
        "metaedit"@ != "rebase"@,
        "metaedit"@ != "redo"@,
        "metaedit"@ != "resolve"@,
        "metaedit"@ != "restore"@,
        "metaedit"@ != "revert"@,
        "metaedit"@ != "root"@,
        "metaedit"@ != "show"@,
        "metaedit"@ != "sign"@,
        "metaedit"@ != "simplify-parents"@,
        "metaedit"@ != "sparse"@,
        "metaedit"@ != "split"@,
        "metaedit"@ != "squash"@,
        "metaedit"@ != "status"@,
        "metaedit"@ != "tag"@,
        "metaedit"@ != "undo"@,
        "metaedit"@ != "unsign"@,
        "metaedit"@ != "util"@,
        "metaedit"@ != "version"@,
        "metaedit"@ != "workspace"@,
        "move"@ != "rename"@,
        "move"@ != "set"@,
        "move"@ != "track"@,
        "move"@ != "untrack"@,
        "new"@ != "next"@,
        "new"@ != "operation"@,
        "new"@ != "parallelize"@,
        "new"@ != "prev"@,
        "new"@ != "rebase"@,
        "new"@ != "redo"@,
        "new"@ != "resolve"@,
        "new"@ != "restore"@,
        "new"@ != "revert"@,
        "new"@ != "root"@,
        "new"@ != "show"@,
        "new"@ != "sign"@,
        "new"@ != "simplify-parents"@,
        "new"@ != "sparse"@,
        "new"@ != "split"@,
        "new"@ != "squash"@,
        "new"@ != "status"@,
        "new"@ != "tag"@,
        "new"@ != "undo"@,
        "new"@ != "unsign"@,
        "new"@ != "util"@,
        "new"@ != "version"@,
        "new"@ != "workspace"@,
        "next"@ != "operation"@,
        "next"@ != "parallelize"@,
        "next"@ != "prev"@,
        "next"@ != "rebase"@,
        "next"@ != "redo"@,
        "next"@ != "resolve"@,
        "next"@ != "restore"@,
        "next"@ != "revert"@,
        "next"@ != "root"@,
        "next"@ != "show"@,
        "next"@ != "sign"@,
        "next"@ != "simplify-parents"@,
        "next"@ != "sparse"@,
        "next"@ != "split"@,
        "next"@ != "squash"@,
        "next"@ != "status"@,
        "next"@ != "tag"@,
        "next"@ != "undo"@,
        "next"@ != "unsign"@,
        "next"@ != "util"@,
        "next"@ != "version"@,
        "next"@ != "workspace"@,
{
    lemma_name_spellings_0();
    lemma_name_spellings_1();
    lemma_name_spellings_2();
    lemma_name_spellings_3();
    lemma_name_spellings_4();
}

/// Subcommand names that share a node differ.
proof fn lemma_names_apart_9()
    ensures
        "operation"@ != "parallelize"@,
        "operation"@ != "prev"@,
        "operation"@ != "rebase"@,
        "operation"@ != "redo"@,
        "operation"@ != "resolve"@,
        "operation"@ != "restore"@,
        "operation"@ != "revert"@,
        "operation"@ != "root"@,
        "operation"@ != "show"@,
        "operation"@ != "sign"@,
        "operation"@ != "simplify-parents"@,
        "operation"@ != "sparse"@,
        "operation"@ != "split"@,
        "operation"@ != "squash"@,
        "operation"@ != "status"@,
        "operation"@ != "tag"@,
        "operation"@ != "undo"@,
        "operation"@ != "unsign"@,
        "operation"@ != "util"@,
        "operation"@ != "version"@,
        "operation"@ != "workspace"@,
        "parallelize"@ != "prev"@,
        "parallelize"@ != "rebase"@,
        "parallelize"@ != "redo"@,
        "parallelize"@ != "resolve"@,
        "parallelize"@ != "restore"@,
        "parallelize"@ != "revert"@,
        "parallelize"@ != "root"@,
        "parallelize"@ != "show"@,
        "parallelize"@ != "sign"@,
        "parallelize"@ != "simplify-parents"@,
        "parallelize"@ != "sparse"@,
        "parallelize"@ != "split"@,
        "parallelize"@ != "squash"@,
        "parallelize"@ != "status"@,
        "parallelize"@ != "tag"@,
        "parallelize"@ != "undo"@,
        "parallelize"@ != "unsign"@,
        "parallelize"@ != "util"@,
        "parallelize"@ != "version"@,
        "parallelize"@ != "workspace"@,
        "path"@ != "set"@,
        "path"@ != "unset"@,
        "prev"@ != "rebase"@,
        "prev"@ != "redo"@,
        "prev"@ != "resolve"@,
        "prev"@ != "restore"@,
        "prev"@ != "revert"@,
        "prev"@ != "root"@,
        "prev"@ != "show"@,
        "prev"@ != "sign"@,
        "prev"@ != "simplify-parents"@,
        "prev"@ != "sparse"@,
        "prev"@ != "split"@,
        "prev"@ != "squash"@,
        "prev"@ != "status"@,
        "prev"@ != "tag"@,
        "prev"@ != "undo"@,
        "prev"@ != "unsign"@,
        "prev"@ != "util"@,
        "prev"@ != "version"@,
        "prev"@ != "workspace"@,
        "push"@ != "remote"@,
        "push"@ != "root"@,
        "rebase"@ != "redo"@,
        "rebase"@ != "resolve"@,
        "rebase"@ != "restore"@,
        "rebase"@ != "revert"@,
        "rebase"@ != "root"@,
        "rebase"@ != "show"@,
        "rebase"@ != "sign"@,
        "rebase"@ != "simplify-parents"@,
        "rebase"@ != "sparse"@,
        "rebase"@ != "split"@,
        "rebase"@ != "squash"@,
        "rebase"@ != "status"@,
        "rebase"@ != "tag"@,
        "rebase"@ != "undo"@,
        "rebase"@ != "unsign"@,
        "rebase"@ != "util"@,
        "rebase"@ != "version"@,
        "rebase"@ != "workspace"@,
        "redo"@ != "resolve"@,
        "redo"@ != "restore"@,
        "redo"@ != "revert"@,
        "redo"@ != "root"@,
        "redo"@ != "show"@,
        "redo"@ != "sign"@,
        "redo"@ != "simplify-parents"@,
        "redo"@ != "sparse"@,
        "redo"@ != "split"@,
        "redo"@ != "squash"@,
        "redo"@ != "status"@,
        "redo"@ != "tag"@,
        "redo"@ != "undo"@,
        "redo"@ != "unsign"@,
        "redo"@ != "util"@,
        "redo"@ != "version"@,
        "redo"@ != "workspace"@,
        "remote"@ != "root"@,
{
    lemma_name_spellings_0();
    lemma_name_spellings_1();
    lemma_name_spellings_2();
    lemma_name_spellings_3();
    lemma_name_spellings_4();
}

/// Subcommand names that share a node differ.
proof fn lemma_names_apart_10()
    ensures
        "remove"@ != "rename"@,
        "remove"@ != "set-url"@,
        "rename"@ != "root"@,
        "rename"@ != "set"@,
        "rename"@ != "set-url"@,
        "rename"@ != "track"@,
        "rename"@ != "untrack"@,
        "rename"@ != "update-stale"@,
        "reset"@ != "set"@,
        "resolve"@ != "restore"@,
        "resolve"@ != "revert"@,
        "resolve"@ != "root"@,
        "resolve"@ != "show"@,
        "resolve"@ != "sign"@,
        "resolve"@ != "simplify-parents"@,
        "resolve"@ != "sparse"@,
        "resolve"@ != "split"@,
        "resolve"@ != "squash"@,
        "resolve"@ != "status"@,
        "resolve"@ != "tag"@,
        "resolve"@ != "undo"@,
        "resolve"@ != "unsign"@,
        "resolve"@ != "util"@,
        "resolve"@ != "version"@,
        "resolve"@ != "workspace"@,
        "restore"@ != "revert"@,
        "restore"@ != "root"@,
        "restore"@ != "show"@,
        "restore"@ != "sign"@,
        "restore"@ != "simplify-parents"@,
        "restore"@ != "sparse"@,
        "restore"@ != "split"@,
        "restore"@ != "squash"@,
        "restore"@ != "status"@,
        "restore"@ != "tag"@,
        "restore"@ != "undo"@,
        "restore"@ != "unsign"@,
        "restore"@ != "util"@,
        "restore"@ != "version"@,
        "restore"@ != "workspace"@,
        "revert"@ != "root"@,
        "revert"@ != "show"@,
        "revert"@ != "sign"@,
        "revert"@ != "simplify-parents"@,
        "revert"@ != "sparse"@,
        "revert"@ != "split"@,
        "revert"@ != "squash"@,
        "revert"@ != "status"@,
        "revert"@ != "tag"@,
        "revert"@ != "undo"@,
        "revert"@ != "unsign"@,
        "revert"@ != "util"@,
        "revert"@ != "version"@,
        "revert"@ != "workspace"@,
        "root"@ != "show"@,
        "root"@ != "sign"@,
        "root"@ != "simplify-parents"@,
        "root"@ != "sparse"@,
        "root"@ != "split"@,
        "root"@ != "squash"@,
        "root"@ != "status"@,
        "root"@ != "tag"@,
        "root"@ != "undo"@,
        "root"@ != "unsign"@,
        "root"@ != "update-stale"@,
        "root"@ != "util"@,
        "root"@ != "version"@,
        "root"@ != "workspace"@,
        "search"@ != "show"@,
        "search"@ != "track"@,
        "search"@ != "untrack"@,
        "set"@ != "track"@,
        "set"@ != "unset"@,
        "set"@ != "untrack"@,
        "show"@ != "sign"@,
        "show"@ != "simplify-parents"@,
        "show"@ != "sparse"@,
        "show"@ != "split"@,
        "show"@ != "squash"@,
        "show"@ != "status"@,
        "show"@ != "tag"@,
        "show"@ != "track"@,
        "show"@ != "undo"@,
        "show"@ != "unsign"@,
        "show"@ != "untrack"@,
        "show"@ != "util"@,
        "show"@ != "version"@,
        "show"@ != "workspace"@,
        "sign"@ != "simplify-parents"@,
        "sign"@ != "sparse"@,
        "sign"@ != "split"@,
        "sign"@ != "squash"@,
        "sign"@ != "status"@,
        "sign"@ != "tag"@,
        "sign"@ != "undo"@,
        "sign"@ != "unsign"@,
        "sign"@ != "util"@,
        "sign"@ != "version"@,
        "sign"@ != "workspace"@,
        "simplify-parents"@ != "sparse"@,
{
    lemma_name_spellings_0();
    lemma_name_spellings_1();
    lemma_name_spellings_2();
    lemma_name_spellings_3();
    lemma_name_spellings_4();
}

/// Subcommand names that share a node differ.
proof fn lemma_names_apart_11()
    ensures
        "simplify-parents"@ != "split"@,
        "simplify-parents"@ != "squash"@,
        "simplify-parents"@ != "status"@,
        "simplify-parents"@ != "tag"@,
        "simplify-parents"@ != "undo"@,
        "simplify-parents"@ != "unsign"@,
        "simplify-parents"@ != "util"@,
        "simplify-parents"@ != "version"@,
        "simplify-parents"@ != "workspace"@,
        "sparse"@ != "split"@,
        "sparse"@ != "squash"@,
        "sparse"@ != "status"@,
        "sparse"@ != "tag"@,
        "sparse"@ != "undo"@,
        "sparse"@ != "unsign"@,
        "sparse"@ != "util"@,
        "sparse"@ != "version"@,
        "sparse"@ != "workspace"@,
        "split"@ != "squash"@,
        "split"@ != "status"@,
        "split"@ != "tag"@,
        "split"@ != "undo"@,
        "split"@ != "unsign"@,
        "split"@ != "util"@,
        "split"@ != "version"@,
        "split"@ != "workspace"@,
        "squash"@ != "status"@,
        "squash"@ != "tag"@,
        "squash"@ != "undo"@,
        "squash"@ != "unsign"@,
        "squash"@ != "util"@,
        "squash"@ != "version"@,
        "squash"@ != "workspace"@,
        "status"@ != "tag"@,
        "status"@ != "undo"@,
        "status"@ != "unsign"@,
        "status"@ != "util"@,
        "status"@ != "version"@,
        "status"@ != "workspace"@,
        "tag"@ != "undo"@,
        "tag"@ != "unsign"@,
        "tag"@ != "util"@,
        "tag"@ != "version"@,
        "tag"@ != "workspace"@,
        "track"@ != "untrack"@,
        "undo"@ != "unsign"@,
        "undo"@ != "util"@,
        "undo"@ != "version"@,
        "undo"@ != "workspace"@,
        "unsign"@ != "util"@,
        "unsign"@ != "version"@,
        "unsign"@ != "workspace"@,
        "util"@ != "version"@,
        "util"@ != "workspace"@,
        "version"@ != "workspace"@,
{
    lemma_name_spellings_0();
    lemma_name_spellings_1();
    lemma_name_spellings_2();
    lemma_name_spellings_3();
    lemma_name_spellings_4();
}

/// The flags of one of the nodes: distinct, starting with `--`, and which they are.
proof fn lemma_flag_list_0()
    ensures
        node_of(&[]).clean(),
        node_of(&[]).flags.to_set() == Set::<Seq<char>>::empty(),
{
    lemma_flag_spellings_0();
    lemma_flag_spellings_1();
    lemma_flag_spellings_2();
    lemma_node_clean(&[]);
    let f = node_of(&[]).flags;
    assert(f.to_set() =~= Set::<Seq<char>>::empty());
}

/// The flags of one of the nodes: distinct, starting with `--`, and which they are.
proof fn lemma_flag_list_1()
    ensures
        node_of(&["--expire"]).clean(),
        node_of(&["--expire"]).flags.to_set() == set!["--expire"@],
{
    lemma_flag_spellings_0();
    lemma_flag_spellings_1();
    lemma_flag_spellings_2();
    lemma_node_clean(&["--expire"]);
    let f = node_of(&["--expire"]).flags;
    assert(f.to_set() =~= set![f[0]]);
    assert(f.to_set() =~= set!["--expire"@]);
}

/// The flags of one of the nodes: distinct, starting with `--`, and which they are.
proof fn lemma_flag_list_2()
    ensures
        node_of(&["--include-remotes"]).clean(),
        node_of(&["--include-remotes"]).flags.to_set() == set!["--include-remotes"@],
{
    lemma_flag_spellings_0();
    lemma_flag_spellings_1();
    lemma_flag_spellings_2();
    lemma_node_clean(&["--include-remotes"]);
    let f = node_of(&["--include-remotes"]).flags;
    assert(f.to_set() =~= set![f[0]]);
    assert(f.to_set() =~= set!["--include-remotes"@]);
}

/// The flags of one of the nodes: distinct, starting with `--`, and which they are.
proof fn lemma_flag_list_3()
    ensures
        node_of(&["--keyword"]).clean(),
        node_of(&["--keyword"]).flags.to_set() == set!["--keyword"@],
{
    lemma_flag_spellings_0();
    lemma_flag_spellings_1();
    lemma_flag_spellings_2();
    lemma_node_clean(&["--keyword"]);
    let f = node_of(&["--keyword"]).flags;
    assert(f.to_set() =~= set![f[0]]);
    assert(f.to_set() =~= set!["--keyword"@]);
}

/// The flags of one of the nodes: distinct, starting with `--`, and which they are.
proof fn lemma_flag_list_4()
    ensures
        node_of(&["--name"]).clean(),
        node_of(&["--name"]).flags.to_set() == set!["--name"@],
{
    lemma_flag_spellings_0();
    lemma_flag_spellings_1();
    lemma_flag_spellings_2();
    lemma_node_clean(&["--name"]);
    let f = node_of(&["--name"]).flags;
    assert(f.to_set() =~= set![f[0]]);
    assert(f.to_set() =~= set!["--name"@]);
}

/// The flags of one of the nodes: distinct, starting with `--`, and which they are.
proof fn lemma_flag_list_5()
    ensures
        node_of(&["--overwrite-existing"]).clean(),
        node_of(&["--overwrite-existing"]).flags.to_set() == set!["--overwrite-existing"@],
{
    lemma_flag_spellings_0();
    lemma_flag_spellings_1();
    lemma_flag_spellings_2();
    lemma_node_clean(&["--overwrite-existing"]);
    let f = node_of(&["--overwrite-existing"]).flags;
    assert(f.to_set() =~= set![f[0]]);
    assert(f.to_set() =~= set!["--overwrite-existing"@]);
}

/// The flags of one of the nodes: distinct, starting with `--`, and which they are.
proof fn lemma_flag_list_6()
    ensures
        node_of(&["--revision"]).clean(),
        node_of(&["--revision"]).flags.to_set() == set!["--revision"@],
{
    lemma_flag_spellings_0();
    lemma_flag_spellings_1();
    lemma_flag_spellings_2();
    lemma_node_clean(&["--revision"]);
    let f = node_of(&["--revision"]).flags;
    assert(f.to_set() =~= set![f[0]]);
    assert(f.to_set() =~= set!["--revision"@]);
}

/// The flags of one of the nodes: distinct, starting with `--`, and which they are.
proof fn lemma_flag_list_7()
    ensures
        node_of(&["--template"]).clean(),
        node_of(&["--template"]).flags.to_set() == set!["--template"@],
{
    lemma_flag_spellings_0();
    lemma_flag_spellings_1();
    lemma_flag_spellings_2();
    lemma_node_clean(&["--template"]);
    let f = node_of(&["--template"]).flags;
    assert(f.to_set() =~= set![f[0]]);
    assert(f.to_set() =~= set!["--template"@]);
}

/// The flags of one of the nodes: distinct, starting with `--`, and which they are.
proof fn lemma_flag_list_8()
    ensures
        node_of(&["--to"]).clean(),
        node_of(&["--to"]).flags.to_set() == set!["--to"@],
{
    lemma_flag_spellings_0();
    lemma_flag_spellings_1();
    lemma_flag_spellings_2();
    lemma_node_clean(&["--to"]);
    let f = node_of(&["--to"]).flags;
    assert(f.to_set() =~= set![f[0]]);
    assert(f.to_set() =~= set!["--to"@]);
}

/// The flags of one of the nodes: distinct, starting with `--`, and which they are.
proof fn lemma_flag_list_9()
    ensures
        node_of(&["--what"]).clean(),
        node_of(&["--what"]).flags.to_set() == set!["--what"@],
{
    lemma_flag_spellings_0();
    lemma_flag_spellings_1();
    lemma_flag_spellings_2();
    lemma_node_clean(&["--what"]);
    let f = node_of(&["--what"]).flags;
    assert(f.to_set() =~= set![f[0]]);
    assert(f.to_set() =~= set!["--what"@]);
}

/// The flags of one of the nodes: distinct, starting with `--`, and which they are.
proof fn lemma_flag_list_10()
    ensures
        node_of(&["--fetch-tags", "--push-url"]).clean(),
        node_of(&["--fetch-tags", "--push-url"]).flags.to_set() == set!["--fetch-tags"@, "--push-url"@],
{
    lemma_flag_spellings_0();
    lemma_flag_spellings_1();
    lemma_flag_spellings_2();
    lemma_node_clean(&["--fetch-tags", "--push-url"]);
    let f = node_of(&["--fetch-tags", "--push-url"]).flags;
    assert(f.to_set() =~= set![f[0], f[1]]);
    assert(f.to_set() =~= set!["--fetch-tags"@, "--push-url"@]);
}

/// The flags of one of the nodes: distinct, starting with `--`, and which they are.
proof fn lemma_flag_list_11()
    ensures
        node_of(&["--from", "--into"]).clean(),
        node_of(&["--from", "--into"]).flags.to_set() == set!["--from"@, "--into"@],
{
    lemma_flag_spellings_0();
    lemma_flag_spellings_1();
    lemma_flag_spellings_2();
    lemma_node_clean(&["--from", "--into"]);
    let f = node_of(&["--from", "--into"]).flags;
    assert(f.to_set() =~= set![f[0], f[1]]);
    assert(f.to_set() =~= set!["--from"@, "--into"@]);
}

/// The flags of one of the nodes: distinct, starting with `--`, and which they are.
proof fn lemma_flag_list_12()
    ensures
        node_of(&["--push", "--fetch"]).clean(),
        node_of(&["--push", "--fetch"]).flags.to_set() == set!["--fetch"@, "--push"@],
{
    lemma_flag_spellings_0();
    lemma_flag_spellings_1();
    lemma_flag_spellings_2();
    lemma_node_clean(&["--push", "--fetch"]);
    let f = node_of(&["--push", "--fetch"]).flags;
    assert(f.to_set() =~= set![f[0], f[1]]);
    assert(f.to_set() =~= set!["--fetch"@, "--push"@]);
}

/// The flags of one of the nodes: distinct, starting with `--`, and which they are.
proof fn lemma_flag_list_13()
    ensures
        node_of(&["--range", "--find-good"]).clean(),
        node_of(&["--range", "--find-good"]).flags.to_set() == set!["--find-good"@, "--range"@],
{
    lemma_flag_spellings_0();
    lemma_flag_spellings_1();
    lemma_flag_spellings_2();
    lemma_node_clean(&["--range", "--find-good"]);
    let f = node_of(&["--range", "--find-good"]).flags;
    assert(f.to_set() =~= set![f[0], f[1]]);
    assert(f.to_set() =~= set!["--find-good"@, "--range"@]);
}

/// The flags of one of the nodes: distinct, starting with `--`, and which they are.
proof fn lemma_flag_list_14()
    ensures
        node_of(&["--retain-bookmarks", "--restore-descendants"]).clean(),
        node_of(&["--retain-bookmarks", "--restore-descendants"]).flags.to_set() == set!["--restore-descendants"@, "--retain-bookmarks"@],
{
    lemma_flag_spellings_0();
    lemma_flag_spellings_1();
    lemma_flag_spellings_2();
    lemma_node_clean(&["--retain-bookmarks", "--restore-descendants"]);
    let f = node_of(&["--retain-bookmarks", "--restore-descendants"]).flags;
    assert(f.to_set() =~= set![f[0], f[1]]);
    assert(f.to_set() =~= set!["--restore-descendants"@, "--retain-bookmarks"@]);
}

/// The flags of one of the nodes: distinct, starting with `--`, and which they are.
proof fn lemma_flag_list_15()
    ensures
        node_of(&["--revision", "--allow-backwards"]).clean(),
        node_of(&["--revision", "--allow-backwards"]).flags.to_set() == set!["--allow-backwards"@, "--revision"@],
{
    lemma_flag_spellings_0();
    lemma_flag_spellings_1();
    lemma_flag_spellings_2();
    lemma_node_clean(&["--revision", "--allow-backwards"]);
    let f = node_of(&["--revision", "--allow-backwards"]).flags;
    assert(f.to_set() =~= set![f[0], f[1]]);
    assert(f.to_set() =~= set!["--allow-backwards"@, "--revision"@]);
}

/// The flags of one of the nodes: distinct, starting with `--`, and which they are.
proof fn lemma_flag_list_16()
    ensures
        node_of(&["--revision", "--allow-move"]).clean(),
        node_of(&["--revision", "--allow-move"]).flags.to_set() == set!["--allow-move"@, "--revision"@],
{
    lemma_flag_spellings_0();
    lemma_flag_spellings_1();
    lemma_flag_spellings_2();
    lemma_node_clean(&["--revision", "--allow-move"]);
    let f = node_of(&["--revision", "--allow-move"]).flags;
    assert(f.to_set() =~= set![f[0], f[1]]);
    assert(f.to_set() =~= set!["--allow-move"@, "--revision"@]);
}

/// The flags of one of the nodes: distinct, starting with `--`, and which they are.
proof fn lemma_flag_list_17()
    ensures
        node_of(&["--revision", "--key"]).clean(),
        node_of(&["--revision", "--key"]).flags.to_set() == set!["--key"@, "--revision"@],
{
    lemma_flag_spellings_0();
    lemma_flag_spellings_1();
    lemma_flag_spellings_2();
    lemma_node_clean(&["--revision", "--key"]);
    let f = node_of(&["--revision", "--key"]).flags;
    assert(f.to_set() =~= set![f[0], f[1]]);
    assert(f.to_set() =~= set!["--key"@, "--revision"@]);
}

/// The flags of one of the nodes: distinct, starting with `--`, and which they are.
proof fn lemma_flag_list_18()
    ensures
        node_of(&["--revision", "--pattern"]).clean(),
        node_of(&["--revision", "--pattern"]).flags.to_set() == set!["--pattern"@, "--revision"@],
{
    lemma_flag_spellings_0();
    lemma_flag_spellings_1();
    lemma_flag_spellings_2();
    lemma_node_clean(&["--revision", "--pattern"]);
    let f = node_of(&["--revision", "--pattern"]).flags;
    assert(f.to_set() =~= set![f[0], f[1]]);
    assert(f.to_set() =~= set!["--pattern"@, "--revision"@]);
}

/// The flags of one of the nodes: distinct, starting with `--`, and which they are.
proof fn lemma_flag_list_19()
    ensures
        node_of(&["--revision", "--template"]).clean(),
        node_of(&["--revision", "--template"]).flags.to_set() == set!["--revision"@, "--template"@],
{
    lemma_flag_spellings_0();
    lemma_flag_spellings_1();
    lemma_flag_spellings_2();
    lemma_node_clean(&["--revision", "--template"]);
    let f = node_of(&["--revision", "--template"]).flags;
    assert(f.to_set() =~= set![f[0], f[1]]);
    assert(f.to_set() =~= set!["--revision"@, "--template"@]);
}

/// The flags of one of the nodes: distinct, starting with `--`, and which they are.
proof fn lemma_flag_list_20()
    ensures
        node_of(&["--source", "--include-unchanged-files"]).clean(),
        node_of(&["--source", "--include-unchanged-files"]).flags.to_set() == set!["--include-unchanged-files"@, "--source"@],
{
    lemma_flag_spellings_0();
    lemma_flag_spellings_1();
    lemma_flag_spellings_2();
    lemma_node_clean(&["--source", "--include-unchanged-files"]);
    let f = node_of(&["--source", "--include-unchanged-files"]).flags;
    assert(f.to_set() =~= set![f[0], f[1]]);
    assert(f.to_set() =~= set!["--include-unchanged-files"@, "--source"@]);
}

/// The flags of one of the nodes: distinct, starting with `--`, and which they are.
proof fn lemma_flag_list_21()
    ensures
        node_of(&["--source", "--revision"]).clean(),
        node_of(&["--source", "--revision"]).flags.to_set() == set!["--revision"@, "--source"@],
{
    lemma_flag_spellings_0();
    lemma_flag_spellings_1();
    lemma_flag_spellings_2();
    lemma_node_clean(&["--source", "--revision"]);
    let f = node_of(&["--source", "--revision"]).flags;
    assert(f.to_set() =~= set![f[0], f[1]]);
    assert(f.to_set() =~= set!["--revision"@, "--source"@]);
}

/// The flags of one of the nodes: distinct, starting with `--`, and which they are.
proof fn lemma_flag_list_22()
    ensures
        node_of(&["--add", "--remove", "--clear"]).clean(),
        node_of(&["--add", "--remove", "--clear"]).flags.to_set() == set!["--add"@, "--clear"@, "--remove"@],
{
    lemma_flag_spellings_0();
    lemma_flag_spellings_1();
    lemma_flag_spellings_2();
    lemma_node_clean(&["--add", "--remove", "--clear"]);
    let f = node_of(&["--add", "--remove", "--clear"]).flags;
    assert(f.to_set() =~= set![f[0], f[1], f[2]]);
    assert(f.to_set() =~= set!["--add"@, "--clear"@, "--remove"@]);
}

/// The flags of one of the nodes: distinct, starting with `--`, and which they are.
proof fn lemma_flag_list_23()
    ensures
        node_of(&["--colocate", "--no-colocate", "--git-repo"]).clean(),
        node_of(&["--colocate", "--no-colocate", "--git-repo"]).flags.to_set() == set!["--colocate"@, "--git-repo"@, "--no-colocate"@],
{
    lemma_flag_spellings_0();
    lemma_flag_spellings_1();
    lemma_flag_spellings_2();
    lemma_node_clean(&["--colocate", "--no-colocate", "--git-repo"]);
    let f = node_of(&["--colocate", "--no-colocate", "--git-repo"]).flags;
    assert(f.to_set() =~= set![f[0], f[1], f[2]]);
    assert(f.to_set() =~= set!["--colocate"@, "--git-repo"@, "--no-colocate"@]);
}

/// The flags of one of the nodes: distinct, starting with `--`, and which they are.
proof fn lemma_flag_list_24()
    ensures
        node_of(&["--edit", "--no-edit", "--conflict"]).clean(),
        node_of(&["--edit", "--no-edit", "--conflict"]).flags.to_set() == set!["--conflict"@, "--edit"@, "--no-edit"@],
{
    lemma_flag_spellings_0();
    lemma_flag_spellings_1();
    lemma_flag_spellings_2();
    lemma_node_clean(&["--edit", "--no-edit", "--conflict"]);
    let f = node_of(&["--edit", "--no-edit", "--conflict"]).flags;
    assert(f.to_set() =~= set![f[0], f[1], f[2]]);
    assert(f.to_set() =~= set!["--conflict"@, "--edit"@, "--no-edit"@]);
}

/// The flags of one of the nodes: distinct, starting with `--`, and which they are.
proof fn lemma_flag_list_25()
    ensures
        node_of(&["--from", "--to", "--allow-backwards"]).clean(),
        node_of(&["--from", "--to", "--allow-backwards"]).flags.to_set() == set!["--allow-backwards"@, "--from"@, "--to"@],
{
    lemma_flag_spellings_0();
    lemma_flag_spellings_1();
    lemma_flag_spellings_2();
    lemma_node_clean(&["--from", "--to", "--allow-backwards"]);
    let f = node_of(&["--from", "--to", "--allow-backwards"]).flags;
    assert(f.to_set() =~= set![f[0], f[1], f[2]]);
    assert(f.to_set() =~= set!["--allow-backwards"@, "--from"@, "--to"@]);
}

/// The flags of one of the nodes: distinct, starting with `--`, and which they are.
proof fn lemma_flag_list_26()
    ensures
        node_of(&["--message", "--editor", "--reset-author"]).clean(),
        node_of(&["--message", "--editor", "--reset-author"]).flags.to_set() == set!["--editor"@, "--message"@, "--reset-author"@],
{
    lemma_flag_spellings_0();
    lemma_flag_spellings_1();
    lemma_flag_spellings_2();
    lemma_node_clean(&["--message", "--editor", "--reset-author"]);
    let f = node_of(&["--message", "--editor", "--reset-author"]).flags;
    assert(f.to_set() =~= set![f[0], f[1], f[2]]);
    assert(f.to_set() =~= set!["--editor"@, "--message"@, "--reset-author"@]);
}

/// The flags of one of the nodes: distinct, starting with `--`, and which they are.
proof fn lemma_flag_list_27()
    ensures
        node_of(&["--onto", "--insert-after", "--insert-before"]).clean(),
        node_of(&["--onto", "--insert-after", "--insert-before"]).flags.to_set() == set!["--insert-after"@, "--insert-before"@, "--onto"@],
{
    lemma_flag_spellings_0();
    lemma_flag_spellings_1();
    lemma_flag_spellings_2();
    lemma_node_clean(&["--onto", "--insert-after", "--insert-before"]);
    let f = node_of(&["--onto", "--insert-after", "--insert-before"]).flags;
    assert(f.to_set() =~= set![f[0], f[1], f[2]]);
    assert(f.to_set() =~= set!["--insert-after"@, "--insert-before"@, "--onto"@]);
}

/// The flags of one of the nodes: distinct, starting with `--`, and which they are.
proof fn lemma_flag_list_28()
    ensures
        node_of(&["--remote", "--branch", "--all-remotes"]).clean(),
        node_of(&["--remote", "--branch", "--all-remotes"]).flags.to_set() == set!["--all-remotes"@, "--branch"@, "--remote"@],
{
    lemma_flag_spellings_0();
    lemma_flag_spellings_1();
    lemma_flag_spellings_2();
    lemma_node_clean(&["--remote", "--branch", "--all-remotes"]);
    let f = node_of(&["--remote", "--branch", "--all-remotes"]).flags;
    assert(f.to_set() =~= set![f[0], f[1], f[2]]);
    assert(f.to_set() =~= set!["--all-remotes"@, "--branch"@, "--remote"@]);
}

/// The flags of one of the nodes: distinct, starting with `--`, and which they are.
proof fn lemma_flag_list_29()
    ensures
        node_of(&["--revision", "--list", "--tool"]).clean(),
        node_of(&["--revision", "--list", "--tool"]).flags.to_set() == set!["--list"@, "--revision"@, "--tool"@],
{
    lemma_flag_spellings_0();
    lemma_flag_spellings_1();
    lemma_flag_spellings_2();
    lemma_node_clean(&["--revision", "--list", "--tool"]);
    let f = node_of(&["--revision", "--list", "--tool"]).flags;
    assert(f.to_set() =~= set![f[0], f[1], f[2]]);
    assert(f.to_set() =~= set!["--list"@, "--revision"@, "--tool"@]);
}

/// The flags of one of the nodes: distinct, starting with `--`, and which they are.
proof fn lemma_flag_list_30()
    ensures
        node_of(&["--update-change-id", "--message", "--update-author-timestamp"]).clean(),
        node_of(&["--update-change-id", "--message", "--update-author-timestamp"]).flags.to_set() == set!["--message"@, "--update-author-timestamp"@, "--update-change-id"@],
{
    lemma_flag_spellings_0();
    lemma_flag_spellings_1();
    lemma_flag_spellings_2();
    lemma_node_clean(&["--update-change-id", "--message", "--update-author-timestamp"]);
    let f = node_of(&["--update-change-id", "--message", "--update-author-timestamp"]).flags;
    assert(f.to_set() =~= set![f[0], f[1], f[2]]);
    assert(f.to_set() =~= set!["--message"@, "--update-author-timestamp"@, "--update-change-id"@]);
}

/// The flags of one of the nodes: distinct, starting with `--`, and which they are.
proof fn lemma_flag_list_31()
    ensures
        node_of(&["--user", "--repo", "--workspace"]).clean(),
        node_of(&["--user", "--repo", "--workspace"]).flags.to_set() == set!["--repo"@, "--user"@, "--workspace"@],
{
    lemma_flag_spellings_0();
    lemma_flag_spellings_1();
    lemma_flag_spellings_2();
    lemma_node_clean(&["--user", "--repo", "--workspace"]);
    let f = node_of(&["--user", "--repo", "--workspace"]).flags;
    assert(f.to_set() =~= set![f[0], f[1], f[2]]);
    assert(f.to_set() =~= set!["--repo"@, "--user"@, "--workspace"@]);
}

/// The flags of one of the nodes: distinct, starting with `--`, and which they are.
proof fn lemma_flag_list_32()
    ensures
        node_of(&["--interactive", "--tool", "--message", "--editor"]).clean(),
        node_of(&["--interactive", "--tool", "--message", "--editor"]).flags.to_set() == set!["--editor"@, "--interactive"@, "--message"@, "--tool"@],
{
    lemma_flag_spellings_0();
    lemma_flag_spellings_1();
    lemma_flag_spellings_2();
    lemma_node_clean(&["--interactive", "--tool", "--message", "--editor"]);
    let f = node_of(&["--interactive", "--tool", "--message", "--editor"]).flags;
    assert(f.to_set() =~= set![f[0], f[1], f[2], f[3]]);
    assert(f.to_set() =~= set!["--editor"@, "--interactive"@, "--message"@, "--tool"@]);
}

/// The flags of one of the nodes: distinct, starting with `--`, and which they are.
proof fn lemma_flag_list_33()
    ensures
        node_of(&["--message", "--no-edit", "--insert-after", "--insert-before"]).clean(),
        node_of(&["--message", "--no-edit", "--insert-after", "--insert-before"]).flags.to_set() == set!["--insert-after"@, "--insert-before"@, "--message"@, "--no-edit"@],
{
    lemma_flag_spellings_0();
    lemma_flag_spellings_1();
    lemma_flag_spellings_2();
    lemma_node_clean(&["--message", "--no-edit", "--insert-after", "--insert-before"]);
    let f = node_of(&["--message", "--no-edit", "--insert-after", "--insert-before"]).flags;
    assert(f.to_set() =~= set![f[0], f[1], f[2], f[3]]);
    assert(f.to_set() =~= set!["--insert-after"@, "--insert-before"@, "--message"@, "--no-edit"@]);
}

/// The flags of one of the nodes: distinct, starting with `--`, and which they are.
proof fn lemma_flag_list_34()
    ensures
        node_of(&["--name", "--revision", "--message", "--sparse-patterns"]).clean(),
        node_of(&["--name", "--revision", "--message", "--sparse-patterns"]).flags.to_set() == set!["--message"@, "--name"@, "--revision"@, "--sparse-patterns"@],
{
    lemma_flag_spellings_0();
    lemma_flag_spellings_1();
    lemma_flag_spellings_2();
    lemma_node_clean(&["--name", "--revision", "--message", "--sparse-patterns"]);
    let f = node_of(&["--name", "--revision", "--message", "--sparse-patterns"]).flags;
    assert(f.to_set() =~= set![f[0], f[1], f[2], f[3]]);
    assert(f.to_set() =~= set!["--message"@, "--name"@, "--revision"@, "--sparse-patterns"@]);
}

/// The flags of one of the nodes: distinct, starting with `--`, and which they are.
proof fn lemma_flag_list_35()
    ensures
        node_of(&["--no-graph", "--template", "--patch", "--no-op-diff"]).clean(),
        node_of(&["--no-graph", "--template", "--patch", "--no-op-diff"]).flags.to_set() == set!["--no-graph"@, "--no-op-diff"@, "--patch"@, "--template"@],
{
    lemma_flag_spellings_0();
    lemma_flag_spellings_1();
    lemma_flag_spellings_2();
    lemma_node_clean(&["--no-graph", "--template", "--patch", "--no-op-diff"]);
    let f = node_of(&["--no-graph", "--template", "--patch", "--no-op-diff"]).flags;
    assert(f.to_set() =~= set![f[0], f[1], f[2], f[3]]);
    assert(f.to_set() =~= set!["--no-graph"@, "--no-op-diff"@, "--patch"@, "--template"@]);
}

/// The flags of one of the nodes: distinct, starting with `--`, and which they are.
proof fn lemma_flag_list_36()
    ensures
        node_of(&["--revision", "--onto", "--insert-after", "--insert-before"]).clean(),
        node_of(&["--revision", "--onto", "--insert-after", "--insert-before"]).flags.to_set() == set!["--insert-after"@, "--insert-before"@, "--onto"@, "--revision"@],
{
    lemma_flag_spellings_0();
    lemma_flag_spellings_1();
    lemma_flag_spellings_2();
    lemma_node_clean(&["--revision", "--onto", "--insert-after", "--insert-before"]);
    let f = node_of(&["--revision", "--onto", "--insert-after", "--insert-before"]).flags;
    assert(f.to_set() =~= set![f[0], f[1], f[2], f[3]]);
    assert(f.to_set() =~= set!["--insert-after"@, "--insert-before"@, "--onto"@, "--revision"@]);
}

/// The flags of one of the nodes: distinct, starting with `--`, and which they are.
proof fn lemma_flag_list_37()
    ensures
        node_of(&["--revision", "--parallel", "--interactive", "--tool"]).clean(),
        node_of(&["--revision", "--parallel", "--interactive", "--tool"]).flags.to_set() == set!["--interactive"@, "--parallel"@, "--revision"@, "--tool"@],
{
    lemma_flag_spellings_0();
    lemma_flag_spellings_1();
    lemma_flag_spellings_2();
    lemma_node_clean(&["--revision", "--parallel", "--interactive", "--tool"]);
    let f = node_of(&["--revision", "--parallel", "--interactive", "--tool"]).flags;
    assert(f.to_set() =~= set![f[0], f[1], f[2], f[3]]);
    assert(f.to_set() =~= set!["--interactive"@, "--parallel"@, "--revision"@, "--tool"@]);
}

/// The flags of one of the nodes: distinct, starting with `--`, and which they are.
proof fn lemma_flag_list_38()
    ensures
        node_of(&["--all-remotes", "--conflicted", "--revision", "--template", "--sort"]).clean(),
        node_of(&["--all-remotes", "--conflicted", "--revision", "--template", "--sort"]).flags.to_set() == set!["--all-remotes"@, "--conflicted"@, "--revision"@, "--sort"@, "--template"@],
{
    lemma_flag_spellings_0();
    lemma_flag_spellings_1();
    lemma_flag_spellings_2();
    lemma_node_clean(&["--all-remotes", "--conflicted", "--revision", "--template", "--sort"]);
    let f = node_of(&["--all-remotes", "--conflicted", "--revision", "--template", "--sort"]).flags;
    assert(f.to_set() =~= set![f[0], f[1], f[2], f[3], f[4]]);
    assert(f.to_set() =~= set!["--all-remotes"@, "--conflicted"@, "--revision"@, "--sort"@, "--template"@]);
}

/// The flags of one of the nodes: distinct, starting with `--`, and which they are.
proof fn lemma_flag_list_39()
    ensures
        node_of(&["--operation", "--from", "--to", "--no-graph", "--patch"]).clean(),
        node_of(&["--operation", "--from", "--to", "--no-graph", "--patch"]).flags.to_set() == set!["--from"@, "--no-graph"@, "--operation"@, "--patch"@, "--to"@],
{
    lemma_flag_spellings_0();
    lemma_flag_spellings_1();
    lemma_flag_spellings_2();
    lemma_node_clean(&["--operation", "--from", "--to", "--no-graph", "--patch"]);
    let f = node_of(&["--operation", "--from", "--to", "--no-graph", "--patch"]).flags;
    assert(f.to_set() =~= set![f[0], f[1], f[2], f[3], f[4]]);
    assert(f.to_set() =~= set!["--from"@, "--no-graph"@, "--operation"@, "--patch"@, "--to"@]);
}

/// The flags of one of the nodes: distinct, starting with `--`, and which they are.
proof fn lemma_flag_list_40()
    ensures
        node_of(&["--remote", "--colocate", "--no-colocate", "--depth", "--branch"]).clean(),
        node_of(&["--remote", "--colocate", "--no-colocate", "--depth", "--branch"]).flags.to_set() == set!["--branch"@, "--colocate"@, "--depth"@, "--no-colocate"@, "--remote"@],
{
    lemma_flag_spellings_0();
    lemma_flag_spellings_1();
    lemma_flag_spellings_2();
    lemma_node_clean(&["--remote", "--colocate", "--no-colocate", "--depth", "--branch"]);
    let f = node_of(&["--remote", "--colocate", "--no-colocate", "--depth", "--branch"]).flags;
    assert(f.to_set() =~= set![f[0], f[1], f[2], f[3], f[4]]);
    assert(f.to_set() =~= set!["--branch"@, "--colocate"@, "--depth"@, "--no-colocate"@, "--remote"@]);
}

/// The flags of one of the nodes: distinct, starting with `--`, and which they are.
proof fn lemma_flag_list_41()
    ensures
        node_of(&["--revision", "--from", "--to", "--tool", "--restore-descendants"]).clean(),
        node_of(&["--revision", "--from", "--to", "--tool", "--restore-descendants"]).flags.to_set() == set!["--from"@, "--restore-descendants"@, "--revision"@, "--to"@, "--tool"@],
{
    lemma_flag_spellings_0();
    lemma_flag_spellings_1();
    lemma_flag_spellings_2();
    lemma_node_clean(&["--revision", "--from", "--to", "--tool", "--restore-descendants"]);
    let f = node_of(&["--revision", "--from", "--to", "--tool", "--restore-descendants"]).flags;
    assert(f.to_set() =~= set![f[0], f[1], f[2], f[3], f[4]]);
    assert(f.to_set() =~= set!["--from"@, "--restore-descendants"@, "--revision"@, "--to"@, "--tool"@]);
}

/// The flags of one of the nodes: distinct, starting with `--`, and which they are.
proof fn lemma_flag_list_42()
    ensures
        node_of(&["--all-remotes", "--tracked", "--conflicted", "--revision", "--template", "--sort"]).clean(),
        node_of(&["--all-remotes", "--tracked", "--conflicted", "--revision", "--template", "--sort"]).flags.to_set() == set!["--all-remotes"@, "--conflicted"@, "--revision"@, "--sort"@, "--template"@, "--tracked"@],
{
    lemma_flag_spellings_0();
    lemma_flag_spellings_1();
    lemma_flag_spellings_2();
    lemma_node_clean(&["--all-remotes", "--tracked", "--conflicted", "--revision", "--template", "--sort"]);
    let f = node_of(&["--all-remotes", "--tracked", "--conflicted", "--revision", "--template", "--sort"]).flags;
    assert(f.to_set() =~= set![f[0], f[1], f[2], f[3], f[4], f[5]]);
    assert(f.to_set() =~= set!["--all-remotes"@, "--conflicted"@, "--revision"@, "--sort"@, "--template"@, "--tracked"@]);
}

/// The flags of one of the nodes: distinct, starting with `--`, and which they are.
proof fn lemma_flag_list_43()
    ensures
        node_of(&["--from", "--into", "--changes-in", "--interactive", "--tool", "--restore-descendants"]).clean(),
        node_of(&["--from", "--into", "--changes-in", "--interactive", "--tool", "--restore-descendants"]).flags.to_set() == set!["--changes-in"@, "--from"@, "--interactive"@, "--into"@, "--restore-descendants"@, "--tool"@],
{
    lemma_flag_spellings_0();
    lemma_flag_spellings_1();
    lemma_flag_spellings_2();
    lemma_node_clean(&["--from", "--into", "--changes-in", "--interactive", "--tool", "--restore-descendants"]);
    let f = node_of(&["--from", "--into", "--changes-in", "--interactive", "--tool", "--restore-descendants"]).flags;
    assert(f.to_set() =~= set![f[0], f[1], f[2], f[3], f[4], f[5]]);
    assert(f.to_set() =~= set!["--changes-in"@, "--from"@, "--interactive"@, "--into"@, "--restore-descendants"@, "--tool"@]);
}

/// The flags of one of the nodes: distinct, starting with `--`, and which they are.
proof fn lemma_flag_list_44()
    ensures
        node_of(&["--from", "--to", "--summary", "--stat", "--git", "--color-words"]).clean(),
        node_of(&["--from", "--to", "--summary", "--stat", "--git", "--color-words"]).flags.to_set() == set!["--color-words"@, "--from"@, "--git"@, "--stat"@, "--summary"@, "--to"@],
{
    lemma_flag_spellings_0();
    lemma_flag_spellings_1();
    lemma_flag_spellings_2();
    lemma_node_clean(&["--from", "--to", "--summary", "--stat", "--git", "--color-words"]);
    let f = node_of(&["--from", "--to", "--summary", "--stat", "--git", "--color-words"]).flags;
    assert(f.to_set() =~= set![f[0], f[1], f[2], f[3], f[4], f[5]]);
    assert(f.to_set() =~= set!["--color-words"@, "--from"@, "--git"@, "--stat"@, "--summary"@, "--to"@]);
}

/// The flags of one of the nodes: distinct, starting with `--`, and which they are.
proof fn lemma_flag_list_45()
    ensures
        node_of(&["--include-defaults", "--include-overridden", "--user", "--repo", "--workspace", "--template"]).clean(),
        node_of(&["--include-defaults", "--include-overridden", "--user", "--repo", "--workspace", "--template"]).flags.to_set() == set!["--include-defaults"@, "--include-overridden"@, "--repo"@, "--template"@, "--user"@, "--workspace"@],
{
    lemma_flag_spellings_0();
    lemma_flag_spellings_1();
    lemma_flag_spellings_2();
    lemma_node_clean(&["--include-defaults", "--include-overridden", "--user", "--repo", "--workspace", "--template"]);
    let f = node_of(&["--include-defaults", "--include-overridden", "--user", "--repo", "--workspace", "--template"]).flags;
    assert(f.to_set() =~= set![f[0], f[1], f[2], f[3], f[4], f[5]]);
    assert(f.to_set() =~= set!["--include-defaults"@, "--include-overridden"@, "--repo"@, "--template"@, "--user"@, "--workspace"@]);
}

/// The flags of one of the nodes: distinct, starting with `--`, and which they are.
proof fn lemma_flag_list_46()
    ensures
        node_of(&["--limit", "--reversed", "--no-graph", "--template", "--op-diff", "--patch"]).clean(),
        node_of(&["--limit", "--reversed", "--no-graph", "--template", "--op-diff", "--patch"]).flags.to_set() == set!["--limit"@, "--no-graph"@, "--op-diff"@, "--patch"@, "--reversed"@, "--template"@],
{
    lemma_flag_spellings_0();
    lemma_flag_spellings_1();
    lemma_flag_spellings_2();
    lemma_node_clean(&["--limit", "--reversed", "--no-graph", "--template", "--op-diff", "--patch"]);
    let f = node_of(&["--limit", "--reversed", "--no-graph", "--template", "--op-diff", "--patch"]).flags;
    assert(f.to_set() =~= set![f[0], f[1], f[2], f[3], f[4], f[5]]);
    assert(f.to_set() =~= set!["--limit"@, "--no-graph"@, "--op-diff"@, "--patch"@, "--reversed"@, "--template"@]);
}

/// The flags of one of the nodes: distinct, starting with `--`, and which they are.
proof fn lemma_flag_list_47()
    ensures
        node_of(&["--remote", "--bookmark", "--all", "--change", "--revision", "--dry-run"]).clean(),
        node_of(&["--remote", "--bookmark", "--all", "--change", "--revision", "--dry-run"]).flags.to_set() == set!["--all"@, "--bookmark"@, "--change"@, "--dry-run"@, "--remote"@, "--revision"@],
{
    lemma_flag_spellings_0();
    lemma_flag_spellings_1();
    lemma_flag_spellings_2();
    lemma_node_clean(&["--remote", "--bookmark", "--all", "--change", "--revision", "--dry-run"]);
    let f = node_of(&["--remote", "--bookmark", "--all", "--change", "--revision", "--dry-run"]).flags;
    assert(f.to_set() =~= set![f[0], f[1], f[2], f[3], f[4], f[5]]);
    assert(f.to_set() =~= set!["--all"@, "--bookmark"@, "--change"@, "--dry-run"@, "--remote"@, "--revision"@]);
}

/// The flags of one of the nodes: distinct, starting with `--`, and which they are.
proof fn lemma_flag_list_48()
    ensures
        node_of(&["--revision", "--limit", "--reversed", "--no-graph", "--template", "--patch"]).clean(),
        node_of(&["--revision", "--limit", "--reversed", "--no-graph", "--template", "--patch"]).flags.to_set() == set!["--limit"@, "--no-graph"@, "--patch"@, "--reversed"@, "--revision"@, "--template"@],
{
    lemma_flag_spellings_0();
    lemma_flag_spellings_1();
    lemma_flag_spellings_2();
    lemma_node_clean(&["--revision", "--limit", "--reversed", "--no-graph", "--template", "--patch"]);
    let f = node_of(&["--revision", "--limit", "--reversed", "--no-graph", "--template", "--patch"]).flags;
    assert(f.to_set() =~= set![f[0], f[1], f[2], f[3], f[4], f[5]]);
    assert(f.to_set() =~= set!["--limit"@, "--no-graph"@, "--patch"@, "--reversed"@, "--revision"@, "--template"@]);
}

/// The flags of one of the nodes: distinct, starting with `--`, and which they are.
proof fn lemma_flag_list_49()
    ensures
        node_of(&["--branch", "--source", "--revision", "--onto", "--insert-after", "--insert-before", "--skip-emptied"]).clean(),
        node_of(&["--branch", "--source", "--revision", "--onto", "--insert-after", "--insert-before", "--skip-emptied"]).flags.to_set() == set!["--branch"@, "--insert-after"@, "--insert-before"@, "--onto"@, "--revision"@, "--skip-emptied"@, "--source"@],
{
    lemma_flag_spellings_0();
    lemma_flag_spellings_1();
    lemma_flag_spellings_2();
    lemma_node_clean(&["--branch", "--source", "--revision", "--onto", "--insert-after", "--insert-before", "--skip-emptied"]);
    let f = node_of(&["--branch", "--source", "--revision", "--onto", "--insert-after", "--insert-before", "--skip-emptied"]).flags;
    assert(f.to_set() =~= set![f[0], f[1], f[2], f[3], f[4], f[5], f[6]]);
    assert(f.to_set() =~= set!["--branch"@, "--insert-after"@, "--insert-before"@, "--onto"@, "--revision"@, "--skip-emptied"@, "--source"@]);
}

/// The flags of one of the nodes: distinct, starting with `--`, and which they are.
proof fn lemma_flag_list_50()
    ensures
        node_of(&["--revision", "--from", "--into", "--message", "--use-destination-message", "--interactive", "--tool", "--keep-emptied"]).clean(),
        node_of(&["--revision", "--from", "--into", "--message", "--use-destination-message", "--interactive", "--tool", "--keep-emptied"]).flags.to_set() == set!["--from"@, "--interactive"@, "--into"@, "--keep-emptied"@, "--message"@, "--revision"@, "--tool"@, "--use-destination-message"@],
{
    lemma_flag_spellings_0();
    lemma_flag_spellings_1();
    lemma_flag_spellings_2();
    lemma_node_clean(&["--revision", "--from", "--into", "--message", "--use-destination-message", "--interactive", "--tool", "--keep-emptied"]);
    let f = node_of(&["--revision", "--from", "--into", "--message", "--use-destination-message", "--interactive", "--tool", "--keep-emptied"]).flags;
    assert(f.to_set() =~= set![f[0], f[1], f[2], f[3], f[4], f[5], f[6], f[7]]);
    assert(f.to_set() =~= set!["--from"@, "--interactive"@, "--into"@, "--keep-emptied"@, "--message"@, "--revision"@, "--tool"@, "--use-destination-message"@]);
}

/// The flags of one of the nodes: distinct, starting with `--`, and which they are.
proof fn lemma_flag_list_51()
    ensures
        node_of(&["--repository", "--ignore-working-copy", "--ignore-immutable", "--at-operation", "--debug", "--color", "--quiet", "--no-pager", "--config"]).clean(),
        node_of(&["--repository", "--ignore-working-copy", "--ignore-immutable", "--at-operation", "--debug", "--color", "--quiet", "--no-pager", "--config"]).flags.to_set() == set!["--at-operation"@, "--color"@, "--config"@, "--debug"@, "--ignore-immutable"@, "--ignore-working-copy"@, "--no-pager"@, "--quiet"@, "--repository"@],
{
    lemma_flag_spellings_0();
    lemma_flag_spellings_1();
    lemma_flag_spellings_2();
    lemma_node_clean(&["--repository", "--ignore-working-copy", "--ignore-immutable", "--at-operation", "--debug", "--color", "--quiet", "--no-pager", "--config"]);
    let f = node_of(&["--repository", "--ignore-working-copy", "--ignore-immutable", "--at-operation", "--debug", "--color", "--quiet", "--no-pager", "--config"]).flags;
    assert(f.to_set() =~= set![f[0], f[1], f[2], f[3], f[4], f[5], f[6], f[7], f[8]]);
    assert(f.to_set() =~= set!["--at-operation"@, "--color"@, "--config"@, "--debug"@, "--ignore-immutable"@, "--ignore-working-copy"@, "--no-pager"@, "--quiet"@, "--repository"@]);
}

/// The flags of one of the nodes: distinct, starting with `--`, and which they are.
proof fn lemma_flag_list_52()
    ensures
        node_of(&["--template", "--summary", "--stat", "--types", "--name-only", "--git", "--color-words", "--tool", "--context", "--no-patch"]).clean(),
        node_of(&["--template", "--summary", "--stat", "--types", "--name-only", "--git", "--color-words", "--tool", "--context", "--no-patch"]).flags.to_set() == set!["--color-words"@, "--context"@, "--git"@, "--name-only"@, "--no-patch"@, "--stat"@, "--summary"@, "--template"@, "--tool"@, "--types"@],
{
    lemma_flag_spellings_0();
    lemma_flag_spellings_1();
    lemma_flag_spellings_2();
    lemma_node_clean(&["--template", "--summary", "--stat", "--types", "--name-only", "--git", "--color-words", "--tool", "--context", "--no-patch"]);
    let f = node_of(&["--template", "--summary", "--stat", "--types", "--name-only", "--git", "--color-words", "--tool", "--context", "--no-patch"]).flags;
    assert(f.to_set() =~= set![f[0], f[1], f[2], f[3], f[4], f[5], f[6], f[7], f[8], f[9]]);
    assert(f.to_set() =~= set!["--color-words"@, "--context"@, "--git"@, "--name-only"@, "--no-patch"@, "--stat"@, "--summary"@, "--template"@, "--tool"@, "--types"@]);
}

/// The flags of one of the nodes: distinct, starting with `--`, and which they are.
proof fn lemma_flag_list_53()
    ensures
        node_of(&["--revision", "--from", "--to", "--summary", "--stat", "--types", "--name-only", "--git", "--color-words", "--tool", "--context", "--ignore-all-space", "--ignore-space-change"]).clean(),
        node_of(&["--revision", "--from", "--to", "--summary", "--stat", "--types", "--name-only", "--git", "--color-words", "--tool", "--context", "--ignore-all-space", "--ignore-space-change"]).flags.to_set() == set!["--color-words"@, "--context"@, "--from"@, "--git"@, "--ignore-all-space"@, "--ignore-space-change"@, "--name-only"@, "--revision"@, "--stat"@, "--summary"@, "--to"@, "--tool"@, "--types"@],
{
    lemma_flag_spellings_0();
    lemma_flag_spellings_1();
    lemma_flag_spellings_2();
    lemma_node_clean(&["--revision", "--from", "--to", "--summary", "--stat", "--types", "--name-only", "--git", "--color-words", "--tool", "--context", "--ignore-all-space", "--ignore-space-change"]);
    let f = node_of(&["--revision", "--from", "--to", "--summary", "--stat", "--types", "--name-only", "--git", "--color-words", "--tool", "--context", "--ignore-all-space", "--ignore-space-change"]).flags;
    assert(f.to_set() =~= set![f[0], f[1], f[2], f[3], f[4], f[5], f[6], f[7], f[8], f[9], f[10], f[11], f[12]]);
    assert(f.to_set() =~= set!["--color-words"@, "--context"@, "--from"@, "--git"@, "--ignore-all-space"@, "--ignore-space-change"@, "--name-only"@, "--revision"@, "--stat"@, "--summary"@, "--to"@, "--tool"@, "--types"@]);
}

/// The flags of one of the nodes: distinct, starting with `--`, and which they are.
proof fn lemma_flag_list_54()
    ensures
        node_of(&["--revision", "--limit", "--reversed", "--no-graph", "--template", "--patch", "--summary", "--stat", "--git", "--color-words", "--context", "--name-only", "--types", "--count"]).clean(),
        node_of(&["--revision", "--limit", "--reversed", "--no-graph", "--template", "--patch", "--summary", "--stat", "--git", "--color-words", "--context", "--name-only", "--types", "--count"]).flags.to_set() == set!["--color-words"@, "--context"@, "--count"@, "--git"@, "--limit"@, "--name-only"@, "--no-graph"@, "--patch"@, "--reversed"@, "--revision"@, "--stat"@, "--summary"@, "--template"@, "--types"@],
{
    lemma_flag_spellings_0();
    lemma_flag_spellings_1();
    lemma_flag_spellings_2();
    lemma_node_clean(&["--revision", "--limit", "--reversed", "--no-graph", "--template", "--patch", "--summary", "--stat", "--git", "--color-words", "--context", "--name-only", "--types", "--count"]);
    let f = node_of(&["--revision", "--limit", "--reversed", "--no-graph", "--template", "--patch", "--summary", "--stat", "--git", "--color-words", "--context", "--name-only", "--types", "--count"]).flags;
    assert(f.to_set() =~= set![f[0], f[1], f[2], f[3], f[4], f[5], f[6], f[7], f[8], f[9], f[10], f[11], f[12], f[13]]);
    assert(f.to_set() =~= set!["--color-words"@, "--context"@, "--count"@, "--git"@, "--limit"@, "--name-only"@, "--no-graph"@, "--patch"@, "--reversed"@, "--revision"@, "--stat"@, "--summary"@, "--template"@, "--types"@]);
}

/// The `jj` command tree is clean: no completion is offered twice in it
/// (see `lemma_jj_completions_no_duplicates`).
pub proof fn lemma_jj_commands_clean()
    ensures
        jj_commands().clean(),
{

    lemma_name_spellings_0();
    lemma_name_spellings_1();
    lemma_name_spellings_2();
    lemma_name_spellings_3();
    lemma_name_spellings_4();
    lemma_flag_list_0();
    lemma_flag_list_1();
    lemma_flag_list_2();
    lemma_flag_list_3();
    lemma_flag_list_4();
    lemma_flag_list_5();
    lemma_flag_list_6();
    lemma_flag_list_7();
    lemma_flag_list_8();
    lemma_flag_list_9();
    lemma_flag_list_10();
    lemma_flag_list_11();
    lemma_flag_list_12();
    lemma_flag_list_13();
    lemma_flag_list_14();
    lemma_flag_list_15();
    lemma_flag_list_16();
    lemma_flag_list_17();
    lemma_flag_list_18();
    lemma_flag_list_19();
    lemma_flag_list_20();
    lemma_flag_list_21();
    lemma_flag_list_22();
    lemma_flag_list_23();
    lemma_flag_list_24();
    lemma_flag_list_25();
    lemma_flag_list_26();
    lemma_flag_list_27();
    lemma_flag_list_28();
    lemma_flag_list_29();
    lemma_flag_list_30();
    lemma_flag_list_31();
    lemma_flag_list_32();
    lemma_flag_list_33();
    lemma_flag_list_34();
    lemma_flag_list_35();
    lemma_flag_list_36();
    lemma_flag_list_37();
    lemma_flag_list_38();
    lemma_flag_list_39();
    lemma_flag_list_40();
    lemma_flag_list_41();
    lemma_flag_list_42();
    lemma_flag_list_43();
    lemma_flag_list_44();
    lemma_flag_list_45();
    lemma_flag_list_46();
    lemma_flag_list_47();
    lemma_flag_list_48();
    lemma_flag_list_49();
    lemma_flag_list_50();
    lemma_flag_list_51();
    lemma_flag_list_52();
    lemma_flag_list_53();
    lemma_flag_list_54();
    assert forall|t: CmdSpec, name: Seq<char>, n: CmdSpec|
        t.clean() && n.clean() && is_subcommand_name(name) implies #[trigger] t.with_child(name, n).clean() by {
        lemma_with_child_clean(t, name, n);
    }
}

/// In the `jj` command tree, no completion is offered twice: flags start
/// with `--`, subcommand names do not start with `-`, and neither repeats at
/// any node.
pub proof fn lemma_jj_completions_no_duplicates(tokens: Seq<Seq<char>>)
    ensures
        jj_commands().completions(tokens).no_duplicates(),
{
    lemma_jj_commands_clean();
    lemma_completions_no_duplicates(jj_commands(), tokens);
}

/// What a lookup in the `jj` command tree goes through: after
/// `with_child(name, n)` the subcommand `name` is `n` and the others are as
/// they were, the names gain `name`, and the flags stay.
proof fn table_facts()
    ensures
        forall|t: CmdSpec, name: Seq<char>, n: CmdSpec, m: Seq<char>|
            #![trigger t.with_child(name, n).has_child(m)]
            #![trigger t.with_child(name, n).child(m)]
            t.names().no_duplicates() ==> (m == name ==> t.with_child(name, n).has_child(m) && t.with_child(name, n).child(m) == n)
                && (m != name ==> t.with_child(name, n).has_child(m) == t.has_child(m)
                    && (t.has_child(m) ==> t.with_child(name, n).child(m) == t.child(m))),
        forall|t: CmdSpec, name: Seq<char>, n: CmdSpec| #![trigger t.with_child(name, n)]
            t.names().no_duplicates() ==> t.with_child(name, n).names().to_set() == t.names().to_set().insert(name)
                && t.with_child(name, n).flags == t.flags
                && t.with_child(name, n).names().no_duplicates(),
        forall|f: &[&str]| #![trigger node_of(f)]
            node_of(f).names().no_duplicates() && node_of(f).names().to_set() == Set::<Seq<char>>::empty(),
{
    assert forall|t: CmdSpec, name: Seq<char>, n: CmdSpec, m: Seq<char>|
        #![trigger t.with_child(name, n).has_child(m)]
        #![trigger t.with_child(name, n).child(m)]
        t.names().no_duplicates() implies (m == name ==> t.with_child(name, n).has_child(m) && t.with_child(name, n).child(m) == n)
            && (m != name ==> t.with_child(name, n).has_child(m) == t.has_child(m)
                && (t.has_child(m) ==> t.with_child(name, n).child(m) == t.child(m))) by {
        lemma_with_child_lookup(t, name, n, m);
    }
    assert forall|t: CmdSpec, name: Seq<char>, n: CmdSpec| #![trigger t.with_child(name, n)]
        t.names().no_duplicates() implies t.with_child(name, n).names().to_set() == t.names().to_set().insert(name)
            && t.with_child(name, n).flags == t.flags
            && t.with_child(name, n).names().no_duplicates() by {
        lemma_with_child_lookup(t, name, n, name);
    }
    assert forall|f: &[&str]| #![trigger node_of(f)]
        node_of(f).names().no_duplicates() && node_of(f).names().to_set() == Set::<Seq<char>>::empty() by {
        assert(node_of(f).names() =~= Seq::<Seq<char>>::empty());
        assert(Seq::<Seq<char>>::empty().to_set() =~= Set::<Seq<char>>::empty());
    }
}

proof fn lemma_node_top()
    ensures
        jj_commands().has_node(Seq::<Seq<char>>::empty(), set!["abandon"@, "absorb"@, "arrange"@, "bisect"@, "bookmark"@, "commit"@, "config"@, "describe"@, "diff"@, "diffedit"@, "duplicate"@, "edit"@, "evolog"@, "file"@, "fix"@, "gerrit"@, "git"@, "help"@, "interdiff"@, "log"@, "metaedit"@, "new"@, "next"@, "operation"@, "parallelize"@, "prev"@, "rebase"@, "redo"@, "resolve"@, "restore"@, "revert"@, "root"@, "show"@, "sign"@, "simplify-parents"@, "sparse"@, "split"@, "squash"@, "status"@, "tag"@, "undo"@, "unsign"@, "util"@, "version"@, "workspace"@], set!["--at-operation"@, "--color"@, "--config"@, "--debug"@, "--ignore-immutable"@, "--ignore-working-copy"@, "--no-pager"@, "--quiet"@, "--repository"@]),
{
    table_facts();
    lemma_flag_list_51();
    assert(jj_commands().node_at(Seq::<Seq<char>>::empty()).unwrap().names().to_set() =~= set!["abandon"@, "absorb"@, "arrange"@, "bisect"@, "bookmark"@, "commit"@, "config"@, "describe"@, "diff"@, "diffedit"@, "duplicate"@, "edit"@, "evolog"@, "file"@, "fix"@, "gerrit"@, "git"@, "help"@, "interdiff"@, "log"@, "metaedit"@, "new"@, "next"@, "operation"@, "parallelize"@, "prev"@, "rebase"@, "redo"@, "resolve"@, "restore"@, "revert"@, "root"@, "show"@, "sign"@, "simplify-parents"@, "sparse"@, "split"@, "squash"@, "status"@, "tag"@, "undo"@, "unsign"@, "util"@, "version"@, "workspace"@]);
}

proof fn lemma_node_abandon()
    ensures
        jj_commands().has_node(seq!["abandon"@], Set::<Seq<char>>::empty(), set!["--restore-descendants"@, "--retain-bookmarks"@]),
{
    table_facts();
    lemma_flag_list_14();
    reveal_with_fuel(CmdSpec::node_at, 4);
    lemma_names_apart_0();
    assert(jj_commands().node_at(seq!["abandon"@]).unwrap().names().to_set() =~= Set::<Seq<char>>::empty());
}

proof fn lemma_node_absorb()
    ensures
        jj_commands().has_node(seq!["absorb"@], Set::<Seq<char>>::empty(), set!["--from"@, "--into"@]),
{
    table_facts();
    lemma_flag_list_11();
    reveal_with_fuel(CmdSpec::node_at, 4);
    lemma_names_apart_0();
    assert(jj_commands().node_at(seq!["absorb"@]).unwrap().names().to_set() =~= Set::<Seq<char>>::empty());
}

proof fn lemma_node_arrange()
    ensures
        jj_commands().has_node(seq!["arrange"@], Set::<Seq<char>>::empty(), Set::<Seq<char>>::empty()),
{
    table_facts();
    lemma_flag_list_0();
    reveal_with_fuel(CmdSpec::node_at, 4);
    lemma_names_apart_1();
    assert(jj_commands().node_at(seq!["arrange"@]).unwrap().names().to_set() =~= Set::<Seq<char>>::empty());
}

proof fn lemma_node_bisect()
    ensures
        jj_commands().has_node(seq!["bisect"@], set!["run"@], Set::<Seq<char>>::empty()),
{
    table_facts();
    lemma_flag_list_0();
    reveal_with_fuel(CmdSpec::node_at, 4);
    lemma_names_apart_1();
    assert(jj_commands().node_at(seq!["bisect"@]).unwrap().names().to_set() =~= set!["run"@]);
}

proof fn lemma_node_bisect_run()
    ensures
        jj_commands().has_node(seq!["bisect"@, "run"@], Set::<Seq<char>>::empty(), set!["--find-good"@, "--range"@]),
{
    table_facts();
    lemma_flag_list_13();
    reveal_with_fuel(CmdSpec::node_at, 4);
    lemma_names_apart_1();
    assert(jj_commands().node_at(seq!["bisect"@, "run"@]).unwrap().names().to_set() =~= Set::<Seq<char>>::empty());
}

proof fn lemma_node_bookmark()
    ensures
        jj_commands().has_node(seq!["bookmark"@], set!["advance"@, "create"@, "delete"@, "forget"@, "list"@, "move"@, "rename"@, "set"@, "track"@, "untrack"@], Set::<Seq<char>>::empty()),
{
    table_facts();
    lemma_flag_list_0();
    reveal_with_fuel(CmdSpec::node_at, 4);
    lemma_names_apart_1();
    lemma_names_apart_2();
    assert(jj_commands().node_at(seq!["bookmark"@]).unwrap().names().to_set() =~= set!["advance"@, "create"@, "delete"@, "forget"@, "list"@, "move"@, "rename"@, "set"@, "track"@, "untrack"@]);
}

proof fn lemma_node_bookmark_advance()
    ensures
        jj_commands().has_node(seq!["bookmark"@, "advance"@], Set::<Seq<char>>::empty(), set!["--to"@]),
{
    table_facts();
    lemma_flag_list_8();
    reveal_with_fuel(CmdSpec::node_at, 4);
    lemma_names_apart_0();
    lemma_names_apart_1();
    lemma_names_apart_2();
    assert(jj_commands().node_at(seq!["bookmark"@, "advance"@]).unwrap().names().to_set() =~= Set::<Seq<char>>::empty());
}

proof fn lemma_node_bookmark_create()
    ensures
        jj_commands().has_node(seq!["bookmark"@, "create"@], Set::<Seq<char>>::empty(), set!["--revision"@]),
{
    table_facts();
    lemma_flag_list_6();
    reveal_with_fuel(CmdSpec::node_at, 4);
    lemma_names_apart_1();
    lemma_names_apart_2();
    lemma_names_apart_3();
    assert(jj_commands().node_at(seq!["bookmark"@, "create"@]).unwrap().names().to_set() =~= Set::<Seq<char>>::empty());
}

proof fn lemma_node_bookmark_delete()
    ensures
        jj_commands().has_node(seq!["bookmark"@, "delete"@], Set::<Seq<char>>::empty(), Set::<Seq<char>>::empty()),
{
    table_facts();
    lemma_flag_list_0();
    reveal_with_fuel(CmdSpec::node_at, 4);
    lemma_names_apart_1();
    lemma_names_apart_2();
    lemma_names_apart_3();
    assert(jj_commands().node_at(seq!["bookmark"@, "delete"@]).unwrap().names().to_set() =~= Set::<Seq<char>>::empty());
}

proof fn lemma_node_bookmark_forget()
    ensures
        jj_commands().has_node(seq!["bookmark"@, "forget"@], Set::<Seq<char>>::empty(), set!["--include-remotes"@]),
{
    table_facts();
    lemma_flag_list_2();
    reveal_with_fuel(CmdSpec::node_at, 4);
    lemma_names_apart_1();
    lemma_names_apart_2();
    lemma_names_apart_6();
    assert(jj_commands().node_at(seq!["bookmark"@, "forget"@]).unwrap().names().to_set() =~= Set::<Seq<char>>::empty());
}

proof fn lemma_node_bookmark_list()
    ensures
        jj_commands().has_node(seq!["bookmark"@, "list"@], Set::<Seq<char>>::empty(), set!["--all-remotes"@, "--conflicted"@, "--revision"@, "--sort"@, "--template"@, "--tracked"@]),
{
    table_facts();
    lemma_flag_list_42();
    reveal_with_fuel(CmdSpec::node_at, 4);
    lemma_names_apart_1();
    lemma_names_apart_2();
    lemma_names_apart_7();
    assert(jj_commands().node_at(seq!["bookmark"@, "list"@]).unwrap().names().to_set() =~= Set::<Seq<char>>::empty());
}

proof fn lemma_node_bookmark_move()
    ensures
        jj_commands().has_node(seq!["bookmark"@, "move"@], Set::<Seq<char>>::empty(), set!["--allow-backwards"@, "--from"@, "--to"@]),
{
    table_facts();
    lemma_flag_list_25();
    reveal_with_fuel(CmdSpec::node_at, 4);
    lemma_names_apart_1();
    lemma_names_apart_2();
    lemma_names_apart_8();
    assert(jj_commands().node_at(seq!["bookmark"@, "move"@]).unwrap().names().to_set() =~= Set::<Seq<char>>::empty());
}

proof fn lemma_node_bookmark_rename()
    ensures
        jj_commands().has_node(seq!["bookmark"@, "rename"@], Set::<Seq<char>>::empty(), set!["--overwrite-existing"@]),
{
    table_facts();
    lemma_flag_list_5();
    reveal_with_fuel(CmdSpec::node_at, 4);
    lemma_names_apart_1();
    lemma_names_apart_10();
    lemma_names_apart_2();
    assert(jj_commands().node_at(seq!["bookmark"@, "rename"@]).unwrap().names().to_set() =~= Set::<Seq<char>>::empty());
}

proof fn lemma_node_bookmark_set()
    ensures
        jj_commands().has_node(seq!["bookmark"@, "set"@], Set::<Seq<char>>::empty(), set!["--allow-backwards"@, "--revision"@]),
{
    table_facts();
    lemma_flag_list_15();
    reveal_with_fuel(CmdSpec::node_at, 4);
    lemma_names_apart_1();
    lemma_names_apart_10();
    lemma_names_apart_2();
    assert(jj_commands().node_at(seq!["bookmark"@, "set"@]).unwrap().names().to_set() =~= Set::<Seq<char>>::empty());
}

proof fn lemma_node_bookmark_track()
    ensures
        jj_commands().has_node(seq!["bookmark"@, "track"@], Set::<Seq<char>>::empty(), Set::<Seq<char>>::empty()),
{
    table_facts();
    lemma_flag_list_0();
    reveal_with_fuel(CmdSpec::node_at, 4);
    lemma_names_apart_1();
    lemma_names_apart_11();
    lemma_names_apart_2();
    assert(jj_commands().node_at(seq!["bookmark"@, "track"@]).unwrap().names().to_set() =~= Set::<Seq<char>>::empty());
}

proof fn lemma_node_bookmark_untrack()
    ensures
        jj_commands().has_node(seq!["bookmark"@, "untrack"@], Set::<Seq<char>>::empty(), Set::<Seq<char>>::empty()),
{
    table_facts();
    lemma_flag_list_0();
    reveal_with_fuel(CmdSpec::node_at, 4);
    lemma_names_apart_1();
    lemma_names_apart_2();
    assert(jj_commands().node_at(seq!["bookmark"@, "untrack"@]).unwrap().names().to_set() =~= Set::<Seq<char>>::empty());
}

proof fn lemma_node_commit()
    ensures
        jj_commands().has_node(seq!["commit"@], Set::<Seq<char>>::empty(), set!["--editor"@, "--interactive"@, "--message"@, "--tool"@]),
{
    table_facts();
    lemma_flag_list_32();
    reveal_with_fuel(CmdSpec::node_at, 4);
    lemma_names_apart_2();
    assert(jj_commands().node_at(seq!["commit"@]).unwrap().names().to_set() =~= Set::<Seq<char>>::empty());
}

proof fn lemma_node_config()
    ensures
        jj_commands().has_node(seq!["config"@], set!["edit"@, "get"@, "list"@, "path"@, "set"@, "unset"@], Set::<Seq<char>>::empty()),
{
    table_facts();
    lemma_flag_list_0();
    reveal_with_fuel(CmdSpec::node_at, 4);
    lemma_names_apart_2();
    lemma_names_apart_3();
    assert(jj_commands().node_at(seq!["config"@]).unwrap().names().to_set() =~= set!["edit"@, "get"@, "list"@, "path"@, "set"@, "unset"@]);
}

proof fn lemma_node_config_edit()
    ensures
        jj_commands().has_node(seq!["config"@, "edit"@], Set::<Seq<char>>::empty(), set!["--repo"@, "--user"@, "--workspace"@]),
{
    table_facts();
    lemma_flag_list_31();
    reveal_with_fuel(CmdSpec::node_at, 4);
    lemma_names_apart_2();
    lemma_names_apart_3();
    lemma_names_apart_5();
    assert(jj_commands().node_at(seq!["config"@, "edit"@]).unwrap().names().to_set() =~= Set::<Seq<char>>::empty());
}

proof fn lemma_node_config_get()
    ensures
        jj_commands().has_node(seq!["config"@, "get"@], Set::<Seq<char>>::empty(), Set::<Seq<char>>::empty()),
{
    table_facts();
    lemma_flag_list_0();
    reveal_with_fuel(CmdSpec::node_at, 4);
    lemma_names_apart_2();
    lemma_names_apart_3();
    lemma_names_apart_6();
    assert(jj_commands().node_at(seq!["config"@, "get"@]).unwrap().names().to_set() =~= Set::<Seq<char>>::empty());
}

proof fn lemma_node_config_list()
    ensures
        jj_commands().has_node(seq!["config"@, "list"@], Set::<Seq<char>>::empty(), set!["--include-defaults"@, "--include-overridden"@, "--repo"@, "--template"@, "--user"@, "--workspace"@]),
{
    table_facts();
    lemma_flag_list_45();
    reveal_with_fuel(CmdSpec::node_at, 4);
    lemma_names_apart_2();
    lemma_names_apart_3();
    lemma_names_apart_7();
    assert(jj_commands().node_at(seq!["config"@, "list"@]).unwrap().names().to_set() =~= Set::<Seq<char>>::empty());
}

proof fn lemma_node_config_path()
    ensures
        jj_commands().has_node(seq!["config"@, "path"@], Set::<Seq<char>>::empty(), set!["--repo"@, "--user"@, "--workspace"@]),
{
    table_facts();
    lemma_flag_list_31();
    reveal_with_fuel(CmdSpec::node_at, 4);
    lemma_names_apart_2();
    lemma_names_apart_3();
    lemma_names_apart_9();
    assert(jj_commands().node_at(seq!["config"@, "path"@]).unwrap().names().to_set() =~= Set::<Seq<char>>::empty());
}

proof fn lemma_node_config_set()
    ensures
        jj_commands().has_node(seq!["config"@, "set"@], Set::<Seq<char>>::empty(), set!["--repo"@, "--user"@, "--workspace"@]),
{
    table_facts();
    lemma_flag_list_31();
    reveal_with_fuel(CmdSpec::node_at, 4);
    lemma_names_apart_10();
    lemma_names_apart_2();
    lemma_names_apart_3();
    assert(jj_commands().node_at(seq!["config"@, "set"@]).unwrap().names().to_set() =~= Set::<Seq<char>>::empty());
}

proof fn lemma_node_config_unset()
    ensures
        jj_commands().has_node(seq!["config"@, "unset"@], Set::<Seq<char>>::empty(), set!["--repo"@, "--user"@, "--workspace"@]),
{
    table_facts();
    lemma_flag_list_31();
    reveal_with_fuel(CmdSpec::node_at, 4);
    lemma_names_apart_2();
    lemma_names_apart_3();
    assert(jj_commands().node_at(seq!["config"@, "unset"@]).unwrap().names().to_set() =~= Set::<Seq<char>>::empty());
}

proof fn lemma_node_describe()
    ensures
        jj_commands().has_node(seq!["describe"@], Set::<Seq<char>>::empty(), set!["--editor"@, "--message"@, "--reset-author"@]),
{
    table_facts();
    lemma_flag_list_26();
    reveal_with_fuel(CmdSpec::node_at, 4);
    lemma_names_apart_3();
    assert(jj_commands().node_at(seq!["describe"@]).unwrap().names().to_set() =~= Set::<Seq<char>>::empty());
}

proof fn lemma_node_diff()
    ensures
        jj_commands().has_node(seq!["diff"@], Set::<Seq<char>>::empty(), set!["--color-words"@, "--context"@, "--from"@, "--git"@, "--ignore-all-space"@, "--ignore-space-change"@, "--name-only"@, "--revision"@, "--stat"@, "--summary"@, "--to"@, "--tool"@, "--types"@]),
{
    table_facts();
    lemma_flag_list_53();
    reveal_with_fuel(CmdSpec::node_at, 4);
    lemma_names_apart_3();
    lemma_names_apart_4();
    assert(jj_commands().node_at(seq!["diff"@]).unwrap().names().to_set() =~= Set::<Seq<char>>::empty());
}

proof fn lemma_node_diffedit()
    ensures
        jj_commands().has_node(seq!["diffedit"@], Set::<Seq<char>>::empty(), set!["--from"@, "--restore-descendants"@, "--revision"@, "--to"@, "--tool"@]),
{
    table_facts();
    lemma_flag_list_41();
    reveal_with_fuel(CmdSpec::node_at, 4);
    lemma_names_apart_4();
    assert(jj_commands().node_at(seq!["diffedit"@]).unwrap().names().to_set() =~= Set::<Seq<char>>::empty());
}

proof fn lemma_node_duplicate()
    ensures
        jj_commands().has_node(seq!["duplicate"@], Set::<Seq<char>>::empty(), set!["--insert-after"@, "--insert-before"@, "--onto"@]),
{
    table_facts();
    lemma_flag_list_27();
    reveal_with_fuel(CmdSpec::node_at, 4);
    lemma_names_apart_4();
    lemma_names_apart_5();
    assert(jj_commands().node_at(seq!["duplicate"@]).unwrap().names().to_set() =~= Set::<Seq<char>>::empty());
}

proof fn lemma_node_edit()
    ensures
        jj_commands().has_node(seq!["edit"@], Set::<Seq<char>>::empty(), Set::<Seq<char>>::empty()),
{
    table_facts();
    lemma_flag_list_0();
    reveal_with_fuel(CmdSpec::node_at, 4);
    lemma_names_apart_5();
    assert(jj_commands().node_at(seq!["edit"@]).unwrap().names().to_set() =~= Set::<Seq<char>>::empty());
}

proof fn lemma_node_evolog()
    ensures
        jj_commands().has_node(seq!["evolog"@], Set::<Seq<char>>::empty(), set!["--limit"@, "--no-graph"@, "--patch"@, "--reversed"@, "--revision"@, "--template"@]),
{
    table_facts();
    lemma_flag_list_48();
    reveal_with_fuel(CmdSpec::node_at, 4);
    lemma_names_apart_5();
    assert(jj_commands().node_at(seq!["evolog"@]).unwrap().names().to_set() =~= Set::<Seq<char>>::empty());
}

proof fn lemma_node_file()
    ensures
        jj_commands().has_node(seq!["file"@], set!["annotate"@, "chmod"@, "list"@, "search"@, "show"@, "track"@, "untrack"@], Set::<Seq<char>>::empty()),
{
    table_facts();
    lemma_flag_list_0();
    reveal_with_fuel(CmdSpec::node_at, 4);
    lemma_names_apart_5();
    lemma_names_apart_6();
    assert(jj_commands().node_at(seq!["file"@]).unwrap().names().to_set() =~= set!["annotate"@, "chmod"@, "list"@, "search"@, "show"@, "track"@, "untrack"@]);
}

proof fn lemma_node_file_annotate()
    ensures
        jj_commands().has_node(seq!["file"@, "annotate"@], Set::<Seq<char>>::empty(), set!["--revision"@, "--template"@]),
{
    table_facts();
    lemma_flag_list_19();
    reveal_with_fuel(CmdSpec::node_at, 4);
    lemma_names_apart_1();
    lemma_names_apart_5();
    lemma_names_apart_6();
    assert(jj_commands().node_at(seq!["file"@, "annotate"@]).unwrap().names().to_set() =~= Set::<Seq<char>>::empty());
}

proof fn lemma_node_file_chmod()
    ensures
        jj_commands().has_node(seq!["file"@, "chmod"@], Set::<Seq<char>>::empty(), set!["--revision"@]),
{
    table_facts();
    lemma_flag_list_6();
    reveal_with_fuel(CmdSpec::node_at, 4);
    lemma_names_apart_2();
    lemma_names_apart_5();
    lemma_names_apart_6();
    assert(jj_commands().node_at(seq!["file"@, "chmod"@]).unwrap().names().to_set() =~= Set::<Seq<char>>::empty());
}

proof fn lemma_node_file_list()
    ensures
        jj_commands().has_node(seq!["file"@, "list"@], Set::<Seq<char>>::empty(), set!["--revision"@, "--template"@]),
{
    table_facts();
    lemma_flag_list_19();
    reveal_with_fuel(CmdSpec::node_at, 4);
    lemma_names_apart_5();
    lemma_names_apart_6();
    lemma_names_apart_7();
    assert(jj_commands().node_at(seq!["file"@, "list"@]).unwrap().names().to_set() =~= Set::<Seq<char>>::empty());
}

proof fn lemma_node_file_search()
    ensures
        jj_commands().has_node(seq!["file"@, "search"@], Set::<Seq<char>>::empty(), set!["--pattern"@, "--revision"@]),
{
    table_facts();
    lemma_flag_list_18();
    reveal_with_fuel(CmdSpec::node_at, 4);
    lemma_names_apart_10();
    lemma_names_apart_5();
    lemma_names_apart_6();
    assert(jj_commands().node_at(seq!["file"@, "search"@]).unwrap().names().to_set() =~= Set::<Seq<char>>::empty());
}

proof fn lemma_node_file_show()
    ensures
        jj_commands().has_node(seq!["file"@, "show"@], Set::<Seq<char>>::empty(), set!["--revision"@, "--template"@]),
{
    table_facts();
    lemma_flag_list_19();
    reveal_with_fuel(CmdSpec::node_at, 4);
    lemma_names_apart_10();
    lemma_names_apart_5();
    lemma_names_apart_6();
    assert(jj_commands().node_at(seq!["file"@, "show"@]).unwrap().names().to_set() =~= Set::<Seq<char>>::empty());
}

proof fn lemma_node_file_track()
    ensures
        jj_commands().has_node(seq!["file"@, "track"@], Set::<Seq<char>>::empty(), Set::<Seq<char>>::empty()),
{
    table_facts();
    lemma_flag_list_0();
    reveal_with_fuel(CmdSpec::node_at, 4);
    lemma_names_apart_11();
    lemma_names_apart_5();
    lemma_names_apart_6();
    assert(jj_commands().node_at(seq!["file"@, "track"@]).unwrap().names().to_set() =~= Set::<Seq<char>>::empty());
}

proof fn lemma_node_file_untrack()
    ensures
        jj_commands().has_node(seq!["file"@, "untrack"@], Set::<Seq<char>>::empty(), Set::<Seq<char>>::empty()),
{
    table_facts();
    lemma_flag_list_0();
    reveal_with_fuel(CmdSpec::node_at, 4);
    lemma_names_apart_5();
    lemma_names_apart_6();
    assert(jj_commands().node_at(seq!["file"@, "untrack"@]).unwrap().names().to_set() =~= Set::<Seq<char>>::empty());
}

proof fn lemma_node_fix()
    ensures
        jj_commands().has_node(seq!["fix"@], Set::<Seq<char>>::empty(), set!["--include-unchanged-files"@, "--source"@]),
{
    table_facts();
    lemma_flag_list_20();
    reveal_with_fuel(CmdSpec::node_at, 4);
    lemma_names_apart_6();
    assert(jj_commands().node_at(seq!["fix"@]).unwrap().names().to_set() =~= Set::<Seq<char>>::empty());
}

proof fn lemma_node_gerrit()
    ensures
        jj_commands().has_node(seq!["gerrit"@], set!["upload"@], Set::<Seq<char>>::empty()),
{
    table_facts();
    lemma_flag_list_0();
    reveal_with_fuel(CmdSpec::node_at, 4);
    lemma_names_apart_6();
    assert(jj_commands().node_at(seq!["gerrit"@]).unwrap().names().to_set() =~= set!["upload"@]);
}

proof fn lemma_node_gerrit_upload()
    ensures
        jj_commands().has_node(seq!["gerrit"@, "upload"@], Set::<Seq<char>>::empty(), set!["--revision"@]),
{
    table_facts();
    lemma_flag_list_6();
    reveal_with_fuel(CmdSpec::node_at, 4);
    lemma_names_apart_6();
    assert(jj_commands().node_at(seq!["gerrit"@, "upload"@]).unwrap().names().to_set() =~= Set::<Seq<char>>::empty());
}

proof fn lemma_node_git()
    ensures
        jj_commands().has_node(seq!["git"@], set!["clone"@, "colocation"@, "export"@, "fetch"@, "import"@, "init"@, "push"@, "remote"@, "root"@], Set::<Seq<char>>::empty()),
{
    table_facts();
    lemma_flag_list_0();
    reveal_with_fuel(CmdSpec::node_at, 4);
    lemma_names_apart_6();
    lemma_names_apart_7();
    assert(jj_commands().node_at(seq!["git"@]).unwrap().names().to_set() =~= set!["clone"@, "colocation"@, "export"@, "fetch"@, "import"@, "init"@, "push"@, "remote"@, "root"@]);
}

proof fn lemma_node_git_clone()
    ensures
        jj_commands().has_node(seq!["git"@, "clone"@], Set::<Seq<char>>::empty(), set!["--branch"@, "--colocate"@, "--depth"@, "--no-colocate"@, "--remote"@]),
{
    table_facts();
    lemma_flag_list_40();
    reveal_with_fuel(CmdSpec::node_at, 4);
    lemma_names_apart_2();
    lemma_names_apart_6();
    lemma_names_apart_7();
    assert(jj_commands().node_at(seq!["git"@, "clone"@]).unwrap().names().to_set() =~= Set::<Seq<char>>::empty());
}

proof fn lemma_node_git_colocation()
    ensures
        jj_commands().has_node(seq!["git"@, "colocation"@], set!["disable"@, "enable"@, "status"@], Set::<Seq<char>>::empty()),
{
    table_facts();
    lemma_flag_list_0();
    reveal_with_fuel(CmdSpec::node_at, 4);
    lemma_names_apart_2();
    lemma_names_apart_6();
    lemma_names_apart_7();
    assert(jj_commands().node_at(seq!["git"@, "colocation"@]).unwrap().names().to_set() =~= set!["disable"@, "enable"@, "status"@]);
}

proof fn lemma_node_git_colocation_disable()
    ensures
        jj_commands().has_node(seq!["git"@, "colocation"@, "disable"@], Set::<Seq<char>>::empty(), Set::<Seq<char>>::empty()),
{
    table_facts();
    lemma_flag_list_0();
    reveal_with_fuel(CmdSpec::node_at, 4);
    lemma_names_apart_2();
    lemma_names_apart_4();
    lemma_names_apart_6();
    lemma_names_apart_7();
    assert(jj_commands().node_at(seq!["git"@, "colocation"@, "disable"@]).unwrap().names().to_set() =~= Set::<Seq<char>>::empty());
}

proof fn lemma_node_git_colocation_enable()
    ensures
        jj_commands().has_node(seq!["git"@, "colocation"@, "enable"@], Set::<Seq<char>>::empty(), Set::<Seq<char>>::empty()),
{
    table_facts();
    lemma_flag_list_0();
    reveal_with_fuel(CmdSpec::node_at, 4);
    lemma_names_apart_2();
    lemma_names_apart_5();
    lemma_names_apart_6();
    lemma_names_apart_7();
    assert(jj_commands().node_at(seq!["git"@, "colocation"@, "enable"@]).unwrap().names().to_set() =~= Set::<Seq<char>>::empty());
}

proof fn lemma_node_git_colocation_status()
    ensures
        jj_commands().has_node(seq!["git"@, "colocation"@, "status"@], Set::<Seq<char>>::empty(), Set::<Seq<char>>::empty()),
{
    table_facts();
    lemma_flag_list_0();
    reveal_with_fuel(CmdSpec::node_at, 4);
    lemma_names_apart_2();
    lemma_names_apart_6();
    lemma_names_apart_7();
    assert(jj_commands().node_at(seq!["git"@, "colocation"@, "status"@]).unwrap().names().to_set() =~= Set::<Seq<char>>::empty());
}

proof fn lemma_node_git_export()
    ensures
        jj_commands().has_node(seq!["git"@, "export"@], Set::<Seq<char>>::empty(), Set::<Seq<char>>::empty()),
{
    table_facts();
    lemma_flag_list_0();
    reveal_with_fuel(CmdSpec::node_at, 4);
    lemma_names_apart_5();
    lemma_names_apart_6();
    lemma_names_apart_7();
    assert(jj_commands().node_at(seq!["git"@, "export"@]).unwrap().names().to_set() =~= Set::<Seq<char>>::empty());
}

proof fn lemma_node_git_fetch()
    ensures
        jj_commands().has_node(seq!["git"@, "fetch"@], Set::<Seq<char>>::empty(), set!["--all-remotes"@, "--branch"@, "--remote"@]),
{
    table_facts();
    lemma_flag_list_28();
    reveal_with_fuel(CmdSpec::node_at, 4);
    lemma_names_apart_5();
    lemma_names_apart_6();
    lemma_names_apart_7();
    assert(jj_commands().node_at(seq!["git"@, "fetch"@]).unwrap().names().to_set() =~= Set::<Seq<char>>::empty());
}

proof fn lemma_node_git_import()
    ensures
        jj_commands().has_node(seq!["git"@, "import"@], Set::<Seq<char>>::empty(), Set::<Seq<char>>::empty()),
{
    table_facts();
    lemma_flag_list_0();
    reveal_with_fuel(CmdSpec::node_at, 4);
    lemma_names_apart_6();
    lemma_names_apart_7();
    assert(jj_commands().node_at(seq!["git"@, "import"@]).unwrap().names().to_set() =~= Set::<Seq<char>>::empty());
}

proof fn lemma_node_git_init()
    ensures
        jj_commands().has_node(seq!["git"@, "init"@], Set::<Seq<char>>::empty(), set!["--colocate"@, "--git-repo"@, "--no-colocate"@]),
{
    table_facts();
    lemma_flag_list_23();
    reveal_with_fuel(CmdSpec::node_at, 4);
    lemma_names_apart_6();
    lemma_names_apart_7();
    assert(jj_commands().node_at(seq!["git"@, "init"@]).unwrap().names().to_set() =~= Set::<Seq<char>>::empty());
}

proof fn lemma_node_git_push()
    ensures
        jj_commands().has_node(seq!["git"@, "push"@], Set::<Seq<char>>::empty(), set!["--all"@, "--bookmark"@, "--change"@, "--dry-run"@, "--remote"@, "--revision"@]),
{
    table_facts();
    lemma_flag_list_47();
    reveal_with_fuel(CmdSpec::node_at, 4);
    lemma_names_apart_6();
    lemma_names_apart_7();
    lemma_names_apart_9();
    assert(jj_commands().node_at(seq!["git"@, "push"@]).unwrap().names().to_set() =~= Set::<Seq<char>>::empty());
}

proof fn lemma_node_git_remote()
    ensures
        jj_commands().has_node(seq!["git"@, "remote"@], set!["add"@, "list"@, "remove"@, "rename"@, "set-url"@], Set::<Seq<char>>::empty()),
{
    table_facts();
    lemma_flag_list_0();
    reveal_with_fuel(CmdSpec::node_at, 4);
    lemma_names_apart_6();
    lemma_names_apart_7();
    lemma_names_apart_9();
    assert(jj_commands().node_at(seq!["git"@, "remote"@]).unwrap().names().to_set() =~= set!["add"@, "list"@, "remove"@, "rename"@, "set-url"@]);
}

#[verifier::rlimit(50)]
proof fn lemma_node_git_remote_add()
    ensures
        jj_commands().has_node(seq!["git"@, "remote"@, "add"@], Set::<Seq<char>>::empty(), set!["--fetch-tags"@, "--push-url"@]),
{
    table_facts();
    lemma_flag_list_10();
    reveal_with_fuel(CmdSpec::node_at, 4);
    lemma_names_apart_0();
    lemma_names_apart_6();
    lemma_names_apart_7();
    lemma_names_apart_9();
    assert(jj_commands().node_at(seq!["git"@, "remote"@, "add"@]).unwrap().names().to_set() =~= Set::<Seq<char>>::empty());
}

proof fn lemma_node_git_remote_list()
    ensures
        jj_commands().has_node(seq!["git"@, "remote"@, "list"@], Set::<Seq<char>>::empty(), Set::<Seq<char>>::empty()),
{
    table_facts();
    lemma_flag_list_0();
    reveal_with_fuel(CmdSpec::node_at, 4);
    lemma_names_apart_6();
    lemma_names_apart_7();
    lemma_names_apart_9();
    assert(jj_commands().node_at(seq!["git"@, "remote"@, "list"@]).unwrap().names().to_set() =~= Set::<Seq<char>>::empty());
}

proof fn lemma_node_git_remote_remove()
    ensures
        jj_commands().has_node(seq!["git"@, "remote"@, "remove"@], Set::<Seq<char>>::empty(), Set::<Seq<char>>::empty()),
{
    table_facts();
    lemma_flag_list_0();
    reveal_with_fuel(CmdSpec::node_at, 4);
    lemma_names_apart_10();
    lemma_names_apart_6();
    lemma_names_apart_7();
    lemma_names_apart_9();
    assert(jj_commands().node_at(seq!["git"@, "remote"@, "remove"@]).unwrap().names().to_set() =~= Set::<Seq<char>>::empty());
}

proof fn lemma_node_git_remote_rename()
    ensures
        jj_commands().has_node(seq!["git"@, "remote"@, "rename"@], Set::<Seq<char>>::empty(), Set::<Seq<char>>::empty()),
{
    table_facts();
    lemma_flag_list_0();
    reveal_with_fuel(CmdSpec::node_at, 4);
    lemma_names_apart_10();
    lemma_names_apart_6();
    lemma_names_apart_7();
    lemma_names_apart_9();
    assert(jj_commands().node_at(seq!["git"@, "remote"@, "rename"@]).unwrap().names().to_set() =~= Set::<Seq<char>>::empty());
}

#[verifier::rlimit(50)]
proof fn lemma_node_git_remote_set_url()
    ensures
        jj_commands().has_node(seq!["git"@, "remote"@, "set-url"@], Set::<Seq<char>>::empty(), set!["--fetch"@, "--push"@]),
{
    table_facts();
    lemma_flag_list_12();
    reveal_with_fuel(CmdSpec::node_at, 4);
    lemma_names_apart_6();
    lemma_names_apart_7();
    lemma_names_apart_9();
    assert(jj_commands().node_at(seq!["git"@, "remote"@, "set-url"@]).unwrap().names().to_set() =~= Set::<Seq<char>>::empty());
}

proof fn lemma_node_git_root()
    ensures
        jj_commands().has_node(seq!["git"@, "root"@], Set::<Seq<char>>::empty(), Set::<Seq<char>>::empty()),
{
    table_facts();
    lemma_flag_list_0();
    reveal_with_fuel(CmdSpec::node_at, 4);
    lemma_names_apart_6();
    lemma_names_apart_7();
    assert(jj_commands().node_at(seq!["git"@, "root"@]).unwrap().names().to_set() =~= Set::<Seq<char>>::empty());
}

proof fn lemma_node_help()
    ensures
        jj_commands().has_node(seq!["help"@], Set::<Seq<char>>::empty(), set!["--keyword"@]),
{
    table_facts();
    lemma_flag_list_3();
    reveal_with_fuel(CmdSpec::node_at, 4);
    lemma_names_apart_7();
    assert(jj_commands().node_at(seq!["help"@]).unwrap().names().to_set() =~= Set::<Seq<char>>::empty());
}

proof fn lemma_node_interdiff()
    ensures
        jj_commands().has_node(seq!["interdiff"@], Set::<Seq<char>>::empty(), set!["--color-words"@, "--from"@, "--git"@, "--stat"@, "--summary"@, "--to"@]),
{
    table_facts();
    lemma_flag_list_44();
    reveal_with_fuel(CmdSpec::node_at, 4);
    lemma_names_apart_7();
    assert(jj_commands().node_at(seq!["interdiff"@]).unwrap().names().to_set() =~= Set::<Seq<char>>::empty());
}

proof fn lemma_node_log()
    ensures
        jj_commands().has_node(seq!["log"@], Set::<Seq<char>>::empty(), set!["--color-words"@, "--context"@, "--count"@, "--git"@, "--limit"@, "--name-only"@, "--no-graph"@, "--patch"@, "--reversed"@, "--revision"@, "--stat"@, "--summary"@, "--template"@, "--types"@]),
{
    table_facts();
    lemma_flag_list_54();
    reveal_with_fuel(CmdSpec::node_at, 4);
    lemma_names_apart_8();
    assert(jj_commands().node_at(seq!["log"@]).unwrap().names().to_set() =~= Set::<Seq<char>>::empty());
}

proof fn lemma_node_metaedit()
    ensures
        jj_commands().has_node(seq!["metaedit"@], Set::<Seq<char>>::empty(), set!["--message"@, "--update-author-timestamp"@, "--update-change-id"@]),
{
    table_facts();
    lemma_flag_list_30();
    reveal_with_fuel(CmdSpec::node_at, 4);
    lemma_names_apart_8();
    assert(jj_commands().node_at(seq!["metaedit"@]).unwrap().names().to_set() =~= Set::<Seq<char>>::empty());
}

proof fn lemma_node_new()
    ensures
        jj_commands().has_node(seq!["new"@], Set::<Seq<char>>::empty(), set!["--insert-after"@, "--insert-before"@, "--message"@, "--no-edit"@]),
{
    table_facts();
    lemma_flag_list_33();
    reveal_with_fuel(CmdSpec::node_at, 4);
    lemma_names_apart_8();
    assert(jj_commands().node_at(seq!["new"@]).unwrap().names().to_set() =~= Set::<Seq<char>>::empty());
}

proof fn lemma_node_next()
    ensures
        jj_commands().has_node(seq!["next"@], Set::<Seq<char>>::empty(), set!["--conflict"@, "--edit"@, "--no-edit"@]),
{
    table_facts();
    lemma_flag_list_24();
    reveal_with_fuel(CmdSpec::node_at, 4);
    lemma_names_apart_8();
    assert(jj_commands().node_at(seq!["next"@]).unwrap().names().to_set() =~= Set::<Seq<char>>::empty());
}

proof fn lemma_node_operation()
    ensures
        jj_commands().has_node(seq!["operation"@], set!["abandon"@, "diff"@, "integrate"@, "log"@, "restore"@, "revert"@, "show"@], Set::<Seq<char>>::empty()),
{
    table_facts();
    lemma_flag_list_0();
    reveal_with_fuel(CmdSpec::node_at, 4);
    lemma_names_apart_9();
    assert(jj_commands().node_at(seq!["operation"@]).unwrap().names().to_set() =~= set!["abandon"@, "diff"@, "integrate"@, "log"@, "restore"@, "revert"@, "show"@]);
}

proof fn lemma_node_operation_abandon()
    ensures
        jj_commands().has_node(seq!["operation"@, "abandon"@], Set::<Seq<char>>::empty(), Set::<Seq<char>>::empty()),
{
    table_facts();
    lemma_flag_list_0();
    reveal_with_fuel(CmdSpec::node_at, 4);
    lemma_names_apart_0();
    lemma_names_apart_9();
    assert(jj_commands().node_at(seq!["operation"@, "abandon"@]).unwrap().names().to_set() =~= Set::<Seq<char>>::empty());
}

proof fn lemma_node_operation_diff()
    ensures
        jj_commands().has_node(seq!["operation"@, "diff"@], Set::<Seq<char>>::empty(), set!["--from"@, "--no-graph"@, "--operation"@, "--patch"@, "--to"@]),
{
    table_facts();
    lemma_flag_list_39();
    reveal_with_fuel(CmdSpec::node_at, 4);
    lemma_names_apart_4();
    lemma_names_apart_9();
    assert(jj_commands().node_at(seq!["operation"@, "diff"@]).unwrap().names().to_set() =~= Set::<Seq<char>>::empty());
}

proof fn lemma_node_operation_integrate()
    ensures
        jj_commands().has_node(seq!["operation"@, "integrate"@], Set::<Seq<char>>::empty(), Set::<Seq<char>>::empty()),
{
    table_facts();
    lemma_flag_list_0();
    reveal_with_fuel(CmdSpec::node_at, 4);
    lemma_names_apart_7();
    lemma_names_apart_9();
    assert(jj_commands().node_at(seq!["operation"@, "integrate"@]).unwrap().names().to_set() =~= Set::<Seq<char>>::empty());
}

proof fn lemma_node_operation_log()
    ensures
        jj_commands().has_node(seq!["operation"@, "log"@], Set::<Seq<char>>::empty(), set!["--limit"@, "--no-graph"@, "--op-diff"@, "--patch"@, "--reversed"@, "--template"@]),
{
    table_facts();
    lemma_flag_list_46();
    reveal_with_fuel(CmdSpec::node_at, 4);
    lemma_names_apart_8();
    lemma_names_apart_9();
    assert(jj_commands().node_at(seq!["operation"@, "log"@]).unwrap().names().to_set() =~= Set::<Seq<char>>::empty());
}

proof fn lemma_node_operation_restore()
    ensures
        jj_commands().has_node(seq!["operation"@, "restore"@], Set::<Seq<char>>::empty(), set!["--what"@]),
{
    table_facts();
    lemma_flag_list_9();
    reveal_with_fuel(CmdSpec::node_at, 4);
    lemma_names_apart_10();
    lemma_names_apart_9();
    assert(jj_commands().node_at(seq!["operation"@, "restore"@]).unwrap().names().to_set() =~= Set::<Seq<char>>::empty());
}

proof fn lemma_node_operation_revert()
    ensures
        jj_commands().has_node(seq!["operation"@, "revert"@], Set::<Seq<char>>::empty(), set!["--what"@]),
{
    table_facts();
    lemma_flag_list_9();
    reveal_with_fuel(CmdSpec::node_at, 4);
    lemma_names_apart_10();
    lemma_names_apart_9();
    assert(jj_commands().node_at(seq!["operation"@, "revert"@]).unwrap().names().to_set() =~= Set::<Seq<char>>::empty());
}

proof fn lemma_node_operation_show()
    ensures
        jj_commands().has_node(seq!["operation"@, "show"@], Set::<Seq<char>>::empty(), set!["--no-graph"@, "--no-op-diff"@, "--patch"@, "--template"@]),
{
    table_facts();
    lemma_flag_list_35();
    reveal_with_fuel(CmdSpec::node_at, 4);
    lemma_names_apart_9();
    assert(jj_commands().node_at(seq!["operation"@, "show"@]).unwrap().names().to_set() =~= Set::<Seq<char>>::empty());
}

proof fn lemma_node_parallelize()
    ensures
        jj_commands().has_node(seq!["parallelize"@], Set::<Seq<char>>::empty(), Set::<Seq<char>>::empty()),
{
    table_facts();
    lemma_flag_list_0();
    reveal_with_fuel(CmdSpec::node_at, 4);
    lemma_names_apart_9();
    assert(jj_commands().node_at(seq!["parallelize"@]).unwrap().names().to_set() =~= Set::<Seq<char>>::empty());
}

proof fn lemma_node_prev()
    ensures
        jj_commands().has_node(seq!["prev"@], Set::<Seq<char>>::empty(), set!["--conflict"@, "--edit"@, "--no-edit"@]),
{
    table_facts();
    lemma_flag_list_24();
    reveal_with_fuel(CmdSpec::node_at, 4);
    lemma_names_apart_9();
    assert(jj_commands().node_at(seq!["prev"@]).unwrap().names().to_set() =~= Set::<Seq<char>>::empty());
}

proof fn lemma_node_rebase()
    ensures
        jj_commands().has_node(seq!["rebase"@], Set::<Seq<char>>::empty(), set!["--branch"@, "--insert-after"@, "--insert-before"@, "--onto"@, "--revision"@, "--skip-emptied"@, "--source"@]),
{
    table_facts();
    lemma_flag_list_49();
    reveal_with_fuel(CmdSpec::node_at, 4);
    lemma_names_apart_9();
    assert(jj_commands().node_at(seq!["rebase"@]).unwrap().names().to_set() =~= Set::<Seq<char>>::empty());
}

proof fn lemma_node_redo()
    ensures
        jj_commands().has_node(seq!["redo"@], Set::<Seq<char>>::empty(), Set::<Seq<char>>::empty()),
{
    table_facts();
    lemma_flag_list_0();
    reveal_with_fuel(CmdSpec::node_at, 4);
    lemma_names_apart_9();
    assert(jj_commands().node_at(seq!["redo"@]).unwrap().names().to_set() =~= Set::<Seq<char>>::empty());
}

proof fn lemma_node_resolve()
    ensures
        jj_commands().has_node(seq!["resolve"@], Set::<Seq<char>>::empty(), set!["--list"@, "--revision"@, "--tool"@]),
{
    table_facts();
    lemma_flag_list_29();
    reveal_with_fuel(CmdSpec::node_at, 4);
    lemma_names_apart_10();
    assert(jj_commands().node_at(seq!["resolve"@]).unwrap().names().to_set() =~= Set::<Seq<char>>::empty());
}

proof fn lemma_node_restore()
    ensures
        jj_commands().has_node(seq!["restore"@], Set::<Seq<char>>::empty(), set!["--changes-in"@, "--from"@, "--interactive"@, "--into"@, "--restore-descendants"@, "--tool"@]),
{
    table_facts();
    lemma_flag_list_43();
    reveal_with_fuel(CmdSpec::node_at, 4);
    lemma_names_apart_10();
    assert(jj_commands().node_at(seq!["restore"@]).unwrap().names().to_set() =~= Set::<Seq<char>>::empty());
}

proof fn lemma_node_revert()
    ensures
        jj_commands().has_node(seq!["revert"@], Set::<Seq<char>>::empty(), set!["--insert-after"@, "--insert-before"@, "--onto"@, "--revision"@]),
{
    table_facts();
    lemma_flag_list_36();
    reveal_with_fuel(CmdSpec::node_at, 4);
    lemma_names_apart_10();
    assert(jj_commands().node_at(seq!["revert"@]).unwrap().names().to_set() =~= Set::<Seq<char>>::empty());
}

proof fn lemma_node_root()
    ensures
        jj_commands().has_node(seq!["root"@], Set::<Seq<char>>::empty(), Set::<Seq<char>>::empty()),
{
    table_facts();
    lemma_flag_list_0();
    reveal_with_fuel(CmdSpec::node_at, 4);
    lemma_names_apart_10();
    assert(jj_commands().node_at(seq!["root"@]).unwrap().names().to_set() =~= Set::<Seq<char>>::empty());
}

proof fn lemma_node_show()
    ensures
        jj_commands().has_node(seq!["show"@], Set::<Seq<char>>::empty(), set!["--color-words"@, "--context"@, "--git"@, "--name-only"@, "--no-patch"@, "--stat"@, "--summary"@, "--template"@, "--tool"@, "--types"@]),
{
    table_facts();
    lemma_flag_list_52();
    reveal_with_fuel(CmdSpec::node_at, 4);
    lemma_names_apart_10();
    assert(jj_commands().node_at(seq!["show"@]).unwrap().names().to_set() =~= Set::<Seq<char>>::empty());
}

proof fn lemma_node_sign()
    ensures
        jj_commands().has_node(seq!["sign"@], Set::<Seq<char>>::empty(), set!["--key"@, "--revision"@]),
{
    table_facts();
    lemma_flag_list_17();
    reveal_with_fuel(CmdSpec::node_at, 4);
    lemma_names_apart_10();
    assert(jj_commands().node_at(seq!["sign"@]).unwrap().names().to_set() =~= Set::<Seq<char>>::empty());
}

proof fn lemma_node_simplify_parents()
    ensures
        jj_commands().has_node(seq!["simplify-parents"@], Set::<Seq<char>>::empty(), set!["--revision"@, "--source"@]),
{
    table_facts();
    lemma_flag_list_21();
    reveal_with_fuel(CmdSpec::node_at, 4);
    lemma_names_apart_10();
    lemma_names_apart_11();
    assert(jj_commands().node_at(seq!["simplify-parents"@]).unwrap().names().to_set() =~= Set::<Seq<char>>::empty());
}

proof fn lemma_node_sparse()
    ensures
        jj_commands().has_node(seq!["sparse"@], set!["edit"@, "list"@, "reset"@, "set"@], Set::<Seq<char>>::empty()),
{
    table_facts();
    lemma_flag_list_0();
    reveal_with_fuel(CmdSpec::node_at, 4);
    lemma_names_apart_11();
    assert(jj_commands().node_at(seq!["sparse"@]).unwrap().names().to_set() =~= set!["edit"@, "list"@, "reset"@, "set"@]);
}

proof fn lemma_node_sparse_edit()
    ensures
        jj_commands().has_node(seq!["sparse"@, "edit"@], Set::<Seq<char>>::empty(), Set::<Seq<char>>::empty()),
{
    table_facts();
    lemma_flag_list_0();
    reveal_with_fuel(CmdSpec::node_at, 4);
    lemma_names_apart_11();
    lemma_names_apart_5();
    assert(jj_commands().node_at(seq!["sparse"@, "edit"@]).unwrap().names().to_set() =~= Set::<Seq<char>>::empty());
}

proof fn lemma_node_sparse_list()
    ensures
        jj_commands().has_node(seq!["sparse"@, "list"@], Set::<Seq<char>>::empty(), Set::<Seq<char>>::empty()),
{
    table_facts();
    lemma_flag_list_0();
    reveal_with_fuel(CmdSpec::node_at, 4);
    lemma_names_apart_11();
    lemma_names_apart_7();
    assert(jj_commands().node_at(seq!["sparse"@, "list"@]).unwrap().names().to_set() =~= Set::<Seq<char>>::empty());
}

proof fn lemma_node_sparse_reset()
    ensures
        jj_commands().has_node(seq!["sparse"@, "reset"@], Set::<Seq<char>>::empty(), Set::<Seq<char>>::empty()),
{
    table_facts();
    lemma_flag_list_0();
    reveal_with_fuel(CmdSpec::node_at, 4);
    lemma_names_apart_10();
    lemma_names_apart_11();
    assert(jj_commands().node_at(seq!["sparse"@, "reset"@]).unwrap().names().to_set() =~= Set::<Seq<char>>::empty());
}

proof fn lemma_node_sparse_set()
    ensures
        jj_commands().has_node(seq!["sparse"@, "set"@], Set::<Seq<char>>::empty(), set!["--add"@, "--clear"@, "--remove"@]),
{
    table_facts();
    lemma_flag_list_22();
    reveal_with_fuel(CmdSpec::node_at, 4);
    lemma_names_apart_11();
    assert(jj_commands().node_at(seq!["sparse"@, "set"@]).unwrap().names().to_set() =~= Set::<Seq<char>>::empty());
}

proof fn lemma_node_split()
    ensures
        jj_commands().has_node(seq!["split"@], Set::<Seq<char>>::empty(), set!["--interactive"@, "--parallel"@, "--revision"@, "--tool"@]),
{
    table_facts();
    lemma_flag_list_37();
    reveal_with_fuel(CmdSpec::node_at, 4);
    lemma_names_apart_11();
    assert(jj_commands().node_at(seq!["split"@]).unwrap().names().to_set() =~= Set::<Seq<char>>::empty());
}

proof fn lemma_node_squash()
    ensures
        jj_commands().has_node(seq!["squash"@], Set::<Seq<char>>::empty(), set!["--from"@, "--interactive"@, "--into"@, "--keep-emptied"@, "--message"@, "--revision"@, "--tool"@, "--use-destination-message"@]),
{
    table_facts();
    lemma_flag_list_50();
    reveal_with_fuel(CmdSpec::node_at, 4);
    lemma_names_apart_11();
    assert(jj_commands().node_at(seq!["squash"@]).unwrap().names().to_set() =~= Set::<Seq<char>>::empty());
}

proof fn lemma_node_status()
    ensures
        jj_commands().has_node(seq!["status"@], Set::<Seq<char>>::empty(), Set::<Seq<char>>::empty()),
{
    table_facts();
    lemma_flag_list_0();
    reveal_with_fuel(CmdSpec::node_at, 4);
    lemma_names_apart_11();
    assert(jj_commands().node_at(seq!["status"@]).unwrap().names().to_set() =~= Set::<Seq<char>>::empty());
}

proof fn lemma_node_tag()
    ensures
        jj_commands().has_node(seq!["tag"@], set!["delete"@, "list"@, "set"@], Set::<Seq<char>>::empty()),
{
    table_facts();
    lemma_flag_list_0();
    reveal_with_fuel(CmdSpec::node_at, 4);
    lemma_names_apart_11();
    assert(jj_commands().node_at(seq!["tag"@]).unwrap().names().to_set() =~= set!["delete"@, "list"@, "set"@]);
}

proof fn lemma_node_tag_delete()
    ensures
        jj_commands().has_node(seq!["tag"@, "delete"@], Set::<Seq<char>>::empty(), Set::<Seq<char>>::empty()),
{
    table_facts();
    lemma_flag_list_0();
    reveal_with_fuel(CmdSpec::node_at, 4);
    lemma_names_apart_11();
    lemma_names_apart_3();
    assert(jj_commands().node_at(seq!["tag"@, "delete"@]).unwrap().names().to_set() =~= Set::<Seq<char>>::empty());
}

proof fn lemma_node_tag_list()
    ensures
        jj_commands().has_node(seq!["tag"@, "list"@], Set::<Seq<char>>::empty(), set!["--all-remotes"@, "--conflicted"@, "--revision"@, "--sort"@, "--template"@]),
{
    table_facts();
    lemma_flag_list_38();
    reveal_with_fuel(CmdSpec::node_at, 4);
    lemma_names_apart_11();
    lemma_names_apart_7();
    assert(jj_commands().node_at(seq!["tag"@, "list"@]).unwrap().names().to_set() =~= Set::<Seq<char>>::empty());
}

proof fn lemma_node_tag_set()
    ensures
        jj_commands().has_node(seq!["tag"@, "set"@], Set::<Seq<char>>::empty(), set!["--allow-move"@, "--revision"@]),
{
    table_facts();
    lemma_flag_list_16();
    reveal_with_fuel(CmdSpec::node_at, 4);
    lemma_names_apart_11();
    assert(jj_commands().node_at(seq!["tag"@, "set"@]).unwrap().names().to_set() =~= Set::<Seq<char>>::empty());
}

proof fn lemma_node_undo()
    ensures
        jj_commands().has_node(seq!["undo"@], Set::<Seq<char>>::empty(), Set::<Seq<char>>::empty()),
{
    table_facts();
    lemma_flag_list_0();
    reveal_with_fuel(CmdSpec::node_at, 4);
    lemma_names_apart_11();
    assert(jj_commands().node_at(seq!["undo"@]).unwrap().names().to_set() =~= Set::<Seq<char>>::empty());
}

proof fn lemma_node_unsign()
    ensures
        jj_commands().has_node(seq!["unsign"@], Set::<Seq<char>>::empty(), set!["--revision"@]),
{
    table_facts();
    lemma_flag_list_6();
    reveal_with_fuel(CmdSpec::node_at, 4);
    lemma_names_apart_11();
    assert(jj_commands().node_at(seq!["unsign"@]).unwrap().names().to_set() =~= Set::<Seq<char>>::empty());
}

proof fn lemma_node_util()
    ensures
        jj_commands().has_node(seq!["util"@], set!["completion"@, "config-schema"@, "exec"@, "gc"@, "install-man-pages"@, "markdown-help"@, "snapshot"@], Set::<Seq<char>>::empty()),
{
    table_facts();
    lemma_flag_list_0();
    reveal_with_fuel(CmdSpec::node_at, 4);
    lemma_names_apart_11();
    assert(jj_commands().node_at(seq!["util"@]).unwrap().names().to_set() =~= set!["completion"@, "config-schema"@, "exec"@, "gc"@, "install-man-pages"@, "markdown-help"@, "snapshot"@]);
}

proof fn lemma_node_util_completion()
    ensures
        jj_commands().has_node(seq!["util"@, "completion"@], Set::<Seq<char>>::empty(), Set::<Seq<char>>::empty()),
{
    table_facts();
    lemma_flag_list_0();
    reveal_with_fuel(CmdSpec::node_at, 4);
    lemma_names_apart_11();
    lemma_names_apart_2();
    assert(jj_commands().node_at(seq!["util"@, "completion"@]).unwrap().names().to_set() =~= Set::<Seq<char>>::empty());
}

proof fn lemma_node_util_config_schema()
    ensures
        jj_commands().has_node(seq!["util"@, "config-schema"@], Set::<Seq<char>>::empty(), Set::<Seq<char>>::empty()),
{
    table_facts();
    lemma_flag_list_0();
    reveal_with_fuel(CmdSpec::node_at, 4);
    lemma_names_apart_11();
    lemma_names_apart_3();
    assert(jj_commands().node_at(seq!["util"@, "config-schema"@]).unwrap().names().to_set() =~= Set::<Seq<char>>::empty());
}

proof fn lemma_node_util_exec()
    ensures
        jj_commands().has_node(seq!["util"@, "exec"@], Set::<Seq<char>>::empty(), Set::<Seq<char>>::empty()),
{
    table_facts();
    lemma_flag_list_0();
    reveal_with_fuel(CmdSpec::node_at, 4);
    lemma_names_apart_11();
    lemma_names_apart_5();
    assert(jj_commands().node_at(seq!["util"@, "exec"@]).unwrap().names().to_set() =~= Set::<Seq<char>>::empty());
}

proof fn lemma_node_util_gc()
    ensures
        jj_commands().has_node(seq!["util"@, "gc"@], Set::<Seq<char>>::empty(), set!["--expire"@]),
{
    table_facts();
    lemma_flag_list_1();
    reveal_with_fuel(CmdSpec::node_at, 4);
    lemma_names_apart_11();
    lemma_names_apart_6();
    assert(jj_commands().node_at(seq!["util"@, "gc"@]).unwrap().names().to_set() =~= Set::<Seq<char>>::empty());
}

proof fn lemma_node_util_install_man_pages()
    ensures
        jj_commands().has_node(seq!["util"@, "install-man-pages"@], Set::<Seq<char>>::empty(), Set::<Seq<char>>::empty()),
{
    table_facts();
    lemma_flag_list_0();
    reveal_with_fuel(CmdSpec::node_at, 4);
    lemma_names_apart_11();
    lemma_names_apart_7();
    assert(jj_commands().node_at(seq!["util"@, "install-man-pages"@]).unwrap().names().to_set() =~= Set::<Seq<char>>::empty());
}

proof fn lemma_node_util_markdown_help()
    ensures
        jj_commands().has_node(seq!["util"@, "markdown-help"@], Set::<Seq<char>>::empty(), Set::<Seq<char>>::empty()),
{
    table_facts();
    lemma_flag_list_0();
    reveal_with_fuel(CmdSpec::node_at, 4);
    lemma_names_apart_11();
    lemma_names_apart_8();
    assert(jj_commands().node_at(seq!["util"@, "markdown-help"@]).unwrap().names().to_set() =~= Set::<Seq<char>>::empty());
}

proof fn lemma_node_util_snapshot()
    ensures
        jj_commands().has_node(seq!["util"@, "snapshot"@], Set::<Seq<char>>::empty(), Set::<Seq<char>>::empty()),
{
    table_facts();
    lemma_flag_list_0();
    reveal_with_fuel(CmdSpec::node_at, 4);
    lemma_names_apart_11();
    assert(jj_commands().node_at(seq!["util"@, "snapshot"@]).unwrap().names().to_set() =~= Set::<Seq<char>>::empty());
}

proof fn lemma_node_version()
    ensures
        jj_commands().has_node(seq!["version"@], Set::<Seq<char>>::empty(), Set::<Seq<char>>::empty()),
{
    table_facts();
    lemma_flag_list_0();
    reveal_with_fuel(CmdSpec::node_at, 4);
    lemma_names_apart_11();
    assert(jj_commands().node_at(seq!["version"@]).unwrap().names().to_set() =~= Set::<Seq<char>>::empty());
}

proof fn lemma_node_workspace()
    ensures
        jj_commands().has_node(seq!["workspace"@], set!["add"@, "forget"@, "list"@, "rename"@, "root"@, "update-stale"@], Set::<Seq<char>>::empty()),
{
    table_facts();
    lemma_flag_list_0();
    reveal_with_fuel(CmdSpec::node_at, 4);
    assert(jj_commands().node_at(seq!["workspace"@]).unwrap().names().to_set() =~= set!["add"@, "forget"@, "list"@, "rename"@, "root"@, "update-stale"@]);
}

proof fn lemma_node_workspace_add()
    ensures
        jj_commands().has_node(seq!["workspace"@, "add"@], Set::<Seq<char>>::empty(), set!["--message"@, "--name"@, "--revision"@, "--sparse-patterns"@]),
{
    table_facts();
    lemma_flag_list_34();
    reveal_with_fuel(CmdSpec::node_at, 4);
    lemma_names_apart_0();
    assert(jj_commands().node_at(seq!["workspace"@, "add"@]).unwrap().names().to_set() =~= Set::<Seq<char>>::empty());
}

proof fn lemma_node_workspace_forget()
    ensures
        jj_commands().has_node(seq!["workspace"@, "forget"@], Set::<Seq<char>>::empty(), Set::<Seq<char>>::empty()),
{
    table_facts();
    lemma_flag_list_0();
    reveal_with_fuel(CmdSpec::node_at, 4);
    lemma_names_apart_6();
    assert(jj_commands().node_at(seq!["workspace"@, "forget"@]).unwrap().names().to_set() =~= Set::<Seq<char>>::empty());
}

proof fn lemma_node_workspace_list()
    ensures
        jj_commands().has_node(seq!["workspace"@, "list"@], Set::<Seq<char>>::empty(), set!["--template"@]),
{
    table_facts();
    lemma_flag_list_7();
    reveal_with_fuel(CmdSpec::node_at, 4);
    lemma_names_apart_7();
    lemma_names_apart_8();
    assert(jj_commands().node_at(seq!["workspace"@, "list"@]).unwrap().names().to_set() =~= Set::<Seq<char>>::empty());
}

proof fn lemma_node_workspace_rename()
    ensures
        jj_commands().has_node(seq!["workspace"@, "rename"@], Set::<Seq<char>>::empty(), Set::<Seq<char>>::empty()),
{
    table_facts();
    lemma_flag_list_0();
    reveal_with_fuel(CmdSpec::node_at, 4);
    lemma_names_apart_10();
    assert(jj_commands().node_at(seq!["workspace"@, "rename"@]).unwrap().names().to_set() =~= Set::<Seq<char>>::empty());
}

proof fn lemma_node_workspace_root()
    ensures
        jj_commands().has_node(seq!["workspace"@, "root"@], Set::<Seq<char>>::empty(), set!["--name"@]),
{
    table_facts();
    lemma_flag_list_4();
    reveal_with_fuel(CmdSpec::node_at, 4);
    lemma_names_apart_10();
    assert(jj_commands().node_at(seq!["workspace"@, "root"@]).unwrap().names().to_set() =~= Set::<Seq<char>>::empty());
}

proof fn lemma_node_workspace_update_stale()
    ensures
        jj_commands().has_node(seq!["workspace"@, "update-stale"@], Set::<Seq<char>>::empty(), Set::<Seq<char>>::empty()),
{
    table_facts();
    lemma_flag_list_0();
    reveal_with_fuel(CmdSpec::node_at, 4);
    assert(jj_commands().node_at(seq!["workspace"@, "update-stale"@]).unwrap().names().to_set() =~= Set::<Seq<char>>::empty());
}

/// The `jj` command tree, node by node: for each path of subcommand names
/// (the top level first), the names of the subcommands found there and
/// the flags offered there. With `lemma_node_at_completions` this fixes
/// what is offered after any words that name subcommands.
pub proof fn lemma_jj_command_table()
    ensures
        jj_commands().has_node(Seq::<Seq<char>>::empty(), set!["abandon"@, "absorb"@, "arrange"@, "bisect"@, "bookmark"@, "commit"@, "config"@, "describe"@, "diff"@, "diffedit"@, "duplicate"@, "edit"@, "evolog"@, "file"@, "fix"@, "gerrit"@, "git"@, "help"@, "interdiff"@, "log"@, "metaedit"@, "new"@, "next"@, "operation"@, "parallelize"@, "prev"@, "rebase"@, "redo"@, "resolve"@, "restore"@, "revert"@, "root"@, "show"@, "sign"@, "simplify-parents"@, "sparse"@, "split"@, "squash"@, "status"@, "tag"@, "undo"@, "unsign"@, "util"@, "version"@, "workspace"@], set!["--at-operation"@, "--color"@, "--config"@, "--debug"@, "--ignore-immutable"@, "--ignore-working-copy"@, "--no-pager"@, "--quiet"@, "--repository"@]),
        jj_commands().has_node(seq!["abandon"@], Set::<Seq<char>>::empty(), set!["--restore-descendants"@, "--retain-bookmarks"@]),
        jj_commands().has_node(seq!["absorb"@], Set::<Seq<char>>::empty(), set!["--from"@, "--into"@]),
        jj_commands().has_node(seq!["arrange"@], Set::<Seq<char>>::empty(), Set::<Seq<char>>::empty()),
        jj_commands().has_node(seq!["bisect"@], set!["run"@], Set::<Seq<char>>::empty()),
        jj_commands().has_node(seq!["bisect"@, "run"@], Set::<Seq<char>>::empty(), set!["--find-good"@, "--range"@]),
        jj_commands().has_node(seq!["bookmark"@], set!["advance"@, "create"@, "delete"@, "forget"@, "list"@, "move"@, "rename"@, "set"@, "track"@, "untrack"@], Set::<Seq<char>>::empty()),
        jj_commands().has_node(seq!["bookmark"@, "advance"@], Set::<Seq<char>>::empty(), set!["--to"@]),
        jj_commands().has_node(seq!["bookmark"@, "create"@], Set::<Seq<char>>::empty(), set!["--revision"@]),
        jj_commands().has_node(seq!["bookmark"@, "delete"@], Set::<Seq<char>>::empty(), Set::<Seq<char>>::empty()),
        jj_commands().has_node(seq!["bookmark"@, "forget"@], Set::<Seq<char>>::empty(), set!["--include-remotes"@]),
        jj_commands().has_node(seq!["bookmark"@, "list"@], Set::<Seq<char>>::empty(), set!["--all-remotes"@, "--conflicted"@, "--revision"@, "--sort"@, "--template"@, "--tracked"@]),
        jj_commands().has_node(seq!["bookmark"@, "move"@], Set::<Seq<char>>::empty(), set!["--allow-backwards"@, "--from"@, "--to"@]),
        jj_commands().has_node(seq!["bookmark"@, "rename"@], Set::<Seq<char>>::empty(), set!["--overwrite-existing"@]),
        jj_commands().has_node(seq!["bookmark"@, "set"@], Set::<Seq<char>>::empty(), set!["--allow-backwards"@, "--revision"@]),
        jj_commands().has_node(seq!["bookmark"@, "track"@], Set::<Seq<char>>::empty(), Set::<Seq<char>>::empty()),
        jj_commands().has_node(seq!["bookmark"@, "untrack"@], Set::<Seq<char>>::empty(), Set::<Seq<char>>::empty()),
        jj_commands().has_node(seq!["commit"@], Set::<Seq<char>>::empty(), set!["--editor"@, "--interactive"@, "--message"@, "--tool"@]),
        jj_commands().has_node(seq!["config"@], set!["edit"@, "get"@, "list"@, "path"@, "set"@, "unset"@], Set::<Seq<char>>::empty()),
        jj_commands().has_node(seq!["config"@, "edit"@], Set::<Seq<char>>::empty(), set!["--repo"@, "--user"@, "--workspace"@]),
        jj_commands().has_node(seq!["config"@, "get"@], Set::<Seq<char>>::empty(), Set::<Seq<char>>::empty()),
        jj_commands().has_node(seq!["config"@, "list"@], Set::<Seq<char>>::empty(), set!["--include-defaults"@, "--include-overridden"@, "--repo"@, "--template"@, "--user"@, "--workspace"@]),
        jj_commands().has_node(seq!["config"@, "path"@], Set::<Seq<char>>::empty(), set!["--repo"@, "--user"@, "--workspace"@]),
        jj_commands().has_node(seq!["config"@, "set"@], Set::<Seq<char>>::empty(), set!["--repo"@, "--user"@, "--workspace"@]),
        jj_commands().has_node(seq!["config"@, "unset"@], Set::<Seq<char>>::empty(), set!["--repo"@, "--user"@, "--workspace"@]),
        jj_commands().has_node(seq!["describe"@], Set::<Seq<char>>::empty(), set!["--editor"@, "--message"@, "--reset-author"@]),
        jj_commands().has_node(seq!["diff"@], Set::<Seq<char>>::empty(), set!["--color-words"@, "--context"@, "--from"@, "--git"@, "--ignore-all-space"@, "--ignore-space-change"@, "--name-only"@, "--revision"@, "--stat"@, "--summary"@, "--to"@, "--tool"@, "--types"@]),
        jj_commands().has_node(seq!["diffedit"@], Set::<Seq<char>>::empty(), set!["--from"@, "--restore-descendants"@, "--revision"@, "--to"@, "--tool"@]),
        jj_commands().has_node(seq!["duplicate"@], Set::<Seq<char>>::empty(), set!["--insert-after"@, "--insert-before"@, "--onto"@]),
        jj_commands().has_node(seq!["edit"@], Set::<Seq<char>>::empty(), Set::<Seq<char>>::empty()),
        jj_commands().has_node(seq!["evolog"@], Set::<Seq<char>>::empty(), set!["--limit"@, "--no-graph"@, "--patch"@, "--reversed"@, "--revision"@, "--template"@]),
        jj_commands().has_node(seq!["file"@], set!["annotate"@, "chmod"@, "list"@, "search"@, "show"@, "track"@, "untrack"@], Set::<Seq<char>>::empty()),
        jj_commands().has_node(seq!["file"@, "annotate"@], Set::<Seq<char>>::empty(), set!["--revision"@, "--template"@]),
        jj_commands().has_node(seq!["file"@, "chmod"@], Set::<Seq<char>>::empty(), set!["--revision"@]),
        jj_commands().has_node(seq!["file"@, "list"@], Set::<Seq<char>>::empty(), set!["--revision"@, "--template"@]),
        jj_commands().has_node(seq!["file"@, "search"@], Set::<Seq<char>>::empty(), set!["--pattern"@, "--revision"@]),
        jj_commands().has_node(seq!["file"@, "show"@], Set::<Seq<char>>::empty(), set!["--revision"@, "--template"@]),
        jj_commands().has_node(seq!["file"@, "track"@], Set::<Seq<char>>::empty(), Set::<Seq<char>>::empty()),
        jj_commands().has_node(seq!["file"@, "untrack"@], Set::<Seq<char>>::empty(), Set::<Seq<char>>::empty()),
        jj_commands().has_node(seq!["fix"@], Set::<Seq<char>>::empty(), set!["--include-unchanged-files"@, "--source"@]),
        jj_commands().has_node(seq!["gerrit"@], set!["upload"@], Set::<Seq<char>>::empty()),
        jj_commands().has_node(seq!["gerrit"@, "upload"@], Set::<Seq<char>>::empty(), set!["--revision"@]),
        jj_commands().has_node(seq!["git"@], set!["clone"@, "colocation"@, "export"@, "fetch"@, "import"@, "init"@, "push"@, "remote"@, "root"@], Set::<Seq<char>>::empty()),
        jj_commands().has_node(seq!["git"@, "clone"@], Set::<Seq<char>>::empty(), set!["--branch"@, "--colocate"@, "--depth"@, "--no-colocate"@, "--remote"@]),
        jj_commands().has_node(seq!["git"@, "colocation"@], set!["disable"@, "enable"@, "status"@], Set::<Seq<char>>::empty()),
        jj_commands().has_node(seq!["git"@, "colocation"@, "disable"@], Set::<Seq<char>>::empty(), Set::<Seq<char>>::empty()),
        jj_commands().has_node(seq!["git"@, "colocation"@, "enable"@], Set::<Seq<char>>::empty(), Set::<Seq<char>>::empty()),
        jj_commands().has_node(seq!["git"@, "colocation"@, "status"@], Set::<Seq<char>>::empty(), Set::<Seq<char>>::empty()),
        jj_commands().has_node(seq!["git"@, "export"@], Set::<Seq<char>>::empty(), Set::<Seq<char>>::empty()),
        jj_commands().has_node(seq!["git"@, "fetch"@], Set::<Seq<char>>::empty(), set!["--all-remotes"@, "--branch"@, "--remote"@]),
        jj_commands().has_node(seq!["git"@, "import"@], Set::<Seq<char>>::empty(), Set::<Seq<char>>::empty()),
        jj_commands().has_node(seq!["git"@, "init"@], Set::<Seq<char>>::empty(), set!["--colocate"@, "--git-repo"@, "--no-colocate"@]),
        jj_commands().has_node(seq!["git"@, "push"@], Set::<Seq<char>>::empty(), set!["--all"@, "--bookmark"@, "--change"@, "--dry-run"@, "--remote"@, "--revision"@]),
        jj_commands().has_node(seq!["git"@, "remote"@], set!["add"@, "list"@, "remove"@, "rename"@, "set-url"@], Set::<Seq<char>>::empty()),
        jj_commands().has_node(seq!["git"@, "remote"@, "add"@], Set::<Seq<char>>::empty(), set!["--fetch-tags"@, "--push-url"@]),
        jj_commands().has_node(seq!["git"@, "remote"@, "list"@], Set::<Seq<char>>::empty(), Set::<Seq<char>>::empty()),
        jj_commands().has_node(seq!["git"@, "remote"@, "remove"@], Set::<Seq<char>>::empty(), Set::<Seq<char>>::empty()),
        jj_commands().has_node(seq!["git"@, "remote"@, "rename"@], Set::<Seq<char>>::empty(), Set::<Seq<char>>::empty()),
        jj_commands().has_node(seq!["git"@, "remote"@, "set-url"@], Set::<Seq<char>>::empty(), set!["--fetch"@, "--push"@]),
        jj_commands().has_node(seq!["git"@, "root"@], Set::<Seq<char>>::empty(), Set::<Seq<char>>::empty()),
        jj_commands().has_node(seq!["help"@], Set::<Seq<char>>::empty(), set!["--keyword"@]),
        jj_commands().has_node(seq!["interdiff"@], Set::<Seq<char>>::empty(), set!["--color-words"@, "--from"@, "--git"@, "--stat"@, "--summary"@, "--to"@]),
        jj_commands().has_node(seq!["log"@], Set::<Seq<char>>::empty(), set!["--color-words"@, "--context"@, "--count"@, "--git"@, "--limit"@, "--name-only"@, "--no-graph"@, "--patch"@, "--reversed"@, "--revision"@, "--stat"@, "--summary"@, "--template"@, "--types"@]),
        jj_commands().has_node(seq!["metaedit"@], Set::<Seq<char>>::empty(), set!["--message"@, "--update-author-timestamp"@, "--update-change-id"@]),
        jj_commands().has_node(seq!["new"@], Set::<Seq<char>>::empty(), set!["--insert-after"@, "--insert-before"@, "--message"@, "--no-edit"@]),
        jj_commands().has_node(seq!["next"@], Set::<Seq<char>>::empty(), set!["--conflict"@, "--edit"@, "--no-edit"@]),
        jj_commands().has_node(seq!["operation"@], set!["abandon"@, "diff"@, "integrate"@, "log"@, "restore"@, "revert"@, "show"@], Set::<Seq<char>>::empty()),
        jj_commands().has_node(seq!["operation"@, "abandon"@], Set::<Seq<char>>::empty(), Set::<Seq<char>>::empty()),
        jj_commands().has_node(seq!["operation"@, "diff"@], Set::<Seq<char>>::empty(), set!["--from"@, "--no-graph"@, "--operation"@, "--patch"@, "--to"@]),
        jj_commands().has_node(seq!["operation"@, "integrate"@], Set::<Seq<char>>::empty(), Set::<Seq<char>>::empty()),
        jj_commands().has_node(seq!["operation"@, "log"@], Set::<Seq<char>>::empty(), set!["--limit"@, "--no-graph"@, "--op-diff"@, "--patch"@, "--reversed"@, "--template"@]),
        jj_commands().has_node(seq!["operation"@, "restore"@], Set::<Seq<char>>::empty(), set!["--what"@]),
        jj_commands().has_node(seq!["operation"@, "revert"@], Set::<Seq<char>>::empty(), set!["--what"@]),
        jj_commands().has_node(seq!["operation"@, "show"@], Set::<Seq<char>>::empty(), set!["--no-graph"@, "--no-op-diff"@, "--patch"@, "--template"@]),
        jj_commands().has_node(seq!["parallelize"@], Set::<Seq<char>>::empty(), Set::<Seq<char>>::empty()),
        jj_commands().has_node(seq!["prev"@], Set::<Seq<char>>::empty(), set!["--conflict"@, "--edit"@, "--no-edit"@]),
        jj_commands().has_node(seq!["rebase"@], Set::<Seq<char>>::empty(), set!["--branch"@, "--insert-after"@, "--insert-before"@, "--onto"@, "--revision"@, "--skip-emptied"@, "--source"@]),
        jj_commands().has_node(seq!["redo"@], Set::<Seq<char>>::empty(), Set::<Seq<char>>::empty()),
        jj_commands().has_node(seq!["resolve"@], Set::<Seq<char>>::empty(), set!["--list"@, "--revision"@, "--tool"@]),
        jj_commands().has_node(seq!["restore"@], Set::<Seq<char>>::empty(), set!["--changes-in"@, "--from"@, "--interactive"@, "--into"@, "--restore-descendants"@, "--tool"@]),
        jj_commands().has_node(seq!["revert"@], Set::<Seq<char>>::empty(), set!["--insert-after"@, "--insert-before"@, "--onto"@, "--revision"@]),
        jj_commands().has_node(seq!["root"@], Set::<Seq<char>>::empty(), Set::<Seq<char>>::empty()),
        jj_commands().has_node(seq!["show"@], Set::<Seq<char>>::empty(), set!["--color-words"@, "--context"@, "--git"@, "--name-only"@, "--no-patch"@, "--stat"@, "--summary"@, "--template"@, "--tool"@, "--types"@]),
        jj_commands().has_node(seq!["sign"@], Set::<Seq<char>>::empty(), set!["--key"@, "--revision"@]),
        jj_commands().has_node(seq!["simplify-parents"@], Set::<Seq<char>>::empty(), set!["--revision"@, "--source"@]),
        jj_commands().has_node(seq!["sparse"@], set!["edit"@, "list"@, "reset"@, "set"@], Set::<Seq<char>>::empty()),
        jj_commands().has_node(seq!["sparse"@, "edit"@], Set::<Seq<char>>::empty(), Set::<Seq<char>>::empty()),
        jj_commands().has_node(seq!["sparse"@, "list"@], Set::<Seq<char>>::empty(), Set::<Seq<char>>::empty()),
        jj_commands().has_node(seq!["sparse"@, "reset"@], Set::<Seq<char>>::empty(), Set::<Seq<char>>::empty()),
        jj_commands().has_node(seq!["sparse"@, "set"@], Set::<Seq<char>>::empty(), set!["--add"@, "--clear"@, "--remove"@]),
        jj_commands().has_node(seq!["split"@], Set::<Seq<char>>::empty(), set!["--interactive"@, "--parallel"@, "--revision"@, "--tool"@]),
        jj_commands().has_node(seq!["squash"@], Set::<Seq<char>>::empty(), set!["--from"@, "--interactive"@, "--into"@, "--keep-emptied"@, "--message"@, "--revision"@, "--tool"@, "--use-destination-message"@]),
        jj_commands().has_node(seq!["status"@], Set::<Seq<char>>::empty(), Set::<Seq<char>>::empty()),
        jj_commands().has_node(seq!["tag"@], set!["delete"@, "list"@, "set"@], Set::<Seq<char>>::empty()),
        jj_commands().has_node(seq!["tag"@, "delete"@], Set::<Seq<char>>::empty(), Set::<Seq<char>>::empty()),
        jj_commands().has_node(seq!["tag"@, "list"@], Set::<Seq<char>>::empty(), set!["--all-remotes"@, "--conflicted"@, "--revision"@, "--sort"@, "--template"@]),
        jj_commands().has_node(seq!["tag"@, "set"@], Set::<Seq<char>>::empty(), set!["--allow-move"@, "--revision"@]),
        jj_commands().has_node(seq!["undo"@], Set::<Seq<char>>::empty(), Set::<Seq<char>>::empty()),
        jj_commands().has_node(seq!["unsign"@], Set::<Seq<char>>::empty(), set!["--revision"@]),
        jj_commands().has_node(seq!["util"@], set!["completion"@, "config-schema"@, "exec"@, "gc"@, "install-man-pages"@, "markdown-help"@, "snapshot"@], Set::<Seq<char>>::empty()),
        jj_commands().has_node(seq!["util"@, "completion"@], Set::<Seq<char>>::empty(), Set::<Seq<char>>::empty()),
        jj_commands().has_node(seq!["util"@, "config-schema"@], Set::<Seq<char>>::empty(), Set::<Seq<char>>::empty()),
        jj_commands().has_node(seq!["util"@, "exec"@], Set::<Seq<char>>::empty(), Set::<Seq<char>>::empty()),
        jj_commands().has_node(seq!["util"@, "gc"@], Set::<Seq<char>>::empty(), set!["--expire"@]),
        jj_commands().has_node(seq!["util"@, "install-man-pages"@], Set::<Seq<char>>::empty(), Set::<Seq<char>>::empty()),
        jj_commands().has_node(seq!["util"@, "markdown-help"@], Set::<Seq<char>>::empty(), Set::<Seq<char>>::empty()),
        jj_commands().has_node(seq!["util"@, "snapshot"@], Set::<Seq<char>>::empty(), Set::<Seq<char>>::empty()),
        jj_commands().has_node(seq!["version"@], Set::<Seq<char>>::empty(), Set::<Seq<char>>::empty()),
        jj_commands().has_node(seq!["workspace"@], set!["add"@, "forget"@, "list"@, "rename"@, "root"@, "update-stale"@], Set::<Seq<char>>::empty()),
        jj_commands().has_node(seq!["workspace"@, "add"@], Set::<Seq<char>>::empty(), set!["--message"@, "--name"@, "--revision"@, "--sparse-patterns"@]),
        jj_commands().has_node(seq!["workspace"@, "forget"@], Set::<Seq<char>>::empty(), Set::<Seq<char>>::empty()),
        jj_commands().has_node(seq!["workspace"@, "list"@], Set::<Seq<char>>::empty(), set!["--template"@]),
        jj_commands().has_node(seq!["workspace"@, "rename"@], Set::<Seq<char>>::empty(), Set::<Seq<char>>::empty()),
        jj_commands().has_node(seq!["workspace"@, "root"@], Set::<Seq<char>>::empty(), set!["--name"@]),
        jj_commands().has_node(seq!["workspace"@, "update-stale"@], Set::<Seq<char>>::empty(), Set::<Seq<char>>::empty()),
{
    lemma_node_top();
    lemma_node_abandon();
    lemma_node_absorb();
    lemma_node_arrange();
    lemma_node_bisect();
    lemma_node_bisect_run();
    lemma_node_bookmark();
    lemma_node_bookmark_advance();
    lemma_node_bookmark_create();
    lemma_node_bookmark_delete();
    lemma_node_bookmark_forget();
    lemma_node_bookmark_list();
    lemma_node_bookmark_move();
    lemma_node_bookmark_rename();
    lemma_node_bookmark_set();
    lemma_node_bookmark_track();
    lemma_node_bookmark_untrack();
    lemma_node_commit();
    lemma_node_config();
    lemma_node_config_edit();
    lemma_node_config_get();
    lemma_node_config_list();
    lemma_node_config_path();
    lemma_node_config_set();
    lemma_node_config_unset();
    lemma_node_describe();
    lemma_node_diff();
    lemma_node_diffedit();
    lemma_node_duplicate();
    lemma_node_edit();
    lemma_node_evolog();
    lemma_node_file();
    lemma_node_file_annotate();
    lemma_node_file_chmod();
    lemma_node_file_list();
    lemma_node_file_search();
    lemma_node_file_show();
    lemma_node_file_track();
    lemma_node_file_untrack();
    lemma_node_fix();
    lemma_node_gerrit();
    lemma_node_gerrit_upload();
    lemma_node_git();
    lemma_node_git_clone();
    lemma_node_git_colocation();
    lemma_node_git_colocation_disable();
    lemma_node_git_colocation_enable();
    lemma_node_git_colocation_status();
    lemma_node_git_export();
    lemma_node_git_fetch();
    lemma_node_git_import();
    lemma_node_git_init();
    lemma_node_git_push();
    lemma_node_git_remote();
    lemma_node_git_remote_add();
    lemma_node_git_remote_list();
    lemma_node_git_remote_remove();
    lemma_node_git_remote_rename();
    lemma_node_git_remote_set_url();
    lemma_node_git_root();
    lemma_node_help();
    lemma_node_interdiff();
    lemma_node_log();
    lemma_node_metaedit();
    lemma_node_new();
    lemma_node_next();
    lemma_node_operation();
    lemma_node_operation_abandon();
    lemma_node_operation_diff();
    lemma_node_operation_integrate();
    lemma_node_operation_log();
    lemma_node_operation_restore();
    lemma_node_operation_revert();
    lemma_node_operation_show();
    lemma_node_parallelize();
    lemma_node_prev();
    lemma_node_rebase();
    lemma_node_redo();
    lemma_node_resolve();
    lemma_node_restore();
    lemma_node_revert();
    lemma_node_root();
    lemma_node_show();
    lemma_node_sign();
    lemma_node_simplify_parents();
    lemma_node_sparse();
    lemma_node_sparse_edit();
    lemma_node_sparse_list();
    lemma_node_sparse_reset();
    lemma_node_sparse_set();
    lemma_node_split();
    lemma_node_squash();
    lemma_node_status();
    lemma_node_tag();
    lemma_node_tag_delete();
    lemma_node_tag_list();
    lemma_node_tag_set();
    lemma_node_undo();
    lemma_node_unsign();
    lemma_node_util();
    lemma_node_util_completion();
    lemma_node_util_config_schema();
    lemma_node_util_exec();
    lemma_node_util_gc();
    lemma_node_util_install_man_pages();
    lemma_node_util_markdown_help();
    lemma_node_util_snapshot();
    lemma_node_version();
    lemma_node_workspace();
    lemma_node_workspace_add();
    lemma_node_workspace_forget();
    lemma_node_workspace_list();
    lemma_node_workspace_rename();
    lemma_node_workspace_root();
    lemma_node_workspace_update_stale();
}

} // verus!
