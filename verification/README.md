# supjj

An inline command palette for the Jujutsu (`jj`) version control system:
it shows the recent log and the working-copy status in a small panel, lets
you compose a `jj` command with completions, and runs it.

The library under `src/` holds the logic, each function with a contract
proved by Verus:

- `text.rs` — characters, whitespace, lines, words, the lexicographic order
  and the sort built on it;
- `commands.rs` — the tree of `jj` subcommands and flags (`build_tree`) and
  the completions it offers (`CommandTree::completions`), with the laws they
  keep;
- `tree_facts.rs` — the proof that the `jj` tree is clean (every flag starts
  with `--`, no subcommand name does, no name twice), so that its completions
  never repeat;
- `ansi.rs` — a reader for ANSI-coloured text: SGR parameters, styles, and
  the styled spans of each line;
- `jj.rs` — the bookmark names in the output of `jj bookmark list`;
- `tui.rs` — the state of the prompt and what each key does to it.

The program under `app/` runs `jj`, draws the panel with ratatui, reads keys
with crossterm, and hands everything else to the library.
