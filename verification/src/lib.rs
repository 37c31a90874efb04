//! An inline command palette for the Jujutsu version control system:
//! the command tree with its completions, the editing state of the prompt,
//! and a reader for ANSI-coloured output.

pub mod text;
pub mod commands;
pub mod tree_facts;
pub mod ansi;
pub mod tui;
pub mod jj;
