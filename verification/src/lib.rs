//! Translation and text-improvement client logic for the DeepL service:
//! language tables, command-line planning, request shaping, report text
//! and the state machine of the interactive editor.
use vstd::prelude::*;

pub mod cli;
pub mod deepl;
pub mod hook;
pub mod languages;
pub mod screen;
pub mod text;
pub mod tui;

verus! {
} // verus!
