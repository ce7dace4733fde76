//! Automated rewriting of source passages: locate the first passage of a tree
//! that a pattern matches, ask for a replacement, splice it in, validate it and
//! commit it, until no passage is left.

mod laws;
mod machine;
mod passage;
mod pattern;
mod prompt;
mod replace;

pub use passage::{passage_in, splice, Passage, PassageView};
pub use pattern::{compiles, first_match, InvalidPattern, Pattern};
pub use prompt::{fill_template, substitute};
pub use replace::{entry_passage, extension_view, locate, qualifies, source_extension, Entry, Replace};
pub use machine::{mentions_overload, is_overloaded, next, overload_code, overloaded, Action, ActionView, Event, EventView, Failure, FailureView, Stage, StageView};
pub use laws::{lemma_check_failure_stops, lemma_failed_is_final, lemma_first_entry_wins, lemma_no_match_finishes, lemma_overload_retries, lemma_splice, mutates, run};
