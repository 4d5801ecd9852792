//! Flesch reading-ease and Flesch-Kincaid grade-level scoring for English
//! text.
//!
//! The scores rest on three counts per chunk of text: words, sentences and
//! syllables. Words come from a Unicode-aware word matcher; sentence
//! boundaries are maximal runs of `.`, `?` or `!` (with a floor of one
//! sentence per chunk); syllables are estimated per word from vowel groups,
//! corrected by two fixed sets of spelling patterns.

pub mod engine;
pub mod laws;
pub mod patterns;
pub mod score;
pub mod scorer;
pub mod text;

pub use scorer::Scorer;
pub use scorer::Totals;
pub use scorer::accumulate;
pub use scorer::empty_totals;
pub use scorer::totals_ok;

pub use score::GradeLevel;
pub use score::ReadingEase;

pub use engine::Kincaid;
pub use engine::add_hits;
pub use engine::estimated_syllables;
pub use engine::sub_hits;
pub use engine::syllable_sum;
pub use engine::text_syllables;
pub use engine::words_of;

pub use text::is_vowel;
pub use text::is_sentence_boundary;
pub use text::vowel_groups;
pub use text::boundary_runs;
pub use text::sentence_tally;
pub use text::vowel_group_count;
pub use text::boundary_run_count;
