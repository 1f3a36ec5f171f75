//! Ingestion of per-election tabular result files: a quote-aware
//! tokenizer, a heuristic header resolver, fixed-size row grouping,
//! typed field decoding with two closed enumerations, and a
//! human-readable cache codec for decoded record collections.

pub mod chars;
pub mod codec;
pub mod division;
pub mod lines;
pub mod num;
pub mod party;
pub mod process;
pub mod ty;
pub mod tokenize;
