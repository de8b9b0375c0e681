//! Batch text-normalization engine: tokenizes texts with a configurable
//! delimiter pattern, classifies each token from its morphological parse
//! (anonymization placeholder, lemma, or unresolved marker), filters stop
//! words, rejoins survivors, and dispatches batches either inline or across
//! a fixed-size worker pool without affecting results.
pub mod engine;
pub mod laws;
pub mod model;
pub mod semantics;
pub mod trusted;
