//! A Chinese lexical engine: script classification, Simplified/Traditional
//! conversion, dictionary-driven segmentation and dictionary lookup.

pub mod dictionary;
pub mod entry;
pub mod segment;
pub mod lexicon;

pub use entry::{MeasureWord, Script, WordEntry};
pub use lexicon::Lexicon;
pub use segment::cover_with_words;
