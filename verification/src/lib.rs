//! Typed model of the entities of a text-based public-transit interchange
//! format: field codecs (clock durations, calendar dates, hex colors, truth
//! flags), open-ended numeric classifications, a two-shape translation-record
//! resolver, a translation index, and a localization overlay that produces
//! language-specific copies of entities.

use vstd::prelude::*;

pub mod chars;
pub mod codec;
pub mod date;
pub mod entities;
pub mod enums;
pub mod translation;

verus! {

/// The errors of this layer: a malformed clock duration, a malformed color,
/// or a generic structural failure of a record decode. Each carries the
/// offending input text (or a short description for structural failures).
#[derive(Debug, Clone, PartialEq)]
pub enum Error {
    InvalidTime(String),
    InvalidColor(String),
    Decode(String),
}

} // verus!
