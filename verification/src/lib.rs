//! Verified control logic of two physical-modelling instruments: a six-string
//! guitar and an 88-key grand piano.
//!
//! The library holds the parts of the instruments that are decided on whole
//! numbers: note routing on the fretboard, strum ordering, pluck queueing and
//! chord gathering, groove step sequencing, sample-accurate event dispatch,
//! piano polyphony and voice stealing, pseudo-random generators, key-layout
//! tables, note-name parsing, factory preset tables and the bilingual
//! interface labels.

pub mod guitar;
pub mod piano;
pub mod text;
