//! Guitar instrument: fretboard routing, strumming, grooves, presets and labels.

pub mod cli;
pub mod engine;
pub mod fretboard;
pub mod groove;
pub mod i18n;
pub mod noise;
pub mod params;
pub mod pickup;
pub mod pluck;
pub mod presets;
pub mod strummer;
