//! Piano instrument: polyphony, key tables, note names, noise generators and labels.

pub mod cli;
pub mod engine;
pub mod i18n;
pub mod keyboard;
pub mod lid;
pub mod params;
pub mod pedal;
pub mod voices;
