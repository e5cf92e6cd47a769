//! Step-sequencer engine for a grid-based drum machine, with contracts
//! proved by Verus: patterns and the playback cursor (`sequencer`), tempo
//! and pulse timing (`state`), gain and mute (`mixer`), the sample bank and
//! its file rules (`sample`), the application core that ties them together
//! (`app`), and the commands and key bindings that drive it (`command`,
//! `input`, `config`).

pub mod sequencer;
pub mod state;
pub mod mixer;
pub mod error;
pub mod sample;
pub mod app;
pub mod command;
pub mod input;
pub mod config;
