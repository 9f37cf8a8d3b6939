//! Mirrors the state of a rhythm-game companion service into a difficulty
//! snapshot: rate resolution, change detection and the decisions of the
//! polling cycle.

pub mod chart;
pub mod config;
pub mod dedupe;
pub mod driver;
pub mod rate;
pub mod score;
pub mod single;
pub mod snapshot;
pub mod text;
