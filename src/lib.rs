//! Gate pipeline for role-owned development stages: the table of gates, the
//! per-work-item state document, the reroute policy, and the decisions of
//! the pipeline driver and its completion detectors.

pub mod text;
pub mod gate;
mod clock;
pub mod state;
pub mod reroute;
pub mod driver;
pub mod completion;
pub mod prompt;
pub mod runlog;
pub mod checks;
pub mod config;
pub mod templates;
pub mod laws;
pub mod report;
pub mod work;
