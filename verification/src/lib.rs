//! A verified core for a backup-monitoring pipeline: it matches customer
//! records returned by a monitoring API against a configured company list,
//! evaluates each application's recent backup windows, and decides which
//! alerts to raise, together with the orchestration steps around one run.

pub mod auth;
pub mod evaluate;
pub mod orchestrate;
pub mod pipeline;
pub mod matching;
pub mod model;
pub mod text;
