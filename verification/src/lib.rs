//! Decision logic of the XTM wallet benchmark harness.

pub mod text;
pub mod amount;
pub mod metrics;
pub mod config;
pub mod driver;
pub mod plan;
pub mod json;
pub mod tari;
pub mod signable;
pub mod drivers;
pub mod scenarios;
pub mod suite;
pub mod report;
