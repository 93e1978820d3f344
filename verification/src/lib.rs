//! Data-freshness core of a terminal system monitor: bounded history series,
//! counter-to-rate conversion, the telemetry state that a sampler writes and a
//! renderer reads, and the view-selection state machine of the dashboard.

pub mod dashboard;
pub mod history;
pub mod rate;
pub mod sampler;
pub mod snapshot;
pub mod state;
pub mod view;
