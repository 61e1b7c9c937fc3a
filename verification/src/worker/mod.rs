//! Workers: registration, heartbeats, block reports, repair.

pub mod command_router;
pub mod command_sender;
pub mod effects;
pub mod full_report_lease;
pub mod laws;
pub mod locations;
pub mod manager;
pub mod metrics;
pub mod model;
pub mod repair;
pub mod service;
pub mod service_effects;
pub mod service_laws;
pub mod types;
