//! Authenticated telemetry delivery for a host monitoring agent: request
//! signing, a bounded batch buffer, and the delivery and heartbeat schedule.

pub mod api;
pub mod auth;
pub mod buffer;
pub mod config;
pub mod enroll;
pub mod errors;
pub mod monitor;
pub mod recommend;
pub mod scheduler;
pub mod text;
pub mod time;
