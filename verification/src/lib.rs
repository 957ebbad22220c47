//! Verified control core for a RAPL energy-telemetry sampler.
//!
//! The crate models the process-wide lifecycle controller that starts and
//! stops a background sampling session, the per-domain trackers that turn
//! successive raw counter readings into wraparound-corrected energy deltas,
//! and the status codes reported across the foreign-call boundary.
//! All hardware access, threading and foreign calling conventions live
//! outside this crate; they hand plain values in and take plain values back.

pub mod config;
pub mod status;
pub mod counter;
pub mod sample;
pub mod tracker;
pub mod controller;
pub mod laws;
