//! Logic for a time-of-day driven RGB lighting controller.
//!
//! The crate covers the two device protocol layers — a register-addressed
//! DRAM LED controller ([`bus`], [`dram`]) and a packet-based ARGB
//! controller in its static ([`fusion2`]) and addressable-streaming
//! ([`addressable`]) modes — the lighting state machine that schedules
//! brightness ([`lighting`]), the per-device colour weighting ([`colour`])
//! and the request routing of the control surface ([`route`]).
//!
//! Everything here is pure: hardware transactions are produced as command
//! plans and packet bytes, and clock or bus input comes in as plain
//! values, so that a thin I/O shell around the library only moves bytes.

pub mod addressable;
pub mod bus;
pub mod colour;
pub mod dram;
pub mod fusion2;
pub mod lighting;
pub mod route;
