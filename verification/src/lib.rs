//! Bridging logic of a BLE proxy that sits between a paged radar/taillight
//! sensor and a standard BLE client.
//!
//! The crate holds the decisions of the bridge: page reassembly with
//! per-page expiry, advertisement name matching, the central-role and
//! peripheral-role supervisors as state machines, the rendering table of
//! the status indicator and the start and stop of a session. Waiting, radio
//! traffic and pin access are left to the program around it, which feeds
//! events in and carries commands out.
//!
//! A few functions call into other crates: for the current time, for the
//! encoding of advertisement data, for UTF-8 validation and for colours.
//! Each such call stands in a small function of its own whose contract is
//! taken on trust and says so.

pub mod bluetooth;
mod clock;
pub mod config;
pub mod errors;
pub mod led;
pub mod messages;
pub mod session;
