//! Values carried between the supervisors.

use vstd::prelude::*;

verus! {

/// The merged radar record, or `None` while there is no recent data.
pub type RadarSample = Option<[u8; 16]>;

/// The battery level, or `None` while it is unknown.
pub type BatterySample = Option<[u8; 1]>;

/// Connection phase toward the downstream client (peripheral role).
#[derive(Debug, Clone, Copy, PartialEq, Eq, Structural)]
pub enum ClientState {
    Connected,
    Disconnected,
}

/// Connection phase toward the sensor (central role).
#[derive(Debug, Clone, Copy, PartialEq, Eq, Structural)]
pub enum SourceState {
    Disconnected,
    Scanning,
    Connecting,
    Connected,
}

} // verus!
