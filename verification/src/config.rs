//! Build-time constants of the bridge.

use vstd::prelude::*;

verus! {

/// Local name the sensor advertises.
pub const TARGET_NAME: &'static str = "34660-5";

/// Wait between connecting to the sensor and discovering its services, in milliseconds.
pub const DISCOVERY_DELAY_MS: u64 = 2000;

/// Time after which a stored radar page no longer counts, in seconds.
pub const RADAR_DATA_PAGE_TIMEOUT_SECS: u64 = 5;

pub const CONNECTIONS_MAX: usize = 4;

pub const L2CAP_CHANNELS_MAX: usize = 4;

pub const MAX_SERVICES: usize = 10;

/// Radar service and data characteristic offered to the downstream client.
pub const TARGET_RADAR_SERVICE: u128 = 0xf364140000b04240ba5005ca45bf8abc;

pub const TARGET_RADAR_DATA_CHARACTERISTIC: u128 = 0xf364140100b04240ba5005ca45bf8abc;

pub const TARGET_BATTERY_SERVICE: u16 = 0x180F;

pub const TARGET_BATTERY_LEVEL_CHARACTERISTIC: u16 = 0x2A19;

/// Battery service and level characteristic, as found on the sensor.
pub const BATTERY_SERVICE: u16 = 0x180F;

pub const BATTERY_LEVEL_CHARACTERISTIC: u16 = 0x2A19;

/// Radarlight service and characteristic of the sensor.
pub const RADARLIGHT_SERVICE: u128 = 0x8ce5cc010a4d11e9ab14d663bd873d93;

pub const RADARLIGHT_CHARACTERISTIC: u128 = 0x8ce5cc020a4d11e9ab14d663bd873d93;

/// Written to the radarlight characteristic to start the stream.
pub const RADAR_ACTIVATION_BYTES: [u8; 3] = [0x57, 0x09, 0x01];

} // verus!
