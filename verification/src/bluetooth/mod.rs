//! Both BLE roles of the bridge: what is decided on each event.

pub mod battery;
pub mod central;
pub mod peripheral;
pub mod radar;
pub mod scan;
pub mod utils;
