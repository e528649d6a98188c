//! What can go wrong while a connection is set up, on either side.

use vstd::prelude::*;

verus! {

/// A failed step toward the sensor. Where a step concerns one of the two
/// sensor services, the error names it.
#[derive(Clone, Copy, Debug, PartialEq, Eq)]
pub enum CentralError {
    /// The scan could not be started.
    ScanInstantiationError,
    /// Looking up the services failed.
    ServicesEnumerationError(&'static str),
    /// The lookup succeeded and found no such service.
    ServiceNotFoundError(&'static str),
    /// The characteristic could not be resolved.
    CharacteristicNotFoundError(&'static str),
    /// Writing to the characteristic failed.
    CharacteristicWriteError(&'static str),
    /// Subscribing to the characteristic failed.
    ListenerInstantiationError(&'static str),
}

/// A failed step toward the downstream client.
#[derive(Clone, Copy, Debug, PartialEq, Eq)]
pub enum PeripheralError {
    /// Advertising could not be started.
    AdvertiserError,
    /// The advertisement payload does not fit.
    AdStructureError,
    /// No connection could be accepted.
    ConnectionError,
    /// The attribute server could not be attached to the connection.
    GattConnectionError,
}

} // verus!
