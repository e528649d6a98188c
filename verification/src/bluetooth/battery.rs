//! The consumer of battery notifications.
//!
//! Like the radar consumer it works only while a downstream client is
//! connected. When one connects the level is read once, then every
//! notification of one byte is published.

use crate::bluetooth::radar::DecodeError;
use crate::messages::BatterySample;
use crate::messages::ClientState;
use vstd::prelude::*;

verus! {

/// Length of a battery notification.
pub const BATTERY_NOTIFICATION_LEN: usize = 1;

/// Where the battery consumer stands.
#[derive(Clone, Copy, Debug, PartialEq, Eq)]
pub enum BatteryPhase {
    /// No downstream client is connected.
    Waiting,
    /// A client connected and the level is being read from the sensor.
    Seeding,
    /// The level was read and notifications are forwarded.
    Streaming,
}

/// What the battery consumer answers to an event.
#[derive(Clone, Copy, Debug, PartialEq, Eq)]
pub enum BatteryOutcome {
    /// Nothing to do. The event does not concern the consumer in its present state.
    Idle,
    /// Read the battery level characteristic and report what came back.
    ReadLevel,
    /// Publish this battery sample.
    Publish(BatterySample),
    /// The notification was dropped and nothing changed.
    Dropped(DecodeError),
}

/// Consumer of battery notifications.
pub struct BatteryConsumer {
    phase: BatteryPhase,
}

/// The bytes of a battery sample.
pub open spec fn level_view(sample: BatterySample) -> Option<Seq<u8>> {
    match sample {
        Some(bytes) => Some(bytes@),
        None => None,
    }
}

/// The battery level that a value of the level characteristic carries: the
/// value itself where it is one byte long.
pub open spec fn decoded_level(data: Seq<u8>) -> Option<Seq<u8>> {
    if data.len() == BATTERY_NOTIFICATION_LEN {
        Some(data)
    } else {
        None
    }
}

/// How the battery consumer in `phase` answers a change of the downstream
/// client's state, and where it stands then.
///
/// A client that connects while none was there has the level read. A client
/// that disconnects while notifications are forwarded has the sample withdrawn.
pub open spec fn battery_on_client(phase: BatteryPhase, state: ClientState) -> (
    BatteryPhase,
    BatteryOutcome,
) {
    match (phase, state) {
        (BatteryPhase::Waiting, ClientState::Connected) => (
            BatteryPhase::Seeding,
            BatteryOutcome::ReadLevel,
        ),
        (BatteryPhase::Streaming, ClientState::Disconnected) => (
            BatteryPhase::Waiting,
            BatteryOutcome::Publish(None),
        ),
        _ => (phase, BatteryOutcome::Idle),
    }
}

/// The battery level that a read brought: the value that was read where it
/// is one byte long, and none where the read failed.
pub open spec fn read_level(value: Option<&[u8]>) -> Option<Seq<u8>> {
    match value {
        Some(bytes) => decoded_level(bytes@),
        None => None,
    }
}

fn single_byte(data: &[u8]) -> (r: BatterySample)
    ensures
        level_view(r) == decoded_level(data@),
{
    if data.len() == BATTERY_NOTIFICATION_LEN {
        let level: [u8; 1] = [data[0]];
        assert(level@ =~= data@);
        Some(level)
    } else {
        None
    }
}

impl View for BatteryConsumer {
    type V = BatteryPhase;

    closed spec fn view(&self) -> BatteryPhase {
        self.phase
    }
}

impl BatteryConsumer {
    /// A consumer that waits for a downstream client.
    pub fn new() -> (r: Self)
        ensures
            r@ == BatteryPhase::Waiting,
    {
        BatteryConsumer { phase: BatteryPhase::Waiting }
    }

    /// Where the consumer stands.
    pub fn phase(&self) -> (r: BatteryPhase)
        ensures
            r == self@,
    {
        self.phase
    }

    /// Takes note of the downstream client's state.
    pub fn on_client_state(&mut self, state: ClientState) -> (r: BatteryOutcome)
        ensures
            (final(self)@, r) == battery_on_client(old(self)@, state),
    {
        match (self.phase, state) {
            (BatteryPhase::Waiting, ClientState::Connected) => {
                self.phase = BatteryPhase::Seeding;
                BatteryOutcome::ReadLevel
            },
            (BatteryPhase::Streaming, ClientState::Disconnected) => {
                self.phase = BatteryPhase::Waiting;
                BatteryOutcome::Publish(None)
            },
            _ => BatteryOutcome::Idle,
        }
    }

    /// Handles the result of the read that `on_client_state` asked for:
    /// the bytes that were read, or `None` where the read failed.
    ///
    /// A value of one byte is published and notifications are forwarded from
    /// then on. Otherwise "no sample" is published and the consumer waits for
    /// a client again. A result that was not asked for is ignored.
    pub fn on_read(&mut self, value: Option<&[u8]>) -> (r: BatteryOutcome)
        ensures
            old(self)@ != BatteryPhase::Seeding ==> r == BatteryOutcome::Idle && final(self)@
                == old(self)@,
            old(self)@ == BatteryPhase::Seeding ==> {
                &&& r is Publish
                &&& level_view(r->Publish_0) == read_level(value)
                &&& final(self)@ == (if read_level(value) is Some {
                    BatteryPhase::Streaming
                } else {
                    BatteryPhase::Waiting
                })
            },
    {
        match self.phase {
            BatteryPhase::Seeding => {
                let sample: Option<[u8; 1]> = match value {
                    Some(bytes) => single_byte(bytes),
                    None => None,
                };
                self.phase = match sample {
                    Some(_) => BatteryPhase::Streaming,
                    None => BatteryPhase::Waiting,
                };
                BatteryOutcome::Publish(sample)
            },
            _ => BatteryOutcome::Idle,
        }
    }

    /// Handles a battery notification of the sensor.
    ///
    /// While notifications are forwarded, one of a single byte is published
    /// and any other is dropped. Before that the notification is not looked at.
    pub fn on_notification(&self, data: &[u8]) -> (r: BatteryOutcome)
        ensures
            self@ != BatteryPhase::Streaming ==> r == BatteryOutcome::Idle,
            self@ == BatteryPhase::Streaming && data@.len() == BATTERY_NOTIFICATION_LEN ==> r
                is Publish && level_view(r->Publish_0) == Some(data@),
            self@ == BatteryPhase::Streaming && data@.len() != BATTERY_NOTIFICATION_LEN ==> r
                == BatteryOutcome::Dropped(DecodeError::WrongLength(data@.len() as usize)),
    {
        match self.phase {
            BatteryPhase::Streaming => match single_byte(data) {
                Some(level) => BatteryOutcome::Publish(Some(level)),
                None => BatteryOutcome::Dropped(DecodeError::WrongLength(data.len())),
            },
            _ => BatteryOutcome::Idle,
        }
    }
}

} // verus!
