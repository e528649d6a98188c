//! The peripheral role: advertising, serving one downstream client, and
//! what is sent to it.

use crate::bluetooth::scan::advertised_name;
use crate::bluetooth::scan::local_name_from;
use crate::bluetooth::scan::AD_TYPE_COMPLETE_LOCAL_NAME;
use crate::config::BATTERY_SERVICE;
use crate::errors::PeripheralError;
use crate::messages::BatterySample;
use crate::messages::ClientState;
use crate::messages::RadarSample;
use vstd::prelude::*;
use vstd::string::StringSliceAdditionalSpecFns;

verus! {

/// Name under which the bridge advertises.
pub const DEVICE_NAME: &'static str = "RadarProxy";

/// Room for advertisement data in a legacy advertisement.
pub const ADVERTISEMENT_MAX: usize = 31;

/// AD type of the flags structure.
pub const AD_TYPE_FLAGS: u8 = 0x01;

/// AD type of a list of 16-bit service UUIDs.
pub const AD_TYPE_SERVICE_UUIDS16: u8 = 0x02;

/// Battery level sent while no level is known.
pub const BATTERY_SENTINEL: [u8; 1] = [0];

/// Radar record sent while there is no recent data.
pub const RADAR_SENTINEL: [u8; 16] = [0, 0, 0, 0, 0, 0, 0, 0, 0, 0, 0, 0, 0, 0, 0, 0];

/// A 16-bit value, low byte first.
pub open spec fn le_bytes(value: u16) -> Seq<u8> {
    seq![(value % 256) as u8, (value / 256) as u8]
}

/// The advertisement data made of three structures: the flags, one 16-bit
/// service UUID and the complete local name. Each structure is its length
/// byte, its type byte and its data; the length byte counts the type byte
/// and the data, and wraps at 256.
pub open spec fn ad_payload(flags: u8, service_uuid: Seq<u8>, name: Seq<u8>) -> Seq<u8> {
    seq![2u8, AD_TYPE_FLAGS, flags] + seq![3u8, AD_TYPE_SERVICE_UUIDS16] + service_uuid + seq![
        ((name.len() + 1) % 256) as u8,
        AD_TYPE_COMPLETE_LOCAL_NAME,
    ] + name
}

/// The flags that the bridge advertises with: general discoverable, and no BR/EDR.
pub open spec fn advertised_flags() -> u8 {
    0x06
}

/// The advertisement data of the bridge under the name `name`.
pub open spec fn proxy_payload(name: Seq<u8>) -> Seq<u8> {
    ad_payload(advertised_flags(), le_bytes(BATTERY_SERVICE), name)
}

/// Reads `trouble_host::prelude::LE_GENERAL_DISCOVERABLE`.
///
/// Trusted: the body is not verified. The contract claims the value that
/// the constant has.
#[verifier::external_body]
fn le_general_discoverable() -> (flag: u8)
    ensures
        flag == 0x02,
{
    trouble_host::prelude::LE_GENERAL_DISCOVERABLE
}

/// Reads `trouble_host::prelude::BR_EDR_NOT_SUPPORTED`.
///
/// Trusted: the body is not verified. The contract claims the value that
/// the constant has.
#[verifier::external_body]
fn br_edr_not_supported() -> (flag: u8)
    ensures
        flag == 0x04,
{
    trouble_host::prelude::BR_EDR_NOT_SUPPORTED
}

/// Encodes the flags, one 16-bit service UUID and the complete local name
/// with `trouble_host::prelude::AdStructure::encode_slice` into a buffer of
/// `capacity` bytes, and returns the bytes that were written.
///
/// Trusted: the body is not verified. The contract claims that the call
/// succeeds exactly when the three structures fit into the buffer, and that
/// it then wrote the bytes of `ad_payload` and nothing else.
#[verifier::external_body]
fn encode_ad_structures(flags: u8, service_uuid: [u8; 2], name: &[u8], capacity: usize) -> (r:
    Option<Vec<u8>>)
    ensures
        r is Some <==> ad_payload(flags, service_uuid@, name@).len() <= capacity,
        r matches Some(bytes) ==> bytes@ == ad_payload(flags, service_uuid@, name@),
{
    let mut dest: Vec<u8> = vec![0u8; capacity];
    let structures = [
        trouble_host::prelude::AdStructure::Flags(flags),
        trouble_host::prelude::AdStructure::ServiceUuids16(&[service_uuid]),
        trouble_host::prelude::AdStructure::CompleteLocalName(name),
    ];
    match trouble_host::prelude::AdStructure::encode_slice(&structures, &mut dest[..]) {
        Ok(len) => {
            dest.truncate(len);
            Some(dest)
        },
        Err(_) => None,
    }
}

fn u16_le_bytes(value: u16) -> (r: [u8; 2])
    ensures
        r@ == le_bytes(value),
{
    let r: [u8; 2] = [(value % 256) as u8, (value / 256) as u8];
    assert(r@ =~= le_bytes(value));
    r
}

/// Builds the advertisement data of the bridge: the flags, the battery
/// service UUID and `name` as the complete local name.
///
/// Fails with `AdStructureError` exactly when the data would be longer
/// than a legacy advertisement holds.
pub fn advertisement_data(name: &str) -> (r: Result<Vec<u8>, PeripheralError>)
    ensures
        match r {
            Ok(bytes) => bytes@ == proxy_payload(name.spec_bytes()) && bytes@.len()
                <= ADVERTISEMENT_MAX,
            Err(e) => e == PeripheralError::AdStructureError && proxy_payload(
                name.spec_bytes(),
            ).len() > ADVERTISEMENT_MAX,
        },
{
    let general: u8 = le_general_discoverable();
    let no_br_edr: u8 = br_edr_not_supported();
    let flags: u8 = general | no_br_edr;
    assert(flags == 0x06) by (bit_vector)
        requires
            flags == general | no_br_edr,
            general == 0x02,
            no_br_edr == 0x04,
    ;
    match encode_ad_structures(
        flags,
        u16_le_bytes(BATTERY_SERVICE),
        name.as_bytes(),
        ADVERTISEMENT_MAX,
    ) {
        Some(bytes) => Ok(bytes),
        None => Err(PeripheralError::AdStructureError),
    }
}

/// The advertisement data of the bridge under its own name, which always fits.
pub fn proxy_advertisement() -> (r: Vec<u8>)
    ensures
        r@ == proxy_payload(DEVICE_NAME.spec_bytes()),
        r@ == seq![
            0x02u8,
            0x01,
            0x06,
            0x03,
            0x02,
            0x0F,
            0x18,
            0x0B,
            0x09,
            0x52,
            0x61,
            0x64,
            0x61,
            0x72,
            0x50,
            0x72,
            0x6F,
            0x78,
            0x79,
        ],
{
    proof {
        reveal_strlit("RadarProxy");
        vstd::string::is_ascii_spec_bytes(DEVICE_NAME);
        assert(DEVICE_NAME.spec_bytes() =~= seq![
            0x52u8,
            0x61,
            0x64,
            0x61,
            0x72,
            0x50,
            0x72,
            0x6F,
            0x78,
            0x79,
        ]);
    }
    match advertisement_data(DEVICE_NAME) {
        Ok(bytes) => bytes,
        Err(_) => vstd::pervasive::unreached(),
    }
}

/// The battery level to notify the client with: the sample, or the sentinel
/// while there is none.
pub fn battery_notification(sample: BatterySample) -> (r: [u8; 1])
    ensures
        r == match sample {
            Some(level) => level,
            None => BATTERY_SENTINEL,
        },
{
    match sample {
        Some(level) => level,
        None => BATTERY_SENTINEL,
    }
}

/// The radar record to notify the client with: the sample, or the sentinel
/// while there is none.
pub fn radar_notification(sample: RadarSample) -> (r: [u8; 16])
    ensures
        r == match sample {
            Some(record) => record,
            None => RADAR_SENTINEL,
        },
{
    match sample {
        Some(record) => record,
        None => RADAR_SENTINEL,
    }
}

/// Where the peripheral role stands.
#[derive(Clone, Copy, Debug, PartialEq, Eq)]
pub enum ClientPhase {
    /// Advertising is being started.
    Advertising,
    /// Advertising; waiting for a client to connect.
    Accepting,
    /// A client connected; the attribute server is being attached.
    Attaching,
    /// The client is served.
    Serving,
}

/// What happened.
#[derive(Clone, Copy, Debug, PartialEq, Eq)]
pub enum ClientEvent {
    /// The advertisement data could not be built.
    PayloadRejected,
    /// Advertising could not be started.
    AdvertiseFailed,
    /// Advertising has started.
    Advertised,
    /// No connection could be accepted.
    AcceptFailed,
    /// A client connected.
    Accepted,
    /// The attribute server could not be attached.
    AttachFailed,
    /// The attribute server is attached.
    Attached,
    /// The client disconnected.
    Disconnected,
    /// The client sent an attribute request.
    Request,
    /// Something else happened on the connection.
    Other,
    /// A forwarder stopped.
    ForwarderEnded,
}

/// What to do next.
#[derive(Clone, Copy, Debug, PartialEq, Eq)]
pub enum ClientCommand {
    /// Go on with what was asked for last.
    Continue,
    /// Build the advertisement data and start advertising, connectable and undirected.
    Advertise,
    /// Wait for a client to connect.
    Accept,
    /// Attach the attribute server to the connection.
    Attach,
    /// Serve the client: answer its requests and forward the samples.
    Serve,
    /// Accept the request and send the reply, then go on serving.
    Reply,
}

/// The answer of the peripheral role to an event.
#[derive(Clone, Copy, Debug, PartialEq, Eq)]
pub struct ClientReaction {
    /// Publish this state first.
    pub publish: Option<ClientState>,
    /// Then do this.
    pub command: ClientCommand,
    /// The failure to report, if the event was one.
    pub error: Option<PeripheralError>,
}

/// The peripheral role as a machine.
pub struct PeripheralSupervisor {
    phase: ClientPhase,
}

/// The error of an event that is a failure.
pub open spec fn client_failure(event: ClientEvent) -> Option<PeripheralError> {
    match event {
        ClientEvent::PayloadRejected => Some(PeripheralError::AdStructureError),
        ClientEvent::AdvertiseFailed => Some(PeripheralError::AdvertiserError),
        ClientEvent::AcceptFailed => Some(PeripheralError::ConnectionError),
        ClientEvent::AttachFailed => Some(PeripheralError::GattConnectionError),
        _ => None,
    }
}

/// Whether `event` is one that the peripheral role waits for in `phase`.
pub open spec fn client_awaited(phase: ClientPhase, event: ClientEvent) -> bool {
    match phase {
        ClientPhase::Advertising => event is PayloadRejected || event is AdvertiseFailed
            || event is Advertised,
        ClientPhase::Accepting => event is AcceptFailed || event is Accepted,
        ClientPhase::Attaching => event is AttachFailed || event is Attached,
        ClientPhase::Serving => event is Disconnected || event is Request || event is Other
            || event is ForwarderEnded,
    }
}

/// Where `event` leads from `phase`.
///
/// An event that is not awaited changes nothing. A failure, a client that
/// disconnects and a forwarder that stops lead back to advertising. A
/// request or another event on the connection leaves the client served.
/// Anything else leads one phase on.
pub open spec fn client_next(phase: ClientPhase, event: ClientEvent) -> ClientPhase {
    if !client_awaited(phase, event) {
        phase
    } else {
        match event {
            ClientEvent::Advertised => ClientPhase::Accepting,
            ClientEvent::Accepted => ClientPhase::Attaching,
            ClientEvent::Attached => ClientPhase::Serving,
            ClientEvent::Request | ClientEvent::Other => ClientPhase::Serving,
            _ => ClientPhase::Advertising,
        }
    }
}

/// The answer to `event` in `phase`.
///
/// `Connected` is published when the attribute server is attached and
/// `Disconnected` when the client disconnects, and nothing at any other time.
pub open spec fn client_reaction(phase: ClientPhase, event: ClientEvent) -> ClientReaction {
    if !client_awaited(phase, event) {
        ClientReaction { publish: None, command: ClientCommand::Continue, error: None }
    } else {
        ClientReaction {
            publish: match event {
                ClientEvent::Attached => Some(ClientState::Connected),
                ClientEvent::Disconnected => Some(ClientState::Disconnected),
                _ => None,
            },
            command: match event {
                ClientEvent::Request => ClientCommand::Reply,
                ClientEvent::Other => ClientCommand::Continue,
                _ => match client_next(phase, event) {
                    ClientPhase::Advertising => ClientCommand::Advertise,
                    ClientPhase::Accepting => ClientCommand::Accept,
                    ClientPhase::Attaching => ClientCommand::Attach,
                    ClientPhase::Serving => ClientCommand::Serve,
                },
            },
            error: client_failure(event),
        }
    }
}

impl View for PeripheralSupervisor {
    type V = ClientPhase;

    closed spec fn view(&self) -> ClientPhase {
        self.phase
    }
}

impl PeripheralSupervisor {
    /// A supervisor that is about to advertise, with the reaction that
    /// starts advertising.
    pub fn new() -> (r: (Self, ClientReaction))
        ensures
            r.0@ == ClientPhase::Advertising,
            r.1 == (ClientReaction {
                publish: None,
                command: ClientCommand::Advertise,
                error: None,
            }),
    {
        (
            PeripheralSupervisor { phase: ClientPhase::Advertising },
            ClientReaction { publish: None, command: ClientCommand::Advertise, error: None },
        )
    }

    /// Where the supervisor stands.
    pub fn phase(&self) -> (r: ClientPhase)
        ensures
            r == self@,
    {
        self.phase
    }

    /// Takes an event and answers with what to do.
    pub fn step(&mut self, event: ClientEvent) -> (r: ClientReaction)
        ensures
            final(self)@ == client_next(old(self)@, event),
            r == client_reaction(old(self)@, event),
    {
        let idle: ClientReaction = ClientReaction {
            publish: None,
            command: ClientCommand::Continue,
            error: None,
        };
        match (self.phase, event) {
            (ClientPhase::Advertising, ClientEvent::PayloadRejected) => self.restart(
                None,
                Some(PeripheralError::AdStructureError),
            ),
            (ClientPhase::Advertising, ClientEvent::AdvertiseFailed) => self.restart(
                None,
                Some(PeripheralError::AdvertiserError),
            ),
            (ClientPhase::Advertising, ClientEvent::Advertised) => {
                self.phase = ClientPhase::Accepting;
                ClientReaction { command: ClientCommand::Accept, ..idle }
            },
            (ClientPhase::Accepting, ClientEvent::AcceptFailed) => self.restart(
                None,
                Some(PeripheralError::ConnectionError),
            ),
            (ClientPhase::Accepting, ClientEvent::Accepted) => {
                self.phase = ClientPhase::Attaching;
                ClientReaction { command: ClientCommand::Attach, ..idle }
            },
            (ClientPhase::Attaching, ClientEvent::AttachFailed) => self.restart(
                None,
                Some(PeripheralError::GattConnectionError),
            ),
            (ClientPhase::Attaching, ClientEvent::Attached) => {
                self.phase = ClientPhase::Serving;
                ClientReaction {
                    publish: Some(ClientState::Connected),
                    command: ClientCommand::Serve,
                    error: None,
                }
            },
            (ClientPhase::Serving, ClientEvent::Disconnected) => self.restart(
                Some(ClientState::Disconnected),
                None,
            ),
            (ClientPhase::Serving, ClientEvent::ForwarderEnded) => self.restart(None, None),
            (ClientPhase::Serving, ClientEvent::Request) => ClientReaction {
                command: ClientCommand::Reply,
                ..idle
            },
            _ => idle,
        }
    }

    fn restart(&mut self, publish: Option<ClientState>, error: Option<PeripheralError>) -> (r:
        ClientReaction)
        ensures
            final(self)@ == ClientPhase::Advertising,
            r == (ClientReaction { publish, command: ClientCommand::Advertise, error }),
    {
        self.phase = ClientPhase::Advertising;
        ClientReaction { publish, command: ClientCommand::Advertise, error }
    }
}

/// Every failure leads back to advertising at once, and so does the end of
/// a served connection.
pub proof fn lemma_peripheral_restarts_advertising(phase: ClientPhase, event: ClientEvent)
    requires
        client_awaited(phase, event),
        client_failure(event) is Some || event is Disconnected || event is ForwarderEnded,
    ensures
        client_next(phase, event) == ClientPhase::Advertising,
        client_reaction(phase, event).command == ClientCommand::Advertise,
        client_reaction(phase, event).error == client_failure(event),
{
}

/// The client counts as connected exactly while it is served, as far as
/// the peripheral role itself ends the service: `Connected` is published on
/// entering `Serving` and at no other time, and `Disconnected` only on
/// leaving it.
pub proof fn lemma_client_state_marks_serving(phase: ClientPhase, event: ClientEvent)
    ensures
        client_reaction(phase, event).publish == Some(ClientState::Connected) <==> phase
            != ClientPhase::Serving && client_next(phase, event) == ClientPhase::Serving,
        client_reaction(phase, event).publish == Some(ClientState::Disconnected) ==> phase
            == ClientPhase::Serving && client_next(phase, event) == ClientPhase::Advertising,
{
}

/// What the bridge advertises can be read back: the parser of advertisement
/// payloads finds the name in the advertisement data built from it.
pub proof fn lemma_advertised_name_is_read_back(flags: u8, service_uuid: Seq<u8>, name: Seq<u8>)
    requires
        service_uuid.len() == 2,
        name.len() < 255,
        vstd::utf8::valid_utf8(name),
    ensures
        advertised_name(ad_payload(flags, service_uuid, name)) == Some(name),
{
    let data = ad_payload(flags, service_uuid, name);
    assert(data.len() == 9 + name.len());
    assert(data[0] == 2 && data[1] == AD_TYPE_FLAGS);
    assert(data[3] == 3 && data[4] == AD_TYPE_SERVICE_UUIDS16);
    assert(data[7] == name.len() + 1 && data[8] == AD_TYPE_COMPLETE_LOCAL_NAME);
    assert(data.subrange(9, 9 + name.len() as int) =~= name);
    assert(local_name_from(data, 7) == Some(name));
    assert(local_name_from(data, 3) == local_name_from(data, 7));
    assert(local_name_from(data, 0) == local_name_from(data, 3));
}

} // verus!
