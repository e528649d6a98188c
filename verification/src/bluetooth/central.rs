//! The central role: from the scan to a streaming sensor, and back to the
//! scan whenever anything fails or the connection ends.

use crate::bluetooth::scan::Address;
use crate::config::BATTERY_LEVEL_CHARACTERISTIC;
use crate::config::BATTERY_SERVICE;
use crate::config::DISCOVERY_DELAY_MS;
use crate::config::RADARLIGHT_CHARACTERISTIC;
use crate::config::RADARLIGHT_SERVICE;
use crate::config::RADAR_ACTIVATION_BYTES;
use crate::errors::CentralError;
use crate::messages::BatterySample;
use crate::messages::RadarSample;
use crate::messages::SourceState;
use vstd::prelude::*;

verus! {

/// Label of the radarlight service in errors.
pub const RADARLIGHT_LABEL: &'static str = "Radarlight";

/// Label of the battery service in errors.
pub const BATTERY_LABEL: &'static str = "Battery";

/// The steps that lead from a fresh connection to a streaming sensor, in
/// the order in which they are taken.
#[derive(Clone, Copy, Debug, PartialEq, Eq)]
pub enum SetupStep {
    /// Look up the radarlight service.
    RadarlightService,
    /// Look up the battery service.
    BatteryService,
    /// Resolve the radarlight characteristic.
    RadarlightCharacteristic,
    /// Resolve the battery level characteristic.
    BatteryCharacteristic,
    /// Subscribe to radarlight notifications.
    RadarlightListener,
    /// Subscribe to battery notifications.
    BatteryListener,
    /// Write the activation bytes to the radarlight characteristic.
    Activation,
}

/// How a step ended.
#[derive(Clone, Copy, Debug, PartialEq, Eq)]
pub enum StepResult {
    /// The step succeeded.
    Done,
    /// The lookup went through and found nothing.
    Missing,
    /// The step failed.
    Failed,
}

/// What follows a step that succeeded.
#[derive(Clone, Copy, Debug, PartialEq, Eq)]
pub enum SetupProgress {
    /// Take this step next.
    Next(SetupStep),
    /// All steps are taken: the sensor streams.
    Ready,
}

/// One of the two services of the sensor.
#[derive(Clone, Copy, Debug, PartialEq, Eq)]
pub enum SensorService {
    Radarlight,
    Battery,
}

/// A UUID as the sensor uses them: a standard 16-bit one or a full one.
#[derive(Clone, Copy, Debug, PartialEq, Eq)]
pub enum SensorUuid {
    Short(u16),
    Long(u128),
}

/// What a setup step asks of the GATT client.
#[derive(Clone, Copy, Debug, PartialEq, Eq)]
pub enum SetupRequest {
    /// Look up the services with this UUID and take the first.
    FindService(SensorUuid),
    /// Resolve the characteristic with this UUID in the service found before.
    FindCharacteristic(SensorService, SensorUuid),
    /// Subscribe to the characteristic of this service, for notifications,
    /// or for indications where the flag is set.
    Subscribe(SensorService, bool),
    /// Write these bytes to the characteristic of this service.
    Write(SensorService, [u8; 3]),
}

/// How the sensor is scanned for.
#[derive(Clone, Copy, Debug, PartialEq, Eq)]
pub struct ScanSettings {
    /// Whether scan requests are sent.
    pub active: bool,
    /// Time from the start of one scan window to the next, in milliseconds.
    pub interval_ms: u64,
    /// Length of a scan window, in milliseconds.
    pub window_ms: u64,
}

/// The place of a step in the sequence, counted from zero.
pub open spec fn step_index(step: SetupStep) -> int {
    match step {
        SetupStep::RadarlightService => 0,
        SetupStep::BatteryService => 1,
        SetupStep::RadarlightCharacteristic => 2,
        SetupStep::BatteryCharacteristic => 3,
        SetupStep::RadarlightListener => 4,
        SetupStep::BatteryListener => 5,
        SetupStep::Activation => 6,
    }
}

/// The label of the service that a step concerns.
pub open spec fn step_label(step: SetupStep) -> &'static str {
    match step {
        SetupStep::RadarlightService
        | SetupStep::RadarlightCharacteristic
        | SetupStep::RadarlightListener
        | SetupStep::Activation => RADARLIGHT_LABEL,
        SetupStep::BatteryService
        | SetupStep::BatteryCharacteristic
        | SetupStep::BatteryListener => BATTERY_LABEL,
    }
}

/// The error of a step that did not succeed.
///
/// A service lookup that found nothing is told apart from one that failed;
/// for the other steps there is one error each.
pub open spec fn step_error(step: SetupStep, result: StepResult) -> CentralError {
    match step {
        SetupStep::RadarlightService | SetupStep::BatteryService => if result
            == StepResult::Missing {
            CentralError::ServiceNotFoundError(step_label(step))
        } else {
            CentralError::ServicesEnumerationError(step_label(step))
        },
        SetupStep::RadarlightCharacteristic
        | SetupStep::BatteryCharacteristic => CentralError::CharacteristicNotFoundError(
            step_label(step),
        ),
        SetupStep::RadarlightListener
        | SetupStep::BatteryListener => CentralError::ListenerInstantiationError(
            step_label(step),
        ),
        SetupStep::Activation => CentralError::CharacteristicWriteError(step_label(step)),
    }
}

/// What follows `step` once it ended with `result`: the step after it, or
/// `Ready` after the last one, where it succeeded; its error otherwise.
pub open spec fn setup_progress(step: SetupStep, result: StepResult) -> Result<
    SetupProgress,
    CentralError,
> {
    if result != StepResult::Done {
        Err(step_error(step, result))
    } else {
        Ok(
            match step {
                SetupStep::RadarlightService => SetupProgress::Next(SetupStep::BatteryService),
                SetupStep::BatteryService => SetupProgress::Next(
                    SetupStep::RadarlightCharacteristic,
                ),
                SetupStep::RadarlightCharacteristic => SetupProgress::Next(
                    SetupStep::BatteryCharacteristic,
                ),
                SetupStep::BatteryCharacteristic => SetupProgress::Next(
                    SetupStep::RadarlightListener,
                ),
                SetupStep::RadarlightListener => SetupProgress::Next(SetupStep::BatteryListener),
                SetupStep::BatteryListener => SetupProgress::Next(SetupStep::Activation),
                SetupStep::Activation => SetupProgress::Ready,
            },
        )
    }
}

fn label_of(step: SetupStep) -> (r: &'static str)
    ensures
        r == step_label(step),
{
    match step {
        SetupStep::RadarlightService
        | SetupStep::RadarlightCharacteristic
        | SetupStep::RadarlightListener
        | SetupStep::Activation => RADARLIGHT_LABEL,
        SetupStep::BatteryService
        | SetupStep::BatteryCharacteristic
        | SetupStep::BatteryListener => BATTERY_LABEL,
    }
}

/// What each step asks for.
///
/// Both services are looked up by their UUIDs and each characteristic in
/// its own service. Both subscriptions are for notifications, not
/// indications. The last step writes the activation bytes to the radarlight
/// characteristic.
pub open spec fn step_request(step: SetupStep) -> SetupRequest {
    match step {
        SetupStep::RadarlightService => SetupRequest::FindService(
            SensorUuid::Long(RADARLIGHT_SERVICE),
        ),
        SetupStep::BatteryService => SetupRequest::FindService(SensorUuid::Short(BATTERY_SERVICE)),
        SetupStep::RadarlightCharacteristic => SetupRequest::FindCharacteristic(
            SensorService::Radarlight,
            SensorUuid::Long(RADARLIGHT_CHARACTERISTIC),
        ),
        SetupStep::BatteryCharacteristic => SetupRequest::FindCharacteristic(
            SensorService::Battery,
            SensorUuid::Short(BATTERY_LEVEL_CHARACTERISTIC),
        ),
        SetupStep::RadarlightListener => SetupRequest::Subscribe(SensorService::Radarlight, false),
        SetupStep::BatteryListener => SetupRequest::Subscribe(SensorService::Battery, false),
        SetupStep::Activation => SetupRequest::Write(
            SensorService::Radarlight,
            RADAR_ACTIVATION_BYTES,
        ),
    }
}

/// Says what a setup step asks of the GATT client.
pub fn setup_request(step: SetupStep) -> (r: SetupRequest)
    ensures
        r == step_request(step),
{
    match step {
        SetupStep::RadarlightService => SetupRequest::FindService(
            SensorUuid::Long(RADARLIGHT_SERVICE),
        ),
        SetupStep::BatteryService => SetupRequest::FindService(SensorUuid::Short(BATTERY_SERVICE)),
        SetupStep::RadarlightCharacteristic => SetupRequest::FindCharacteristic(
            SensorService::Radarlight,
            SensorUuid::Long(RADARLIGHT_CHARACTERISTIC),
        ),
        SetupStep::BatteryCharacteristic => SetupRequest::FindCharacteristic(
            SensorService::Battery,
            SensorUuid::Short(BATTERY_LEVEL_CHARACTERISTIC),
        ),
        SetupStep::RadarlightListener => SetupRequest::Subscribe(SensorService::Radarlight, false),
        SetupStep::BatteryListener => SetupRequest::Subscribe(SensorService::Battery, false),
        SetupStep::Activation => SetupRequest::Write(
            SensorService::Radarlight,
            RADAR_ACTIVATION_BYTES,
        ),
    }
}

/// The settings of the scan for the sensor: active, with windows of one
/// second that follow each other without a pause.
pub fn scan_settings() -> (r: ScanSettings)
    ensures
        r == (ScanSettings { active: true, interval_ms: 1000, window_ms: 1000 }),
{
    ScanSettings { active: true, interval_ms: 1000, window_ms: 1000 }
}

/// The first step of the sequence.
pub fn first_setup_step() -> (r: SetupStep)
    ensures
        step_index(r) == 0,
{
    SetupStep::RadarlightService
}

/// Decides what follows a step that ended with `result`.
///
/// A step that did not succeed ends the sequence with its error: no later
/// step is taken and no step is tried again.
pub fn setup_advance(step: SetupStep, result: StepResult) -> (r: Result<
    SetupProgress,
    CentralError,
>)
    ensures
        r == setup_progress(step, result),
{
    let label: &'static str = label_of(step);
    match result {
        StepResult::Done => Ok(
            match step {
                SetupStep::RadarlightService => SetupProgress::Next(SetupStep::BatteryService),
                SetupStep::BatteryService => SetupProgress::Next(
                    SetupStep::RadarlightCharacteristic,
                ),
                SetupStep::RadarlightCharacteristic => SetupProgress::Next(
                    SetupStep::BatteryCharacteristic,
                ),
                SetupStep::BatteryCharacteristic => SetupProgress::Next(
                    SetupStep::RadarlightListener,
                ),
                SetupStep::RadarlightListener => SetupProgress::Next(SetupStep::BatteryListener),
                SetupStep::BatteryListener => SetupProgress::Next(SetupStep::Activation),
                SetupStep::Activation => SetupProgress::Ready,
            },
        ),
        StepResult::Missing => Err(
            match step {
                SetupStep::RadarlightService
                | SetupStep::BatteryService => CentralError::ServiceNotFoundError(label),
                SetupStep::RadarlightCharacteristic
                | SetupStep::BatteryCharacteristic => CentralError::CharacteristicNotFoundError(
                    label,
                ),
                SetupStep::RadarlightListener
                | SetupStep::BatteryListener => CentralError::ListenerInstantiationError(label),
                SetupStep::Activation => CentralError::CharacteristicWriteError(label),
            },
        ),
        StepResult::Failed => Err(
            match step {
                SetupStep::RadarlightService
                | SetupStep::BatteryService => CentralError::ServicesEnumerationError(label),
                SetupStep::RadarlightCharacteristic
                | SetupStep::BatteryCharacteristic => CentralError::CharacteristicNotFoundError(
                    label,
                ),
                SetupStep::RadarlightListener
                | SetupStep::BatteryListener => CentralError::ListenerInstantiationError(label),
                SetupStep::Activation => CentralError::CharacteristicWriteError(label),
            },
        ),
    }
}

/// The steps are taken one after the other: a step that succeeded is
/// followed by the one whose place is one higher, and only the last step
/// makes the sensor ready.
pub proof fn lemma_setup_takes_each_step_in_turn(step: SetupStep)
    ensures
        setup_progress(step, StepResult::Done) is Ok,
        step_index(step) < 6 ==> setup_progress(step, StepResult::Done)->Ok_0 is Next
            && step_index(setup_progress(step, StepResult::Done)->Ok_0->Next_0) == step_index(step)
            + 1,
        step_index(step) == 6 <==> setup_progress(step, StepResult::Done) == Ok::<
            SetupProgress,
            CentralError,
        >(SetupProgress::Ready),
        setup_progress(step, StepResult::Missing) is Err,
        setup_progress(step, StepResult::Failed) is Err,
{
}

/// Where the central role stands on its way to the sensor.
#[derive(Clone, Copy, Debug, PartialEq, Eq)]
pub enum SourcePhase {
    /// Scanning for the sensor.
    Scanning,
    /// Connecting to the address that the scan found.
    Connecting(Address),
    /// Connected; the GATT client is being opened.
    Opening,
    /// The GATT client is open; waiting the discovery delay out.
    Settling,
    /// Taking this step of the setup.
    Setup(SetupStep),
    /// The sensor streams and its notifications are consumed.
    Active,
}

/// What happened on the way.
#[derive(Clone, Copy, Debug, PartialEq, Eq)]
pub enum SourceEvent {
    /// The scan could not be started.
    ScanFailed,
    /// The scan found the sensor at this address.
    Found(Address),
    /// The connection stands.
    Connected,
    /// The connection attempt failed.
    ConnectFailed,
    /// The GATT client is open.
    ClientReady,
    /// The GATT client could not be opened.
    ClientFailed,
    /// The discovery delay has passed.
    Settled,
    /// The setup step that was asked for ended this way.
    Step(StepResult),
    /// The connection is over: the sensor disconnected, or the GATT client or
    /// a consumer stopped.
    Ended,
}

/// What to do next.
#[derive(Clone, Copy, Debug, PartialEq, Eq)]
pub enum SourceCommand {
    /// Go on with what was asked for last: the event changed nothing.
    Continue,
    /// Start an active scan and wait for the first match.
    Scan,
    /// Connect to this address, and to no other.
    Connect(Address),
    /// Open the GATT client on the connection.
    OpenClient,
    /// Wait this many milliseconds.
    Settle(u64),
    /// Take this setup step.
    Perform(SetupStep),
    /// Run the consumers until the connection is over.
    Stream,
}

/// One value to publish, on the topic that it belongs to.
#[derive(Clone, Copy, Debug, PartialEq, Eq)]
pub enum Publication {
    Radar(RadarSample),
    Battery(BatterySample),
    Source(SourceState),
}

/// The answer of the central role to an event.
#[derive(Clone, Copy, Debug, PartialEq, Eq)]
pub struct SourceReaction {
    /// The connection is given up: drop it and withdraw what it brought.
    /// `publications` says what is published for that, and in which order.
    pub closing: bool,
    /// Publish this state, after what `closing` asks for.
    pub publish: Option<SourceState>,
    /// Then do this.
    pub command: SourceCommand,
    /// The failure to report, if the event was one.
    pub error: Option<CentralError>,
}

/// What a reaction asks to publish, in the order in which it is published.
///
/// A connection that is given up has the radar sample and the battery
/// sample withdrawn and `SourceState::Disconnected` published, in this
/// order. The state of the reaction comes last.
pub open spec fn publications(reaction: SourceReaction) -> Seq<Publication> {
    (if reaction.closing {
        seq![
            Publication::Radar(None),
            Publication::Battery(None),
            Publication::Source(SourceState::Disconnected),
        ]
    } else {
        Seq::empty()
    }) + (match reaction.publish {
        Some(state) => seq![Publication::Source(state)],
        None => Seq::empty(),
    })
}

impl SourceReaction {
    /// What to publish, in the order in which to publish it.
    pub fn publications(&self) -> (r: Vec<Publication>)
        ensures
            r@ == publications(*self),
    {
        let mut r: Vec<Publication> = Vec::new();
        if self.closing {
            r.push(Publication::Radar(None));
            r.push(Publication::Battery(None));
            r.push(Publication::Source(SourceState::Disconnected));
        }
        if let Some(state) = self.publish {
            r.push(Publication::Source(state));
        }
        assert(r@ =~= publications(*self));
        r
    }
}

/// The central role as a machine.
pub struct SourceSupervisor {
    phase: SourcePhase,
}

/// The state that the other tasks see while the central role is in `phase`.
pub open spec fn phase_state(phase: SourcePhase) -> SourceState {
    match phase {
        SourcePhase::Scanning => SourceState::Scanning,
        SourcePhase::Active => SourceState::Connected,
        _ => SourceState::Connecting,
    }
}

/// Whether `event` is one that the central role waits for in `phase`.
pub open spec fn awaited(phase: SourcePhase, event: SourceEvent) -> bool {
    match phase {
        SourcePhase::Scanning => event is ScanFailed || event is Found,
        SourcePhase::Connecting(_) => event is Connected || event is ConnectFailed,
        SourcePhase::Opening => event is ClientReady || event is ClientFailed,
        SourcePhase::Settling => event is Settled,
        SourcePhase::Setup(_) => event is Step || event is Ended,
        SourcePhase::Active => event is Ended,
    }
}

/// Whether `event`, where it is awaited, sends the central role back to scanning.
pub open spec fn gives_up(event: SourceEvent) -> bool {
    match event {
        SourceEvent::ScanFailed
        | SourceEvent::ConnectFailed
        | SourceEvent::ClientFailed
        | SourceEvent::Ended => true,
        SourceEvent::Step(result) => result != StepResult::Done,
        _ => false,
    }
}

/// The failure that the awaited `event` reports in `phase`, if it is one
/// that has an error of its own.
pub open spec fn reported(phase: SourcePhase, event: SourceEvent) -> Option<CentralError> {
    match (phase, event) {
        (SourcePhase::Scanning, SourceEvent::ScanFailed) => Some(
            CentralError::ScanInstantiationError,
        ),
        (SourcePhase::Setup(step), SourceEvent::Step(result)) => if result != StepResult::Done {
            Some(step_error(step, result))
        } else {
            None
        },
        _ => None,
    }
}

/// Where an awaited `event` that does not give up leads from `phase`.
pub open spec fn advanced(phase: SourcePhase, event: SourceEvent) -> SourcePhase {
    match (phase, event) {
        (SourcePhase::Scanning, SourceEvent::Found(address)) => SourcePhase::Connecting(address),
        (SourcePhase::Connecting(_), _) => SourcePhase::Opening,
        (SourcePhase::Opening, _) => SourcePhase::Settling,
        (SourcePhase::Settling, _) => SourcePhase::Setup(SetupStep::RadarlightService),
        (SourcePhase::Setup(step), _) => match setup_progress(step, StepResult::Done) {
            Ok(SetupProgress::Next(next)) => SourcePhase::Setup(next),
            _ => SourcePhase::Active,
        },
        _ => phase,
    }
}

/// What is to be done on entering `phase`.
pub open spec fn entry_command(phase: SourcePhase) -> SourceCommand {
    match phase {
        SourcePhase::Scanning => SourceCommand::Scan,
        SourcePhase::Connecting(address) => SourceCommand::Connect(address),
        SourcePhase::Opening => SourceCommand::OpenClient,
        SourcePhase::Settling => SourceCommand::Settle(DISCOVERY_DELAY_MS),
        SourcePhase::Setup(step) => SourceCommand::Perform(step),
        SourcePhase::Active => SourceCommand::Stream,
    }
}

/// Where `event` leads from `phase`.
///
/// An event that is not awaited changes nothing. Every failure and every end
/// of the connection leads back to scanning. Anything else leads one phase on.
pub open spec fn next_phase(phase: SourcePhase, event: SourceEvent) -> SourcePhase {
    if !awaited(phase, event) {
        phase
    } else if gives_up(event) {
        SourcePhase::Scanning
    } else {
        advanced(phase, event)
    }
}

/// The answer to `event` in `phase`.
///
/// A connection that had reached its setup is closed when it is given up.
/// The state is published whenever a scan starts and whenever it changes.
pub open spec fn reaction(phase: SourcePhase, event: SourceEvent) -> SourceReaction {
    let next = next_phase(phase, event);
    if !awaited(phase, event) {
        SourceReaction {
            closing: false,
            publish: None,
            command: SourceCommand::Continue,
            error: None,
        }
    } else {
        SourceReaction {
            closing: gives_up(event) && (phase is Setup || phase is Active),
            publish: if next is Scanning || phase_state(next) != phase_state(phase) {
                Some(phase_state(next))
            } else {
                None
            },
            command: entry_command(next),
            error: reported(phase, event),
        }
    }
}

impl View for SourceSupervisor {
    type V = SourcePhase;

    closed spec fn view(&self) -> SourcePhase {
        self.phase
    }
}

impl SourceSupervisor {
    /// A supervisor that is about to scan, with the reaction that starts the
    /// scan and publishes `SourceState::Scanning`.
    pub fn new() -> (r: (Self, SourceReaction))
        ensures
            r.0@ == SourcePhase::Scanning,
            r.1 == (SourceReaction {
                closing: false,
                publish: Some(SourceState::Scanning),
                command: SourceCommand::Scan,
                error: None,
            }),
    {
        (
            SourceSupervisor { phase: SourcePhase::Scanning },
            SourceReaction {
                closing: false,
                publish: Some(SourceState::Scanning),
                command: SourceCommand::Scan,
                error: None,
            },
        )
    }

    /// Where the supervisor stands.
    pub fn phase(&self) -> (r: SourcePhase)
        ensures
            r == self@,
    {
        self.phase
    }

    /// Takes an event and answers with what to do.
    pub fn step(&mut self, event: SourceEvent) -> (r: SourceReaction)
        ensures
            final(self)@ == next_phase(old(self)@, event),
            r == reaction(old(self)@, event),
    {
        let idle: SourceReaction = SourceReaction {
            closing: false,
            publish: None,
            command: SourceCommand::Continue,
            error: None,
        };
        match (self.phase, event) {
            (SourcePhase::Scanning, SourceEvent::ScanFailed) => self.rescan(
                false,
                Some(CentralError::ScanInstantiationError),
            ),
            (SourcePhase::Scanning, SourceEvent::Found(address)) => {
                self.phase = SourcePhase::Connecting(address);
                SourceReaction {
                    closing: false,
                    publish: Some(SourceState::Connecting),
                    command: SourceCommand::Connect(address),
                    error: None,
                }
            },
            (SourcePhase::Connecting(_), SourceEvent::Connected) => {
                self.phase = SourcePhase::Opening;
                SourceReaction { command: SourceCommand::OpenClient, ..idle }
            },
            (SourcePhase::Connecting(_), SourceEvent::ConnectFailed) => self.rescan(false, None),
            (SourcePhase::Opening, SourceEvent::ClientReady) => {
                self.phase = SourcePhase::Settling;
                SourceReaction { command: SourceCommand::Settle(DISCOVERY_DELAY_MS), ..idle }
            },
            (SourcePhase::Opening, SourceEvent::ClientFailed) => self.rescan(false, None),
            (SourcePhase::Settling, SourceEvent::Settled) => {
                let first: SetupStep = first_setup_step();
                self.phase = SourcePhase::Setup(first);
                SourceReaction { command: SourceCommand::Perform(first), ..idle }
            },
            (SourcePhase::Setup(step), SourceEvent::Step(result)) => match setup_advance(
                step,
                result,
            ) {
                Ok(SetupProgress::Next(next)) => {
                    self.phase = SourcePhase::Setup(next);
                    SourceReaction { command: SourceCommand::Perform(next), ..idle }
                },
                Ok(SetupProgress::Ready) => {
                    self.phase = SourcePhase::Active;
                    SourceReaction {
                        closing: false,
                        publish: Some(SourceState::Connected),
                        command: SourceCommand::Stream,
                        error: None,
                    }
                },
                Err(e) => self.rescan(true, Some(e)),
            },
            (SourcePhase::Setup(_), SourceEvent::Ended) => self.rescan(true, None),
            (SourcePhase::Active, SourceEvent::Ended) => self.rescan(true, None),
            _ => idle,
        }
    }

    fn rescan(&mut self, closing: bool, error: Option<CentralError>) -> (r: SourceReaction)
        ensures
            final(self)@ == SourcePhase::Scanning,
            r == (SourceReaction {
                closing,
                publish: Some(SourceState::Scanning),
                command: SourceCommand::Scan,
                error,
            }),
    {
        self.phase = SourcePhase::Scanning;
        SourceReaction {
            closing,
            publish: Some(SourceState::Scanning),
            command: SourceCommand::Scan,
            error,
        }
    }
}

/// Every failure and every end of a connection leads back to scanning, with
/// a fresh scan as the next thing to do; and wherever the connection had
/// come as far as its setup, the samples are withdrawn and
/// `SourceState::Disconnected` is published before `SourceState::Scanning`.
pub proof fn lemma_failure_returns_to_scanning(phase: SourcePhase, event: SourceEvent)
    requires
        awaited(phase, event),
        gives_up(event),
    ensures
        next_phase(phase, event) == SourcePhase::Scanning,
        reaction(phase, event).command == SourceCommand::Scan,
        reaction(phase, event).publish == Some(SourceState::Scanning),
        phase is Setup || phase is Active ==> reaction(phase, event).closing,
        phase is Setup || phase is Active ==> publications(reaction(phase, event)) == seq![
            Publication::Radar(None),
            Publication::Battery(None),
            Publication::Source(SourceState::Disconnected),
            Publication::Source(SourceState::Scanning),
        ],
        !(phase is Setup || phase is Active) ==> publications(reaction(phase, event)) == seq![
            Publication::Source(SourceState::Scanning),
        ],
{
    assert(publications(reaction(phase, event)) =~= (if phase is Setup || phase is Active {
        seq![
            Publication::Radar(None),
            Publication::Battery(None),
            Publication::Source(SourceState::Disconnected),
            Publication::Source(SourceState::Scanning),
        ]
    } else {
        seq![Publication::Source(SourceState::Scanning)]
    }));
}

/// The phase after a run of events.
pub open spec fn phase_after(phase: SourcePhase, events: Seq<SourceEvent>) -> SourcePhase
    decreases events.len(),
{
    if events.len() == 0 {
        phase
    } else {
        next_phase(phase_after(phase, events.drop_last()), events.last())
    }
}

/// The state that was published last after a run of events, where `shown`
/// was published last before it.
pub open spec fn shown_after(
    shown: SourceState,
    phase: SourcePhase,
    events: Seq<SourceEvent>,
) -> SourceState
    decreases events.len(),
{
    if events.len() == 0 {
        shown
    } else {
        match reaction(phase_after(phase, events.drop_last()), events.last()).publish {
            Some(state) => state,
            None => shown_after(shown, phase, events.drop_last()),
        }
    }
}

/// What is published keeps up with the phase: after any run of events the
/// state that was published last is the state of the phase that the central
/// role is in.
pub proof fn lemma_published_state_follows_phase(
    shown: SourceState,
    phase: SourcePhase,
    events: Seq<SourceEvent>,
)
    requires
        shown == phase_state(phase),
    ensures
        shown_after(shown, phase, events) == phase_state(phase_after(phase, events)),
    decreases events.len(),
{
    if events.len() > 0 {
        lemma_published_state_follows_phase(shown, phase, events.drop_last());
    }
}

/// The sensor streams only after all seven setup steps succeeded: the
/// consumers are started from the last step alone, and
/// `SourceState::Connected` is published at no other time.
pub proof fn lemma_active_only_after_setup(phase: SourcePhase, event: SourceEvent)
    ensures
        reaction(phase, event).command is Stream <==> phase == SourcePhase::Setup(
            SetupStep::Activation,
        ) && event == SourceEvent::Step(StepResult::Done),
        reaction(phase, event).publish == Some(SourceState::Connected) <==> reaction(
            phase,
            event,
        ).command is Stream,
{
}

} // verus!
