//! The status indicator: how the two connection states are shown.
//!
//! The colour tells whether a downstream client is connected, the blink
//! period tells how far the connection to the sensor has come.

use crate::messages::ClientState;
use crate::messages::SourceState;
use vstd::prelude::*;

verus! {

/// How long the indicator is lit in each blink, in milliseconds.
pub const PULSE_MS: u64 = 200;

/// Brightness of the indicator while it is lit.
pub const LEVEL: u8 = 31;

/// Blink period while the sensor is not looked for, in milliseconds: an hour.
pub const IDLE_PERIOD_MS: u64 = 3_600_000;

/// Blink period while scanning, in milliseconds.
pub const SCANNING_PERIOD_MS: u64 = 500;

/// Blink period while connecting, in milliseconds.
pub const CONNECTING_PERIOD_MS: u64 = 1000;

/// Blink period while connected, in milliseconds.
pub const CONNECTED_PERIOD_MS: u64 = 2500;

/// A colour of the indicator.
#[derive(Clone, Copy, Debug, PartialEq, Eq, Structural)]
pub struct Rgb {
    pub r: u8,
    pub g: u8,
    pub b: u8,
}

/// The indicator's own copy of the two connection states.
#[derive(Debug, Clone, Copy, PartialEq, Eq, Structural)]
pub struct LEDPattern {
    client_state: ClientState,
    source_state: SourceState,
}

/// What the indicator task is woken by.
#[derive(Clone, Copy, Debug, PartialEq, Eq, Structural)]
pub enum LedEvent {
    /// The downstream client's state changed to this.
    Client(ClientState),
    /// The state toward the sensor changed to this.
    Source(SourceState),
    /// The blink period has passed.
    Tick,
}

/// One blink: write `lit` to the indicator, keep it for `on_ms`
/// milliseconds, then write `dark`.
#[derive(Clone, Copy, Debug, PartialEq, Eq, Structural)]
pub struct Pulse {
    pub lit: Rgb,
    pub on_ms: u64,
    pub dark: Rgb,
}

/// Colour shown while a downstream client is connected.
pub open spec fn azure() -> Rgb {
    Rgb { r: 0xF0, g: 0xFF, b: 0xFF }
}

/// Colour shown while no downstream client is connected.
pub open spec fn yellow() -> Rgb {
    Rgb { r: 0xFF, g: 0xFF, b: 0x00 }
}

/// The indicator switched off.
pub open spec fn black() -> Rgb {
    Rgb { r: 0, g: 0, b: 0 }
}

/// A channel at a brightness: brightness 255 keeps the channel and each step
/// below takes one 256th of it away, rounded down.
pub open spec fn dimmed_channel(channel: u8, level: u8) -> u8 {
    (channel * (level + 1) / 256) as u8
}

/// A colour at a brightness, channel by channel.
pub open spec fn dimmed(color: Rgb, level: u8) -> Rgb {
    Rgb {
        r: dimmed_channel(color.r, level),
        g: dimmed_channel(color.g, level),
        b: dimmed_channel(color.b, level),
    }
}

/// The colour for a client state.
pub open spec fn color_of(state: ClientState) -> Rgb {
    match state {
        ClientState::Connected => azure(),
        ClientState::Disconnected => yellow(),
    }
}

/// The blink period for a source state, in milliseconds.
pub open spec fn period_of(state: SourceState) -> u64 {
    match state {
        SourceState::Disconnected => IDLE_PERIOD_MS,
        SourceState::Scanning => SCANNING_PERIOD_MS,
        SourceState::Connecting => CONNECTING_PERIOD_MS,
        SourceState::Connected => CONNECTED_PERIOD_MS,
    }
}

/// Reads `smart_leds::colors::AZURE`.
///
/// Trusted: the body is not verified. The contract claims the three
/// channels that the constant has.
#[verifier::external_body]
fn color_azure() -> (c: Rgb)
    ensures
        c == azure(),
{
    let c = smart_leds::colors::AZURE;
    Rgb { r: c.r, g: c.g, b: c.b }
}

/// Reads `smart_leds::colors::YELLOW`.
///
/// Trusted: the body is not verified. The contract claims the three
/// channels that the constant has.
#[verifier::external_body]
fn color_yellow() -> (c: Rgb)
    ensures
        c == yellow(),
{
    let c = smart_leds::colors::YELLOW;
    Rgb { r: c.r, g: c.g, b: c.b }
}

/// Reads `smart_leds::colors::BLACK`.
///
/// Trusted: the body is not verified. The contract claims the three
/// channels that the constant has.
#[verifier::external_body]
fn color_black() -> (c: Rgb)
    ensures
        c == black(),
{
    let c = smart_leds::colors::BLACK;
    Rgb { r: c.r, g: c.g, b: c.b }
}

/// Reduces the brightness of one colour with `smart_leds::brightness`.
///
/// Trusted: the body is not verified. The contract claims that each channel
/// is multiplied by the brightness plus one and divided by 256, rounded down.
#[verifier::external_body]
fn at_brightness(color: Rgb, level: u8) -> (c: Rgb)
    ensures
        c == dimmed(color, level),
{
    let pixel = smart_leds::RGB8 { r: color.r, g: color.g, b: color.b };
    match smart_leds::brightness(core::iter::once(pixel), level).next() {
        Some(p) => Rgb { r: p.r, g: p.g, b: p.b },
        None => color,
    }
}

impl View for LEDPattern {
    type V = (ClientState, SourceState);

    closed spec fn view(&self) -> (ClientState, SourceState) {
        (self.client_state, self.source_state)
    }
}

impl LEDPattern {
    /// The pattern before anything is known: both sides disconnected.
    pub fn new() -> (r: Self)
        ensures
            r@ == (ClientState::Disconnected, SourceState::Disconnected),
    {
        LEDPattern {
            client_state: ClientState::Disconnected,
            source_state: SourceState::Disconnected,
        }
    }

    /// Takes over the client state and leaves the source state as it is.
    pub fn set_client_state(&mut self, client_state: ClientState)
        ensures
            final(self)@ == (client_state, old(self)@.1),
    {
        self.client_state = client_state;
    }

    /// Takes over the source state and leaves the client state as it is.
    pub fn set_source_state(&mut self, source_state: SourceState)
        ensures
            final(self)@ == (old(self)@.0, source_state),
    {
        self.source_state = source_state;
    }

    /// The colour to blink in, which goes by the client state.
    pub fn get_color(&self) -> (r: Rgb)
        ensures
            r == color_of(self@.0),
    {
        match self.client_state {
            ClientState::Connected => color_azure(),
            ClientState::Disconnected => color_yellow(),
        }
    }

    /// The time from one blink to the next in milliseconds, which goes by
    /// the source state.
    pub fn get_timer(&self) -> (r: u64)
        ensures
            r == period_of(self@.1),
    {
        match self.source_state {
            SourceState::Disconnected => IDLE_PERIOD_MS,
            SourceState::Scanning => SCANNING_PERIOD_MS,
            SourceState::Connecting => CONNECTING_PERIOD_MS,
            SourceState::Connected => CONNECTED_PERIOD_MS,
        }
    }

    /// The brightness to blink at, the same in every state.
    pub fn get_level(&self) -> (r: u8)
        ensures
            r == LEVEL,
    {
        match self.source_state {
            SourceState::Disconnected => LEVEL,
            SourceState::Scanning => LEVEL,
            SourceState::Connecting => LEVEL,
            SourceState::Connected => LEVEL,
        }
    }

    /// Handles what woke the indicator task.
    ///
    /// A changed state is taken over, each into its own half of the pattern,
    /// and nothing is shown. When the period has passed the pattern stays and
    /// one blink in its colour, at its brightness, is shown.
    pub fn on_event(&mut self, event: LedEvent) -> (r: Option<Pulse>)
        ensures
            final(self)@ == pattern_after(old(self)@, event),
            r == pulse_for(old(self)@, event),
    {
        match event {
            LedEvent::Client(state) => {
                self.set_client_state(state);
                None
            },
            LedEvent::Source(state) => {
                self.set_source_state(state);
                None
            },
            LedEvent::Tick => {
                let level: u8 = self.get_level();
                Some(
                    Pulse {
                        lit: at_brightness(self.get_color(), level),
                        on_ms: PULSE_MS,
                        dark: at_brightness(color_black(), level),
                    },
                )
            },
        }
    }
}

/// The pattern after an event.
pub open spec fn pattern_after(pattern: (ClientState, SourceState), event: LedEvent) -> (
    ClientState,
    SourceState,
) {
    match event {
        LedEvent::Client(state) => (state, pattern.1),
        LedEvent::Source(state) => (pattern.0, state),
        LedEvent::Tick => pattern,
    }
}

/// The blink that an event is answered with.
pub open spec fn pulse_for(pattern: (ClientState, SourceState), event: LedEvent) -> Option<Pulse> {
    match event {
        LedEvent::Tick => Some(
            Pulse {
                lit: dimmed(color_of(pattern.0), LEVEL),
                on_ms: PULSE_MS,
                dark: dimmed(black(), LEVEL),
            },
        ),
        _ => None,
    }
}

/// What is written to the indicator when its task ends, however it ends:
/// black at brightness zero.
pub fn switched_off() -> (r: Rgb)
    ensures
        r == dimmed(black(), 0),
        r == black(),
{
    at_brightness(color_black(), 0)
}

/// The pattern after a run of events.
pub open spec fn pattern_after_all(pattern: (ClientState, SourceState), events: Seq<LedEvent>) -> (
    ClientState,
    SourceState,
)
    decreases events.len(),
{
    if events.len() == 0 {
        pattern
    } else {
        pattern_after(pattern_after_all(pattern, events.drop_last()), events.last())
    }
}

/// The last client state among a run of events, or `before` if there is none.
pub open spec fn last_client(before: ClientState, events: Seq<LedEvent>) -> ClientState
    decreases events.len(),
{
    if events.len() == 0 {
        before
    } else {
        match events.last() {
            LedEvent::Client(state) => state,
            _ => last_client(before, events.drop_last()),
        }
    }
}

/// The last source state among a run of events, or `before` if there is none.
pub open spec fn last_source(before: SourceState, events: Seq<LedEvent>) -> SourceState
    decreases events.len(),
{
    if events.len() == 0 {
        before
    } else {
        match events.last() {
            LedEvent::Source(state) => state,
            _ => last_source(before, events.drop_last()),
        }
    }
}

/// The pattern holds the latest state of each side: after any run of
/// events each half is the last state that was reported for it, whatever
/// was reported for the other half and however often the period passed in
/// between.
pub proof fn lemma_pattern_holds_latest_states(
    pattern: (ClientState, SourceState),
    events: Seq<LedEvent>,
)
    ensures
        pattern_after_all(pattern, events) == (
            last_client(pattern.0, events),
            last_source(pattern.1, events),
        ),
    decreases events.len(),
{
    if events.len() > 0 {
        lemma_pattern_holds_latest_states(pattern, events.drop_last());
    }
}

/// The rendering is total: every pair of states has a blink and a period.
/// The blink tells the two client states apart, it is over before the next
/// one is due, and it ends dark.
pub proof fn lemma_rendering_is_total(pattern: (ClientState, SourceState))
    ensures
        pulse_for(pattern, LedEvent::Tick) is Some,
        pulse_for(pattern, LedEvent::Tick)->0.lit == (if pattern.0 == ClientState::Connected {
            Rgb { r: 30, g: 31, b: 31 }
        } else {
            Rgb { r: 31, g: 31, b: 0 }
        }),
        pulse_for(pattern, LedEvent::Tick)->0.dark == black(),
        pulse_for(pattern, LedEvent::Tick)->0.on_ms < period_of(pattern.1),
{
}

proof fn lemma_dimmed_channel_bounds(channel: u8, level: u8)
    ensures
        dimmed_channel(channel, level) <= channel,
        dimmed_channel(0, level) == 0,
        dimmed_channel(channel, 255) == channel,
{
    assert(channel * (level + 1) <= channel * 256) by (nonlinear_arith)
        requires
            0 <= channel,
            level + 1 <= 256,
    ;
    assert(0 * (level + 1) == 0);
    assert(channel * 256 / 256 == channel);
}

/// Black stays black at every brightness, no channel grows by dimming, and
/// full brightness leaves a colour as it is.
pub proof fn lemma_dimming_never_brightens(color: Rgb, level: u8)
    ensures
        dimmed(black(), level) == black(),
        dimmed(color, level).r <= color.r,
        dimmed(color, level).g <= color.g,
        dimmed(color, level).b <= color.b,
        dimmed(color, 255) == color,
{
    lemma_dimmed_channel_bounds(color.r, level);
    lemma_dimmed_channel_bounds(color.g, level);
    lemma_dimmed_channel_bounds(color.b, level);
}

} // verus!
