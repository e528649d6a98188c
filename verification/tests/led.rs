use magene_proxy::led::switched_off;
use magene_proxy::led::LEDPattern;
use magene_proxy::led::LedEvent;
use magene_proxy::led::Pulse;
use magene_proxy::led::Rgb;
use magene_proxy::messages::ClientState;
use magene_proxy::messages::SourceState;

const AZURE: Rgb = Rgb { r: 0xF0, g: 0xFF, b: 0xFF };
const YELLOW: Rgb = Rgb { r: 0xFF, g: 0xFF, b: 0x00 };
const BLACK: Rgb = Rgb { r: 0, g: 0, b: 0 };

#[test]
fn new_pattern_is_idle_and_yellow() {
    let pattern = LEDPattern::new();
    assert_eq!(pattern.get_color(), YELLOW);
    assert_eq!(pattern.get_timer(), 3_600_000);
    assert_eq!(pattern.get_level(), 31);
}

#[test]
fn color_goes_by_the_client_state() {
    let mut pattern = LEDPattern::new();
    pattern.set_client_state(ClientState::Connected);
    assert_eq!(pattern.get_color(), AZURE);
    assert_eq!(pattern.get_timer(), 3_600_000);
    pattern.set_client_state(ClientState::Disconnected);
    assert_eq!(pattern.get_color(), YELLOW);
}

#[test]
fn period_goes_by_the_source_state() {
    let mut pattern = LEDPattern::new();
    pattern.set_source_state(SourceState::Scanning);
    assert_eq!(pattern.get_timer(), 500);
    pattern.set_source_state(SourceState::Connecting);
    assert_eq!(pattern.get_timer(), 1000);
    pattern.set_source_state(SourceState::Connected);
    assert_eq!(pattern.get_timer(), 2500);
    pattern.set_source_state(SourceState::Disconnected);
    assert_eq!(pattern.get_timer(), 3_600_000);
    assert_eq!(pattern.get_color(), YELLOW);
    assert_eq!(pattern.get_level(), 31);
}

#[test]
fn each_change_updates_its_own_half() {
    let mut pattern = LEDPattern::new();
    assert_eq!(pattern.on_event(LedEvent::Source(SourceState::Scanning)), None);
    assert_eq!(pattern.on_event(LedEvent::Client(ClientState::Connected)), None);
    assert_eq!(pattern.on_event(LedEvent::Source(SourceState::Connected)), None);
    assert_eq!(pattern.get_color(), AZURE);
    assert_eq!(pattern.get_timer(), 2500);
    assert_eq!(pattern.on_event(LedEvent::Client(ClientState::Disconnected)), None);
    assert_eq!(pattern.get_color(), YELLOW);
    assert_eq!(pattern.get_timer(), 2500);
}

#[test]
fn tick_gives_one_pulse_and_keeps_the_pattern() {
    let mut pattern = LEDPattern::new();
    pattern.set_client_state(ClientState::Connected);
    pattern.set_source_state(SourceState::Connecting);
    let before = pattern;
    assert_eq!(
        pattern.on_event(LedEvent::Tick),
        Some(Pulse { lit: Rgb { r: 30, g: 31, b: 31 }, on_ms: 200, dark: BLACK })
    );
    assert_eq!(pattern, before);
    pattern.set_client_state(ClientState::Disconnected);
    assert_eq!(
        pattern.on_event(LedEvent::Tick),
        Some(Pulse { lit: Rgb { r: 31, g: 31, b: 0 }, on_ms: 200, dark: BLACK })
    );
}

#[test]
fn latest_of_many_changes_is_shown() {
    let mut pattern = LEDPattern::new();
    for state in [
        SourceState::Scanning,
        SourceState::Connecting,
        SourceState::Connected,
        SourceState::Disconnected,
        SourceState::Scanning,
    ] {
        pattern.on_event(LedEvent::Source(state));
        pattern.on_event(LedEvent::Tick);
    }
    assert_eq!(pattern.get_timer(), 500);
    assert_eq!(pattern.get_color(), YELLOW);
}

#[test]
fn indicator_is_switched_off_black_at_zero() {
    assert_eq!(switched_off(), BLACK);
}
