use magene_proxy::bluetooth::radar::decode_page;
use magene_proxy::bluetooth::radar::DecodeError;
use magene_proxy::bluetooth::radar::Page;
use magene_proxy::bluetooth::radar::PageKind;
use magene_proxy::bluetooth::radar::RadarConsumer;
use magene_proxy::bluetooth::radar::RadarOutcome;
use magene_proxy::bluetooth::radar::RadarWait;
use magene_proxy::bluetooth::peripheral::radar_notification;
use magene_proxy::messages::ClientState;

const SECOND: u64 = 1_000_000;
const TIMEOUT: u64 = 5 * SECOND;

fn notification(page: [u8; 8]) -> Vec<u8> {
    let mut data = vec![0xAA, 0xBB, 0xCC];
    data.extend_from_slice(&page);
    data
}

#[test]
fn page1_is_decoded() {
    assert_eq!(
        decode_page(&[9, 9, 9, 0x30, 1, 2, 3, 4, 5, 6, 7]),
        Ok(Page { kind: PageKind::First, data: [0x30, 1, 2, 3, 4, 5, 6, 7] })
    );
}

#[test]
fn page2_is_decoded() {
    assert_eq!(
        decode_page(&[0, 0, 0, 0x31, 7, 6, 5, 4, 3, 2, 1]),
        Ok(Page { kind: PageKind::Second, data: [0x31, 7, 6, 5, 4, 3, 2, 1] })
    );
}

#[test]
fn header_bytes_are_ignored() {
    assert_eq!(
        decode_page(&[0x30, 0x31, 0x30, 0x31, 0, 0, 0, 0, 0, 0, 0]),
        Ok(Page { kind: PageKind::Second, data: [0x31, 0, 0, 0, 0, 0, 0, 0] })
    );
}

#[test]
fn wrong_length_is_refused() {
    assert_eq!(decode_page(&[]), Err(DecodeError::WrongLength(0)));
    assert_eq!(decode_page(&[0x30; 10]), Err(DecodeError::WrongLength(10)));
    assert_eq!(decode_page(&[0x30; 12]), Err(DecodeError::WrongLength(12)));
    assert_eq!(decode_page(&[0x30, 1, 2, 3, 4, 5, 6, 7]), Err(DecodeError::WrongLength(8)));
}

#[test]
fn unknown_page_tag_is_refused() {
    assert_eq!(
        decode_page(&[0, 0, 0, 0x32, 1, 2, 3, 4, 5, 6, 7]),
        Err(DecodeError::UnknownPage(0x32))
    );
    assert_eq!(
        decode_page(&[0x30, 0x30, 0x30, 0x2F, 0, 0, 0, 0, 0, 0, 0]),
        Err(DecodeError::UnknownPage(0x2F))
    );
}

#[test]
fn new_consumer_waits_for_a_client() {
    let consumer = RadarConsumer::new(TIMEOUT);
    assert_eq!(consumer.wait_at(0), RadarWait::Client);
    assert_eq!(consumer.wait(), RadarWait::Client);
}

#[test]
fn end_to_end_scenario() {
    let mut consumer = RadarConsumer::new(TIMEOUT);
    consumer.on_client_state(ClientState::Connected);
    assert_eq!(consumer.wait_at(0), RadarWait::Stream(None));

    let first = consumer.on_notification_at(&notification([0x30, 10, 0, 0, 0, 0, 0, 0]), 0);
    assert_eq!(
        first,
        RadarOutcome::Publish(Some([0x30, 10, 0, 0, 0, 0, 0, 0, 0x31, 0, 0, 0, 0, 0, 0, 0]))
    );
    assert_eq!(consumer.wait_at(0), RadarWait::Stream(Some(5 * SECOND)));

    let second = consumer.on_notification_at(&notification([0x31, 20, 0, 0, 0, 0, 0, 0]), SECOND);
    assert_eq!(
        second,
        RadarOutcome::Publish(Some([0x30, 10, 0, 0, 0, 0, 0, 0, 0x31, 20, 0, 0, 0, 0, 0, 0]))
    );
    assert_eq!(consumer.wait_at(SECOND), RadarWait::Stream(Some(4 * SECOND)));

    assert_eq!(
        consumer.on_timer_at(5 * SECOND),
        RadarOutcome::Publish(Some([0x30, 0, 0, 0, 0, 0, 0, 0, 0x31, 20, 0, 0, 0, 0, 0, 0]))
    );
    assert_eq!(consumer.wait_at(5 * SECOND), RadarWait::Stream(Some(SECOND)));

    let last = consumer.on_timer_at(6 * SECOND);
    assert_eq!(last, RadarOutcome::Publish(None));
    assert_eq!(consumer.wait_at(6 * SECOND), RadarWait::Stream(None));
    match last {
        RadarOutcome::Publish(sample) => assert_eq!(radar_notification(sample), [0u8; 16]),
        _ => unreachable!(),
    }
}

#[test]
fn timer_handled_one_tick_early_publishes_the_record_unchanged() {
    let mut consumer = RadarConsumer::new(TIMEOUT);
    consumer.on_client_state(ClientState::Connected);
    consumer.on_notification_at(&notification([0x30, 10, 0, 0, 0, 0, 0, 0]), 0);
    consumer.on_notification_at(&notification([0x31, 20, 0, 0, 0, 0, 0, 0]), SECOND);
    assert_eq!(
        consumer.on_timer_at(5 * SECOND - 1),
        RadarOutcome::Publish(Some([0x30, 10, 0, 0, 0, 0, 0, 0, 0x31, 20, 0, 0, 0, 0, 0, 0]))
    );
    assert_eq!(consumer.wait_at(5 * SECOND - 1), RadarWait::Stream(Some(1)));
}

#[test]
fn gating_scenario() {
    let mut consumer = RadarConsumer::new(TIMEOUT);
    let page1 = notification([0x30, 1, 1, 1, 1, 1, 1, 1]);
    let page2 = notification([0x31, 2, 2, 2, 2, 2, 2, 2]);

    assert_eq!(consumer.on_notification_at(&page1, 0), RadarOutcome::Idle);
    assert_eq!(consumer.on_timer_at(1), RadarOutcome::Idle);
    assert_eq!(consumer.wait_at(1), RadarWait::Client);

    consumer.on_client_state(ClientState::Connected);
    assert_eq!(
        consumer.on_notification_at(&page2, 2),
        RadarOutcome::Publish(Some([0x30, 0, 0, 0, 0, 0, 0, 0, 0x31, 2, 2, 2, 2, 2, 2, 2]))
    );
    assert_eq!(
        consumer.on_notification_at(&page1, 3),
        RadarOutcome::Publish(Some([0x30, 1, 1, 1, 1, 1, 1, 1, 0x31, 2, 2, 2, 2, 2, 2, 2]))
    );

    consumer.on_client_state(ClientState::Disconnected);
    assert_eq!(consumer.wait_at(4), RadarWait::Client);
    assert_eq!(consumer.on_notification_at(&page2, 4), RadarOutcome::Idle);

    consumer.on_client_state(ClientState::Connected);
    assert_eq!(consumer.wait_at(5), RadarWait::Stream(None));
    assert_eq!(consumer.on_timer_at(5), RadarOutcome::Publish(None));
    assert_eq!(
        consumer.on_notification_at(&page1, 6),
        RadarOutcome::Publish(Some([0x30, 1, 1, 1, 1, 1, 1, 1, 0x31, 0, 0, 0, 0, 0, 0, 0]))
    );
}

#[test]
fn repeated_connect_keeps_the_pages() {
    let mut consumer = RadarConsumer::new(TIMEOUT);
    consumer.on_client_state(ClientState::Connected);
    consumer.on_notification_at(&notification([0x30, 1, 1, 1, 1, 1, 1, 1]), 0);
    consumer.on_client_state(ClientState::Connected);
    assert_eq!(
        consumer.on_timer_at(1),
        RadarOutcome::Publish(Some([0x30, 1, 1, 1, 1, 1, 1, 1, 0x31, 0, 0, 0, 0, 0, 0, 0]))
    );
}

#[test]
fn disconnect_while_parked_changes_nothing() {
    let mut consumer = RadarConsumer::new(TIMEOUT);
    consumer.on_client_state(ClientState::Disconnected);
    assert_eq!(consumer.wait_at(0), RadarWait::Client);
    consumer.on_client_state(ClientState::Connected);
    assert_eq!(consumer.wait_at(0), RadarWait::Stream(None));
    consumer.on_notification_at(&notification([0x31, 1, 1, 1, 1, 1, 1, 1]), 10);
    assert_eq!(consumer.wait_at(10), RadarWait::Stream(Some(TIMEOUT)));
}

#[test]
fn malformed_notifications_are_dropped_without_a_change() {
    let mut consumer = RadarConsumer::new(TIMEOUT);
    consumer.on_client_state(ClientState::Connected);
    consumer.on_notification_at(&notification([0x30, 1, 1, 1, 1, 1, 1, 1]), 0);
    assert_eq!(
        consumer.on_notification_at(&[1, 2, 3], 1),
        RadarOutcome::Dropped(DecodeError::WrongLength(3))
    );
    assert_eq!(
        consumer.on_notification_at(&notification([0x40, 1, 1, 1, 1, 1, 1, 1]), 2),
        RadarOutcome::Dropped(DecodeError::UnknownPage(0x40))
    );
    assert_eq!(consumer.wait_at(2), RadarWait::Stream(Some(TIMEOUT - 2)));
    assert_eq!(
        consumer.on_timer_at(3),
        RadarOutcome::Publish(Some([0x30, 1, 1, 1, 1, 1, 1, 1, 0x31, 0, 0, 0, 0, 0, 0, 0]))
    );
}

#[test]
fn malformed_notification_does_not_sweep_expired_pages() {
    let mut consumer = RadarConsumer::new(TIMEOUT);
    consumer.on_client_state(ClientState::Connected);
    consumer.on_notification_at(&notification([0x30, 1, 1, 1, 1, 1, 1, 1]), 0);
    assert_eq!(
        consumer.on_notification_at(&[], TIMEOUT),
        RadarOutcome::Dropped(DecodeError::WrongLength(0))
    );
    assert_eq!(consumer.wait_at(TIMEOUT), RadarWait::Stream(Some(0)));
}

#[test]
fn consumer_on_the_clock_publishes_fresh_pages() {
    let mut consumer = RadarConsumer::new(TIMEOUT);
    assert_eq!(
        consumer.on_notification(&notification([0x30, 1, 1, 1, 1, 1, 1, 1])),
        RadarOutcome::Idle
    );
    assert_eq!(consumer.on_timer(), RadarOutcome::Idle);
    consumer.on_client_state(ClientState::Connected);
    assert_eq!(consumer.on_timer(), RadarOutcome::Publish(None));
    assert_eq!(
        consumer.on_notification(&notification([0x31, 5, 5, 5, 5, 5, 5, 5])),
        RadarOutcome::Publish(Some([0x30, 0, 0, 0, 0, 0, 0, 0, 0x31, 5, 5, 5, 5, 5, 5, 5]))
    );
    assert_eq!(
        consumer.on_timer(),
        RadarOutcome::Publish(Some([0x30, 0, 0, 0, 0, 0, 0, 0, 0x31, 5, 5, 5, 5, 5, 5, 5]))
    );
    assert!(matches!(consumer.wait(), RadarWait::Stream(Some(t)) if t > 0 && t <= TIMEOUT));
    assert_eq!(
        consumer.on_notification(&[1]),
        RadarOutcome::Dropped(DecodeError::WrongLength(1))
    );
}
