use embassy_sync::blocking_mutex::raw::CriticalSectionRawMutex;
use embassy_sync::channel::Channel;
use embassy_sync::watch::Watch;
use magene_proxy::bluetooth::radar::RadarConsumer;
use magene_proxy::bluetooth::radar::RadarOutcome;
use magene_proxy::bluetooth::central::Publication;
use magene_proxy::bluetooth::central::SourceEvent;
use magene_proxy::bluetooth::central::SourceReaction;
use magene_proxy::bluetooth::central::SourceSupervisor;
use magene_proxy::bluetooth::central::StepResult;
use magene_proxy::bluetooth::peripheral::radar_notification;
use magene_proxy::bluetooth::scan::Address;
use magene_proxy::bluetooth::scan::AdvReport;
use magene_proxy::bluetooth::scan::ScanEventHandler;
use magene_proxy::messages::ClientState;
use magene_proxy::messages::SourceState;

type StateTopic = Watch<CriticalSectionRawMutex, SourceState, 4>;
type RadarTopic = Watch<CriticalSectionRawMutex, Option<[u8; 16]>, 2>;

fn carry_out(
    reaction: &SourceReaction,
    source: &StateTopic,
    radar: &RadarTopic,
) {
    for publication in reaction.publications() {
        match publication {
            Publication::Radar(sample) => radar.sender().send(sample),
            Publication::Battery(_) => {}
            Publication::Source(state) => source.sender().send(state),
        }
    }
}

#[test]
fn late_subscriber_sees_only_the_latest_state() {
    let source = StateTopic::new();
    let radar = RadarTopic::new();
    let sensor = Address { kind: 1, addr: [1, 2, 3, 4, 5, 6] };

    let (mut supervisor, reaction) = SourceSupervisor::new();
    carry_out(&reaction, &source, &radar);
    let mut early = source.receiver().unwrap();
    assert_eq!(early.try_changed(), Some(SourceState::Scanning));
    assert_eq!(early.try_changed(), None);

    let mut events = vec![
        SourceEvent::Found(sensor),
        SourceEvent::Connected,
        SourceEvent::ClientReady,
        SourceEvent::Settled,
    ];
    events.extend([SourceEvent::Step(StepResult::Done); 7]);
    for event in events {
        let reaction = supervisor.step(event);
        carry_out(&reaction, &source, &radar);
    }

    let mut late = source.receiver().unwrap();
    assert_eq!(late.try_get(), Some(SourceState::Connected));
    assert_eq!(early.try_changed(), Some(SourceState::Connected));
    assert_eq!(early.try_changed(), None);
    assert_eq!(late.try_changed(), None);

    let reaction = supervisor.step(SourceEvent::Ended);
    carry_out(&reaction, &source, &radar);
    assert_eq!(early.try_changed(), Some(SourceState::Scanning));
    assert_eq!(late.try_get(), Some(SourceState::Scanning));
    assert_eq!(radar.try_get(), Some(None));
}

#[test]
fn forwarder_that_reads_late_sends_the_latest_record() {
    let radar = RadarTopic::new();
    let mut forwarder = radar.receiver().unwrap();
    assert_eq!(forwarder.try_changed(), None);

    let mut consumer = RadarConsumer::new(5_000_000);
    consumer.on_client_state(ClientState::Connected);
    let mut published = 0;
    for (at, page) in [
        (0u64, [0x30u8, 1, 0, 0, 0, 0, 0, 0]),
        (10, [0x31, 2, 0, 0, 0, 0, 0, 0]),
        (20, [0x30, 3, 0, 0, 0, 0, 0, 0]),
    ] {
        let mut data = vec![0u8; 3];
        data.extend_from_slice(&page);
        if let RadarOutcome::Publish(sample) = consumer.on_notification_at(&data, at) {
            radar.sender().send(sample);
            published += 1;
        }
    }
    assert_eq!(published, 3);

    let record = forwarder.try_changed().unwrap();
    assert_eq!(
        radar_notification(record),
        [0x30, 3, 0, 0, 0, 0, 0, 0, 0x31, 2, 0, 0, 0, 0, 0, 0]
    );
    assert_eq!(forwarder.try_changed(), None);
}

#[test]
fn scan_queue_takes_thirty_two_results_in_order() {
    let queue: Channel<CriticalSectionRawMutex, Address, 32> = Channel::new();
    let mut reports = Vec::new();
    for i in 0..40u8 {
        reports.push(AdvReport {
            addr_kind: 0,
            addr: [i, 0, 0, 0, 0, 0],
            data: vec![8, 0x09, b'3', b'4', b'6', b'6', b'0', b'-', b'5'],
        });
    }
    let found = ScanEventHandler.on_adv_reports(&reports);
    assert_eq!(found.len(), 40);
    let mut refused = 0;
    for address in found {
        if queue.try_send(address).is_err() {
            refused += 1;
        }
    }
    assert_eq!(refused, 8);
    for i in 0..32u8 {
        assert_eq!(queue.try_receive().unwrap().addr[0], i);
    }
    assert!(queue.try_receive().is_err());
}
