//! The consumer of radar notifications.
//!
//! A radar notification is a header of three bytes and one page of eight.
//! The consumer works only while a downstream client is connected: until
//! then it is parked and the sensor's notifications are left unread. While
//! it streams, every page goes into the page buffer and the merged record is
//! published, again whenever a page reaches its timeout.

use crate::bluetooth::utils::capped;
use crate::bluetooth::utils::merge;
use crate::bluetooth::utils::sample_view;
use crate::bluetooth::utils::PageBuffer;
use crate::bluetooth::utils::PageBufferView;
use crate::bluetooth::utils::PageSlot;
use crate::bluetooth::utils::PAGE1_TAG;
use crate::bluetooth::utils::PAGE2_TAG;
use crate::clock::now_ticks;
use crate::messages::ClientState;
use crate::messages::RadarSample;
use vstd::prelude::*;

verus! {

/// Length of a radar notification: a header of three bytes, then one page.
pub const RADAR_NOTIFICATION_LEN: usize = 11;

/// Length of the header in front of the page.
pub const RADAR_HEADER_LEN: usize = 3;

/// Which half of the record a page carries.
#[derive(Clone, Copy, Debug, PartialEq, Eq)]
pub enum PageKind {
    First,
    Second,
}

/// A page taken out of a radar notification.
#[derive(Clone, Copy, Debug, PartialEq, Eq)]
pub struct Page {
    pub kind: PageKind,
    pub data: [u8; 8],
}

/// Why a notification was dropped.
#[derive(Clone, Copy, Debug, PartialEq, Eq)]
pub enum DecodeError {
    /// The notification has this many bytes, which is not the expected length.
    WrongLength(usize),
    /// The page starts with this byte, which is no known page tag.
    UnknownPage(u8),
}

/// What the radar consumer answers to an event.
#[derive(Clone, Copy, Debug, PartialEq, Eq)]
pub enum RadarOutcome {
    /// Nothing to do. The event does not concern the consumer in its present state.
    Idle,
    /// Publish this radar sample.
    Publish(RadarSample),
    /// The notification was dropped and nothing changed.
    Dropped(DecodeError),
}

/// What the radar consumer waits for next.
#[derive(Clone, Copy, Debug, PartialEq, Eq)]
pub enum RadarWait {
    /// For a downstream client to connect. Sensor notifications are left unread.
    Client,
    /// For the next notification, for the downstream client to disconnect, or
    /// for the given number of ticks to pass, whichever comes first. Without a
    /// number there is no deadline.
    Stream(Option<u64>),
}

/// The page that a radar notification carries, or why it carries none.
pub open spec fn decoded_page(data: Seq<u8>) -> Result<(PageKind, Seq<u8>), DecodeError> {
    if data.len() != RADAR_NOTIFICATION_LEN {
        Err(DecodeError::WrongLength(data.len() as usize))
    } else if data[RADAR_HEADER_LEN as int] == PAGE1_TAG {
        Ok((PageKind::First, data.subrange(RADAR_HEADER_LEN as int, data.len() as int)))
    } else if data[RADAR_HEADER_LEN as int] == PAGE2_TAG {
        Ok((PageKind::Second, data.subrange(RADAR_HEADER_LEN as int, data.len() as int)))
    } else {
        Err(DecodeError::UnknownPage(data[RADAR_HEADER_LEN as int]))
    }
}

/// Takes the page out of a radar notification.
///
/// A notification of eleven bytes whose fourth byte is a page tag yields the
/// page made of its last eight bytes. Any other is refused, with the reason.
pub fn decode_page(data: &[u8]) -> (r: Result<Page, DecodeError>)
    ensures
        match r {
            Ok(page) => decoded_page(data@) == Ok::<(PageKind, Seq<u8>), DecodeError>(
                (page.kind, page.data@),
            ),
            Err(e) => decoded_page(data@) == Err::<(PageKind, Seq<u8>), DecodeError>(e),
        },
{
    if data.len() != RADAR_NOTIFICATION_LEN {
        return Err(DecodeError::WrongLength(data.len()));
    }
    let tag: u8 = data[RADAR_HEADER_LEN];
    let kind: PageKind = if tag == PAGE1_TAG {
        PageKind::First
    } else if tag == PAGE2_TAG {
        PageKind::Second
    } else {
        return Err(DecodeError::UnknownPage(tag));
    };
    let page: [u8; 8] = [
        data[3],
        data[4],
        data[5],
        data[6],
        data[7],
        data[8],
        data[9],
        data[10],
    ];
    assert(page@ =~= data@.subrange(3, 11));
    Ok(Page { kind, data: page })
}

/// Consumer of radar notifications: parked until a downstream client is
/// there, then streaming through a page buffer.
pub struct RadarConsumer {
    intake: Intake,
}

/// A parked consumer keeps the timeout, a streaming one the buffer.
enum Intake {
    Parked(u64),
    Streaming(PageBuffer),
}

/// What a `RadarConsumer` holds.
pub struct RadarConsumerView {
    /// Whether a downstream client is connected, so that notifications are decoded.
    pub streaming: bool,
    pub pages: PageBufferView,
}

impl RadarConsumerView {
    /// The buffer once a page is stored in its slot, stamped `now`.
    pub open spec fn stored(self, kind: PageKind, data: [u8; 8], now: u64) -> PageBufferView {
        match kind {
            PageKind::First => PageBufferView {
                page1: Some(PageSlot { data, timestamp: now }),
                ..self.pages
            },
            PageKind::Second => PageBufferView {
                page2: Some(PageSlot { data, timestamp: now }),
                ..self.pages
            },
        }
    }

    /// The consumer after the downstream client's state became `state`.
    ///
    /// A client that connects starts the stream. A client that disconnects
    /// parks the consumer and empties the buffer.
    pub open spec fn with_client(self, state: ClientState) -> RadarConsumerView {
        match state {
            ClientState::Connected => RadarConsumerView { streaming: true, ..self },
            ClientState::Disconnected => RadarConsumerView {
                streaming: false,
                pages: self.pages.cleared(),
            },
        }
    }

    /// How the consumer answers the notification `data` that arrives at
    /// `now`: with `outcome`, becoming `after`.
    ///
    /// A parked consumer does nothing. A streaming one has the page of a
    /// notification that carries one stored, stamped `now`,
    /// then the expired pages dropped and the merged record published; any
    /// other is dropped without a change.
    pub open spec fn notified(
        self,
        data: Seq<u8>,
        now: u64,
        outcome: RadarOutcome,
        after: RadarConsumerView,
    ) -> bool {
        if !self.streaming {
            outcome == RadarOutcome::Idle && after == self
        } else {
            match decoded_page(data) {
                Ok((kind, bytes)) => exists|page: [u8; 8]|
                    #![trigger self.stored(kind, page, now)]
                    {
                        &&& page@ == bytes
                        &&& outcome is Publish
                        &&& sample_view(outcome->Publish_0) == self.stored(kind, page, now).merged(
                            now,
                        )
                        &&& after == (RadarConsumerView {
                            streaming: true,
                            pages: self.stored(kind, page, now).swept(now),
                        })
                    },
                Err(e) => outcome == RadarOutcome::Dropped(e) && after == self,
            }
        }
    }

    /// How the consumer answers the end of a wait at `now`: with `outcome`,
    /// becoming `after`.
    ///
    /// A parked consumer does nothing. A streaming one has the expired
    /// pages dropped and the merged record published.
    pub open spec fn timed_out(
        self,
        now: u64,
        outcome: RadarOutcome,
        after: RadarConsumerView,
    ) -> bool {
        if !self.streaming {
            outcome == RadarOutcome::Idle && after == self
        } else {
            &&& outcome is Publish
            &&& sample_view(outcome->Publish_0) == self.pages.merged(now)
            &&& after == (RadarConsumerView { streaming: true, pages: self.pages.swept(now) })
        }
    }

    /// What the consumer waits for at `now`.
    pub open spec fn waits_for(self, now: u64) -> RadarWait {
        if self.streaming {
            RadarWait::Stream(capped(self.pages.remaining(now)))
        } else {
            RadarWait::Client
        }
    }
}

impl View for RadarConsumer {
    type V = RadarConsumerView;

    closed spec fn view(&self) -> RadarConsumerView {
        match self.intake {
            Intake::Parked(timeout) => RadarConsumerView {
                streaming: false,
                pages: PageBufferView { page1: None, page2: None, timeout },
            },
            Intake::Streaming(pages) => RadarConsumerView { streaming: true, pages: pages@ },
        }
    }
}

impl RadarConsumer {
    /// A consumer that waits for a downstream client, with an empty buffer
    /// whose pages expire after `data_timeout` ticks.
    pub fn new(data_timeout: u64) -> (r: Self)
        ensures
            r@ == (RadarConsumerView {
                streaming: false,
                pages: PageBufferView { page1: None, page2: None, timeout: data_timeout },
            }),
    {
        RadarConsumer { intake: Intake::Parked(data_timeout) }
    }

    /// Takes note of the downstream client's state.
    ///
    /// A client that connects starts the stream. A client that disconnects
    /// parks the consumer and empties the buffer, so that nothing received
    /// before counts once the stream starts again.
    pub fn on_client_state(&mut self, state: ClientState)
        ensures
            final(self)@ == old(self)@.with_client(state),
    {
        match state {
            ClientState::Connected => {
                if let Intake::Parked(timeout) = self.intake {
                    self.intake = Intake::Streaming(PageBuffer::new(timeout));
                }
            },
            ClientState::Disconnected => {
                let timeout: Option<u64> = match &self.intake {
                    Intake::Streaming(pages) => Some(pages.timeout()),
                    Intake::Parked(_) => None,
                };
                if let Some(t) = timeout {
                    self.intake = Intake::Parked(t);
                }
            },
        }
    }

    /// Handles a notification of the sensor that arrived at `now`.
    ///
    /// A parked consumer does not look at the notification. A streaming one
    /// stores the page of a notification that carries one, stamped `now`,
    /// and the merged record at `now` is to be published; any other is
    /// dropped.
    pub fn on_notification_at(&mut self, data: &[u8], now: u64) -> (r: RadarOutcome)
        ensures
            old(self)@.notified(data@, now, r, final(self)@),
    {
        let ghost before = self@;
        match &mut self.intake {
            Intake::Parked(_) => RadarOutcome::Idle,
            Intake::Streaming(pages) => match decode_page(data) {
                Ok(page) => {
                    match page.kind {
                        PageKind::First => pages.set_page1_at(page.data, now),
                        PageKind::Second => pages.set_page2_at(page.data, now),
                    }
                    assert(pages@ == before.stored(page.kind, page.data, now));
                    let sample: Option<[u8; 16]> = pages.get_at(now);
                    RadarOutcome::Publish(sample)
                },
                Err(e) => RadarOutcome::Dropped(e),
            },
        }
    }

    /// Handles the end of the wait that `wait_at` asked for, at `now`.
    ///
    /// While the consumer streams the merged record at `now` is to be published,
    /// with the pages that expired left out and dropped.
    pub fn on_timer_at(&mut self, now: u64) -> (r: RadarOutcome)
        ensures
            old(self)@.timed_out(now, r, final(self)@),
    {
        match &mut self.intake {
            Intake::Parked(_) => RadarOutcome::Idle,
            Intake::Streaming(pages) => {
                let sample: Option<[u8; 16]> = pages.get_at(now);
                RadarOutcome::Publish(sample)
            },
        }
    }

    /// What to wait for, seen from `now`.
    pub fn wait_at(&self, now: u64) -> (r: RadarWait)
        ensures
            r == self@.waits_for(now),
    {
        match &self.intake {
            Intake::Parked(_) => RadarWait::Client,
            Intake::Streaming(pages) => RadarWait::Stream(pages.get_timer_at(now)),
        }
    }

    /// `on_notification_at` at the current time.
    pub fn on_notification(&mut self, data: &[u8]) -> (r: RadarOutcome)
        ensures
            exists|now: u64| #[trigger] old(self)@.notified(data@, now, r, final(self)@),
    {
        let now: u64 = now_ticks();
        self.on_notification_at(data, now)
    }

    /// `on_timer_at` at the current time.
    pub fn on_timer(&mut self) -> (r: RadarOutcome)
        ensures
            exists|now: u64| #[trigger] old(self)@.timed_out(now, r, final(self)@),
    {
        let now: u64 = now_ticks();
        self.on_timer_at(now)
    }

    /// `wait_at` at the current time.
    pub fn wait(&self) -> (r: RadarWait)
        ensures
            exists|now: u64| r == #[trigger] self@.waits_for(now),
    {
        let now: u64 = now_ticks();
        self.wait_at(now)
    }
}

/// A parked consumer holds no page: whatever arrives once the stream
/// starts is merged with nothing that was received before.
pub proof fn lemma_parked_consumer_holds_no_page(consumer: RadarConsumer)
    ensures
        !consumer@.streaming ==> consumer@.pages.page1 is None && consumer@.pages.page2 is None,
{
}

/// While the consumer is parked a notification is neither decoded nor forwarded,
/// and the end of a wait publishes nothing: the consumer stays as it is.
pub proof fn lemma_parked_consumer_forwards_nothing(
    before: RadarConsumerView,
    data: Seq<u8>,
    now: u64,
    outcome: RadarOutcome,
    after: RadarConsumerView,
)
    requires
        !before.streaming,
        before.notified(data, now, outcome, after) || before.timed_out(now, outcome, after),
    ensures
        outcome == RadarOutcome::Idle,
        after == before,
        before.waits_for(now) == RadarWait::Client,
{
}

/// After the downstream client left and came back, the first page that
/// arrives is published with the filler of the other page, whatever was
/// received before the client left. Only with a timeout of zero, under which
/// a page is expired as it arrives, there is no record at all.
pub proof fn lemma_restarted_stream_starts_empty(
    before: RadarConsumerView,
    data: Seq<u8>,
    now: u64,
    outcome: RadarOutcome,
    after: RadarConsumerView,
)
    requires
        decoded_page(data) is Ok,
        before.with_client(ClientState::Disconnected).with_client(ClientState::Connected).notified(
            data,
            now,
            outcome,
            after,
        ),
    ensures
        outcome is Publish,
        before.pages.timeout == 0 ==> outcome->Publish_0 is None,
        before.pages.timeout > 0 && decoded_page(data)->Ok_0.0 == PageKind::First ==> sample_view(
            outcome->Publish_0,
        ) == merge(Some(decoded_page(data)->Ok_0.1), None),
        before.pages.timeout > 0 && decoded_page(data)->Ok_0.0 == PageKind::Second ==> sample_view(
            outcome->Publish_0,
        ) == merge(None, Some(decoded_page(data)->Ok_0.1)),
{
}

} // verus!
