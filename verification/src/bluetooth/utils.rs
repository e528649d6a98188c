//! Reassembly of the sensor's two-page radar record.
//!
//! The sensor sends its 16-byte record as two 8-byte pages. Each page is kept
//! in a slot with the time it arrived, and stops counting from the tick at
//! which it is as old as the timeout. What is forwarded is computed from the slots and the
//! current time alone.

use crate::clock::now_ticks;
use crate::messages::RadarSample;
use vstd::prelude::*;

verus! {

/// First byte of a page that carries the first half of the record.
pub const PAGE1_TAG: u8 = 0x30;

/// First byte of a page that carries the second half of the record.
pub const PAGE2_TAG: u8 = 0x31;

/// One stored page: its bytes and the tick count at which it arrived.
#[derive(Clone, Copy, Debug)]
pub struct PageSlot {
    pub data: [u8; 8],
    pub timestamp: u64,
}

/// The two slots and the timeout, in ticks, shared by both.
pub struct PageBuffer {
    page1: Option<PageSlot>,
    page2: Option<PageSlot>,
    data_timeout: u64,
}

/// What a `PageBuffer` holds.
pub struct PageBufferView {
    pub page1: Option<PageSlot>,
    pub page2: Option<PageSlot>,
    pub timeout: u64,
}

/// A page stamped `timestamp` is expired at `now` from the tick at which its
/// age reaches the timeout.
pub open spec fn expired(timestamp: u64, timeout: u64, now: u64) -> bool {
    now >= timestamp + timeout
}

/// The bytes of a slot that is filled and not expired at `now`.
pub open spec fn live_page(slot: Option<PageSlot>, timeout: u64, now: u64) -> Option<Seq<u8>> {
    match slot {
        Some(s) => if expired(s.timestamp, timeout, now) {
            None
        } else {
            Some(s.data@)
        },
        None => None,
    }
}

/// A slot after the expiry check at `now`: an expired page is dropped.
pub open spec fn sweep(slot: Option<PageSlot>, timeout: u64, now: u64) -> Option<PageSlot> {
    match slot {
        Some(s) => if expired(s.timestamp, timeout, now) {
            None
        } else {
            slot
        },
        None => None,
    }
}

/// The page that stands in for a missing one: its tag, then seven zero bytes.
pub open spec fn filler(tag: u8) -> Seq<u8> {
    seq![tag, 0u8, 0u8, 0u8, 0u8, 0u8, 0u8, 0u8]
}

/// The merged record of two pages, each present or missing.
///
/// With no page there is no record. Otherwise a missing page is replaced by
/// its filler and the first page is followed by the second.
pub open spec fn merge(page1: Option<Seq<u8>>, page2: Option<Seq<u8>>) -> Option<Seq<u8>> {
    match (page1, page2) {
        (Some(a), Some(b)) => Some(a + b),
        (Some(a), None) => Some(a + filler(PAGE2_TAG)),
        (None, Some(b)) => Some(filler(PAGE1_TAG) + b),
        (None, None) => None,
    }
}

/// Ticks until a page stamped `timestamp` expires, zero once it is expired.
pub open spec fn ticks_left(timestamp: u64, timeout: u64, now: u64) -> int {
    if expired(timestamp, timeout, now) {
        0
    } else {
        timestamp + timeout - now
    }
}

/// The smaller of two waits, where `None` is no wait at all.
pub open spec fn earlier(a: Option<int>, b: Option<int>) -> Option<int> {
    match (a, b) {
        (Some(x), Some(y)) => Some(if x <= y { x } else { y }),
        (Some(x), None) => Some(x),
        (None, _) => b,
    }
}

/// The bytes of a forwarded record.
pub open spec fn sample_view(sample: RadarSample) -> Option<Seq<u8>> {
    match sample {
        Some(bytes) => Some(bytes@),
        None => None,
    }
}

impl PageBufferView {
    /// The record that `get` returns at `now`.
    pub open spec fn merged(self, now: u64) -> Option<Seq<u8>> {
        merge(
            live_page(self.page1, self.timeout, now),
            live_page(self.page2, self.timeout, now),
        )
    }

    /// The buffer after `get` at `now`.
    pub open spec fn swept(self, now: u64) -> PageBufferView {
        PageBufferView {
            page1: sweep(self.page1, self.timeout, now),
            page2: sweep(self.page2, self.timeout, now),
            timeout: self.timeout,
        }
    }

    /// The buffer with both slots empty.
    pub open spec fn cleared(self) -> PageBufferView {
        PageBufferView { page1: None, page2: None, timeout: self.timeout }
    }

    /// Ticks from `now` until the first stored page expires.
    ///
    /// `None` with no stored page. A stored page that is expired and was not
    /// dropped yet counts, with zero ticks left.
    pub open spec fn remaining(self, now: u64) -> Option<int> {
        earlier(
            match self.page1 {
                Some(s) => Some(ticks_left(s.timestamp, self.timeout, now)),
                None => None,
            },
            match self.page2 {
                Some(s) => Some(ticks_left(s.timestamp, self.timeout, now)),
                None => None,
            },
        )
    }
}

impl View for PageBuffer {
    type V = PageBufferView;

    closed spec fn view(&self) -> PageBufferView {
        PageBufferView { page1: self.page1, page2: self.page2, timeout: self.data_timeout }
    }
}

/// The wait that `get_timer` reports for a count of ticks: the count, capped at `u64::MAX`.
pub open spec fn capped(ticks: Option<int>) -> Option<u64> {
    match ticks {
        Some(t) => Some(if t > u64::MAX { u64::MAX } else { t as u64 }),
        None => None,
    }
}

fn is_expired(timestamp: u64, timeout: u64, now: u64) -> (r: bool)
    ensures
        r == expired(timestamp, timeout, now),
{
    now >= timestamp && now - timestamp >= timeout
}

fn slot_ticks_left(timestamp: u64, timeout: u64, now: u64) -> (r: u64)
    ensures
        Some(r) == capped(Some(ticks_left(timestamp, timeout, now))),
{
    if now >= timestamp {
        let age: u64 = now - timestamp;
        if age >= timeout {
            0
        } else {
            timeout - age
        }
    } else {
        let ahead: u64 = timestamp - now;
        if ahead > u64::MAX - timeout {
            u64::MAX
        } else {
            ahead + timeout
        }
    }
}

fn filler_page(tag: u8) -> (r: [u8; 8])
    ensures
        r@ == filler(tag),
{
    let r: [u8; 8] = [tag, 0, 0, 0, 0, 0, 0, 0];
    assert(r@ =~= filler(tag));
    r
}

fn concat_pages(page1: &[u8; 8], page2: &[u8; 8]) -> (r: [u8; 16])
    ensures
        r@ == page1@ + page2@,
{
    let r: [u8; 16] = [
        page1[0],
        page1[1],
        page1[2],
        page1[3],
        page1[4],
        page1[5],
        page1[6],
        page1[7],
        page2[0],
        page2[1],
        page2[2],
        page2[3],
        page2[4],
        page2[5],
        page2[6],
        page2[7],
    ];
    assert(r@ =~= page1@ + page2@);
    r
}

impl PageBuffer {
    /// An empty buffer whose pages expire `data_timeout` ticks after they arrive.
    pub fn new(data_timeout: u64) -> (r: Self)
        ensures
            r@ == (PageBufferView { page1: None, page2: None, timeout: data_timeout }),
    {
        PageBuffer { page1: None, page2: None, data_timeout }
    }

    /// The timeout, in ticks, that the buffer was made with.
    pub fn timeout(&self) -> (r: u64)
        ensures
            r == self@.timeout,
    {
        self.data_timeout
    }

    /// Stores `data` as the first page, stamped `now`.
    pub fn set_page1_at(&mut self, data: [u8; 8], now: u64)
        ensures
            final(self)@ == (PageBufferView {
                page1: Some(PageSlot { data, timestamp: now }),
                ..old(self)@
            }),
    {
        self.page1 = Some(PageSlot { data, timestamp: now });
    }

    /// Stores `data` as the second page, stamped `now`.
    pub fn set_page2_at(&mut self, data: [u8; 8], now: u64)
        ensures
            final(self)@ == (PageBufferView {
                page2: Some(PageSlot { data, timestamp: now }),
                ..old(self)@
            }),
    {
        self.page2 = Some(PageSlot { data, timestamp: now });
    }

    /// Drops the pages that are expired at `now` and returns the merged record
    /// of those that remain.
    pub fn get_at(&mut self, now: u64) -> (r: RadarSample)
        ensures
            sample_view(r) == old(self)@.merged(now),
            final(self)@ == old(self)@.swept(now),
    {
        if let Some(slot) = self.page1 {
            if is_expired(slot.timestamp, self.data_timeout, now) {
                self.page1 = None;
            }
        }
        if let Some(slot) = self.page2 {
            if is_expired(slot.timestamp, self.data_timeout, now) {
                self.page2 = None;
            }
        }
        match (self.page1, self.page2) {
            (Some(a), Some(b)) => Some(concat_pages(&a.data, &b.data)),
            (Some(a), None) => {
                let b: [u8; 8] = filler_page(PAGE2_TAG);
                Some(concat_pages(&a.data, &b))
            },
            (None, Some(b)) => {
                let a: [u8; 8] = filler_page(PAGE1_TAG);
                Some(concat_pages(&a, &b.data))
            },
            (None, None) => None,
        }
    }

    /// How long to wait, from `now`, until the first stored page expires.
    ///
    /// `None` with no stored page: there is nothing to wait for. Otherwise
    /// the ticks left, zero once that page is expired, and `u64::MAX` where
    /// the count does not fit.
    pub fn get_timer_at(&self, now: u64) -> (r: Option<u64>)
        ensures
            r == capped(self@.remaining(now)),
    {
        let first: Option<u64> = match self.page1 {
            Some(slot) => Some(slot_ticks_left(slot.timestamp, self.data_timeout, now)),
            None => None,
        };
        let second: Option<u64> = match self.page2 {
            Some(slot) => Some(slot_ticks_left(slot.timestamp, self.data_timeout, now)),
            None => None,
        };
        match (first, second) {
            (Some(x), Some(y)) => Some(if x <= y { x } else { y }),
            (Some(x), None) => Some(x),
            (None, _) => second,
        }
    }

    /// Stores `data` as the first page, stamped with the current time.
    pub fn set_page1(&mut self, data: [u8; 8])
        ensures
            final(self)@.page1 is Some,
            final(self)@.page1->0.data == data,
            final(self)@.page2 == old(self)@.page2,
            final(self)@.timeout == old(self)@.timeout,
    {
        let now: u64 = now_ticks();
        self.set_page1_at(data, now);
    }

    /// Stores `data` as the second page, stamped with the current time.
    pub fn set_page2(&mut self, data: [u8; 8])
        ensures
            final(self)@.page2 is Some,
            final(self)@.page2->0.data == data,
            final(self)@.page1 == old(self)@.page1,
            final(self)@.timeout == old(self)@.timeout,
    {
        let now: u64 = now_ticks();
        self.set_page2_at(data, now);
    }

    /// `get_at` at the current time.
    pub fn get(&mut self) -> (r: RadarSample)
        ensures
            exists|now: u64|
                #![trigger old(self)@.merged(now)]
                sample_view(r) == old(self)@.merged(now) && final(self)@ == old(self)@.swept(
                    now,
                ),
    {
        let now: u64 = now_ticks();
        self.get_at(now)
    }

    /// `get_timer_at` at the current time.
    pub fn get_timer(&self) -> (r: Option<u64>)
        ensures
            exists|now: u64| #![trigger self@.remaining(now)] r == capped(self@.remaining(now)),
    {
        let now: u64 = now_ticks();
        self.get_timer_at(now)
    }

    /// Empties both slots.
    pub fn cleanup(&mut self)
        ensures
            final(self)@ == old(self)@.cleared(),
    {
        self.page1 = None;
        self.page2 = None;
    }
}

/// A page that is expired stays expired while the clock does not run backwards.
pub proof fn lemma_expiry_is_monotone(timestamp: u64, timeout: u64, now: u64, later: u64)
    requires
        expired(timestamp, timeout, now),
        now <= later,
    ensures
        expired(timestamp, timeout, later),
{
}

/// Once the first page is expired at `now`, a `get` at `now` leaves it out and
/// drops it, and a `get` at any `later` time leaves it out as well, whether
/// or not a `get` came in between: the record, if there is one, starts with
/// the filler of the first page.
pub proof fn lemma_expired_page1_stays_out(buffer: PageBufferView, now: u64, later: u64)
    requires
        buffer.page1 is Some,
        expired(buffer.page1->0.timestamp, buffer.timeout, now),
        now <= later,
    ensures
        buffer.swept(now).page1 is None,
        buffer.merged(now) == merge(None, live_page(buffer.page2, buffer.timeout, now)),
        buffer.merged(later) == merge(None, live_page(buffer.page2, buffer.timeout, later)),
        buffer.swept(now).merged(later) == buffer.merged(later),
{
}

/// Once the second page is expired at `now`, a `get` at `now` leaves it out
/// and drops it, and a `get` at any `later` time leaves it out as well,
/// whether or not a `get` came in between: the record, if there is one, ends
/// with the filler of the second page.
pub proof fn lemma_expired_page2_stays_out(buffer: PageBufferView, now: u64, later: u64)
    requires
        buffer.page2 is Some,
        expired(buffer.page2->0.timestamp, buffer.timeout, now),
        now <= later,
    ensures
        buffer.swept(now).page2 is None,
        buffer.merged(now) == merge(live_page(buffer.page1, buffer.timeout, now), None),
        buffer.merged(later) == merge(live_page(buffer.page1, buffer.timeout, later), None),
        buffer.swept(now).merged(later) == buffer.merged(later),
{
}

/// The buffer after one `get` at each of `times`, in their order.
pub open spec fn swept_at_all(buffer: PageBufferView, times: Seq<u64>) -> PageBufferView
    decreases times.len(),
{
    if times.len() == 0 {
        buffer
    } else {
        swept_at_all(buffer, times.drop_last()).swept(times.last())
    }
}

/// A page that was dropped does not come back by itself: after a `get` at a
/// time at which the first page is expired, and after any number of further
/// calls of `get` at any times, the first slot is empty and the record at any
/// time, if there is one, starts with the filler. The same holds of the
/// second page and the end of the record.
pub proof fn lemma_dropped_page_never_returns(
    buffer: PageBufferView,
    now: u64,
    times: Seq<u64>,
    later: u64,
)
    ensures
        buffer.page1 is Some && expired(buffer.page1->0.timestamp, buffer.timeout, now) ==> {
            let after = swept_at_all(buffer.swept(now), times);
            after.page1 is None && after.merged(later) == merge(
                None,
                live_page(after.page2, after.timeout, later),
            )
        },
        buffer.page2 is Some && expired(buffer.page2->0.timestamp, buffer.timeout, now) ==> {
            let after = swept_at_all(buffer.swept(now), times);
            after.page2 is None && after.merged(later) == merge(
                live_page(after.page1, after.timeout, later),
                None,
            )
        },
    decreases times.len(),
{
    if times.len() > 0 {
        lemma_dropped_page_never_returns(buffer, now, times.drop_last(), later);
    }
}

/// The layout of the merged record: with no page there is none; otherwise
/// it has sixteen bytes, its first half is the first page, or that page's
/// filler where the page is missing, and its second half is the second page,
/// or that page's filler.
pub proof fn lemma_merged_record_layout(page1: Option<Seq<u8>>, page2: Option<Seq<u8>>)
    requires
        page1 is Some ==> page1->0.len() == 8,
        page2 is Some ==> page2->0.len() == 8,
    ensures
        merge(page1, page2) is None <==> page1 is None && page2 is None,
        merge(page1, page2) is Some ==> {
            &&& merge(page1, page2)->0.len() == 16
            &&& merge(page1, page2)->0.subrange(0, 8) == (match page1 {
                Some(page) => page,
                None => filler(PAGE1_TAG),
            })
            &&& merge(page1, page2)->0.subrange(8, 16) == (match page2 {
                Some(page) => page,
                None => filler(PAGE2_TAG),
            })
        },
{
    let first = match page1 {
        Some(page) => page,
        None => filler(PAGE1_TAG),
    };
    let second = match page2 {
        Some(page) => page,
        None => filler(PAGE2_TAG),
    };
    assert((first + second).subrange(0, 8) =~= first);
    assert((first + second).subrange(8, 16) =~= second);
}

/// The wait is zero exactly when a stored page is expired.
pub proof fn lemma_timer_is_zero_once_expired(buffer: PageBufferView, now: u64)
    ensures
        buffer.remaining(now) == Some(0int) <==> (buffer.page1 is Some && expired(
            buffer.page1->0.timestamp,
            buffer.timeout,
            now,
        )) || (buffer.page2 is Some && expired(buffer.page2->0.timestamp, buffer.timeout, now)),
        capped(buffer.remaining(now)) == Some(0u64) <==> buffer.remaining(now) == Some(0int),
{
}

/// While no stored page is expired, and there is one, the wait is positive:
/// it is the time until the first of them expires.
pub proof fn lemma_timer_is_positive_while_fresh(buffer: PageBufferView, now: u64)
    requires
        buffer.page1 is Some || buffer.page2 is Some,
        buffer.page1 is Some ==> !expired(buffer.page1->0.timestamp, buffer.timeout, now),
        buffer.page2 is Some ==> !expired(buffer.page2->0.timestamp, buffer.timeout, now),
    ensures
        buffer.remaining(now) is Some,
        buffer.remaining(now)->0 > 0,
        capped(buffer.remaining(now))->0 > 0,
        buffer.page1 is Some ==> buffer.remaining(now)->0 <= buffer.page1->0.timestamp
            + buffer.timeout - now,
        buffer.page2 is Some ==> buffer.remaining(now)->0 <= buffer.page2->0.timestamp
            + buffer.timeout - now,
        (buffer.page1 is Some && buffer.remaining(now)->0 == buffer.page1->0.timestamp
            + buffer.timeout - now) || (buffer.page2 is Some && buffer.remaining(now)->0
            == buffer.page2->0.timestamp + buffer.timeout - now),
{
}

/// Clearing twice is clearing once, clearing an empty buffer changes nothing,
/// and a cleared buffer has no record at any time.
pub proof fn lemma_cleanup_is_idempotent(buffer: PageBufferView, now: u64)
    ensures
        buffer.cleared().cleared() == buffer.cleared(),
        buffer.page1 is None && buffer.page2 is None ==> buffer.cleared() == buffer,
        buffer.cleared().merged(now) is None,
        buffer.cleared().swept(now) == buffer.cleared(),
        buffer.cleared().remaining(now) is None,
{
}

} // verus!
