//! The rules of the receive loop: how the count of wanted frames and the
//! optional time limit end it, and what is shown of a received frame.
//!
//! The loop itself, which polls the link, belongs to the caller. After each
//! poll it reports what the poll brought and how much time has passed since
//! the session began, and is told how to go on.

use crate::filter::{RxFilter, Verdict};
use crate::hexcode::{dump, hex_view, lower_hex, to_hex};
use vstd::prelude::*;

verus! {

/// What one poll of the link brought.
#[derive(Debug, Clone, Copy, PartialEq, Eq, Structural)]
pub enum Event {
    /// A frame that the filter accepted.
    Accepted,
    /// A frame that the filter rejected: it used up the read and nothing else.
    Rejected,
    /// The poll ran into its own short timeout with no frame.
    Quiet,
    /// The read failed in any other way.
    Fault,
}

/// How the loop goes on after a poll.
#[derive(Debug, Clone, Copy, PartialEq, Eq, Structural)]
pub enum Control {
    /// Poll again.
    Continue,
    /// The wanted number of frames was accepted: the receiver is done.
    Finished,
    /// The time limit has passed: the whole run stops at once.
    TimedOut,
    /// The link cannot be read: the run fails.
    Fatal,
}

/// Nanoseconds in one second.
pub const NANOS_PER_SEC: u128 = 1_000_000_000;

/// Whether the time limit, if there is one, lies strictly behind `elapsed_nanos`.
pub open spec fn timed_out(timeout_secs: Option<u64>, elapsed_nanos: u128) -> bool {
    timeout_secs matches Some(limit) && elapsed_nanos > limit * NANOS_PER_SEC
}

/// The count of frames still wanted after an event. Only an accepted frame
/// counts, and only against a positive count: zero stays zero and a negative
/// count, which stands for no limit, never moves.
pub open spec fn remaining_after(remaining: i64, event: Event) -> i64 {
    if event == Event::Accepted && remaining > 0 {
        (remaining - 1) as i64
    } else {
        remaining
    }
}

/// How the loop goes on, given the count as it stands after the event. A
/// failed read comes first, then the time limit, then the count.
pub open spec fn control_after(
    remaining: i64,
    timeout_secs: Option<u64>,
    event: Event,
    elapsed_nanos: u128,
) -> Control {
    if event == Event::Fault {
        Control::Fatal
    } else if timed_out(timeout_secs, elapsed_nanos) {
        Control::TimedOut
    } else if remaining == 0 {
        Control::Finished
    } else {
        Control::Continue
    }
}

/// The two bounds of a receive session.
#[derive(Debug, Clone, Copy, PartialEq, Eq)]
pub struct RxBound {
    /// Accepted frames still wanted; negative for no limit.
    pub remaining: i64,
    /// Seconds from the start of the session after which the run stops.
    pub timeout_secs: Option<u64>,
}

impl RxBound {
    /// The bounds at the start of a session.
    pub fn new(rx_count: i64, rx_timeout: Option<u64>) -> (bound: Self)
        ensures
            bound.remaining == rx_count,
            bound.timeout_secs == rx_timeout,
    {
        RxBound { remaining: rx_count, timeout_secs: rx_timeout }
    }

    /// Whether the loop is to poll at all: the count has not reached zero.
    /// A count of zero from the start means that nothing is received.
    pub fn is_open(&self) -> (open: bool)
        ensures
            open == (self.remaining != 0),
    {
        self.remaining != 0
    }

    /// Whether the time limit has passed.
    pub fn expired(&self, elapsed_nanos: u128) -> (late: bool)
        ensures
            late == timed_out(self.timeout_secs, elapsed_nanos),
    {
        match self.timeout_secs {
            Some(limit) => {
                assert(limit * NANOS_PER_SEC <= u128::MAX) by (nonlinear_arith)
                    requires
                        limit <= u64::MAX,
                        NANOS_PER_SEC == 1_000_000_000,
                ;
                elapsed_nanos > (limit as u128) * NANOS_PER_SEC
            },
            None => false,
        }
    }

    /// How the loop goes on after `event`, with the count as it stands now.
    pub fn check(&self, event: Event, elapsed_nanos: u128) -> (next: Control)
        ensures
            next == control_after(self.remaining, self.timeout_secs, event, elapsed_nanos),
    {
        if event == Event::Fault {
            Control::Fatal
        } else if self.expired(elapsed_nanos) {
            Control::TimedOut
        } else if self.remaining == 0 {
            Control::Finished
        } else {
            Control::Continue
        }
    }

    /// Takes note of what a poll brought and says how the loop goes on.
    pub fn record(&mut self, event: Event, elapsed_nanos: u128) -> (next: Control)
        ensures
            final(self).remaining == remaining_after(old(self).remaining, event),
            final(self).timeout_secs == old(self).timeout_secs,
            next == control_after(
                final(self).remaining,
                old(self).timeout_secs,
                event,
                elapsed_nanos,
            ),
    {
        if event == Event::Accepted && self.remaining > 0 {
            self.remaining = self.remaining - 1;
        }
        self.check(event, elapsed_nanos)
    }
}

/// The text shown for an accepted frame: bare hex in raw mode, a hex dump otherwise.
pub open spec fn shown_text(raw: bool, frame: Seq<u8>) -> Seq<char> {
    if raw {
        lower_hex(frame)
    } else {
        hex_view(frame)
    }
}

/// Renders an accepted frame for output.
pub fn render(frame: &[u8], raw: bool) -> (text: String)
    ensures
        text@ == shown_text(raw, frame@),
{
    if raw {
        to_hex(frame)
    } else {
        dump(frame)
    }
}

/// The event that a frame amounts to under a verdict.
pub open spec fn event_of(v: Verdict) -> Event {
    if v == Verdict::Accept {
        Event::Accepted
    } else {
        Event::Rejected
    }
}

/// What the receiver makes of one frame.
#[derive(Debug)]
pub struct Reception {
    /// The text to show, for an accepted frame.
    pub output: Option<String>,
    /// How the loop goes on.
    pub control: Control,
}

/// A receive session: its filter, its bounds and its output mode.
#[derive(Debug)]
pub struct Receiver {
    filter: RxFilter,
    bound: RxBound,
    raw: bool,
}

impl Receiver {
    /// The filter of this session.
    pub closed spec fn filter(&self) -> RxFilter {
        self.filter
    }

    /// The bounds of this session as they stand.
    pub closed spec fn bound(&self) -> RxBound {
        self.bound
    }

    /// Whether accepted frames are shown as bare hex.
    pub closed spec fn raw(&self) -> bool {
        self.raw
    }

    /// Starts a session.
    pub fn new(filter: RxFilter, rx_count: i64, rx_timeout: Option<u64>, raw: bool) -> (rx: Self)
        ensures
            rx.filter() == filter,
            rx.bound().remaining == rx_count,
            rx.bound().timeout_secs == rx_timeout,
            rx.raw() == raw,
    {
        Receiver { filter, bound: RxBound::new(rx_count, rx_timeout), raw }
    }

    /// Whether the loop is to poll at all.
    pub fn is_open(&self) -> (open: bool)
        ensures
            open == (self.bound().remaining != 0),
    {
        self.bound.is_open()
    }

    /// Handles a received frame: filters it, renders it if it is accepted,
    /// counts it against the limit, and says how the loop goes on.
    pub fn on_frame(&mut self, frame: &[u8], elapsed_nanos: u128) -> (got: Reception)
        ensures
            final(self).filter() == old(self).filter(),
            final(self).raw() == old(self).raw(),
            final(self).bound().timeout_secs == old(self).bound().timeout_secs,
            final(self).bound().remaining == remaining_after(
                old(self).bound().remaining,
                event_of(old(self).filter().verdict(frame@)),
            ),
            got.output is Some <==> old(self).filter().verdict(frame@) == Verdict::Accept,
            got.output matches Some(text) ==> text@ == shown_text(old(self).raw(), frame@),
            got.control == control_after(
                final(self).bound().remaining,
                old(self).bound().timeout_secs,
                event_of(old(self).filter().verdict(frame@)),
                elapsed_nanos,
            ),
    {
        match self.filter.evaluate(frame) {
            Verdict::Accept => {
                let text = render(frame, self.raw);
                let control = self.bound.record(Event::Accepted, elapsed_nanos);
                Reception { output: Some(text), control }
            },
            _ => {
                let control = self.bound.record(Event::Rejected, elapsed_nanos);
                Reception { output: None, control }
            },
        }
    }

    /// Handles a poll that ran into its timeout with no frame: nothing
    /// changes, and only the bounds are looked at.
    pub fn on_quiet(&self, elapsed_nanos: u128) -> (next: Control)
        ensures
            next == control_after(
                self.bound().remaining,
                self.bound().timeout_secs,
                Event::Quiet,
                elapsed_nanos,
            ),
    {
        self.bound.check(Event::Quiet, elapsed_nanos)
    }

    /// Handles a read that failed in any other way: the run cannot go on,
    /// whatever the bounds say.
    pub fn on_fault(&self) -> (next: Control)
        ensures
            next == Control::Fatal,
            forall|elapsed_nanos: u128|
                next == #[trigger] control_after(
                    self.bound().remaining,
                    self.bound().timeout_secs,
                    Event::Fault,
                    elapsed_nanos,
                ),
    {
        self.bound.check(Event::Fault, 0)
    }
}

/// How many of a run of events are accepted frames.
pub open spec fn accepted(events: Seq<Event>) -> nat
    decreases events.len(),
{
    if events.len() == 0 {
        0
    } else {
        accepted(events.drop_last()) + if events.last() == Event::Accepted {
            1nat
        } else {
            0nat
        }
    }
}

/// The count of frames still wanted after a run of events.
pub open spec fn remaining_after_all(remaining: i64, events: Seq<Event>) -> i64
    decreases events.len(),
{
    if events.len() == 0 {
        remaining
    } else {
        remaining_after(remaining_after_all(remaining, events.drop_last()), events.last())
    }
}

/// The count never grows, and a count that is set never falls below zero.
pub proof fn lemma_count_never_grows(remaining: i64, events: Seq<Event>)
    ensures
        remaining_after_all(remaining, events) <= remaining,
        remaining >= 0 ==> remaining_after_all(remaining, events) >= 0,
    decreases events.len(),
{
    if events.len() > 0 {
        lemma_count_never_grows(remaining, events.drop_last());
    }
}

/// A count that is set goes down by one with each accepted frame and with
/// nothing else, until it rests at zero.
pub proof fn lemma_count_tracks_accepted(rx_count: i64, events: Seq<Event>)
    requires
        rx_count >= 0,
    ensures
        remaining_after_all(rx_count, events) == if accepted(events) <= rx_count {
            rx_count - accepted(events)
        } else {
            0
        },
    decreases events.len(),
{
    if events.len() > 0 {
        lemma_count_tracks_accepted(rx_count, events.drop_last());
    }
}

/// A negative count, which stands for no limit, is never moved by any run
/// of events, so it never reaches zero.
pub proof fn lemma_unbounded_never_reaches_zero(rx_count: i64, events: Seq<Event>)
    requires
        rx_count < 0,
    ensures
        remaining_after_all(rx_count, events) == rx_count,
        remaining_after_all(rx_count, events) != 0,
    decreases events.len(),
{
    if events.len() > 0 {
        lemma_unbounded_never_reaches_zero(rx_count, events.drop_last());
    }
}

/// While no read fails and the time limit has not passed, a receiver with a
/// count of `rx_count` is told to finish after exactly the event that brings
/// the accepted frames up to `rx_count`, and to go on after every event
/// before it.
pub proof fn lemma_stops_after_count(
    rx_count: i64,
    rx_timeout: Option<u64>,
    events: Seq<Event>,
    elapsed_nanos: u128,
)
    requires
        rx_count >= 0,
        events.len() > 0,
        events.last() != Event::Fault,
        !timed_out(rx_timeout, elapsed_nanos),
    ensures
        control_after(
            remaining_after_all(rx_count, events),
            rx_timeout,
            events.last(),
            elapsed_nanos,
        ) == if accepted(events) >= rx_count {
            Control::Finished
        } else {
            Control::Continue
        },
{
    lemma_count_tracks_accepted(rx_count, events);
}

/// A receiver without a count is never told to finish: as long as no read
/// fails it goes on until the first event that is reported strictly later
/// than the time limit, and stops the run at that event.
pub proof fn lemma_unbounded_stops_at_timeout(
    rx_count: i64,
    rx_timeout: Option<u64>,
    events: Seq<Event>,
    elapsed_nanos: u128,
)
    requires
        rx_count < 0,
        events.len() > 0,
        events.last() != Event::Fault,
    ensures
        control_after(
            remaining_after_all(rx_count, events),
            rx_timeout,
            events.last(),
            elapsed_nanos,
        ) == if timed_out(rx_timeout, elapsed_nanos) {
            Control::TimedOut
        } else {
            Control::Continue
        },
{
    lemma_unbounded_never_reaches_zero(rx_count, events);
}

} // verus!
