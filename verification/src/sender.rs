//! The rules of the transmit loop: how often each frame is sent, and how
//! long to pause after a send so that sends keep a steady cadence.
//!
//! The loop itself, which takes frames off the queue, writes to the link and
//! sleeps, belongs to the caller.

use vstd::prelude::*;

verus! {

/// What the transmit loop does next.
#[derive(Debug, Clone, Copy, PartialEq, Eq, Structural)]
pub enum TxStep {
    /// Take the next frame off the queue, waiting for it if need be.
    Fetch,
    /// Write the current frame to the link.
    Send,
    /// The queue is closed and drained: the sender is done.
    Done,
}

/// The sender's place in its work: how many sends the current frame is still
/// owed, and whether the queue has been found closed.
#[derive(Debug, Clone, Copy, PartialEq, Eq)]
pub struct Repeater {
    /// How many times each frame is sent.
    pub repeat: u64,
    /// Sends still owed to the current frame.
    pub pending: u64,
    /// Whether the queue has been found closed and empty.
    pub closed: bool,
}

impl Repeater {
    /// The next step: the current frame is sent until nothing is owed to
    /// it, and only then is the queue asked again.
    pub open spec fn step(self) -> TxStep {
        if self.pending > 0 {
            TxStep::Send
        } else if self.closed {
            TxStep::Done
        } else {
            TxStep::Fetch
        }
    }

    /// The state once a frame has come off the queue.
    pub open spec fn loaded(self) -> Repeater {
        Repeater { pending: self.repeat, ..self }
    }

    /// The state once the current frame has been written once more.
    pub open spec fn sent(self) -> Repeater {
        Repeater {
            pending: if self.pending > 0 {
                (self.pending - 1) as u64
            } else {
                0
            },
            ..self
        }
    }

    /// The state once the queue has been found closed.
    pub open spec fn shut(self) -> Repeater {
        Repeater { closed: true, ..self }
    }

    /// A sender that has fetched nothing yet.
    pub fn new(repeat: u64) -> (r: Self)
        ensures
            r == (Repeater { repeat, pending: 0, closed: false }),
    {
        Repeater { repeat, pending: 0, closed: false }
    }

    /// What to do next.
    pub fn next(&self) -> (step: TxStep)
        ensures
            step == self.step(),
    {
        if self.pending > 0 {
            TxStep::Send
        } else if self.closed {
            TxStep::Done
        } else {
            TxStep::Fetch
        }
    }

    /// Notes that a frame has come off the queue: it is owed `repeat` sends.
    pub fn load(&mut self)
        ensures
            *final(self) == old(self).loaded(),
    {
        self.pending = self.repeat;
    }

    /// Notes that the current frame has been written to the link.
    pub fn record_send(&mut self)
        ensures
            *final(self) == old(self).sent(),
    {
        if self.pending > 0 {
            self.pending = self.pending - 1;
        }
    }

    /// Notes that the queue is closed and holds nothing more.
    pub fn close(&mut self)
        ensures
            *final(self) == old(self).shut(),
    {
        self.closed = true;
    }
}

/// The time to pause after a send that was finished at `now`, for a cadence
/// of one send per `period` counted from `reference`: what is left of the
/// period, or `None` where the period is already used up. A clock reading
/// before the reference counts as the reference itself.
pub open spec fn pause_for(period: int, reference: int, now: int) -> Option<int> {
    let elapsed = if now >= reference {
        now - reference
    } else {
        0
    };
    if elapsed <= period {
        Some(period - elapsed)
    } else {
        None
    }
}

/// The rate limiter. Its reference moves on by one period with every send,
/// whatever the send and the pause really took, so that a slow send does not
/// push back the sends after it.
#[derive(Debug, Clone, Copy, PartialEq, Eq)]
pub struct Pacer {
    /// Nanoseconds between two sends.
    pub period_nanos: u128,
    /// The instant, in nanoseconds from the start of the session, from which
    /// the period of the next send is counted.
    pub reference_nanos: u128,
}

impl Pacer {
    /// Whether the reference can move on by one more period.
    pub open spec fn has_room(self) -> bool {
        self.reference_nanos + self.period_nanos <= u128::MAX
    }

    /// The limiter once one more send has been paced.
    pub open spec fn moved_on(self) -> Pacer {
        Pacer { reference_nanos: (self.reference_nanos + self.period_nanos) as u128, ..self }
    }

    /// The limiter once `sends` more sends have been paced.
    pub open spec fn after_sends(self, sends: nat) -> Pacer
        decreases sends,
    {
        if sends == 0 {
            self
        } else {
            self.after_sends((sends - 1) as nat).moved_on()
        }
    }

    /// A limiter for one send per `period_micros` microseconds, counted from
    /// the start of the session.
    pub fn new(period_micros: u64) -> (pacer: Self)
        ensures
            pacer.period_nanos == period_micros * 1000,
            pacer.reference_nanos == 0,
            pacer.has_room(),
    {
        Pacer { period_nanos: (period_micros as u128) * 1000, reference_nanos: 0 }
    }

    /// Whether `pace` may be called once more.
    pub fn can_pace(&self) -> (room: bool)
        ensures
            room == self.has_room(),
    {
        self.reference_nanos <= u128::MAX - self.period_nanos
    }

    /// Called after each send with the time since the start of the session,
    /// in nanoseconds: says how long to sleep before the next send, if at
    /// all, and moves the reference on by one period.
    pub fn pace(&mut self, now_nanos: u128) -> (pause: Option<u128>)
        requires
            old(self).has_room(),
        ensures
            *final(self) == old(self).moved_on(),
            final(self).reference_nanos == old(self).reference_nanos + old(self).period_nanos,
            pause_for(
                old(self).period_nanos as int,
                old(self).reference_nanos as int,
                now_nanos as int,
            ) == match pause {
                Some(nanos) => Some(nanos as int),
                None => None,
            },
    {
        let elapsed = if now_nanos >= self.reference_nanos {
            now_nanos - self.reference_nanos
        } else {
            0
        };
        let pause = if elapsed <= self.period_nanos {
            Some(self.period_nanos - elapsed)
        } else {
            None
        };
        self.reference_nanos = self.reference_nanos + self.period_nanos;
        pause
    }
}

/// The pause that a limiter, if there is one, asks for after a send that
/// was finished at `now_nanos`. Without a limiter there is never a pause:
/// frames go out as fast as the link takes them.
pub open spec fn pause_after(pacer: Option<Pacer>, now_nanos: u128) -> Option<int> {
    match pacer {
        Some(p) => pause_for(p.period_nanos as int, p.reference_nanos as int, now_nanos as int),
        None => None,
    }
}

/// A transmit session: the repeat count and, where a rate is set, the limiter.
#[derive(Debug)]
pub struct Sender {
    repeater: Repeater,
    pacer: Option<Pacer>,
}

impl Sender {
    /// Where the sender stands in its work.
    pub closed spec fn repeater(&self) -> Repeater {
        self.repeater
    }

    /// The limiter, where a rate is set.
    pub closed spec fn pacer(&self) -> Option<Pacer> {
        self.pacer
    }

    /// Whether the clock of the limiter, if there is one, has room for one
    /// more send.
    pub open spec fn has_room(&self) -> bool {
        self.pacer() matches Some(p) ==> p.has_room()
    }

    /// Starts a session that sends each frame `repeat` times, at most one
    /// send per `period_micros` microseconds where a period is given.
    pub fn new(repeat: u64, period_micros: Option<u64>) -> (tx: Self)
        ensures
            tx.repeater() == (Repeater { repeat, pending: 0, closed: false }),
            tx.pacer() == match period_micros {
                Some(micros) => Some(
                    Pacer { period_nanos: (micros * 1000) as u128, reference_nanos: 0 },
                ),
                None => None,
            },
            tx.has_room(),
    {
        let pacer = match period_micros {
            Some(micros) => Some(Pacer::new(micros)),
            None => None,
        };
        Sender { repeater: Repeater::new(repeat), pacer }
    }

    /// What to do next.
    pub fn next(&self) -> (step: TxStep)
        ensures
            step == self.repeater().step(),
    {
        self.repeater.next()
    }

    /// How many sends the current frame is still owed.
    pub fn pending(&self) -> (owed: u64)
        ensures
            owed == self.repeater().pending,
    {
        self.repeater.pending
    }

    /// Notes that a frame has come off the queue.
    pub fn on_fetched(&mut self)
        ensures
            final(self).repeater() == old(self).repeater().loaded(),
            final(self).pacer() == old(self).pacer(),
    {
        self.repeater.load();
    }

    /// Notes that the queue is closed and holds nothing more.
    pub fn on_closed(&mut self)
        ensures
            final(self).repeater() == old(self).repeater().shut(),
            final(self).pacer() == old(self).pacer(),
    {
        self.repeater.close();
    }

    /// Whether `on_sent` may be called once more.
    pub fn can_pace(&self) -> (room: bool)
        ensures
            room == self.has_room(),
    {
        match &self.pacer {
            Some(p) => p.can_pace(),
            None => true,
        }
    }

    /// Notes that the current frame has been written to the link at
    /// `now_nanos`, nanoseconds from the start of the session, and says how
    /// long to sleep before the next step, if at all.
    pub fn on_sent(&mut self, now_nanos: u128) -> (pause: Option<u128>)
        requires
            old(self).has_room(),
        ensures
            final(self).repeater() == old(self).repeater().sent(),
            final(self).pacer() == match old(self).pacer() {
                Some(p) => Some(p.moved_on()),
                None => None,
            },
            pause_after(old(self).pacer(), now_nanos) == match pause {
                Some(nanos) => Some(nanos as int),
                None => None,
            },
    {
        self.repeater.record_send();
        match self.pacer {
            Some(limiter) => {
                let mut limiter = limiter;
                let pause = limiter.pace(now_nanos);
                self.pacer = Some(limiter);
                pause
            },
            None => None,
        }
    }
}

/// The sends of a whole session in their order, each given by the place in
/// the queue of the frame that is sent. `fetched` frames have come off the
/// queue so far, the last of them being the current one, and `frames_left`
/// more will come before the queue is closed.
pub open spec fn wire(state: Repeater, fetched: nat, frames_left: nat) -> Seq<int>
    decreases frames_left, state.pending, (if state.closed { 0nat } else { 1nat }),
{
    match state.step() {
        TxStep::Send => seq![fetched - 1].add(wire(state.sent(), fetched, frames_left)),
        TxStep::Fetch => if frames_left > 0 {
            wire(state.loaded(), fetched + 1, (frames_left - 1) as nat)
        } else {
            wire(state.shut(), fetched, 0)
        },
        TxStep::Done => Seq::empty(),
    }
}

/// `count` frames in queue order from place `first` on, each `repeat` times
/// in a row.
pub open spec fn in_order(first: int, count: nat, repeat: nat) -> Seq<int>
    decreases count,
{
    if count == 0 {
        Seq::empty()
    } else {
        Seq::new(repeat, |i: int| first).add(in_order(first + 1, (count - 1) as nat, repeat))
    }
}

/// From any state with an open queue, the sender first pays what it owes to
/// the current frame and then sends every later frame `repeat` times, in
/// queue order.
pub proof fn lemma_wire_from(state: Repeater, fetched: nat, frames_left: nat)
    requires
        !state.closed,
    ensures
        wire(state, fetched, frames_left) == Seq::new(state.pending as nat, |i: int| fetched - 1).add(
            in_order(fetched as int, frames_left, state.repeat as nat),
        ),
    decreases frames_left, state.pending,
{
    let owed = Seq::new(state.pending as nat, |i: int| fetched - 1);
    let rest = in_order(fetched as int, frames_left, state.repeat as nat);
    if state.pending > 0 {
        lemma_wire_from(state.sent(), fetched, frames_left);
        let owed_less = Seq::new((state.pending - 1) as nat, |i: int| fetched - 1);
        assert(seq![fetched - 1].add(owed_less.add(rest)) =~= owed.add(rest));
    } else if frames_left > 0 {
        lemma_wire_from(state.loaded(), fetched + 1, (frames_left - 1) as nat);
        assert(owed.add(rest) =~= rest);
    } else {
        assert(state.shut().step() == TxStep::Done);
        assert(wire(state.shut(), fetched, 0) =~= Seq::<int>::empty());
        assert(owed.add(rest) =~= Seq::<int>::empty());
    }
}

/// A sender that starts fresh and is handed `frames` frames before the queue
/// closes sends each of them `repeat` times, in the order in which they came
/// off the queue, and nothing else.
pub proof fn lemma_sends_in_queue_order(repeat: u64, frames: nat)
    ensures
        wire(Repeater { repeat, pending: 0, closed: false }, 0, frames) == in_order(
            0,
            frames,
            repeat as nat,
        ),
{
    let start = Repeater { repeat, pending: 0, closed: false };
    lemma_wire_from(start, 0, frames);
    assert(Seq::new(0nat, |i: int| -1int).add(in_order(0, frames, repeat as nat)) =~= in_order(
        0,
        frames,
        repeat as nat,
    ));
}

/// Sending `count` frames `repeat` times each makes `count * repeat` sends,
/// and the send at place `k` carries frame `first + k / repeat`: no frame is
/// left out, none is sent out of turn.
pub proof fn lemma_in_order_places(first: int, count: nat, repeat: nat)
    ensures
        in_order(first, count, repeat).len() == count * repeat,
        repeat > 0 ==> forall|k: int|
            0 <= k < count * repeat ==> #[trigger] in_order(first, count, repeat)[k] == first + k
                / (repeat as int),
    decreases count,
{
    if count == 0 {
        assert(count * repeat == 0) by (nonlinear_arith)
            requires
                count == 0,
        ;
    } else {
        lemma_in_order_places(first + 1, (count - 1) as nat, repeat);
        assert(count * repeat == repeat + (count - 1) * repeat) by (nonlinear_arith);
        if repeat > 0 {
            let all = in_order(first, count, repeat);
            let tail = in_order(first + 1, (count - 1) as nat, repeat);
            assert forall|k: int| 0 <= k < count * repeat implies #[trigger] all[k] == first + k / (
            repeat as int) by {
                if k < repeat {
                    assert(k / (repeat as int) == 0) by (nonlinear_arith)
                        requires
                            0 <= k < repeat,
                    ;
                } else {
                    assert(all[k] == tail[k - repeat]);
                    assert((k - repeat) / (repeat as int) + 1 == k / (repeat as int))
                        by (nonlinear_arith)
                        requires
                            repeat > 0,
                            k >= repeat,
                    ;
                }
            }
        }
    }
}

/// The pause as a length of time: nothing where no pause is due.
pub open spec fn pause_len(period: int, reference: int, now: int) -> int {
    match pause_for(period, reference, now) {
        Some(nanos) => nanos,
        None => 0,
    }
}

/// As long as the clock has room, the reference of a limiter that started
/// with the session stands `sends` periods after the start once `sends`
/// sends have been paced.
pub proof fn lemma_reference_after_sends(period_nanos: u128, sends: nat)
    requires
        sends * period_nanos <= u128::MAX,
    ensures
        (Pacer { period_nanos, reference_nanos: 0 }).after_sends(sends).reference_nanos == sends
            * period_nanos,
        (Pacer { period_nanos, reference_nanos: 0 }).after_sends(sends).period_nanos
            == period_nanos,
    decreases sends,
{
    if sends > 0 {
        assert((sends - 1) * period_nanos + period_nanos == sends * period_nanos)
            by (nonlinear_arith);
        lemma_reference_after_sends(period_nanos, (sends - 1) as nat);
    } else {
        assert(0 * period_nanos == 0) by (nonlinear_arith);
    }
}

/// Clock readings that can be those of a paced session: `times[k]` is the
/// reading handed to the limiter after send `k`, sends counted from zero,
/// when its reference stands at `k` periods, and the next reading is later
/// by at least the pause that was asked for.
pub open spec fn keeps_pauses(period: nat, times: Seq<nat>) -> bool {
    forall|k: int|
        #![trigger times[k]]
        0 <= k && k + 1 < times.len() ==> times[k + 1] >= times[k] + pause_len(
            period as int,
            k * period,
            times[k] as int,
        )
}

/// In a paced session send `k`, counted from zero, is finished no earlier
/// than `k` periods after the start: `n` sends take at least `n - 1` periods.
pub proof fn lemma_paced_sends_keep_distance(period: nat, times: Seq<nat>, k: int)
    requires
        keeps_pauses(period, times),
        0 <= k < times.len(),
    ensures
        times[k] >= k * period,
    decreases k,
{
    if k == 0 {
        assert(0 * period == 0) by (nonlinear_arith);
    } else {
        lemma_paced_sends_keep_distance(period, times, k - 1);
        let before = times[k - 1];
        assert(times[k] >= before + pause_len(period as int, (k - 1) * period, before as int));
        assert(k * period == (k - 1) * period + period) by (nonlinear_arith);
    }
}

} // verus!
