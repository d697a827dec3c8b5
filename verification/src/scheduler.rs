//! The burst scheduler as a state machine: from state and event to next
//! state and action. The embedding program waits, sends and measures, and
//! reports each outcome as the next event. The scheduler starts to run only
//! when it is shown a complete barrier over the configured peers.

use crate::barrier::{
    accepted_once, all_reached, lemma_barrier_complete_iff_all_accepted, replay, Barrier,
};
use crate::buffer::{buffer_freeze, encode_frame, frozen_bytes};
use crate::config::{
    is_overrun, size_accepted, ConfigError, ListenerPlan, Mode, RunConfig, BURST_WINDOW_MS,
};
use crate::generator::{sample_tag, GeneratorState, GeneratorView};
use crate::wire::{
    frame_bytes, lemma_frame_layout, lemma_payload_layout, FRAME_PREFIX_LEN, MAX_FRAME_PAYLOAD,
    SAMPLE_TAG_SPAN,
};
use bytes::Bytes;
use vstd::prelude::*;

verus! {

/// Where the scheduler stands.
#[derive(Clone, Copy, Debug, PartialEq, Eq, Structural)]
pub enum Phase {
    /// The reachability barrier has not completed yet.
    AwaitingBarrier,
    /// Running, between two bursts: the next tick is awaited.
    AwaitingTick,
    /// Running, inside a burst: a frame is on its way.
    Sending,
    /// Running, at the end of a burst: its duration is awaited.
    Measuring,
    /// A send failed, or a payload did not fit a frame: the run is over.
    Stopped,
}

/// What the embedding program reports.
#[derive(Clone, Copy, Debug, PartialEq, Eq, Structural)]
pub enum Event {
    /// The interval timer fired.
    Tick,
    /// The frame handed out last was written.
    Sent,
    /// The frame handed out last could not be written.
    SendFailed,
    /// The burst just completed took this many milliseconds.
    Elapsed { ms: u128 },
}

/// What identifies a sample payload to the measurement tooling.
#[derive(Clone, Copy, Debug, PartialEq, Eq, Structural)]
pub struct SampleRecord {
    /// The tag in the payload.
    pub tag: u32,
    /// The burst counter that the tag was derived from.
    pub count: u32,
    /// The run's identifier, the payload's discriminator.
    pub client: u32,
}

impl SampleRecord {
    /// The burst counter in the upper half and the run's identifier in the
    /// lower half of one 64-bit number.
    pub open spec fn spec_id(self) -> u64 {
        (self.count * 0x1_0000_0000 + self.client) as u64
    }

    /// The sample's 64-bit identifier.
    pub fn id(&self) -> (id: u64)
        ensures
            id == self.spec_id(),
    {
        let count: u64 = self.count as u64;
        let client: u64 = self.client as u64;
        count * 0x1_0000_0000 + client
    }
}

/// What the embedding program is to do next.
#[derive(Debug, PartialEq, Eq)]
pub enum Action {
    /// Start the inbound listener as planned and announce the start of the
    /// run, then wait for the first tick.
    Start { listener: ListenerPlan },
    /// Write this frame to the target; for a sample, record it first.
    Send { frame: Bytes, sample: Option<SampleRecord> },
    /// Report how long the burst took.
    Measure,
    /// Warn if the burst overran its window, then wait for the next tick.
    AwaitTick { overrun: bool },
    /// Warn that sending failed and end the run.
    Stop,
    /// The event does not belong to the current phase, or the barrier is not
    /// complete: nothing changed.
    Rejected,
}

/// An action, with the frame as the bytes it holds.
pub enum ActionView {
    Start { listener: ListenerPlan },
    Send { frame: Seq<u8>, sample: Option<SampleRecord> },
    Measure,
    AwaitTick { overrun: bool },
    Stop,
    Rejected,
}

impl View for Action {
    type V = ActionView;

    open spec fn view(&self) -> ActionView {
        match *self {
            Action::Start { listener } => ActionView::Start { listener },
            Action::Send { frame, sample } => ActionView::Send {
                frame: frozen_bytes(frame),
                sample,
            },
            Action::Measure => ActionView::Measure,
            Action::AwaitTick { overrun } => ActionView::AwaitTick { overrun },
            Action::Stop => ActionView::Stop,
            Action::Rejected => ActionView::Rejected,
        }
    }
}

/// The record that goes with the next payload: one for a sample, none for
/// filler.
pub open spec fn sample_of(g: GeneratorView) -> Option<SampleRecord> {
    match g.mode {
        Mode::Sample => Some(
            SampleRecord { tag: sample_tag(g.burst), count: g.burst, client: g.run_id },
        ),
        Mode::Filler => None,
    }
}

/// The scheduler as a plain value.
pub struct SchedulerView {
    /// Where the scheduler stands.
    pub phase: Phase,
    /// Payloads per burst.
    pub rate: u64,
    /// Payloads of the current burst that were written.
    pub sent: u64,
    /// The payload generator.
    pub generator: GeneratorView,
    /// The inbound listener that the run asks for.
    pub listener: ListenerPlan,
    /// Number of peers that must be reachable before the first burst.
    pub peers: usize,
}

impl SchedulerView {
    /// Inside a burst fewer than `rate` payloads were written; at its end
    /// exactly `rate` were.
    pub open spec fn wf(self) -> bool {
        &&& self.generator.valid()
        &&& self.phase == Phase::Sending ==> self.sent < self.rate
        &&& self.phase == Phase::Measuring ==> self.sent == self.rate
    }

    /// Hands out the next frame. A payload too long for one frame cannot be
    /// sent: that is a failed send, and the run stops.
    pub open spec fn emit(self) -> (SchedulerView, ActionView) {
        if self.generator.size <= MAX_FRAME_PAYLOAD {
            (
                SchedulerView {
                    phase: Phase::Sending,
                    generator: self.generator.after_payload(),
                    ..self
                },
                ActionView::Send {
                    frame: frame_bytes(self.generator.next_payload()),
                    sample: sample_of(self.generator),
                },
            )
        } else {
            (
                SchedulerView {
                    phase: Phase::Stopped,
                    generator: self.generator.after_payload(),
                    ..self
                },
                ActionView::Stop,
            )
        }
    }

    /// The next state and the action when the scheduler is shown a barrier
    /// with the given flags: it starts to run exactly when it was awaiting
    /// the barrier, the barrier is over the configured number of peers, and
    /// every one of them was reached.
    pub open spec fn release(self, reached: Seq<bool>) -> (SchedulerView, ActionView) {
        if self.phase == Phase::AwaitingBarrier && reached.len() == self.peers && all_reached(
            reached,
        ) {
            (
                SchedulerView { phase: Phase::AwaitingTick, ..self },
                ActionView::Start { listener: self.listener },
            )
        } else {
            (self, ActionView::Rejected)
        }
    }

    /// The next state and the action for one event. Before the barrier was
    /// passed no event is accepted.
    pub open spec fn react(self, event: Event) -> (SchedulerView, ActionView) {
        match (self.phase, event) {
            (Phase::AwaitingTick, Event::Tick) => if self.rate == 0 {
                (SchedulerView { phase: Phase::Measuring, sent: 0, ..self }, ActionView::Measure)
            } else {
                (SchedulerView { sent: 0, ..self }).emit()
            },
            (Phase::Sending, Event::Sent) => if self.sent + 1 >= self.rate {
                (
                    SchedulerView { phase: Phase::Measuring, sent: self.rate, ..self },
                    ActionView::Measure,
                )
            } else {
                (SchedulerView { sent: (self.sent + 1) as u64, ..self }).emit()
            },
            (Phase::Sending, Event::SendFailed) => (
                SchedulerView { phase: Phase::Stopped, ..self },
                ActionView::Stop,
            ),
            (Phase::Measuring, Event::Elapsed { ms }) => (
                SchedulerView {
                    phase: Phase::AwaitingTick,
                    generator: self.generator.after_burst(),
                    ..self
                },
                ActionView::AwaitTick { overrun: ms > BURST_WINDOW_MS },
            ),
            _ => (self, ActionView::Rejected),
        }
    }
}

impl SchedulerView {
    /// The state after a sequence of events, taken in order.
    pub open spec fn run(self, events: Seq<Event>) -> SchedulerView
        decreases events.len(),
    {
        if events.len() == 0 {
            self
        } else {
            self.run(events.drop_last()).react(events.last()).0
        }
    }

    /// The action that answers the last of a sequence of events.
    pub open spec fn last_action(self, events: Seq<Event>) -> ActionView
        recommends
            events.len() > 0,
    {
        self.run(events.drop_last()).react(events.last()).1
    }

    /// Number of frames handed out in answer to a sequence of events.
    pub open spec fn sends(self, events: Seq<Event>) -> nat
        decreases events.len(),
    {
        if events.len() == 0 {
            0
        } else {
            self.sends(events.drop_last()) + if self.last_action(events) is Send {
                1nat
            } else {
                0nat
            }
        }
    }
}

/// A burst in which no send fails: one tick, then `written` reports of a
/// written frame.
pub open spec fn clean_burst(written: nat) -> Seq<Event> {
    seq![Event::Tick] + Seq::new(written, |i: int| Event::Sent)
}

/// One event keeps the scheduler well-formed, leaves the rate, the mode, the
/// payload size and the run identifier alone, and moves the generator by at
/// most one payload or one burst.
pub proof fn lemma_react_preserves(s: SchedulerView, event: Event)
    requires
        s.wf(),
    ensures
        s.react(event).0.wf(),
        s.react(event).0.rate == s.rate,
        s.react(event).0.listener == s.listener,
        s.react(event).0.peers == s.peers,
        s.react(event).0.generator == s.generator || s.react(event).0.generator
            == s.generator.after_payload() || s.react(event).0.generator
            == s.generator.after_burst(),
        s.react(event).0.generator.mode == s.generator.mode,
        s.react(event).0.generator.size == s.generator.size,
        s.react(event).0.generator.run_id == s.generator.run_id,
{
}

/// Every frame handed out is the four-byte length of a payload followed by
/// that payload, and the payload has exactly the configured size.
pub proof fn lemma_sent_frame_holds_sized_payload(s: SchedulerView, event: Event)
    requires
        s.wf(),
        s.react(event).1 is Send,
    ensures
        s.react(event).1->frame == frame_bytes(s.generator.next_payload()),
        s.generator.next_payload().len() == s.generator.size,
        s.react(event).1->frame.len() == FRAME_PREFIX_LEN + s.generator.size,
        s.react(event).1->frame.subrange(4, FRAME_PREFIX_LEN + s.generator.size)
            == s.generator.next_payload(),
{
    let g = s.generator;
    lemma_payload_layout(g.next_tag(), g.next_discriminator(), g.size as nat);
    lemma_frame_layout(g.next_payload());
}

/// Until the barrier was passed nothing is sent and nothing changes,
/// whatever is reported: the first burst comes after the barrier.
pub proof fn lemma_nothing_before_barrier(s: SchedulerView, events: Seq<Event>)
    requires
        s.phase == Phase::AwaitingBarrier,
    ensures
        s.run(events) == s,
        s.sends(events) == 0,
        events.len() > 0 ==> s.last_action(events) == ActionView::Rejected,
    decreases events.len(),
{
    if events.len() > 0 {
        lemma_nothing_before_barrier(s, events.drop_last());
    }
}

/// The scheduler starts to run only on a barrier whose every peer accepted
/// a connection at least once.
pub proof fn lemma_run_starts_after_every_peer_accepted(
    s: SchedulerView,
    results: Seq<(int, bool)>,
)
    requires
        s.release(replay(s.peers as nat, results)).1 is Start,
    ensures
        s.phase == Phase::AwaitingBarrier,
        s.release(replay(s.peers as nat, results)).0.phase == Phase::AwaitingTick,
        forall|p: int| 0 <= p < s.peers ==> accepted_once(results, p),
{
    lemma_barrier_complete_iff_all_accepted(s.peers as nat, results);
}

/// Once stopped, the scheduler stays stopped and hands out nothing more.
pub proof fn lemma_stopped_is_final(s: SchedulerView, events: Seq<Event>)
    requires
        s.phase == Phase::Stopped,
    ensures
        s.run(events) == s,
        s.sends(events) == 0,
        events.len() > 0 ==> s.last_action(events) == ActionView::Rejected,
    decreases events.len(),
{
    if events.len() > 0 {
        lemma_stopped_is_final(s, events.drop_last());
    }
}

/// A failed send stops the run at once, and no frame follows it, whatever
/// is reported afterwards.
pub proof fn lemma_failed_send_ends_run(s: SchedulerView, later: Seq<Event>)
    requires
        s.phase == Phase::Sending,
    ensures
        s.react(Event::SendFailed).1 == ActionView::Stop,
        s.react(Event::SendFailed).0.phase == Phase::Stopped,
        s.react(Event::SendFailed).0.run(later).phase == Phase::Stopped,
        s.react(Event::SendFailed).0.sends(later) == 0,
{
    lemma_stopped_is_final(s.react(Event::SendFailed).0, later);
}

/// Where a clean burst stands after its tick and `written` written frames.
proof fn lemma_clean_burst_progress(s: SchedulerView, written: nat)
    requires
        s.wf(),
        s.phase == Phase::AwaitingTick,
    ensures
        ({
            let events = clean_burst(written);
            let end = s.run(events);
            let fits = s.generator.size <= MAX_FRAME_PAYLOAD;
            &&& end.wf()
            &&& end.rate == s.rate
            &&& end.generator.size == s.generator.size
            &&& s.rate > 0 && !fits ==> end.phase == Phase::Stopped && s.sends(events) == 0
                && !(s.last_action(events) is Measure)
            &&& (s.rate == 0 || fits) && written < s.rate ==> end.phase == Phase::Sending
                && end.sent == written && s.sends(events) == written + 1 && !(s.last_action(
                events,
            ) is Measure)
            &&& (s.rate == 0 || fits) && written >= s.rate ==> end.phase == Phase::Measuring
                && s.sends(events) == s.rate && (s.last_action(events) is Measure <==> written
                == s.rate)
        }),
    decreases written,
{
    let events = clean_burst(written);
    if written == 0 {
        assert(events.drop_last() =~= Seq::<Event>::empty());
        assert(events.last() == Event::Tick);
        assert(s.run(events.drop_last()) == s);
        assert(s.sends(events.drop_last()) == 0);
    } else {
        let before = clean_burst((written - 1) as nat);
        lemma_clean_burst_progress(s, (written - 1) as nat);
        assert(events.drop_last() =~= before);
        assert(events.last() == Event::Sent);
    }
}

/// A burst that runs to its end without a failed send hands out exactly
/// `rate` frames, and it ends exactly when the `rate`-th frame was written.
pub proof fn lemma_completed_burst_sends_rate(s: SchedulerView, written: nat)
    requires
        s.wf(),
        s.phase == Phase::AwaitingTick,
        s.last_action(clean_burst(written)) is Measure,
    ensures
        s.sends(clean_burst(written)) == s.rate,
        written == s.rate,
        s.run(clean_burst(written)).sent == s.rate,
{
    lemma_clean_burst_progress(s, written);
}

/// A burst of a rate of zero ends on its tick with nothing sent, and the
/// scheduler goes on to the next tick.
pub proof fn lemma_empty_burst(s: SchedulerView, ms: u128)
    requires
        s.wf(),
        s.phase == Phase::AwaitingTick,
        s.rate == 0,
    ensures
        s.react(Event::Tick).1 == ActionView::Measure,
        s.react(Event::Tick).0.react(Event::Elapsed { ms }).0.phase == Phase::AwaitingTick,
        s.react(Event::Tick).0.react(Event::Elapsed { ms }).1 == (ActionView::AwaitTick {
            overrun: ms > BURST_WINDOW_MS,
        }),
{
}

/// The burst scheduler.
pub struct Scheduler {
    phase: Phase,
    rate: u64,
    sent: u64,
    generator: GeneratorState,
    listener: ListenerPlan,
    peers: usize,
}

impl View for Scheduler {
    type V = SchedulerView;

    closed spec fn view(&self) -> SchedulerView {
        SchedulerView {
            phase: self.phase,
            rate: self.rate,
            sent: self.sent,
            generator: self.generator@,
            listener: self.listener,
            peers: self.peers,
        }
    }
}

impl Scheduler {
    /// The generator's scratch buffer is clear.
    pub closed spec fn generator_ready(&self) -> bool {
        self.generator.wf()
    }

    /// Well-formedness of the scheduler.
    pub open spec fn wf(&self) -> bool {
        self@.wf() && self.generator_ready()
    }

    /// A scheduler that awaits the barrier, with the given run identifier and
    /// starting nonce. A payload size under eight bytes is refused.
    pub fn seeded(config: RunConfig, run_id: u32, nonce: u32) -> (r: Result<
        Scheduler,
        ConfigError,
    >)
        requires
            config.size <= isize::MAX,
        ensures
            r is Ok <==> size_accepted(config.size),
            r matches Ok(s) ==> s.wf() && s@ == (SchedulerView {
                phase: Phase::AwaitingBarrier,
                rate: config.rate,
                sent: 0,
                generator: GeneratorView {
                    mode: config.spec_mode(),
                    size: config.size,
                    burst: 0,
                    run_id,
                    nonce,
                },
                listener: config.spec_listener(),
                peers: config.peers,
            }),
            r matches Err(e) ==> e == ConfigError::PayloadTooSmall,
    {
        match GeneratorState::seeded(config.mode(), config.size, run_id, nonce) {
            Ok(generator) => Ok(
                Scheduler {
                    phase: Phase::AwaitingBarrier,
                    rate: config.rate,
                    sent: 0,
                    generator,
                    listener: config.listener(),
                    peers: config.peers,
                },
            ),
            Err(e) => Err(e),
        }
    }

    /// A scheduler that awaits the barrier, with a run identifier and a
    /// starting nonce drawn at random. A payload size under eight bytes is
    /// refused.
    pub fn new(config: RunConfig) -> (r: Result<Scheduler, ConfigError>)
        requires
            config.size <= isize::MAX,
        ensures
            r is Ok <==> size_accepted(config.size),
            r matches Ok(s) ==> {
                &&& s.wf()
                &&& s@.phase == Phase::AwaitingBarrier
                &&& s@.rate == config.rate
                &&& s@.sent == 0
                &&& s@.generator.mode == config.spec_mode()
                &&& s@.generator.size == config.size
                &&& s@.generator.burst == 0
                &&& s@.listener == config.spec_listener()
                &&& s@.peers == config.peers
            },
            r matches Err(e) ==> e == ConfigError::PayloadTooSmall,
    {
        match GeneratorState::start(config.mode(), config.size) {
            Ok(generator) => Ok(
                Scheduler {
                    phase: Phase::AwaitingBarrier,
                    rate: config.rate,
                    sent: 0,
                    generator,
                    listener: config.listener(),
                    peers: config.peers,
                },
            ),
            Err(e) => Err(e),
        }
    }

    /// Where the scheduler stands.
    pub fn phase(&self) -> (p: Phase)
        ensures
            p == self@.phase,
    {
        self.phase
    }

    /// Payloads per burst.
    pub fn rate(&self) -> (n: u64)
        ensures
            n == self@.rate,
    {
        self.rate
    }

    /// Payloads of the current burst that were written.
    pub fn sent(&self) -> (n: u64)
        ensures
            n == self@.sent,
    {
        self.sent
    }

    /// The payload generator.
    pub fn generator(&self) -> (g: &GeneratorState)
        ensures
            g@ == self@.generator,
    {
        &self.generator
    }

    fn emit(&mut self) -> (action: Action)
        requires
            old(self).wf(),
        ensures
            final(self).generator_ready(),
            final(self)@ == old(self)@.emit().0,
            action@ == old(self)@.emit().1,
    {
        let sample = match self.generator.mode() {
            Mode::Sample => Some(
                SampleRecord {
                    tag: self.generator.burst() % SAMPLE_TAG_SPAN,
                    count: self.generator.burst(),
                    client: self.generator.run_id(),
                },
            ),
            Mode::Filler => None,
        };
        let payload = self.generator.next();
        match encode_frame(payload) {
            Some(frame) => {
                self.phase = Phase::Sending;
                Action::Send { frame: buffer_freeze(frame), sample }
            },
            None => {
                self.phase = Phase::Stopped;
                Action::Stop
            },
        }
    }

    /// Shows the scheduler the barrier. If the scheduler was awaiting it, the
    /// barrier is over the configured number of peers and every peer was
    /// reached, the scheduler starts to run and hands out the listener to
    /// start; otherwise nothing changes.
    pub fn release(&mut self, barrier: &Barrier) -> (action: Action)
        requires
            old(self).wf(),
        ensures
            final(self).wf(),
            final(self)@ == old(self)@.release(barrier@).0,
            action@ == old(self)@.release(barrier@).1,
    {
        match self.phase {
            Phase::AwaitingBarrier => {
                if barrier.peers() == self.peers && barrier.is_complete() {
                    self.phase = Phase::AwaitingTick;
                    Action::Start { listener: self.listener }
                } else {
                    Action::Rejected
                }
            },
            _ => Action::Rejected,
        }
    }

    /// Takes one event and says what to do next.
    ///
    /// Before the barrier was passed every event is refused. On each tick
    /// the running scheduler hands
    /// out `rate` frames, one at a time, each after the one before was
    /// written; then it asks for the burst's duration, flags an overrun of
    /// the window, and awaits the next tick. A failed send stops the run for
    /// good. An event that does not belong to the current phase changes
    /// nothing.
    pub fn step(&mut self, event: Event) -> (action: Action)
        requires
            old(self).wf(),
        ensures
            final(self).wf(),
            final(self)@ == old(self)@.react(event).0,
            action@ == old(self)@.react(event).1,
    {
        match self.phase {
            Phase::AwaitingBarrier => Action::Rejected,
            Phase::AwaitingTick => match event {
                Event::Tick => {
                    self.sent = 0;
                    if self.rate == 0 {
                        self.phase = Phase::Measuring;
                        Action::Measure
                    } else {
                        self.emit()
                    }
                },
                _ => Action::Rejected,
            },
            Phase::Sending => match event {
                Event::Sent => {
                    if self.sent + 1 >= self.rate {
                        self.sent = self.rate;
                        self.phase = Phase::Measuring;
                        Action::Measure
                    } else {
                        self.sent = self.sent + 1;
                        self.emit()
                    }
                },
                Event::SendFailed => {
                    self.phase = Phase::Stopped;
                    Action::Stop
                },
                _ => Action::Rejected,
            },
            Phase::Measuring => match event {
                Event::Elapsed { ms } => {
                    self.generator.end_burst();
                    self.phase = Phase::AwaitingTick;
                    Action::AwaitTick { overrun: is_overrun(ms) }
                },
                _ => Action::Rejected,
            },
            Phase::Stopped => Action::Rejected,
        }
    }
}

} // verus!
