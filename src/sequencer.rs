use vstd::prelude::*;
use crate::options::{clamp_delay, effective_delay, SharderOptions, MINIMUM_DELAY};
use crate::strategy::BootRange;

verus! {

/// Where a boot run stands.
#[derive(Clone, Copy, Debug, PartialEq, Eq, Structural)]
pub enum Phase {
    /// The connection of this shard id has been requested.
    Booting(u64),
    /// The connection of this shard id was created and is being handed to the
    /// output stream.
    Sending(u64),
    /// The shard of this id was handed out; the pacing delay is running.
    Pacing(u64),
    /// Every shard of the range was handed out; the stream is closed.
    Done,
    /// A step failed; the stream is closed and nothing more is attempted.
    Aborted,
}

/// What the runner of a boot run reports back after performing an action.
#[derive(Clone, Copy, Debug, PartialEq, Eq, Structural)]
pub enum Event {
    /// The requested connection was created.
    Created,
    /// Creating the requested connection failed.
    CreateFailed,
    /// The created connection was handed to the output stream.
    Sent,
    /// The output stream is gone: nobody reads it any more.
    SendFailed,
    /// The pacing delay has elapsed.
    DelayElapsed,
    /// The pacing timer failed.
    DelayFailed,
}

/// What the runner of a boot run is asked to do next.
#[derive(Clone, Copy, Debug, PartialEq, Eq, Structural)]
pub enum Action {
    /// Create the connection of shard `id` out of `total` shards.
    Create { id: u64, total: u64 },
    /// Hand the connection just created for shard `id` to the output stream.
    Send { id: u64 },
    /// Wait this many seconds before going on.
    Wait { seconds: u64 },
    /// Close the output stream: the run is over.
    Close,
    /// Nothing: the event does not apply to the current phase.
    Idle,
}

/// The ids `from` up to, and not including, `to`, in increasing order.
pub open spec fn ids(from: int, to: int) -> Seq<u64> {
    if from < to {
        Seq::new((to - from) as nat, |i: int| (from + i) as u64)
    } else {
        Seq::empty()
    }
}

/// The state of one boot run: the shard range, the pacing delay, the current
/// phase, and, as ghost state, the shard ids whose connection was requested and
/// those whose connection was handed to the output stream.
pub struct Sequencer {
    pub phase: Phase,
    pub start: u64,
    pub end: u64,
    pub total: u64,
    pub delay: u64,
    pub attempted: Ghost<Seq<u64>>,
    pub sent: Ghost<Seq<u64>>,
}

impl Sequencer {
    /// The state is consistent: the delay is at least the minimum, and the ids
    /// requested and handed out so far are exactly the leading ids of the
    /// range that the phase implies.
    pub open spec fn wf(self) -> bool {
        &&& self.delay >= MINIMUM_DELAY
        &&& match self.phase {
            Phase::Booting(id) | Phase::Sending(id) => {
                &&& self.start <= id <= self.end
                &&& self.attempted@ == ids(self.start as int, id + 1)
                &&& self.sent@ == ids(self.start as int, id as int)
            },
            Phase::Pacing(id) => {
                &&& self.start <= id <= self.end
                &&& self.attempted@ == ids(self.start as int, id + 1)
                &&& self.sent@ == ids(self.start as int, id + 1)
            },
            Phase::Done => {
                &&& self.attempted@ == ids(self.start as int, self.end + 1)
                &&& self.sent@ == ids(self.start as int, self.end + 1)
            },
            Phase::Aborted => {
                &&& self.attempted@ == ids(self.start as int, self.start + self.attempted@.len())
                &&& self.sent@ == ids(self.start as int, self.start + self.sent@.len())
                &&& self.sent@.len() <= self.attempted@.len() <= self.sent@.len() + 1
            },
        }
    }

    /// Whether the run is over, by completion or by failure.
    pub open spec fn is_finished(self) -> bool {
        self.phase is Done || self.phase is Aborted
    }

    /// The first state of a run over `range` paced by `requested` seconds
    /// (raised to the minimum), and its first action: the first shard is
    /// requested, or, for a range whose start lies past its end, the stream is
    /// closed at once.
    pub open spec fn initial(range: BootRange, requested: u64) -> (Sequencer, Action) {
        if range.start <= range.end {
            (
                Sequencer {
                    phase: Phase::Booting(range.start),
                    start: range.start,
                    end: range.end,
                    total: range.total,
                    delay: clamp_delay(requested),
                    attempted: Ghost(seq![range.start]),
                    sent: Ghost(Seq::empty()),
                },
                Action::Create { id: range.start, total: range.total },
            )
        } else {
            (
                Sequencer {
                    phase: Phase::Done,
                    start: range.start,
                    end: range.end,
                    total: range.total,
                    delay: clamp_delay(requested),
                    attempted: Ghost(Seq::empty()),
                    sent: Ghost(Seq::empty()),
                },
                Action::Close,
            )
        }
    }

    /// The transition of the run on one event: the next state and the action
    /// asked of the runner.
    pub open spec fn step(self, event: Event) -> (Sequencer, Action) {
        match (self.phase, event) {
            (Phase::Booting(id), Event::Created) => (
                Sequencer { phase: Phase::Sending(id), ..self },
                Action::Send { id },
            ),
            (Phase::Sending(id), Event::Sent) => (
                Sequencer { phase: Phase::Pacing(id), sent: Ghost(self.sent@.push(id)), ..self },
                Action::Wait { seconds: self.delay },
            ),
            (Phase::Pacing(id), Event::DelayElapsed) => if id == self.end {
                (Sequencer { phase: Phase::Done, ..self }, Action::Close)
            } else {
                (
                    Sequencer {
                        phase: Phase::Booting((id + 1) as u64),
                        attempted: Ghost(self.attempted@.push((id + 1) as u64)),
                        ..self
                    },
                    Action::Create { id: (id + 1) as u64, total: self.total },
                )
            },
            (Phase::Booting(_), Event::CreateFailed)
            | (Phase::Sending(_), Event::SendFailed)
            | (Phase::Pacing(_), Event::DelayFailed) => (
                Sequencer { phase: Phase::Aborted, ..self },
                Action::Close,
            ),
            _ => (self, Action::Idle),
        }
    }

    /// Starts a run over `range`, pacing shard starts by `requested` seconds,
    /// raised to five where it is below.
    pub fn start(range: BootRange, requested: u64) -> (r: (Sequencer, Action))
        ensures
            r.0.wf(),
            r == Sequencer::initial(range, requested),
    {
        let delay = effective_delay(requested);
        proof {
            assert(ids(range.start as int, range.start + 1) =~= seq![range.start]);
        }
        if range.start <= range.end {
            (
                Sequencer {
                    phase: Phase::Booting(range.start),
                    start: range.start,
                    end: range.end,
                    total: range.total,
                    delay,
                    attempted: Ghost(Seq::empty().push(range.start)),
                    sent: Ghost(Seq::empty()),
                },
                Action::Create { id: range.start, total: range.total },
            )
        } else {
            (
                Sequencer {
                    phase: Phase::Done,
                    start: range.start,
                    end: range.end,
                    total: range.total,
                    delay,
                    attempted: Ghost(Seq::empty()),
                    sent: Ghost(Seq::empty()),
                },
                Action::Close,
            )
        }
    }

    /// Starts the run that these options ask for: the range their strategy
    /// resolves to, paced by their delay raised to the minimum.
    pub fn from_options(options: &SharderOptions) -> (r: (Sequencer, Action))
        requires
            options.strategy.is_documented(),
        ensures
            r.0.wf(),
            r == Sequencer::initial(options.strategy.spec_boot_range(), options.delay),
    {
        Sequencer::start(options.strategy.boot_range(), options.delay)
    }

    /// Advances the run by one event reported by its runner, and returns the
    /// action to perform next.
    pub fn on_event(&mut self, event: Event) -> (action: Action)
        requires
            old(self).wf(),
        ensures
            final(self).wf(),
            (*final(self), action) == old(self).step(event),
    {
        match (self.phase, event) {
            (Phase::Booting(id), Event::Created) => {
                self.phase = Phase::Sending(id);
                Action::Send { id }
            },
            (Phase::Sending(id), Event::Sent) => {
                self.phase = Phase::Pacing(id);
                self.sent = Ghost(self.sent@.push(id));
                proof {
                    assert(self.sent@ =~= ids(self.start as int, id + 1));
                }
                Action::Wait { seconds: self.delay }
            },
            (Phase::Pacing(id), Event::DelayElapsed) => {
                if id == self.end {
                    self.phase = Phase::Done;
                    Action::Close
                } else {
                    let next = id + 1;
                    self.phase = Phase::Booting(next);
                    self.attempted = Ghost(self.attempted@.push(next));
                    proof {
                        assert(self.attempted@ =~= ids(self.start as int, next + 1));
                    }
                    Action::Create { id: next, total: self.total }
                }
            },
            (Phase::Booting(_), Event::CreateFailed)
            | (Phase::Sending(_), Event::SendFailed)
            | (Phase::Pacing(_), Event::DelayFailed) => {
                self.phase = Phase::Aborted;
                Action::Close
            },
            _ => Action::Idle,
        }
    }
}

} // verus!

verus! {

impl Sequencer {
    /// The state reached after feeding these events one by one.
    pub open spec fn after(self, events: Seq<Event>) -> Sequencer
        decreases events.len(),
    {
        if events.len() == 0 {
            self
        } else {
            self.step(events[0]).0.after(events.subrange(1, events.len() as int))
        }
    }

    /// The actions asked for while feeding these events one by one.
    pub open spec fn actions(self, events: Seq<Event>) -> Seq<Action>
        decreases events.len(),
    {
        if events.len() == 0 {
            Seq::empty()
        } else {
            seq![self.step(events[0]).1] + self.step(events[0]).0.actions(
                events.subrange(1, events.len() as int),
            )
        }
    }
}

/// The events of `n` shards that each boot, are handed out and are paced
/// without failure.
pub open spec fn successful_events(n: nat) -> Seq<Event>
    decreases n,
{
    if n == 0 {
        Seq::empty()
    } else {
        seq![Event::Created, Event::Sent, Event::DelayElapsed] + successful_events((n - 1) as nat)
    }
}

proof fn lemma_after_concat(s: Sequencer, a: Seq<Event>, b: Seq<Event>)
    ensures
        s.after(a + b) == s.after(a).after(b),
    decreases a.len(),
{
    if a.len() == 0 {
        assert(a + b =~= b);
    } else {
        assert((a + b)[0] == a[0]);
        assert((a + b).subrange(1, (a + b).len() as int) =~= a.subrange(1, a.len() as int) + b);
        lemma_after_concat(s.step(a[0]).0, a.subrange(1, a.len() as int), b);
    }
}

proof fn lemma_successful_from(s: Sequencer, id: u64)
    requires
        s.wf(),
        s.phase == Phase::Booting(id),
    ensures
        s.after(successful_events((s.end - id + 1) as nat)).phase == Phase::Done,
        s.after(successful_events((s.end - id + 1) as nat)).sent@ == ids(s.start as int, s.end + 1),
    decreases s.end - id,
{
    let round = seq![Event::Created, Event::Sent, Event::DelayElapsed];
    let n = (s.end - id + 1) as nat;
    let rest = successful_events((n - 1) as nat);
    assert(successful_events(n) == round + rest);
    lemma_after_concat(s, round, rest);
    let s1 = s.step(Event::Created).0;
    let s2 = s1.step(Event::Sent).0;
    let s3 = s2.step(Event::DelayElapsed).0;
    let two = seq![Event::Sent, Event::DelayElapsed];
    let one = seq![Event::DelayElapsed];
    assert(round.subrange(1, 3) =~= two);
    assert(two.subrange(1, 2) =~= one);
    assert(one.subrange(1, 1) =~= Seq::<Event>::empty());
    assert(s3.after(Seq::<Event>::empty()) == s3);
    assert(s2.after(one) == s3);
    assert(s1.after(two) == s3);
    assert(s.after(round) == s3);
    assert(s2.sent@ =~= ids(s.start as int, id + 1));
    if id == s.end {
        assert(rest =~= Seq::<Event>::empty());
    } else {
        assert(s3.attempted@ =~= ids(s.start as int, id + 2));
        lemma_successful_from(s3, (id + 1) as u64);
    }
}

/// A run over a range whose start is not past its end, in which every
/// connection is created, handed out and paced without failure, ends with
/// every id of the range handed to the output stream exactly once, in
/// increasing order, and the run done.
pub proof fn lemma_successful_run_hands_out_every_shard(range: BootRange, requested: u64)
    requires
        range.start <= range.end,
    ensures
        ({
            let s = Sequencer::initial(range, requested).0;
            let f = s.after(successful_events((range.end - range.start + 1) as nat));
            &&& f.phase == Phase::Done
            &&& f.sent@ == ids(range.start as int, range.end + 1)
            &&& f.sent@.len() == range.end - range.start + 1
            &&& forall|i: int, j: int| 0 <= i < j < f.sent@.len() ==> f.sent@[i] < f.sent@[j]
        }),
{
    let s = Sequencer::initial(range, requested).0;
    assert(ids(range.start as int, range.start + 1) =~= seq![range.start]);
    lemma_successful_from(s, range.start);
}

/// A finished run stays finished: whatever events follow, its state no longer
/// changes and no further action, neither a connection request nor a hand-out,
/// is asked for.
pub proof fn lemma_finished_run_is_permanent(s: Sequencer, events: Seq<Event>)
    requires
        s.is_finished(),
    ensures
        s.after(events) == s,
        s.actions(events).len() == events.len(),
        forall|i: int| 0 <= i < events.len() ==> s.actions(events)[i] == Action::Idle,
    decreases events.len(),
{
    if events.len() > 0 {
        lemma_finished_run_is_permanent(s, events.subrange(1, events.len() as int));
        assert forall|i: int| 0 <= i < events.len() implies s.actions(events)[i] == Action::Idle by {
            if i > 0 {
                assert(s.actions(events)[i] == s.actions(events.subrange(1, events.len() as int))[i
                    - 1]);
            }
        }
    }
}

/// When the connection of a shard cannot be created, the run closes the
/// stream at once: exactly the shards before it have been handed out, no
/// later id has been requested, and the run is finished.
pub proof fn lemma_failed_creation_ends_run(s: Sequencer, id: u64)
    requires
        s.wf(),
        s.phase == Phase::Booting(id),
    ensures
        s.step(Event::CreateFailed).1 == Action::Close,
        s.step(Event::CreateFailed).0.is_finished(),
        s.step(Event::CreateFailed).0.sent@ == ids(s.start as int, id as int),
        s.step(Event::CreateFailed).0.attempted@ == ids(s.start as int, id + 1),
{
}

/// A connection other than the first one of a run is only requested once the
/// pacing delay, of at least five seconds, has elapsed after the hand-out of
/// the previous shard.
pub proof fn lemma_requests_follow_pacing(s: Sequencer, event: Event)
    requires
        s.wf(),
        s.step(event).1 is Create,
    ensures
        s.phase is Pacing,
        event == Event::DelayElapsed,
        s.delay >= MINIMUM_DELAY,
        s.sent@.last() == s.phase->Pacing_0,
        s.step(event).1->Create_id == s.phase->Pacing_0 + 1,
{
}

} // verus!
