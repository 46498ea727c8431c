//! The sink worker: the consumer side of the channel. It is a state machine
//! (`Starting`, `Running`, `Draining`, `Terminated`) over what each receive
//! attempt finds; the thread that owns it writes the records it emits.

use vstd::prelude::*;
use lockfree::channel::spsc::Receiver;
use crate::channel::{Received, recv_unit};
use crate::event::LogMsg;
use crate::pinning::{PinOutcome, PinReport, pin_worker_thread};
use crate::work::{RawFunc, record_line};

verus! {

/// The lifecycle of a sink worker.
#[derive(Debug, Clone, Copy, PartialEq, Eq, Structural)]
pub enum Phase {
    Starting,
    Running,
    Draining,
    Terminated,
}

/// What a receive attempt found, as records.
pub enum Arrival {
    Unit(Seq<char>),
    Empty,
    Closed,
}

/// The state of a worker: its phase and every record it has emitted so
/// far, in order.
pub struct WorkerView {
    pub phase: Phase,
    pub emitted: Seq<Seq<char>>,
}

/// The record that an arrival makes the worker emit, if any: a unit is
/// emitted while the worker runs or drains.
pub open spec fn emits(s: WorkerView, a: Arrival) -> Option<Seq<char>> {
    match a {
        Arrival::Unit(line) => if s.phase == Phase::Running || s.phase == Phase::Draining {
            Some(line)
        } else {
            None
        },
        _ => None,
    }
}

/// One transition. A running worker that finds the channel closed drains;
/// a draining one stops at the first attempt that finds nothing.
pub open spec fn step(s: WorkerView, a: Arrival) -> WorkerView {
    let emitted = match emits(s, a) {
        Some(line) => s.emitted.push(line),
        None => s.emitted,
    };
    let phase = match s.phase {
        Phase::Running => if a is Closed {
            Phase::Draining
        } else {
            Phase::Running
        },
        Phase::Draining => if a is Unit {
            Phase::Draining
        } else {
            Phase::Terminated
        },
        p => p,
    };
    WorkerView { phase, emitted }
}

/// The state after a sequence of arrivals, in order.
pub open spec fn run(s: WorkerView, arrivals: Seq<Arrival>) -> WorkerView
    decreases arrivals.len(),
{
    if arrivals.len() == 0 {
        s
    } else {
        step(run(s, arrivals.drop_last()), arrivals.last())
    }
}

/// The records of the units among the arrivals, in order.
pub open spec fn units_of(arrivals: Seq<Arrival>) -> Seq<Seq<char>>
    decreases arrivals.len(),
{
    if arrivals.len() == 0 {
        Seq::empty()
    } else {
        let rest = units_of(arrivals.drop_last());
        match arrivals.last() {
            Arrival::Unit(line) => rest.push(line),
            _ => rest,
        }
    }
}

/// The record a worker emits when it could not pin itself to a core.
pub open spec fn pin_failure_record() -> Seq<char> {
    record_line(
        (LogMsg::Warning {
            warning_message: "sink worker runs unpinned: no CPU core could be taken",
        }).spec_format(),
    )
}

/// What the owner of the worker does next.
#[derive(Debug)]
pub enum Action {
    /// Write this record to the sink, then poll again.
    Emit(String),
    /// Nothing was queued: yield, then poll again.
    Idle,
    /// The channel is closed and drained: the worker is done.
    Stop,
}

/// Whether `r` is the action for arrival `a` in state `s`.
pub open spec fn action_matches(r: &Action, s: WorkerView, a: Arrival) -> bool {
    match *r {
        Action::Emit(t) => emits(s, a) == Some(t@),
        Action::Idle => emits(s, a) is None && step(s, a).phase != Phase::Terminated,
        Action::Stop => emits(s, a) is None && step(s, a).phase == Phase::Terminated,
    }
}

impl Received {
    /// The arrival this receive result stands for.
    pub open spec fn arrival(&self) -> Arrival {
        match *self {
            Received::Unit(u) => Arrival::Unit(u@),
            Received::Empty => Arrival::Empty,
            Received::Closed => Arrival::Closed,
        }
    }
}

/// What starting a worker did: how pinning went, and the warning record
/// to write when the thread holds no pin.
#[derive(Debug)]
pub struct Started {
    pub pin: PinReport,
    pub warning: Option<String>,
}

/// The consumer end of a channel and the state of the worker that drains it.
pub struct SinkWorker {
    receiver: Receiver<RawFunc>,
    phase: Phase,
    write_errors: u64,
    emitted: Ghost<Seq<Seq<char>>>,
}

impl View for SinkWorker {
    type V = WorkerView;

    closed spec fn view(&self) -> WorkerView {
        WorkerView { phase: self.phase, emitted: self.emitted@ }
    }
}

impl SinkWorker {
    /// The number of records that the sink failed to take (saturating).
    pub closed spec fn write_errors_spec(&self) -> u64 {
        self.write_errors
    }

    pub(crate) fn new(receiver: Receiver<RawFunc>) -> (r: SinkWorker)
        ensures
            r@ == (WorkerView { phase: Phase::Starting, emitted: Seq::empty() }),
            r.write_errors_spec() == 0,
    {
        SinkWorker { receiver, phase: Phase::Starting, write_errors: 0, emitted: Ghost(Seq::empty()) }
    }

    pub fn phase(&self) -> (r: Phase)
        ensures
            r == self@.phase,
    {
        self.phase
    }

    pub fn write_errors(&self) -> (r: u64)
        ensures
            r == self.write_errors_spec(),
    {
        self.write_errors
    }

    /// Leaves `Starting` given how pinning went: a worker left unpinned
    /// emits one warning record, which it returns for the sink.
    pub fn begin(&mut self, outcome: PinOutcome) -> (r: Option<String>)
        requires
            old(self)@.phase == Phase::Starting,
        ensures
            final(self)@.phase == Phase::Running,
            final(self).write_errors_spec() == old(self).write_errors_spec(),
            match outcome {
                PinOutcome::Pinned(_) => r is None && final(self)@.emitted == old(self)@.emitted,
                PinOutcome::Unpinned => r matches Some(w) && w@ == pin_failure_record()
                    && final(self)@.emitted == old(self)@.emitted.push(pin_failure_record()),
            },
    {
        self.phase = Phase::Running;
        match outcome {
            PinOutcome::Pinned(_) => None,
            PinOutcome::Unpinned => {
                let warning = LogMsg::Warning {
                    warning_message: "sink worker runs unpinned: no CPU core could be taken",
                };
                let mut w = warning.format();
                proof {
                    reveal_strlit("\n");
                }
                w.append("\n");
                self.emitted = Ghost(self.emitted@.push(w@));
                Some(w)
            },
        }
    }

    /// Pins the calling thread (the worker's own) to a core and starts
    /// running; see `begin`. The warning record is emitted exactly when the
    /// thread holds no pin.
    pub fn start(&mut self) -> (r: Started)
        requires
            old(self)@.phase == Phase::Starting,
        ensures
            final(self)@.phase == Phase::Running,
            final(self).write_errors_spec() == old(self).write_errors_spec(),
            r.pin.is_valid(),
            r.warning is None <==> r.pin.outcome is Pinned,
            match r.warning {
                None => final(self)@.emitted == old(self)@.emitted,
                Some(w) => w@ == pin_failure_record() && final(self)@.emitted
                    == old(self)@.emitted.push(pin_failure_record()),
            },
    {
        let pin = pin_worker_thread();
        let warning = self.begin(pin.outcome);
        Started { pin, warning }
    }

    /// Takes one step on what a receive attempt found: a unit is invoked and
    /// its record returned for the sink.
    pub fn advance(&mut self, received: Received) -> (r: Action)
        requires
            old(self)@.phase != Phase::Starting,
        ensures
            final(self)@ == step(old(self)@, received.arrival()),
            action_matches(&r, old(self)@, received.arrival()),
            final(self).write_errors_spec() == old(self).write_errors_spec(),
    {
        match received {
            Received::Unit(unit) => {
                if self.phase == Phase::Running || self.phase == Phase::Draining {
                    let line = unit.invoke();
                    self.emitted = Ghost(self.emitted@.push(line@));
                    Action::Emit(line)
                } else if self.phase == Phase::Terminated {
                    Action::Stop
                } else {
                    Action::Idle
                }
            },
            Received::Empty => {
                if self.phase == Phase::Draining || self.phase == Phase::Terminated {
                    self.phase = Phase::Terminated;
                    Action::Stop
                } else {
                    Action::Idle
                }
            },
            Received::Closed => {
                if self.phase == Phase::Running {
                    self.phase = Phase::Draining;
                    Action::Idle
                } else if self.phase == Phase::Draining || self.phase == Phase::Terminated {
                    self.phase = Phase::Terminated;
                    Action::Stop
                } else {
                    Action::Idle
                }
            },
        }
    }

    /// Makes one receive attempt on the channel and takes the step it
    /// calls for. A terminated worker receives nothing and stops again.
    pub fn poll(&mut self) -> (r: Action)
        requires
            old(self)@.phase != Phase::Starting,
        ensures
            old(self)@.phase == Phase::Terminated ==> r is Stop && final(self)@ == old(self)@,
            exists|a: Arrival|
                final(self)@ == #[trigger] step(old(self)@, a) && action_matches(&r, old(self)@, a),
            final(self).write_errors_spec() == old(self).write_errors_spec(),
    {
        if self.phase == Phase::Terminated {
            assert(step(self@, Arrival::Empty) == self@);
            return Action::Stop;
        }
        let received = recv_unit(&mut self.receiver);
        let ghost a = received.arrival();
        let r = self.advance(received);
        assert(final(self)@ == step(old(self)@, a));
        r
    }

    /// Records whether the sink took the last record emitted. A failed
    /// write is counted and changes nothing else: the worker goes on.
    pub fn record_write(&mut self, written: bool)
        ensures
            final(self)@ == old(self)@,
            final(self).write_errors_spec() == if written || old(self).write_errors_spec()
                == u64::MAX {
                old(self).write_errors_spec()
            } else {
                (old(self).write_errors_spec() + 1) as u64
            },
    {
        if !written && self.write_errors < u64::MAX {
            self.write_errors = self.write_errors + 1;
        }
    }
}

/// Running arrivals one sequence after another is running their
/// concatenation.
pub proof fn lemma_run_append(s: WorkerView, first: Seq<Arrival>, second: Seq<Arrival>)
    ensures
        run(s, first + second) == run(run(s, first), second),
    decreases second.len(),
{
    if second.len() == 0 {
        assert(first + second =~= first);
    } else {
        lemma_run_append(s, first, second.drop_last());
        assert((first + second).drop_last() =~= first + second.drop_last());
        assert((first + second).last() == second.last());
    }
}

/// In order, nothing lost, while the channel is open: a running worker that
/// receives any sequence of units and empty polls emits the records of the
/// units, in the order they arrived, after what it had emitted, and keeps
/// running.
pub proof fn lemma_fifo_while_open(s: WorkerView, arrivals: Seq<Arrival>)
    requires
        s.phase == Phase::Running,
        forall|i: int| 0 <= i < arrivals.len() ==> !(#[trigger] arrivals[i] is Closed),
    ensures
        run(s, arrivals) == (WorkerView {
            phase: Phase::Running,
            emitted: s.emitted + units_of(arrivals),
        }),
    decreases arrivals.len(),
{
    if arrivals.len() == 0 {
        assert(s.emitted + units_of(arrivals) =~= s.emitted);
    } else {
        let init = arrivals.drop_last();
        assert forall|i: int| 0 <= i < init.len() implies !(#[trigger] init[i] is Closed) by {
            assert(init[i] == arrivals[i]);
        }
        lemma_fifo_while_open(s, init);
        assert(!(arrivals[arrivals.len() - 1] is Closed));
        match arrivals.last() {
            Arrival::Unit(line) => {
                assert(s.emitted + units_of(init).push(line) =~= (s.emitted + units_of(init)).push(
                    line,
                ));
            },
            _ => {},
        }
    }
}

/// A draining worker emits every unit it still receives, in order.
proof fn lemma_drain_units(s: WorkerView, queued: Seq<Seq<char>>)
    requires
        s.phase == Phase::Draining,
    ensures
        run(s, queued.map_values(|l: Seq<char>| Arrival::Unit(l))) == (WorkerView {
            phase: Phase::Draining,
            emitted: s.emitted + queued,
        }),
    decreases queued.len(),
{
    let arrivals = queued.map_values(|l: Seq<char>| Arrival::Unit(l));
    if queued.len() == 0 {
        assert(s.emitted + queued =~= s.emitted);
    } else {
        lemma_drain_units(s, queued.drop_last());
        assert(arrivals.drop_last() =~= queued.drop_last().map_values(
            |l: Seq<char>| Arrival::Unit(l),
        ));
        assert(s.emitted + queued =~= (s.emitted + queued.drop_last()).push(queued.last()));
    }
}

/// Lossless close: a running worker that receives some units and empty
/// polls, then finds the channel closed, drains the units still queued and
/// terminates at the next attempt that finds nothing. It has then emitted
/// every unit's record exactly once, in order of arrival.
pub proof fn lemma_close_drains_then_stops(
    s: WorkerView,
    before: Seq<Arrival>,
    queued: Seq<Seq<char>>,
)
    requires
        s.phase == Phase::Running,
        forall|i: int| 0 <= i < before.len() ==> !(#[trigger] before[i] is Closed),
    ensures
        run(
            s,
            before.push(Arrival::Closed) + queued.map_values(|l: Seq<char>| Arrival::Unit(l)).push(
                Arrival::Closed,
            ),
        ) == (WorkerView {
            phase: Phase::Terminated,
            emitted: s.emitted + units_of(before) + queued,
        }),
{
    let tail = queued.map_values(|l: Seq<char>| Arrival::Unit(l));
    lemma_fifo_while_open(s, before);
    lemma_run_append(s, before, seq![Arrival::Closed]);
    assert(before + seq![Arrival::Closed] =~= before.push(Arrival::Closed));
    let s1 = run(s, before.push(Arrival::Closed));
    assert(seq![Arrival::Closed].drop_last() =~= Seq::<Arrival>::empty());
    assert(seq![Arrival::Closed].last() == Arrival::Closed);
    assert(run(run(s, before), seq![Arrival::Closed]) == step(
        run(run(s, before), Seq::<Arrival>::empty()),
        Arrival::Closed,
    ));
    assert(s1 == WorkerView { phase: Phase::Draining, emitted: s.emitted + units_of(before) });
    lemma_drain_units(s1, queued);
    lemma_run_append(s, before.push(Arrival::Closed), tail.push(Arrival::Closed));
    assert(tail.push(Arrival::Closed).drop_last() =~= tail);
}

/// The closed sentinel repeats: a terminated worker stays terminated and
/// emits nothing more, whatever it receives.
pub proof fn lemma_terminated_stays(s: WorkerView, arrivals: Seq<Arrival>)
    requires
        s.phase == Phase::Terminated,
    ensures
        run(s, arrivals) == s,
    decreases arrivals.len(),
{
    if arrivals.len() > 0 {
        lemma_terminated_stays(s, arrivals.drop_last());
    }
}

/// End to end: when the channel hands the worker the producer's units in the
/// order they were sent, none lost (as the lock-free channel does), a worker
/// that starts with nothing emitted and runs until the channel is closed and
/// drained has emitted exactly the records the producer submitted, in order.
pub proof fn lemma_emits_what_was_submitted(
    submitted: Seq<Seq<char>>,
    before: Seq<Arrival>,
    queued: Seq<Seq<char>>,
)
    requires
        forall|i: int| 0 <= i < before.len() ==> !(#[trigger] before[i] is Closed),
        units_of(before) + queued == submitted,
    ensures
        run(
            WorkerView { phase: Phase::Running, emitted: Seq::empty() },
            before.push(Arrival::Closed) + queued.map_values(|l: Seq<char>| Arrival::Unit(l)).push(
                Arrival::Closed,
            ),
        ) == (WorkerView { phase: Phase::Terminated, emitted: submitted }),
{
    let s = WorkerView { phase: Phase::Running, emitted: Seq::empty() };
    lemma_close_drains_then_stops(s, before, queued);
    assert(s.emitted + units_of(before) + queued =~= submitted);
}

} // verus!
