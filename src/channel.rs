//! The hand-off between producer and sink worker: a single-producer /
//! single-consumer lock-free channel of work units, and the producer handle
//! that owns its sending end.
//!
//! The channel is unbounded: each send allocates one node, so it never
//! fills and a send never waits for the worker. Under a producer rate that
//! the sink cannot keep up with, the queue grows without bound; there is no
//! queue-full error. A send fails only once the worker has gone.

use vstd::prelude::*;
use lockfree::channel::spsc::{Receiver, Sender};
use crate::event::LogMsg;
use crate::work::{Payload, RawFunc, record_line};
use crate::worker::{Phase, SinkWorker, WorkerView};

verus! {

#[verifier::external_type_specification]
#[verifier::external_body]
#[verifier::reject_recursive_types(T)]
pub struct ExSender<T>(lockfree::channel::spsc::Sender<T>);

#[verifier::external_type_specification]
#[verifier::external_body]
#[verifier::reject_recursive_types(T)]
pub struct ExReceiver<T>(lockfree::channel::spsc::Receiver<T>);

/// What one receive attempt found.
#[derive(Debug)]
pub enum Received {
    /// The unit at the head of the queue, now removed from it.
    Unit(RawFunc),
    /// Nothing queued; the producer is still connected.
    Empty,
    /// Nothing queued, and the producer has disconnected.
    Closed,
}

/// Relies on `lockfree::channel::spsc::create`: a new, empty channel and its
/// two ends.
#[verifier::external_body]
fn create_channel() -> (Sender<RawFunc>, Receiver<RawFunc>) {
    lockfree::channel::spsc::create::<RawFunc>()
}

/// Relies on `lockfree::channel::spsc::Sender::send`: the unit is queued, or,
/// when the receiver has disconnected, handed back unchanged in `NoRecv`.
#[verifier::external_body]
fn send_unit(sender: &mut Sender<RawFunc>, unit: RawFunc) -> (r: Option<RawFunc>)
    ensures
        r matches Some(back) ==> back == unit,
{
    match sender.send(unit) {
        Ok(()) => None,
        Err(e) => Some(e.message),
    }
}

/// Relies on `lockfree::channel::spsc::Receiver::recv`: takes the head of the
/// queue if there is one; otherwise `NoMessage` while the sender is
/// connected and `NoSender` once it has disconnected.
#[verifier::external_body]
pub(crate) fn recv_unit(receiver: &mut Receiver<RawFunc>) -> Received {
    match receiver.recv() {
        Ok(unit) => Received::Unit(unit),
        Err(lockfree::channel::spsc::RecvErr::NoMessage) => Received::Empty,
        Err(lockfree::channel::spsc::RecvErr::NoSender) => Received::Closed,
    }
}

/// The sink worker has gone: the unit that could not be sent comes back.
#[derive(Debug)]
pub struct ChannelClosed {
    pub unit: RawFunc,
}

/// The producer handle. It is the only sending end of its channel; dropping
/// it closes the channel, and the worker drains what is queued and stops.
pub struct Logger {
    sender: Sender<RawFunc>,
    submitted: Ghost<Seq<Seq<char>>>,
}

impl Logger {
    /// The records of the units that the channel accepted, in the order of
    /// the calls.
    pub closed spec fn submitted(&self) -> Seq<Seq<char>> {
        self.submitted@
    }

    /// Creates a channel: the producer handle and the worker that drains it.
    /// The worker does nothing until it is started and polled, which is for
    /// the thread that owns it to do.
    pub fn new() -> (r: (Logger, SinkWorker))
        ensures
            r.0.submitted() == Seq::<Seq<char>>::empty(),
            r.1@ == (WorkerView { phase: Phase::Starting, emitted: Seq::empty() }),
            r.1.write_errors_spec() == 0,
    {
        let (sender, receiver) = create_channel();
        let logger = Logger { sender, submitted: Ghost(Seq::empty()) };
        (logger, SinkWorker::new(receiver))
    }

    /// Captures any of the library's events and sends it to the worker;
    /// nothing is rendered here. When the worker has gone the unit comes back
    /// in the error.
    pub fn log_payload(&mut self, payload: Payload) -> (r: Result<(), ChannelClosed>)
        ensures
            match r {
                Ok(()) => final(self).submitted() == old(self).submitted().push(
                    record_line(payload.rendered()),
                ),
                Err(closed) => {
                    &&& closed.unit@ == record_line(payload.rendered())
                    &&& final(self).submitted() == old(self).submitted()
                },
            },
    {
        let ghost line = record_line(payload.rendered());
        let unit = RawFunc::new(payload);
        match send_unit(&mut self.sender, unit) {
            None => {
                self.submitted = Ghost(self.submitted@.push(line));
                Ok(())
            },
            Some(back) => Err(ChannelClosed { unit: back }),
        }
    }

    /// Captures an event and sends it to the worker; see `log_payload`.
    pub fn log(&mut self, event: LogMsg<'static>) -> (r: Result<(), ChannelClosed>)
        ensures
            match r {
                Ok(()) => final(self).submitted() == old(self).submitted().push(
                    record_line(event.spec_format()),
                ),
                Err(closed) => {
                    &&& closed.unit@ == record_line(event.spec_format())
                    &&& final(self).submitted() == old(self).submitted()
                },
            },
    {
        self.log_payload(Payload::Msg(event))
    }
}

} // verus!
