//! Deferred work units: an event captured on the hot path, rendered later by
//! the sink worker.

use vstd::prelude::*;
use crate::event::{Formattable, LogMsg};
use crate::owned::{ExampleOB, OwnedLogMsg};

verus! {

/// One record as the sink receives it: the rendered text and a newline.
pub open spec fn record_line(text: Seq<char>) -> Seq<char> {
    text + "\n"@
}

/// An event of any of the library's formattable types, captured by value.
/// The channel carries this one type whatever was logged.
#[derive(Debug)]
pub enum Payload {
    Msg(LogMsg<'static>),
    Owned(OwnedLogMsg),
    OrderBook(ExampleOB),
}

impl Payload {
    /// The text of the captured event, as its formatting capability gives it.
    pub open spec fn rendered(&self) -> Seq<char> {
        match *self {
            Payload::Msg(m) => m.rendered(),
            Payload::Owned(m) => m.rendered(),
            Payload::OrderBook(o) => o.rendered(),
        }
    }

    /// Renders the captured event.
    pub fn render(&self) -> (r: String)
        ensures
            r@ == self.rendered(),
    {
        match self {
            Payload::Msg(m) => m.formatting(),
            Payload::Owned(m) => m.formatting(),
            Payload::OrderBook(o) => o.formatting(),
        }
    }
}

/// A one-shot unit of work: it owns a captured event and, when invoked,
/// renders it into the record that goes to the sink. It can be moved to
/// another thread but not copied.
#[derive(Debug)]
pub struct RawFunc {
    payload: Payload,
}

impl View for RawFunc {
    /// The record that invoking the unit produces.
    type V = Seq<char>;

    closed spec fn view(&self) -> Seq<char> {
        record_line(self.payload.rendered())
    }
}

impl RawFunc {
    /// Captures an event; nothing is rendered yet.
    pub fn new(payload: Payload) -> (r: RawFunc)
        ensures
            r@ == record_line(payload.rendered()),
    {
        RawFunc { payload }
    }

    /// Consumes the unit and renders its record.
    pub fn invoke(self) -> (r: String)
        ensures
            r@ == self@,
    {
        let mut out = self.payload.render();
        proof {
            reveal_strlit("\n");
        }
        out.append("\n");
        out
    }
}

} // verus!
