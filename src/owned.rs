//! Events that own their data, and example stream records that convert into
//! them.

use vstd::prelude::*;
use crate::text::{int_text, push_i64, push_i32};
use crate::event::{Formattable, join_comma, levels_text, push_levels, lemma_join_comma_push};

verus! {

/// A domain event that owns its fields.
#[derive(Debug, Clone, PartialEq)]
pub enum OwnedEventType {
    MarketOrderBookUpdate {
        symbol: String,
        bids: Vec<[i64; 2]>,
        asks: Vec<[i64; 2]>,
        event_timestamp: i64,
    },
}

/// A log event that owns its fields.
#[derive(Debug, Clone, PartialEq)]
pub enum OwnedLogMsg {
    Event(OwnedEventType),
    Warning { warning_message: String },
    Error { error_code: i32, error_message: String },
}

/// Conversion of a record into an owned log event.
pub trait ToLogMsg: Sized {
    /// Whether `m` is the event that this record converts to.
    spec fn converts_to(&self, m: &OwnedLogMsg) -> bool;

    fn to_log_msg(self) -> (r: OwnedLogMsg)
        ensures
            self.converts_to(&r),
    ;
}

impl OwnedEventType {
    /// The text of an owned domain event: the same as that of the borrowed
    /// event with the same fields.
    pub open spec fn spec_format(&self) -> Seq<char> {
        match *self {
            OwnedEventType::MarketOrderBookUpdate { symbol, bids, asks, event_timestamp } =>
                "MarketOrderBookUpdate - symbol: "@ + symbol@ + ", bids "@ + levels_text(bids@)
                    + ", asks "@ + levels_text(asks@) + ", event_timestamp "@
                    + int_text(event_timestamp as int),
        }
    }

    fn push_format(&self, out: &mut String)
        ensures
            final(out)@ == old(out)@ + self.spec_format(),
    {
        let ghost start = out@;
        match self {
            OwnedEventType::MarketOrderBookUpdate { symbol, bids, asks, event_timestamp } => {
                out.append("MarketOrderBookUpdate - symbol: ");
                out.append(symbol.as_str());
                out.append(", bids ");
                push_levels(out, bids);
                out.append(", asks ");
                push_levels(out, asks);
                out.append(", event_timestamp ");
                push_i64(out, *event_timestamp);
            },
        }
        assert(out@ =~= start + self.spec_format());
    }
}

impl OwnedLogMsg {
    /// The text of an owned event: the same as that of the borrowed event
    /// (`LogMsg`) of the same variant and field values.
    pub open spec fn spec_format(&self) -> Seq<char> {
        match *self {
            OwnedLogMsg::Warning { warning_message } => "Warning:  "@ + warning_message@,
            OwnedLogMsg::Event(e) => e.spec_format(),
            OwnedLogMsg::Error { error_code, error_message } =>
                "Error "@ + int_text(error_code as int) + ": "@ + error_message@,
        }
    }

    /// Renders this event.
    pub fn format(&self) -> (r: String)
        ensures
            r@ == self.spec_format(),
    {
        let mut out = String::new();
        match self {
            OwnedLogMsg::Warning { warning_message } => {
                out.append("Warning:  ");
                out.append(warning_message.as_str());
            },
            OwnedLogMsg::Event(e) => {
                e.push_format(&mut out);
            },
            OwnedLogMsg::Error { error_code, error_message } => {
                out.append("Error ");
                push_i32(&mut out, *error_code);
                out.append(": ");
                out.append(error_message.as_str());
            },
        }
        assert(out@ =~= self.spec_format());
        out
    }
}

impl Formattable for OwnedLogMsg {
    open spec fn rendered(&self) -> Seq<char> {
        self.spec_format()
    }

    fn formatting(&self) -> (r: String) {
        self.format()
    }
}

/// One limit as `[Price: 100, Amount: 75]`.
pub open spec fn limit_text(level: [i64; 2]) -> Seq<char> {
    "[Price: "@ + int_text(level@[0] as int) + ", Amount: "@ + int_text(level@[1] as int) + "]"@
}

/// The limits, each as `limit_text`, separated by ", "; empty when there are
/// none.
pub open spec fn limits_text(orders: Seq<[i64; 2]>) -> Seq<char> {
    join_comma(orders.map_values(|l: [i64; 2]| limit_text(l)))
}

/// Renders a list of `[price, amount]` limits.
pub fn format_limits(orders: &Vec<[i64; 2]>) -> (r: String)
    ensures
        r@ == limits_text(orders@),
{
    let ghost parts = orders@.map_values(|l: [i64; 2]| limit_text(l));
    let mut out = String::new();
    let mut i: usize = 0;
    while i < orders.len()
        invariant
            i <= orders@.len(),
            parts == orders@.map_values(|l: [i64; 2]| limit_text(l)),
            out@ == join_comma(parts.take(i as int)),
        decreases orders@.len() - i,
    {
        proof {
            lemma_join_comma_push(parts, i as int);
        }
        let ghost before = out@;
        if i > 0 {
            out.append(", ");
        }
        out.append("[Price: ");
        push_i64(&mut out, orders[i][0]);
        out.append(", Amount: ");
        push_i64(&mut out, orders[i][1]);
        out.append("]");
        assert(parts[i as int] == limit_text(orders@[i as int]));
        if i > 0 {
            assert(out@ =~= before + ", "@ + parts[i as int]);
        } else {
            assert(out@ =~= parts[i as int]);
        }
        i = i + 1;
    }
    assert(parts.take(orders@.len() as int) =~= parts);
    out
}

/// An order-book snapshot as a stream delivers it.
#[derive(Debug, Clone)]
pub struct ExampleOB {
    pub symbol: i32,
    pub bids: Vec<[i64; 2]>,
    pub asks: Vec<[i64; 2]>,
    pub timestamp: i64,
}

impl ExampleOB {
    /// The text of a snapshot: a header line, then the bids and the asks.
    pub open spec fn spec_formatting(&self) -> Seq<char> {
        "OrderBook - Symbol: "@ + int_text(self.symbol as int) + ", Timestamp: "@
            + int_text(self.timestamp as int) + "\nBids: "@ + limits_text(self.bids@)
            + "\nAsks: "@ + limits_text(self.asks@)
    }
}

impl Formattable for ExampleOB {
    open spec fn rendered(&self) -> Seq<char> {
        self.spec_formatting()
    }

    fn formatting(&self) -> (r: String) {
        let mut out = String::new();
        out.append("OrderBook - Symbol: ");
        push_i32(&mut out, self.symbol);
        out.append(", Timestamp: ");
        push_i64(&mut out, self.timestamp);
        out.append("\nBids: ");
        let bids = format_limits(&self.bids);
        out.append(bids.as_str());
        out.append("\nAsks: ");
        let asks = format_limits(&self.asks);
        out.append(asks.as_str());
        assert(out@ =~= self.spec_formatting());
        out
    }
}

impl ToLogMsg for ExampleOB {
    open spec fn converts_to(&self, m: &OwnedLogMsg) -> bool {
        match *m {
            OwnedLogMsg::Event(OwnedEventType::MarketOrderBookUpdate {
                symbol,
                bids,
                asks,
                event_timestamp,
            }) => symbol@ == int_text(self.symbol as int) && bids@ == self.bids@ && asks@
                == self.asks@ && event_timestamp == self.timestamp,
            _ => false,
        }
    }

    fn to_log_msg(self) -> (r: OwnedLogMsg) {
        let mut symbol = String::new();
        push_i32(&mut symbol, self.symbol);
        assert(symbol@ =~= int_text(self.symbol as int));
        OwnedLogMsg::Event(
            OwnedEventType::MarketOrderBookUpdate {
                symbol,
                bids: self.bids,
                asks: self.asks,
                event_timestamp: self.timestamp,
            },
        )
    }
}

/// An error report as an upstream component delivers it.
#[derive(Debug, Clone)]
pub struct ExampleErrorMsg {
    pub error_code: i32,
    pub error_message: String,
}

impl ToLogMsg for ExampleErrorMsg {
    open spec fn converts_to(&self, m: &OwnedLogMsg) -> bool {
        match *m {
            OwnedLogMsg::Error { error_code, error_message } => error_code == self.error_code
                && error_message@ == self.error_message@,
            _ => false,
        }
    }

    fn to_log_msg(self) -> (r: OwnedLogMsg) {
        OwnedLogMsg::Error { error_code: self.error_code, error_message: self.error_message }
    }
}

} // verus!
