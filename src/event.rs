//! The typed event model and its rendering.

use vstd::prelude::*;
use crate::text::{int_text, push_i64, push_i32};

verus! {

/// The formatting capability: a value renders to text that depends on its
/// fields alone.
pub trait Formattable {
    /// The text that `formatting` produces.
    spec fn rendered(&self) -> Seq<char>;

    fn formatting(&self) -> (r: String)
        ensures
            r@ == self.rendered(),
    ;
}

/// Joins the parts with ", " between each two of them.
pub open spec fn join_comma(parts: Seq<Seq<char>>) -> Seq<char>
    decreases parts.len(),
{
    if parts.len() == 0 {
        Seq::empty()
    } else if parts.len() == 1 {
        parts[0]
    } else {
        join_comma(parts.drop_last()) + ", "@ + parts.last()
    }
}

/// One `[price, size]` level as written in a list of levels: `[100, 75]`.
pub open spec fn level_text(level: [i64; 2]) -> Seq<char> {
    "["@ + int_text(level@[0] as int) + ", "@ + int_text(level@[1] as int) + "]"@
}

/// A list of levels as `[[100, 75], [99, 10]]`; `[]` when empty.
pub open spec fn levels_text(levels: Seq<[i64; 2]>) -> Seq<char> {
    "["@ + join_comma(levels.map_values(|l: [i64; 2]| level_text(l))) + "]"@
}

pub(crate) proof fn lemma_join_comma_push(parts: Seq<Seq<char>>, i: int)
    requires
        0 <= i < parts.len(),
    ensures
        join_comma(parts.take(i + 1)) == if i == 0 {
            parts[0]
        } else {
            join_comma(parts.take(i)) + ", "@ + parts[i]
        },
{
    assert(parts.take(i + 1).drop_last() =~= parts.take(i));
}

/// Appends `[price, size]`.
fn push_level(out: &mut String, level: &[i64; 2])
    ensures
        final(out)@ == old(out)@ + level_text(*level),
{
    out.append("[");
    push_i64(out, level[0]);
    out.append(", ");
    push_i64(out, level[1]);
    out.append("]");
    assert(final(out)@ =~= old(out)@ + level_text(*level));
}

/// Appends a list of levels, bracketed and separated by ", ".
pub fn push_levels(out: &mut String, levels: &Vec<[i64; 2]>)
    ensures
        final(out)@ == old(out)@ + levels_text(levels@),
{
    let ghost start = out@;
    let ghost parts = levels@.map_values(|l: [i64; 2]| level_text(l));
    out.append("[");
    let mut i: usize = 0;
    while i < levels.len()
        invariant
            i <= levels@.len(),
            parts == levels@.map_values(|l: [i64; 2]| level_text(l)),
            out@ == start + "["@ + join_comma(parts.take(i as int)),
        decreases levels@.len() - i,
    {
        proof {
            lemma_join_comma_push(parts, i as int);
        }
        if i > 0 {
            out.append(", ");
        }
        push_level(out, &levels[i]);
        i = i + 1;
    }
    out.append("]");
    assert(parts.take(levels@.len() as int) =~= parts);
    assert(out@ =~= start + levels_text(levels@));
}

/// A domain event: a record of named, typed fields. Prices and sizes of
/// order-book levels are integer ticks. Domain users extend the library by
/// adding variants here, each with its rendering: every domain event, of
/// whatever kind, is a variant of this one enum.
#[derive(Debug, Clone, PartialEq, Eq, Hash)]
#[allow(inconsistent_fields)]
pub enum NormalizedEventTypes<'a> {
    MarketOrderBookUpdate {
        symbol: &'a str,
        bids: Vec<[i64; 2]>,
        asks: Vec<[i64; 2]>,
        event_timestamp: i64,
    },
    MarketTrade {
        symbol: &'a str,
        side: &'a str,
        qty: &'a str,
        fill_price: &'a str,
        timestamp: i64,
    },
    AccountPartialMakerFill {
        symbol: &'a str,
        side: &'a str,
        price: &'a str,
        size_filled: &'a str,
        size_unfilled: &'a str,
        timestamp: &'a str,
    },
    AccountMakerFill {
        symbol: &'a str,
        side: &'a str,
        fill_price: &'a str,
        qty: &'a str,
        timestamp: &'a str,
    },
    AccountTakerFill {
        symbol: &'a str,
        side: &'a str,
        qty: &'a str,
        fill_price: &'a str,
        timestamp: &'a str,
    },
    AccountPositionStatus {
        symbol: &'a str,
        side: &'a str,
        pnl: &'a str,
        leverage: &'a str,
        fill_timestamp: &'a str,
        time_since_fill: &'a str,
    },
}

/// A log event.
#[derive(Debug, Clone, PartialEq, Eq, Hash)]
pub enum LogMsg<'a> {
    Event(NormalizedEventTypes<'a>),
    Warning { warning_message: &'static str },
    Info { timestamp: &'a str, details: &'a str },
    Error { error_code: i32, error_message: &'a str },
}

impl<'a> NormalizedEventTypes<'a> {
    /// The text of a domain event.
    pub open spec fn spec_format(&self) -> Seq<char> {
        match *self {
            NormalizedEventTypes::MarketOrderBookUpdate { symbol, bids, asks, event_timestamp } =>
                "MarketOrderBookUpdate - symbol: "@ + symbol@ + ", bids "@ + levels_text(bids@)
                    + ", asks "@ + levels_text(asks@) + ", event_timestamp "@
                    + int_text(event_timestamp as int),
            NormalizedEventTypes::MarketTrade { symbol, side, qty, fill_price, timestamp } =>
                "MarketTrade - symbol: "@ + symbol@ + ", side: "@ + side@ + ", qty: "@ + qty@
                    + ", fill_price: "@ + fill_price@ + ", timestamp: "@ + int_text(timestamp as int),
            NormalizedEventTypes::AccountPartialMakerFill {
                symbol,
                side,
                price,
                size_filled,
                size_unfilled,
                timestamp,
            } =>
                "AccountPartialMakerFill - symbol: "@ + symbol@ + ", side: "@ + side@ + ", price: "@
                    + price@ + ", size_filled: "@ + size_filled@ + ", size_unfilled: "@
                    + size_unfilled@ + ", timestamp: "@ + timestamp@,
            NormalizedEventTypes::AccountMakerFill { symbol, side, fill_price, qty, timestamp } =>
                "AccountMakerFill - symbol: "@ + symbol@ + ", side: "@ + side@ + ", fill_price: "@
                    + fill_price@ + ", qty: "@ + qty@ + ", timestamp: "@ + timestamp@,
            NormalizedEventTypes::AccountTakerFill { symbol, side, qty, fill_price, timestamp } =>
                "AccountTakerFill - symbol: "@ + symbol@ + ", side: "@ + side@ + ", qty: "@ + qty@
                    + ", fill_price: "@ + fill_price@ + ", timestamp: "@ + timestamp@,
            NormalizedEventTypes::AccountPositionStatus {
                symbol,
                side,
                pnl,
                leverage,
                fill_timestamp,
                time_since_fill,
            } =>
                "AccountPositionStatus - symbol: "@ + symbol@ + ", side: "@ + side@ + ", pnl: "@
                    + pnl@ + ", leverage: "@ + leverage@ + ", fill_timestamp: "@ + fill_timestamp@
                    + ", time_since_fill: "@ + time_since_fill@ + " "@,
        }
    }
}

impl<'a> LogMsg<'a> {
    /// The text of an event.
    pub open spec fn spec_format(&self) -> Seq<char> {
        match *self {
            LogMsg::Error { error_code, error_message } =>
                "Error "@ + int_text(error_code as int) + ": "@ + error_message@,
            LogMsg::Warning { warning_message } => "Warning:  "@ + warning_message@,
            LogMsg::Info { timestamp, details } => "["@ + timestamp@ + "] Info: "@ + details@,
            LogMsg::Event(e) => e.spec_format(),
        }
    }
}

impl<'a> NormalizedEventTypes<'a> {
    /// Appends the text of this domain event.
    pub fn push_format(&self, out: &mut String)
        ensures
            final(out)@ == old(out)@ + self.spec_format(),
    {
        let ghost start = out@;
        match self {
            NormalizedEventTypes::MarketOrderBookUpdate { symbol, bids, asks, event_timestamp } => {
                out.append("MarketOrderBookUpdate - symbol: ");
                out.append(symbol);
                out.append(", bids ");
                push_levels(out, bids);
                out.append(", asks ");
                push_levels(out, asks);
                out.append(", event_timestamp ");
                push_i64(out, *event_timestamp);
            },
            NormalizedEventTypes::MarketTrade { symbol, side, qty, fill_price, timestamp } => {
                out.append("MarketTrade - symbol: ");
                out.append(symbol);
                out.append(", side: ");
                out.append(side);
                out.append(", qty: ");
                out.append(qty);
                out.append(", fill_price: ");
                out.append(fill_price);
                out.append(", timestamp: ");
                push_i64(out, *timestamp);
            },
            NormalizedEventTypes::AccountPartialMakerFill {
                symbol,
                side,
                price,
                size_filled,
                size_unfilled,
                timestamp,
            } => {
                out.append("AccountPartialMakerFill - symbol: ");
                out.append(symbol);
                out.append(", side: ");
                out.append(side);
                out.append(", price: ");
                out.append(price);
                out.append(", size_filled: ");
                out.append(size_filled);
                out.append(", size_unfilled: ");
                out.append(size_unfilled);
                out.append(", timestamp: ");
                out.append(timestamp);
            },
            NormalizedEventTypes::AccountMakerFill { symbol, side, fill_price, qty, timestamp } => {
                out.append("AccountMakerFill - symbol: ");
                out.append(symbol);
                out.append(", side: ");
                out.append(side);
                out.append(", fill_price: ");
                out.append(fill_price);
                out.append(", qty: ");
                out.append(qty);
                out.append(", timestamp: ");
                out.append(timestamp);
            },
            NormalizedEventTypes::AccountTakerFill { symbol, side, qty, fill_price, timestamp } => {
                out.append("AccountTakerFill - symbol: ");
                out.append(symbol);
                out.append(", side: ");
                out.append(side);
                out.append(", qty: ");
                out.append(qty);
                out.append(", fill_price: ");
                out.append(fill_price);
                out.append(", timestamp: ");
                out.append(timestamp);
            },
            NormalizedEventTypes::AccountPositionStatus {
                symbol,
                side,
                pnl,
                leverage,
                fill_timestamp,
                time_since_fill,
            } => {
                out.append("AccountPositionStatus - symbol: ");
                out.append(symbol);
                out.append(", side: ");
                out.append(side);
                out.append(", pnl: ");
                out.append(pnl);
                out.append(", leverage: ");
                out.append(leverage);
                out.append(", fill_timestamp: ");
                out.append(fill_timestamp);
                out.append(", time_since_fill: ");
                out.append(time_since_fill);
                out.append(" ");
            },
        }
        assert(out@ =~= start + self.spec_format());
    }
}

impl<'a> LogMsg<'a> {
    /// Appends the text of this event.
    pub fn push_format(&self, out: &mut String)
        ensures
            final(out)@ == old(out)@ + self.spec_format(),
    {
        let ghost start = out@;
        match self {
            LogMsg::Error { error_code, error_message } => {
                out.append("Error ");
                push_i32(out, *error_code);
                out.append(": ");
                out.append(error_message);
            },
            LogMsg::Warning { warning_message } => {
                out.append("Warning:  ");
                out.append(warning_message);
            },
            LogMsg::Info { timestamp, details } => {
                out.append("[");
                out.append(timestamp);
                out.append("] Info: ");
                out.append(details);
            },
            LogMsg::Event(e) => {
                e.push_format(out);
            },
        }
        assert(out@ =~= start + self.spec_format());
    }

    /// Renders this event; the result depends on its fields alone.
    pub fn format(&self) -> (r: String)
        ensures
            r@ == self.spec_format(),
    {
        let mut out = String::new();
        self.push_format(&mut out);
        assert(out@ =~= self.spec_format());
        out
    }
}

impl<'a> Formattable for LogMsg<'a> {
    open spec fn rendered(&self) -> Seq<char> {
        self.spec_format()
    }

    fn formatting(&self) -> (r: String) {
        self.format()
    }
}


/// The `Debug` text of a string: quoted, with its special characters
/// escaped.
pub uninterp spec fn debug_text(s: Seq<char>) -> Seq<char>;

/// Relies on std's `Debug` for `str`: the quoted, escaped form of the
/// string, which depends on its characters alone.
#[verifier::external_body]
fn debug_str(s: &str) -> (r: String)
    ensures
        r@ == debug_text(s@),
{
    format!("{:?}", s)
}

/// One `[price, size]` level of strings as written in a list of levels:
/// `["100.5", "2"]`.
pub open spec fn string_level_text(level: [String; 2]) -> Seq<char> {
    "["@ + debug_text(level@[0]@) + ", "@ + debug_text(level@[1]@) + "]"@
}

/// A list of string levels as `[["100.5", "2"], ["99", "1"]]`; `[]` when
/// empty.
pub open spec fn string_levels_text(levels: Seq<[String; 2]>) -> Seq<char> {
    "["@ + join_comma(levels.map_values(|l: [String; 2]| string_level_text(l))) + "]"@
}

/// Appends one level from the already quoted texts of its price and size.
pub fn push_quoted_level(out: &mut String, price: &str, size: &str)
    ensures
        final(out)@ == old(out)@ + "["@ + price@ + ", "@ + size@ + "]"@,
{
    out.append("[");
    out.append(price);
    out.append(", ");
    out.append(size);
    out.append("]");
}

/// Appends a list of string levels, bracketed and separated by ", ".
pub fn push_string_levels(out: &mut String, levels: &Vec<[String; 2]>)
    ensures
        final(out)@ == old(out)@ + string_levels_text(levels@),
{
    let ghost start = out@;
    let ghost parts = levels@.map_values(|l: [String; 2]| string_level_text(l));
    out.append("[");
    let mut i: usize = 0;
    while i < levels.len()
        invariant
            i <= levels@.len(),
            parts == levels@.map_values(|l: [String; 2]| string_level_text(l)),
            out@ == start + "["@ + join_comma(parts.take(i as int)),
        decreases levels@.len() - i,
    {
        proof {
            lemma_join_comma_push(parts, i as int);
        }
        let ghost before = out@;
        if i > 0 {
            out.append(", ");
        }
        let level = &levels[i];
        let price = debug_str(level[0].as_str());
        let size = debug_str(level[1].as_str());
        push_quoted_level(out, price.as_str(), size.as_str());
        assert(parts[i as int] == string_level_text(levels@[i as int]));
        if i > 0 {
            assert(out@ =~= before + ", "@ + parts[i as int]);
        } else {
            assert(out@ =~= before + parts[i as int]);
        }
        i = i + 1;
    }
    out.append("]");
    assert(parts.take(levels@.len() as int) =~= parts);
    assert(out@ =~= start + string_levels_text(levels@));
}

/// A domain event whose prices and sizes arrive as text, as an exchange
/// stream delivers them.
#[derive(Debug, Clone, PartialEq, Eq, Hash)]
#[allow(inconsistent_fields)]
pub enum EventTypes<'a> {
    MarketOrderBookUpdate {
        symbol: &'a str,
        bids: Vec<[String; 2]>,
        asks: Vec<[String; 2]>,
        event_timestamp: &'a str,
    },
    MarketTradesUpdate {
        symbol: &'a str,
        side: &'a str,
        qty: &'a str,
        fill_price: &'a str,
        timestamp: i64,
    },
    AccountPartialLimitFill {
        symbol: &'a str,
        side: &'a str,
        price: &'a str,
        size_filled: &'a str,
        size_unfilled: &'a str,
        timestamp: &'a str,
    },
    AccountLimitFill {
        symbol: &'a str,
        side: &'a str,
        fill_price: &'a str,
        qty: &'a str,
        timestamp: &'a str,
    },
    AccountMarketFill {
        symbol: &'a str,
        side: &'a str,
        qty: &'a str,
        fill_price: &'a str,
        timestamp: &'a str,
    },
    AccountPositionStatus {
        symbol: &'a str,
        side: &'a str,
        pnl: &'a str,
        leverage: &'a str,
        fill_timestamp: &'a str,
        time_since_fill: &'a str,
    },
}

impl<'a> EventTypes<'a> {
    /// The text of the event.
    pub open spec fn spec_format(&self) -> Seq<char> {
        match *self {
            EventTypes::MarketOrderBookUpdate { symbol, bids, asks, event_timestamp } =>
                "MarketOrderBookUpdate - symbol: "@ + symbol@ + ", bids "@ + string_levels_text(bids@)
                    + ", asks "@ + string_levels_text(asks@) + ", event_timestamp "@
                    + event_timestamp@,
            EventTypes::MarketTradesUpdate { symbol, side, qty, fill_price, timestamp } =>
                "MarketTradesUpdate - symbol: "@ + symbol@ + ", side: "@ + side@ + ", qty: "@ + qty@
                    + ", fill_price: "@ + fill_price@ + ", timestamp: "@ + int_text(timestamp as int),
            EventTypes::AccountPartialLimitFill {
                symbol,
                side,
                price,
                size_filled,
                size_unfilled,
                timestamp,
            } =>
                "AccountPartialLimitFill - symbol: "@ + symbol@ + ", side: "@ + side@ + ", price: "@
                    + price@ + ", size_filled: "@ + size_filled@ + ", size_unfilled: "@
                    + size_unfilled@ + ", timestamp: "@ + timestamp@,
            EventTypes::AccountLimitFill { symbol, side, fill_price, qty, timestamp } =>
                "AccountLimitFill - symbol: "@ + symbol@ + ", side: "@ + side@ + ", fill_price: "@
                    + fill_price@ + ", qty: "@ + qty@ + ", timestamp: "@ + timestamp@,
            EventTypes::AccountMarketFill { symbol, side, qty, fill_price, timestamp } =>
                "AccountMarketFill - symbol: "@ + symbol@ + ", side: "@ + side@ + ", qty: "@ + qty@
                    + ", fill_price: "@ + fill_price@ + ", timestamp: "@ + timestamp@,
            EventTypes::AccountPositionStatus {
                symbol,
                side,
                pnl,
                leverage,
                fill_timestamp,
                time_since_fill,
            } =>
                "AccountPositionStatus - symbol: "@ + symbol@ + ", side: "@ + side@ + ", pnl: "@
                    + pnl@ + ", leverage: "@ + leverage@ + ", fill_timestamp: "@ + fill_timestamp@
                    + ", time_since_fill: "@ + time_since_fill@ + " "@,
        }
    }

    /// Renders the event.
    pub fn format(&self) -> (r: String)
        ensures
            r@ == self.spec_format(),
    {
        let mut out = String::new();
        match self {
            EventTypes::MarketOrderBookUpdate { symbol, bids, asks, event_timestamp } => {
                out.append("MarketOrderBookUpdate - symbol: ");
                out.append(symbol);
                out.append(", bids ");
                push_string_levels(&mut out, bids);
                out.append(", asks ");
                push_string_levels(&mut out, asks);
                out.append(", event_timestamp ");
                out.append(event_timestamp);
            },
            EventTypes::MarketTradesUpdate { symbol, side, qty, fill_price, timestamp } => {
                out.append("MarketTradesUpdate - symbol: ");
                out.append(symbol);
                out.append(", side: ");
                out.append(side);
                out.append(", qty: ");
                out.append(qty);
                out.append(", fill_price: ");
                out.append(fill_price);
                out.append(", timestamp: ");
                push_i64(&mut out, *timestamp);
            },
            EventTypes::AccountPartialLimitFill {
                symbol,
                side,
                price,
                size_filled,
                size_unfilled,
                timestamp,
            } => {
                out.append("AccountPartialLimitFill - symbol: ");
                out.append(symbol);
                out.append(", side: ");
                out.append(side);
                out.append(", price: ");
                out.append(price);
                out.append(", size_filled: ");
                out.append(size_filled);
                out.append(", size_unfilled: ");
                out.append(size_unfilled);
                out.append(", timestamp: ");
                out.append(timestamp);
            },
            EventTypes::AccountLimitFill { symbol, side, fill_price, qty, timestamp } => {
                out.append("AccountLimitFill - symbol: ");
                out.append(symbol);
                out.append(", side: ");
                out.append(side);
                out.append(", fill_price: ");
                out.append(fill_price);
                out.append(", qty: ");
                out.append(qty);
                out.append(", timestamp: ");
                out.append(timestamp);
            },
            EventTypes::AccountMarketFill { symbol, side, qty, fill_price, timestamp } => {
                out.append("AccountMarketFill - symbol: ");
                out.append(symbol);
                out.append(", side: ");
                out.append(side);
                out.append(", qty: ");
                out.append(qty);
                out.append(", fill_price: ");
                out.append(fill_price);
                out.append(", timestamp: ");
                out.append(timestamp);
            },
            EventTypes::AccountPositionStatus {
                symbol,
                side,
                pnl,
                leverage,
                fill_timestamp,
                time_since_fill,
            } => {
                out.append("AccountPositionStatus - symbol: ");
                out.append(symbol);
                out.append(", side: ");
                out.append(side);
                out.append(", pnl: ");
                out.append(pnl);
                out.append(", leverage: ");
                out.append(leverage);
                out.append(", fill_timestamp: ");
                out.append(fill_timestamp);
                out.append(", time_since_fill: ");
                out.append(time_since_fill);
                out.append(" ");
            },
        }
        assert(out@ =~= self.spec_format());
        out
    }
}

impl<'a> Formattable for EventTypes<'a> {
    open spec fn rendered(&self) -> Seq<char> {
        self.spec_format()
    }

    fn formatting(&self) -> (r: String) {
        self.format()
    }
}

} // verus!
