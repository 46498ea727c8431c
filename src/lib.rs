//! A low-latency logger: producers capture typed events and hand them, as
//! one-shot work units, over a single-producer/single-consumer channel to a
//! dedicated sink worker, which renders each one and passes the text on.

pub mod text;
pub mod event;
pub mod owned;
pub mod work;
pub mod pinning;
pub mod channel;
pub mod worker;
