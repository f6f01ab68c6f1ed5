//! Mirrors a shopper's purchase receipts from a loyalty-rewards backend.
//!
//! The library is free of I/O. It builds the requests that a transport sends,
//! judges the envelopes that come back, walks the paginated activity feed and
//! decides, receipt by receipt, what a synchronisation run has to do next.
//!
//! - `models`: the wire data and its views.
//! - `wire`: JSON request bodies and header values.
//! - `client`: requests, envelopes and the activity stream.
//! - `sync`: the synchronisation run as a state machine.
//! - `mirror`: whole runs against a modelled backend and store.

pub mod client;
pub mod mirror;
pub mod models;
pub mod sync;
pub mod wire;
