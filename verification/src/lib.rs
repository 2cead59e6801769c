//! Issues header-fetch requests for the slices of a download that nobody has
//! asked a peer for yet.
//!
//! The slices live in a shared store, each behind its own lock. One pass over
//! the store sends one request per empty slice through the bounded queue of
//! the sentry client, marks each slice whose request the queue took as
//! waiting, and stops at the first request the queue refuses. The stage
//! itself never blocks on a future: it tells its driver what to await and is
//! called again with what happened.
pub mod channels;
pub mod clock;
pub mod fetch_request_stage;
pub mod header_slices;
pub mod locks;
pub mod messages;
pub mod scan;
pub mod sentry_client_reactor;
