//! Client-side runtime for talking to a set of remote services over one
//! duplex connection.
//!
//! The crate holds the protocol engine: which session object an inbound
//! envelope belongs to, which pending call a response completes, when a call
//! has to wait for its service id and in which order waiting calls are
//! replayed. Reading and writing the connection, encoding payloads and
//! hopping between threads are left to the embedding program, which feeds
//! events in and carries the returned actions out.
//!
//! The engine comes in two layers. The inner one works on state that the
//! caller holds exclusively ([`transport::Transport`],
//! [`resolution::ServiceClient`], [`bridge::client::GeckoBridge`]); its
//! contracts say exactly what each step returns and changes. The outer one
//! ([`bridge::xpcom`]) keeps that state behind locks, for threads to share.

pub mod bridge;
pub mod client_object;
pub mod correlation;
pub mod delegate;
pub mod message;
pub mod observer;
pub mod queue;
pub mod registry;
pub mod resolution;
pub mod session;
pub mod shared;
pub mod task;
pub mod transport;
