//! Producer-side core of a publish/subscribe messaging client.
//!
//! The crate models the connection lifecycle and the topic-subscription
//! protocol that a message producer sits on top of: a [`connection::Connection`]
//! owns one logical link to a broker, a [`registry::Registry`] tracks the
//! per-topic registration state, a [`client::Client`] composes the two, and a
//! [`producer::Producer`] binds a client to a fixed topic set chosen at
//! construction time.
//!
//! All network activity is represented by plain outcome values
//! ([`connection::ConnectOutcome`], [`client::BrokerReply`], transport flags):
//! the caller performs the I/O and hands the observed outcome to the library,
//! which makes every decision — state transitions, duplicate rejection, the
//! bounded retry policy, the all-or-nothing construction policy — in verified
//! code.

pub mod client;
pub mod connection;
pub mod errors;
pub mod producer;
pub mod registry;
