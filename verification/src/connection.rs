//! A single logical link to a broker endpoint.
//!
//! The connection is a state machine over
//! `Disconnected → Connecting → Connected`, with `Closing`/`Closed` reached
//! by teardown from any state. The transport itself is outside the library:
//! the caller dials, writes and observes, and reports each outcome
//! ([`ConnectOutcome`], a delivery flag) back to the connection, which owns
//! every state decision.

use crate::errors::{ConnectError, SendError};
use vstd::prelude::*;

verus! {

/// Lifecycle state of a connection.
#[derive(Clone, Copy, Debug, PartialEq, Eq, Structural)]
pub enum ConnectionState {
    /// No link; the initial state, and the state after any failure.
    Disconnected,
    /// A dial is in flight and its outcome has not been reported yet.
    Connecting,
    /// The link is established; frames may be sent.
    Connected,
    /// Teardown in progress; the transport handle is being released.
    Closing,
    /// Teardown complete; terminal.
    Closed,
}

/// What the transport reported for a dial.
#[derive(Clone, Copy, Debug, PartialEq, Eq, Structural)]
pub enum ConnectOutcome {
    /// The handshake succeeded.
    Accepted,
    /// Network-level failure: the endpoint could not be reached.
    Unreachable,
    /// Broker-level refusal, e.g. failed authentication.
    Rejected,
}

/// One logical link to a broker endpoint, exclusively owned by the client
/// that created it.
pub struct Connection {
    /// The broker endpoint address this connection dials.
    pub endpoint: String,
    /// Current lifecycle state.
    pub state: ConnectionState,
    /// The most recent connect failure, if any.
    pub last_error: Option<ConnectError>,
}

impl Connection {
    /// The value a connection takes after `close`: the state becomes
    /// `Closed`; a connection that is already closed is left untouched, so
    /// the transport handle is never released twice.
    pub open spec fn spec_close(c: Connection) -> Connection {
        if c.state == ConnectionState::Closed {
            c
        } else {
            Connection { state: ConnectionState::Closed, ..c }
        }
    }

    /// Creates a connection for `endpoint` with no link established.
    pub fn new(endpoint: String) -> (c: Connection)
        ensures
            c.endpoint@ == endpoint@,
            c.state == ConnectionState::Disconnected,
            c.last_error is None,
    {
        Connection { endpoint, state: ConnectionState::Disconnected, last_error: None }
    }

    /// Starts a dial: the caller must now perform the transport handshake
    /// and report its outcome through [`Connection::complete_connect`].
    pub fn begin_connect(&mut self)
        requires
            old(self).state == ConnectionState::Disconnected,
        ensures
            final(self).state == ConnectionState::Connecting,
            final(self).endpoint == old(self).endpoint,
            final(self).last_error == old(self).last_error,
    {
        self.state = ConnectionState::Connecting;
    }

    /// Records the outcome of an in-flight dial. On success the connection
    /// becomes `Connected` and the last error is cleared; on failure it
    /// falls back to `Disconnected`, records the error, and reports it.
    /// The connection does not retry on its own: retry policy belongs to
    /// the client.
    pub fn complete_connect(&mut self, outcome: ConnectOutcome) -> (r: Result<(), ConnectError>)
        requires
            old(self).state == ConnectionState::Connecting,
        ensures
            final(self).endpoint == old(self).endpoint,
            outcome == ConnectOutcome::Accepted ==> {
                &&& r == Ok::<(), ConnectError>(())
                &&& final(self).state == ConnectionState::Connected
                &&& final(self).last_error is None
            },
            outcome == ConnectOutcome::Unreachable ==> {
                &&& r == Err::<(), ConnectError>(ConnectError::Unreachable)
                &&& final(self).state == ConnectionState::Disconnected
                &&& final(self).last_error == Some(ConnectError::Unreachable)
            },
            outcome == ConnectOutcome::Rejected ==> {
                &&& r == Err::<(), ConnectError>(ConnectError::Rejected)
                &&& final(self).state == ConnectionState::Disconnected
                &&& final(self).last_error == Some(ConnectError::Rejected)
            },
    {
        match outcome {
            ConnectOutcome::Accepted => {
                self.state = ConnectionState::Connected;
                self.last_error = None;
                Ok(())
            },
            ConnectOutcome::Unreachable => {
                self.state = ConnectionState::Disconnected;
                self.last_error = Some(ConnectError::Unreachable);
                Err(ConnectError::Unreachable)
            },
            ConnectOutcome::Rejected => {
                self.state = ConnectionState::Disconnected;
                self.last_error = Some(ConnectError::Rejected);
                Err(ConnectError::Rejected)
            },
        }
    }

    /// Writes one framed request. `delivered` is the transport's report of
    /// whether the write succeeded. Fails with `NotConnected` (and changes
    /// nothing) unless the state is `Connected`; a transport failure drops
    /// the connection to `Disconnected` and is reported upward.
    pub fn send(&mut self, frame: &Vec<u8>, delivered: bool) -> (r: Result<(), SendError>)
        ensures
            final(self).endpoint == old(self).endpoint,
            final(self).last_error == old(self).last_error,
            old(self).state != ConnectionState::Connected ==> {
                &&& r == Err::<(), SendError>(SendError::NotConnected)
                &&& *final(self) == *old(self)
            },
            old(self).state == ConnectionState::Connected && delivered ==> {
                &&& r == Ok::<(), SendError>(())
                &&& *final(self) == *old(self)
            },
            old(self).state == ConnectionState::Connected && !delivered ==> {
                &&& r == Err::<(), SendError>(SendError::Transport)
                &&& final(self).state == ConnectionState::Disconnected
            },
    {
        if self.state != ConnectionState::Connected {
            return Err(SendError::NotConnected);
        }
        let _ = frame;
        if delivered {
            Ok(())
        } else {
            self.state = ConnectionState::Disconnected;
            Err(SendError::Transport)
        }
    }

    /// Scoped teardown: releases the link on every exit path and lands in
    /// `Closed`. Idempotent — closing an already-closed connection changes
    /// nothing, so the handle is never released twice.
    pub fn close(&mut self)
        ensures
            *final(self) == Connection::spec_close(*old(self)),
            final(self).state == ConnectionState::Closed,
            old(self).state == ConnectionState::Closed ==> *final(self) == *old(self),
    {
        if self.state != ConnectionState::Closed {
            self.state = ConnectionState::Closing;
            self.state = ConnectionState::Closed;
        }
    }

    /// Closing a connection is idempotent: a second close is the identity,
    /// so it raises no error and releases nothing a second time.
    pub proof fn lemma_close_idempotent(c: Connection)
        ensures
            Connection::spec_close(Connection::spec_close(c)) == Connection::spec_close(c),
    {
    }
}

} // verus!
