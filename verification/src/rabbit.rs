//! The state of the RabbitMQ connection and the errors of the queue client.
use vstd::prelude::*;

verus! {

/// `lapin::Error`, carried through as it is.
#[verifier::external_type_specification]
#[verifier::external_body]
pub struct ExLapinError(lapin::Error);

/// The states of a RabbitMQ connection (those of `lapin::ConnectionState`).
#[derive(Clone, Copy, Debug, PartialEq, Eq, Structural)]
pub enum ConnectionStatus {
    Initial,
    Connecting,
    Connected,
    Closing,
    Closed,
    Error,
}

/// A connection in this state is, or is becoming, usable.
pub open spec fn usable(status: ConnectionStatus) -> bool {
    status is Initial || status is Connecting || status is Connected
}

/// Whether the connection is, or is becoming, usable: not once it closes or
/// fails.
pub fn check_status(status: ConnectionStatus) -> (r: bool)
    ensures
        r == usable(status),
{
    match status {
        ConnectionStatus::Initial | ConnectionStatus::Connecting | ConnectionStatus::Connected => {
            true
        },
        ConnectionStatus::Closing | ConnectionStatus::Closed | ConnectionStatus::Error => false,
    }
}

/// The errors of the queue client.
#[derive(Debug)]
pub enum RabbitClientError {
    /// An error of the RabbitMQ client.
    Rabbit(lapin::Error),
    /// The local queue of outgoing messages is closed.
    Mpsc,
}

impl RabbitClientError {
    /// The error of the queue client for an error of the RabbitMQ client.
    pub fn from_lapin(err: lapin::Error) -> (r: RabbitClientError)
        ensures
            r == RabbitClientError::Rabbit(err),
    {
        RabbitClientError::Rabbit(err)
    }
}

} // verus!
