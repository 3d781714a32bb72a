//! The error taxonomy shared by every session kind.

use vstd::prelude::*;

verus! {

/// Everything a session operation can fail with.
///
/// A failed call leaves previously built state intact; the surrounding shell
/// records the error as the session's last-error value.
#[derive(Clone, Debug)]
pub enum SessionError {
    /// A configuration setter ran after the accumulator was consumed.
    SpentBuilder,
    /// `build` ran a second time on an already consumed accumulator.
    AlreadyBuilt,
    /// A connection-dependent operation ran before a connection was built.
    NoConnection,
    /// A producer operation ran before the producer was built.
    NoProducer,
    /// A consumer operation ran before the consumer was built.
    NoConsumer,
    /// A delivery-dependent read ran before any delivery was received.
    NoMessage,
    /// The broker closed the delivery stream; fatal for that consumer.
    StreamClosed,
    /// A batch send completed but at least one message was rejected.
    NotAllDelivered,
    /// A property value is unsupported or cannot be marshaled.
    CodecError,
    /// An opaque failure reported by the broker client.
    Broker(String),
}

/// The diagnostic text of each error, as the host sees it.
pub open spec fn message_of(e: SessionError) -> Seq<char> {
    match e {
        SessionError::SpentBuilder => "Parameter cannot be set"@,
        SessionError::AlreadyBuilt => "Already built"@,
        SessionError::NoConnection => "Environment not build"@,
        SessionError::NoProducer => "No producer"@,
        SessionError::NoConsumer => "No consumer"@,
        SessionError::NoMessage => "No message"@,
        SessionError::StreamClosed => "Stream closed"@,
        SessionError::NotAllDelivered => "Not delivered"@,
        SessionError::CodecError => "Unsupported property value"@,
        SessionError::Broker(s) => s@,
    }
}

impl SessionError {
    /// Renders the error for the host's last-error property.
    pub fn message(&self) -> (r: String)
        ensures
            r@ == message_of(*self),
    {
        match self {
            SessionError::SpentBuilder => String::from_str("Parameter cannot be set"),
            SessionError::AlreadyBuilt => String::from_str("Already built"),
            SessionError::NoConnection => String::from_str("Environment not build"),
            SessionError::NoProducer => String::from_str("No producer"),
            SessionError::NoConsumer => String::from_str("No consumer"),
            SessionError::NoMessage => String::from_str("No message"),
            SessionError::StreamClosed => String::from_str("Stream closed"),
            SessionError::NotAllDelivered => String::from_str("Not delivered"),
            SessionError::CodecError => String::from_str("Unsupported property value"),
            SessionError::Broker(s) => String::from_str(s.as_str()),
        }
    }
}

} // verus!
