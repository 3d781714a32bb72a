//! A client-side session layer for a message-streaming broker.
//!
//! The host application drives connections, producers and consumers through
//! integer handles and a small set of scalar parameter kinds.  This crate
//! holds the verified session logic: the handle registry, the deferred
//! builder state machines, the consumer offset-resolution rule, the producer
//! batch-confirmation ordering, and the property codec.  The asynchronous
//! broker client itself is driven by the surrounding, unverified shell.

pub mod codec;
pub mod consumer;
pub mod environment_builder;
pub mod environments;
pub mod error;
pub mod producer;
pub mod text;
