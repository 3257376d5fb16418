//! The broker's error taxonomy, and the coarse error type that embeddings of
//! the broker report outward.

use vstd::prelude::*;

verus! {

/// Outcome of a broker operation that did not go through.
///
/// None of these is fatal: each names an expected result of concurrent use,
/// and the registry's state stays sound whenever one is returned.
#[derive(Debug, Clone, Copy, PartialEq, Eq, Structural)]
pub enum BrokerError {
    /// `subscribe` found the identifier already pending; the existing entry
    /// is left untouched and the caller must pick a fresh identifier.
    AlreadyRegistered,
    /// `send` found no entry: the identifier was never registered, was
    /// already delivered to, or was cancelled. The three are indistinguishable
    /// by design, since the registry keeps no history.
    NotFound,
    /// The consumer end was abandoned before delivery could happen.
    ChannelClosed,
    /// The consumer-side wait exceeded its bound; the consumer should then
    /// cancel its registration.
    Timeout,
    /// A second delivery into the same single-use slot was attempted. Under
    /// correct registry use this is unreachable, and it is kept as a
    /// defensive guard.
    AlreadyFulfilled,
}

/// Coarse error carried at the boundary of an embedding: a single variant
/// holding a human-readable description.
#[derive(Debug)]
pub enum TrainingError {
    Simple(String),
}

/// The description that `describe` and `into_training` report for each
/// broker error.
pub open spec fn describe_spec(e: BrokerError) -> Seq<char> {
    match e {
        BrokerError::AlreadyRegistered => "correlation id already registered"@,
        BrokerError::NotFound => "no pending entry for this correlation id"@,
        BrokerError::ChannelClosed => "consumer side gone before delivery"@,
        BrokerError::Timeout => "wait elapsed before delivery"@,
        BrokerError::AlreadyFulfilled => "second delivery into a single-use slot"@,
    }
}

impl BrokerError {
    /// A human-readable description of the error.
    pub fn describe(&self) -> (s: String)
        ensures
            s@ == describe_spec(*self),
    {
        match self {
            BrokerError::AlreadyRegistered => "correlation id already registered".to_owned(),
            BrokerError::NotFound => "no pending entry for this correlation id".to_owned(),
            BrokerError::ChannelClosed => "consumer side gone before delivery".to_owned(),
            BrokerError::Timeout => "wait elapsed before delivery".to_owned(),
            BrokerError::AlreadyFulfilled => "second delivery into a single-use slot".to_owned(),
        }
    }

    /// The same error as the coarse boundary type, keeping its description.
    pub fn into_training(self) -> (t: TrainingError)
        ensures
            t matches TrainingError::Simple(m) && m@ == describe_spec(self),
    {
        TrainingError::Simple(self.describe())
    }
}

} // verus!
