//! The error taxonomy of the runtime core.
//!
//! Configuration errors (missing DNA, zome or function) mean the caller is
//! misconfigured; authorization errors mean a capability check failed;
//! infrastructure errors (uninitialized state, closed action channel) are
//! fatal to the instance.  Absence of a value (a missing grant, a missing
//! entry) is encoded as `false` or `None`, never as an error.

use vstd::prelude::*;

verus! {

/// Every failure the runtime core can surface.
#[derive(Debug, PartialEq, Eq)]
pub enum HolochainError {
    /// A failure described only by a message (infrastructure conditions such
    /// as "Context not initialized" or "Network not initialized").
    ErrorGeneric(String),
    /// No DNA has been installed in the instance.
    DnaMissing,
    /// The DNA exists but the named zome or function does not; the payload
    /// names what was missing.
    Dna(String),
    /// The capability request did not authorize the call.
    CapabilityCheckFailed,
    /// The action-dispatch channel was observed closed.
    ActionChannelClosed,
}

/// The mathematical content of a [`HolochainError`].
pub enum ErrorModel {
    ErrorGeneric(Seq<char>),
    DnaMissing,
    Dna(Seq<char>),
    CapabilityCheckFailed,
    ActionChannelClosed,
}

impl View for HolochainError {
    type V = ErrorModel;

    open spec fn view(&self) -> ErrorModel {
        match self {
            HolochainError::ErrorGeneric(msg) => ErrorModel::ErrorGeneric(msg@),
            HolochainError::DnaMissing => ErrorModel::DnaMissing,
            HolochainError::Dna(msg) => ErrorModel::Dna(msg@),
            HolochainError::CapabilityCheckFailed => ErrorModel::CapabilityCheckFailed,
            HolochainError::ActionChannelClosed => ErrorModel::ActionChannelClosed,
        }
    }
}

impl DeepView for HolochainError {
    type V = ErrorModel;

    open spec fn deep_view(&self) -> ErrorModel {
        self@
    }
}

/// The view of an ok/error result carrying JSON out or an error.
pub open spec fn result_view(r: Result<crate::json::JsonString, HolochainError>) -> Result<
    Seq<char>,
    ErrorModel,
> {
    match r {
        Ok(v) => Ok(v@),
        Err(e) => Err(e@),
    }
}

impl HolochainError {
    /// The descriptive message of the error, as surfaced to callers.
    pub fn describe(&self) -> (r: String)
        ensures
            r@ == self.describe_spec(),
    {
        match self {
            HolochainError::ErrorGeneric(msg) => msg.clone(),
            HolochainError::DnaMissing => String::from_str("DNA is missing"),
            HolochainError::Dna(msg) => msg.clone(),
            HolochainError::CapabilityCheckFailed => String::from_str("Capability check failed"),
            HolochainError::ActionChannelClosed => String::from_str("Action channel closed"),
        }
    }

    /// What [`Self::describe`] returns for each variant.
    pub open spec fn describe_spec(&self) -> Seq<char> {
        match self {
            HolochainError::ErrorGeneric(msg) => msg@,
            HolochainError::DnaMissing => "DNA is missing"@,
            HolochainError::Dna(msg) => msg@,
            HolochainError::CapabilityCheckFailed => "Capability check failed"@,
            HolochainError::ActionChannelClosed => "Action channel closed"@,
        }
    }
}

impl Clone for HolochainError {
    fn clone(&self) -> (r: Self)
        ensures
            r == *self,
    {
        match self {
            HolochainError::ErrorGeneric(msg) => HolochainError::ErrorGeneric(msg.clone()),
            HolochainError::DnaMissing => HolochainError::DnaMissing,
            HolochainError::Dna(msg) => HolochainError::Dna(msg.clone()),
            HolochainError::CapabilityCheckFailed => HolochainError::CapabilityCheckFailed,
            HolochainError::ActionChannelClosed => HolochainError::ActionChannelClosed,
        }
    }
}

/// The usual result type of the runtime core.
pub type HcResult<T> = Result<T, HolochainError>;

} // verus!
