use vstd::prelude::*;

verus! {

/// The kinds of failure that the lifecycle engine reports to its caller.
#[derive(PartialEq, Eq, Structural, Clone, Copy, Debug)]
pub enum LDNError {
    /// No document at the expected location.
    NotFound,
    /// The document's bytes do not parse into an application.
    CorruptDocument,
    /// The event is not accepted in the application's current state, or the
    /// referenced allocation request is not the active one.
    InvalidTransition,
    /// The conditional write was rejected: the document changed since it was read.
    VersionConflict,
    /// An application already exists for this id.
    AlreadyExists,
    /// Any other failure of the remote store.
    AdapterError,
}

/// The human-readable reason given for each kind of failure.
pub open spec fn reason_of(e: LDNError) -> Seq<char> {
    match e {
        LDNError::NotFound => "no document at the expected location"@,
        LDNError::CorruptDocument => "the document does not parse into an application"@,
        LDNError::InvalidTransition => "the application's current state does not accept this event"@,
        LDNError::VersionConflict => "the document changed since it was read"@,
        LDNError::AlreadyExists => "an application already exists for this id"@,
        LDNError::AdapterError => "the remote store failed"@,
    }
}

impl LDNError {
    /// A human-readable reason for the failure.
    pub fn reason(&self) -> (r: String)
        ensures
            r@ == reason_of(*self),
    {
        match self {
            LDNError::NotFound => String::from_str("no document at the expected location"),
            LDNError::CorruptDocument => String::from_str(
                "the document does not parse into an application",
            ),
            LDNError::InvalidTransition => String::from_str(
                "the application's current state does not accept this event",
            ),
            LDNError::VersionConflict => String::from_str("the document changed since it was read"),
            LDNError::AlreadyExists => String::from_str("an application already exists for this id"),
            LDNError::AdapterError => String::from_str("the remote store failed"),
        }
    }
}

} // verus!
