use vstd::prelude::*;

verus! {

/// The closed set of action-kinds the interactive layer may dispatch.
/// Each kind has its own in-flight guard and reconciliation slot.
#[derive(Clone, Copy, PartialEq, Eq, Structural, Debug)]
pub enum ActionKind {
    ValidateCredential,
}

/// A typed, immutable request value carrying an action's inputs. Ownership
/// transfers to the channel (and then to the worker) on send.
pub enum RequestEnvelope {
    ValidateCredential { api_key: String },
}

impl RequestEnvelope {
    /// The action-kind this envelope belongs to.
    pub open spec fn kind_spec(self) -> ActionKind {
        match self {
            RequestEnvelope::ValidateCredential { .. } => ActionKind::ValidateCredential,
        }
    }

    /// The action-kind this envelope belongs to.
    pub fn kind(&self) -> (k: ActionKind)
        ensures
            k == self.kind_spec(),
    {
        match self {
            RequestEnvelope::ValidateCredential { .. } => ActionKind::ValidateCredential,
        }
    }

    /// The input payload carried by a credential-validation request.
    pub fn credential(&self) -> (s: &String)
        ensures
            (*self matches RequestEnvelope::ValidateCredential { api_key } && *s == api_key),
    {
        match self {
            RequestEnvelope::ValidateCredential { api_key } => api_key,
        }
    }
}

/// The terminal result of processing one envelope: an identity confirmation
/// on success, or an error description on failure. Produced exactly once per
/// accepted envelope and immutable once constructed.
#[derive(PartialEq, Eq, Debug)]
pub enum Outcome {
    Success(String),
    Failure(String),
}

/// Text of the failure synthesized when the worker side of the channel has
/// terminated and a request can no longer be transmitted or answered.
pub open spec fn worker_unavailable_text() -> Seq<char> {
    "worker unavailable"@
}

/// The failure message synthesized locally when the channel is closed, so
/// the interactive layer needs no distinct error path for transport failure.
pub fn worker_unavailable_message() -> (s: String)
    ensures
        s@ == worker_unavailable_text(),
{
    "worker unavailable".to_owned()
}

/// Text of the failure synthesized when a send would exceed the channel's
/// capacity: back-pressure is reported, never allowed to block a frame.
pub open spec fn overloaded_text() -> Seq<char> {
    "overloaded"@
}

/// The failure message synthesized locally when the bounded channel is full.
pub fn overloaded_message() -> (s: String)
    ensures
        s@ == overloaded_text(),
{
    "overloaded".to_owned()
}

} // verus!
