use vstd::prelude::*;
use crate::message::ActionKind;
use crate::message::Outcome;

verus! {

/// The reconciliation state of one action-kind. The tagged form makes the
/// illegal state "in flight with a fresh, unconsumed outcome" unrepresentable:
/// a fresh submission discards the previous result rather than queuing it.
pub enum Slot {
    /// No request outstanding and no result to show.
    Idle,
    /// A request was submitted and its outcome has not arrived yet. This is
    /// the in-flight guard: no second submission of the same kind is accepted
    /// while a slot is pending.
    Pending,
    /// The latest outcome, available for display; no request outstanding.
    Resolved(Outcome),
}

/// Per-action-kind reconciliation state: the latest known slot for each
/// action-kind, written by the worker's completion path and read every frame
/// by the interactive layer.
pub struct ReconciliationState {
    validate_credential: Slot,
}

impl ReconciliationState {
    /// The slot currently held for an action-kind.
    pub closed spec fn slot(self, kind: ActionKind) -> Slot {
        match kind {
            ActionKind::ValidateCredential => self.validate_credential,
        }
    }

    /// Whether a request of this kind is outstanding.
    pub open spec fn in_flight(self, kind: ActionKind) -> bool {
        self.slot(kind) is Pending
    }

    /// A fresh state: every action-kind idle, nothing to show.
    pub fn new() -> (s: Self)
        ensures
            forall|k: ActionKind| #[trigger] s.slot(k) == Slot::Idle,
    {
        ReconciliationState { validate_credential: Slot::Idle }
    }

    /// Whether a request of this kind is outstanding.
    pub fn is_pending(&self, kind: ActionKind) -> (b: bool)
        ensures
            b == self.in_flight(kind),
    {
        match kind {
            ActionKind::ValidateCredential => matches!(self.validate_credential, Slot::Pending),
        }
    }

    /// Mark a request of this kind outstanding, discarding any stale outcome.
    pub fn set_pending(&mut self, kind: ActionKind)
        ensures
            final(self).slot(kind) == Slot::Pending,
            forall|j: ActionKind| j != kind ==> #[trigger] final(self).slot(j) == old(self).slot(j),
    {
        match kind {
            ActionKind::ValidateCredential => {
                self.validate_credential = Slot::Pending;
            },
        }
    }

    /// Record the outcome for this kind, replacing whatever the slot held.
    pub fn resolve(&mut self, kind: ActionKind, outcome: Outcome)
        ensures
            final(self).slot(kind) == Slot::Resolved(outcome),
            forall|j: ActionKind| j != kind ==> #[trigger] final(self).slot(j) == old(self).slot(j),
    {
        match kind {
            ActionKind::ValidateCredential => {
                self.validate_credential = Slot::Resolved(outcome);
            },
        }
    }

    /// What the interactive layer reads each frame: whether a request is in
    /// flight, and the latest outcome if one is available.
    pub fn read(&self, kind: ActionKind) -> (r: (bool, Option<&Outcome>))
        ensures
            r.0 == self.in_flight(kind),
            (r.1 is Some) == (self.slot(kind) is Resolved),
            (r.1 matches Some(o) ==> self.slot(kind) == Slot::Resolved(*o)),
    {
        match kind {
            ActionKind::ValidateCredential => {
                match &self.validate_credential {
                    Slot::Idle => (false, None),
                    Slot::Pending => (true, None),
                    Slot::Resolved(outcome) => (false, Some(outcome)),
                }
            },
        }
    }
}

} // verus!
