use dispatch_core::message::{ActionKind, Outcome, RequestEnvelope};
use dispatch_core::session::Session;
use dispatch_core::worker::handler_outcome;

fn envelope(key: &str) -> RequestEnvelope {
    RequestEnvelope::ValidateCredential { api_key: key.to_owned() }
}

const KIND: ActionKind = ActionKind::ValidateCredential;

/// A failed validation clears the guard and shows the failure.
#[test]
fn failure_reconciles_to_inline_message() {
    let mut s = Session::new(8);
    s.submit(envelope("sk_bad"));
    let (in_flight, last) = s.read_state(KIND);
    assert!(in_flight);
    assert!(last.is_none());

    let taken = s.worker_take().expect("one envelope was queued");
    assert_eq!(taken.credential(), "sk_bad");
    s.deliver_outcome(taken.kind(), handler_outcome(Err("invalid key".to_owned())));

    let (in_flight, last) = s.read_state(KIND);
    assert!(!in_flight);
    assert_eq!(last, Some(&Outcome::Failure("invalid key".to_owned())));
}

/// A successful validation clears the guard and shows the identity.
#[test]
fn success_reconciles_to_identity() {
    let mut s = Session::new(8);
    s.submit(envelope("sk_good"));

    let taken = s.worker_take().expect("one envelope was queued");
    assert_eq!(taken.credential(), "sk_good");
    s.deliver_outcome(taken.kind(), handler_outcome(Ok("user_42".to_owned())));

    let (in_flight, last) = s.read_state(KIND);
    assert!(!in_flight);
    assert_eq!(last, Some(&Outcome::Success("user_42".to_owned())));
}

/// Submitting again before the worker responds is a no-op: the channel
/// receives exactly one envelope.
#[test]
fn resubmission_while_pending_is_suppressed() {
    let mut s = Session::new(8);
    s.submit(envelope("sk_x"));
    assert_eq!(s.queue_len(), 1);

    s.submit(envelope("sk_x"));
    assert_eq!(s.queue_len(), 1);

    let first = s.worker_take().expect("exactly one envelope was queued");
    assert_eq!(first.credential(), "sk_x");
    assert!(s.worker_take().is_none());
}

/// Closing the channel while an envelope is outstanding resolves the kind to
/// a worker-unavailable failure rather than leaving it pending forever.
#[test]
fn close_with_outstanding_envelope_resolves() {
    let mut s = Session::new(8);
    s.submit(envelope("sk_x"));
    let (in_flight, _) = s.read_state(KIND);
    assert!(in_flight);

    s.worker_disconnect();
    s.reconcile_closed(KIND);

    let (in_flight, last) = s.read_state(KIND);
    assert!(!in_flight);
    assert_eq!(last, Some(&Outcome::Failure("worker unavailable".to_owned())));
}

/// After submit, outcome, and a second submit, the state reflects only the
/// second result.
#[test]
fn second_submission_discards_first_result() {
    let mut s = Session::new(8);

    s.submit(envelope("sk_one"));
    let taken = s.worker_take().expect("first envelope");
    s.deliver_outcome(taken.kind(), handler_outcome(Err("invalid key".to_owned())));

    s.submit(envelope("sk_two"));
    let (in_flight, last) = s.read_state(KIND);
    assert!(in_flight);
    assert!(last.is_none(), "a fresh submission discards the stale outcome");

    let taken = s.worker_take().expect("second envelope");
    assert_eq!(taken.credential(), "sk_two");
    s.deliver_outcome(taken.kind(), handler_outcome(Ok("user_42".to_owned())));

    let (in_flight, last) = s.read_state(KIND);
    assert!(!in_flight);
    assert_eq!(last, Some(&Outcome::Success("user_42".to_owned())));
}

/// Delivering the same outcome twice leaves the state as one delivery left
/// it: record-replace, not append.
#[test]
fn duplicate_delivery_is_idempotent() {
    let mut s = Session::new(8);
    s.submit(envelope("sk_x"));
    let taken = s.worker_take().expect("one envelope");
    s.deliver_outcome(taken.kind(), Outcome::Success("user_42".to_owned()));
    s.deliver_outcome(KIND, Outcome::Success("user_42".to_owned()));

    let (in_flight, last) = s.read_state(KIND);
    assert!(!in_flight);
    assert_eq!(last, Some(&Outcome::Success("user_42".to_owned())));
    assert_eq!(s.queue_len(), 0);
}

/// Every accepted envelope yields exactly one outcome: submit, take, deliver
/// leaves nothing queued and nothing pending.
#[test]
fn round_trip_yields_exactly_one_outcome() {
    let mut s = Session::new(8);
    s.submit(envelope("sk_x"));
    assert_eq!(s.queue_len(), 1);

    let taken = s.worker_take().expect("the envelope is there");
    assert_eq!(s.queue_len(), 0);
    assert!(s.worker_take().is_none(), "no duplicate envelope exists");

    s.deliver_outcome(taken.kind(), handler_outcome(Ok("user_42".to_owned())));
    let (in_flight, last) = s.read_state(KIND);
    assert!(!in_flight);
    assert!(last.is_some());
}

/// A submission on an already-closed channel synthesizes the transport
/// failure locally instead of reporting a distinct error path.
#[test]
fn submit_on_closed_channel_fails_locally() {
    let mut s = Session::new(8);
    s.close();
    s.submit(envelope("sk_x"));

    let (in_flight, last) = s.read_state(KIND);
    assert!(!in_flight);
    assert_eq!(last, Some(&Outcome::Failure("worker unavailable".to_owned())));
    assert_eq!(s.queue_len(), 0);
}

/// A graceful close still lets the worker drain what was queued.
#[test]
fn graceful_close_lets_worker_drain() {
    let mut s = Session::new(8);
    s.submit(envelope("sk_x"));
    s.close();
    assert!(s.is_closed());
    assert_eq!(s.queue_len(), 1);

    let taken = s.worker_take().expect("queued envelope survives a close");
    s.deliver_outcome(taken.kind(), handler_outcome(Ok("user_42".to_owned())));
    let (_, last) = s.read_state(KIND);
    assert_eq!(last, Some(&Outcome::Success("user_42".to_owned())));
}

/// Reconciliation does not fire while the outcome is still owed: a taken
/// envelope's kind stays pending across a close until the worker answers.
#[test]
fn reconcile_leaves_taken_work_pending() {
    let mut s = Session::new(8);
    s.submit(envelope("sk_x"));
    let taken = s.worker_take().expect("one envelope");
    s.close();
    s.reconcile_closed(KIND);

    let (in_flight, last) = s.read_state(KIND);
    assert!(in_flight, "the draining worker still owes the outcome");
    assert!(last.is_none());

    s.deliver_outcome(taken.kind(), handler_outcome(Ok("user_42".to_owned())));
    let (in_flight, last) = s.read_state(KIND);
    assert!(!in_flight);
    assert_eq!(last, Some(&Outcome::Success("user_42".to_owned())));
}
