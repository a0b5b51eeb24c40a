use dispatch_core::channel::{RequestChannel, SendError};
use dispatch_core::message::{
    overloaded_message, worker_unavailable_message, ActionKind, Outcome, RequestEnvelope,
};
use dispatch_core::session::Session;
use dispatch_core::worker::handler_outcome;

fn envelope(key: &str) -> RequestEnvelope {
    RequestEnvelope::ValidateCredential { api_key: key.to_owned() }
}

/// The channel delivers envelopes in arrival order.
#[test]
fn channel_is_first_in_first_out() {
    let mut c = RequestChannel::new(4);
    assert_eq!(c.len(), 0);
    assert!(c.send(envelope("sk_1")).is_ok());
    assert!(c.send(envelope("sk_2")).is_ok());
    assert_eq!(c.len(), 2);

    let first = c.recv().expect("two envelopes queued");
    let second = c.recv().expect("one envelope left");
    assert_eq!(first.credential(), "sk_1");
    assert_eq!(second.credential(), "sk_2");
    assert!(c.recv().is_none());
}

/// A send beyond the bound is refused without blocking.
#[test]
fn full_channel_refuses_send() {
    let mut c = RequestChannel::new(1);
    assert!(c.send(envelope("sk_1")).is_ok());
    assert_eq!(c.send(envelope("sk_2")), Err(SendError::Full));
    assert_eq!(c.len(), 1);
}

/// A send on a closed channel is refused, and queued envelopes survive a
/// graceful close but not a worker disconnect.
#[test]
fn closed_channel_refuses_send() {
    let mut c = RequestChannel::new(4);
    assert!(c.send(envelope("sk_1")).is_ok());
    c.close();
    assert!(c.is_closed());
    assert_eq!(c.send(envelope("sk_2")), Err(SendError::Closed));
    assert_eq!(c.len(), 1);

    c.disconnect();
    assert_eq!(c.len(), 0);
    assert!(c.recv().is_none());
}

/// A session reports its channel's bound and emptiness.
#[test]
fn session_reports_channel_state() {
    let mut s = Session::new(1);
    assert_eq!(s.capacity(), 1);
    assert_eq!(s.queue_len(), 0);
    assert!(!s.is_closed());
    s.submit(envelope("sk_1"));
    assert_eq!(s.queue_len(), 1);
    let taken = s.worker_take().expect("one envelope");
    s.deliver_outcome(taken.kind(), handler_outcome(Ok("user_42".to_owned())));
    assert_eq!(s.queue_len(), 0);
}

/// Handler results map one-to-one onto outcomes.
#[test]
fn handler_outcome_maps_results() {
    assert_eq!(
        handler_outcome(Ok("user_42".to_owned())),
        Outcome::Success("user_42".to_owned())
    );
    assert_eq!(
        handler_outcome(Err("invalid key".to_owned())),
        Outcome::Failure("invalid key".to_owned())
    );
}

/// Envelopes expose their kind and payload.
#[test]
fn envelope_kind_and_payload() {
    let e = envelope("sk_abc");
    assert_eq!(e.kind(), ActionKind::ValidateCredential);
    assert_eq!(e.credential(), "sk_abc");
}

/// The synthesized transport-failure messages are fixed.
#[test]
fn synthesized_messages_are_fixed() {
    assert_eq!(worker_unavailable_message(), "worker unavailable");
    assert_eq!(overloaded_message(), "overloaded");
}
