use vstd::prelude::*;
use crate::channel::RequestChannel;
use crate::channel::SendError;
use crate::message::ActionKind;
use crate::message::Outcome;
use crate::message::RequestEnvelope;
use crate::message::overloaded_message;
use crate::message::overloaded_text;
use crate::message::worker_unavailable_message;
use crate::message::worker_unavailable_text;
use crate::reconcile::ReconciliationState;
use crate::reconcile::Slot;

verus! {

/// How many envelopes of one action-kind a queue holds.
pub open spec fn kind_count(q: Seq<RequestEnvelope>, k: ActionKind) -> nat
    decreases q.len(),
{
    if q.len() == 0 {
        0
    } else {
        kind_count(q.drop_last(), k) + if q.last().kind_spec() == k {
            1nat
        } else {
            0nat
        }
    }
}

/// Appending one envelope raises the count of its kind by one and leaves
/// every other kind's count unchanged.
pub proof fn lemma_kind_count_push(q: Seq<RequestEnvelope>, e: RequestEnvelope, k: ActionKind)
    ensures
        kind_count(q.push(e), k) == kind_count(q, k) + if e.kind_spec() == k {
            1nat
        } else {
            0nat
        },
{
    assert(q.push(e).drop_last() =~= q);
    assert(q.push(e).last() == e);
}

/// Removing the oldest envelope lowers the count of its kind by one and
/// leaves every other kind's count unchanged.
pub proof fn lemma_kind_count_remove_first(q: Seq<RequestEnvelope>, k: ActionKind)
    requires
        q.len() > 0,
    ensures
        kind_count(q, k) == kind_count(q.remove(0), k) + if q[0].kind_spec() == k {
            1nat
        } else {
            0nat
        },
    decreases q.len(),
{
    assert(q.remove(0) =~= q.subrange(1, q.len() as int));
    if q.len() == 1 {
        assert(q.remove(0) =~= Seq::<RequestEnvelope>::empty());
        assert(q.drop_last() =~= Seq::<RequestEnvelope>::empty());
        assert(q.last() == q[0]);
    } else {
        let body = q.drop_last();
        lemma_kind_count_remove_first(body, k);
        assert(q.remove(0).drop_last() =~= body.remove(0));
        assert(q.remove(0).last() == q.last());
    }
}

/// The mechanism tying the pieces together: the per-action-kind guard and
/// reconciliation slots on the interactive side, the bounded request channel
/// between the two sides, and a note of which kinds the worker has taken an
/// envelope for and not yet answered.
pub struct Session {
    state: ReconciliationState,
    channel: RequestChannel,
    taken_validate_credential: bool,
}

impl Session {
    /// The envelopes queued in the request channel, oldest first.
    pub closed spec fn queue(self) -> Seq<RequestEnvelope> {
        self.channel.contents()
    }

    /// Whether the request channel has been closed.
    pub closed spec fn closed(self) -> bool {
        self.channel.closed_spec()
    }

    /// The request channel's bound.
    pub closed spec fn cap(self) -> nat {
        self.channel.cap()
    }

    /// The reconciliation slot held for an action-kind.
    pub closed spec fn slot(self, kind: ActionKind) -> Slot {
        self.state.slot(kind)
    }

    /// Whether a request of this kind is outstanding (the in-flight guard).
    pub open spec fn in_flight(self, kind: ActionKind) -> bool {
        self.slot(kind) is Pending
    }

    /// Whether the worker holds a taken, unanswered envelope of this kind.
    pub closed spec fn taken(self, kind: ActionKind) -> bool {
        match kind {
            ActionKind::ValidateCredential => self.taken_validate_credential,
        }
    }

    /// One when the slot of this kind is pending, else zero.
    pub open spec fn pending_n(self, kind: ActionKind) -> nat {
        if self.in_flight(kind) {
            1
        } else {
            0
        }
    }

    /// How many envelopes of this kind are outstanding: queued in the
    /// channel, or taken by the worker and not yet answered.
    pub open spec fn outstanding(self, kind: ActionKind) -> nat {
        kind_count(self.queue(), kind) + if self.taken(kind) {
            1nat
        } else {
            0nat
        }
    }

    /// The guard invariant at one action-kind: a kind is pending exactly as
    /// long as one envelope of that kind is outstanding, so nothing is ever
    /// dropped silently and nothing is ever submitted twice. Once the channel
    /// is closed an outstanding envelope may have been discarded, so only the
    /// upper bound remains.
    pub open spec fn wf_at(self, kind: ActionKind) -> bool {
        &&& self.outstanding(kind) <= self.pending_n(kind)
        &&& !self.closed() ==> self.outstanding(kind) == self.pending_n(kind)
    }

    /// Well-formedness of the whole session.
    pub open spec fn wf(self) -> bool {
        &&& self.queue().len() <= self.cap()
        &&& self.cap() >= 1
        &&& forall|k: ActionKind| #[trigger] self.wf_at(k)
    }

    /// A fresh session: open channel with the given bound, every action-kind
    /// idle, nothing outstanding.
    pub fn new(capacity: usize) -> (s: Self)
        requires
            capacity >= 1,
        ensures
            s.wf(),
            s.queue().len() == 0,
            !s.closed(),
            s.cap() == capacity,
            forall|k: ActionKind| #[trigger] s.slot(k) == Slot::Idle,
            forall|k: ActionKind| !(#[trigger] s.taken(k)),
    {
        Session {
            state: ReconciliationState::new(),
            channel: RequestChannel::new(capacity),
            taken_validate_credential: false,
        }
    }
}

/// Everything the interactive layer and the worker can observe of a session
/// is the same in both.
pub open spec fn same_state(pre: Session, post: Session) -> bool {
    &&& post.queue() == pre.queue()
    &&& post.closed() == pre.closed()
    &&& post.cap() == pre.cap()
    &&& forall|k: ActionKind| #[trigger] post.slot(k) == pre.slot(k)
    &&& forall|k: ActionKind| #[trigger] post.taken(k) == pre.taken(k)
}

/// Exactly what `Session::submit` does, as a relation between the session
/// before and after the call. A pending kind suppresses the submission
/// entirely; a closed channel or a full queue synthesizes a local failure
/// outcome; otherwise the envelope is queued and the kind becomes pending.
pub open spec fn submit_rel(pre: Session, post: Session, envelope: RequestEnvelope) -> bool {
    let k = envelope.kind_spec();
    &&& post.closed() == pre.closed()
    &&& post.cap() == pre.cap()
    &&& forall|j: ActionKind| j != k ==> #[trigger] post.slot(j) == pre.slot(j)
    &&& forall|j: ActionKind| #[trigger] post.taken(j) == pre.taken(j)
    &&& if pre.in_flight(k) {
        &&& post.queue() == pre.queue()
        &&& post.slot(k) == pre.slot(k)
    } else if pre.closed() {
        &&& post.queue() == pre.queue()
        &&& (post.slot(k) matches Slot::Resolved(Outcome::Failure(m)) && m@
            == worker_unavailable_text())
    } else if pre.queue().len() >= pre.cap() {
        &&& post.queue() == pre.queue()
        &&& (post.slot(k) matches Slot::Resolved(Outcome::Failure(m)) && m@ == overloaded_text())
    } else {
        &&& post.queue() == pre.queue().push(envelope)
        &&& post.slot(k) == Slot::Pending
    }
}

impl Session {
    /// Dispatch a request. Called by the interactive layer on a user
    /// gesture; never blocks. If the kind is already in flight the call is a
    /// no-op (the guard suppresses re-submission); if the channel refuses the
    /// envelope a failure outcome is synthesized locally, so the caller never
    /// sees a transport error.
    pub fn submit(&mut self, envelope: RequestEnvelope)
        requires
            old(self).wf(),
        ensures
            final(self).wf(),
            submit_rel(*old(self), *final(self), envelope),
    {
        let k = envelope.kind();
        if self.state.is_pending(k) {
            return ;
        }
        self.state.set_pending(k);
        let sent = self.channel.send(envelope);
        match sent {
            Ok(()) => {
                proof {
                    assert forall|j: ActionKind| #[trigger] final(self).wf_at(j) by {
                        assert(old(self).wf_at(j));
                        lemma_kind_count_push(old(self).queue(), envelope, j);
                    }
                }
            },
            Err(SendError::Closed) => {
                self.state.resolve(k, Outcome::Failure(worker_unavailable_message()));
                proof {
                    assert forall|j: ActionKind| #[trigger] final(self).wf_at(j) by {
                        assert(old(self).wf_at(j));
                    }
                }
            },
            Err(SendError::Full) => {
                self.state.resolve(k, Outcome::Failure(overloaded_message()));
                proof {
                    assert forall|j: ActionKind| #[trigger] final(self).wf_at(j) by {
                        assert(old(self).wf_at(j));
                    }
                }
            },
        }
    }
}

/// Exactly what `Session::worker_take` does, as a relation between the
/// session before and after the call together with the returned envelope:
/// the oldest queued envelope, if any, moves from the channel to the worker.
pub open spec fn take_rel(pre: Session, post: Session, r: Option<RequestEnvelope>) -> bool {
    &&& post.closed() == pre.closed()
    &&& post.cap() == pre.cap()
    &&& forall|j: ActionKind| #[trigger] post.slot(j) == pre.slot(j)
    &&& if pre.queue().len() == 0 {
        &&& r is None
        &&& post.queue() == pre.queue()
        &&& forall|j: ActionKind| #[trigger] post.taken(j) == pre.taken(j)
    } else {
        let e = pre.queue()[0];
        let k = e.kind_spec();
        &&& r == Some(e)
        &&& post.queue() == pre.queue().remove(0)
        &&& post.taken(k)
        &&& forall|j: ActionKind| j != k ==> #[trigger] post.taken(j) == pre.taken(j)
        &&& pre.slot(k) == Slot::Pending
        &&& !pre.taken(k)
    }
}

/// Exactly what `Session::deliver_outcome` does, as a relation between the
/// session before and after the call: the outcome replaces whatever the slot
/// of its kind held, and nothing else changes.
pub open spec fn deliver_rel(pre: Session, post: Session, kind: ActionKind, o: Outcome) -> bool {
    &&& post.queue() == pre.queue()
    &&& post.closed() == pre.closed()
    &&& post.cap() == pre.cap()
    &&& post.slot(kind) == Slot::Resolved(o)
    &&& !post.taken(kind)
    &&& forall|j: ActionKind| j != kind ==> #[trigger] post.slot(j) == pre.slot(j)
    &&& forall|j: ActionKind| j != kind ==> #[trigger] post.taken(j) == pre.taken(j)
}

impl Session {
    /// Record that the worker holds an envelope of this kind.
    fn mark_taken(&mut self, kind: ActionKind, value: bool)
        ensures
            final(self).taken(kind) == value,
            forall|j: ActionKind| j != kind ==> #[trigger] final(self).taken(j) == old(self).taken(
                j,
            ),
            final(self).queue() == old(self).queue(),
            final(self).closed() == old(self).closed(),
            final(self).cap() == old(self).cap(),
            forall|j: ActionKind| #[trigger] final(self).slot(j) == old(self).slot(j),
    {
        match kind {
            ActionKind::ValidateCredential => {
                self.taken_validate_credential = value;
            },
        }
    }

    /// Whether the worker holds a taken, unanswered envelope of this kind.
    pub fn is_taken(&self, kind: ActionKind) -> (b: bool)
        ensures
            b == self.taken(kind),
    {
        match kind {
            ActionKind::ValidateCredential => self.taken_validate_credential,
        }
    }

    /// The worker's receive step: take the oldest queued envelope, if any.
    /// The worker may keep draining after a graceful close. The kind of a
    /// taken envelope is always pending: its outcome is still owed.
    pub fn worker_take(&mut self) -> (r: Option<RequestEnvelope>)
        requires
            old(self).wf(),
        ensures
            final(self).wf(),
            take_rel(*old(self), *final(self), r),
    {
        let received = self.channel.recv();
        match received {
            None => {
                proof {
                    assert forall|j: ActionKind| #[trigger] final(self).wf_at(j) by {
                        assert(old(self).wf_at(j));
                    }
                }
                None
            },
            Some(e) => {
                let k = e.kind();
                proof {
                    assert(old(self).wf_at(k));
                    lemma_kind_count_remove_first(old(self).queue(), k);
                }
                self.mark_taken(k, true);
                proof {
                    assert forall|j: ActionKind| #[trigger] final(self).wf_at(j) by {
                        assert(old(self).wf_at(j));
                        lemma_kind_count_remove_first(old(self).queue(), j);
                    }
                }
                Some(e)
            },
        }
    }

    /// The worker's completion step: write the outcome into the slot of its
    /// kind — record-replace, never append — and clear the in-flight guard.
    /// Requires that any pending request of this kind has actually been taken
    /// by the worker: an outcome never precedes its request.
    pub fn deliver_outcome(&mut self, kind: ActionKind, outcome: Outcome)
        requires
            old(self).wf(),
            old(self).in_flight(kind) ==> old(self).taken(kind),
        ensures
            final(self).wf(),
            deliver_rel(*old(self), *final(self), kind, outcome),
    {
        self.state.resolve(kind, outcome);
        self.mark_taken(kind, false);
        proof {
            assert forall|j: ActionKind| #[trigger] final(self).wf_at(j) by {
                assert(old(self).wf_at(j));
            }
        }
    }

    /// Graceful shutdown from the interactive side: further sends are
    /// refused, queued envelopes remain for the worker to drain.
    pub fn close(&mut self)
        requires
            old(self).wf(),
        ensures
            final(self).wf(),
            final(self).closed(),
            final(self).queue() == old(self).queue(),
            final(self).cap() == old(self).cap(),
            forall|j: ActionKind| #[trigger] final(self).slot(j) == old(self).slot(j),
            forall|j: ActionKind| #[trigger] final(self).taken(j) == old(self).taken(j),
    {
        self.channel.close();
        proof {
            assert forall|j: ActionKind| #[trigger] final(self).wf_at(j) by {
                assert(old(self).wf_at(j));
            }
        }
    }

    /// Termination of the worker side without draining: queued envelopes are
    /// discarded and nothing the worker held will be answered. The slots are
    /// untouched; `reconcile_closed` then resolves what was left pending.
    pub fn worker_disconnect(&mut self)
        requires
            old(self).wf(),
        ensures
            final(self).wf(),
            final(self).closed(),
            final(self).queue().len() == 0,
            final(self).cap() == old(self).cap(),
            forall|j: ActionKind| #[trigger] final(self).slot(j) == old(self).slot(j),
            forall|j: ActionKind| !(#[trigger] final(self).taken(j)),
    {
        self.channel.disconnect();
        self.mark_taken(ActionKind::ValidateCredential, false);
        proof {
            assert forall|j: ActionKind| #[trigger] final(self).wf_at(j) by {
                assert(final(self).queue().len() == 0);
            }
        }
    }

    /// The interactive side's bookkeeping when it observes the channel
    /// closed: a kind left pending with no envelope left to answer it
    /// resolves to a synthesized worker-unavailable failure, so no kind
    /// remains pending forever. Anything still outstanding is left alone:
    /// its outcome is still owed by the draining worker.
    pub fn reconcile_closed(&mut self, kind: ActionKind)
        requires
            old(self).wf(),
        ensures
            final(self).wf(),
            final(self).queue() == old(self).queue(),
            final(self).closed() == old(self).closed(),
            final(self).cap() == old(self).cap(),
            forall|j: ActionKind| j != kind ==> #[trigger] final(self).slot(j) == old(self).slot(
                j,
            ),
            forall|j: ActionKind| #[trigger] final(self).taken(j) == old(self).taken(j),
            ({
                let fire = old(self).closed() && old(self).in_flight(kind) && old(
                    self,
                ).queue().len() == 0 && !old(self).taken(kind);
                if fire {
                    (final(self).slot(kind) matches Slot::Resolved(Outcome::Failure(m)) && m@
                        == worker_unavailable_text())
                } else {
                    final(self).slot(kind) == old(self).slot(kind)
                }
            }),
    {
        let fire = self.channel.is_closed() && self.state.is_pending(kind) && self.channel.len()
            == 0 && !self.is_taken(kind);
        if fire {
            self.state.resolve(kind, Outcome::Failure(worker_unavailable_message()));
        }
        proof {
            assert forall|j: ActionKind| #[trigger] final(self).wf_at(j) by {
                assert(old(self).wf_at(j));
            }
        }
    }

    /// What the interactive layer reads each frame, non-blocking and
    /// non-mutating: whether a request of this kind is in flight, and the
    /// latest outcome if one is available.
    pub fn read_state(&self, kind: ActionKind) -> (r: (bool, Option<&Outcome>))
        ensures
            r.0 == self.in_flight(kind),
            (r.1 is Some) == (self.slot(kind) is Resolved),
            (r.1 matches Some(o) ==> self.slot(kind) == Slot::Resolved(*o)),
    {
        self.state.read(kind)
    }

    /// How many envelopes are queued in the request channel.
    pub fn queue_len(&self) -> (n: usize)
        ensures
            n == self.queue().len(),
    {
        self.channel.len()
    }

    /// Whether the request channel has been closed.
    pub fn is_closed(&self) -> (b: bool)
        ensures
            b == self.closed(),
    {
        self.channel.is_closed()
    }

    /// The request channel's bound.
    pub fn capacity(&self) -> (n: usize)
        ensures
            n == self.cap(),
    {
        self.channel.capacity()
    }
}

/// Law: submitting while a request of the same kind is in flight puts no
/// second envelope into the request channel and changes nothing at all —
/// the guard suppresses re-submission entirely.
pub proof fn lemma_guard_suppresses_resubmission(
    pre: Session,
    post: Session,
    envelope: RequestEnvelope,
)
    requires
        pre.in_flight(envelope.kind_spec()),
        submit_rel(pre, post, envelope),
    ensures
        post.queue() == pre.queue(),
        same_state(pre, post),
{
    assert forall|j: ActionKind| #[trigger] post.slot(j) == pre.slot(j) by {
        if j != envelope.kind_spec() {
            assert(post.slot(j) == pre.slot(j));
        }
    }
}

/// Law: over submit → take → outcome → submit → take → outcome for one
/// action-kind, the slot after the second completion holds exactly the
/// second result and — when the two results differ — nothing of the first:
/// a fresh submission discards the previous result, and outcomes never mix.
pub proof fn lemma_second_result_wins(
    s0: Session,
    s1: Session,
    s2: Session,
    s3: Session,
    s4: Session,
    s5: Session,
    s6: Session,
    e1: RequestEnvelope,
    e2: RequestEnvelope,
    o1: Outcome,
    o2: Outcome,
    kind: ActionKind,
)
    requires
        e1.kind_spec() == kind,
        e2.kind_spec() == kind,
        !s0.in_flight(kind),
        !s0.closed(),
        s0.queue().len() == 0,
        s0.cap() >= 1,
        submit_rel(s0, s1, e1),
        take_rel(s1, s2, Some(e1)),
        deliver_rel(s2, s3, kind, o1),
        submit_rel(s3, s4, e2),
        take_rel(s4, s5, Some(e2)),
        deliver_rel(s5, s6, kind, o2),
    ensures
        s6.slot(kind) == Slot::Resolved(o2),
        o1 != o2 ==> s6.slot(kind) != Slot::Resolved(o1),
{
    assert(s1.queue() == s0.queue().push(e1));
    assert(s2.queue() =~= Seq::<RequestEnvelope>::empty());
    assert(s3.queue().len() == 0);
    assert(!s3.in_flight(kind));
    assert(s4.queue() == s3.queue().push(e2));
}

/// Law: delivering the same outcome a second time to a kind already resolved
/// leaves every observable of the session exactly as the first delivery left
/// it — the slot is record-replace, never append.
pub proof fn lemma_duplicate_delivery_idempotent(
    s0: Session,
    s1: Session,
    s2: Session,
    kind: ActionKind,
    o: Outcome,
)
    requires
        deliver_rel(s0, s1, kind, o),
        deliver_rel(s1, s2, kind, o),
    ensures
        same_state(s1, s2),
{
    assert forall|j: ActionKind| #[trigger] s2.slot(j) == s1.slot(j) by {
        if j != kind {
            assert(s2.slot(j) == s1.slot(j));
        }
    }
    assert forall|j: ActionKind| #[trigger] s2.taken(j) == s1.taken(j) by {
        if j != kind {
            assert(s2.taken(j) == s1.taken(j));
        }
    }
}

/// Law: an accepted envelope rounds the trip to exactly one outcome. After
/// submit → take → deliver, the slot of the envelope's kind holds that one
/// outcome, the channel holds nothing of it, and the worker owes nothing —
/// the eventual delivery (or an observed closure, handled by
/// `Session::reconcile_closed`) is the host's one remaining duty.
pub proof fn lemma_round_trip(
    s0: Session,
    s1: Session,
    s2: Session,
    s3: Session,
    e: RequestEnvelope,
    o: Outcome,
    kind: ActionKind,
)
    requires
        e.kind_spec() == kind,
        !s0.in_flight(kind),
        !s0.closed(),
        s0.queue().len() == 0,
        s0.cap() >= 1,
        submit_rel(s0, s1, e),
        take_rel(s1, s2, Some(e)),
        deliver_rel(s2, s3, kind, o),
    ensures
        s3.slot(kind) == Slot::Resolved(o),
        kind_count(s3.queue(), kind) == 0,
        !s3.taken(kind),
        !s3.in_flight(kind),
{
    assert(s1.queue() == s0.queue().push(e));
    assert(s3.queue() =~= Seq::<RequestEnvelope>::empty());
}

/// Law: while the channel is open, a pending action-kind has exactly one
/// envelope outstanding — queued in the channel or taken by the worker — and
/// a kind that is not pending has none. No accepted request is silently
/// dropped, and none is duplicated; its outcome is owed until delivered.
pub proof fn lemma_pending_has_one_outstanding(s: Session, kind: ActionKind)
    requires
        s.wf(),
        !s.closed(),
    ensures
        s.outstanding(kind) == s.pending_n(kind),
        s.in_flight(kind) ==> s.outstanding(kind) == 1,
        !s.in_flight(kind) ==> s.outstanding(kind) == 0,
{
    assert(s.wf_at(kind));
}

} // verus!
