use vstd::prelude::*;

use crate::ids::{CorrelationId, Principal};
use crate::wordle::WORD_LENGTH;

verus! {

/// The two steps that a principal can wait on.
#[derive(Clone, Copy, Debug, PartialEq, Eq, Structural)]
pub enum Step {
    Start,
    Check,
}

/// An outstanding call to the responder: who issued it, which parked request
/// resumes on its reply, and for which step.
#[derive(Clone, Copy, Debug, PartialEq, Eq, Structural)]
pub struct PendingCall {
    pub principal: Principal,
    pub origin_id: CorrelationId,
    pub step: Step,
}

/// Why a request of a principal is refused.
#[derive(Clone, Copy, Debug, PartialEq, Eq, Structural)]
pub enum SessionError {
    /// A guess came before any game was started.
    GameNotStarted,
    /// A guess does not have `WORD_LENGTH` letters.
    InvalidGuessLength,
    /// The principal already has a request in flight.
    SessionBusy,
    /// A parked request came back before its reply did.
    DownstreamTimeout,
    /// The identifier given to a new call already names an outstanding one.
    CorrelationInUse,
}

/// Why a reply of the responder is dropped.
#[derive(Clone, Copy, Debug, PartialEq, Eq, Structural)]
pub enum Anomaly {
    /// No outstanding call has that identifier.
    StaleCorrelation,
    /// The reply names another principal than the one that made the call.
    ForeignPrincipal,
    /// The reply does not answer the step that the call was made for.
    UnexpectedReply,
}

/// What becomes of a reply of the responder.
#[derive(Clone, Copy, Debug, PartialEq, Eq, Structural)]
pub enum ReplyOutcome {
    /// The reply was recorded; the parked request with this identifier resumes.
    Resume(CorrelationId),
    /// The reply was dropped and changed nothing.
    Dropped(Anomaly),
}

/// The state of a principal's session, as a value.
pub enum StatusView {
    Idle,
    AwaitingStart { origin_id: CorrelationId, call_id: CorrelationId },
    StartReady { origin_id: CorrelationId },
    AwaitingCheck { origin_id: CorrelationId, call_id: CorrelationId },
    CheckReady { origin_id: CorrelationId, correct: Seq<u8>, contained: Seq<u8> },
}

/// A principal's record, as a value.
pub struct RecordView {
    pub status: StatusView,
    pub attempts: Seq<Seq<char>>,
    pub started: bool,
}

/// A request of a principal, as a value.
pub enum ActionView {
    StartGame { user: Principal },
    CheckWord { user: Principal, word: Seq<char> },
}

/// A reply of the responder, as a value.
pub enum EventView {
    GameStarted { user: Principal },
    WordChecked { user: Principal, correct: Seq<u8>, contained: Seq<u8> },
    UserWin { user: Principal },
}

/// An outcome for a principal, as a value.
pub enum SessionEventView {
    GameStarted { user: Principal },
    WordChecked { user: Principal, correct: Seq<u8>, contained: Seq<u8> },
    UserWon { user: Principal },
    UserLost { user: Principal },
}

/// What the engine asks of its host after a request, as a value.
pub enum HandledView {
    Dispatch(ActionView),
    Reply(SessionEventView),
    Rejected(SessionError),
    /// A request that has already been completed came back: nothing to do.
    Ignored,
}

/// The whole session, as a value.
pub struct SessionView {
    pub wordle: Principal,
    pub max_play_times: u32,
    pub records: Map<Principal, RecordView>,
    pub pending: Map<CorrelationId, PendingCall>,
    /// The last inbound message of each principal whose request was completed.
    pub completed: Map<Principal, CorrelationId>,
}

/// The inbound message that a status holds parked, if any.
pub open spec fn parked_origin(s: StatusView) -> Option<CorrelationId> {
    match s {
        StatusView::Idle => None,
        StatusView::AwaitingStart { origin_id, .. } => Some(origin_id),
        StatusView::StartReady { origin_id } => Some(origin_id),
        StatusView::AwaitingCheck { origin_id, .. } => Some(origin_id),
        StatusView::CheckReady { origin_id, .. } => Some(origin_id),
    }
}

/// The record of a principal that has none: idle, no game, no attempts.
pub open spec fn fresh_record() -> RecordView {
    RecordView { status: StatusView::Idle, attempts: Seq::empty(), started: false }
}

pub open spec fn reply_user(e: EventView) -> Principal {
    match e {
        EventView::GameStarted { user } => user,
        EventView::WordChecked { user, .. } => user,
        EventView::UserWin { user } => user,
    }
}

impl SessionView {
    /// The record of `p`; a missing record is a fresh one.
    pub open spec fn record(self, p: Principal) -> RecordView {
        if self.records.contains_key(p) {
            self.records[p]
        } else {
            fresh_record()
        }
    }

    pub open spec fn put(self, p: Principal, r: RecordView) -> SessionView {
        SessionView { records: self.records.insert(p, r), ..self }
    }

    pub open spec fn drop_record(self, p: Principal) -> SessionView {
        SessionView { records: self.records.remove(p), ..self }
    }

    pub open spec fn register(self, c: CorrelationId, call: PendingCall) -> SessionView {
        SessionView { pending: self.pending.insert(c, call), ..self }
    }

    pub open spec fn unregister(self, c: CorrelationId) -> SessionView {
        SessionView { pending: self.pending.remove(c), ..self }
    }

    /// Whether `p` has an outstanding call.
    pub open spec fn in_flight(self, p: Principal) -> bool {
        exists|c: CorrelationId| #[trigger]
            self.pending.contains_key(c) && self.pending[c].principal == p
    }

    /// Marks `origin` as the last completed request of `user`.
    pub open spec fn finish(self, user: Principal, origin: CorrelationId) -> SessionView {
        SessionView { completed: self.completed.insert(user, origin), ..self }
    }

    /// A request of `user`, carried by the inbound message `origin`: either it
    /// is the principal's parked request, which is completed now; or it is one
    /// already completed, which is ignored; or it is judged afresh.
    pub open spec fn handle(self, user: Principal, origin: CorrelationId, a: ActionView) -> (
        SessionView,
        HandledView,
    ) {
        let rec = self.record(user);
        match parked_origin(rec.status) {
            Some(o) => if o == origin {
                let (n, out) = self.complete_parked(user);
                (n.finish(user, origin), out)
            } else {
                (self, HandledView::Rejected(SessionError::SessionBusy))
            },
            None => if self.completed.contains_key(user) && self.completed[user] == origin {
                (self, HandledView::Ignored)
            } else {
                match a {
                    ActionView::StartGame { .. } => (
                        self,
                        HandledView::Dispatch(ActionView::StartGame { user }),
                    ),
                    ActionView::CheckWord { word, .. } => if !rec.started {
                        (self, HandledView::Rejected(SessionError::GameNotStarted))
                    } else if word.len() != WORD_LENGTH {
                        (self, HandledView::Rejected(SessionError::InvalidGuessLength))
                    } else {
                        (self, HandledView::Dispatch(ActionView::CheckWord { user, word }))
                    },
                }
            },
        }
    }

    /// Completes the parked request of `user`: a start or a guess whose reply
    /// has landed is answered, and one still waiting times out.
    pub open spec fn complete_parked(self, user: Principal) -> (SessionView, HandledView) {
        let rec = self.record(user);
        match rec.status {
            StatusView::StartReady { .. } => (
                self.put(user, RecordView { status: StatusView::Idle, ..rec }),
                HandledView::Reply(SessionEventView::GameStarted { user }),
            ),
            StatusView::CheckReady { correct, contained, .. } => if correct.len() == WORD_LENGTH {
                (self.drop_record(user), HandledView::Reply(SessionEventView::UserWon { user }))
            } else if rec.attempts.len() >= self.max_play_times {
                (self.drop_record(user), HandledView::Reply(SessionEventView::UserLost { user }))
            } else {
                (
                    self.put(user, RecordView { status: StatusView::Idle, ..rec }),
                    HandledView::Reply(SessionEventView::WordChecked { user, correct, contained }),
                )
            },
            StatusView::AwaitingStart { call_id, .. } => (
                self.put(user, RecordView { status: StatusView::Idle, ..rec }).unregister(call_id),
                HandledView::Rejected(SessionError::DownstreamTimeout),
            ),
            StatusView::AwaitingCheck { call_id, .. } => (
                self.put(
                    user,
                    RecordView { status: StatusView::Idle, attempts: rec.attempts.drop_last(), ..rec },
                ).unregister(call_id),
                HandledView::Rejected(SessionError::DownstreamTimeout),
            ),
            StatusView::Idle => (self, HandledView::Rejected(SessionError::SessionBusy)),
        }
    }

    /// The request `a` of `user`, carried by `origin`, was sent to the
    /// responder as the call `call`: record it and park the request.
    pub open spec fn dispatched(
        self,
        user: Principal,
        origin: CorrelationId,
        a: ActionView,
        call: CorrelationId,
    ) -> (SessionView, Result<(), SessionError>) {
        let rec = self.record(user);
        if !(rec.status is Idle) {
            (self, Err(SessionError::SessionBusy))
        } else if self.pending.contains_key(call) {
            (self, Err(SessionError::CorrelationInUse))
        } else {
            match a {
                ActionView::StartGame { .. } => (
                    self.put(
                        user,
                        RecordView {
                            status: StatusView::AwaitingStart { origin_id: origin, call_id: call },
                            ..rec
                        },
                    ).register(
                        call,
                        PendingCall { principal: user, origin_id: origin, step: Step::Start },
                    ),
                    Ok(()),
                ),
                ActionView::CheckWord { word, .. } => if !rec.started {
                    (self, Err(SessionError::GameNotStarted))
                } else if word.len() != WORD_LENGTH {
                    (self, Err(SessionError::InvalidGuessLength))
                } else {
                    (
                        self.put(
                            user,
                            RecordView {
                                status: StatusView::AwaitingCheck {
                                    origin_id: origin,
                                    call_id: call,
                                },
                                attempts: rec.attempts.push(word),
                                started: rec.started,
                            },
                        ).register(
                            call,
                            PendingCall { principal: user, origin_id: origin, step: Step::Check },
                        ),
                        Ok(()),
                    )
                },
            }
        }
    }

    /// The responder answered the call `call` with `e`.
    pub open spec fn replied(self, call: CorrelationId, e: EventView) -> (SessionView, ReplyOutcome) {
        if !self.pending.contains_key(call) {
            (self, ReplyOutcome::Dropped(Anomaly::StaleCorrelation))
        } else {
            let pc = self.pending[call];
            let rec = self.record(pc.principal);
            if reply_user(e) != pc.principal {
                (self, ReplyOutcome::Dropped(Anomaly::ForeignPrincipal))
            } else {
                match e {
                    EventView::GameStarted { .. } => if pc.step == Step::Start {
                        (
                            self.put(
                                pc.principal,
                                RecordView {
                                    status: StatusView::StartReady { origin_id: pc.origin_id },
                                    started: true,
                                    ..rec
                                },
                            ).unregister(call),
                            ReplyOutcome::Resume(pc.origin_id),
                        )
                    } else {
                        (self, ReplyOutcome::Dropped(Anomaly::UnexpectedReply))
                    },
                    EventView::WordChecked { correct, contained, .. } => if pc.step == Step::Check {
                        (
                            self.put(
                                pc.principal,
                                RecordView {
                                    status: StatusView::CheckReady {
                                        origin_id: pc.origin_id,
                                        correct,
                                        contained,
                                    },
                                    ..rec
                                },
                            ).unregister(call),
                            ReplyOutcome::Resume(pc.origin_id),
                        )
                    } else {
                        (self, ReplyOutcome::Dropped(Anomaly::UnexpectedReply))
                    },
                    EventView::UserWin { .. } => (
                        self,
                        ReplyOutcome::Dropped(Anomaly::UnexpectedReply),
                    ),
                }
            }
        }
    }
}

/// A record that may stand in a session limited to `max` attempts.
pub open spec fn record_ok(r: RecordView, max: u32) -> bool {
    &&& r.attempts.len() <= max
    &&& match r.status {
        StatusView::AwaitingCheck { .. } => r.started && r.attempts.len() >= 1,
        StatusView::CheckReady { .. } => r.started && r.attempts.len() >= 1,
        _ => r.attempts.len() < max,
    }
}

/// The call that a status waits on, with the step it waits for.
pub open spec fn awaits(s: StatusView, origin: CorrelationId, call: CorrelationId, step: Step) -> bool {
    match s {
        StatusView::AwaitingStart { origin_id, call_id } => origin_id == origin && call_id == call
            && step == Step::Start,
        StatusView::AwaitingCheck { origin_id, call_id } => origin_id == origin && call_id == call
            && step == Step::Check,
        _ => false,
    }
}

impl SessionView {
    /// The session's invariant: every record is within the attempt limit, and
    /// outstanding calls and waiting records name each other one to one.
    pub open spec fn inv(self) -> bool {
        &&& self.max_play_times >= 1
        &&& forall|p: Principal| #[trigger]
            self.records.contains_key(p) ==> record_ok(self.records[p], self.max_play_times)
        &&& forall|c: CorrelationId| #[trigger]
            self.pending.contains_key(c) ==> {
                let pc = self.pending[c];
                &&& self.records.contains_key(pc.principal)
                &&& awaits(self.records[pc.principal].status, pc.origin_id, c, pc.step)
            }
        &&& forall|p: Principal| #[trigger]
            self.records.contains_key(p) ==> match self.records[p].status {
                StatusView::AwaitingStart { origin_id, call_id } => {
                    &&& self.pending.contains_key(call_id)
                    &&& self.pending[call_id] == PendingCall {
                        principal: p,
                        origin_id,
                        step: Step::Start,
                    }
                },
                StatusView::AwaitingCheck { origin_id, call_id } => {
                    &&& self.pending.contains_key(call_id)
                    &&& self.pending[call_id] == PendingCall {
                        principal: p,
                        origin_id,
                        step: Step::Check,
                    }
                },
                _ => true,
            }
    }
}

/// A request leaves the invariant in force.
pub proof fn lemma_handle_inv(m: SessionView, user: Principal, origin: CorrelationId, a: ActionView)
    requires
        m.inv(),
    ensures
        m.handle(user, origin, a).0.inv(),
        m.handle(user, origin, a).0.max_play_times == m.max_play_times,
        m.handle(user, origin, a).0.wordle == m.wordle,
{
    let n = m.handle(user, origin, a).0;
    let rec = m.record(user);
    assert forall|p: Principal| #[trigger] n.records.contains_key(p) implies record_ok(
        n.records[p],
        n.max_play_times,
    ) by {
        if p != user {
            assert(m.records.contains_key(p));
        } else if m.records.contains_key(user) {
            assert(record_ok(m.records[user], m.max_play_times));
        }
    }
    assert forall|c: CorrelationId| #[trigger] n.pending.contains_key(c) implies {
        let pc = n.pending[c];
        &&& n.records.contains_key(pc.principal)
        &&& awaits(n.records[pc.principal].status, pc.origin_id, c, pc.step)
    } by {
        assert(m.pending.contains_key(c));
        let pc = m.pending[c];
        if pc.principal == user {
            assert(m.records.contains_key(user));
        }
    }
    assert forall|p: Principal| #[trigger] n.records.contains_key(p) implies match n.records[p].status {
        StatusView::AwaitingStart { origin_id, call_id } => {
            &&& n.pending.contains_key(call_id)
            &&& n.pending[call_id] == PendingCall { principal: p, origin_id, step: Step::Start }
        },
        StatusView::AwaitingCheck { origin_id, call_id } => {
            &&& n.pending.contains_key(call_id)
            &&& n.pending[call_id] == PendingCall { principal: p, origin_id, step: Step::Check }
        },
        _ => true,
    } by {
        assert(m.records.contains_key(p));
        if p != user {
            match m.records[p].status {
                StatusView::AwaitingStart { origin_id, call_id } => {
                    if m.records.contains_key(user) {
                        match rec.status {
                            StatusView::AwaitingStart { origin_id: o2, call_id: c2 } => {
                                assert(m.pending[c2].principal == user);
                            },
                            StatusView::AwaitingCheck { origin_id: o2, call_id: c2 } => {
                                assert(m.pending[c2].principal == user);
                            },
                            _ => {},
                        }
                    }
                },
                StatusView::AwaitingCheck { origin_id, call_id } => {
                    if m.records.contains_key(user) {
                        match rec.status {
                            StatusView::AwaitingStart { origin_id: o2, call_id: c2 } => {
                                assert(m.pending[c2].principal == user);
                            },
                            StatusView::AwaitingCheck { origin_id: o2, call_id: c2 } => {
                                assert(m.pending[c2].principal == user);
                            },
                            _ => {},
                        }
                    }
                },
                _ => {},
            }
        }
    }
}

/// Recording a dispatched call leaves the invariant in force.
pub proof fn lemma_dispatched_inv(
    m: SessionView,
    user: Principal,
    origin: CorrelationId,
    a: ActionView,
    call: CorrelationId,
)
    requires
        m.inv(),
    ensures
        m.dispatched(user, origin, a, call).0.inv(),
        m.dispatched(user, origin, a, call).0.max_play_times == m.max_play_times,
        m.dispatched(user, origin, a, call).0.wordle == m.wordle,
{
    let n = m.dispatched(user, origin, a, call).0;
    let rec = m.record(user);
    if m.records.contains_key(user) {
        assert(record_ok(m.records[user], m.max_play_times));
    }
    assert forall|p: Principal| #[trigger] n.records.contains_key(p) implies record_ok(
        n.records[p],
        n.max_play_times,
    ) by {
        if p != user {
            assert(m.records.contains_key(p));
        }
    }
    assert forall|c: CorrelationId| #[trigger] n.pending.contains_key(c) implies {
        let pc = n.pending[c];
        &&& n.records.contains_key(pc.principal)
        &&& awaits(n.records[pc.principal].status, pc.origin_id, c, pc.step)
    } by {
        if c != call {
            assert(m.pending.contains_key(c));
            let pc = m.pending[c];
            if pc.principal == user {
                assert(m.records.contains_key(user));
            }
        }
    }
    assert forall|p: Principal| #[trigger] n.records.contains_key(p) implies match n.records[p].status {
        StatusView::AwaitingStart { origin_id, call_id } => {
            &&& n.pending.contains_key(call_id)
            &&& n.pending[call_id] == PendingCall { principal: p, origin_id, step: Step::Start }
        },
        StatusView::AwaitingCheck { origin_id, call_id } => {
            &&& n.pending.contains_key(call_id)
            &&& n.pending[call_id] == PendingCall { principal: p, origin_id, step: Step::Check }
        },
        _ => true,
    } by {
        if p != user {
            assert(m.records.contains_key(p));
        }
    }
}

/// Recording a reply leaves the invariant in force.
pub proof fn lemma_replied_inv(m: SessionView, call: CorrelationId, e: EventView)
    requires
        m.inv(),
    ensures
        m.replied(call, e).0.inv(),
        m.replied(call, e).0.max_play_times == m.max_play_times,
        m.replied(call, e).0.wordle == m.wordle,
{
    let n = m.replied(call, e).0;
    if m.pending.contains_key(call) {
        let pc = m.pending[call];
        let user = pc.principal;
        assert(m.records.contains_key(user));
        assert(record_ok(m.records[user], m.max_play_times));
        assert forall|p: Principal| #[trigger] n.records.contains_key(p) implies record_ok(
            n.records[p],
            n.max_play_times,
        ) by {
            if p != user {
                assert(m.records.contains_key(p));
            }
        }
        assert forall|c: CorrelationId| #[trigger] n.pending.contains_key(c) implies {
            let q = n.pending[c];
            &&& n.records.contains_key(q.principal)
            &&& awaits(n.records[q.principal].status, q.origin_id, c, q.step)
        } by {
            assert(m.pending.contains_key(c));
            let q = m.pending[c];
            if q.principal == user && n != m {
                assert(awaits(m.records[user].status, q.origin_id, c, q.step));
                assert(c == call);
            }
        }
        assert forall|p: Principal| #[trigger] n.records.contains_key(p) implies match n.records[p].status {
            StatusView::AwaitingStart { origin_id, call_id } => {
                &&& n.pending.contains_key(call_id)
                &&& n.pending[call_id] == PendingCall { principal: p, origin_id, step: Step::Start }
            },
            StatusView::AwaitingCheck { origin_id, call_id } => {
                &&& n.pending.contains_key(call_id)
                &&& n.pending[call_id] == PendingCall { principal: p, origin_id, step: Step::Check }
            },
            _ => true,
        } by {
            assert(m.records.contains_key(p));
            if p != user && n != m {
                match m.records[p].status {
                    StatusView::AwaitingStart { origin_id, call_id } => {
                        assert(call_id != call);
                    },
                    StatusView::AwaitingCheck { origin_id, call_id } => {
                        assert(call_id != call);
                    },
                    _ => {},
                }
            }
        }
    }
}

} // verus!
