//! What holds of every session, proved over the model that the engine's
//! contracts are stated in.
use vstd::prelude::*;

use crate::ids::{CorrelationId, Principal};
use crate::matching::{all_indices, contained_positions, correct_positions, lemma_equal_guess_all_correct};
use crate::model::{
    fresh_record, parked_origin, reply_user, ActionView, EventView, HandledView, ReplyOutcome, SessionError,
    SessionEventView, SessionView, StatusView, Step,
};
use crate::wordle::WORD_LENGTH;

verus! {

/// At most one call is in flight for any principal: two outstanding calls of
/// the same principal are the same call.
pub proof fn lemma_single_flight(m: SessionView, c1: CorrelationId, c2: CorrelationId)
    requires
        m.inv(),
        m.pending.contains_key(c1),
        m.pending.contains_key(c2),
        m.pending[c1].principal == m.pending[c2].principal,
    ensures
        c1 == c2,
{
    let p = m.pending[c1].principal;
    assert(m.records.contains_key(p));
}

/// While a principal has a call in flight, any other request of theirs is
/// refused as busy and dispatches nothing: the session is left as it was.
pub proof fn lemma_busy_principal_refused(
    m: SessionView,
    user: Principal,
    c: CorrelationId,
    origin: CorrelationId,
    a: ActionView,
    call: CorrelationId,
)
    requires
        m.inv(),
        m.pending.contains_key(c),
        m.pending[c].principal == user,
        m.pending[c].origin_id != origin,
    ensures
        m.handle(user, origin, a) == (m, HandledView::Rejected(SessionError::SessionBusy)),
        m.dispatched(user, origin, a, call) == (m, Err::<(), SessionError>(SessionError::SessionBusy)),
{
    assert(m.records.contains_key(user));
}

/// A reply changes only the record of the principal whose call it answers,
/// and only the entry of that call; it resumes exactly the request that made
/// the call, and only when it answers that call's step. No reply changes
/// anyone's guesses, and a dropped reply changes nothing.
pub proof fn lemma_reply_integrity(m: SessionView, call: CorrelationId, e: EventView)
    requires
        m.inv(),
    ensures
        ({
            let (n, out) = m.replied(call, e);
            &&& forall|q: Principal|
                !(m.pending.contains_key(call) && q == m.pending[call].principal) ==> #[trigger] n.record(q)
                    == m.record(q)
            &&& forall|c: CorrelationId|
                c != call ==> (#[trigger] n.pending.contains_key(c) == m.pending.contains_key(c) && (
                n.pending.contains_key(c) ==> n.pending[c] == m.pending[c]))
            &&& forall|q: Principal| #[trigger] n.record(q).attempts == m.record(q).attempts
            &&& out is Dropped ==> n == m
            &&& out is Resume ==> {
                let pc = m.pending[call];
                &&& m.pending.contains_key(call)
                &&& out->Resume_0 == pc.origin_id
                &&& reply_user(e) == pc.principal
                &&& !n.pending.contains_key(call)
                &&& pc.step == Step::Start ==> e is GameStarted && n.record(pc.principal).status
                    == StatusView::StartReady { origin_id: pc.origin_id }
                &&& pc.step == Step::Check ==> e is WordChecked && n.record(pc.principal).status
                    == (StatusView::CheckReady {
                    origin_id: pc.origin_id,
                    correct: e->WordChecked_correct,
                    contained: e->WordChecked_contained,
                })
            }
        }),
{
}

/// No record holds more guesses than a game allows.
pub proof fn lemma_attempt_bound(m: SessionView, p: Principal)
    requires
        m.inv(),
    ensures
        m.record(p).attempts.len() <= m.max_play_times,
{
}

/// The last guess a game allows, if it does not win, ends the game lost: its
/// outcome is never a plain checked guess.
pub proof fn lemma_last_guess_loses(
    m: SessionView,
    user: Principal,
    origin: CorrelationId,
    a: ActionView,
)
    requires
        m.inv(),
        m.record(user).status is CheckReady,
        m.record(user).status->CheckReady_origin_id == origin,
        m.record(user).status->CheckReady_correct.len() != WORD_LENGTH,
        m.record(user).attempts.len() == m.max_play_times,
    ensures
        m.handle(user, origin, a) == (
            m.drop_record(user).finish(user, origin),
            HandledView::Reply(SessionEventView::UserLost { user }),
        ),
{
}

/// A guess equal to the secret word is correct at every index, and once its
/// answer lands, the parked request resumes and reports the game won.
pub proof fn lemma_equal_guess_wins(
    m: SessionView,
    call: CorrelationId,
    target: Seq<char>,
    a: ActionView,
)
    requires
        m.inv(),
        target.len() == WORD_LENGTH,
        m.pending.contains_key(call),
        m.pending[call].step == Step::Check,
    ensures
        correct_positions(target, target) == all_indices(WORD_LENGTH as nat),
        ({
            let pc = m.pending[call];
            let e = EventView::WordChecked {
                user: pc.principal,
                correct: correct_positions(target, target),
                contained: contained_positions(target, target),
            };
            let (n, out) = m.replied(call, e);
            &&& out == ReplyOutcome::Resume(pc.origin_id)
            &&& n.handle(pc.principal, pc.origin_id, a) == (
                n.drop_record(pc.principal).finish(pc.principal, pc.origin_id),
                HandledView::Reply(SessionEventView::UserWon { user: pc.principal }),
            )
        }),
{
    lemma_equal_guess_all_correct(target, WORD_LENGTH as nat);
    assert(m.records.contains_key(m.pending[call].principal));
}

/// A game that ends, won or lost, leaves no trace: the principal's record is
/// fresh and nothing of theirs is in flight, so their next start (a new
/// inbound message) is dispatched, and once answered leaves them with a live
/// game and no guesses.
pub proof fn lemma_reset_on_terminal(
    m: SessionView,
    user: Principal,
    origin: CorrelationId,
    a: ActionView,
    next_origin: CorrelationId,
    next_call: CorrelationId,
)
    requires
        m.inv(),
        m.handle(user, origin, a).1 == HandledView::Reply(SessionEventView::UserWon { user })
            || m.handle(user, origin, a).1 == HandledView::Reply(
            SessionEventView::UserLost { user },
        ),
        !m.pending.contains_key(next_call),
        next_origin != origin,
    ensures
        ({
            let n = m.handle(user, origin, a).0;
            let start = ActionView::StartGame { user };
            let (n2, r2) = n.dispatched(user, next_origin, start, next_call);
            let (n3, r3) = n2.replied(next_call, EventView::GameStarted { user });
            &&& n.record(user) == fresh_record()
            &&& !n.in_flight(user)
            &&& n.handle(user, next_origin, start) == (n, HandledView::Dispatch(start))
            &&& r2 == Ok::<(), SessionError>(())
            &&& r3 == ReplyOutcome::Resume(next_origin)
            &&& n3.record(user) == (crate::model::RecordView {
                status: StatusView::StartReady { origin_id: next_origin },
                attempts: Seq::empty(),
                started: true,
            })
        }),
{
    let n = m.handle(user, origin, a).0;
    assert(m.records.contains_key(user));
    assert(n.records =~= m.records.remove(user));
    assert(n.pending == m.pending);
    if n.in_flight(user) {
        let c = choose|c: CorrelationId| #[trigger]
            n.pending.contains_key(c) && n.pending[c].principal == user;
        assert(m.pending.contains_key(c));
    }
}

/// Completing a parked request leaves the principal with nothing parked, and
/// the same request coming back again is ignored: nothing changes and nothing
/// is dispatched.
pub proof fn lemma_duplicate_resume_ignored(
    m: SessionView,
    user: Principal,
    origin: CorrelationId,
    a: ActionView,
    again: ActionView,
)
    requires
        m.inv(),
        parked_origin(m.record(user).status) == Some(origin),
    ensures
        ({
            let n = m.handle(user, origin, a).0;
            &&& parked_origin(n.record(user).status) is None
            &&& n.handle(user, origin, again) == (n, HandledView::Ignored)
        }),
{
}

} // verus!
