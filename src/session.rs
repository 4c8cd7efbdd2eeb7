use vstd::prelude::*;
use vstd::string::*;

use crate::ids::{CorrelationId, Key, Principal};
use crate::maps::{player_entries, PlayerMap};
use crate::messages::{Action, Event, GameSessionInit, SessionEvent};
use crate::model::{
    lemma_dispatched_inv, lemma_handle_inv, lemma_replied_inv, Anomaly, HandledView,
    PendingCall, parked_origin, RecordView, ReplyOutcome, SessionError, SessionView, StatusView, Step,
};
use crate::table::Table;
use crate::wordle::WORD_LENGTH;

verus! {

/// Where a principal's session stands.
#[derive(Clone, Debug)]
pub enum GameStatus {
    /// Nothing in flight.
    Idle,
    /// A start was sent to the responder as `call_id`; `origin_id` is parked.
    AwaitingStart { origin_id: CorrelationId, call_id: CorrelationId },
    /// The start was answered; `origin_id` completes it when it resumes.
    StartReady { origin_id: CorrelationId },
    /// A guess was sent to the responder as `call_id`; `origin_id` is parked.
    AwaitingCheck { origin_id: CorrelationId, call_id: CorrelationId },
    /// The guess was answered; `origin_id` completes it when it resumes.
    CheckReady {
        origin_id: CorrelationId,
        correct_positions: Vec<u8>,
        contained_in_word: Vec<u8>,
    },
}

impl View for GameStatus {
    type V = StatusView;

    open spec fn view(&self) -> StatusView {
        match self {
            GameStatus::Idle => StatusView::Idle,
            GameStatus::AwaitingStart { origin_id, call_id } => StatusView::AwaitingStart {
                origin_id: *origin_id,
                call_id: *call_id,
            },
            GameStatus::StartReady { origin_id } => StatusView::StartReady { origin_id: *origin_id },
            GameStatus::AwaitingCheck { origin_id, call_id } => StatusView::AwaitingCheck {
                origin_id: *origin_id,
                call_id: *call_id,
            },
            GameStatus::CheckReady { origin_id, correct_positions, contained_in_word } => {
                StatusView::CheckReady {
                    origin_id: *origin_id,
                    correct: correct_positions@,
                    contained: contained_in_word@,
                }
            },
        }
    }
}

/// A principal's session: its status, the guesses of the current game in the
/// order given, and whether a game is live.
pub struct SessionRecord {
    pub status: GameStatus,
    pub attempts: Vec<String>,
    pub started: bool,
}

pub open spec fn words_view(v: Seq<String>) -> Seq<Seq<char>> {
    v.map_values(|w: String| w@)
}

impl View for SessionRecord {
    type V = RecordView;

    open spec fn view(&self) -> RecordView {
        RecordView { status: self.status@, attempts: words_view(self.attempts@), started: self.started }
    }
}

/// The records of a store, as values.
pub open spec fn records_view(t: Map<Principal, SessionRecord>) -> Map<Principal, RecordView> {
    t.map_values(|r: SessionRecord| r@)
}

proof fn lemma_records_insert(t: Map<Principal, SessionRecord>, k: Principal, v: SessionRecord)
    ensures
        records_view(t.insert(k, v)) == records_view(t).insert(k, v@),
{
    assert(records_view(t.insert(k, v)) =~= records_view(t).insert(k, v@));
}

proof fn lemma_records_remove(t: Map<Principal, SessionRecord>, k: Principal)
    ensures
        records_view(t.remove(k)) == records_view(t).remove(k),
{
    assert(records_view(t.remove(k)) =~= records_view(t).remove(k));
}

/// What the host is to do after a request.
#[derive(Clone, Debug, PartialEq, Eq)]
pub enum Handled {
    /// Send this to the responder, then report the call with `Session::dispatched`
    /// and park the request.
    Dispatch(Action),
    /// Reply this to the principal.
    Reply(SessionEvent),
    /// Refuse the request.
    Rejected(SessionError),
    /// The request was completed already: do nothing.
    Ignored,
}

impl View for Handled {
    type V = HandledView;

    open spec fn view(&self) -> HandledView {
        match self {
            Handled::Dispatch(a) => HandledView::Dispatch(a@),
            Handled::Reply(e) => HandledView::Reply(e@),
            Handled::Rejected(err) => HandledView::Rejected(*err),
            Handled::Ignored => HandledView::Ignored,
        }
    }
}

/// The orchestrator: each principal's record, and the calls in flight.
pub struct Session {
    wordle: Principal,
    max_play_times: u32,
    records: PlayerMap,
    calls: Table<CorrelationId, PendingCall>,
    completed: Table<Principal, CorrelationId>,
}

impl View for Session {
    type V = SessionView;

    closed spec fn view(&self) -> SessionView {
        SessionView {
            wordle: self.wordle,
            max_play_times: self.max_play_times,
            records: records_view(player_entries(self.records)),
            pending: self.calls@,
            completed: self.completed@,
        }
    }
}

impl Session {
    pub closed spec fn wf(&self) -> bool {
        &&& self.calls.wf()
        &&& self.completed.wf()
        &&& self@.inv()
    }

    /// A session with no records and no calls, that talks to the responder at
    /// `init.wordle_address` and allows `init.max_play_times` guesses a game.
    pub fn new(init: GameSessionInit) -> (r: Session)
        requires
            init.max_play_times >= 1,
        ensures
            r.wf(),
            r@.wordle == init.wordle_address,
            r@.max_play_times == init.max_play_times,
            r@.records == Map::<Principal, RecordView>::empty(),
            r@.pending == Map::<CorrelationId, PendingCall>::empty(),
            r@.completed == Map::<Principal, CorrelationId>::empty(),
    {
        let r = Session {
            wordle: init.wordle_address,
            max_play_times: init.max_play_times,
            records: PlayerMap::new(),
            calls: Table::new(),
            completed: Table::new(),
        };
        assert(r@.records =~= Map::<Principal, RecordView>::empty());
        r
    }

    /// The responder that requests are sent to.
    pub fn wordle_address(&self) -> (r: Principal)
        ensures
            r == self@.wordle,
    {
        self.wordle
    }

    /// The most guesses a game allows.
    pub fn max_play_times(&self) -> (r: u32)
        ensures
            r == self@.max_play_times,
    {
        self.max_play_times
    }

    /// Takes in a request `action` of `user`, carried by the inbound message
    /// `origin`: completes the principal's parked request if this is it,
    /// ignores it if it was completed already, and otherwise judges it afresh
    /// without changing anything.
    pub fn handle(&mut self, user: Principal, origin: CorrelationId, action: Action) -> (r: Handled)
        requires
            old(self).wf(),
        ensures
            final(self).wf(),
            (final(self)@, r@) == old(self)@.handle(user, origin, action@),
    {
        proof {
            lemma_handle_inv(self@, user, origin, action@);
        }
        let ghost m = self@;
        let (started, parked) = match self.records.get(&user) {
            None => (false, None),
            Some(rec) => {
                assert(m.record(user) == rec@);
                let parked = match &rec.status {
                    GameStatus::Idle => None,
                    GameStatus::AwaitingStart { origin_id, .. } => Some(*origin_id),
                    GameStatus::StartReady { origin_id } => Some(*origin_id),
                    GameStatus::AwaitingCheck { origin_id, .. } => Some(*origin_id),
                    GameStatus::CheckReady { origin_id, .. } => Some(*origin_id),
                };
                (rec.started, parked)
            },
        };
        match parked {
            None => {
                match self.completed.get(&user) {
                    Some(done) => {
                        if done.same(&origin) {
                            return Handled::Ignored;
                        }
                    },
                    None => {},
                }
                match action {
                    Action::StartGame { .. } => Handled::Dispatch(Action::StartGame { user }),
                    Action::CheckWord { word, .. } => {
                        if !started {
                            Handled::Rejected(SessionError::GameNotStarted)
                        } else if word.as_str().unicode_len() != WORD_LENGTH {
                            Handled::Rejected(SessionError::InvalidGuessLength)
                        } else {
                            Handled::Dispatch(Action::CheckWord { user, word })
                        }
                    },
                }
            },
            Some(parked_origin) => {
                if !parked_origin.same(&origin) {
                    return Handled::Rejected(SessionError::SessionBusy);
                }
                let rec = match self.records.remove(&user) {
                    Some(rec) => rec,
                    None => {
                        proof {
                            assert(false);
                        }
                        return Handled::Rejected(SessionError::SessionBusy);
                    },
                };
                proof {
                    lemma_records_remove(player_entries(old(self).records), user);
                    assert(self@.records =~= m.records.remove(user));
                }
                let r = self.complete(user, rec, Ghost(m));
                self.completed.insert(user, origin);
                r
            },
        }
    }

    /// Records that the request `action` of `user`, carried by `origin`, was
    /// sent to the responder as the call `call`, and parks the request. A
    /// request that `handle` would not dispatch is refused, and so is an
    /// identifier that already names a call in flight; either way nothing
    /// changes.
    pub fn dispatched(
        &mut self,
        user: Principal,
        origin: CorrelationId,
        action: &Action,
        call: CorrelationId,
    ) -> (r: Result<(), SessionError>)
        requires
            old(self).wf(),
        ensures
            final(self).wf(),
            (final(self)@, r) == old(self)@.dispatched(user, origin, action@, call),
    {
        proof {
            lemma_dispatched_inv(self@, user, origin, action@, call);
        }
        let ghost m = self@;
        let (idle, started) = match self.records.get(&user) {
            None => (true, false),
            Some(rec) => {
                assert(m.record(user) == rec@);
                let idle = match &rec.status {
                    GameStatus::Idle => true,
                    _ => false,
                };
                (idle, rec.started)
            },
        };
        if !idle {
            return Err(SessionError::SessionBusy);
        }
        if self.calls.contains(&call) {
            return Err(SessionError::CorrelationInUse);
        }
        let (step, guess) = match action {
            Action::StartGame { .. } => (Step::Start, None),
            Action::CheckWord { word, .. } => {
                if !started {
                    return Err(SessionError::GameNotStarted);
                } else if word.as_str().unicode_len() != WORD_LENGTH {
                    return Err(SessionError::InvalidGuessLength);
                }
                (Step::Check, Some(word.clone()))
            },
        };
        let ghost t0 = player_entries(self.records);
        let rec = match self.records.remove(&user) {
            Some(rec) => rec,
            None => SessionRecord { status: GameStatus::Idle, attempts: Vec::new(), started: false },
        };
        proof {
            lemma_records_remove(t0, user);
            assert(rec@.attempts =~= m.record(user).attempts);
        }
        let ghost t1 = player_entries(self.records);
        let mut attempts = rec.attempts;
        let ghost before = attempts@;
        let status = match guess {
            None => GameStatus::AwaitingStart { origin_id: origin, call_id: call },
            Some(word) => {
                attempts.push(word);
                assert(words_view(attempts@) =~= words_view(before).push(action@->CheckWord_word));
                GameStatus::AwaitingCheck { origin_id: origin, call_id: call }
            },
        };
        self.records.insert(user, SessionRecord { status, attempts, started: rec.started });
        proof {
            lemma_records_insert(t1, user, player_entries(self.records)[user]);
            assert(self@.records =~= m.dispatched(user, origin, action@, call).0.records);
        }
        self.calls.insert(call, PendingCall { principal: user, origin_id: origin, step });
        Ok(())
    }

    /// Takes in the responder's reply `reply` to the call `call`. A reply that
    /// answers the call's principal and step is recorded and its parked request
    /// is to be resumed; any other is dropped and changes nothing.
    pub fn handle_reply(&mut self, call: CorrelationId, reply: Event) -> (r: ReplyOutcome)
        requires
            old(self).wf(),
        ensures
            final(self).wf(),
            (final(self)@, r) == old(self)@.replied(call, reply@),
    {
        proof {
            lemma_replied_inv(self@, call, reply@);
        }
        let ghost m = self@;
        let pc = match self.calls.get(&call) {
            None => return ReplyOutcome::Dropped(Anomaly::StaleCorrelation),
            Some(pc) => *pc,
        };
        let reply_user = match &reply {
            Event::GameStarted { user } => *user,
            Event::WordChecked { user, .. } => *user,
            Event::UserWin { user } => *user,
        };
        if !reply_user.same(&pc.principal) {
            return ReplyOutcome::Dropped(Anomaly::ForeignPrincipal);
        }
        let ghost t0 = player_entries(self.records);
        match reply {
            Event::GameStarted { .. } => {
                if pc.step != Step::Start {
                    return ReplyOutcome::Dropped(Anomaly::UnexpectedReply);
                }
                let rec = match self.records.remove(&pc.principal) {
                    Some(rec) => rec,
                    None => {
                        proof {
                            assert(false);
                        }
                        return ReplyOutcome::Dropped(Anomaly::UnexpectedReply);
                    },
                };
                let ghost t1 = player_entries(self.records);
                self.records.insert(
                    pc.principal,
                    SessionRecord {
                        status: GameStatus::StartReady { origin_id: pc.origin_id },
                        attempts: rec.attempts,
                        started: true,
                    },
                );
                proof {
                    lemma_records_remove(t0, pc.principal);
                    lemma_records_insert(t1, pc.principal, player_entries(self.records)[pc.principal]);
                    assert(self@.records =~= m.replied(call, reply@).0.records);
                }
                self.calls.remove(&call);
                ReplyOutcome::Resume(pc.origin_id)
            },
            Event::WordChecked { correct_positions, contained_in_word, .. } => {
                if pc.step != Step::Check {
                    return ReplyOutcome::Dropped(Anomaly::UnexpectedReply);
                }
                let rec = match self.records.remove(&pc.principal) {
                    Some(rec) => rec,
                    None => {
                        proof {
                            assert(false);
                        }
                        return ReplyOutcome::Dropped(Anomaly::UnexpectedReply);
                    },
                };
                let ghost t1 = player_entries(self.records);
                self.records.insert(
                    pc.principal,
                    SessionRecord {
                        status: GameStatus::CheckReady {
                            origin_id: pc.origin_id,
                            correct_positions,
                            contained_in_word,
                        },
                        attempts: rec.attempts,
                        started: rec.started,
                    },
                );
                proof {
                    lemma_records_remove(t0, pc.principal);
                    lemma_records_insert(t1, pc.principal, player_entries(self.records)[pc.principal]);
                    assert(self@.records =~= m.replied(call, reply@).0.records);
                }
                self.calls.remove(&call);
                ReplyOutcome::Resume(pc.origin_id)
            },
            Event::UserWin { .. } => ReplyOutcome::Dropped(Anomaly::UnexpectedReply),
        }
    }

    /// Finishes the parked request of `user`, whose record `rec` has just been
    /// taken out of the session `m`.
    fn complete(&mut self, user: Principal, rec: SessionRecord, Ghost(m): Ghost<SessionView>) -> (r:
        Handled)
        requires
            old(self).calls.wf(),
            m.inv(),
            m.records.contains_key(user),
            m.records[user] == rec@,
            old(self)@ == m.drop_record(user),
            !(rec@.status is Idle),
        ensures
            final(self).calls.wf(),
            final(self).completed == old(self).completed,
            (final(self)@, r@) == m.complete_parked(user),
    {
        let SessionRecord { status, attempts, started } = rec;
        match status {
            GameStatus::Idle => {
                proof {
                    assert(false);
                }
                Handled::Rejected(SessionError::SessionBusy)
            },
            GameStatus::StartReady { origin_id } => {
                let ghost nr = RecordView { status: StatusView::Idle, ..m.records[user] };
                self.records.insert(user, SessionRecord { status: GameStatus::Idle, attempts, started });
                proof {
                    lemma_records_insert(
                        player_entries(old(self).records),
                        user,
                        player_entries(self.records)[user],
                    );
                    assert(self@.records =~= m.records.insert(user, nr));
                }
                Handled::Reply(SessionEvent::GameStarted { user })
            },
            GameStatus::CheckReady { origin_id, correct_positions, contained_in_word } => {
                if correct_positions.len() == WORD_LENGTH {
                    Handled::Reply(SessionEvent::UserWon { user })
                } else if attempts.len() >= self.max_play_times as usize {
                    Handled::Reply(SessionEvent::UserLost { user })
                } else {
                    let ghost nr = RecordView { status: StatusView::Idle, ..m.records[user] };
                    self.records.insert(
                        user,
                        SessionRecord { status: GameStatus::Idle, attempts, started },
                    );
                    proof {
                        lemma_records_insert(
                            player_entries(old(self).records),
                            user,
                            player_entries(self.records)[user],
                        );
                        assert(self@.records =~= m.records.insert(user, nr));
                    }
                    Handled::Reply(
                        SessionEvent::WordChecked { user, correct_positions, contained_in_word },
                    )
                }
            },
            GameStatus::AwaitingStart { origin_id, call_id } => {
                let ghost nr = RecordView { status: StatusView::Idle, ..m.records[user] };
                self.records.insert(user, SessionRecord { status: GameStatus::Idle, attempts, started });
                proof {
                    lemma_records_insert(
                        player_entries(old(self).records),
                        user,
                        player_entries(self.records)[user],
                    );
                    assert(self@.records =~= m.records.insert(user, nr));
                }
                self.calls.remove(&call_id);
                Handled::Rejected(SessionError::DownstreamTimeout)
            },
            GameStatus::AwaitingCheck { origin_id, call_id } => {
                let ghost old_rec = m.records[user];
                let ghost nr = RecordView {
                    status: StatusView::Idle,
                    attempts: old_rec.attempts.drop_last(),
                    ..old_rec
                };
                let mut attempts = attempts;
                let ghost before = attempts@;
                attempts.pop();
                assert(words_view(attempts@) =~= words_view(before).drop_last());
                self.records.insert(user, SessionRecord { status: GameStatus::Idle, attempts, started });
                proof {
                    lemma_records_insert(
                        player_entries(old(self).records),
                        user,
                        player_entries(self.records)[user],
                    );
                    assert(self@.records =~= m.records.insert(user, nr));
                }
                self.calls.remove(&call_id);
                Handled::Rejected(SessionError::DownstreamTimeout)
            },
        }
    }
}

} // verus!
