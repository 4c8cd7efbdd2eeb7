use wordle_session::model::{Anomaly, ReplyOutcome, SessionError};
use wordle_session::session::{Handled, Session};
use wordle_session::{Action, CorrelationId, Event, GameSessionInit, Principal, SessionEvent, Wordle};

const GAME_WORDLE_PROGRAM_ID: u64 = 2;
const USER: u64 = 20;
/// Makes the responder pick "horse".
const HORSE: u8 = 2;

struct Game {
    session: Session,
    wordle: Wordle,
    next_id: u64,
}

impl Game {
    fn fresh_id(&mut self) -> CorrelationId {
        self.next_id += 1;
        CorrelationId::from_u64(self.next_id)
    }

    /// Sends `action` from `user` and runs it to its outcome, the responder
    /// answering at once and the parked request resuming on its reply.
    fn send(&mut self, user: u64, action: Action) -> Handled {
        let user = Principal::from_u64(user);
        let origin = self.fresh_id();
        match self.session.handle(user, origin, action.clone()) {
            Handled::Dispatch(request) => {
                let call = self.fresh_id();
                self.session.dispatched(user, origin, &request, call).unwrap();
                let reply = self.wordle.handle(&request, HORSE).unwrap();
                assert_eq!(self.session.handle_reply(call, reply), ReplyOutcome::Resume(origin));
                self.session.handle(user, origin, action)
            }
            other => other,
        }
    }
}

fn init_game(max_play_times: u32) -> Game {
    let session = Session::new(GameSessionInit {
        wordle_address: Principal::from_u64(GAME_WORDLE_PROGRAM_ID),
        max_play_times,
    });
    Game { session, wordle: Wordle::new(), next_id: 100 }
}

fn start(user: u64) -> Action {
    Action::StartGame { user: Principal::from_u64(user) }
}

fn check(user: u64, word: &str) -> Action {
    Action::CheckWord { user: Principal::from_u64(user), word: word.to_string() }
}

fn user() -> Principal {
    Principal::from_u64(USER)
}

#[test]
pub fn test_init() {
    let game = init_game(3);
    assert_eq!(game.session.max_play_times(), 3);
    assert_eq!(game.session.wordle_address(), Principal::from_u64(GAME_WORDLE_PROGRAM_ID));
}

#[test]
pub fn test_play_success() {
    let mut game = init_game(3);
    let start_result = game.send(USER, start(USER));
    assert_eq!(start_result, Handled::Reply(SessionEvent::GameStarted { user: user() }), "receive log error!");

    let wordle_result = game.send(USER, check(USER, "house"));
    assert_eq!(
        wordle_result,
        Handled::Reply(SessionEvent::WordChecked {
            user: user(),
            correct_positions: vec![0, 1, 3, 4],
            contained_in_word: vec![],
        })
    );

    let success_wordle_result = game.send(USER, check(USER, "horse"));
    assert_eq!(success_wordle_result, Handled::Reply(SessionEvent::UserWon { user: user() }));
}

#[test]
pub fn test_play_fail() {
    let mut game = init_game(3);
    let wordle_result = game.send(USER, check(USER, "house"));
    assert_eq!(wordle_result, Handled::Rejected(SessionError::GameNotStarted), "wordle run failed");
}

#[test]
fn third_wrong_guess_loses() {
    let mut game = init_game(3);
    game.send(USER, start(USER));
    let lost = SessionEvent::UserLost { user: user() };
    assert!(matches!(game.send(USER, check(USER, "house")), Handled::Reply(SessionEvent::WordChecked { .. })));
    assert!(matches!(game.send(USER, check(USER, "human")), Handled::Reply(SessionEvent::WordChecked { .. })));
    assert_eq!(game.send(USER, check(USER, "hoses")), Handled::Reply(lost));
}

#[test]
fn single_guess_game_is_lost_at_once() {
    let mut game = init_game(1);
    game.send(USER, start(USER));
    assert_eq!(game.send(USER, check(USER, "house")), Handled::Reply(SessionEvent::UserLost { user: user() }));
    assert_eq!(game.send(USER, check(USER, "horse")), Handled::Rejected(SessionError::GameNotStarted));
}

#[test]
fn winning_on_the_last_guess_wins() {
    let mut game = init_game(2);
    game.send(USER, start(USER));
    game.send(USER, check(USER, "house"));
    assert_eq!(game.send(USER, check(USER, "horse")), Handled::Reply(SessionEvent::UserWon { user: user() }));
}

#[test]
fn new_game_after_win_starts_afresh() {
    let mut game = init_game(2);
    game.send(USER, start(USER));
    game.send(USER, check(USER, "house"));
    game.send(USER, check(USER, "horse"));
    assert_eq!(game.send(USER, check(USER, "horse")), Handled::Rejected(SessionError::GameNotStarted));
    assert_eq!(game.send(USER, start(USER)), Handled::Reply(SessionEvent::GameStarted { user: user() }));
    // two guesses allowed again: the first is a plain check
    assert!(matches!(game.send(USER, check(USER, "human")), Handled::Reply(SessionEvent::WordChecked { .. })));
    assert_eq!(game.send(USER, check(USER, "human")), Handled::Reply(SessionEvent::UserLost { user: user() }));
}

#[test]
fn new_game_after_loss_starts_afresh() {
    let mut game = init_game(1);
    game.send(USER, start(USER));
    game.send(USER, check(USER, "house"));
    assert_eq!(game.send(USER, start(USER)), Handled::Reply(SessionEvent::GameStarted { user: user() }));
    assert_eq!(game.send(USER, check(USER, "horse")), Handled::Reply(SessionEvent::UserWon { user: user() }));
}

#[test]
fn wrong_length_guess_is_refused() {
    let mut game = init_game(3);
    game.send(USER, start(USER));
    assert_eq!(game.send(USER, check(USER, "hous")), Handled::Rejected(SessionError::InvalidGuessLength));
    assert_eq!(game.send(USER, check(USER, "houses")), Handled::Rejected(SessionError::InvalidGuessLength));
    // a refused guess uses up no attempt
    game.send(USER, check(USER, "house"));
    game.send(USER, check(USER, "house"));
    assert_eq!(game.send(USER, check(USER, "horse")), Handled::Reply(SessionEvent::UserWon { user: user() }));
}

#[test]
fn second_request_while_in_flight_is_busy() {
    let mut game = init_game(3);
    let u = user();
    let origin = CorrelationId::from_u64(1);
    let call = CorrelationId::from_u64(2);
    let request = match game.session.handle(u, origin, start(USER)) {
        Handled::Dispatch(r) => r,
        other => panic!("unexpected {:?}", other),
    };
    assert_eq!(request, start(USER));
    assert_eq!(game.session.dispatched(u, origin, &request, call), Ok(()));
    let other_origin = CorrelationId::from_u64(3);
    assert_eq!(game.session.handle(u, other_origin, start(USER)), Handled::Rejected(SessionError::SessionBusy));
    assert_eq!(
        game.session.handle(u, other_origin, check(USER, "house")),
        Handled::Rejected(SessionError::SessionBusy)
    );
    assert_eq!(
        game.session.dispatched(u, other_origin, &request, CorrelationId::from_u64(4)),
        Err(SessionError::SessionBusy)
    );
    // another principal is not held up
    let v = Principal::from_u64(21);
    assert_eq!(game.session.handle(v, other_origin, start(21)), Handled::Dispatch(start(21)));
    assert_eq!(game.session.dispatched(v, other_origin, &start(21), call), Err(SessionError::CorrelationInUse));
}

#[test]
fn stray_replies_are_dropped() {
    let mut game = init_game(3);
    let u = user();
    let origin = CorrelationId::from_u64(1);
    let call = CorrelationId::from_u64(2);
    game.session.dispatched(u, origin, &start(USER), call).unwrap();
    let started = Event::GameStarted { user: u };
    assert_eq!(
        game.session.handle_reply(CorrelationId::from_u64(9), started.clone()),
        ReplyOutcome::Dropped(Anomaly::StaleCorrelation)
    );
    assert_eq!(
        game.session.handle_reply(call, Event::GameStarted { user: Principal::from_u64(21) }),
        ReplyOutcome::Dropped(Anomaly::ForeignPrincipal)
    );
    let checked = Event::WordChecked { user: u, correct_positions: vec![0], contained_in_word: vec![] };
    assert_eq!(game.session.handle_reply(call, checked), ReplyOutcome::Dropped(Anomaly::UnexpectedReply));
    assert_eq!(
        game.session.handle_reply(call, Event::UserWin { user: u }),
        ReplyOutcome::Dropped(Anomaly::UnexpectedReply)
    );
    // the real reply still lands, once
    assert_eq!(game.session.handle_reply(call, started.clone()), ReplyOutcome::Resume(origin));
    assert_eq!(game.session.handle_reply(call, started), ReplyOutcome::Dropped(Anomaly::StaleCorrelation));
    assert_eq!(
        game.session.handle(u, origin, start(USER)),
        Handled::Reply(SessionEvent::GameStarted { user: u })
    );
    // a repeated resume of the completed request is ignored
    assert_eq!(game.session.handle(u, origin, start(USER)), Handled::Ignored);
}

#[test]
fn parked_request_returning_without_reply_times_out() {
    let mut game = init_game(3);
    game.send(USER, start(USER));
    let u = user();
    let origin = CorrelationId::from_u64(1);
    let call = CorrelationId::from_u64(2);
    let request = check(USER, "house");
    assert_eq!(game.session.handle(u, origin, request.clone()), Handled::Dispatch(request.clone()));
    game.session.dispatched(u, origin, &request, call).unwrap();
    assert_eq!(game.session.handle(u, origin, request.clone()), Handled::Rejected(SessionError::DownstreamTimeout));
    // the late reply no longer resolves
    let late = game.wordle.handle(&request, HORSE).unwrap();
    assert_eq!(game.session.handle_reply(call, late), ReplyOutcome::Dropped(Anomaly::StaleCorrelation));
    // the timed-out guess used up no attempt
    game.send(USER, check(USER, "house"));
    game.send(USER, check(USER, "house"));
    assert_eq!(game.send(USER, check(USER, "horse")), Handled::Reply(SessionEvent::UserWon { user: u }));
}

#[test]
fn principals_play_independently() {
    let mut game = init_game(3);
    game.send(USER, start(USER));
    assert_eq!(game.send(21, check(21, "house")), Handled::Rejected(SessionError::GameNotStarted));
    game.send(21, start(21));
    assert_eq!(game.send(21, check(21, "horse")), Handled::Reply(SessionEvent::UserWon { user: Principal::from_u64(21) }));
    assert!(matches!(game.send(USER, check(USER, "house")), Handled::Reply(SessionEvent::WordChecked { .. })));
}

#[test]
fn restart_mid_game_keeps_the_guesses_made() {
    let mut game = init_game(3);
    game.send(USER, start(USER));
    assert!(matches!(game.send(USER, check(USER, "house")), Handled::Reply(SessionEvent::WordChecked { .. })));
    assert_eq!(game.send(USER, start(USER)), Handled::Reply(SessionEvent::GameStarted { user: user() }));
    assert!(matches!(game.send(USER, check(USER, "house")), Handled::Reply(SessionEvent::WordChecked { .. })));
    // the guess before the restart still counts: this is the third
    assert_eq!(game.send(USER, check(USER, "house")), Handled::Reply(SessionEvent::UserLost { user: user() }));
}

#[test]
fn duplicate_resume_of_a_guess_is_ignored() {
    let mut game = init_game(3);
    game.send(USER, start(USER));
    let u = user();
    let origin = CorrelationId::from_u64(1);
    let call = CorrelationId::from_u64(2);
    let request = check(USER, "house");
    game.session.dispatched(u, origin, &request, call).unwrap();
    let reply = game.wordle.handle(&request, HORSE).unwrap();
    assert_eq!(game.session.handle_reply(call, reply), ReplyOutcome::Resume(origin));
    assert!(matches!(game.session.handle(u, origin, request.clone()), Handled::Reply(SessionEvent::WordChecked { .. })));
    assert_eq!(game.session.handle(u, origin, request.clone()), Handled::Ignored);
    assert_eq!(game.session.handle(u, origin, request), Handled::Ignored);
    // the ignored copies used up no attempt
    game.send(USER, check(USER, "house"));
    assert_eq!(game.send(USER, check(USER, "horse")), Handled::Reply(SessionEvent::UserWon { user: u }));
}
