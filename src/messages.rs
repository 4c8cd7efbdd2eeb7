use vstd::prelude::*;

use crate::ids::Principal;
use crate::model::{ActionView, EventView, SessionEventView};

verus! {

/// A request of a principal, forwarded as is to the responder.
#[derive(Clone, Debug, PartialEq, Eq)]
pub enum Action {
    StartGame { user: Principal },
    CheckWord { user: Principal, word: String },
}

/// A reply of the responder.
#[derive(Clone, Debug, PartialEq, Eq)]
pub enum Event {
    GameStarted { user: Principal },
    WordChecked { user: Principal, correct_positions: Vec<u8>, contained_in_word: Vec<u8> },
    UserWin { user: Principal },
}

/// An outcome delivered to a principal.
#[derive(Clone, Debug, PartialEq, Eq)]
pub enum SessionEvent {
    GameStarted { user: Principal },
    WordChecked { user: Principal, correct_positions: Vec<u8>, contained_in_word: Vec<u8> },
    UserWon { user: Principal },
    UserLost { user: Principal },
}

/// Parameters of a session, fixed at initialisation.
#[derive(Clone, Copy, Debug, PartialEq, Eq)]
pub struct GameSessionInit {
    pub wordle_address: Principal,
    pub max_play_times: u32,
}

impl View for Action {
    type V = ActionView;

    open spec fn view(&self) -> ActionView {
        match self {
            Action::StartGame { user } => ActionView::StartGame { user: *user },
            Action::CheckWord { user, word } => ActionView::CheckWord { user: *user, word: word@ },
        }
    }
}

impl View for Event {
    type V = EventView;

    open spec fn view(&self) -> EventView {
        match self {
            Event::GameStarted { user } => EventView::GameStarted { user: *user },
            Event::WordChecked { user, correct_positions, contained_in_word } => EventView::WordChecked {
                user: *user,
                correct: correct_positions@,
                contained: contained_in_word@,
            },
            Event::UserWin { user } => EventView::UserWin { user: *user },
        }
    }
}

impl View for SessionEvent {
    type V = SessionEventView;

    open spec fn view(&self) -> SessionEventView {
        match self {
            SessionEvent::GameStarted { user } => SessionEventView::GameStarted { user: *user },
            SessionEvent::WordChecked { user, correct_positions, contained_in_word } => {
                SessionEventView::WordChecked {
                    user: *user,
                    correct: correct_positions@,
                    contained: contained_in_word@,
                }
            },
            SessionEvent::UserWon { user } => SessionEventView::UserWon { user: *user },
            SessionEvent::UserLost { user } => SessionEventView::UserLost { user: *user },
        }
    }
}

} // verus!
