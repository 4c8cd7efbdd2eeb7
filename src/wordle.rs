use vstd::prelude::*;

use crate::ids::Principal;
use crate::matching::{compare_words, contained_positions, correct_positions};
use crate::messages::{Action, Event};
use crate::maps::{game_entries, GameMap};

verus! {

/// The number of letters of every word of the game.
pub const WORD_LENGTH: usize = 5;

/// The words that a game may be played on, by index.
pub open spec fn bank_word(i: nat) -> Seq<char> {
    if i == 0 {
        "house"@
    } else if i == 1 {
        "human"@
    } else {
        "horse"@
    }
}

/// Why the responder refuses a request.
#[derive(Clone, Copy, Debug, PartialEq, Eq, Structural)]
pub enum WordleError {
    /// The guess does not have `WORD_LENGTH` letters.
    InvalidWordLength,
    /// The user has no game.
    NoGame,
}

/// Reduces a random byte to an index below `range`.
pub fn get_random_value(random_byte: u8, range: u8) -> (r: u8)
    requires
        range > 0,
    ensures
        r == random_byte % range,
        r < range,
{
    random_byte % range
}

/// The first byte of a seeded random input: `byte` advanced by `seed`, modulo 256.
pub fn seeded_byte(byte: u8, seed: u8) -> (r: u8)
    ensures
        r == (byte + seed) % 256,
{
    byte.wrapping_add(seed)
}

/// The word of the bank at index `i`; indices past the end give the last one.
fn bank_entry(i: u8) -> (r: &'static str)
    ensures
        r@ == bank_word(i as nat),
        r@.len() == WORD_LENGTH,
{
    proof {
        reveal_strlit("house");
        reveal_strlit("human");
        reveal_strlit("horse");
    }
    if i == 0 {
        "house"
    } else if i == 1 {
        "human"
    } else {
        "horse"
    }
}

/// The responder: the secret word of each user's game.
pub struct Wordle {
    games: GameMap,
    seed: u8,
}

/// The reply to a guess `word` of `user` against the secret `target`.
pub open spec fn checked(user: Principal, target: Seq<char>, word: Seq<char>, e: Event) -> bool {
    match e {
        Event::WordChecked { user: u, correct_positions: c, contained_in_word: k } => {
            &&& u == user
            &&& c@ == correct_positions(target, word)
            &&& k@ == contained_positions(target, word)
        },
        _ => false,
    }
}

impl Wordle {
    /// The secret word of each user's game.
    pub closed spec fn games(&self) -> Map<Principal, Seq<char>> {
        game_entries(self.games).map_values(|w: String| w@)
    }

    pub closed spec fn seed(&self) -> u8 {
        self.seed
    }

    /// Every secret word has `WORD_LENGTH` letters.
    pub closed spec fn wf(&self) -> bool {
        &&& forall|u: Principal| #[trigger]
            game_entries(self.games).contains_key(u) ==> game_entries(self.games)[u]@.len() == WORD_LENGTH
    }

    pub fn new() -> (r: Wordle)
        ensures
            r.wf(),
            r.games() == Map::<Principal, Seq<char>>::empty(),
            r.seed() == 0,
    {
        let r = Wordle { games: GameMap::new(), seed: 0 };
        assert(r.games() =~= Map::<Principal, Seq<char>>::empty());
        r
    }

    /// Hands out the current seed and advances it, modulo 256.
    pub fn next_seed(&mut self) -> (r: u8)
        requires
            old(self).wf(),
        ensures
            final(self).wf(),
            r == old(self).seed(),
            final(self).seed() == (old(self).seed() + 1) % 256,
            final(self).games() == old(self).games(),
    {
        let r = self.seed;
        self.seed = self.seed.wrapping_add(1);
        r
    }

    /// Starts a game of `user` on the bank word that `random_byte` selects,
    /// replacing any game that the user had.
    pub fn start_game(&mut self, user: Principal, random_byte: u8) -> (r: Event)
        requires
            old(self).wf(),
        ensures
            final(self).wf(),
            final(self).games() == old(self).games().insert(
                user,
                bank_word((random_byte % 3) as nat),
            ),
            final(self).seed() == old(self).seed(),
            r == (Event::GameStarted { user }),
    {
        let index = get_random_value(random_byte, 3);
        let word = bank_entry(index);
        self.games.insert(user, word.to_string());
        assert(self.games() =~= old(self).games().insert(user, bank_word((random_byte % 3) as nat)));
        Event::GameStarted { user }
    }

    /// Checks a guess of `user` against the secret word of the user's game.
    pub fn check_word(&self, user: Principal, word: &str) -> (r: Result<Event, WordleError>)
        requires
            self.wf(),
        ensures
            word@.len() != WORD_LENGTH ==> r == Err::<Event, WordleError>(
                WordleError::InvalidWordLength,
            ),
            word@.len() == WORD_LENGTH && !self.games().contains_key(user) ==> r == Err::<
                Event,
                WordleError,
            >(WordleError::NoGame),
            word@.len() == WORD_LENGTH && self.games().contains_key(user) ==> r is Ok && checked(
                user,
                self.games()[user],
                word@,
                r->Ok_0,
            ),
    {
        if word.unicode_len() != WORD_LENGTH {
            return Err(WordleError::InvalidWordLength);
        }
        match self.games.get(&user) {
            None => Err(WordleError::NoGame),
            Some(target) => {
                let (correct, contained) = compare_words(target.as_str(), word);
                Ok(Event::WordChecked { user, correct_positions: correct, contained_in_word: contained })
            },
        }
    }

    /// Answers a request; `random_byte` chooses the word of a new game.
    pub fn handle(&mut self, action: &Action, random_byte: u8) -> (r: Result<Event, WordleError>)
        requires
            old(self).wf(),
        ensures
            final(self).wf(),
            final(self).seed() == old(self).seed(),
            match action {
                Action::StartGame { user } => {
                    &&& final(self).games() == old(self).games().insert(
                        *user,
                        bank_word((random_byte % 3) as nat),
                    )
                    &&& r == Ok::<Event, WordleError>(Event::GameStarted { user: *user })
                },
                Action::CheckWord { user, word } => {
                    &&& final(self).games() == old(self).games()
                    &&& word@.len() != WORD_LENGTH ==> r == Err::<Event, WordleError>(
                        WordleError::InvalidWordLength,
                    )
                    &&& word@.len() == WORD_LENGTH && !old(self).games().contains_key(*user) ==> r
                        == Err::<Event, WordleError>(WordleError::NoGame)
                    &&& word@.len() == WORD_LENGTH && old(self).games().contains_key(*user) ==> r is Ok
                        && checked(*user, old(self).games()[*user], word@, r->Ok_0)
                },
            },
    {
        match action {
            Action::StartGame { user } => Ok(self.start_game(*user, random_byte)),
            Action::CheckWord { user, word } => self.check_word(*user, word.as_str()),
        }
    }
}

} // verus!
