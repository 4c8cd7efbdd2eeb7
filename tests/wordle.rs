use wordle_session::curve::BondingCurve;
use wordle_session::matching::compare_words;
use wordle_session::wordle::seeded_byte;
use wordle_session::{get_random_value, Action, Event, Principal, Wordle, WordleError};

/// Makes the responder pick "house".
const HOUSE: u8 = 0;

fn started_wordle() -> Wordle {
    let mut wordle = Wordle::new();
    let start = wordle.handle(&Action::StartGame { user: Principal::from_u64(2) }, HOUSE);
    assert_eq!(start, Ok(Event::GameStarted { user: Principal::from_u64(2) }));
    wordle
}

fn guess(wordle: &mut Wordle, word: &str) -> Result<Event, WordleError> {
    wordle.handle(&Action::CheckWord { user: Principal::from_u64(2), word: word.to_string() }, HOUSE)
}

fn checked(correct: Vec<u8>, contained: Vec<u8>) -> Result<Event, WordleError> {
    Ok(Event::WordChecked { user: Principal::from_u64(2), correct_positions: correct, contained_in_word: contained })
}

#[test]
fn test_start_game() {
    let mut wordle = Wordle::new();
    let start_game_result = wordle.start_game(Principal::from_u64(2), HOUSE);
    assert_eq!(start_game_result, Event::GameStarted { user: Principal::from_u64(2) });
}

#[test]
fn test_wordle_game_success() {
    let mut wordle = started_wordle();
    assert_eq!(guess(&mut wordle, "house"), checked(vec![0, 1, 2, 3, 4], vec![]));
}

#[test]
fn test_wordle_game_more_times() {
    let mut wordle = started_wordle();
    assert_eq!(guess(&mut wordle, "human"), checked(vec![0], vec![1]));
    assert_eq!(guess(&mut wordle, "heuan"), checked(vec![0, 2], vec![1]));
    assert_eq!(guess(&mut wordle, "house"), checked(vec![0, 1, 2, 3, 4], vec![]));
}

#[test]
fn guess_without_game_or_of_wrong_length_is_refused() {
    let mut wordle = Wordle::new();
    assert_eq!(guess(&mut wordle, "house"), Err(WordleError::NoGame));
    assert_eq!(guess(&mut wordle, "hous"), Err(WordleError::InvalidWordLength));
    let mut wordle = started_wordle();
    assert_eq!(guess(&mut wordle, "housed"), Err(WordleError::InvalidWordLength));
}

#[test]
fn random_byte_selects_the_word() {
    for (byte, word) in [(0u8, "house"), (1, "human"), (2, "horse"), (4, "human"), (255, "house")] {
        let mut wordle = Wordle::new();
        wordle.start_game(Principal::from_u64(2), byte);
        assert_eq!(guess(&mut wordle, word), checked(vec![0, 1, 2, 3, 4], vec![]));
    }
}

#[test]
fn repeated_letters_count_as_contained_each_time() {
    // one 'o' in the target, reported at four places of the guess
    let (correct, contained) = compare_words("horse", "oooos");
    assert_eq!(correct, vec![1]);
    assert_eq!(contained, vec![0, 2, 3, 4]);
    let (correct, contained) = compare_words("horse", "sssss");
    assert_eq!(correct, vec![3]);
    assert_eq!(contained, vec![0, 1, 2, 4]);
    let (correct, contained) = compare_words("horse", "quack");
    assert_eq!(correct, vec![]);
    assert_eq!(contained, vec![]);
}

#[test]
fn equal_words_are_correct_everywhere() {
    assert_eq!(compare_words("human", "human"), (vec![0, 1, 2, 3, 4], vec![]));
    assert_eq!(compare_words("", ""), (vec![], vec![]));
}

#[test]
fn random_value_and_seed() {
    assert_eq!(get_random_value(7, 3), 1);
    assert_eq!(get_random_value(2, 3), 2);
    assert_eq!(get_random_value(200, 1), 0);
    assert_eq!(seeded_byte(250, 10), 4);
    assert_eq!(seeded_byte(1, 2), 3);
    let mut wordle = Wordle::new();
    assert_eq!(wordle.next_seed(), 0);
    assert_eq!(wordle.next_seed(), 1);
    for _ in 0..253 {
        wordle.next_seed();
    }
    assert_eq!(wordle.next_seed(), 255);
    assert_eq!(wordle.next_seed(), 0);
}

fn curve(coin_amount: u128, native_amount: u128) -> BondingCurve {
    BondingCurve {
        token_balance: 0,
        is_active: true,
        creator: Principal::from_u64(1),
        twitter: String::new(),
        telegram: String::new(),
        website: String::new(),
        migration_target: 0,
        coin_amount,
        native_amount,
    }
}

#[test]
fn bonding_curve_prices() {
    let c = curve(1000, 0);
    assert_eq!(c.get_virtual_base_coin(100), 100);
    assert_eq!(c.get_token_output_amount(100, 100), 500);
    let c = curve(1000, 50);
    assert_eq!(c.get_virtual_base_coin(100), 150);
    // 70 * 1000 / 220 = 318.18...
    assert_eq!(c.get_token_output_amount(70, 100), 318);
    assert_eq!(c.get_reserves(), (1000, 50));
}
