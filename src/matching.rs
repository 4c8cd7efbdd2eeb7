use vstd::prelude::*;
use vstd::string::*;

verus! {

/// Indices below `n` where the guess has the target's letter, in increasing order.
pub open spec fn correct_upto(target: Seq<char>, guess: Seq<char>, n: nat) -> Seq<u8>
    decreases n,
{
    if n == 0 {
        Seq::empty()
    } else {
        let prev = correct_upto(target, guess, (n - 1) as nat);
        if guess[n - 1] == target[n - 1] {
            prev.push((n - 1) as u8)
        } else {
            prev
        }
    }
}

/// Indices below `n` where the guess has a wrong letter that occurs somewhere in
/// the target, in increasing order. A letter repeated in the guess is reported
/// at each of its places, however often the target holds it.
pub open spec fn contained_upto(target: Seq<char>, guess: Seq<char>, n: nat) -> Seq<u8>
    decreases n,
{
    if n == 0 {
        Seq::empty()
    } else {
        let prev = contained_upto(target, guess, (n - 1) as nat);
        if guess[n - 1] != target[n - 1] && target.contains(guess[n - 1]) {
            prev.push((n - 1) as u8)
        } else {
            prev
        }
    }
}

/// The correct positions of a guess against a target of the same length.
pub open spec fn correct_positions(target: Seq<char>, guess: Seq<char>) -> Seq<u8> {
    correct_upto(target, guess, target.len())
}

/// The contained positions of a guess against a target of the same length.
pub open spec fn contained_positions(target: Seq<char>, guess: Seq<char>) -> Seq<u8> {
    contained_upto(target, guess, target.len())
}

/// Every index `0, 1, ..., n - 1`, in order.
pub open spec fn all_indices(n: nat) -> Seq<u8> {
    Seq::new(n, |i: int| i as u8)
}

/// A guess equal to its target is correct at every index.
pub proof fn lemma_equal_guess_all_correct(target: Seq<char>, n: nat)
    requires
        n <= target.len(),
        n <= 256,
    ensures
        correct_upto(target, target, n) == all_indices(n),
    decreases n,
{
    if n > 0 {
        lemma_equal_guess_all_correct(target, (n - 1) as nat);
        assert(correct_upto(target, target, n) =~= all_indices(n));
    }
}

/// Whether `c` occurs in `s`.
fn occurs_in(s: &str, c: char) -> (r: bool)
    ensures
        r == s@.contains(c),
{
    let n = s.unicode_len();
    let mut i: usize = 0;
    while i < n
        invariant
            n == s@.len(),
            i <= n,
            forall|j: int| 0 <= j < i ==> s@[j] != c,
        decreases n - i,
    {
        if s.get_char(i) == c {
            assert(s@[i as int] == c);
            return true;
        }
        i = i + 1;
    }
    false
}

/// Compares a guess with a target of the same length: the indices where the
/// letters agree, and the indices whose letter is wrong there but occurs in
/// the target.
pub fn compare_words(target: &str, guess: &str) -> (r: (Vec<u8>, Vec<u8>))
    requires
        guess@.len() == target@.len(),
        target@.len() <= 256,
    ensures
        r.0@ == correct_positions(target@, guess@),
        r.1@ == contained_positions(target@, guess@),
{
    let n = target.unicode_len();
    let mut correct: Vec<u8> = Vec::new();
    let mut contained: Vec<u8> = Vec::new();
    let mut i: usize = 0;
    while i < n
        invariant
            n == target@.len(),
            n == guess@.len(),
            n <= 256,
            i <= n,
            correct@ == correct_upto(target@, guess@, i as nat),
            contained@ == contained_upto(target@, guess@, i as nat),
        decreases n - i,
    {
        let a = target.get_char(i);
        let b = guess.get_char(i);
        if a == b {
            correct.push(i as u8);
        } else if occurs_in(target, b) {
            contained.push(i as u8);
        }
        i = i + 1;
    }
    (correct, contained)
}

} // verus!
