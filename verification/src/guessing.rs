//! The decision rule of the number-guessing game: given a guess and the
//! secret, say which way the player is off. Drawing the secret, reading
//! input, and printing stay with the caller.

use vstd::prelude::*;

verus! {

/// How a guess relates to the secret.
#[derive(Debug, Clone, Copy, PartialEq, Eq, Structural)]
pub enum GuessOutcome {
    TooSmall,
    TooBig,
    Win,
}

/// Compares a guess against the secret.
pub fn evaluate_guess(guess: u32, secret: u32) -> (r: GuessOutcome)
    ensures
        r == GuessOutcome::TooSmall <==> guess < secret,
        r == GuessOutcome::TooBig <==> guess > secret,
        r == GuessOutcome::Win <==> guess == secret,
{
    if guess < secret {
        GuessOutcome::TooSmall
    } else if guess > secret {
        GuessOutcome::TooBig
    } else {
        GuessOutcome::Win
    }
}

} // verus!
