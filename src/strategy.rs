//! How the computer opponent chooses how many pebbles to take.

use vstd::prelude::*;

use crate::io::{DifficultyLevel, GameState, Player};

verus! {

/// The number of pebbles the program takes from a pile of `r` pebbles
/// (`r > 0`) when at most `m` may be taken per turn.
///
/// On `Easy` it always takes one. On `Hard` it takes the whole pile when it
/// can; otherwise it takes `(r - 1) % (m + 1)`, or one pebble when that is
/// zero.
pub open spec fn program_take(difficulty: DifficultyLevel, r: nat, m: nat) -> nat {
    match difficulty {
        DifficultyLevel::Easy => 1,
        DifficultyLevel::Hard => {
            if r <= m {
                r
            } else {
                let k = ((r - 1) as nat) % (m + 1);
                if k == 0 {
                    1
                } else {
                    k
                }
            }
        },
    }
}

/// Chooses the program's move on a non-empty pile of `remaining` pebbles.
pub fn program_move(difficulty: DifficultyLevel, remaining: u32, max_per_turn: u32) -> (taken: u32)
    requires
        remaining > 0,
    ensures
        taken as nat == program_take(difficulty, remaining as nat, max_per_turn as nat),
        1 <= taken <= remaining,
{
    match difficulty {
        DifficultyLevel::Easy => 1,
        DifficultyLevel::Hard => {
            if remaining <= max_per_turn {
                remaining
            } else {
                let optimal: u32 = (remaining - 1) % (max_per_turn + 1);
                if optimal == 0 {
                    1
                } else {
                    optimal
                }
            }
        },
    }
}

/// The state reached from `game` when the user asks for the amounts in
/// `amounts`, one round each, until a side has won.
pub open spec fn play(game: GameState, amounts: Seq<u32>) -> GameState
    decreases amounts.len(),
{
    if amounts.len() == 0 || game.winner is Some {
        game
    } else {
        play(game.after_turn(amounts[0]).0, amounts.drop_first())
    }
}

/// In every round of `play(game, amounts)` the user's amount is valid and
/// leaves the program a pile of one more than a multiple of
/// `max_pebbles_per_turn + 1`.
pub open spec fn program_faces_one(game: GameState, amounts: Seq<u32>) -> bool
    decreases amounts.len(),
{
    if amounts.len() == 0 || game.winner is Some {
        true
    } else {
        let amount = amounts[0];
        &&& game.is_valid_amount(amount)
        &&& (game.pebbles_remaining - amount) % (game.max_pebbles_per_turn + 1) == 1
        &&& program_faces_one(game.after_turn(amount).0, amounts.drop_first())
    }
}

/// On `Hard`, a program that faces a pile of one more than a multiple of
/// `max_pebbles_per_turn + 1` in every round wins the game: it takes one
/// pebble (or the last one), the user can never empty the pile, and the game
/// ends with the program as the winner once enough rounds are played.
pub proof fn lemma_hard_program_wins(game: GameState, amounts: Seq<u32>)
    requires
        game.difficulty == DifficultyLevel::Hard,
        game.winner is None,
        game.pebbles_remaining > 0,
        amounts.len() >= game.pebbles_remaining,
        program_faces_one(game, amounts),
    ensures
        play(game, amounts).winner == Some(Player::Program),
    decreases amounts.len(),
{
    let amount = amounts[0];
    let m = game.max_pebbles_per_turn as int;
    let left = game.pebbles_remaining - amount;
    assert(left % (m + 1) == 1);
    assert(left != 0) by {
        vstd::arithmetic::div_mod::lemma_small_mod(0, (m + 1) as nat);
    };
    let next = game.after_turn(amount).0;
    if left > m {
        assert((left - 1) % (m + 1) == 0) by {
            let q = left / (m + 1);
            vstd::arithmetic::div_mod::lemma_fundamental_div_mod(left, m + 1);
            vstd::arithmetic::div_mod::lemma_mod_multiples_basic(q, m + 1);
            assert(left - 1 == q * (m + 1)) by (nonlinear_arith)
                requires
                    left == (m + 1) * q + 1,
            ;
        };
        assert(next.pebbles_remaining == left - 1);
        lemma_hard_program_wins(next, amounts.drop_first());
    } else {
        assert(next.winner == Some(Player::Program));
        assert(play(next, amounts.drop_first()) == next);
    }
}

} // verus!
