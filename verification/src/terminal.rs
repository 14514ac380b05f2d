//! The terminal evaluator: whether the game has ended, and the
//! outcome score.

use vstd::prelude::*;
use crate::action::{action_legal, get_legal_action, Action};
use crate::state_repr::GameState;

verus! {

/// The given player has no legal action at all: no direction is open
/// and no skill is held.
pub open spec fn stuck(s: GameState, player: u8) -> bool {
    forall|a: Action| !action_legal(s, player, a)
}

/// Both players occupy the same cell.
pub open spec fn collided(s: GameState) -> bool {
    s.pos(0) == s.pos(1)
}

/// The game has ended: both players are stuck at once, or the players
/// collided.
pub open spec fn is_terminal_spec(s: GameState) -> bool {
    (stuck(s, 0) && stuck(s, 1)) || collided(s)
}

/// Whether `state` is an ended game: no move is left for either
/// player (a held skill counts as a move), or the players stand on
/// the same cell.
pub fn is_terminal_state(state: &GameState) -> (r: bool)
    requires
        state.wf(),
    ensures
        r == is_terminal_spec(*state),
{
    let p1_actions = get_legal_action(state, 0);
    let p2_actions = get_legal_action(state, 1);

    let pos = state.get_player_position();
    let ((x1, y1), (x2, y2)) = pos;

    proof {
        if p1_actions@.len() > 0 {
            assert(p1_actions@.contains(p1_actions@[0]));
        }
        if p2_actions@.len() > 0 {
            assert(p2_actions@.contains(p2_actions@[0]));
        }
    }

    if p1_actions.len() == 0 && p2_actions.len() == 0 {
        return true;
    }

    if x1 == x2 && y1 == y2 {
        return true;
    }

    false
}

/// The score of the chosen player once the game has ended: one
/// hundred points for the strictly higher attack score, minus one
/// hundred for the strictly lower, zero for a draw.
pub open spec fn score_spec(s: GameState, is_player_one: bool) -> int {
    let own = s.atk(if is_player_one { 0u8 } else { 1u8 });
    let other = s.atk(if is_player_one { 1u8 } else { 0u8 });
    if own > other {
        100
    } else if own < other {
        -100
    } else {
        0
    }
}

/// The outcome for the chosen player: `100` for a win, `-100` for a
/// loss, `0` for a draw, judged by the attack scores alone.
pub fn get_point_for_player_on_terminal(state: &GameState, is_player_one: bool) -> (r: i16)
    ensures
        r as int == score_spec(*state, is_player_one),
{
    if state.get_player_atk(is_player_one) > state.get_player_atk(!is_player_one) {
        100
    } else if state.get_player_atk(is_player_one) < state.get_player_atk(!is_player_one) {
        -100
    } else {
        0
    }
}

/// Zero-sum scoring (law): the two players' scores are always exact
/// negations of each other, and both are zero exactly when the attack
/// scores are equal — the draw case.
pub proof fn lemma_score_zero_sum(s: GameState)
    ensures
        score_spec(s, true) == -score_spec(s, false),
        (score_spec(s, true) == 0 && score_spec(s, false) == 0) <==> s.atk(0) == s.atk(1),
{
}

} // verus!
