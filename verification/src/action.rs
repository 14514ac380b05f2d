//! The legal-move engine: which actions a player may take from a
//! state.

use vstd::prelude::*;
use crate::state_repr::{GameElements, GameState, SpecialSkill};
use crate::utils::{lemma_concat_contains, lemma_singleton_contains};

verus! {

/// An action a player can take on their turn: a one-step move in one
/// of the four directions, or the use of the active special skill.
#[derive(Debug, Clone, Copy, PartialEq, Eq, Structural)]
pub enum Action {
    Up,
    Down,
    Right,
    Left,
    SpSkill,
}

/// The coordinate offset of a directional action: `Up` and `Down`
/// step along the secondary coordinate, `Left` and `Right` along the
/// primary one. `SpSkill` does not move.
pub open spec fn dir_delta(a: Action) -> (int, int) {
    match a {
        Action::Up => (0int, -1int),
        Action::Down => (0int, 1int),
        Action::Right => (1int, 0int),
        Action::Left => (-1int, 0int),
        Action::SpSkill => (0int, 0int),
    }
}

/// The cell the given player would reach by taking `a`.
pub open spec fn move_target(s: GameState, player: u8, a: Action) -> (int, int) {
    (s.pos(player).0 + dir_delta(a).0, s.pos(player).1 + dir_delta(a).1)
}

/// When an action is legal: a direction is legal exactly when its
/// target cell lies on the board and is not `NonPassable`; the skill
/// action is legal exactly when the player holds an active skill.
pub open spec fn action_legal(s: GameState, player: u8, a: Action) -> bool {
    match a {
        Action::SpSkill => s.skill(player) != SpecialSkill::NoSkill,
        _ => {
            let (nx, ny) = move_target(s, player, a);
            s.in_bounds(nx, ny) && s.tile(nx, ny) != GameElements::NonPassable
        },
    }
}

/// The exact sequence `get_legal_action` returns: the legal actions in
/// the fixed order `Up`, `Down`, `Right`, `Left`, `SpSkill`.
pub open spec fn legal_actions_seq(s: GameState, player: u8) -> Seq<Action> {
    (if action_legal(s, player, Action::Up) {
        seq![Action::Up]
    } else {
        Seq::<Action>::empty()
    }) + (if action_legal(s, player, Action::Down) {
        seq![Action::Down]
    } else {
        Seq::<Action>::empty()
    }) + (if action_legal(s, player, Action::Right) {
        seq![Action::Right]
    } else {
        Seq::<Action>::empty()
    }) + (if action_legal(s, player, Action::Left) {
        seq![Action::Left]
    } else {
        Seq::<Action>::empty()
    }) + (if action_legal(s, player, Action::SpSkill) {
        seq![Action::SpSkill]
    } else {
        Seq::<Action>::empty()
    })
}

/// The legal-action sequence holds an action exactly when that action
/// is legal: membership in the result of `get_legal_action` and
/// [`action_legal`] agree. (law)
pub proof fn lemma_legal_actions_contains(s: GameState, player: u8, a: Action)
    ensures
        legal_actions_seq(s, player).contains(a) <==> action_legal(s, player, a),
{
    let s1 = if action_legal(s, player, Action::Up) {
        seq![Action::Up]
    } else {
        Seq::<Action>::empty()
    };
    let s2 = if action_legal(s, player, Action::Down) {
        seq![Action::Down]
    } else {
        Seq::<Action>::empty()
    };
    let s3 = if action_legal(s, player, Action::Right) {
        seq![Action::Right]
    } else {
        Seq::<Action>::empty()
    };
    let s4 = if action_legal(s, player, Action::Left) {
        seq![Action::Left]
    } else {
        Seq::<Action>::empty()
    };
    let s5 = if action_legal(s, player, Action::SpSkill) {
        seq![Action::SpSkill]
    } else {
        Seq::<Action>::empty()
    };
    lemma_concat_contains(s1 + s2 + s3 + s4, s5, a);
    lemma_concat_contains(s1 + s2 + s3, s4, a);
    lemma_concat_contains(s1 + s2, s3, a);
    lemma_concat_contains(s1, s2, a);
    lemma_singleton_contains(Action::Up, a);
    lemma_singleton_contains(Action::Down, a);
    lemma_singleton_contains(Action::Right, a);
    lemma_singleton_contains(Action::Left, a);
    lemma_singleton_contains(Action::SpSkill, a);
    assert(s1.contains(a) <==> a == Action::Up && action_legal(s, player, a));
    assert(s2.contains(a) <==> a == Action::Down && action_legal(s, player, a));
    assert(s3.contains(a) <==> a == Action::Right && action_legal(s, player, a));
    assert(s4.contains(a) <==> a == Action::Left && action_legal(s, player, a));
    assert(s5.contains(a) <==> a == Action::SpSkill && action_legal(s, player, a));
}

/// A directional action is legal exactly when the cell one step away
/// in its direction is on the board and not `NonPassable`. (law)
pub proof fn lemma_direction_legality(s: GameState, player: u8, a: Action)
    requires
        a != Action::SpSkill,
    ensures
        action_legal(s, player, a) <==> (s.in_bounds(
            move_target(s, player, a).0,
            move_target(s, player, a).1,
        ) && s.tile(move_target(s, player, a).0, move_target(s, player, a).1)
            != GameElements::NonPassable),
{
}

/// Whether the cell `(x, y)` can be stepped onto: it lies on the
/// square board described by `map_repr` and is not `NonPassable`.
pub fn validate_coor_move(x: i8, y: i8, map_repr: &Vec<Vec<GameElements>>) -> (r: bool)
    requires
        forall|i: int|
            0 <= i < map_repr@.len() ==> (#[trigger] map_repr@[i])@.len() == map_repr@.len(),
    ensures
        r == (0 <= x && 0 <= y && (x as int) < map_repr@.len() && (y as int) < map_repr@.len()
            && map_repr@[x as int]@[y as int] != GameElements::NonPassable),
{
    if x >= 0 && y >= 0 && (x as usize) < map_repr.len() && (y as usize) < map_repr.len() {
        let row: &Vec<GameElements> = &map_repr[x as usize];
        row[y as usize] != GameElements::NonPassable
    } else {
        false
    }
}

/// All actions the given player may take from `state`, in the fixed
/// order `Up`, `Down`, `Right`, `Left`, `SpSkill`. An action is in the
/// result exactly when it is legal.
pub fn get_legal_action(state: &GameState, player: u8) -> (r: Vec<Action>)
    requires
        state.wf(),
    ensures
        r@ == legal_actions_seq(*state, player),
        forall|a: Action| #[trigger] r@.contains(a) <==> action_legal(*state, player, a),
{
    let mut legal_vecs: Vec<Action> = Vec::new();
    proof {
        crate::state_repr::lemma_size_bound(*state);
    }
    let pos: (u8, u8) = state.get_player_position_with_idx(player);
    let (x_p, y_p): (i8, i8) = (pos.0 as i8, pos.1 as i8);

    let maprepr: &Vec<Vec<GameElements>> = state.get_map_representation();

    proof {
        assert(x_p as int == state.pos(player).0);
        assert(y_p as int == state.pos(player).1);
        assert(maprepr@.len() == state.size());
    }

    if validate_coor_move(x_p, y_p - 1, maprepr) {
        legal_vecs.push(Action::Up);
    }
    if validate_coor_move(x_p, y_p + 1, maprepr) {
        legal_vecs.push(Action::Down);
    }
    if validate_coor_move(x_p + 1, y_p, maprepr) {
        legal_vecs.push(Action::Right);
    }
    if validate_coor_move(x_p - 1, y_p, maprepr) {
        legal_vecs.push(Action::Left);
    }

    let current_sp_skill: &SpecialSkill = state.get_player_sp(player);
    if *current_sp_skill != SpecialSkill::NoSkill {
        legal_vecs.push(Action::SpSkill);
    }

    proof {
        assert(legal_vecs@ =~= legal_actions_seq(*state, player));
        assert forall|a: Action| #[trigger] legal_vecs@.contains(a) <==> action_legal(
            *state,
            player,
            a,
        ) by {
            lemma_legal_actions_contains(*state, player, a);
        }
    }
    legal_vecs
}

} // verus!
