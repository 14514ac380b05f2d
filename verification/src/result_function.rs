//! The transition function: applying an action to a state yields the
//! next state, including tile pickup effects and special-skill
//! resolution.

use vstd::prelude::*;
use crate::action::{dir_delta, move_target, Action};
use crate::state_repr::{
    same_atks, same_grid, same_positions, same_side, same_skills, GameElements, GameState,
    SpecialSkill,
};

verus! {

/// The index of the other player (for the two real player indices).
pub open spec fn opposite(player: u8) -> u8 {
    if player == 0 {
        1u8
    } else {
        0u8
    }
}

/// The tile a player stands on.
pub open spec fn landed_tile(s: GameState, player: u8) -> GameElements {
    s.tile(s.pos(player).0, s.pos(player).1)
}

/// The skill a player holds after landing on a tile: a skill tile
/// hands out its skill, overwriting whatever was held; any other tile
/// leaves the held skill alone.
pub open spec fn tile_effect_skill(t: GameElements, held: SpecialSkill) -> SpecialSkill {
    match t {
        GameElements::MinusATKBonusSpTile => SpecialSkill::ReduceEnemiesATK,
        GameElements::ClearRoadBonusSpTile => SpecialSkill::ClearRoadTile,
        _ => held,
    }
}

/// The attack score a player has after landing on a tile: an attack
/// bonus tile adds one point; any other tile changes nothing.
pub open spec fn tile_effect_atk(t: GameElements, atk: int) -> int {
    if t == GameElements::BonusATKBonusTile {
        atk + 1
    } else {
        atk
    }
}

/// Whether `(i, j)` is one of the four orthogonal neighbours of
/// `(x, y)`.
pub open spec fn neighbor_of(x: int, y: int, i: int, j: int) -> bool {
    ||| (i == x && j == y - 1)
    ||| (i == x && j == y + 1)
    ||| (i == x + 1 && j == y)
    ||| (i == x - 1 && j == y)
}

/// Whether `(i, j)` is a cell a ClearRoad use at `(x, y)` resets: an
/// on-board orthogonal neighbour that is `NonPassable`.
pub open spec fn cleared_neighbor(s: GameState, x: int, y: int, i: int, j: int) -> bool {
    neighbor_of(x, y, i, j) && s.in_bounds(i, j) && s.tile(i, j) == GameElements::NonPassable
}

/// How a directional move transforms the state: the vacated cell is
/// sealed `NonPassable`, the mover stands on the target cell, and the
/// tile found there — read in the new state, which agrees with the old
/// one everywhere but the vacated cell — has applied its effect to the
/// mover's skill and attack. The other player is untouched.
pub open spec fn moved_state(s: GameState, r: GameState, player: u8, a: Action) -> bool {
    let (x, y) = s.pos(player);
    let (nx, ny) = move_target(s, player, a);
    let landed = s.tile(nx, ny);
    &&& r.size() == s.size()
    &&& forall|i: int, j: int|
        s.in_bounds(i, j) ==> #[trigger] r.tile(i, j) == (if i == x && j == y {
            GameElements::NonPassable
        } else {
            s.tile(i, j)
        })
    &&& forall|q: u8| #[trigger] r.pos(q) == (if same_side(player, q) {
        (nx, ny)
    } else {
        s.pos(q)
    })
    &&& forall|q: u8| #[trigger] r.skill(q) == (if same_side(player, q) {
        tile_effect_skill(landed, s.skill(q))
    } else {
        s.skill(q)
    })
    &&& forall|q: u8| #[trigger] r.atk(q) == (if same_side(player, q) {
        tile_effect_atk(landed, s.atk(q))
    } else {
        s.atk(q)
    })
}

/// How a skill use transforms the state: nobody moves; a held
/// ClearRoad resets the `NonPassable` orthogonal neighbours of the
/// actor to `Passable`; a held ReduceEnemiesATK takes one attack point
/// from the opponent; holding nothing changes nothing. In every case
/// the actor's skill is spent, reset to none.
pub open spec fn skill_used_state(s: GameState, r: GameState, player: u8) -> bool {
    let (x, y) = s.pos(player);
    &&& r.size() == s.size()
    &&& (if s.skill(player) == SpecialSkill::ClearRoadTile {
        forall|i: int, j: int|
            s.in_bounds(i, j) ==> #[trigger] r.tile(i, j) == (if cleared_neighbor(s, x, y, i, j) {
                GameElements::Passable
            } else {
                s.tile(i, j)
            })
    } else {
        same_grid(s, r)
    })
    &&& same_positions(s, r)
    &&& forall|q: u8| #[trigger] r.skill(q) == (if same_side(player, q) {
        SpecialSkill::NoSkill
    } else {
        s.skill(q)
    })
    &&& forall|q: u8| #[trigger] r.atk(q) == (if s.skill(player) == SpecialSkill::ReduceEnemiesATK
        && same_side(opposite(player), q) {
        s.atk(q) - 1
    } else {
        s.atk(q)
    })
}

/// The full transition relation of [`result_after_action`]: a skill
/// action resolves the held skill, any other action is a directional
/// move.
pub open spec fn apply_rel(s: GameState, r: GameState, player: u8, a: Action) -> bool {
    if a == Action::SpSkill {
        skill_used_state(s, r, player)
    } else {
        moved_state(s, r, player, a)
    }
}

/// The attack scores leave room for the effect of the action, so the
/// score arithmetic cannot overflow the machine integer holding it:
/// a move onto an attack bonus needs headroom above the mover's score,
/// a ReduceEnemiesATK use needs headroom below the opponent's.
pub open spec fn attack_headroom(s: GameState, player: u8, a: Action) -> bool {
    match a {
        Action::SpSkill => s.skill(player) == SpecialSkill::ReduceEnemiesATK ==> s.atk(
            opposite(player),
        ) > i16::MIN,
        _ => s.tile(move_target(s, player, a).0, move_target(s, player, a).1)
            == GameElements::BonusATKBonusTile ==> s.atk(player) < i16::MAX,
    }
}

/// Apply `action` for `player` to `state` and return the resulting
/// state; the input state is never changed. The action must be legal
/// for the player — the caller checks this, the function does not.
pub fn result_after_action(state: &GameState, action: &Action, player: u8) -> (r: GameState)
    requires
        state.wf(),
        player < 2,
        crate::action::action_legal(*state, player, *action),
        attack_headroom(*state, player, *action),
    ensures
        r.wf(),
        apply_rel(*state, r, player, *action),
{
    proof {
        crate::state_repr::lemma_size_bound(*state);
    }
    let (xp, yp): (u8, u8) = state.get_player_position_with_idx(player);

    let mut new_state = state.clone();

    match action {
        Action::Down => {
            new_state.change_elem_on_coor(xp as usize, yp as usize, GameElements::NonPassable);
            new_state.change_player_pos(player, xp as usize, (yp + 1) as usize);
            change_game_state_after_move(&mut new_state, player);
        },
        Action::Up => {
            new_state.change_elem_on_coor(xp as usize, yp as usize, GameElements::NonPassable);
            new_state.change_player_pos(player, xp as usize, (yp - 1) as usize);
            change_game_state_after_move(&mut new_state, player);
        },
        Action::Left => {
            new_state.change_elem_on_coor(xp as usize, yp as usize, GameElements::NonPassable);
            new_state.change_player_pos(player, (xp - 1) as usize, yp as usize);
            change_game_state_after_move(&mut new_state, player);
        },
        Action::Right => {
            new_state.change_elem_on_coor(xp as usize, yp as usize, GameElements::NonPassable);
            new_state.change_player_pos(player, (xp + 1) as usize, yp as usize);
            change_game_state_after_move(&mut new_state, player);
        },
        Action::SpSkill => {
            use_sp_skill(&mut new_state, player);
        },
    }
    new_state
}

/// The exact sequence `get_unpassable_on_clear_road_sp_skill`
/// returns: of the four candidate neighbours of `(xp, yp)` — up,
/// down, right, left, in that fixed order — exactly those that a
/// ClearRoad use resets, each at most once.
pub open spec fn cleared_neighbors_seq(s: GameState, xp: i8, yp: i8) -> Seq<(i8, i8)> {
    (if cleared_neighbor(s, xp as int, yp as int, xp as int, yp as int - 1) {
        seq![(xp, (yp - 1) as i8)]
    } else {
        Seq::<(i8, i8)>::empty()
    }) + (if cleared_neighbor(s, xp as int, yp as int, xp as int, yp as int + 1) {
        seq![(xp, (yp + 1) as i8)]
    } else {
        Seq::<(i8, i8)>::empty()
    }) + (if cleared_neighbor(s, xp as int, yp as int, xp as int + 1, yp as int) {
        seq![((xp + 1) as i8, yp)]
    } else {
        Seq::<(i8, i8)>::empty()
    }) + (if cleared_neighbor(s, xp as int, yp as int, xp as int - 1, yp as int) {
        seq![((xp - 1) as i8, yp)]
    } else {
        Seq::<(i8, i8)>::empty()
    })
}

/// The cells a ClearRoad use at `(xp, yp)` resets: the on-board
/// orthogonal neighbours that are currently `NonPassable`, in the
/// fixed order up, down, right, left. A cell is in the result exactly
/// when a ClearRoad use resets it.
pub fn get_unpassable_on_clear_road_sp_skill(state: &GameState, xp: i8, yp: i8) -> (r: Vec<
    (i8, i8),
>)
    requires
        state.grid_wf(),
        0 <= xp < state.size(),
        0 <= yp < state.size(),
    ensures
        r@ == cleared_neighbors_seq(*state, xp, yp),
        forall|c: (i8, i8)| #[trigger] r@.contains(c) <==> cleared_neighbor(
            *state,
            xp as int,
            yp as int,
            c.0 as int,
            c.1 as int,
        ),
{
    proof {
        crate::state_repr::lemma_size_bound(*state);
    }
    let field_size: i8 = state.get_height_width() as i8;
    let mut tuple_filtered: Vec<(i8, i8)> = Vec::new();

    if crate::utils::is_not_out_of_bound(xp, yp - 1, field_size) {
        if *state.get_elem_on_coor(xp as usize, (yp - 1) as usize) == GameElements::NonPassable {
            tuple_filtered.push((xp, yp - 1));
        }
    }
    if crate::utils::is_not_out_of_bound(xp, yp + 1, field_size) {
        if *state.get_elem_on_coor(xp as usize, (yp + 1) as usize) == GameElements::NonPassable {
            tuple_filtered.push((xp, yp + 1));
        }
    }
    if crate::utils::is_not_out_of_bound(xp + 1, yp, field_size) {
        if *state.get_elem_on_coor((xp + 1) as usize, yp as usize) == GameElements::NonPassable {
            tuple_filtered.push((xp + 1, yp));
        }
    }
    if crate::utils::is_not_out_of_bound(xp - 1, yp, field_size) {
        if *state.get_elem_on_coor((xp - 1) as usize, yp as usize) == GameElements::NonPassable {
            tuple_filtered.push((xp - 1, yp));
        }
    }

    proof {
        let x = xp as int;
        let y = yp as int;
        let c_up: (i8, i8) = (xp, (yp - 1) as i8);
        let c_down: (i8, i8) = (xp, (yp + 1) as i8);
        let c_right: (i8, i8) = ((xp + 1) as i8, yp);
        let c_left: (i8, i8) = ((xp - 1) as i8, yp);
        let s_up: Seq<(i8, i8)> = if cleared_neighbor(*state, x, y, x, y - 1) {
            seq![c_up]
        } else {
            Seq::<(i8, i8)>::empty()
        };
        let s_down: Seq<(i8, i8)> = if cleared_neighbor(*state, x, y, x, y + 1) {
            seq![c_down]
        } else {
            Seq::<(i8, i8)>::empty()
        };
        let s_right: Seq<(i8, i8)> = if cleared_neighbor(*state, x, y, x + 1, y) {
            seq![c_right]
        } else {
            Seq::<(i8, i8)>::empty()
        };
        let s_left: Seq<(i8, i8)> = if cleared_neighbor(*state, x, y, x - 1, y) {
            seq![c_left]
        } else {
            Seq::<(i8, i8)>::empty()
        };
        assert(tuple_filtered@ =~= s_up + s_down + s_right + s_left);
        assert(tuple_filtered@ =~= cleared_neighbors_seq(*state, xp, yp));
        assert forall|c: (i8, i8)| #[trigger] tuple_filtered@.contains(c) <==> cleared_neighbor(
            *state,
            x,
            y,
            c.0 as int,
            c.1 as int,
        ) by {
            crate::utils::lemma_concat_contains(s_up + s_down + s_right, s_left, c);
            crate::utils::lemma_concat_contains(s_up + s_down, s_right, c);
            crate::utils::lemma_concat_contains(s_up, s_down, c);
            crate::utils::lemma_singleton_contains(c_up, c);
            crate::utils::lemma_singleton_contains(c_down, c);
            crate::utils::lemma_singleton_contains(c_right, c);
            crate::utils::lemma_singleton_contains(c_left, c);
        }
    }
    tuple_filtered
}

/// Resolve and spend the given player's active skill; the player does
/// not move.
pub fn use_sp_skill(state: &mut GameState, player: u8)
    requires
        old(state).wf(),
        player < 2,
        old(state).skill(player) == SpecialSkill::ReduceEnemiesATK ==> old(state).atk(
            opposite(player),
        ) > i16::MIN,
    ensures
        final(state).wf(),
        skill_used_state(*old(state), *final(state), player),
{
    proof {
        crate::state_repr::lemma_size_bound(*old(state));
    }
    let ghost s0 = *old(state);
    let (xp, yp): (u8, u8) = state.get_player_position_with_idx(player);
    let sp_skill: SpecialSkill = *state.get_player_sp(player);
    let opposite_player: u8 = 1 - player;

    match sp_skill {
        SpecialSkill::ClearRoadTile => {
            let coor_not_passable = get_unpassable_on_clear_road_sp_skill(
                state,
                xp as i8,
                yp as i8,
            );
            let n: usize = coor_not_passable.len();
            for k in 0..n
                invariant
                    n == coor_not_passable@.len(),
                    state.grid_wf(),
                    state.size() == s0.size(),
                    forall|c: (i8, i8)| #[trigger] coor_not_passable@.contains(c)
                        <==> cleared_neighbor(s0, s0.pos(player).0, s0.pos(player).1, c.0 as int, c.1 as int),
                    forall|i: int, j: int|
                        s0.in_bounds(i, j) ==> #[trigger] state.tile(i, j) == (if (exists|m: int|
                            0 <= m < k && (coor_not_passable@[m].0 as int,
                            coor_not_passable@[m].1 as int) == (i, j)) {
                            GameElements::Passable
                        } else {
                            s0.tile(i, j)
                        }),
                    same_positions(s0, *state),
                    same_skills(s0, *state),
                    same_atks(s0, *state),
            {
                let c: (i8, i8) = coor_not_passable[k];
                proof {
                    assert(coor_not_passable@.contains(c));
                }
                state.change_elem_on_coor(c.0 as usize, c.1 as usize, GameElements::Passable);
                proof {
                    assert forall|i: int, j: int| s0.in_bounds(i, j) implies #[trigger] state.tile(
                        i,
                        j,
                    ) == (if (exists|m: int|
                        0 <= m < k + 1 && (coor_not_passable@[m].0 as int,
                        coor_not_passable@[m].1 as int) == (i, j)) {
                        GameElements::Passable
                    } else {
                        s0.tile(i, j)
                    }) by {
                        if (i, j) == (c.0 as int, c.1 as int) {
                            assert((coor_not_passable@[k as int].0 as int,
                            coor_not_passable@[k as int].1 as int) == (i, j));
                        }
                    }
                }
            }
            proof {
                assert forall|i: int, j: int| s0.in_bounds(i, j) implies #[trigger] state.tile(
                    i,
                    j,
                ) == (if cleared_neighbor(s0, s0.pos(player).0, s0.pos(player).1, i, j) {
                    GameElements::Passable
                } else {
                    s0.tile(i, j)
                }) by {
                    if cleared_neighbor(s0, s0.pos(player).0, s0.pos(player).1, i, j) {
                        let ci: i8 = i as i8;
                        let cj: i8 = j as i8;
                        assert(coor_not_passable@.contains((ci, cj)));
                        let m = choose|m: int|
                            0 <= m < coor_not_passable@.len() && coor_not_passable@[m] == (ci, cj);
                        assert((coor_not_passable@[m].0 as int, coor_not_passable@[m].1 as int) == (
                            i,
                            j,
                        ));
                    } else {
                        if exists|m: int|
                            0 <= m < coor_not_passable@.len() && (coor_not_passable@[m].0 as int,
                            coor_not_passable@[m].1 as int) == (i, j) {
                            let m = choose|m: int|
                                0 <= m < coor_not_passable@.len() && (
                                coor_not_passable@[m].0 as int,
                                coor_not_passable@[m].1 as int) == (i, j);
                            assert(coor_not_passable@.contains(coor_not_passable@[m]));
                        }
                    }
                }
            }
        },
        SpecialSkill::ReduceEnemiesATK => {
            proof {
                crate::state_repr::lemma_atk_range(*state, opposite_player);
            }
            state.change_player_atk(opposite_player, -1);
        },
        SpecialSkill::NoSkill => {},
    }
    state.set_player_sp(player, SpecialSkill::NoSkill);
}

/// Apply the effect of the tile the given player has just landed on:
/// an attack bonus adds a point, a skill tile hands out its skill,
/// anything else does nothing.
pub fn change_game_state_after_move(state: &mut GameState, player: u8)
    requires
        old(state).wf(),
        landed_tile(*old(state), player) == GameElements::BonusATKBonusTile ==> old(state).atk(
            player,
        ) < i16::MAX,
    ensures
        final(state).wf(),
        final(state).size() == old(state).size(),
        same_grid(*old(state), *final(state)),
        same_positions(*old(state), *final(state)),
        forall|q: u8| #[trigger] final(state).skill(q) == (if same_side(player, q) {
            tile_effect_skill(landed_tile(*old(state), player), old(state).skill(q))
        } else {
            old(state).skill(q)
        }),
        forall|q: u8| #[trigger] final(state).atk(q) == (if same_side(player, q) {
            tile_effect_atk(landed_tile(*old(state), player), old(state).atk(q))
        } else {
            old(state).atk(q)
        }),
{
    let (xp, yp): (u8, u8) = state.get_player_position_with_idx(player);
    let game_element_on_coor: GameElements = *state.get_elem_on_coor(xp as usize, yp as usize);

    match game_element_on_coor {
        GameElements::BonusATKBonusTile => {
            proof {
                crate::state_repr::lemma_atk_range(*state, player);
            }
            state.change_player_atk(player, 1);
        },
        GameElements::MinusATKBonusSpTile => {
            state.set_player_sp(player, SpecialSkill::ReduceEnemiesATK);
        },
        GameElements::ClearRoadBonusSpTile => {
            state.set_player_sp(player, SpecialSkill::ClearRoadTile);
        },
        _ => {},
    }
}

/// Vacate-and-seal (law): after any directional move, the cell the
/// player previously occupied is `NonPassable` in the resulting state.
pub proof fn lemma_vacate_and_seal(s: GameState, r: GameState, player: u8, a: Action)
    requires
        s.wf(),
        player < 2,
        a != Action::SpSkill,
        apply_rel(s, r, player, a),
    ensures
        r.tile(s.pos(player).0, s.pos(player).1) == GameElements::NonPassable,
{
}

/// A sealed cell stays sealed (law): a `NonPassable` cell is still
/// `NonPassable` after any transition, unless that transition is a
/// ClearRoad use by a player standing orthogonally next to the cell.
pub proof fn lemma_nonpassable_persists(
    s: GameState,
    r: GameState,
    player: u8,
    a: Action,
    x: int,
    y: int,
)
    requires
        apply_rel(s, r, player, a),
        s.in_bounds(x, y),
        s.tile(x, y) == GameElements::NonPassable,
        !(a == Action::SpSkill && s.skill(player) == SpecialSkill::ClearRoadTile && neighbor_of(
            s.pos(player).0,
            s.pos(player).1,
            x,
            y,
        )),
    ensures
        r.tile(x, y) == GameElements::NonPassable,
{
}

/// Skill single-use (law): after any skill use, the acting player's
/// active skill is gone, whichever skill was resolved.
pub proof fn lemma_skill_single_use(s: GameState, r: GameState, player: u8)
    requires
        apply_rel(s, r, player, Action::SpSkill),
    ensures
        r.skill(player) == SpecialSkill::NoSkill,
{
}

/// Attack bonus (law): a directional move onto an `AttackBonus` tile
/// adds exactly one point to the mover's attack, leaves the tile kind
/// on the board unchanged, and leaves the mover's skill alone.
pub proof fn lemma_attack_bonus(s: GameState, r: GameState, player: u8, a: Action)
    requires
        s.wf(),
        a != Action::SpSkill,
        crate::action::action_legal(s, player, a),
        apply_rel(s, r, player, a),
        s.tile(move_target(s, player, a).0, move_target(s, player, a).1)
            == GameElements::BonusATKBonusTile,
    ensures
        r.atk(player) == s.atk(player) + 1,
        r.tile(move_target(s, player, a).0, move_target(s, player, a).1)
            == GameElements::BonusATKBonusTile,
        r.skill(player) == s.skill(player),
{
    assert(dir_delta(a).0 != 0 || dir_delta(a).1 != 0);
}

/// Repeated attack bonus (law): along any chain of legal directional
/// moves in which the mover's destination tile is an `AttackBonus`
/// each time, the mover's attack score rises by exactly the number of
/// moves — each landing awards exactly one point.
pub proof fn lemma_attack_bonus_chain(states: Seq<GameState>, actions: Seq<Action>, player: u8)
    requires
        states.len() == actions.len() + 1,
        forall|k: int| 0 <= k < actions.len() ==> (#[trigger] states[k]).wf(),
        forall|k: int| 0 <= k < actions.len() ==> #[trigger] actions[k] != Action::SpSkill,
        forall|k: int|
            0 <= k < actions.len() ==> crate::action::action_legal(
                states[k],
                player,
                #[trigger] actions[k],
            ),
        forall|k: int|
            0 <= k < actions.len() ==> apply_rel(states[k], states[k + 1], player, #[trigger] actions[k]),
        forall|k: int|
            0 <= k < actions.len() ==> states[k].tile(
                move_target(states[k], player, #[trigger] actions[k]).0,
                move_target(states[k], player, actions[k]).1,
            ) == GameElements::BonusATKBonusTile,
    ensures
        states[states.len() - 1].atk(player) == states[0].atk(player) + actions.len(),
    decreases actions.len(),
{
    if actions.len() > 0 {
        let n = actions.len() as int;
        let head_states = states.subrange(0, n);
        let head_actions = actions.subrange(0, n - 1);
        assert(forall|k: int| 0 <= k < n ==> #[trigger] head_states[k] == states[k]);
        assert(forall|k: int| 0 <= k < n - 1 ==> #[trigger] head_actions[k] == actions[k]);
        lemma_attack_bonus_chain(head_states, head_actions, player);
        lemma_attack_bonus(states[n - 1], states[n], player, actions[n - 1]);
    }
}

} // verus!
