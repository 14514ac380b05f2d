//! Behavioural tests for the grid game engine: board generation,
//! legal moves, transitions, skills and scoring.

use grid_game::action::{get_legal_action, validate_coor_move, Action};
use grid_game::result_function::{
    get_unpassable_on_clear_road_sp_skill, result_after_action, use_sp_skill,
};
use grid_game::state_repr::{
    tile_for_band, transform_enum_elem_to_char, GameElements, GameState, MapRandom, SpecialSkill,
};
use grid_game::terminal::{get_point_for_player_on_terminal, is_terminal_state};
use grid_game::utils::is_not_out_of_bound;

/// Build a deterministic size x size board: generate one, then
/// overwrite every cell with `Passable`.
fn all_passable(size: usize) -> GameState {
    let mut state = GameState::new(size, MapRandom::FullyRandom);
    for x in 0..size {
        for y in 0..size {
            state.change_elem_on_coor(x, y, GameElements::Passable);
        }
    }
    state
}

#[test]
fn start_cells_passable_and_fixed() {
    for size in 1..=12usize {
        let state = GameState::new(size, MapRandom::FullyRandom);
        let ((x1, y1), (x2, y2)) = state.get_player_position();
        assert_eq!(x1, (size - 1) / 2);
        assert_eq!(y1, 0);
        assert_eq!(x2, (size - 1) / 2);
        assert_eq!(y2, size - 1);
        assert_eq!(*state.get_elem_on_coor(x1, y1), GameElements::Passable);
        assert_eq!(*state.get_elem_on_coor(x2, y2), GameElements::Passable);
        assert_eq!(state.get_height_width(), size);
        assert_eq!(state.get_player_atk(true), 0);
        assert_eq!(state.get_player_atk(false), 0);
        assert_eq!(*state.get_player_sp(0), SpecialSkill::NoSkill);
        assert_eq!(*state.get_player_sp(1), SpecialSkill::NoSkill);
    }
}

#[test]
fn generated_board_holds_no_marker_tiles() {
    for _ in 0..20 {
        let state = GameState::new(9, MapRandom::FullyRandom);
        for x in 0..9 {
            for y in 0..9 {
                let t = *state.get_elem_on_coor(x, y);
                assert_ne!(t, GameElements::PlayerOne);
                assert_ne!(t, GameElements::PlayerTwo);
            }
        }
    }
}

#[test]
fn band_mapping_has_the_reserved_gap() {
    assert_eq!(tile_for_band(0), GameElements::Passable);
    assert_eq!(tile_for_band(1), GameElements::Passable);
    assert_eq!(tile_for_band(2), GameElements::Passable);
    assert_eq!(tile_for_band(3), GameElements::Passable);
    // the reserved gap value falls through to NonPassable
    assert_eq!(tile_for_band(4), GameElements::NonPassable);
    assert_eq!(tile_for_band(5), GameElements::BonusATKBonusTile);
    assert_eq!(tile_for_band(6), GameElements::BonusATKBonusTile);
    assert_eq!(tile_for_band(7), GameElements::ClearRoadBonusSpTile);
    assert_eq!(tile_for_band(8), GameElements::MinusATKBonusSpTile);
    assert_eq!(tile_for_band(9), GameElements::NonPassable);
}

#[test]
fn element_characters() {
    assert_eq!(transform_enum_elem_to_char(&GameElements::Passable), 'o');
    assert_eq!(transform_enum_elem_to_char(&GameElements::NonPassable), 'x');
    assert_eq!(transform_enum_elem_to_char(&GameElements::PlayerOne), '1');
    assert_eq!(transform_enum_elem_to_char(&GameElements::PlayerTwo), '2');
    assert_eq!(
        transform_enum_elem_to_char(&GameElements::BonusATKBonusTile),
        '+'
    );
    assert_eq!(
        transform_enum_elem_to_char(&GameElements::MinusATKBonusSpTile),
        '-'
    );
    assert_eq!(
        transform_enum_elem_to_char(&GameElements::ClearRoadBonusSpTile),
        'c'
    );
}

#[test]
fn bounds_helper() {
    assert!(is_not_out_of_bound(0, 0, 5));
    assert!(is_not_out_of_bound(4, 4, 5));
    assert!(!is_not_out_of_bound(-1, 0, 5));
    assert!(!is_not_out_of_bound(0, -1, 5));
    assert!(!is_not_out_of_bound(5, 0, 5));
    assert!(!is_not_out_of_bound(0, 5, 5));
}

#[test]
fn validate_coor_move_checks_bounds_and_tile() {
    let mut state = all_passable(3);
    state.change_elem_on_coor(1, 2, GameElements::NonPassable);
    let map = state.get_map_representation();
    assert!(validate_coor_move(0, 0, map));
    assert!(validate_coor_move(2, 2, map));
    assert!(!validate_coor_move(1, 2, map));
    assert!(!validate_coor_move(-1, 0, map));
    assert!(!validate_coor_move(0, 3, map));
}

/// Exhaustive check on a small board: a direction is in the legal set
/// exactly when the corresponding neighbour is on the board and not
/// `NonPassable`.
#[test]
fn direction_legality_matches_neighbours_exhaustively() {
    let size = 4usize;
    let mut state = all_passable(size);
    // a fixed, irregular pattern of sealed cells
    for &(x, y) in &[(0usize, 1usize), (1, 1), (2, 3), (3, 0), (2, 0)] {
        state.change_elem_on_coor(x, y, GameElements::NonPassable);
    }
    let walkable = |x: i64, y: i64| -> bool {
        x >= 0
            && y >= 0
            && x < size as i64
            && y < size as i64
            && *state.get_elem_on_coor(x as usize, y as usize) != GameElements::NonPassable
    };
    for x in 0..size {
        for y in 0..size {
            let mut state = state.clone();
            state.change_player_pos(0, x, y);
            let actions = get_legal_action(&state, 0);
            let (xi, yi) = (x as i64, y as i64);
            assert_eq!(actions.contains(&Action::Up), walkable(xi, yi - 1));
            assert_eq!(actions.contains(&Action::Down), walkable(xi, yi + 1));
            assert_eq!(actions.contains(&Action::Right), walkable(xi + 1, yi));
            assert_eq!(actions.contains(&Action::Left), walkable(xi - 1, yi));
            // no skill held, so the skill action is never legal here
            assert!(!actions.contains(&Action::SpSkill));
        }
    }
}

#[test]
fn legal_actions_come_in_fixed_order() {
    let state = all_passable(5);
    // player 0 starts at (2, 0): Up leads off the board
    let actions = get_legal_action(&state, 0);
    assert_eq!(actions, vec![Action::Down, Action::Right, Action::Left]);

    let mut with_skill = state.clone();
    with_skill.set_player_sp(0, SpecialSkill::ClearRoadTile);
    let actions = get_legal_action(&with_skill, 0);
    assert_eq!(
        actions,
        vec![Action::Down, Action::Right, Action::Left, Action::SpSkill]
    );
}

/// Vacate-and-seal: a directional move seals the vacated cell, the
/// seal persists over later moves, and only a ClearRoad use next to
/// the cell lifts it.
#[test]
fn vacate_and_seal_persists_until_cleared() {
    let state = all_passable(5);
    // player 0 starts at (2, 0)
    let state = result_after_action(&state, &Action::Down, 0);
    assert_eq!(state.get_player_position().0, (2, 1));
    assert_eq!(*state.get_elem_on_coor(2, 0), GameElements::NonPassable);

    let state = result_after_action(&state, &Action::Right, 0);
    assert_eq!(state.get_player_position().0, (3, 1));
    assert_eq!(*state.get_elem_on_coor(2, 0), GameElements::NonPassable);
    assert_eq!(*state.get_elem_on_coor(2, 1), GameElements::NonPassable);

    // a ClearRoad use at (3, 1) resets the adjacent sealed cell (2, 1)
    // but not the distant (2, 0)
    let mut state = state.clone();
    state.set_player_sp(0, SpecialSkill::ClearRoadTile);
    let state = result_after_action(&state, &Action::SpSkill, 0);
    assert_eq!(*state.get_elem_on_coor(2, 1), GameElements::Passable);
    assert_eq!(*state.get_elem_on_coor(2, 0), GameElements::NonPassable);
}

#[test]
fn clear_road_resets_only_sealed_neighbours() {
    let mut state = all_passable(5);
    state.change_player_pos(0, 2, 2);
    state.change_elem_on_coor(2, 1, GameElements::NonPassable);
    state.change_elem_on_coor(3, 2, GameElements::NonPassable);
    state.change_elem_on_coor(4, 2, GameElements::NonPassable);
    state.change_elem_on_coor(2, 4, GameElements::NonPassable);

    // exactly the sealed orthogonal neighbours, in the fixed order
    // up, down, right, left, each once
    let neighbours = get_unpassable_on_clear_road_sp_skill(&state, 2, 2);
    assert_eq!(neighbours, vec![(2, 1), (3, 2)]);

    state.set_player_sp(0, SpecialSkill::ClearRoadTile);
    use_sp_skill(&mut state, 0);
    assert_eq!(*state.get_elem_on_coor(2, 1), GameElements::Passable);
    assert_eq!(*state.get_elem_on_coor(3, 2), GameElements::Passable);
    // cells that are not orthogonal neighbours stay sealed
    assert_eq!(*state.get_elem_on_coor(4, 2), GameElements::NonPassable);
    assert_eq!(*state.get_elem_on_coor(2, 4), GameElements::NonPassable);
    assert_eq!(*state.get_player_sp(0), SpecialSkill::NoSkill);
}

/// Skill single-use: whichever skill is resolved, the actor ends the
/// action holding nothing.
#[test]
fn skill_is_single_use() {
    let mut reduce = all_passable(5);
    reduce.set_player_sp(0, SpecialSkill::ReduceEnemiesATK);
    let after = result_after_action(&reduce, &Action::SpSkill, 0);
    assert_eq!(*after.get_player_sp(0), SpecialSkill::NoSkill);
    assert_eq!(after.get_player_atk(false), -1);
    assert_eq!(after.get_player_atk(true), 0);
    // positions do not change on a skill use
    assert_eq!(
        after.get_player_position(),
        reduce.get_player_position()
    );

    let mut clear = all_passable(5);
    clear.set_player_sp(1, SpecialSkill::ClearRoadTile);
    let after = result_after_action(&clear, &Action::SpSkill, 1);
    assert_eq!(*after.get_player_sp(1), SpecialSkill::NoSkill);
}

/// AttackBonus: landing adds exactly one point and leaves the tile
/// kind on the board unchanged; with the tile restored, each landing
/// adds one again.
#[test]
fn attack_bonus_adds_one_and_keeps_the_tile() {
    let mut state = all_passable(5);
    state.change_elem_on_coor(2, 1, GameElements::BonusATKBonusTile);

    // player 0 starts at (2, 0); step onto the bonus tile
    let state = result_after_action(&state, &Action::Down, 0);
    assert_eq!(state.get_player_atk(true), 1);
    assert_eq!(
        *state.get_elem_on_coor(2, 1),
        GameElements::BonusATKBonusTile
    );

    // leaving seals the bonus cell like any other
    let state = result_after_action(&state, &Action::Right, 0);
    assert_eq!(state.get_player_atk(true), 1);
    assert_eq!(*state.get_elem_on_coor(2, 1), GameElements::NonPassable);

    // restore the tile; landing on it again awards again
    let mut state = state.clone();
    state.change_elem_on_coor(2, 1, GameElements::BonusATKBonusTile);
    let state = result_after_action(&state, &Action::Left, 0);
    assert_eq!(state.get_player_position().0, (2, 1));
    assert_eq!(state.get_player_atk(true), 2);
    assert_eq!(
        *state.get_elem_on_coor(2, 1),
        GameElements::BonusATKBonusTile
    );
}

#[test]
fn skill_tiles_hand_out_their_skill() {
    let mut state = all_passable(5);
    state.change_elem_on_coor(2, 1, GameElements::MinusATKBonusSpTile);
    let after = result_after_action(&state, &Action::Down, 0);
    assert_eq!(*after.get_player_sp(0), SpecialSkill::ReduceEnemiesATK);
    // picking up a skill overwrites a held one, no stacking
    let mut state = all_passable(5);
    state.change_elem_on_coor(2, 1, GameElements::ClearRoadBonusSpTile);
    state.set_player_sp(0, SpecialSkill::ReduceEnemiesATK);
    let after = result_after_action(&state, &Action::Down, 0);
    assert_eq!(*after.get_player_sp(0), SpecialSkill::ClearRoadTile);
}

/// Zero-sum scoring on concrete states.
#[test]
fn scoring_is_zero_sum() {
    let mut state = all_passable(5);
    state.change_player_atk(0, 3);
    state.change_player_atk(1, 1);
    assert_eq!(get_point_for_player_on_terminal(&state, true), 100);
    assert_eq!(get_point_for_player_on_terminal(&state, false), -100);

    let mut behind = all_passable(5);
    behind.change_player_atk(0, -2);
    assert_eq!(get_point_for_player_on_terminal(&behind, true), -100);
    assert_eq!(get_point_for_player_on_terminal(&behind, false), 100);

    let draw = all_passable(5);
    assert_eq!(get_point_for_player_on_terminal(&draw, true), 0);
    assert_eq!(get_point_for_player_on_terminal(&draw, false), 0);
}

#[test]
fn terminal_on_collision() {
    let mut state = all_passable(5);
    assert!(!is_terminal_state(&state));
    state.change_player_pos(0, 3, 3);
    state.change_player_pos(1, 3, 3);
    assert!(is_terminal_state(&state));
}

#[test]
fn terminal_when_both_stuck_and_skill_unsticks() {
    let mut state = all_passable(3);
    // pen both players into opposite corners
    state.change_player_pos(0, 0, 0);
    state.change_player_pos(1, 2, 2);
    state.change_elem_on_coor(0, 1, GameElements::NonPassable);
    state.change_elem_on_coor(1, 0, GameElements::NonPassable);
    state.change_elem_on_coor(1, 2, GameElements::NonPassable);
    state.change_elem_on_coor(2, 1, GameElements::NonPassable);
    assert!(is_terminal_state(&state));

    // a held skill counts as a move: the holder is not stuck
    let mut with_skill = state.clone();
    with_skill.set_player_sp(1, SpecialSkill::ReduceEnemiesATK);
    assert!(!is_terminal_state(&with_skill));
}

/// The end-to-end scenario: a deterministic board, a bonus pickup,
/// sealing behind the mover, and no premature game end.
#[test]
fn end_to_end_scenario() {
    let mut state = all_passable(5);
    for &(x, y) in &[(0usize, 0usize), (0, 4), (4, 0), (4, 4)] {
        state.change_elem_on_coor(x, y, GameElements::NonPassable);
    }
    state.change_elem_on_coor(1, 1, GameElements::BonusATKBonusTile);
    state.change_player_pos(0, 0, 1);
    state.change_player_pos(1, 4, 1);
    assert!(!is_terminal_state(&state));

    // first move: onto the bonus tile
    let state = result_after_action(&state, &Action::Right, 0);
    assert_eq!(state.get_player_position().0, (1, 1));
    assert_eq!(state.get_player_atk(true), 1);
    assert_eq!(*state.get_elem_on_coor(0, 1), GameElements::NonPassable);
    assert_eq!(
        *state.get_elem_on_coor(1, 1),
        GameElements::BonusATKBonusTile
    );
    assert!(!is_terminal_state(&state));

    // second move: off the bonus tile; the score stays, the tile kind
    // stayed unchanged while occupied, and sealing applies on leaving
    let state = result_after_action(&state, &Action::Right, 0);
    assert_eq!(state.get_player_position().0, (2, 1));
    assert_eq!(state.get_player_atk(true), 1);
    assert_eq!(*state.get_elem_on_coor(1, 1), GameElements::NonPassable);
    assert!(!is_terminal_state(&state));
    assert_eq!(get_point_for_player_on_terminal(&state, true), 100);
    assert_eq!(get_point_for_player_on_terminal(&state, false), -100);
}

/// Each direction moves by one step along its axis: `Up` and `Down`
/// along the secondary coordinate, `Left` and `Right` along the
/// primary one.
#[test]
fn moves_step_one_cell_in_each_direction() {
    let base = {
        let mut s = all_passable(5);
        s.change_player_pos(0, 2, 2);
        s
    };
    let up = result_after_action(&base, &Action::Up, 0);
    assert_eq!(up.get_player_position().0, (2, 1));
    let down = result_after_action(&base, &Action::Down, 0);
    assert_eq!(down.get_player_position().0, (2, 3));
    let left = result_after_action(&base, &Action::Left, 0);
    assert_eq!(left.get_player_position().0, (1, 2));
    let right = result_after_action(&base, &Action::Right, 0);
    assert_eq!(right.get_player_position().0, (3, 2));

    // player 1 starts at (2, 4); moving leaves player 0 untouched
    let other = result_after_action(&base, &Action::Up, 1);
    assert_eq!(other.get_player_position().1, (2, 3));
    assert_eq!(other.get_player_position().0, (2, 2));
    assert_eq!(*other.get_elem_on_coor(2, 4), GameElements::NonPassable);
}

#[test]
fn transition_does_not_touch_its_input() {
    let state = all_passable(5);
    let before_pos = state.get_player_position();
    let _ = result_after_action(&state, &Action::Down, 0);
    assert_eq!(state.get_player_position(), before_pos);
    assert_eq!(*state.get_elem_on_coor(2, 0), GameElements::Passable);
    assert_eq!(state.get_player_atk(true), 0);
}

#[test]
fn position_getters_agree() {
    let mut state = all_passable(7);
    state.change_player_pos(0, 5, 2);
    state.change_player_pos(1, 6, 0);
    assert_eq!(state.get_player_position(), ((5, 2), (6, 0)));
    assert_eq!(state.get_player_position_with_idx(0), (5, 2));
    assert_eq!(state.get_player_position_with_idx(1), (6, 0));
    let map = state.get_map_representation();
    assert_eq!(map.len(), 7);
    assert_eq!(map[0].len(), 7);
}
