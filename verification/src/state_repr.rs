//! State representation: the tile kinds, the board, the two players
//! with their attack scores and special skills, and the board
//! generator.

use vstd::prelude::*;
use vstd::pervasive::VecAdditionalExecFns;
use rand::Rng;

verus! {

/// A special skill a player may hold. At most one is active at a time;
/// a skill is consumed by a single use.
#[derive(Debug, Clone, Copy, PartialEq, Eq, Structural)]
pub enum SpecialSkill {
    NoSkill,
    ReduceEnemiesATK,
    ClearRoadTile,
}

/// How the board generator fills the board.
#[derive(Debug, Clone, Copy, PartialEq, Eq, Structural)]
pub enum MapRandom {
    FullyRandom,
}

/// The kinds of tile a board cell can hold. The two player markers are
/// display-only: occupancy is tracked by the player position fields of
/// [`GameState`], never by the grid itself.
#[derive(Debug, Clone, Copy, PartialEq, Eq, Structural)]
pub enum GameElements {
    Passable,
    NonPassable,
    PlayerOne,
    PlayerTwo,
    BonusATKBonusTile,
    MinusATKBonusSpTile,
    ClearRoadBonusSpTile,
}

/// Two player indices address the same player record exactly when both
/// are zero or both are nonzero (any nonzero index selects the second
/// player).
pub open spec fn same_side(p: u8, q: u8) -> bool {
    (p == 0) == (q == 0)
}

/// The whole game state: a square grid of tiles plus, per player, a
/// position, an attack score and an active special skill.
#[derive(Debug)]
pub struct GameState {
    height_width: usize,
    map_representation: Vec<Vec<GameElements>>,
    first_player_pos: (usize, usize),
    second_player_pos: (usize, usize),
    first_player_sp: SpecialSkill,
    second_player_sp: SpecialSkill,
    first_player_atk: i16,
    second_player_atk: i16,
}

impl GameState {
    /// The side length of the square board.
    pub closed spec fn size(self) -> int {
        self.height_width as int
    }

    /// The tile at column `x`, row `y`.
    pub closed spec fn tile(self, x: int, y: int) -> GameElements {
        self.map_representation@[x]@[y]
    }

    /// The position of the given player, as `(x, y)`.
    pub closed spec fn pos(self, player: u8) -> (int, int) {
        if player == 0 {
            (self.first_player_pos.0 as int, self.first_player_pos.1 as int)
        } else {
            (self.second_player_pos.0 as int, self.second_player_pos.1 as int)
        }
    }

    /// The active special skill of the given player.
    pub closed spec fn skill(self, player: u8) -> SpecialSkill {
        if player == 0 {
            self.first_player_sp
        } else {
            self.second_player_sp
        }
    }

    /// The attack score of the given player.
    pub closed spec fn atk(self, player: u8) -> int {
        if player == 0 {
            self.first_player_atk as int
        } else {
            self.second_player_atk as int
        }
    }

    /// The grid is square, of the recorded side length, and small
    /// enough that every coordinate fits the narrow integer types the
    /// move engine works with.
    pub closed spec fn grid_wf(self) -> bool {
        &&& 1 <= self.height_width <= 127
        &&& self.map_representation@.len() == self.height_width
        &&& forall|i: int|
            0 <= i < self.height_width ==> (#[trigger] self.map_representation@[i])@.len()
                == self.height_width
    }

    /// Whether `(x, y)` addresses a cell of the board.
    pub open spec fn in_bounds(self, x: int, y: int) -> bool {
        0 <= x < self.size() && 0 <= y < self.size()
    }

    /// Whether the given player stands on the board.
    pub open spec fn pos_ok(self, player: u8) -> bool {
        self.in_bounds(self.pos(player).0, self.pos(player).1)
    }

    /// Well-formedness: a square grid with both players on it.
    pub open spec fn wf(self) -> bool {
        self.grid_wf() && self.pos_ok(0) && self.pos_ok(1)
    }
}

/// A well-formed grid keeps its side length in `[1, 127]`, so every
/// coordinate fits the narrow integer types of the move engine.
pub proof fn lemma_size_bound(s: GameState)
    requires
        s.grid_wf(),
    ensures
        1 <= s.size() <= 127,
{
}

/// An attack score always fits the machine integer that stores it.
pub proof fn lemma_atk_range(s: GameState, p: u8)
    ensures
        i16::MIN <= s.atk(p) <= i16::MAX,
{
}

/// The two states have boards of the same size holding the same tiles.
pub open spec fn same_grid(a: GameState, b: GameState) -> bool {
    &&& b.size() == a.size()
    &&& forall|x: int, y: int| a.in_bounds(x, y) ==> #[trigger] b.tile(x, y) == a.tile(x, y)
}

/// Both players stand where they stood in `a`.
pub open spec fn same_positions(a: GameState, b: GameState) -> bool {
    forall|p: u8| #[trigger] b.pos(p) == a.pos(p)
}

/// Both players hold the skills they held in `a`.
pub open spec fn same_skills(a: GameState, b: GameState) -> bool {
    forall|p: u8| #[trigger] b.skill(p) == a.skill(p)
}

/// Both players keep the attack scores they had in `a`.
pub open spec fn same_atks(a: GameState, b: GameState) -> bool {
    forall|p: u8| #[trigger] b.atk(p) == a.atk(p)
}

/// The character a tile kind is drawn with.
pub open spec fn char_of_element(game_elem: GameElements) -> char {
    match game_elem {
        GameElements::BonusATKBonusTile => '+',
        GameElements::ClearRoadBonusSpTile => 'c',
        GameElements::MinusATKBonusSpTile => '-',
        GameElements::NonPassable => 'x',
        GameElements::Passable => 'o',
        GameElements::PlayerOne => '1',
        GameElements::PlayerTwo => '2',
    }
}

/// Map a tile kind to the character that represents it on a rendered
/// board.
pub fn transform_enum_elem_to_char(game_elem: &GameElements) -> (r: char)
    ensures
        r == char_of_element(*game_elem),
{
    match game_elem {
        GameElements::BonusATKBonusTile => '+',
        GameElements::ClearRoadBonusSpTile => 'c',
        GameElements::MinusATKBonusSpTile => '-',
        GameElements::NonPassable => 'x',
        GameElements::Passable => 'o',
        GameElements::PlayerOne => '1',
        GameElements::PlayerTwo => '2',
    }
}

/// The fixed banding of a drawn value in `[0, 10)` to a tile kind.
///
/// The bottom band covers four values (the seven tile kinds minus
/// three) and maps to `Passable`; the value just above it is a
/// reserved gap that is assigned no kind of its own and falls through
/// to `NonPassable`; the next two values map to the attack bonus, then
/// one value each to the two skill tiles; the topmost value maps to
/// `NonPassable`. The gap is deliberate documented behaviour of the
/// weighting, kept rather than folded into a neighbouring band.
pub open spec fn tile_of_band(v: int) -> GameElements {
    if 0 <= v < 4 {
        GameElements::Passable
    } else if v == 5 || v == 6 {
        GameElements::BonusATKBonusTile
    } else if v == 7 {
        GameElements::ClearRoadBonusSpTile
    } else if v == 8 {
        GameElements::MinusATKBonusSpTile
    } else {
        GameElements::NonPassable
    }
}

/// A tile kind the generator can produce: anything but the two
/// display-only player markers.
pub open spec fn generated_tile(t: GameElements) -> bool {
    t != GameElements::PlayerOne && t != GameElements::PlayerTwo
}

/// Map a drawn band value to its tile kind. See [`tile_of_band`] for
/// the banding, including the reserved gap value.
pub fn tile_for_band(v: u8) -> (t: GameElements)
    requires
        v < 10,
    ensures
        t == tile_of_band(v as int),
{
    if v < 4 {
        GameElements::Passable
    } else if v == 5 || v == 6 {
        GameElements::BonusATKBonusTile
    } else if v == 7 {
        GameElements::ClearRoadBonusSpTile
    } else if v == 8 {
        GameElements::MinusATKBonusSpTile
    } else {
        GameElements::NonPassable
    }
}

/// Relies on `rand::Rng::gen_range` over the range `0..10`: the drawn
/// value always lies in that range, and the call cannot panic because
/// the range is not empty. Nothing further holds of a random draw, so
/// nothing further is stated.
#[verifier::external_body]
fn draw_band_value() -> (r: u8)
    ensures
        r < 10,
{
    rand::thread_rng().gen_range(0..10)
}

impl GameState {
    /// Overwrite the tile at `(x, y)` with `val`; nothing else of the
    /// state changes.
    pub fn change_elem_on_coor(&mut self, x: usize, y: usize, val: GameElements)
        requires
            old(self).grid_wf(),
            x < old(self).size(),
            y < old(self).size(),
        ensures
            final(self).grid_wf(),
            final(self).size() == old(self).size(),
            forall|i: int, j: int|
                old(self).in_bounds(i, j) ==> #[trigger] final(self).tile(i, j) == (if i == x
                    && j == y {
                    val
                } else {
                    old(self).tile(i, j)
                }),
            same_positions(*old(self), *final(self)),
            same_skills(*old(self), *final(self)),
            same_atks(*old(self), *final(self)),
    {
        let row: &mut Vec<GameElements> = &mut self.map_representation[x];
        row.set(y, val);
    }

    /// Read the tile at `(x, y)`.
    pub fn get_elem_on_coor(&self, x: usize, y: usize) -> (r: &GameElements)
        requires
            self.grid_wf(),
            x < self.size(),
            y < self.size(),
        ensures
            *r == self.tile(x as int, y as int),
    {
        &self.map_representation[x][y]
    }

    /// The active special skill of the given player.
    pub fn get_player_sp(&self, player: u8) -> (r: &SpecialSkill)
        ensures
            *r == self.skill(player),
    {
        if player == 0 {
            &self.first_player_sp
        } else {
            &self.second_player_sp
        }
    }

    /// Both player positions, first player first.
    pub fn get_player_position(&self) -> (r: ((usize, usize), (usize, usize)))
        ensures
            (r.0.0 as int, r.0.1 as int) == self.pos(0),
            (r.1.0 as int, r.1.1 as int) == self.pos(1),
    {
        (self.first_player_pos, self.second_player_pos)
    }

    /// The position of the given player, in byte-sized coordinates.
    pub fn get_player_position_with_idx(&self, player: u8) -> (r: (u8, u8))
        requires
            self.wf(),
        ensures
            (r.0 as int, r.1 as int) == self.pos(player),
            self.in_bounds(r.0 as int, r.1 as int),
    {
        if player == 0 {
            (self.first_player_pos.0 as u8, self.first_player_pos.1 as u8)
        } else {
            (self.second_player_pos.0 as u8, self.second_player_pos.1 as u8)
        }
    }

    /// The side length of the board.
    pub fn get_height_width(&self) -> (r: usize)
        ensures
            r as int == self.size(),
    {
        self.height_width
    }

    /// The full grid, for reading: cell `(i, j)` of the result is the
    /// tile at `(i, j)`.
    pub fn get_map_representation(&self) -> (r: &Vec<Vec<GameElements>>)
        ensures
            self.grid_wf() ==> r@.len() == self.size(),
            self.grid_wf() ==> forall|i: int|
                0 <= i < r@.len() ==> (#[trigger] r@[i])@.len() == self.size(),
            forall|i: int, j: int| #![trigger r@[i]@[j]] r@[i]@[j] == self.tile(i, j),
    {
        &self.map_representation
    }

    /// The attack score of the chosen player.
    pub fn get_player_atk(&self, is_player_one: bool) -> (r: i16)
        ensures
            r as int == self.atk(if is_player_one { 0u8 } else { 1u8 }),
    {
        if is_player_one {
            self.first_player_atk
        } else {
            self.second_player_atk
        }
    }

    /// Replace the given player's active skill; nothing else changes.
    pub fn set_player_sp(&mut self, player: u8, special: SpecialSkill)
        ensures
            forall|q: u8| #[trigger] final(self).skill(q) == (if same_side(player, q) {
                special
            } else {
                old(self).skill(q)
            }),
            old(self).grid_wf() ==> final(self).grid_wf(),
            same_grid(*old(self), *final(self)),
            same_positions(*old(self), *final(self)),
            same_atks(*old(self), *final(self)),
    {
        if player == 0 {
            self.first_player_sp = special;
        } else {
            self.second_player_sp = special;
        }
    }

    /// Add `point_inc` to the given player's attack score; nothing
    /// else changes.
    pub fn change_player_atk(&mut self, player: u8, point_inc: i16)
        requires
            i16::MIN <= old(self).atk(player) + point_inc <= i16::MAX,
        ensures
            forall|q: u8| #[trigger] final(self).atk(q) == (if same_side(player, q) {
                old(self).atk(q) + point_inc
            } else {
                old(self).atk(q)
            }),
            old(self).grid_wf() ==> final(self).grid_wf(),
            same_grid(*old(self), *final(self)),
            same_positions(*old(self), *final(self)),
            same_skills(*old(self), *final(self)),
    {
        if player == 0 {
            let new: i16 = self.first_player_atk + point_inc;
            self.first_player_atk = new;
        } else {
            let new: i16 = self.second_player_atk + point_inc;
            self.second_player_atk = new;
        }
    }

    /// Move the given player to `(new_pos_x, new_pos_y)`; nothing else
    /// changes. The new position must lie on the board, keeping the
    /// state invariant that players always stand on it.
    pub fn change_player_pos(&mut self, player: u8, new_pos_x: usize, new_pos_y: usize)
        requires
            old(self).grid_wf(),
            new_pos_x < old(self).size(),
            new_pos_y < old(self).size(),
        ensures
            final(self).grid_wf(),
            forall|q: u8| #[trigger] final(self).pos(q) == (if same_side(player, q) {
                (new_pos_x as int, new_pos_y as int)
            } else {
                old(self).pos(q)
            }),
            same_grid(*old(self), *final(self)),
            same_skills(*old(self), *final(self)),
            same_atks(*old(self), *final(self)),
    {
        if player == 0 {
            self.first_player_pos = (new_pos_x, new_pos_y);
        } else {
            self.second_player_pos = (new_pos_x, new_pos_y);
        }
    }

    /// Build a fresh game, with a generated board, both players at
    /// their fixed starting cells, no skills and zero attack.
    ///
    /// Player starts: `(ceil(size / 2) - 1, 0)` for the first player
    /// and `(ceil(size / 2) - 1, size - 1)` for the second. Both start
    /// cells are always `Passable` and never randomized; every other
    /// cell holds a generated tile kind.
    pub fn new(height_width: usize, map_randomness: MapRandom) -> (r: GameState)
        requires
            1 <= height_width <= 127,
        ensures
            r.wf(),
            r.size() == height_width,
            forall|p: u8| #[trigger] r.pos(p) == (if p == 0 {
                ((height_width as int - 1) / 2, 0int)
            } else {
                ((height_width as int - 1) / 2, height_width as int - 1)
            }),
            forall|p: u8| #[trigger] r.skill(p) == SpecialSkill::NoSkill,
            forall|p: u8| #[trigger] r.atk(p) == 0,
            r.tile((height_width as int - 1) / 2, 0) == GameElements::Passable,
            r.tile((height_width as int - 1) / 2, height_width as int - 1)
                == GameElements::Passable,
            forall|x: int, y: int| r.in_bounds(x, y) ==> generated_tile(#[trigger] r.tile(x, y)),
    {
        let map_repr = create_map_representation(height_width, map_randomness);
        GameState {
            height_width: height_width,
            map_representation: map_repr.0,
            first_player_pos: map_repr.1,
            second_player_pos: map_repr.2,
            first_player_sp: SpecialSkill::NoSkill,
            second_player_sp: SpecialSkill::NoSkill,
            first_player_atk: 0,
            second_player_atk: 0,
        }
    }
}

impl Clone for GameState {
    /// A deep copy: the copy agrees with the original on every
    /// observation the specification functions make.
    fn clone(&self) -> (res: Self)
        ensures
            res.size() == self.size(),
            self.grid_wf() ==> res.grid_wf(),
            self.grid_wf() ==> same_grid(*self, res),
            same_positions(*self, res),
            same_skills(*self, res),
            same_atks(*self, res),
    {
        let n: usize = self.map_representation.len();
        let mut grid: Vec<Vec<GameElements>> = Vec::new();
        for i in 0..n
            invariant
                n == self.map_representation@.len(),
                grid@.len() == i,
                forall|k: int|
                    0 <= k < i ==> (#[trigger] grid@[k])@ == self.map_representation@[k]@,
        {
            let row_src: &Vec<GameElements> = &self.map_representation[i];
            let row_len: usize = row_src.len();
            let mut row: Vec<GameElements> = Vec::new();
            for j in 0..row_len
                invariant
                    n == self.map_representation@.len(),
                    i < n,
                    row_src@ == self.map_representation@[i as int]@,
                    row_len == row_src@.len(),
                    row@.len() == j,
                    forall|l: int| 0 <= l < j ==> row@[l] == row_src@[l],
            {
                let e: GameElements = row_src[j];
                row.push(e);
            }
            proof {
                assert(row@ =~= self.map_representation@[i as int]@);
            }
            grid.push(row);
        }
        let res = GameState {
            height_width: self.height_width,
            map_representation: grid,
            first_player_pos: self.first_player_pos,
            second_player_pos: self.second_player_pos,
            first_player_sp: self.first_player_sp,
            second_player_sp: self.second_player_sp,
            first_player_atk: self.first_player_atk,
            second_player_atk: self.second_player_atk,
        };
        proof {
            if self.grid_wf() {
                assert forall|x: int, y: int| self.in_bounds(x, y) implies #[trigger] res.tile(
                    x,
                    y,
                ) == self.tile(x, y) by {
                    assert(res.map_representation@[x]@ == self.map_representation@[x]@);
                }
            }
        }
        res
    }
}

/// Build the grid for a new game: start with an all-`Passable` square
/// board, then, under `FullyRandom`, redraw every cell but the two
/// fixed start cells from the weighted bands. Returns the grid and the
/// two starting positions.
fn create_map_representation(height_width: usize, map_randomness: MapRandom) -> (res: (
    Vec<Vec<GameElements>>,
    (usize, usize),
    (usize, usize),
))
    requires
        1 <= height_width <= 127,
    ensures
        res.0@.len() == height_width,
        forall|i: int| 0 <= i < height_width ==> (#[trigger] res.0@[i])@.len() == height_width,
        forall|i: int, j: int|
            0 <= i < height_width && 0 <= j < height_width ==> generated_tile(
                #[trigger] res.0@[i]@[j],
            ),
        res.1.0 as int == (height_width as int - 1) / 2,
        res.1.1 == 0usize,
        res.2.0 as int == (height_width as int - 1) / 2,
        res.2.1 as int == height_width as int - 1,
        res.0@[res.1.0 as int]@[0] == GameElements::Passable,
        res.0@[res.2.0 as int]@[height_width as int - 1] == GameElements::Passable,
{
    // ceil(height_width / 2) - 1, in integer arithmetic.
    let player_mid_location: usize = (height_width - 1) / 2;
    let player_one_coor: (usize, usize) = (player_mid_location, 0);
    let player_two_coor: (usize, usize) = (player_mid_location, height_width - 1);

    let mut grid: Vec<Vec<GameElements>> = Vec::new();
    for i in 0..height_width
        invariant
            grid@.len() == i,
            forall|k: int| 0 <= k < i ==> (#[trigger] grid@[k])@.len() == height_width,
            forall|k: int, l: int|
                0 <= k < i && 0 <= l < height_width ==> #[trigger] grid@[k]@[l]
                    == GameElements::Passable,
    {
        let mut row: Vec<GameElements> = Vec::new();
        for j in 0..height_width
            invariant
                row@.len() == j,
                forall|l: int| 0 <= l < j ==> #[trigger] row@[l] == GameElements::Passable,
        {
            row.push(GameElements::Passable);
        }
        grid.push(row);
    }

    if map_randomness == MapRandom::FullyRandom {
        for i in 0..height_width
            invariant
                height_width <= 127,
                player_one_coor.0 as int == (height_width as int - 1) / 2,
                player_one_coor.1 == 0usize,
                player_two_coor.0 == player_one_coor.0,
                player_two_coor.1 as int == height_width as int - 1,
                grid@.len() == height_width,
                forall|k: int| 0 <= k < height_width ==> (#[trigger] grid@[k])@.len()
                    == height_width,
                forall|k: int, l: int|
                    0 <= k < height_width && 0 <= l < height_width ==> generated_tile(
                        #[trigger] grid@[k]@[l],
                    ),
                grid@[player_one_coor.0 as int]@[0] == GameElements::Passable,
                grid@[player_two_coor.0 as int]@[height_width as int - 1]
                    == GameElements::Passable,
        {
            for j in 0..height_width
                invariant
                    height_width <= 127,
                    i < height_width,
                    player_one_coor.0 as int == (height_width as int - 1) / 2,
                    player_one_coor.1 == 0usize,
                    player_two_coor.0 == player_one_coor.0,
                    player_two_coor.1 as int == height_width as int - 1,
                    grid@.len() == height_width,
                    forall|k: int| 0 <= k < height_width ==> (#[trigger] grid@[k])@.len()
                        == height_width,
                    forall|k: int, l: int|
                        0 <= k < height_width && 0 <= l < height_width ==> generated_tile(
                            #[trigger] grid@[k]@[l],
                        ),
                    grid@[player_one_coor.0 as int]@[0] == GameElements::Passable,
                    grid@[player_two_coor.0 as int]@[height_width as int - 1]
                        == GameElements::Passable,
            {
                let on_start_cell: bool = (i == player_one_coor.0 && j == player_one_coor.1) || (i
                    == player_two_coor.0 && j == player_two_coor.1);
                if !on_start_cell {
                    let random_num: u8 = draw_band_value();
                    let choosen_elem: GameElements = tile_for_band(random_num);
                    let row: &mut Vec<GameElements> = &mut grid[i];
                    row.set(j, choosen_elem);
                }
            }
        }
    }
    (grid, player_one_coor, player_two_coor)
}

} // verus!
