//! The static scene model: the bordered grid map, the fixed decoration and
//! monster entities, and the scene's invariants (a valid player index, and
//! hit points bounded by maximum hit points for every health-bearing actor).

use vstd::prelude::*;

use crate::errors::GameError;
use crate::geom::{Color, GridPos};

verus! {

/// One grid cell of the map.
#[derive(Clone, Copy, PartialEq, Eq, Structural, Debug)]
pub struct Tile {
    pub pos: GridPos,
    pub glyph: char,
    pub tint: Color,
}

/// A positioned glyph actor. `max_hp == 0` marks inert scenery rather than
/// a health-bearing actor.
#[derive(Clone, Copy, PartialEq, Eq, Structural, Debug)]
pub struct Entity {
    pub pos: GridPos,
    pub glyph: char,
    pub tint: Color,
    pub hp: u32,
    pub max_hp: u32,
}

/// Whether the cell `(x, y)` of a `width` by `height` grid lies on the
/// outer border.
pub open spec fn wall_at(x: int, y: int, width: int, height: int) -> bool {
    x == 0 || x == width - 1 || y == 0 || y == height - 1
}

/// The tile the map generator places at cell `(x, y)`: a wall glyph on the
/// border, a floor glyph inside, always black-tinted.
pub open spec fn map_tile_at(x: int, y: int, width: int, height: int) -> Tile {
    Tile {
        pos: GridPos { x: x as u16, y: y as u16 },
        glyph: if wall_at(x, y, width, height) {
            '#'
        } else {
            '.'
        },
        tint: Color::black(),
    }
}

/// How many tiles of a sequence carry the wall glyph.
pub open spec fn wall_count(tiles: Seq<Tile>) -> int
    decreases tiles.len(),
{
    if tiles.len() == 0 {
        0
    } else {
        wall_count(tiles.drop_last()) + if tiles.last().glyph == '#' {
            1int
        } else {
            0int
        }
    }
}

/// Walls among the first `x` full rows of the generated map (generation
/// order is row by row, a row being one value of `x`).
spec fn walls_in_rows(x: int, width: int, height: int) -> int {
    if x <= 0 {
        0
    } else if x < width {
        height + 2 * (x - 1)
    } else {
        2 * height + 2 * (width - 2)
    }
}

/// Walls among the first `y` cells of row `x`.
spec fn walls_in_row_prefix(x: int, y: int, width: int, height: int) -> int {
    if x == 0 || x == width - 1 {
        y
    } else if y <= 0 {
        0
    } else if y < height {
        1
    } else {
        2
    }
}

/// Cell `(x, y)` sits at index `x * height + y` of the generated map.
pub proof fn lemma_grid_index(x: int, y: int, height: int)
    requires
        0 <= x,
        0 <= y < height,
    ensures
        (x * height + y) / height == x,
        (x * height + y) % height == y,
{
    vstd::arithmetic::div_mod::lemma_fundamental_div_mod_converse(x * height + y, height, x, y);
}

/// Produce one tile per cell of a `width` by `height` grid, row by row:
/// a wall glyph exactly on the outer border, a floor glyph inside, all
/// black-tinted. For any grid at least 3 by 3 the border holds exactly
/// `2 * width + 2 * height - 4` wall tiles.
pub fn generate_map(width: u16, height: u16) -> (tiles: Vec<Tile>)
    ensures
        tiles@.len() == width * height,
        forall|i: int|
            0 <= i < tiles@.len() ==> #[trigger] tiles@[i] == map_tile_at(
                i / (height as int),
                i % (height as int),
                width as int,
                height as int,
            ),
        width >= 3 && height >= 3 ==> wall_count(tiles@) == 2 * width + 2 * height - 4,
{
    let mut tiles: Vec<Tile> = Vec::new();
    let mut x: u16 = 0;
    while x < width
        invariant
            x <= width,
            tiles@.len() == x * height,
            forall|i: int|
                0 <= i < tiles@.len() ==> #[trigger] tiles@[i] == map_tile_at(
                    i / (height as int),
                    i % (height as int),
                    width as int,
                    height as int,
                ),
            width >= 3 && height >= 3 ==> wall_count(tiles@) == walls_in_rows(
                x as int,
                width as int,
                height as int,
            ),
        decreases width - x,
    {
        let mut y: u16 = 0;
        while y < height
            invariant
                x < width,
                y <= height,
                tiles@.len() == x * height + y,
                forall|i: int|
                    0 <= i < tiles@.len() ==> #[trigger] tiles@[i] == map_tile_at(
                        i / (height as int),
                        i % (height as int),
                        width as int,
                        height as int,
                    ),
                width >= 3 && height >= 3 ==> wall_count(tiles@) == walls_in_rows(
                    x as int,
                    width as int,
                    height as int,
                ) + walls_in_row_prefix(x as int, y as int, width as int, height as int),
            decreases height - y,
        {
            let glyph: char = if x == 0 || x == width - 1 || y == 0 || y == height - 1 {
                '#'
            } else {
                '.'
            };
            let tile = Tile { pos: GridPos { x, y }, glyph, tint: Color { r: 0, g: 0, b: 0, a: 255 } };
            proof {
                lemma_grid_index(x as int, y as int, height as int);
                assert(tiles@.push(tile).drop_last() =~= tiles@);
                assert(tile == map_tile_at(x as int, y as int, width as int, height as int));
            }
            tiles.push(tile);
            y = y + 1;
        }
        proof {
            assert((x as int + 1) * height == x as int * height + height) by (nonlinear_arith);
        }
        x = x + 1;
    }
    tiles
}

/// The fixed decoration and monster entities of the default scene.
pub open spec fn decoration_entities() -> Seq<Entity> {
    seq![
        Entity {
            pos: GridPos { x: 9, y: 6 },
            glyph: 'g',
            tint: Color::red(),
            hp: 1,
            max_hp: 1,
        },
        Entity {
            pos: GridPos { x: 2, y: 4 },
            glyph: 'g',
            tint: Color::red(),
            hp: 1,
            max_hp: 1,
        },
        Entity {
            pos: GridPos { x: 7, y: 5 },
            glyph: '%',
            tint: Color::purple(),
            hp: 0,
            max_hp: 0,
        },
        Entity {
            pos: GridPos { x: 4, y: 8 },
            glyph: '%',
            tint: Color::purple(),
            hp: 0,
            max_hp: 0,
        },
    ]
}

/// The distinguished player actor of the default scene.
pub open spec fn player_entity() -> Entity {
    Entity { pos: GridPos { x: 5, y: 3 }, glyph: '@', tint: Color::blue(), hp: 3, max_hp: 5 }
}

/// The fixed literal list of decoration and monster entities; the player is
/// appended separately at bootstrap time.
pub fn generate_entities() -> (ents: Vec<Entity>)
    ensures
        ents@ == decoration_entities(),
{
    let mut ents: Vec<Entity> = Vec::new();
    ents.push(Entity { pos: GridPos { x: 9, y: 6 }, glyph: 'g', tint: Color { r: 255, g: 0, b: 0, a: 255 }, hp: 1, max_hp: 1 });
    ents.push(Entity { pos: GridPos { x: 2, y: 4 }, glyph: 'g', tint: Color { r: 255, g: 0, b: 0, a: 255 }, hp: 1, max_hp: 1 });
    ents.push(Entity { pos: GridPos { x: 7, y: 5 }, glyph: '%', tint: Color { r: 255, g: 0, b: 255, a: 255 }, hp: 0, max_hp: 0 });
    ents.push(Entity { pos: GridPos { x: 4, y: 8 }, glyph: '%', tint: Color { r: 255, g: 0, b: 255, a: 255 }, hp: 0, max_hp: 0 });
    proof {
        assert(ents@ =~= decoration_entities());
    }
    ents
}

/// Whether an entity list and a player index satisfy the scene invariants:
/// the player index names an entity, that entity bears health, and no
/// health-bearing entity exceeds its maximum hit points.
pub open spec fn valid_scene(entities: Seq<Entity>, player_idx: int) -> bool {
    &&& 0 <= player_idx < entities.len()
    &&& entities[player_idx].max_hp > 0
    &&& forall|i: int|
        0 <= i < entities.len() ==> ((#[trigger] entities[i]).max_hp > 0 ==> entities[i].hp
            <= entities[i].max_hp)
}

/// The passive scene data: the map tiles, the entities in draw order, the
/// player's index, and the map's size in tiles.
pub struct SceneModel {
    pub tiles: Vec<Tile>,
    pub entities: Vec<Entity>,
    pub player_idx: usize,
    pub width: u16,
    pub height: u16,
}

impl SceneModel {
    /// The scene invariants, established at construction and never touched
    /// afterwards: the scene is read-only during draw.
    pub open spec fn well_formed(&self) -> bool {
        valid_scene(self.entities@, self.player_idx as int)
    }

    /// The designated player.
    pub open spec fn player(&self) -> Entity {
        self.entities@[self.player_idx as int]
    }

    /// Assemble a scene, rejecting at construction time any violation of
    /// the scene invariants (this is where a player without hit points is
    /// refused, rather than at draw time).
    pub fn new(
        tiles: Vec<Tile>,
        entities: Vec<Entity>,
        player_idx: usize,
        width: u16,
        height: u16,
    ) -> (r: Result<SceneModel, GameError>)
        ensures
            r is Ok <==> valid_scene(entities@, player_idx as int),
            r matches Ok(s) ==> s == (SceneModel { tiles, entities, player_idx, width, height }),
            r is Err ==> r == Err::<SceneModel, GameError>(GameError::InvariantViolation),
    {
        if player_idx >= entities.len() {
            return Err(GameError::InvariantViolation);
        }
        if entities[player_idx].max_hp == 0 {
            return Err(GameError::InvariantViolation);
        }
        let mut i: usize = 0;
        while i < entities.len()
            invariant
                i <= entities.len(),
                forall|j: int|
                    0 <= j < i ==> ((#[trigger] entities@[j]).max_hp > 0 ==> entities@[j].hp
                        <= entities@[j].max_hp),
            decreases entities.len() - i,
        {
            if entities[i].max_hp > 0 && entities[i].hp > entities[i].max_hp {
                return Err(GameError::InvariantViolation);
            }
            i = i + 1;
        }
        Ok(SceneModel { tiles, entities, player_idx, width, height })
    }
}

} // verus!
