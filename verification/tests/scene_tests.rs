use tilescene::errors::GameError;
use tilescene::geom::{Color, GridPos};
use tilescene::scene::{generate_entities, generate_map, Entity, SceneModel, Tile};

fn black() -> Color {
    Color { r: 0, g: 0, b: 0, a: 255 }
}

#[test]
fn map_15x15_has_225_tiles_and_56_walls() {
    let tiles = generate_map(15, 15);
    assert_eq!(tiles.len(), 225);
    let walls = tiles.iter().filter(|t| t.glyph == '#').count();
    assert_eq!(walls, 2 * 15 + 2 * 15 - 4);
}

#[test]
fn map_wall_iff_border() {
    let (width, height) = (15u16, 15u16);
    let tiles = generate_map(width, height);
    for t in tiles.iter() {
        let border = t.pos.x == 0 || t.pos.x == width - 1 || t.pos.y == 0 || t.pos.y == height - 1;
        if border {
            assert_eq!(t.glyph, '#');
        } else {
            assert_eq!(t.glyph, '.');
        }
        assert_eq!(t.tint, black());
    }
}

#[test]
fn map_generation_order_is_column_major() {
    let tiles = generate_map(7, 5);
    assert_eq!(tiles.len(), 35);
    for x in 0..7u16 {
        for y in 0..5u16 {
            let t = &tiles[(x as usize) * 5 + y as usize];
            assert_eq!(t.pos, GridPos { x, y });
        }
    }
}

#[test]
fn map_3x3_wall_count() {
    let tiles = generate_map(3, 3);
    assert_eq!(tiles.len(), 9);
    let walls = tiles.iter().filter(|t| t.glyph == '#').count();
    assert_eq!(walls, 8);
    assert_eq!(tiles[1 * 3 + 1].glyph, '.');
}

#[test]
fn entities_are_the_fixed_four() {
    let ents = generate_entities();
    assert_eq!(ents.len(), 4);
    let red = Color { r: 255, g: 0, b: 0, a: 255 };
    let purple = Color { r: 255, g: 0, b: 255, a: 255 };
    assert_eq!(
        ents[0],
        Entity { pos: GridPos { x: 9, y: 6 }, glyph: 'g', tint: red, hp: 1, max_hp: 1 }
    );
    assert_eq!(
        ents[1],
        Entity { pos: GridPos { x: 2, y: 4 }, glyph: 'g', tint: red, hp: 1, max_hp: 1 }
    );
    assert_eq!(
        ents[2],
        Entity { pos: GridPos { x: 7, y: 5 }, glyph: '%', tint: purple, hp: 0, max_hp: 0 }
    );
    assert_eq!(
        ents[3],
        Entity { pos: GridPos { x: 4, y: 8 }, glyph: '%', tint: purple, hp: 0, max_hp: 0 }
    );
}

fn actor(hp: u32, max_hp: u32) -> Entity {
    Entity { pos: GridPos { x: 1, y: 1 }, glyph: '@', tint: black(), hp, max_hp }
}

#[test]
fn scene_accepts_valid_player() {
    let tiles: Vec<Tile> = generate_map(3, 3);
    let s = SceneModel::new(tiles, vec![actor(3, 5)], 0, 3, 3);
    let s = s.expect("a valid scene is accepted");
    assert_eq!(s.player_idx, 0);
    assert_eq!(s.entities[0].hp, 3);
}

#[test]
fn scene_rejects_player_index_out_of_range() {
    let r = SceneModel::new(Vec::new(), vec![actor(3, 5)], 1, 3, 3);
    match r {
        Err(e) => assert_eq!(e, GameError::InvariantViolation),
        Ok(_) => panic!("an out-of-range player index must be rejected"),
    }
}

#[test]
fn scene_rejects_player_without_health_pool() {
    let r = SceneModel::new(Vec::new(), vec![actor(0, 0)], 0, 3, 3);
    match r {
        Err(e) => assert_eq!(e, GameError::InvariantViolation),
        Ok(_) => panic!("a player without a health pool must be rejected"),
    }
}

#[test]
fn scene_rejects_hp_above_maximum() {
    let r = SceneModel::new(Vec::new(), vec![actor(3, 5), actor(9, 5)], 0, 3, 3);
    match r {
        Err(e) => assert_eq!(e, GameError::InvariantViolation),
        Ok(_) => panic!("hit points above the maximum must be rejected"),
    }
}

#[test]
fn scenery_with_zero_pool_is_accepted() {
    let mut scenery = actor(0, 0);
    scenery.glyph = '%';
    let r = SceneModel::new(Vec::new(), vec![scenery, actor(5, 5)], 1, 3, 3);
    assert!(r.is_ok());
}
