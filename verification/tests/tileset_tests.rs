use tilescene::errors::GameError;
use tilescene::game::game_glyphs;
use tilescene::geom::{ImageDims, Rect};
use tilescene::tileset::Tileset;

#[test]
fn exact_width_strip_maps_every_glyph() {
    let glyphs = game_glyphs();
    let strip = ImageDims { w: 5 * 24, h: 24 };
    let ts = Tileset::build(strip, &glyphs, 24, 24).expect("an exact-width strip is accepted");
    for (i, c) in glyphs.iter().enumerate() {
        let rect = ts.lookup(*c).expect("every strip glyph is mapped");
        assert_eq!(rect, Rect { x: 24 * i as u32, y: 0, w: 24, h: 24 });
    }
}

#[test]
fn narrow_strip_is_a_geometry_error() {
    let glyphs = game_glyphs();
    let strip = ImageDims { w: 5 * 24 - 1, h: 24 };
    let r = Tileset::build(strip, &glyphs, 24, 24);
    match r {
        Err(e) => assert_eq!(e, GameError::TilesetGeometry),
        Ok(_) => panic!("a narrow strip must be rejected"),
    }
}

#[test]
fn wider_strip_is_accepted() {
    let glyphs = game_glyphs();
    let strip = ImageDims { w: 5 * 24 + 7, h: 24 };
    assert!(Tileset::build(strip, &glyphs, 24, 24).is_ok());
}

#[test]
fn absent_glyph_looks_up_to_none() {
    let glyphs = game_glyphs();
    let strip = ImageDims { w: 5 * 24, h: 24 };
    let ts = Tileset::build(strip, &glyphs, 24, 24).unwrap();
    assert_eq!(ts.lookup('x'), None);
    assert_eq!(ts.lookup(' '), None);
}

#[test]
fn duplicate_glyph_keeps_the_later_cell() {
    let glyphs = vec!['a', 'a'];
    let strip = ImageDims { w: 20, h: 9 };
    let ts = Tileset::build(strip, &glyphs, 10, 9).unwrap();
    assert_eq!(ts.lookup('a'), Some(Rect { x: 10, y: 0, w: 10, h: 9 }));
}

#[test]
fn empty_glyph_list_builds_an_empty_atlas() {
    let glyphs: Vec<char> = Vec::new();
    let ts = Tileset::build(ImageDims { w: 0, h: 0 }, &glyphs, 24, 24).unwrap();
    assert_eq!(ts.lookup('#'), None);
}

#[test]
fn zero_cell_width_never_overruns() {
    let glyphs = vec!['a', 'b'];
    let ts = Tileset::build(ImageDims { w: 0, h: 4 }, &glyphs, 0, 4).unwrap();
    assert_eq!(ts.lookup('b'), Some(Rect { x: 0, y: 0, w: 0, h: 4 }));
}
