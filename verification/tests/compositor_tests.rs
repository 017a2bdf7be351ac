use tilescene::compositor::{health_bar_width, CaptionId, DrawOp};
use tilescene::errors::GameError;
use tilescene::game::{game_glyphs, FrameInputs, Game};
use tilescene::geom::{Color, ImageDims, ScreenRect};
use tilescene::tileset::Tileset;

fn ready_inputs() -> FrameInputs {
    let tileset = Tileset::build(ImageDims { w: 5 * 24, h: 24 }, &game_glyphs(), 24, 24).unwrap();
    FrameInputs {
        title: Some(Ok(ImageDims { w: 302, h: 77 })),
        mononoki_font_info: Some(Ok(ImageDims { w: 410, h: 22 })),
        square_font_info: Some(Ok(ImageDims { w: 350, h: 22 })),
        tileset: Some(Ok(tileset)),
        screen_w: 800,
        screen_h: 600,
    }
}

fn idle_inputs() -> FrameInputs {
    FrameInputs {
        title: None,
        mononoki_font_info: None,
        square_font_info: None,
        tileset: None,
        screen_w: 800,
        screen_h: 600,
    }
}

#[test]
fn health_bar_width_is_linear() {
    assert_eq!(health_bar_width(100, 3, 5), 60);
    assert_eq!(health_bar_width(100, 0, 5), 0);
    assert_eq!(health_bar_width(100, 5, 5), 100);
    assert_eq!(health_bar_width(100, 1, 3), 33);
}

#[test]
fn full_frame_issues_236_draws_in_order() {
    let mut game = Game::new();
    let ops = game.draw_frame(ready_inputs());
    assert_eq!(ops.len(), 236);

    let clears = ops.iter().filter(|o| matches!(o, DrawOp::Clear { .. })).count();
    let captions = ops.iter().filter(|o| matches!(o, DrawOp::Caption { .. })).count();
    let sprites = ops.iter().filter(|o| matches!(o, DrawOp::Sprite { .. })).count();
    let fills = ops.iter().filter(|o| matches!(o, DrawOp::Fill { .. })).count();
    assert_eq!(clears, 1);
    assert_eq!(captions, 3);
    // 225 map tiles (no glyph is absent from the set) and 5 entities.
    assert_eq!(sprites, 225 + 5);
    assert_eq!(fills, 2);

    assert_eq!(ops[0], DrawOp::Clear { color: Color { r: 255, g: 255, b: 255, a: 255 } });
    assert_eq!(
        ops[1],
        DrawOp::Caption {
            which: CaptionId::Title,
            dest: ScreenRect { x: 400 - 151, y: 40 - 38, w: 302, h: 77 },
        }
    );
    assert_eq!(
        ops[2],
        DrawOp::Caption {
            which: CaptionId::MononokiInfo,
            dest: ScreenRect { x: 2, y: 540, w: 410, h: 22 },
        }
    );
    assert_eq!(
        ops[3],
        DrawOp::Caption {
            which: CaptionId::SquareInfo,
            dest: ScreenRect { x: 2, y: 570, w: 350, h: 22 },
        }
    );

    // The overlay is last: the translucent background bar immediately right
    // of the map, then the opaque 60-pixel current-health bar over it.
    assert_eq!(
        ops[234],
        DrawOp::Fill {
            dest: ScreenRect { x: 410, y: 120, w: 100, h: 24 },
            color: Color { r: 255, g: 0, b: 0, a: 128 },
        }
    );
    assert_eq!(
        ops[235],
        DrawOp::Fill {
            dest: ScreenRect { x: 410, y: 120, w: 60, h: 24 },
            color: Color { r: 255, g: 0, b: 0, a: 255 },
        }
    );
}

#[test]
fn entity_paints_over_the_tile_it_stands_on() {
    let mut game = Game::new();
    let ops = game.draw_frame(ready_inputs());
    // The first decoration entity stands at grid (9, 6): screen
    // (50 + 9*24, 120 + 6*24).
    let cell = (50 + 9 * 24, 120 + 6 * 24);
    let at_cell: Vec<(usize, &DrawOp)> = ops
        .iter()
        .enumerate()
        .filter(|(_, o)| match o {
            DrawOp::Sprite { dest, .. } => (dest.x, dest.y) == cell,
            _ => false,
        })
        .collect();
    assert_eq!(at_cell.len(), 2);
    let (tile_idx, tile_op) = at_cell[0];
    let (entity_idx, entity_op) = at_cell[1];
    assert!(tile_idx < entity_idx);
    // The earlier draw is the floor tile, black-tinted; the later (and so
    // finally visible) one is the red monster glyph.
    match tile_op {
        DrawOp::Sprite { src, tint, .. } => {
            assert_eq!(src.x, 3 * 24);
            assert_eq!(*tint, Color { r: 0, g: 0, b: 0, a: 255 });
        },
        _ => panic!("a sprite was expected"),
    }
    match entity_op {
        DrawOp::Sprite { src, tint, .. } => {
            assert_eq!(src.x, 2 * 24);
            assert_eq!(*tint, Color { r: 255, g: 0, b: 0, a: 255 });
        },
        _ => panic!("a sprite was expected"),
    }
}

#[test]
fn pending_assets_skip_their_layers_only() {
    let mut game = Game::new();
    let ops = game.draw_frame(idle_inputs());
    // Clear and the two health-bar rectangles; no caption, no sprite.
    assert_eq!(ops.len(), 3);
    assert!(matches!(ops[0], DrawOp::Clear { .. }));
    assert!(matches!(ops[1], DrawOp::Fill { .. }));
    assert!(matches!(ops[2], DrawOp::Fill { .. }));
}

#[test]
fn resolved_frames_repeat_without_reproduction() {
    let mut game = Game::new();
    let first = game.draw_frame(ready_inputs());
    // Every later frame: nothing is pending, nothing is produced again,
    // and the composed output is identical.
    let second = game.draw_frame(idle_inputs());
    let third = game.draw_frame(idle_inputs());
    assert_eq!(first, second);
    assert_eq!(first, third);
}

#[test]
fn failed_asset_loses_its_layer_and_surfaces_its_error() {
    let mut game = Game::new();
    let mut inputs = ready_inputs();
    inputs.title = Some(Err(GameError::AssetLoad));
    let ops = game.draw_frame(inputs);
    // The frame goes on without the title layer: one caption fewer.
    assert_eq!(ops.len(), 235);
    assert_eq!(game.first_asset_error(), Some(GameError::AssetLoad));
}

#[test]
fn tileset_failure_drops_both_sprite_layers() {
    let mut game = Game::new();
    let mut inputs = ready_inputs();
    inputs.tileset = Some(Err(GameError::AssetRender));
    let ops = game.draw_frame(inputs);
    assert_eq!(ops.len(), 1 + 3 + 2);
    assert_eq!(game.first_asset_error(), Some(GameError::AssetRender));
}
