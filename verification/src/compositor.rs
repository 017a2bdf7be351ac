//! The per-frame compositor. Given the scene model and whichever assets are
//! ready, it emits the frame's ordered draw operations: background clear,
//! title caption, attribution captions, map tiles, entities, health-bar
//! overlay. Later operations paint over earlier ones (painter's algorithm);
//! each layer is gated solely on its own asset's readiness.

use vstd::prelude::*;

use crate::geom::{Color, GridPos, ImageDims, Rect, ScreenRect};
use crate::scene::{Entity, SceneModel, Tile};
use crate::tileset::Tileset;

verus! {

/// The full width of the health bar, in pixels.
pub const HEALTH_BAR_WIDTH_PX: u32 = 100;

/// The vertical centre of the title caption, in pixels from the top.
pub const TITLE_CENTER_Y: u32 = 40;

/// The left anchor of the attribution captions.
pub const CAPTION_LEFT_X: u32 = 2;

/// How far above the bottom edge the first attribution caption sits.
pub const MONONOKI_INFO_RAISE: u32 = 60;

/// How far above the bottom edge the second attribution caption sits.
pub const SQUARE_INFO_RAISE: u32 = 30;

/// Which prerendered caption image an operation draws.
#[derive(Clone, Copy, PartialEq, Eq, Structural, Debug)]
pub enum CaptionId {
    Title,
    MononokiInfo,
    SquareInfo,
}

/// One draw operation of a frame.
#[derive(Clone, Copy, PartialEq, Eq, Structural, Debug)]
pub enum DrawOp {
    /// Clear the whole surface to a colour.
    Clear { color: Color },
    /// Draw a prerendered caption image, unscaled, at a placement.
    Caption { which: CaptionId, dest: ScreenRect },
    /// Draw a sub-rectangle of the glyph strip, tinted, at a placement.
    Sprite { src: Rect, dest: ScreenRect, tint: Color },
    /// Fill a rectangle with a colour.
    Fill { dest: ScreenRect, color: Color },
}

/// Where the title caption goes: horizontally centred, its vertical centre
/// at a fixed offset near the top.
pub open spec fn title_placement(img: ImageDims, screen_w: int) -> ScreenRect {
    ScreenRect {
        x: (screen_w / 2 - (img.w as int) / 2) as i64,
        y: (TITLE_CENTER_Y - (img.h as int) / 2) as i64,
        w: img.w,
        h: img.h,
    }
}

/// Where an attribution caption goes: left-anchored, a fixed distance above
/// the bottom edge.
pub open spec fn attribution_placement(img: ImageDims, screen_h: int, raise: int) -> ScreenRect {
    ScreenRect { x: CAPTION_LEFT_X as i64, y: (screen_h - raise) as i64, w: img.w, h: img.h }
}

/// The title layer: one caption draw once the title image is ready,
/// nothing before.
pub open spec fn title_ops(title: Option<ImageDims>, screen_w: int) -> Seq<DrawOp> {
    match title {
        Some(img) => seq![
            DrawOp::Caption { which: CaptionId::Title, dest: title_placement(img, screen_w) },
        ],
        None => seq![],
    }
}

/// One attribution layer: a left-anchored caption once its image is ready.
pub open spec fn attribution_ops(
    which: CaptionId,
    img: Option<ImageDims>,
    screen_h: int,
    raise: int,
) -> Seq<DrawOp> {
    match img {
        Some(img) => seq![
            DrawOp::Caption { which, dest: attribution_placement(img, screen_h, raise) },
        ],
        None => seq![],
    }
}

/// Grid-space to screen-space: `offset + cell * tile_size`, element-wise.
pub open spec fn cell_placement(
    pos: GridPos,
    src: Rect,
    off_x: int,
    off_y: int,
    tile_w: int,
    tile_h: int,
) -> ScreenRect {
    ScreenRect {
        x: (off_x + pos.x * tile_w) as i64,
        y: (off_y + pos.y * tile_h) as i64,
        w: src.w,
        h: src.h,
    }
}

/// The draws one glyph at one cell contributes: its tinted cell sprite if
/// the atlas holds the glyph, nothing at all otherwise (a glyph absent from
/// the rendered set is skipped silently).
pub open spec fn glyph_sprite_ops(
    atlas: Map<char, Rect>,
    glyph: char,
    pos: GridPos,
    tint: Color,
    off_x: int,
    off_y: int,
    tile_w: int,
    tile_h: int,
) -> Seq<DrawOp> {
    if atlas.contains_key(glyph) {
        seq![
            DrawOp::Sprite {
                src: atlas[glyph],
                dest: cell_placement(pos, atlas[glyph], off_x, off_y, tile_w, tile_h),
                tint,
            },
        ]
    } else {
        seq![]
    }
}

/// The map layer: every tile's sprite, in map order.
pub open spec fn tile_ops(
    tiles: Seq<Tile>,
    atlas: Map<char, Rect>,
    off_x: int,
    off_y: int,
    tile_w: int,
    tile_h: int,
) -> Seq<DrawOp>
    decreases tiles.len(),
{
    if tiles.len() == 0 {
        seq![]
    } else {
        tile_ops(tiles.drop_last(), atlas, off_x, off_y, tile_w, tile_h) + glyph_sprite_ops(
            atlas,
            tiles.last().glyph,
            tiles.last().pos,
            tiles.last().tint,
            off_x,
            off_y,
            tile_w,
            tile_h,
        )
    }
}

/// The entity layer: every entity's sprite, in entity (draw) order.
pub open spec fn entity_ops(
    entities: Seq<Entity>,
    atlas: Map<char, Rect>,
    off_x: int,
    off_y: int,
    tile_w: int,
    tile_h: int,
) -> Seq<DrawOp>
    decreases entities.len(),
{
    if entities.len() == 0 {
        seq![]
    } else {
        entity_ops(entities.drop_last(), atlas, off_x, off_y, tile_w, tile_h) + glyph_sprite_ops(
            atlas,
            entities.last().glyph,
            entities.last().pos,
            entities.last().tint,
            off_x,
            off_y,
            tile_w,
            tile_h,
        )
    }
}

/// The width of the filled part of the health bar: the full width scaled
/// by current over maximum hit points.
pub open spec fn health_width(full_w: int, hp: int, max_hp: int) -> int {
    full_w * hp / max_hp
}

/// The health-bar overlay: a translucent full-width background immediately
/// right of the map, top-aligned, and an opaque bar of the scaled width
/// over its left end. It depends only on the player's numbers, never on an
/// image asset.
pub open spec fn health_ops(
    player: Entity,
    map_w: int,
    off_x: int,
    off_y: int,
    tile_w: int,
    tile_h: int,
) -> Seq<DrawOp> {
    let anchor_x = (off_x + map_w * tile_w) as i64;
    seq![
        DrawOp::Fill {
            dest: ScreenRect {
                x: anchor_x,
                y: off_y as i64,
                w: HEALTH_BAR_WIDTH_PX,
                h: tile_h as u32,
            },
            color: Color::red_translucent(),
        },
        DrawOp::Fill {
            dest: ScreenRect {
                x: anchor_x,
                y: off_y as i64,
                w: health_width(HEALTH_BAR_WIDTH_PX as int, player.hp as int, player.max_hp as int) as u32,
                h: tile_h as u32,
            },
            color: Color::red(),
        },
    ]
}

/// A whole frame, in its strict order: clear, title, the two attributions,
/// then (only with the tileset ready) all map tiles and after them all
/// entities, and always the health bar last.
pub open spec fn frame_ops(
    scene: SceneModel,
    title: Option<ImageDims>,
    mononoki_info: Option<ImageDims>,
    square_info: Option<ImageDims>,
    atlas: Option<Map<char, Rect>>,
    off_x: int,
    off_y: int,
    tile_w: int,
    tile_h: int,
    screen_w: int,
    screen_h: int,
) -> Seq<DrawOp> {
    seq![DrawOp::Clear { color: Color::white() }] + title_ops(title, screen_w) + attribution_ops(
        CaptionId::MononokiInfo,
        mononoki_info,
        screen_h,
        MONONOKI_INFO_RAISE as int,
    ) + attribution_ops(CaptionId::SquareInfo, square_info, screen_h, SQUARE_INFO_RAISE as int) + (
    match atlas {
        Some(a) => tile_ops(scene.tiles@, a, off_x, off_y, tile_w, tile_h) + entity_ops(
            scene.entities@,
            a,
            off_x,
            off_y,
            tile_w,
            tile_h,
        ),
        None => seq![],
    }) + health_ops(scene.player(), scene.width as int, off_x, off_y, tile_w, tile_h)
}

/// Grid-space to screen-space for one axis: `offset + cell * size` in
/// pixels. The product of two 16-bit values and a 32-bit offset always fit.
fn grid_to_screen(off: u32, cell: u16, size: u16) -> (r: i64)
    ensures
        r == off + cell * size,
{
    proof {
        assert(0 <= (cell as int) * (size as int) <= 0xffff * 0xffff) by (nonlinear_arith)
            requires
                0 <= cell as int <= 0xffff,
                0 <= size as int <= 0xffff,
        ;
    }
    off as i64 + (cell as i64) * (size as i64)
}

/// The filled width of the health bar for a live pool: `full_w * hp`
/// divided by `max_hp`, never wider than the background bar.
pub fn health_bar_width(full_w: u32, hp: u32, max_hp: u32) -> (r: u32)
    requires
        max_hp > 0,
        hp <= max_hp,
    ensures
        r == health_width(full_w as int, hp as int, max_hp as int),
        r <= full_w,
{
    proof {
        assert((full_w as int) * (hp as int) <= u64::MAX) by (nonlinear_arith)
            requires
                0 <= full_w as int <= u32::MAX,
                0 <= hp as int <= u32::MAX,
        ;
        lemma_health_width_linear(full_w as int, hp as int, max_hp as int);
    }
    let prod: u64 = (full_w as u64) * (hp as u64);
    let cur: u64 = prod / (max_hp as u64);
    cur as u32
}

/// Law: the health bar is linear in hit points: its width is the full width
/// scaled by `hp / max_hp`. An empty pool shows an empty bar, a full pool
/// the whole bar, and the filled part never overflows the background.
pub proof fn lemma_health_width_linear(full_w: int, hp: int, max_hp: int)
    requires
        0 < max_hp,
        0 <= hp <= max_hp,
        0 <= full_w,
    ensures
        hp == 0 ==> health_width(full_w, hp, max_hp) == 0,
        hp == max_hp ==> health_width(full_w, hp, max_hp) == full_w,
        0 <= health_width(full_w, hp, max_hp) <= full_w,
{
    vstd::arithmetic::mul::lemma_mul_inequality(hp, max_hp, full_w);
    vstd::arithmetic::mul::lemma_mul_is_commutative(hp, full_w);
    vstd::arithmetic::mul::lemma_mul_is_commutative(max_hp, full_w);
    vstd::arithmetic::div_mod::lemma_div_is_ordered(full_w * hp, full_w * max_hp, max_hp);
    vstd::arithmetic::div_mod::lemma_div_multiples_vanish(full_w, max_hp);
    vstd::arithmetic::mul::lemma_mul_is_commutative(full_w, max_hp);
    vstd::arithmetic::div_mod::lemma_div_pos_is_pos(full_w * hp, max_hp);
    vstd::arithmetic::mul::lemma_mul_nonnegative(full_w, hp);
}

/// Append the draws of one glyph at one cell: the tinted cell sprite if the
/// atlas holds the glyph, nothing otherwise.
fn push_glyph_op(
    ops: &mut Vec<DrawOp>,
    tileset: &Tileset,
    glyph: char,
    pos: GridPos,
    tint: Color,
    off_x: u32,
    off_y: u32,
    tile_w: u16,
    tile_h: u16,
)
    ensures
        final(ops)@ == old(ops)@ + glyph_sprite_ops(
            tileset@,
            glyph,
            pos,
            tint,
            off_x as int,
            off_y as int,
            tile_w as int,
            tile_h as int,
        ),
{
    match tileset.lookup(glyph) {
        Some(src) => {
            let x = grid_to_screen(off_x, pos.x, tile_w);
            let y = grid_to_screen(off_y, pos.y, tile_h);
            ops.push(DrawOp::Sprite { src, dest: ScreenRect { x, y, w: src.w, h: src.h }, tint });
            proof {
                assert(ops@ =~= old(ops)@ + glyph_sprite_ops(
                    tileset@,
                    glyph,
                    pos,
                    tint,
                    off_x as int,
                    off_y as int,
                    tile_w as int,
                    tile_h as int,
                ));
            }
        },
        None => {
            proof {
                assert(ops@ =~= old(ops)@ + glyph_sprite_ops(
                    tileset@,
                    glyph,
                    pos,
                    tint,
                    off_x as int,
                    off_y as int,
                    tile_w as int,
                    tile_h as int,
                ));
            }
        },
    }
}

/// Append the whole map layer, in map order.
fn push_tile_ops(
    ops: &mut Vec<DrawOp>,
    tiles: &Vec<Tile>,
    tileset: &Tileset,
    off_x: u32,
    off_y: u32,
    tile_w: u16,
    tile_h: u16,
)
    ensures
        final(ops)@ == old(ops)@ + tile_ops(
            tiles@,
            tileset@,
            off_x as int,
            off_y as int,
            tile_w as int,
            tile_h as int,
        ),
{
    let mut i: usize = 0;
    while i < tiles.len()
        invariant
            i <= tiles@.len(),
            ops@ == old(ops)@ + tile_ops(
                tiles@.take(i as int),
                tileset@,
                off_x as int,
                off_y as int,
                tile_w as int,
                tile_h as int,
            ),
        decreases tiles@.len() - i,
    {
        let t = tiles[i];
        push_glyph_op(ops, tileset, t.glyph, t.pos, t.tint, off_x, off_y, tile_w, tile_h);
        proof {
            let taken = tiles@.take(i as int + 1);
            assert(taken.drop_last() =~= tiles@.take(i as int));
            assert(taken.last() == tiles@[i as int]);
            assert(ops@ =~= old(ops)@ + tile_ops(
                taken,
                tileset@,
                off_x as int,
                off_y as int,
                tile_w as int,
                tile_h as int,
            ));
        }
        i = i + 1;
    }
    proof {
        assert(tiles@.take(tiles@.len() as int) =~= tiles@);
    }
}

/// Append the whole entity layer, in entity order, after all tiles:
/// entities always render above the map.
fn push_entity_ops(
    ops: &mut Vec<DrawOp>,
    entities: &Vec<Entity>,
    tileset: &Tileset,
    off_x: u32,
    off_y: u32,
    tile_w: u16,
    tile_h: u16,
)
    ensures
        final(ops)@ == old(ops)@ + entity_ops(
            entities@,
            tileset@,
            off_x as int,
            off_y as int,
            tile_w as int,
            tile_h as int,
        ),
{
    let mut i: usize = 0;
    while i < entities.len()
        invariant
            i <= entities@.len(),
            ops@ == old(ops)@ + entity_ops(
                entities@.take(i as int),
                tileset@,
                off_x as int,
                off_y as int,
                tile_w as int,
                tile_h as int,
            ),
        decreases entities@.len() - i,
    {
        let e = entities[i];
        push_glyph_op(ops, tileset, e.glyph, e.pos, e.tint, off_x, off_y, tile_w, tile_h);
        proof {
            let taken = entities@.take(i as int + 1);
            assert(taken.drop_last() =~= entities@.take(i as int));
            assert(taken.last() == entities@[i as int]);
            assert(ops@ =~= old(ops)@ + entity_ops(
                taken,
                tileset@,
                off_x as int,
                off_y as int,
                tile_w as int,
                tile_h as int,
            ));
        }
        i = i + 1;
    }
    proof {
        assert(entities@.take(entities@.len() as int) =~= entities@);
    }
}

/// The atlas a possibly-ready tileset offers to the compositor.
pub open spec fn atlas_of(tileset: Option<&Tileset>) -> Option<Map<char, Rect>> {
    match tileset {
        Some(ts) => Some(ts@),
        None => None,
    }
}

/// Compose one frame: the ordered draw operations for the scene and
/// whichever assets are ready. Each layer is gated solely on its own
/// asset, so the composed output is the same whatever order the assets
/// happened to resolve in.
pub fn compose_frame(
    scene: &SceneModel,
    title: Option<ImageDims>,
    mononoki_info: Option<ImageDims>,
    square_info: Option<ImageDims>,
    tileset: Option<&Tileset>,
    off_x: u32,
    off_y: u32,
    tile_w: u16,
    tile_h: u16,
    screen_w: u32,
    screen_h: u32,
) -> (ops: Vec<DrawOp>)
    requires
        scene.well_formed(),
    ensures
        ops@ == frame_ops(
            *scene,
            title,
            mononoki_info,
            square_info,
            atlas_of(tileset),
            off_x as int,
            off_y as int,
            tile_w as int,
            tile_h as int,
            screen_w as int,
            screen_h as int,
        ),
{
    let mut ops: Vec<DrawOp> = Vec::new();
    ops.push(DrawOp::Clear { color: Color { r: 255, g: 255, b: 255, a: 255 } });
    if let Some(img) = title {
        let x: i64 = (screen_w as i64) / 2 - (img.w as i64) / 2;
        let y: i64 = (TITLE_CENTER_Y as i64) - (img.h as i64) / 2;
        ops.push(
            DrawOp::Caption {
                which: CaptionId::Title,
                dest: ScreenRect { x, y, w: img.w, h: img.h },
            },
        );
    }
    if let Some(img) = mononoki_info {
        ops.push(
            DrawOp::Caption {
                which: CaptionId::MononokiInfo,
                dest: ScreenRect {
                    x: CAPTION_LEFT_X as i64,
                    y: (screen_h as i64) - (MONONOKI_INFO_RAISE as i64),
                    w: img.w,
                    h: img.h,
                },
            },
        );
    }
    if let Some(img) = square_info {
        ops.push(
            DrawOp::Caption {
                which: CaptionId::SquareInfo,
                dest: ScreenRect {
                    x: CAPTION_LEFT_X as i64,
                    y: (screen_h as i64) - (SQUARE_INFO_RAISE as i64),
                    w: img.w,
                    h: img.h,
                },
            },
        );
    }
    proof {
        assert(ops@ =~= seq![DrawOp::Clear { color: Color::white() }] + title_ops(
            title,
            screen_w as int,
        ) + attribution_ops(
            CaptionId::MononokiInfo,
            mononoki_info,
            screen_h as int,
            MONONOKI_INFO_RAISE as int,
        ) + attribution_ops(
            CaptionId::SquareInfo,
            square_info,
            screen_h as int,
            SQUARE_INFO_RAISE as int,
        ));
    }
    let ghost captions_done = ops@;
    if let Some(ts) = tileset {
        push_tile_ops(&mut ops, &scene.tiles, ts, off_x, off_y, tile_w, tile_h);
        push_entity_ops(&mut ops, &scene.entities, ts, off_x, off_y, tile_w, tile_h);
        proof {
            assert(ops@ =~= captions_done + (tile_ops(
                scene.tiles@,
                ts@,
                off_x as int,
                off_y as int,
                tile_w as int,
                tile_h as int,
            ) + entity_ops(
                scene.entities@,
                ts@,
                off_x as int,
                off_y as int,
                tile_w as int,
                tile_h as int,
            )));
        }
    }
    let player = scene.entities[scene.player_idx];
    let anchor_x = grid_to_screen(off_x, scene.width, tile_w);
    ops.push(
        DrawOp::Fill {
            dest: ScreenRect {
                x: anchor_x,
                y: off_y as i64,
                w: HEALTH_BAR_WIDTH_PX,
                h: tile_h as u32,
            },
            color: Color { r: 255, g: 0, b: 0, a: 128 },
        },
    );
    let current_w = health_bar_width(HEALTH_BAR_WIDTH_PX, player.hp, player.max_hp);
    ops.push(
        DrawOp::Fill {
            dest: ScreenRect { x: anchor_x, y: off_y as i64, w: current_w, h: tile_h as u32 },
            color: Color { r: 255, g: 0, b: 0, a: 255 },
        },
    );
    proof {
        assert(ops@ =~= frame_ops(
            *scene,
            title,
            mononoki_info,
            square_info,
            atlas_of(tileset),
            off_x as int,
            off_y as int,
            tile_w as int,
            tile_h as int,
            screen_w as int,
            screen_h as int,
        ));
    }
    ops
}

/// The single sprite a tile contributes when its glyph is in the atlas.
pub open spec fn tile_sprite(
    tiles: Seq<Tile>,
    atlas: Map<char, Rect>,
    k: int,
    off_x: int,
    off_y: int,
    tile_w: int,
    tile_h: int,
) -> DrawOp {
    glyph_sprite_ops(atlas, tiles[k].glyph, tiles[k].pos, tiles[k].tint, off_x, off_y, tile_w, tile_h)[0]
}

/// The single sprite an entity contributes when its glyph is in the atlas.
pub open spec fn entity_sprite(
    entities: Seq<Entity>,
    atlas: Map<char, Rect>,
    k: int,
    off_x: int,
    off_y: int,
    tile_w: int,
    tile_h: int,
) -> DrawOp {
    glyph_sprite_ops(
        atlas,
        entities[k].glyph,
        entities[k].pos,
        entities[k].tint,
        off_x,
        off_y,
        tile_w,
        tile_h,
    )[0]
}

/// Every tile whose glyph the atlas holds has its sprite somewhere in the
/// map layer.
proof fn lemma_tile_sprite_present(
    tiles: Seq<Tile>,
    atlas: Map<char, Rect>,
    k: int,
    off_x: int,
    off_y: int,
    tile_w: int,
    tile_h: int,
)
    requires
        0 <= k < tiles.len(),
        atlas.contains_key(tiles[k].glyph),
    ensures
        exists|i: int|
            0 <= i < tile_ops(tiles, atlas, off_x, off_y, tile_w, tile_h).len()
                && tile_ops(tiles, atlas, off_x, off_y, tile_w, tile_h)[i] == tile_sprite(
                tiles,
                atlas,
                k,
                off_x,
                off_y,
                tile_w,
                tile_h,
            ),
    decreases tiles.len(),
{
    let ops = tile_ops(tiles, atlas, off_x, off_y, tile_w, tile_h);
    if k == tiles.len() - 1 {
        assert(ops[ops.len() - 1] == tile_sprite(tiles, atlas, k, off_x, off_y, tile_w, tile_h));
    } else {
        let prefix = tiles.drop_last();
        assert(prefix[k] == tiles[k]);
        lemma_tile_sprite_present(prefix, atlas, k, off_x, off_y, tile_w, tile_h);
        let i = choose|i: int|
            0 <= i < tile_ops(prefix, atlas, off_x, off_y, tile_w, tile_h).len()
                && tile_ops(prefix, atlas, off_x, off_y, tile_w, tile_h)[i] == tile_sprite(
                prefix,
                atlas,
                k,
                off_x,
                off_y,
                tile_w,
                tile_h,
            );
        assert(ops[i] == tile_sprite(tiles, atlas, k, off_x, off_y, tile_w, tile_h));
    }
}

/// Every entity whose glyph the atlas holds has its sprite somewhere in the
/// entity layer.
proof fn lemma_entity_sprite_present(
    entities: Seq<Entity>,
    atlas: Map<char, Rect>,
    k: int,
    off_x: int,
    off_y: int,
    tile_w: int,
    tile_h: int,
)
    requires
        0 <= k < entities.len(),
        atlas.contains_key(entities[k].glyph),
    ensures
        exists|i: int|
            0 <= i < entity_ops(entities, atlas, off_x, off_y, tile_w, tile_h).len()
                && entity_ops(entities, atlas, off_x, off_y, tile_w, tile_h)[i] == entity_sprite(
                entities,
                atlas,
                k,
                off_x,
                off_y,
                tile_w,
                tile_h,
            ),
    decreases entities.len(),
{
    let ops = entity_ops(entities, atlas, off_x, off_y, tile_w, tile_h);
    if k == entities.len() - 1 {
        assert(ops[ops.len() - 1] == entity_sprite(
            entities,
            atlas,
            k,
            off_x,
            off_y,
            tile_w,
            tile_h,
        ));
    } else {
        let prefix = entities.drop_last();
        assert(prefix[k] == entities[k]);
        lemma_entity_sprite_present(prefix, atlas, k, off_x, off_y, tile_w, tile_h);
        let i = choose|i: int|
            0 <= i < entity_ops(prefix, atlas, off_x, off_y, tile_w, tile_h).len()
                && entity_ops(prefix, atlas, off_x, off_y, tile_w, tile_h)[i] == entity_sprite(
                prefix,
                atlas,
                k,
                off_x,
                off_y,
                tile_w,
                tile_h,
            );
        assert(ops[i] == entity_sprite(entities, atlas, k, off_x, off_y, tile_w, tile_h));
    }
}

/// Law: entities render above the map. In a frame composed with the tileset
/// ready, the sprite of an entity standing on a cell appears strictly later
/// in the draw order than the sprite of the map tile under it, so the
/// entity's pixels are the final visible ones at that cell.
pub proof fn lemma_entity_drawn_over_tile(
    scene: SceneModel,
    title: Option<ImageDims>,
    mononoki_info: Option<ImageDims>,
    square_info: Option<ImageDims>,
    atlas: Map<char, Rect>,
    off_x: int,
    off_y: int,
    tile_w: int,
    tile_h: int,
    screen_w: int,
    screen_h: int,
    kt: int,
    ke: int,
)
    requires
        scene.well_formed(),
        0 <= kt < scene.tiles@.len(),
        0 <= ke < scene.entities@.len(),
        scene.tiles@[kt].pos == scene.entities@[ke].pos,
        atlas.contains_key(scene.tiles@[kt].glyph),
        atlas.contains_key(scene.entities@[ke].glyph),
    ensures
        ({
            let frame = frame_ops(
                scene,
                title,
                mononoki_info,
                square_info,
                Some(atlas),
                off_x,
                off_y,
                tile_w,
                tile_h,
                screen_w,
                screen_h,
            );
            exists|i: int, j: int|
                0 <= i < j < frame.len() && frame[i] == tile_sprite(
                    scene.tiles@,
                    atlas,
                    kt,
                    off_x,
                    off_y,
                    tile_w,
                    tile_h,
                ) && frame[j] == entity_sprite(
                    scene.entities@,
                    atlas,
                    ke,
                    off_x,
                    off_y,
                    tile_w,
                    tile_h,
                )
        }),
{
    let frame = frame_ops(
        scene,
        title,
        mononoki_info,
        square_info,
        Some(atlas),
        off_x,
        off_y,
        tile_w,
        tile_h,
        screen_w,
        screen_h,
    );
    let head = seq![DrawOp::Clear { color: Color::white() }] + title_ops(title, screen_w)
        + attribution_ops(
        CaptionId::MononokiInfo,
        mononoki_info,
        screen_h,
        MONONOKI_INFO_RAISE as int,
    ) + attribution_ops(CaptionId::SquareInfo, square_info, screen_h, SQUARE_INFO_RAISE as int);
    let t_layer = tile_ops(scene.tiles@, atlas, off_x, off_y, tile_w, tile_h);
    let e_layer = entity_ops(scene.entities@, atlas, off_x, off_y, tile_w, tile_h);
    lemma_tile_sprite_present(scene.tiles@, atlas, kt, off_x, off_y, tile_w, tile_h);
    lemma_entity_sprite_present(scene.entities@, atlas, ke, off_x, off_y, tile_w, tile_h);
    let i0 = choose|i: int|
        0 <= i < t_layer.len() && t_layer[i] == tile_sprite(
            scene.tiles@,
            atlas,
            kt,
            off_x,
            off_y,
            tile_w,
            tile_h,
        );
    let j0 = choose|j: int|
        0 <= j < e_layer.len() && e_layer[j] == entity_sprite(
            scene.entities@,
            atlas,
            ke,
            off_x,
            off_y,
            tile_w,
            tile_h,
        );
    let i = head.len() + i0;
    let j = head.len() + t_layer.len() + j0;
    assert(frame[i] == t_layer[i0]);
    assert(frame[j] == e_layer[j0]);
    assert(0 <= i < j < frame.len());
}

} // verus!
