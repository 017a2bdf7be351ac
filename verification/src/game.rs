//! Bootstrap and the per-frame driver. `Game::new` builds the static scene
//! model and the pending deferred assets once; every frame the host hands
//! `draw_frame` the production outcomes for whatever is still pending and
//! performs the draw operations it returns. The startup configuration the
//! host needs (window, fonts, caption texts) is a set of explicit constants
//! here: no process-wide mutable state.

use vstd::prelude::*;

use crate::asset::{observed, step_asset, AssetState, DeferredAsset};
use crate::compositor::{compose_frame, frame_ops, DrawOp};
use crate::errors::GameError;
use crate::geom::{Color, GridPos, ImageDims, Rect};
use crate::scene::{
    decoration_entities, generate_entities, generate_map, player_entity, Entity, SceneModel,
};
use crate::tileset::Tileset;

verus! {

/// The window's pixel width at startup.
pub const SCREEN_W: u32 = 800;

/// The window's pixel height at startup.
pub const SCREEN_H: u32 = 600;

/// The horizontal screen coordinate of the map's upper-left corner.
pub const MAP_OFFSET_X: u32 = 50;

/// The vertical screen coordinate of the map's upper-left corner.
pub const MAP_OFFSET_Y: u32 = 120;

/// The square glyph cell's edge, in pixels.
pub const TILE_SIZE_PX: u16 = 24;

/// The default map's width, in tiles.
pub const MAP_WIDTH: u16 = 15;

/// The default map's height, in tiles.
pub const MAP_HEIGHT: u16 = 15;

/// What the host must render to produce one text image: the text, the font
/// resource path, and the point size.
pub struct TextSpec {
    pub text: &'static str,
    pub font: &'static str,
    pub size: u32,
}

/// The startup configuration handed to the windowing collaborator. The
/// display-scaling hint is an explicit field here, not an environment
/// tweak.
pub struct StartupConfig {
    pub window_title: &'static str,
    pub screen_w: u32,
    pub screen_h: u32,
    /// Ask the host for a fixed display scale factor of one.
    pub hidpi_factor_one: bool,
    /// Scale images smoothly rather than pixelating them.
    pub smooth_scaling: bool,
}

/// The fixed startup configuration.
pub fn startup_config() -> (c: StartupConfig)
    ensures
        c.window_title@ == "Quicksilver Roguelike"@,
        c.screen_w == SCREEN_W,
        c.screen_h == SCREEN_H,
        c.hidpi_factor_one,
        c.smooth_scaling,
{
    StartupConfig {
        window_title: "Quicksilver Roguelike",
        screen_w: SCREEN_W,
        screen_h: SCREEN_H,
        hidpi_factor_one: true,
        smooth_scaling: true,
    }
}

/// What the host renders for the title caption.
pub fn title_text() -> (t: TextSpec)
    ensures
        t.text@ == "Quicksilver Roguelike"@,
        t.font@ == "mononoki-Regular.ttf"@,
        t.size == 72,
{
    TextSpec { text: "Quicksilver Roguelike", font: "mononoki-Regular.ttf", size: 72 }
}

/// What the host renders for the first attribution caption.
pub fn mononoki_info_text() -> (t: TextSpec)
    ensures
        t.text@ == "Mononoki font by Matthias Tellen, terms: SIL Open Font License 1.1"@,
        t.font@ == "mononoki-Regular.ttf"@,
        t.size == 20,
{
    TextSpec {
        text: "Mononoki font by Matthias Tellen, terms: SIL Open Font License 1.1",
        font: "mononoki-Regular.ttf",
        size: 20,
    }
}

/// What the host renders for the second attribution caption.
pub fn square_info_text() -> (t: TextSpec)
    ensures
        t.text@ == "Square font by Wouter Van Oortmerssen, terms: CC BY 3.0"@,
        t.font@ == "mononoki-Regular.ttf"@,
        t.size == 20,
{
    TextSpec {
        text: "Square font by Wouter Van Oortmerssen, terms: CC BY 3.0",
        font: "mononoki-Regular.ttf",
        size: 20,
    }
}

/// The font the glyph strip is rendered with, at the tile size.
pub fn tileset_font() -> (f: &'static str)
    ensures
        f@ == "square.ttf"@,
{
    "square.ttf"
}

/// The ordered glyph set of the game, matching strip order.
pub open spec fn glyph_list() -> Seq<char> {
    seq!['#', '@', 'g', '.', '%']
}

/// The ordered glyph list rendered into the strip.
pub fn game_glyphs() -> (g: Vec<char>)
    ensures
        g@ == glyph_list(),
{
    let mut g: Vec<char> = Vec::new();
    g.push('#');
    g.push('@');
    g.push('g');
    g.push('.');
    g.push('%');
    proof {
        assert(g@ =~= glyph_list());
    }
    g
}

/// The default scene's entities: the decorations, then the player appended
/// last.
pub open spec fn default_entities() -> Seq<Entity> {
    decoration_entities().push(player_entity())
}

/// The whole game state: the passive scene model and the four deferred
/// assets, all process-lifetime singletons created once at bootstrap.
pub struct Game {
    pub scene: SceneModel,
    pub title: DeferredAsset<ImageDims>,
    pub mononoki_font_info: DeferredAsset<ImageDims>,
    pub square_font_info: DeferredAsset<ImageDims>,
    pub tileset: DeferredAsset<Tileset>,
    pub tile_w: u16,
    pub tile_h: u16,
}

/// The outside outcomes one frame hands the library: for each asset still
/// pending, this frame's production attempt, and the screen size.
pub struct FrameInputs {
    pub title: Option<Result<ImageDims, GameError>>,
    pub mononoki_font_info: Option<Result<ImageDims, GameError>>,
    pub square_font_info: Option<Result<ImageDims, GameError>>,
    pub tileset: Option<Result<Tileset, GameError>>,
    pub screen_w: u32,
    pub screen_h: u32,
}

/// The atlas a possibly-resolved tileset asset offers the compositor.
pub open spec fn atlas_observed(s: AssetState<Tileset>) -> Option<Map<char, Rect>> {
    match s {
        AssetState::Ready(ts) => Some(ts@),
        _ => None,
    }
}

impl Game {
    /// The scene invariants, established at bootstrap, hold for the whole
    /// run: nothing in scope ever mutates the scene.
    pub open spec fn well_formed(&self) -> bool {
        self.scene.well_formed()
    }

    /// Bootstrap: the default 15 by 15 bordered map, the four decoration
    /// entities with the player appended, and all four assets pending.
    pub fn new() -> (g: Game)
        ensures
            g.well_formed(),
            g.scene.tiles@.len() == MAP_WIDTH * MAP_HEIGHT,
            forall|i: int|
                0 <= i < g.scene.tiles@.len() ==> #[trigger] g.scene.tiles@[i]
                    == crate::scene::map_tile_at(
                    i / (MAP_HEIGHT as int),
                    i % (MAP_HEIGHT as int),
                    MAP_WIDTH as int,
                    MAP_HEIGHT as int,
                ),
            crate::scene::wall_count(g.scene.tiles@) == 2 * MAP_WIDTH + 2 * MAP_HEIGHT - 4,
            g.scene.entities@ == default_entities(),
            g.scene.player_idx == decoration_entities().len(),
            g.scene.width == MAP_WIDTH,
            g.scene.height == MAP_HEIGHT,
            g.title@ is Pending,
            g.mononoki_font_info@ is Pending,
            g.square_font_info@ is Pending,
            g.tileset@ is Pending,
            g.tile_w == TILE_SIZE_PX,
            g.tile_h == TILE_SIZE_PX,
    {
        let tiles = generate_map(MAP_WIDTH, MAP_HEIGHT);
        let mut entities = generate_entities();
        let player_idx = entities.len();
        entities.push(
            Entity {
                pos: GridPos { x: 5, y: 3 },
                glyph: '@',
                tint: Color { r: 0, g: 0, b: 255, a: 255 },
                hp: 3,
                max_hp: 5,
            },
        );
        proof {
            assert(entities@ =~= default_entities());
            assert(crate::scene::valid_scene(entities@, player_idx as int));
        }
        let scene = match SceneModel::new(tiles, entities, player_idx, MAP_WIDTH, MAP_HEIGHT) {
            Ok(s) => s,
            Err(_) => vstd::pervasive::unreached(),
        };
        Game {
            scene,
            title: DeferredAsset::new(),
            mononoki_font_info: DeferredAsset::new(),
            square_font_info: DeferredAsset::new(),
            tileset: DeferredAsset::new(),
            tile_w: TILE_SIZE_PX,
            tile_h: TILE_SIZE_PX,
        }
    }

    /// Process input and update the game state: nothing is in scope, so the
    /// game is left exactly as it was.
    pub fn update(&mut self)
        ensures
            *final(self) == *old(self),
    {
    }

    /// One frame: record this frame's production outcomes for the assets
    /// that were still pending, then compose the frame's ordered draw
    /// operations from the scene and whatever is now ready. A layer whose
    /// asset is not ready is skipped, never an error: no draw-phase outcome
    /// aborts the frame.
    pub fn draw_frame(&mut self, inputs: FrameInputs) -> (ops: Vec<DrawOp>)
        requires
            old(self).well_formed(),
            inputs.title is Some ==> old(self).title@ is Pending,
            inputs.mononoki_font_info is Some ==> old(self).mononoki_font_info@ is Pending,
            inputs.square_font_info is Some ==> old(self).square_font_info@ is Pending,
            inputs.tileset is Some ==> old(self).tileset@ is Pending,
        ensures
            final(self).scene == old(self).scene,
            final(self).tile_w == old(self).tile_w,
            final(self).tile_h == old(self).tile_h,
            final(self).title@ == step_asset(old(self).title@, inputs.title),
            final(self).mononoki_font_info@ == step_asset(
                old(self).mononoki_font_info@,
                inputs.mononoki_font_info,
            ),
            final(self).square_font_info@ == step_asset(
                old(self).square_font_info@,
                inputs.square_font_info,
            ),
            final(self).tileset@ == step_asset(old(self).tileset@, inputs.tileset),
            ops@ == frame_ops(
                old(self).scene,
                observed(step_asset(old(self).title@, inputs.title)),
                observed(step_asset(old(self).mononoki_font_info@, inputs.mononoki_font_info)),
                observed(step_asset(old(self).square_font_info@, inputs.square_font_info)),
                atlas_observed(step_asset(old(self).tileset@, inputs.tileset)),
                MAP_OFFSET_X as int,
                MAP_OFFSET_Y as int,
                old(self).tile_w as int,
                old(self).tile_h as int,
                inputs.screen_w as int,
                inputs.screen_h as int,
            ),
    {
        self.title.poll(inputs.title);
        self.mononoki_font_info.poll(inputs.mononoki_font_info);
        self.square_font_info.poll(inputs.square_font_info);
        self.tileset.poll(inputs.tileset);
        let title_img: Option<ImageDims> = if self.title.is_ready() {
            Some(*self.title.value())
        } else {
            None
        };
        let mononoki_img: Option<ImageDims> = if self.mononoki_font_info.is_ready() {
            Some(*self.mononoki_font_info.value())
        } else {
            None
        };
        let square_img: Option<ImageDims> = if self.square_font_info.is_ready() {
            Some(*self.square_font_info.value())
        } else {
            None
        };
        let tileset_ref: Option<&Tileset> = if self.tileset.is_ready() {
            Some(self.tileset.value())
        } else {
            None
        };
        compose_frame(
            &self.scene,
            title_img,
            mononoki_img,
            square_img,
            tileset_ref,
            MAP_OFFSET_X,
            MAP_OFFSET_Y,
            self.tile_w,
            self.tile_h,
            inputs.screen_w,
            inputs.screen_h,
        )
    }

    /// The first failed asset's error, in asset order: the layer it backed
    /// will never appear, and the host's policy decides whether that is
    /// fatal. `None` while nothing has failed.
    pub fn first_asset_error(&self) -> (r: Option<GameError>)
        ensures
            r == (if self.title@ is Failed {
                Some(self.title@->Failed_0)
            } else if self.mononoki_font_info@ is Failed {
                Some(self.mononoki_font_info@->Failed_0)
            } else if self.square_font_info@ is Failed {
                Some(self.square_font_info@->Failed_0)
            } else if self.tileset@ is Failed {
                Some(self.tileset@->Failed_0)
            } else {
                None::<GameError>
            }),
    {
        if let Some(e) = self.title.error() {
            return Some(e);
        }
        if let Some(e) = self.mononoki_font_info.error() {
            return Some(e);
        }
        if let Some(e) = self.square_font_info.error() {
            return Some(e);
        }
        if let Some(e) = self.tileset.error() {
            return Some(e);
        }
        None
    }
}

} // verus!
