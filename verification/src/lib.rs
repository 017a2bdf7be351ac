//! A verified core for a small tile-based scene renderer.
//!
//! The library models the asset-to-tileset pipeline and the layered scene
//! compositor of a glyph-based game: deferred loading of font-rendered
//! images, extraction of a character-indexed sprite atlas from a single
//! rendered glyph strip, and per-frame composition of ordered draw
//! operations with grid-space to screen-space coordinate transforms.
//! A thin unverified host owns the window and the font renderer; it hands
//! this library plain values (image dimensions, load outcomes) and performs
//! the draw operations the compositor returns.

pub mod asset;
pub mod compositor;
pub mod errors;
pub mod game;
pub mod geom;
pub mod scene;
pub mod tileset;
