//! The error taxonomy of the setup and asset pipeline.

use vstd::prelude::*;

verus! {

/// Why a setup step or an asset failed.
#[derive(Clone, Copy, PartialEq, Eq, Structural, Debug)]
pub enum GameError {
    /// A font file was missing or unreadable.
    AssetLoad,
    /// The font was present but rendering text with it failed.
    AssetRender,
    /// The rendered glyph strip is narrower than the glyph count times the
    /// cell width, so cells would alias or run off the edge.
    TilesetGeometry,
    /// A scene invariant does not hold: the player index is out of range,
    /// or the designated player has no hit points to show.
    InvariantViolation,
}

} // verus!
