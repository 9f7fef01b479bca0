use vstd::prelude::*;

verus! {

/// The sprites that the game rules choose between. Tiles are named by their
/// row and column in the tile sheet.
#[derive(Clone, Copy, Debug, PartialEq, Eq, Structural, Hash)]
pub enum SpriteId {
    TileR0C0,
    TileR0C1,
    TileR0C2,
    TileR0C3,
    TileR1C0,
    TileR1C1,
    TileR1C3,
    TileR2C0,
    TileR2C1,
    TileR2C2,
    GreenWarp,
    BlueWarp,
    PinkWarp,
}

} // verus!
