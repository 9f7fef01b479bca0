use vstd::prelude::*;
use crate::sprite::SpriteId;
use crate::warp::WarpColor;

verus! {

/// How a tile sprite is turned or mirrored when drawn.
#[derive(Clone, Copy, Debug, PartialEq, Eq, Structural, Hash)]
pub enum CellTransform {
    Id,
    Turn90,
    Turn180,
    Turn270,
    Mirror,
}

/// Whether a grid cell acts as a wall (blocks from every side) or as a floor
/// (blocks from above only).
#[derive(Clone, Copy, Debug, PartialEq, Eq, Structural, Hash)]
pub enum CellKind {
    Wall,
    Floor,
}

/// A grid cell: its hitbox id, kind, and the tile that shows it.
#[derive(Clone, Copy, Debug, PartialEq, Eq, Structural, Hash)]
pub struct Cell {
    pub id: u64,
    pub kind: CellKind,
    pub tile: SpriteId,
    pub transform: CellTransform,
}

/// Neighbor flag `i` of a wall, read after `shift` eighth-turns.
pub open spec fn turned(n: Seq<bool>, i: int, shift: int) -> bool {
    n[(i + shift) % 8]
}

/// The tile that fits a wall whose neighbor flags, read from the top-left
/// neighbor clockwise and turned by `shift`, match one of the four shapes.
pub open spec fn spec_wall_tile(n: Seq<bool>, shift: int) -> Option<SpriteId> {
    let f = |i: int| turned(n, i, shift);
    if !f(1) && f(3) && f(4) && f(5) && !f(7) {
        Some(SpriteId::TileR0C2)
    } else if f(0) && f(1) && f(2) && f(3) && !f(4) && f(5) && f(6) && f(7) {
        Some(SpriteId::TileR0C3)
    } else if !f(1) && f(3) && f(4) && f(5) && f(6) && f(7) {
        Some(SpriteId::TileR1C0)
    } else if f(0) && f(1) && f(2) && f(3) && f(4) && f(5) && f(6) && f(7) {
        Some(SpriteId::TileR1C1)
    } else {
        None
    }
}

/// The tile shown for a wall whose surroundings match none of the shapes
/// under any turn, such as a wall with no wall around it.
pub open spec fn wall_fallback() -> (SpriteId, CellTransform) {
    (SpriteId::TileR1C1, CellTransform::Id)
}

/// The first quarter turn under which a shape matches, with the matching tile.
pub open spec fn spec_wall_tile_and_transform(n: Seq<bool>) -> (SpriteId, CellTransform) {
    if spec_wall_tile(n, 0) is Some {
        (spec_wall_tile(n, 0)->0, CellTransform::Id)
    } else if spec_wall_tile(n, 2) is Some {
        (spec_wall_tile(n, 2)->0, CellTransform::Turn90)
    } else if spec_wall_tile(n, 4) is Some {
        (spec_wall_tile(n, 4)->0, CellTransform::Turn180)
    } else if spec_wall_tile(n, 6) is Some {
        (spec_wall_tile(n, 6)->0, CellTransform::Turn270)
    } else {
        wall_fallback()
    }
}

/// The tile of a floor from whether it has a left and a right neighbor: an
/// end piece, mirrored at the right end, or a middle piece.
pub open spec fn spec_floor_tile(left: bool, right: bool) -> (SpriteId, CellTransform) {
    if !left && right {
        (SpriteId::TileR0C0, CellTransform::Id)
    } else if left && !right {
        (SpriteId::TileR0C0, CellTransform::Mirror)
    } else {
        (SpriteId::TileR0C1, CellTransform::Id)
    }
}

pub open spec fn spec_spawn_tile(color: WarpColor) -> SpriteId {
    match color {
        WarpColor::Green => SpriteId::TileR2C0,
        WarpColor::Blue => SpriteId::TileR2C1,
        WarpColor::Pink => SpriteId::TileR2C2,
    }
}

/// Matches the wall shapes against the neighbor flags turned by
/// `neighbors_shift` eighth-turns.
pub fn wall_tile(neighbors: [bool; 8], neighbors_shift: usize) -> (r: Option<SpriteId>)
    requires
        neighbors_shift < 8,
    ensures
        r == spec_wall_tile(neighbors@, neighbors_shift as int),
{
    let n0 = neighbors[neighbors_shift % 8];
    let n1 = neighbors[(1 + neighbors_shift) % 8];
    let n2 = neighbors[(2 + neighbors_shift) % 8];
    let n3 = neighbors[(3 + neighbors_shift) % 8];
    let n4 = neighbors[(4 + neighbors_shift) % 8];
    let n5 = neighbors[(5 + neighbors_shift) % 8];
    let n6 = neighbors[(6 + neighbors_shift) % 8];
    let n7 = neighbors[(7 + neighbors_shift) % 8];
    if !n1 && n3 && n4 && n5 && !n7 {
        Some(SpriteId::TileR0C2)
    } else if n0 && n1 && n2 && n3 && !n4 && n5 && n6 && n7 {
        Some(SpriteId::TileR0C3)
    } else if !n1 && n3 && n4 && n5 && n6 && n7 {
        Some(SpriteId::TileR1C0)
    } else if n0 && n1 && n2 && n3 && n4 && n5 && n6 && n7 {
        Some(SpriteId::TileR1C1)
    } else {
        None
    }
}

/// Picks a wall's tile and turn from its eight neighbor flags, trying each
/// quarter turn in order; a wall that no shape fits gets the fallback tile.
pub fn wall_tile_and_transform(neighbors: [bool; 8]) -> (r: (SpriteId, CellTransform))
    ensures
        r == spec_wall_tile_and_transform(neighbors@),
        (forall|i: int| 0 <= i < 8 ==> !#[trigger] neighbors@[i]) ==> r == wall_fallback(),
{
    if let Some(tile) = wall_tile(neighbors, 0) {
        (tile, CellTransform::Id)
    } else if let Some(tile) = wall_tile(neighbors, 2) {
        (tile, CellTransform::Turn90)
    } else if let Some(tile) = wall_tile(neighbors, 4) {
        (tile, CellTransform::Turn180)
    } else if let Some(tile) = wall_tile(neighbors, 6) {
        (tile, CellTransform::Turn270)
    } else {
        (SpriteId::TileR1C1, CellTransform::Id)
    }
}

impl Cell {
    /// A wall cell; `neighbors` flags start at the top-left neighbor and go
    /// clockwise.
    pub fn wall(id: u64, neighbors: [bool; 8]) -> (r: Cell)
        ensures
            r.id == id,
            r.kind == CellKind::Wall,
            (r.tile, r.transform) == spec_wall_tile_and_transform(neighbors@),
    {
        let (tile, transform) = wall_tile_and_transform(neighbors);
        Cell { id, kind: CellKind::Wall, tile, transform }
    }

    /// A floor cell; `neighbors` flags are for the left and right neighbors.
    pub fn floor(id: u64, neighbors: [bool; 2]) -> (r: Cell)
        ensures
            r.id == id,
            r.kind == CellKind::Floor,
            (r.tile, r.transform) == spec_floor_tile(neighbors@[0], neighbors@[1]),
    {
        let left = neighbors[0];
        let right = neighbors[1];
        let (tile, transform) = if !left && right {
            (SpriteId::TileR0C0, CellTransform::Id)
        } else if left && !right {
            (SpriteId::TileR0C0, CellTransform::Mirror)
        } else {
            (SpriteId::TileR0C1, CellTransform::Id)
        };
        Cell { id, kind: CellKind::Floor, tile, transform }
    }

    /// A gate: a wall that a button press removes.
    pub fn gate(id: u64) -> (r: Cell)
        ensures
            r == (Cell { id, kind: CellKind::Wall, tile: SpriteId::TileR1C3, transform: CellTransform::Id }),
    {
        Cell { id, kind: CellKind::Wall, tile: SpriteId::TileR1C3, transform: CellTransform::Id }
    }

    /// One half of a respawn pad; the right half is mirrored.
    pub fn spawn(id: u64, color: WarpColor, mirrored: bool) -> (r: Cell)
        ensures
            r.id == id,
            r.kind == CellKind::Wall,
            r.tile == spec_spawn_tile(color),
            r.transform == (if mirrored {
                CellTransform::Mirror
            } else {
                CellTransform::Id
            }),
    {
        let tile = match color {
            WarpColor::Green => SpriteId::TileR2C0,
            WarpColor::Blue => SpriteId::TileR2C1,
            WarpColor::Pink => SpriteId::TileR2C2,
        };
        let transform = if mirrored {
            CellTransform::Mirror
        } else {
            CellTransform::Id
        };
        Cell { id, kind: CellKind::Wall, tile, transform }
    }

    pub fn id(&self) -> (r: u64)
        ensures
            r == self.id,
    {
        self.id
    }

    pub fn kind(&self) -> (r: CellKind)
        ensures
            r == self.kind,
    {
        self.kind
    }
}

} // verus!
