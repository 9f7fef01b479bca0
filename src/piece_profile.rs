use vstd::prelude::*;
use crate::util::Idx2;
use crate::cell::CellKind;

verus! {

/// What kind of piece a hitbox belongs to.
#[derive(Clone, Copy, Debug, PartialEq, Eq, Structural, Hash)]
pub enum PieceKind {
    Wall,
    Floor,
    Player,
    Platform,
    Star,
    Button,
    Warp,
}

impl PieceKind {
    pub open spec fn spec_from_cell(kind: CellKind) -> PieceKind {
        match kind {
            CellKind::Wall => PieceKind::Wall,
            CellKind::Floor => PieceKind::Floor,
        }
    }
}

impl From<CellKind> for PieceKind {
    fn from(kind: CellKind) -> (r: PieceKind) {
        match kind {
            CellKind::Wall => PieceKind::Wall,
            CellKind::Floor => PieceKind::Floor,
        }
    }
}

impl vstd::std_specs::convert::FromSpecImpl<CellKind> for PieceKind {
    open spec fn obeys_from_spec() -> bool {
        true
    }

    open spec fn from_spec(kind: CellKind) -> PieceKind {
        PieceKind::spec_from_cell(kind)
    }
}

/// The label of a hitbox: its id, its kind, and, for a grid cell, its grid
/// position (level-boundary walls have none).
#[derive(Clone, Copy, Debug)]
pub struct PieceProfile {
    pub id: u64,
    pub index: Option<Idx2>,
    pub kind: PieceKind,
}

/// Whether `a` reacts to `b`: the player to walls, floors, platforms,
/// buttons, warps and the star; a warp to floors, platforms and grid walls.
pub open spec fn interacts_asym(a: PieceProfile, b: PieceProfile) -> bool {
    match a.kind {
        PieceKind::Player => b.kind != PieceKind::Player,
        PieceKind::Warp => match b.kind {
            PieceKind::Floor | PieceKind::Platform => true,
            PieceKind::Wall => b.index is Some,
            _ => false,
        },
        _ => false,
    }
}

impl PieceProfile {
    pub fn new(id: u64, kind: PieceKind) -> (r: PieceProfile)
        ensures
            r == (PieceProfile { id, index: None, kind }),
    {
        PieceProfile { id, kind, index: None }
    }

    /// The profile of the grid cell at `index`.
    pub fn cell(id: u64, index: Idx2, kind: CellKind) -> (r: PieceProfile)
        ensures
            r == (PieceProfile { id, index: Some(index), kind: PieceKind::spec_from_cell(kind) }),
    {
        PieceProfile { id, index: Some(index), kind: PieceKind::from(kind) }
    }

    pub fn id(&self) -> (r: u64)
        ensures
            r == self.id,
    {
        self.id
    }

    pub fn can_interact_asym(&self, other: &PieceProfile) -> (r: bool)
        ensures
            r == interacts_asym(*self, *other),
    {
        match self.kind {
            PieceKind::Player => match other.kind {
                PieceKind::Wall | PieceKind::Floor | PieceKind::Platform | PieceKind::Button
                | PieceKind::Warp | PieceKind::Star => true,
                _ => false,
            },
            PieceKind::Warp => match other.kind {
                PieceKind::Floor | PieceKind::Platform => true,
                PieceKind::Wall => other.index.is_some(),
                _ => false,
            },
            _ => false,
        }
    }

    /// Two hitboxes interact when either of them reacts to the other.
    pub fn can_interact(&self, other: &PieceProfile) -> (r: bool)
        ensures
            r == (interacts_asym(*self, *other) || interacts_asym(*other, *self)),
    {
        self.can_interact_asym(other) || other.can_interact_asym(self)
    }
}

} // verus!
