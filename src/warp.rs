use vstd::prelude::*;
use crate::sprite::SpriteId;

verus! {

/// The color of a warp, which names the respawn point it leads to.
#[derive(Clone, Copy, Debug, PartialEq, Eq, Structural, Hash)]
pub enum WarpColor {
    Green,
    Blue,
    Pink,
}

impl WarpColor {
    pub open spec fn spec_tex(self) -> SpriteId {
        match self {
            WarpColor::Green => SpriteId::GreenWarp,
            WarpColor::Blue => SpriteId::BlueWarp,
            WarpColor::Pink => SpriteId::PinkWarp,
        }
    }

    /// The sprite of a warp of this color.
    pub fn tex(self) -> (r: SpriteId)
        ensures
            r == self.spec_tex(),
    {
        match self {
            WarpColor::Green => SpriteId::GreenWarp,
            WarpColor::Blue => SpriteId::BlueWarp,
            WarpColor::Pink => SpriteId::PinkWarp,
        }
    }
}

/// A lasor either always fires straight out of its wall, or aims at the
/// player within a cone.
#[derive(Clone, Copy, Debug, PartialEq, Eq, Structural, Hash)]
pub enum LasorKind {
    Still,
    Aiming,
}

impl LasorKind {
    pub open spec fn spec_max_angle_degrees(self) -> u32 {
        match self {
            LasorKind::Still => 0,
            LasorKind::Aiming => 30,
        }
    }

    /// Half-width of the aim cone, in degrees, around the wall's normal.
    pub fn max_angle_degrees(self) -> (r: u32)
        ensures
            r == self.spec_max_angle_degrees(),
    {
        match self {
            LasorKind::Still => 0,
            LasorKind::Aiming => 30,
        }
    }
}

} // verus!
