use vstd::prelude::*;
use crate::util::{Card, CardMask};
use crate::piece_profile::{PieceKind, PieceProfile};

verus! {

/// A pairwise contact event predicted by the collision engine.
#[derive(Clone, Copy, Debug, PartialEq, Eq, Structural, Hash)]
pub enum HbEvent {
    /// The two hitboxes start to touch.
    Collide,
    /// The two hitboxes stop touching.
    Separate,
}

/// What the board does in answer to one side of a contact event.
#[derive(Clone, Copy, Debug, PartialEq, Eq, Structural, Hash)]
pub enum Response {
    Nothing,
    /// Recompute the player's barrier contacts.
    UpdatePlayerBarriers,
    /// The player pressed the button with this id.
    PressButton(u64),
    /// The player touched the warp with this id.
    Warp(u64),
    /// The player reached the star.
    ObtainStar,
    /// A warp met a surface, which stops it where the normal from the
    /// surface points along a direction of `mask`.
    WarpHitsWall { warp: u64, wall: u64, mask: CardMask },
}

/// The response of `p_1` to an event with `p_2`.
pub open spec fn spec_response(event: HbEvent, p_1: PieceProfile, p_2: PieceProfile) -> Response {
    match p_1.kind {
        PieceKind::Player => match p_2.kind {
            PieceKind::Wall | PieceKind::Floor | PieceKind::Platform => Response::UpdatePlayerBarriers,
            PieceKind::Button => if event == HbEvent::Collide {
                Response::PressButton(p_2.id)
            } else {
                Response::Nothing
            },
            PieceKind::Warp => if event == HbEvent::Collide {
                Response::Warp(p_2.id)
            } else {
                Response::Nothing
            },
            PieceKind::Star => if event == HbEvent::Collide {
                Response::ObtainStar
            } else {
                Response::Nothing
            },
            _ => Response::Nothing,
        },
        PieceKind::Warp => if event == HbEvent::Collide {
            match p_2.kind {
                PieceKind::Wall => Response::WarpHitsWall {
                    warp: p_1.id,
                    wall: p_2.id,
                    mask: CardMask { minus_x: true, minus_y: true, plus_x: true, plus_y: true },
                },
                PieceKind::Floor | PieceKind::Platform => Response::WarpHitsWall {
                    warp: p_1.id,
                    wall: p_2.id,
                    mask: CardMask { minus_x: false, minus_y: false, plus_x: false, plus_y: true },
                },
                _ => Response::Nothing,
            }
        } else {
            Response::Nothing
        },
        _ => Response::Nothing,
    }
}

/// Classifies one ordering of a contact event. Barrier contacts of the
/// player are re-evaluated on every event; button presses, warps, the star
/// and warp impacts fire on first contact only. A warp stops on a wall from
/// any side, and on a floor or platform only from above.
pub fn handle_hb_event_asym(event: HbEvent, p_1: PieceProfile, p_2: PieceProfile) -> (r: Response)
    ensures
        r == spec_response(event, p_1, p_2),
{
    match p_1.kind {
        PieceKind::Player => match p_2.kind {
            PieceKind::Wall | PieceKind::Floor | PieceKind::Platform => Response::UpdatePlayerBarriers,
            PieceKind::Button if event == HbEvent::Collide => Response::PressButton(p_2.id),
            PieceKind::Warp if event == HbEvent::Collide => Response::Warp(p_2.id),
            PieceKind::Star if event == HbEvent::Collide => Response::ObtainStar,
            _ => Response::Nothing,
        },
        PieceKind::Warp if event == HbEvent::Collide => match p_2.kind {
            PieceKind::Wall => Response::WarpHitsWall {
                warp: p_1.id,
                wall: p_2.id,
                mask: CardMask::full(),
            },
            PieceKind::Floor | PieceKind::Platform => Response::WarpHitsWall {
                warp: p_1.id,
                wall: p_2.id,
                mask: CardMask::only(Card::PlusY),
            },
            _ => Response::Nothing,
        },
        _ => Response::Nothing,
    }
}

} // verus!
