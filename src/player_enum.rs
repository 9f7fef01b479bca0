use vstd::prelude::*;

verus! {

/// The four phases of the player's lifecycle. Only a `Normal` player has a
/// hitbox and a physics body.
#[derive(Clone, Copy, Debug, PartialEq, Eq, Structural, Hash)]
pub enum PlayerPhase {
    /// Waiting at the spawn point before the level begins.
    Start,
    /// Running and jumping.
    Normal,
    /// Flying to the respawn point of a warp's color.
    Warping,
    /// The star was reached; terminal.
    Complete,
}

/// What can move the player from one phase to the next.
#[derive(Clone, Copy, Debug, PartialEq, Eq, Structural, Hash)]
pub enum PlayerTrigger {
    /// The fixed start delay has elapsed.
    StartDelayElapsed,
    /// First contact with a warp.
    TouchWarp,
    /// The precomputed end of warp travel has come.
    WarpArrived,
    /// First contact with the star.
    TouchStar,
}

pub open spec fn spec_next_phase(phase: PlayerPhase, trigger: PlayerTrigger) -> Option<PlayerPhase> {
    match (phase, trigger) {
        (PlayerPhase::Start, PlayerTrigger::StartDelayElapsed) => Some(PlayerPhase::Normal),
        (PlayerPhase::Normal, PlayerTrigger::TouchWarp) => Some(PlayerPhase::Warping),
        (PlayerPhase::Warping, PlayerTrigger::WarpArrived) => Some(PlayerPhase::Normal),
        (PlayerPhase::Normal, PlayerTrigger::TouchStar) => Some(PlayerPhase::Complete),
        _ => None,
    }
}

/// The phase that `trigger` leads to from `phase`, or `None` where the
/// trigger does not apply in that phase.
pub fn next_phase(phase: PlayerPhase, trigger: PlayerTrigger) -> (r: Option<PlayerPhase>)
    ensures
        r == spec_next_phase(phase, trigger),
{
    match (phase, trigger) {
        (PlayerPhase::Start, PlayerTrigger::StartDelayElapsed) => Some(PlayerPhase::Normal),
        (PlayerPhase::Normal, PlayerTrigger::TouchWarp) => Some(PlayerPhase::Warping),
        (PlayerPhase::Warping, PlayerTrigger::WarpArrived) => Some(PlayerPhase::Normal),
        (PlayerPhase::Normal, PlayerTrigger::TouchStar) => Some(PlayerPhase::Complete),
        _ => None,
    }
}

/// Whether the player has a hitbox in `phase`.
pub fn has_hitbox(phase: PlayerPhase) -> (r: bool)
    ensures
        r == (phase == PlayerPhase::Normal),
{
    phase == PlayerPhase::Normal
}

/// The phases visited when the triggers `ts` are applied in order from
/// `Start`, or `None` if one of them does not apply.
pub open spec fn phase_history(ts: Seq<PlayerTrigger>) -> Option<Seq<PlayerPhase>>
    decreases ts.len(),
{
    if ts.len() == 0 {
        Some(seq![PlayerPhase::Start])
    } else {
        match phase_history(ts.drop_last()) {
            Some(h) => match spec_next_phase(h.last(), ts.last()) {
                Some(p) => Some(h.push(p)),
                None => None,
            },
            None => None,
        }
    }
}

/// One step of the lifecycle Start -> Normal -> (Warping -> Normal)* -> Complete.
pub open spec fn lifecycle_step(a: PlayerPhase, b: PlayerPhase) -> bool {
    ||| a == PlayerPhase::Start && b == PlayerPhase::Normal
    ||| a == PlayerPhase::Normal && b == PlayerPhase::Warping
    ||| a == PlayerPhase::Warping && b == PlayerPhase::Normal
    ||| a == PlayerPhase::Normal && b == PlayerPhase::Complete
}

/// Whether `h` follows the lifecycle: it starts at `Start`, and each phase
/// is followed by one that the lifecycle allows (none after `Complete`).
pub open spec fn is_lifecycle(h: Seq<PlayerPhase>) -> bool {
    &&& h.len() >= 1
    &&& h[0] == PlayerPhase::Start
    &&& forall|i: int| 0 < i < h.len() ==> lifecycle_step(h[i - 1], #[trigger] h[i])
}

/// Whatever triggers arrive, the player is in one phase at a time and moves
/// only along the lifecycle Start -> Normal -> (Warping -> Normal)* ->
/// Complete: every applicable sequence of triggers visits phases in that
/// order, one phase per trigger, and `Complete` is entered only from
/// `Normal` and never left.
pub proof fn lemma_phases_follow_lifecycle(ts: Seq<PlayerTrigger>)
    ensures
        phase_history(ts) is Some ==> {
            let h = phase_history(ts)->0;
            &&& is_lifecycle(h)
            &&& h.len() == ts.len() + 1
        },
    decreases ts.len(),
{
    if ts.len() > 0 {
        lemma_phases_follow_lifecycle(ts.drop_last());
        if phase_history(ts) is Some {
            let h0 = phase_history(ts.drop_last())->0;
            let h = phase_history(ts)->0;
            assert forall|i: int| 0 < i < h.len() implies lifecycle_step(h[i - 1], #[trigger] h[i]) by {
                if i < h0.len() {
                    assert(h[i - 1] == h0[i - 1] && h[i] == h0[i]);
                }
            }
        }
    }
}

} // verus!
