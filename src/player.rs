use vstd::prelude::*;

verus! {

/// How the player's contact with the ground changed on an update.
#[derive(Clone, Copy, Debug, PartialEq, Eq, Structural, Hash)]
pub enum GroundChange {
    /// The player touched down.
    Landed,
    /// The player lost the ground and the probe below found none either.
    Left,
    /// The player lost contact but the ground is just below: it is pulled
    /// down at full fall speed instead of floating.
    Snapped,
    Unchanged,
}

/// The discrete part of a running player's body: whether it stands on the
/// ground, holds the jump key, or has a jump queued for the next step.
#[derive(Clone, Copy, Debug, PartialEq, Eq, Structural, Hash)]
pub struct JumpState {
    pub on_ground: bool,
    pub jump_held: bool,
    pub queued_jump: bool,
}

pub open spec fn spec_ground_change(was_on_ground: bool, on_ground: bool, near_ground: bool) -> GroundChange {
    if !was_on_ground && on_ground {
        GroundChange::Landed
    } else if was_on_ground && !on_ground && !near_ground {
        GroundChange::Left
    } else if was_on_ground && !on_ground && near_ground {
        GroundChange::Snapped
    } else {
        GroundChange::Unchanged
    }
}

impl JumpState {
    /// A fresh body is airborne with no jump pending.
    pub fn new() -> (r: JumpState)
        ensures
            r == (JumpState { on_ground: false, jump_held: false, queued_jump: false }),
    {
        JumpState { on_ground: false, jump_held: false, queued_jump: false }
    }

    /// Queues a jump, only while on the ground and with none queued yet.
    pub fn press_jump(&mut self)
        ensures
            *final(self) == if old(self).on_ground && !old(self).queued_jump {
                JumpState { queued_jump: true, jump_held: true, ..*old(self) }
            } else {
                *old(self)
            },
    {
        if self.on_ground && !self.queued_jump {
            self.queued_jump = true;
            self.jump_held = true;
        }
    }

    /// Releasing the key ends the jump's sustain window.
    pub fn release_jump(&mut self)
        ensures
            *final(self) == (JumpState { jump_held: false, ..*old(self) }),
    {
        self.jump_held = false;
    }

    /// The queued jump takes off.
    pub fn launch(&mut self)
        ensures
            *final(self) == (JumpState { on_ground: false, queued_jump: false, ..*old(self) }),
    {
        self.on_ground = false;
        self.queued_jump = false;
    }

    /// Takes the latest ground contact: `on_ground` whether a downward
    /// barrier holds the player at the floor's speed, `near_ground` whether
    /// the short probe below finds ground. Landing or leaving the ground
    /// drops any queued or held jump; a lost contact with ground just below
    /// keeps the player counted as grounded.
    pub fn update_ground(&mut self, on_ground: bool, near_ground: bool) -> (r: GroundChange)
        ensures
            r == spec_ground_change(old(self).on_ground, on_ground, near_ground),
            *final(self) == match r {
                GroundChange::Landed => JumpState { on_ground: true, jump_held: false, queued_jump: false },
                GroundChange::Left => JumpState { on_ground: false, jump_held: false, queued_jump: false },
                _ => *old(self),
            },
    {
        if !self.on_ground && on_ground {
            self.queued_jump = false;
            self.jump_held = false;
            self.on_ground = true;
            GroundChange::Landed
        } else if self.on_ground && !on_ground && !near_ground {
            self.queued_jump = false;
            self.jump_held = false;
            self.on_ground = false;
            GroundChange::Left
        } else if self.on_ground && !on_ground && near_ground {
            GroundChange::Snapped
        } else {
            GroundChange::Unchanged
        }
    }
}

} // verus!
