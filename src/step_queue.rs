use vstd::prelude::*;

verus! {

/// Simulated time is counted in ticks of 1/300 s: every step period below is
/// a whole number of ticks, so rescheduling never drifts.
pub const TICKS_PER_SECOND: u64 = 300;

/// The periodic step kinds.
#[derive(Clone, Copy, Debug, PartialEq, Eq, Structural, Hash)]
pub enum Step {
    Player,
    Platform,
    WarpEffectSpawn,
    LasorFire,
}

/// The longest period of any step kind, in ticks.
pub const MAX_PERIOD: u64 = 300;

impl Step {
    /// The period in ticks: 1/60 s, 0.18 s, 1/30 s and 1 s.
    pub open spec fn spec_period(self) -> u64 {
        match self {
            Step::Player => 5,
            Step::Platform => 54,
            Step::WarpEffectSpawn => 10,
            Step::LasorFire => 300,
        }
    }

    pub fn period(self) -> (r: u64)
        ensures
            r == self.spec_period(),
            0 < r <= MAX_PERIOD,
    {
        match self {
            Step::Player => 5,
            Step::Platform => 54,
            Step::WarpEffectSpawn => 10,
            Step::LasorFire => 300,
        }
    }

}

/// The next due time of each periodic step kind.
pub struct StepQueue {
    player: u64,
    platform: u64,
    warp_effect_spawn: u64,
    lasor_fire: u64,
}

impl StepQueue {
    /// The tick at which `step` is due next.
    pub closed spec fn due(&self, step: Step) -> u64 {
        match step {
            Step::Player => self.player,
            Step::Platform => self.platform,
            Step::WarpEffectSpawn => self.warp_effect_spawn,
            Step::LasorFire => self.lasor_fire,
        }
    }

    /// The earliest due time over all kinds.
    pub open spec fn earliest(&self) -> u64 {
        let a = if self.due(Step::Player) <= self.due(Step::Platform) {
            self.due(Step::Player)
        } else {
            self.due(Step::Platform)
        };
        let b = if self.due(Step::WarpEffectSpawn) <= self.due(Step::LasorFire) {
            self.due(Step::WarpEffectSpawn)
        } else {
            self.due(Step::LasorFire)
        };
        if a <= b {
            a
        } else {
            b
        }
    }

    /// The kind popped next: the first, in enumeration order, of those due
    /// at the earliest time.
    pub open spec fn first_due(&self) -> Step {
        if self.due(Step::Player) == self.earliest() {
            Step::Player
        } else if self.due(Step::Platform) == self.earliest() {
            Step::Platform
        } else if self.due(Step::WarpEffectSpawn) == self.earliest() {
            Step::WarpEffectSpawn
        } else {
            Step::LasorFire
        }
    }

    /// Each kind is first due one period after time 0.
    pub fn new() -> (r: StepQueue)
        ensures
            forall|s: Step| #[trigger] r.due(s) == s.spec_period(),
    {
        StepQueue {
            player: Step::Player.period(),
            platform: Step::Platform.period(),
            warp_effect_spawn: Step::WarpEffectSpawn.period(),
            lasor_fire: Step::LasorFire.period(),
        }
    }

    /// The time of the next step of any kind.
    pub fn peek(&self) -> (r: u64)
        ensures
            r == self.earliest(),
            forall|s: Step| r <= #[trigger] self.due(s),
            exists|s: Step| r == #[trigger] self.due(s),
    {
        let a = if self.player <= self.platform {
            self.player
        } else {
            self.platform
        };
        let b = if self.warp_effect_spawn <= self.lasor_fire {
            self.warp_effect_spawn
        } else {
            self.lasor_fire
        };
        let r = if a <= b {
            a
        } else {
            b
        };
        assert(r == self.due(Step::Player) || r == self.due(Step::Platform) || r == self.due(
            Step::WarpEffectSpawn,
        ) || r == self.due(Step::LasorFire));
        r
    }

    /// The time at which the next step of kind `step` will be popped.
    pub fn peek_specific(&self, step: Step) -> (r: u64)
        ensures
            r == self.due(step),
    {
        match step {
            Step::Player => self.player,
            Step::Platform => self.platform,
            Step::WarpEffectSpawn => self.warp_effect_spawn,
            Step::LasorFire => self.lasor_fire,
        }
    }

    /// Pops the step due at `self.peek()`; among kinds due at the same time,
    /// the first in enumeration order. That kind is rescheduled one period
    /// after its previous due time.
    pub fn pop(&mut self) -> (step: Step)
        requires
            old(self).earliest() <= u64::MAX - MAX_PERIOD,
        ensures
            old(self).due(step) == old(self).earliest(),
            step == old(self).first_due(),
            final(self).due(step) == old(self).due(step) + step.spec_period(),
            forall|s: Step| s != step ==> #[trigger] final(self).due(s) == old(self).due(s),
            final(self).earliest() >= old(self).earliest(),
    {
        let min = self.peek();
        let step = if self.player == min {
            Step::Player
        } else if self.platform == min {
            Step::Platform
        } else if self.warp_effect_spawn == min {
            Step::WarpEffectSpawn
        } else {
            Step::LasorFire
        };
        let period = step.period();
        match step {
            Step::Player => self.player = self.player + period,
            Step::Platform => self.platform = self.platform + period,
            Step::WarpEffectSpawn => self.warp_effect_spawn = self.warp_effect_spawn + period,
            Step::LasorFire => self.lasor_fire = self.lasor_fire + period,
        }
        step
    }
}

} // verus!
