use vstd::prelude::*;

verus! {

/// The six motion shapes of a moving platform: two circles and four
/// back-and-forth lines.
#[derive(Clone, Copy, Debug, PartialEq, Eq, Structural, Hash)]
pub enum PlatformKind {
    Circle,
    ReverseCircle,
    UpDown,
    DownUp,
    RightLeft,
    LeftRight,
}

impl PlatformKind {
    pub open spec fn is_circular(self) -> bool {
        self is Circle || self is ReverseCircle
    }

    pub open spec fn spec_count(self) -> u32 {
        if self.is_circular() {
            4
        } else {
            1
        }
    }

    /// How many phase-shifted copies of the platform one placement makes.
    pub fn count(self) -> (r: u32)
        ensures
            r == self.spec_count(),
    {
        match self {
            PlatformKind::Circle | PlatformKind::ReverseCircle => 4,
            _ => 1,
        }
    }

    pub open spec fn spec_radii(self) -> (i32, i32) {
        match self {
            PlatformKind::Circle => (32i32, 32i32),
            PlatformKind::ReverseCircle => (32i32, -32i32),
            PlatformKind::UpDown => (0i32, 40i32),
            PlatformKind::DownUp => (0i32, -40i32),
            PlatformKind::RightLeft => (40i32, 0i32),
            PlatformKind::LeftRight => (-40i32, 0i32),
        }
    }

    /// The x and y radii of the motion: the offset from the center is
    /// `(rx * cos a, ry * sin a)` for the platform's current angle `a`.
    pub fn radii(self) -> (r: (i32, i32))
        ensures
            r == self.spec_radii(),
    {
        match self {
            PlatformKind::Circle => (32i32, 32i32),
            PlatformKind::ReverseCircle => (32i32, -32i32),
            PlatformKind::UpDown => (0i32, 40i32),
            PlatformKind::DownUp => (0i32, -40i32),
            PlatformKind::RightLeft => (40i32, 0i32),
            PlatformKind::LeftRight => (-40i32, 0i32),
        }
    }

    pub open spec fn spec_phase_degrees(self, index: u32) -> int {
        index * 360 / (self.spec_count() as int)
    }

    /// The phase of copy `index`, in degrees: the copies are spread evenly
    /// around one turn.
    pub fn phase_degrees(self, index: u32) -> (r: u32)
        requires
            index < self.spec_count(),
        ensures
            r == self.spec_phase_degrees(index),
            r < 360,
    {
        let count = self.count();
        index * 360 / count
    }
}

/// The copies of a circular platform sit a whole number of quarter turns
/// apart, and no two of them share a phase: at any time, the angles of two
/// copies differ by exactly 90, 180 or 270 degrees.
pub proof fn lemma_circular_copies_quarter_turns(kind: PlatformKind, i: u32, j: u32)
    requires
        kind.is_circular(),
        i < j < kind.spec_count(),
    ensures
        kind.spec_count() == 4,
        kind.spec_phase_degrees(j) - kind.spec_phase_degrees(i) == 90 * (j - i),
        0 < kind.spec_phase_degrees(j) - kind.spec_phase_degrees(i) < 360,
{
}

} // verus!
