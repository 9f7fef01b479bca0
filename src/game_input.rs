use vstd::prelude::*;

verus! {

/// A horizontal movement direction.
#[derive(Clone, Copy, Debug, PartialEq, Eq, Structural, Hash)]
pub enum HorizDir {
    Left,
    Right,
}

/// The keys the game reacts to; every other key is `Other`.
#[derive(Clone, Copy, Debug, PartialEq, Eq, Structural, Hash)]
pub enum Key {
    Left,
    Right,
    Up,
    Other,
}

/// An abstract input event for the board.
#[derive(Clone, Copy, Debug, PartialEq, Eq, Structural, Hash)]
pub enum InputEvent {
    /// The held movement direction is now this one, or none.
    UpdateMovement(Option<HorizDir>),
    PressJump,
    ReleaseJump,
}

impl HorizDir {
    pub open spec fn spec_signum(self) -> i32 {
        match self {
            HorizDir::Left => -1i32,
            HorizDir::Right => 1,
        }
    }

    /// -1 for left, 1 for right.
    pub fn signum(self) -> (r: i32)
        ensures
            r == self.spec_signum(),
    {
        match self {
            HorizDir::Left => -1,
            HorizDir::Right => 1,
        }
    }

    pub open spec fn spec_from_key(key: Key) -> Option<HorizDir> {
        match key {
            Key::Left => Some(HorizDir::Left),
            Key::Right => Some(HorizDir::Right),
            _ => None,
        }
    }

    pub fn from_key(key: Key) -> (r: Option<HorizDir>)
        ensures
            r == HorizDir::spec_from_key(key),
    {
        match key {
            Key::Left => Some(HorizDir::Left),
            Key::Right => Some(HorizDir::Right),
            _ => None,
        }
    }
}

/// `s` with every occurrence of `d` taken out, the rest kept in order.
pub open spec fn without(s: Seq<HorizDir>, d: HorizDir) -> Seq<HorizDir>
    decreases s.len(),
{
    if s.len() == 0 {
        s
    } else if s.last() == d {
        without(s.drop_last(), d)
    } else {
        without(s.drop_last(), d).push(s.last())
    }
}

/// The direction pressed most recently among those still held.
pub open spec fn last_held(s: Seq<HorizDir>) -> Option<HorizDir> {
    if s.len() == 0 {
        None
    } else {
        Some(s.last())
    }
}

/// Turns key presses into input events, remembering which direction keys
/// are held and in which order they were pressed.
pub struct GameInput {
    held_dirs: Vec<HorizDir>,
}

impl GameInput {
    /// The direction keys held, oldest press first.
    pub closed spec fn held(&self) -> Seq<HorizDir> {
        self.held_dirs@
    }

    pub fn new() -> (r: GameInput)
        ensures
            r.held() == Seq::<HorizDir>::empty(),
    {
        GameInput { held_dirs: Vec::new() }
    }

    /// A direction key starts moving that way; the up key presses jump.
    pub fn key_down(&mut self, key: Key) -> (r: Option<InputEvent>)
        ensures
            match HorizDir::spec_from_key(key) {
                Some(dir) => final(self).held() == old(self).held().push(dir) && r == Some(
                    InputEvent::UpdateMovement(Some(dir)),
                ),
                None => final(self).held() == old(self).held() && r == (if key == Key::Up {
                    Some(InputEvent::PressJump)
                } else {
                    None
                }),
            },
    {
        if let Some(dir) = HorizDir::from_key(key) {
            self.held_dirs.push(dir);
            Some(InputEvent::UpdateMovement(Some(dir)))
        } else if key == Key::Up {
            Some(InputEvent::PressJump)
        } else {
            None
        }
    }

    /// Releasing a direction key forgets it and moves along the direction
    /// still held that was pressed last, if any; the up key releases jump.
    pub fn key_up(&mut self, key: Key) -> (r: Option<InputEvent>)
        ensures
            match HorizDir::spec_from_key(key) {
                Some(dir) => final(self).held() == without(old(self).held(), dir) && r == Some(
                    InputEvent::UpdateMovement(last_held(final(self).held())),
                ),
                None => final(self).held() == old(self).held() && r == (if key == Key::Up {
                    Some(InputEvent::ReleaseJump)
                } else {
                    None
                }),
            },
    {
        if let Some(dir) = HorizDir::from_key(key) {
            let mut kept: Vec<HorizDir> = Vec::new();
            let mut i: usize = 0;
            while i < self.held_dirs.len()
                invariant
                    i <= self.held_dirs.len(),
                    kept@ == without(self.held_dirs@.take(i as int), dir),
                decreases self.held_dirs.len() - i,
            {
                let d = self.held_dirs[i];
                proof {
                    assert(self.held_dirs@.take(i + 1).drop_last() =~= self.held_dirs@.take(i as int));
                }
                if d != dir {
                    kept.push(d);
                }
                i = i + 1;
            }
            proof {
                assert(self.held_dirs@.take(i as int) =~= self.held_dirs@);
            }
            self.held_dirs = kept;
            Some(InputEvent::UpdateMovement(self.held_dir()))
        } else if key == Key::Up {
            Some(InputEvent::ReleaseJump)
        } else {
            None
        }
    }

    /// The direction the player moves in: the last one pressed still held.
    pub fn held_dir(&self) -> (r: Option<HorizDir>)
        ensures
            r == last_held(self.held()),
    {
        let n = self.held_dirs.len();
        if n == 0 {
            None
        } else {
            Some(self.held_dirs[n - 1])
        }
    }
}

} // verus!
