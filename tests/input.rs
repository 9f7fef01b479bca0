use chirperjax::{next_phase, has_hitbox, GameInput, GroundChange, HorizDir, InputEvent, JumpState, Key, PlayerPhase, PlayerTrigger};
use chirperjax::PlayerPhase::{Complete, Normal, Start, Warping};
use chirperjax::PlayerTrigger::{StartDelayElapsed, TouchStar, TouchWarp, WarpArrived};

#[test]
fn direction_keys_stack() {
    let mut input = GameInput::new();
    assert_eq!(input.held_dir(), None);
    assert_eq!(input.key_down(Key::Left), Some(InputEvent::UpdateMovement(Some(HorizDir::Left))));
    assert_eq!(input.key_down(Key::Right), Some(InputEvent::UpdateMovement(Some(HorizDir::Right))));
    assert_eq!(input.held_dir(), Some(HorizDir::Right));
    assert_eq!(input.key_up(Key::Right), Some(InputEvent::UpdateMovement(Some(HorizDir::Left))));
    assert_eq!(input.key_up(Key::Left), Some(InputEvent::UpdateMovement(None)));
    assert_eq!(input.held_dir(), None);
}

#[test]
fn releasing_an_older_key_keeps_the_newer() {
    let mut input = GameInput::new();
    input.key_down(Key::Left);
    input.key_down(Key::Right);
    input.key_down(Key::Left);
    assert_eq!(input.key_up(Key::Left), Some(InputEvent::UpdateMovement(Some(HorizDir::Right))));
    assert_eq!(input.held_dir(), Some(HorizDir::Right));
}

#[test]
fn jump_key_and_other_keys() {
    let mut input = GameInput::new();
    assert_eq!(input.key_down(Key::Up), Some(InputEvent::PressJump));
    assert_eq!(input.key_up(Key::Up), Some(InputEvent::ReleaseJump));
    assert_eq!(input.key_down(Key::Other), None);
    assert_eq!(input.key_up(Key::Other), None);
    assert_eq!(input.held_dir(), None);
}

#[test]
fn signum_of_directions() {
    assert_eq!(HorizDir::Left.signum(), -1);
    assert_eq!(HorizDir::Right.signum(), 1);
    assert_eq!(HorizDir::from_key(Key::Up), None);
}

#[test]
fn lifecycle_transitions() {
    assert_eq!(next_phase(Start, StartDelayElapsed), Some(Normal));
    assert_eq!(next_phase(Normal, TouchWarp), Some(Warping));
    assert_eq!(next_phase(Warping, WarpArrived), Some(Normal));
    assert_eq!(next_phase(Normal, TouchStar), Some(Complete));
    assert_eq!(next_phase(Start, TouchStar), None);
    assert_eq!(next_phase(Warping, TouchStar), None);
    assert_eq!(next_phase(Complete, TouchWarp), None);
    assert_eq!(next_phase(Complete, StartDelayElapsed), None);
    assert_eq!(next_phase(Normal, StartDelayElapsed), None);
    assert!(has_hitbox(Normal));
    assert!(!has_hitbox(Warping));
    assert!(!has_hitbox(Start));
    assert!(!has_hitbox(Complete));
}

#[test]
fn one_phase_at_a_time_along_a_run() {
    let mut phase = PlayerPhase::Start;
    let mut history = vec![phase];
    for t in [StartDelayElapsed, TouchWarp, WarpArrived, TouchWarp, WarpArrived, TouchStar] {
        phase = next_phase(phase, t).unwrap();
        history.push(phase);
    }
    assert_eq!(history, vec![Start, Normal, Warping, Normal, Warping, Normal, Complete]);
}

#[test]
fn jump_queues_only_from_the_ground() {
    let mut s = JumpState::new();
    s.press_jump();
    assert_eq!(s, JumpState { on_ground: false, jump_held: false, queued_jump: false });
    assert_eq!(s.update_ground(true, false), GroundChange::Landed);
    s.press_jump();
    assert_eq!(s, JumpState { on_ground: true, jump_held: true, queued_jump: true });
    s.release_jump();
    s.press_jump();
    assert_eq!(s, JumpState { on_ground: true, jump_held: false, queued_jump: true });
    s.launch();
    assert_eq!(s, JumpState { on_ground: false, jump_held: false, queued_jump: false });
}

#[test]
fn ground_changes() {
    let mut s = JumpState::new();
    assert_eq!(s.update_ground(false, true), GroundChange::Unchanged);
    assert_eq!(s.update_ground(true, false), GroundChange::Landed);
    assert_eq!(s.update_ground(true, false), GroundChange::Unchanged);
    s.press_jump();
    assert_eq!(s.update_ground(false, true), GroundChange::Snapped);
    assert_eq!(s, JumpState { on_ground: true, jump_held: true, queued_jump: true });
    assert_eq!(s.update_ground(false, false), GroundChange::Left);
    assert_eq!(s, JumpState { on_ground: false, jump_held: false, queued_jump: false });
}
