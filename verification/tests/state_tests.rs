use hookcore::engine::EngineState;
use hookcore::server::{ServerState, IN_JUMP};

#[test]
fn spawn_marks_the_next_unpause_when_autopause_is_on() {
    let mut s = EngineState::new();
    s.on_host_spawn(true);
    assert!(s.next_unpause_is_bad);
}

#[test]
fn spawn_leaves_the_mark_alone_when_autopause_is_off() {
    let mut s = EngineState::new();
    s.on_host_spawn(false);
    assert!(!s.next_unpause_is_bad);
}

#[test]
fn marked_unpause_emits_the_pause_command_once() {
    let mut s = EngineState::new();
    s.on_host_spawn(true);
    assert!(s.on_host_unpause(true));
    assert!(!s.next_unpause_is_bad);
    // The mark is consumed: a second unpause passes through.
    assert!(!s.on_host_unpause(true));
}

#[test]
fn unpause_with_autopause_off_never_emits() {
    let mut s = EngineState::new();
    s.on_host_spawn(true);
    assert!(!s.on_host_unpause(false));
    // The mark survives while the feature is off.
    assert!(s.next_unpause_is_bad);
}

#[test]
fn engine_initialization_happens_once() {
    let mut s = EngineState::new();
    assert!(s.begin_initialize());
    assert!(!s.begin_initialize());
    s.set_icvar(Some(0x1234));
    assert_eq!(s.icvar, Some(0x1234));
    s.reset();
    assert!(!s.initialized);
    assert_eq!(s.icvar, None);
}

#[test]
fn jump_assist_clears_the_held_jump_bit() {
    let mut s = ServerState::new();
    let buttons = IN_JUMP | 0x10;
    let seen = s.on_check_jump_button_enter(true, buttons);
    assert_eq!(seen, 0x10);
    assert!(s.inside_check_jump_button);
}

#[test]
fn jump_assist_off_passes_buttons_through() {
    let mut s = ServerState::new();
    let buttons = IN_JUMP | 0x10;
    assert_eq!(s.on_check_jump_button_enter(false, buttons), buttons);
}

#[test]
fn release_tick_keeps_the_jump_bit() {
    let mut s = ServerState::new();
    s.jumped_last_tick = true;
    let buttons = IN_JUMP;
    // The tick after a jump is the release tick: the mask stays as it is.
    assert_eq!(s.on_check_jump_button_enter(true, buttons), buttons);
    // And the flag is consumed for the next tick.
    assert!(!s.jumped_last_tick);
}

#[test]
fn gravity_finisher_inside_the_check_records_the_jump() {
    let mut s = ServerState::new();
    s.on_check_jump_button_enter(true, IN_JUMP);
    s.on_finish_gravity(true);
    assert!(s.jumped_last_tick);
    // The jump went through: nothing to restore on exit.
    assert!(!s.on_check_jump_button_exit(true));
    assert!(!s.inside_check_jump_button);
}

#[test]
fn no_jump_means_the_buttons_are_restored_on_exit() {
    let mut s = ServerState::new();
    s.on_check_jump_button_enter(true, IN_JUMP);
    // FinishGravity never ran: the jump did not happen this tick.
    assert!(s.on_check_jump_button_exit(true));
}

#[test]
fn gravity_finisher_outside_the_check_records_nothing() {
    let mut s = ServerState::new();
    s.on_finish_gravity(true);
    assert!(!s.jumped_last_tick);
    let mut s2 = ServerState::new();
    s2.inside_check_jump_button = true;
    s2.on_finish_gravity(false);
    assert!(!s2.jumped_last_tick);
}
