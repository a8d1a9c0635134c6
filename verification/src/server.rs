//! The game's server module as a hookable target.
//!
//! Two functions are located by signature and detoured: the jump-button check
//! and the gravity finisher.  Their detour bodies communicate through a small
//! per-module state machine (did the player jump last tick, are we inside the
//! jump check) that implements jump assistance; the decision logic lives
//! here, the call-through to the original functions stays with the host.

use vstd::prelude::*;

use crate::hookable::{HookAction, HookSpec, HookableModule, Lookup};
use crate::pattern::Pattern;

verus! {

/// Table index of the jump-button check hook.
pub const SERVER_CHECK_JUMP_BUTTON: usize = 0;

/// Table index of the gravity-finish hook.
pub const SERVER_FINISH_GRAVITY: usize = 1;

/// Jump-button bit inside the movement button mask.
pub const IN_JUMP: i32 = 2;

/// Signature of the jump-button check routine.
pub fn pattern_check_jump_button() -> (r: Pattern)
    ensures
        r.wf(),
{
    let bytes: Vec<(u8, bool)> = vec![
        (0x83, true), (0xEC, true), (0x14, true), (0x53, true), (0x56, true), (0x8B, true),
        (0xF1, true), (0x57, true), (0x8B, true), (0x7E, true), (0x08, true), (0x85, true),
        (0xFF, true), (0x74, true), (0x12, true), (0x8B, true), (0x07, true), (0x8B, true),
        (0xCF, true), (0xFF, true), (0x90, true), (0x60, true), (0x01, true), (0x00, true),
        (0x00, true), (0x84, true), (0xC0, true), (0x74, true), (0x04, true), (0x8B, true),
        (0xCF, true), (0xEB, true),
    ];
    Pattern(bytes)
}

/// Signature of the gravity-finish routine.
pub fn pattern_finish_gravity() -> (r: Pattern)
    ensures
        r.wf(),
{
    let bytes: Vec<(u8, bool)> = vec![
        (0x8B, true), (0x51, true), (0x08, true), (0xD9, true), (0x82, true), (0xB0, true),
        (0x0B, true), (0x00, true), (0x00, true), (0xD8, true), (0x1D, true), (0x00, false),
        (0x00, false), (0x00, false), (0x00, false), (0xDF, true), (0xE0, true), (0xF6, true),
        (0xC4, true), (0x44, true), (0x7A, true), (0x4D, true), (0xD9, true), (0x82, true),
        (0x08, true), (0x02, true), (0x00, true), (0x00, true), (0xD8, true), (0x1D, true),
    ];
    Pattern(bytes)
}

/// The server target: accepts only the server binary's filename and detours
/// the two movement functions.  The two arguments identify the host's detour
/// functions for the table's entries.
pub fn server_module(check_jump_detour: usize, finish_gravity_detour: usize) -> (r:
    HookableModule)
    ensures
        r.wf(),
        r.is_reset(),
        r.names@.len() == 1,
        r.names@[0]@ == "server.dll"@,
        r.specs@.len() == 2,
        r.specs@[SERVER_CHECK_JUMP_BUTTON as int].action is Install,
        r.specs@[SERVER_CHECK_JUMP_BUTTON as int].detour == check_jump_detour,
        r.specs@[SERVER_CHECK_JUMP_BUTTON as int].lookup is Signature,
        r.specs@[SERVER_FINISH_GRAVITY as int].action is Install,
        r.specs@[SERVER_FINISH_GRAVITY as int].detour == finish_gravity_detour,
        r.specs@[SERVER_FINISH_GRAVITY as int].lookup is Signature,
{
    let names: Vec<String> = vec!["server.dll".to_owned()];
    let specs: Vec<HookSpec> = vec![
        HookSpec {
            name: "CHL1GameMovement::CheckJumpButton".to_owned(),
            lookup: Lookup::Signature(pattern_check_jump_button()),
            action: HookAction::Install,
            detour: check_jump_detour,
        },
        HookSpec {
            name: "CGameMovement::FinishGravity".to_owned(),
            lookup: Lookup::Signature(pattern_finish_gravity()),
            action: HookAction::Install,
            detour: finish_gravity_detour,
        },
    ];
    HookableModule::new("server".to_owned(), names, specs)
}

/// Cross-detour state of the server module: the two detours communicate
/// through these flags.  Reset to defaults whenever the module unhooks.
pub struct ServerState {
    /// The player jumped during the previous tick, so this tick is the
    /// release tick and must not jump again.
    pub jumped_last_tick: bool,
    /// A jump-button check is currently on the stack; the gravity finisher
    /// runs inside it.
    pub inside_check_jump_button: bool,
}

impl ServerState {
    pub fn new() -> (r: ServerState)
        ensures
            r.jumped_last_tick == false,
            r.inside_check_jump_button == false,
    {
        ServerState { jumped_last_tick: false, inside_check_jump_button: false }
    }

    /// Reset to the state of a fresh instance.
    pub fn reset(&mut self)
        ensures
            final(self).jumped_last_tick == false,
            final(self).inside_check_jump_button == false,
    {
        self.jumped_last_tick = false;
        self.inside_check_jump_button = false;
    }

    /// Decision on entering the jump-button check, given the current button
    /// mask: returns the mask the original routine should see.  With jump
    /// assistance on, the jump bit of the previous tick is cleared — the game
    /// then believes jump was not held — unless the player really jumped last
    /// tick.
    pub fn on_check_jump_button_enter(&mut self, autojump: bool, oldbuttons: i32) -> (r: i32)
        ensures
            final(self).inside_check_jump_button == true,
            final(self).jumped_last_tick == if autojump {
                false
            } else {
                old(self).jumped_last_tick
            },
            r == if autojump && !old(self).jumped_last_tick {
                oldbuttons & !IN_JUMP
            } else {
                oldbuttons
            },
    {
        let mut buttons = oldbuttons;
        if autojump {
            if !self.jumped_last_tick {
                // Make the game think jump was not pressed last tick.
                buttons = buttons & !IN_JUMP;
            }
            self.jumped_last_tick = false;
        }
        self.inside_check_jump_button = true;
        buttons
    }

    /// Decision on leaving the jump-button check: whether the host must
    /// restore the original button mask (the player did not jump this tick).
    pub fn on_check_jump_button_exit(&mut self, autojump: bool) -> (restore: bool)
        ensures
            final(self).inside_check_jump_button == false,
            final(self).jumped_last_tick == old(self).jumped_last_tick,
            restore == (autojump && !old(self).jumped_last_tick),
    {
        self.inside_check_jump_button = false;
        autojump && !self.jumped_last_tick
    }

    /// Decision in the gravity finisher: a finisher reached from inside the
    /// jump-button check means the jump went through this tick.
    pub fn on_finish_gravity(&mut self, autojump: bool)
        ensures
            final(self).inside_check_jump_button == old(self).inside_check_jump_button,
            final(self).jumped_last_tick == if autojump && old(self).inside_check_jump_button {
                true
            } else {
                old(self).jumped_last_tick
            },
    {
        if autojump {
            if self.inside_check_jump_button {
                self.jumped_last_tick = true;
            }
        }
    }
}

} // verus!
