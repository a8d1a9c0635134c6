//! The game's engine module as a hookable target.
//!
//! Two console-host functions are located by signature and detoured to
//! implement the auto-pause behaviour; the command-buffer writer and the
//! interface factory are captured for calling; the console-command vtable is
//! read out of the command constructor's code.  The pause decision logic
//! lives here; issuing the actual pause command and the interface calls stay
//! with the host.

use vstd::prelude::*;

use crate::hookable::{HookAction, HookSpec, HookableModule, Lookup};
use crate::pattern::Pattern;

verus! {

/// Table index of the captured command-buffer writer.
pub const ENGINE_CBUF_ADDTEXT: usize = 0;

/// Table index of the spawn-handler hook.
pub const ENGINE_HOST_SPAWN: usize = 1;

/// Table index of the unpause-handler hook.
pub const ENGINE_HOST_UNPAUSE: usize = 2;

/// Table index of the captured console-command vtable.
pub const ENGINE_CONCOMMAND_VTABLE: usize = 3;

/// Table index of the captured interface factory export.
pub const ENGINE_CREATE_INTERFACE: usize = 4;

/// Offset, past the command constructor's signature match, of the stored
/// vtable address.
pub const CONCOMMAND_VTABLE_OFFSET: usize = 35;

/// Signature of the command-buffer writer.
pub fn pattern_cbuf_addtext() -> (r: Pattern)
    ensures
        r.wf(),
{
    let bytes: Vec<(u8, bool)> = vec![
        (0x8B, true), (0x54, true), (0x24, true), (0x04, true), (0x83, true), (0xC9, true),
        (0xFF, true), (0x57, true), (0x33, true), (0xC0, true), (0x8B, true), (0xFA, true),
        (0xF2, true), (0xAE, true), (0x8B, true), (0x3D, true), (0x00, false), (0x00, false),
        (0x00, false), (0x00, false), (0xA1, true), (0x00, false), (0x00, false), (0x00, false),
        (0x00, false), (0xF7, true), (0xD1, true), (0x49, true), (0x03, true), (0xCF, true),
        (0x3B, true), (0xC8, true),
    ];
    Pattern(bytes)
}

/// Signature of the spawn handler.
pub fn pattern_host_spawn() -> (r: Pattern)
    ensures
        r.wf(),
{
    let bytes: Vec<(u8, bool)> = vec![
        (0xA1, true), (0x00, false), (0x00, false), (0x00, false), (0x00, false), (0x53, true),
        (0xBB, true), (0x01, true), (0x00, true), (0x00, true), (0x00, true), (0x3B, true),
        (0xC3, true), (0x56, true), (0x75, true), (0x11, true), (0x68, true), (0x00, false),
        (0x00, false), (0x00, false), (0x00, false), (0xFF, true), (0x15, true), (0x00, false),
        (0x00, false), (0x00, false), (0x00, false), (0x83, true), (0xC4, true), (0x04, true),
        (0x5E, true), (0x5B, true),
    ];
    Pattern(bytes)
}

/// Signature of the unpause handler.
pub fn pattern_host_unpause() -> (r: Pattern)
    ensures
        r.wf(),
{
    let bytes: Vec<(u8, bool)> = vec![
        (0xA0, true), (0x00, false), (0x00, false), (0x00, false), (0x00, false), (0x84, true),
        (0xC0, true), (0x74, true), (0x59, true), (0x8B, true), (0x0D, true), (0x00, false),
        (0x00, false), (0x00, false), (0x00, false), (0xB8, true), (0x01, true), (0x00, true),
        (0x00, true), (0x00, true), (0x3B, true), (0xC8, true), (0x75, true), (0x0A, true),
        (0x50, true), (0xE8, true),
    ];
    Pattern(bytes)
}

/// Signature of the console-command constructor; the command vtable address
/// is stored inside its code.
pub fn pattern_concommand_constructor() -> (r: Pattern)
    ensures
        r.wf(),
{
    let bytes: Vec<(u8, bool)> = vec![
        (0x8B, true), (0x44, true), (0x24, true), (0x08, true), (0x33, true), (0xD2, true),
        (0x56, true), (0x8B, true), (0xF1, true), (0x89, true), (0x46, true), (0x18, true),
        (0x8B, true), (0x44, true), (0x24, true), (0x18, true), (0x3B, true), (0xC2, true),
        (0x88, true), (0x56, true), (0x08, true), (0x89, true), (0x56, true), (0x0C, true),
        (0x89, true), (0x56, true), (0x10, true), (0x89, true), (0x56, true), (0x14, true),
        (0x89, true), (0x56, true), (0x04, true), (0xC7, true), (0x06, true),
    ];
    Pattern(bytes)
}

/// The engine target: accepts only the engine binary's filename; detours the
/// spawn and unpause handlers and captures the command-buffer writer, the
/// command vtable and the interface factory.  The two arguments identify the
/// host's detour functions for the installed entries.
pub fn engine_module(host_spawn_detour: usize, host_unpause_detour: usize) -> (r: HookableModule)
    ensures
        r.wf(),
        r.is_reset(),
        r.names@.len() == 1,
        r.names@[0]@ == "engine.dll"@,
        r.specs@.len() == 5,
        r.specs@[ENGINE_CBUF_ADDTEXT as int].action is Capture,
        r.specs@[ENGINE_CBUF_ADDTEXT as int].lookup is Signature,
        r.specs@[ENGINE_HOST_SPAWN as int].action is Install,
        r.specs@[ENGINE_HOST_SPAWN as int].detour == host_spawn_detour,
        r.specs@[ENGINE_HOST_SPAWN as int].lookup is Signature,
        r.specs@[ENGINE_HOST_UNPAUSE as int].action is Install,
        r.specs@[ENGINE_HOST_UNPAUSE as int].detour == host_unpause_detour,
        r.specs@[ENGINE_HOST_UNPAUSE as int].lookup is Signature,
        r.specs@[ENGINE_CONCOMMAND_VTABLE as int].action is Capture,
        match r.specs@[ENGINE_CONCOMMAND_VTABLE as int].lookup {
            Lookup::DataAt(_, delta) => delta == CONCOMMAND_VTABLE_OFFSET,
            _ => false,
        },
        r.specs@[ENGINE_CREATE_INTERFACE as int].action is Capture,
        match r.specs@[ENGINE_CREATE_INTERFACE as int].lookup {
            Lookup::Export(name) => name@ == "CreateInterface"@,
            _ => false,
        },
{
    let names: Vec<String> = vec!["engine.dll".to_owned()];
    let specs: Vec<HookSpec> = vec![
        HookSpec {
            name: "Cbuf_AddText".to_owned(),
            lookup: Lookup::Signature(pattern_cbuf_addtext()),
            action: HookAction::Capture,
            detour: 0,
        },
        HookSpec {
            name: "Host_Spawn_f".to_owned(),
            lookup: Lookup::Signature(pattern_host_spawn()),
            action: HookAction::Install,
            detour: host_spawn_detour,
        },
        HookSpec {
            name: "Host_UnPause_f".to_owned(),
            lookup: Lookup::Signature(pattern_host_unpause()),
            action: HookAction::Install,
            detour: host_unpause_detour,
        },
        HookSpec {
            name: "ConCommand::ConCommand".to_owned(),
            lookup: Lookup::DataAt(pattern_concommand_constructor(), CONCOMMAND_VTABLE_OFFSET),
            action: HookAction::Capture,
            detour: 0,
        },
        HookSpec {
            name: "CreateInterface".to_owned(),
            lookup: Lookup::Export("CreateInterface".to_owned()),
            action: HookAction::Capture,
            detour: 0,
        },
    ];
    HookableModule::new("engine".to_owned(), names, specs)
}

/// Engine-local state: one-time interface discovery and the pause decision
/// flag the two detours communicate through.  Reset to defaults whenever the
/// module unhooks.
pub struct EngineState {
    /// The one-time engine-side initialization ran.
    pub initialized: bool,
    /// Address of the engine's console-variable interface, once obtained
    /// from the interface factory.
    pub icvar: Option<usize>,
    /// The next unpause is the engine's own spawn unpause and must be
    /// answered with a pause command.
    pub next_unpause_is_bad: bool,
}

impl EngineState {
    pub fn new() -> (r: EngineState)
        ensures
            r.initialized == false,
            r.icvar is None,
            r.next_unpause_is_bad == false,
    {
        EngineState { initialized: false, icvar: None, next_unpause_is_bad: false }
    }

    /// Reset to the state of a fresh instance.
    pub fn reset(&mut self)
        ensures
            final(self).initialized == false,
            final(self).icvar is None,
            final(self).next_unpause_is_bad == false,
    {
        self.initialized = false;
        self.icvar = None;
        self.next_unpause_is_bad = false;
    }

    /// Claim the one-time engine-side initialization: true exactly on the
    /// first call, after which the host queries the interface factory.
    pub fn begin_initialize(&mut self) -> (first: bool)
        ensures
            final(self).initialized == true,
            final(self).icvar == old(self).icvar,
            final(self).next_unpause_is_bad == old(self).next_unpause_is_bad,
            first == !old(self).initialized,
    {
        let first = !self.initialized;
        self.initialized = true;
        first
    }

    /// Record the console-variable interface address the host obtained, or
    /// its absence.
    pub fn set_icvar(&mut self, icvar: Option<usize>)
        ensures
            final(self).icvar == icvar,
            final(self).initialized == old(self).initialized,
            final(self).next_unpause_is_bad == old(self).next_unpause_is_bad,
    {
        self.icvar = icvar;
    }

    /// Decision in the spawn handler: with auto-pause on, the unpause that
    /// follows a spawn is marked as one to answer.
    pub fn on_host_spawn(&mut self, autopause: bool)
        ensures
            final(self).initialized == old(self).initialized,
            final(self).icvar == old(self).icvar,
            final(self).next_unpause_is_bad == if autopause {
                true
            } else {
                old(self).next_unpause_is_bad
            },
    {
        if autopause {
            self.next_unpause_is_bad = true;
        }
    }

    /// Decision in the unpause handler: whether the host must feed a pause
    /// command back to the engine.  Consumes the mark set by the spawn
    /// handler.
    pub fn on_host_unpause(&mut self, autopause: bool) -> (emit_pause: bool)
        ensures
            final(self).initialized == old(self).initialized,
            final(self).icvar == old(self).icvar,
            final(self).next_unpause_is_bad == if autopause {
                false
            } else {
                old(self).next_unpause_is_bad
            },
            emit_pause == (autopause && old(self).next_unpause_is_bad),
    {
        let mut emit = false;
        if autopause {
            if self.next_unpause_is_bad {
                self.next_unpause_is_bad = false;
                emit = true;
            }
        }
        emit
    }
}

} // verus!
