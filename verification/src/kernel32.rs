//! The loader module as a hookable target.
//!
//! The five library-load and library-free entry points are located through
//! the export table and detoured, so the watcher observes every module the
//! process loads or unloads.  The detour bodies themselves only forward the
//! observation to the watcher; they stay with the host.

use vstd::prelude::*;

use crate::hookable::{HookAction, HookSpec, HookableModule, Lookup};

verus! {

/// Table index of the narrow-string load hook.
pub const K32_LOAD_LIBRARY_A: usize = 0;

/// Table index of the wide-string load hook.
pub const K32_LOAD_LIBRARY_W: usize = 1;

/// Table index of the extended narrow-string load hook.
pub const K32_LOAD_LIBRARY_EX_A: usize = 2;

/// Table index of the extended wide-string load hook.
pub const K32_LOAD_LIBRARY_EX_W: usize = 3;

/// Table index of the library-free hook.
pub const K32_FREE_LIBRARY: usize = 4;

/// The host's detour functions for the loader entry points.
#[derive(Clone, Copy, PartialEq, Eq, Structural, Debug)]
pub struct LoaderDetours {
    pub load_library_a: usize,
    pub load_library_w: usize,
    pub load_library_ex_a: usize,
    pub load_library_ex_w: usize,
    pub free_library: usize,
}

/// The loader target: accepts only the loader binary's filename and detours
/// its five load/free entry points, located by export name.
pub fn kernel32_module(detours: LoaderDetours) -> (r: HookableModule)
    ensures
        r.wf(),
        r.is_reset(),
        r.names@.len() == 1,
        r.names@[0]@ == "kernel32.dll"@,
        r.specs@.len() == 5,
        forall|i: int| 0 <= i < 5 ==> (#[trigger] r.specs@[i]).action is Install,
        forall|i: int| 0 <= i < 5 ==> (#[trigger] r.specs@[i]).lookup is Export,
        r.specs@[K32_LOAD_LIBRARY_A as int].detour == detours.load_library_a,
        r.specs@[K32_LOAD_LIBRARY_W as int].detour == detours.load_library_w,
        r.specs@[K32_LOAD_LIBRARY_EX_A as int].detour == detours.load_library_ex_a,
        r.specs@[K32_LOAD_LIBRARY_EX_W as int].detour == detours.load_library_ex_w,
        r.specs@[K32_FREE_LIBRARY as int].detour == detours.free_library,
        match r.specs@[K32_LOAD_LIBRARY_A as int].lookup {
            Lookup::Export(name) => name@ == "LoadLibraryA"@,
            _ => false,
        },
        match r.specs@[K32_FREE_LIBRARY as int].lookup {
            Lookup::Export(name) => name@ == "FreeLibrary"@,
            _ => false,
        },
{
    let names: Vec<String> = vec!["kernel32.dll".to_owned()];
    let specs: Vec<HookSpec> = vec![
        HookSpec {
            name: "LoadLibraryA".to_owned(),
            lookup: Lookup::Export("LoadLibraryA".to_owned()),
            action: HookAction::Install,
            detour: detours.load_library_a,
        },
        HookSpec {
            name: "LoadLibraryW".to_owned(),
            lookup: Lookup::Export("LoadLibraryW".to_owned()),
            action: HookAction::Install,
            detour: detours.load_library_w,
        },
        HookSpec {
            name: "LoadLibraryExA".to_owned(),
            lookup: Lookup::Export("LoadLibraryExA".to_owned()),
            action: HookAction::Install,
            detour: detours.load_library_ex_a,
        },
        HookSpec {
            name: "LoadLibraryExW".to_owned(),
            lookup: Lookup::Export("LoadLibraryExW".to_owned()),
            action: HookAction::Install,
            detour: detours.load_library_ex_w,
        },
        HookSpec {
            name: "FreeLibrary".to_owned(),
            lookup: Lookup::Export("FreeLibrary".to_owned()),
            action: HookAction::Install,
            detour: detours.free_library,
        },
    ];
    HookableModule::new("kernel32".to_owned(), names, specs)
}

} // verus!
