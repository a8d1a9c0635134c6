use hookcore::detour::{DetourEngine, FuncPtr, STATUS_OK};
use hookcore::engine::{
    engine_module, ENGINE_CBUF_ADDTEXT, ENGINE_CONCOMMAND_VTABLE, ENGINE_CREATE_INTERFACE,
    ENGINE_HOST_SPAWN, ENGINE_HOST_UNPAUSE,
};
use hookcore::hookable::HookRecord;
use hookcore::logger::{Logger, LogLevelFilter};
use hookcore::module::ModuleInfo;
use hookcore::pattern::Pattern;
use hookcore::server::{server_module, SERVER_CHECK_JUMP_BUTTON, SERVER_FINISH_GRAVITY};

fn embed(region: &mut Vec<u8>, pat: &Pattern, off: usize) {
    for (i, (b, _)) in pat.0.iter().enumerate() {
        region[off + i] = *b;
    }
}

const SERVER_BASE: usize = 0x1000_0000;
const CHECK_JUMP_OFF: usize = 0x100;
const FINISH_GRAVITY_OFF: usize = 0x200;

fn server_module_info() -> ModuleInfo {
    let mut bytes = vec![0xCCu8; 0x400];
    embed(&mut bytes, &hookcore::server::pattern_check_jump_button(), CHECK_JUMP_OFF);
    embed(&mut bytes, &hookcore::server::pattern_finish_gravity(), FINISH_GRAVITY_OFF);
    ModuleInfo {
        handle: 11,
        base: SERVER_BASE,
        size: bytes.len(),
        filename: "server.dll".to_string(),
        bytes,
        exports: vec![],
    }
}

const ENGINE_BASE: usize = 0x2000_0000;
const CBUF_OFF: usize = 0x80;
const SPAWN_OFF: usize = 0x120;
const UNPAUSE_OFF: usize = 0x1C0;
const CONCOMMAND_OFF: usize = 0x260;
const VTABLE_VALUE: u32 = 0xDDCC_BBAA;

fn engine_module_info() -> ModuleInfo {
    let mut bytes = vec![0xCCu8; 0x400];
    embed(&mut bytes, &hookcore::engine::pattern_cbuf_addtext(), CBUF_OFF);
    embed(&mut bytes, &hookcore::engine::pattern_host_spawn(), SPAWN_OFF);
    embed(&mut bytes, &hookcore::engine::pattern_host_unpause(), UNPAUSE_OFF);
    embed(&mut bytes, &hookcore::engine::pattern_concommand_constructor(), CONCOMMAND_OFF);
    let vtable_at = CONCOMMAND_OFF + 35;
    bytes[vtable_at..vtable_at + 4].copy_from_slice(&VTABLE_VALUE.to_le_bytes());
    ModuleInfo {
        handle: 22,
        base: ENGINE_BASE,
        size: bytes.len(),
        filename: "engine.dll".to_string(),
        bytes,
        exports: vec![("CreateInterface".to_string(), ENGINE_BASE + 0x300)],
    }
}

fn quiet_logger() -> Logger {
    Logger::new(LogLevelFilter::Trace)
}

#[test]
fn hook_installs_every_resolved_server_function() {
    let mut detour = DetourEngine::new(STATUS_OK);
    let mut logger = quiet_logger();
    let mut sm = server_module(0xD1, 0xD2);
    let resolved = sm.resolve(server_module_info());
    sm.hook(resolved, &vec![Ok(0x9001), Ok(0x9002)], &mut detour, Ok(()), &mut logger);

    assert_eq!(
        sm.records[SERVER_CHECK_JUMP_BUTTON],
        HookRecord {
            target: SERVER_BASE + CHECK_JUMP_OFF,
            trampoline: FuncPtr::Addr(0x9001),
            detour: 0xD1,
            installed: true,
        }
    );
    assert_eq!(
        sm.records[SERVER_FINISH_GRAVITY],
        HookRecord {
            target: SERVER_BASE + FINISH_GRAVITY_OFF,
            trampoline: FuncPtr::Addr(0x9002),
            detour: 0xD2,
            installed: true,
        }
    );
    assert_eq!(sm.current_name_index, Some(0));
    assert_eq!(sm.module_info.as_ref().map(|m| m.handle), Some(11));
    assert_eq!(
        detour.mapping,
        vec![
            (0x9001, SERVER_BASE + CHECK_JUMP_OFF),
            (0x9002, SERVER_BASE + FINISH_GRAVITY_OFF),
        ]
    );
    assert_eq!(
        detour.enabled,
        vec![SERVER_BASE + CHECK_JUMP_OFF, SERVER_BASE + FINISH_GRAVITY_OFF]
    );
    assert!(detour.queued.is_empty());
}

#[test]
fn engine_hook_captures_pointers_and_reads_vtable() {
    let mut detour = DetourEngine::new(STATUS_OK);
    let mut logger = quiet_logger();
    let mut em = engine_module(0xE1, 0xE2);
    let resolved = em.resolve(engine_module_info());
    em.hook(
        resolved,
        &vec![Ok(0), Ok(0x7001), Ok(0x7002), Ok(0), Ok(0)],
        &mut detour,
        Ok(()),
        &mut logger,
    );

    // Captured command-buffer writer: address stored, nothing installed.
    assert_eq!(
        em.records[ENGINE_CBUF_ADDTEXT],
        HookRecord {
            target: ENGINE_BASE + CBUF_OFF,
            trampoline: FuncPtr::Addr(ENGINE_BASE + CBUF_OFF),
            detour: 0,
            installed: false,
        }
    );
    // Installed pause handlers.
    assert!(em.records[ENGINE_HOST_SPAWN].installed);
    assert_eq!(em.records[ENGINE_HOST_SPAWN].trampoline, FuncPtr::Addr(0x7001));
    assert!(em.records[ENGINE_HOST_UNPAUSE].installed);
    assert_eq!(em.records[ENGINE_HOST_UNPAUSE].trampoline, FuncPtr::Addr(0x7002));
    // The vtable address read out of the constructor's code.
    assert_eq!(
        em.records[ENGINE_CONCOMMAND_VTABLE].trampoline,
        FuncPtr::Addr(VTABLE_VALUE as usize)
    );
    // The export-table capture.
    assert_eq!(
        em.records[ENGINE_CREATE_INTERFACE].trampoline,
        FuncPtr::Addr(ENGINE_BASE + 0x300)
    );
    // Only the two installs reached the subsystem.
    assert_eq!(detour.mapping.len(), 2);
}

#[test]
fn unresolved_function_is_skipped_not_fatal() {
    let mut detour = DetourEngine::new(STATUS_OK);
    let mut logger = quiet_logger();
    let mut sm = server_module(0xD1, 0xD2);
    // Only the gravity finisher is present in this module's bytes.
    let mut bytes = vec![0xCCu8; 0x400];
    embed(&mut bytes, &hookcore::server::pattern_finish_gravity(), FINISH_GRAVITY_OFF);
    let mi = ModuleInfo {
        handle: 11,
        base: SERVER_BASE,
        size: bytes.len(),
        filename: "server.dll".to_string(),
        bytes,
        exports: vec![],
    };
    let resolved = sm.resolve(mi);
    sm.hook(resolved, &vec![Ok(0x9001), Ok(0x9002)], &mut detour, Ok(()), &mut logger);

    assert_eq!(sm.records[SERVER_CHECK_JUMP_BUTTON].trampoline, FuncPtr::Inert);
    assert!(!sm.records[SERVER_CHECK_JUMP_BUTTON].installed);
    assert!(sm.records[SERVER_FINISH_GRAVITY].installed);
    assert_eq!(detour.mapping.len(), 1);
}

#[test]
fn install_failure_is_local_to_one_function() {
    let mut detour = DetourEngine::new(STATUS_OK);
    let mut logger = quiet_logger();
    let mut sm = server_module(0xD1, 0xD2);
    let resolved = sm.resolve(server_module_info());
    sm.hook(resolved, &vec![Err(3), Ok(0x9002)], &mut detour, Ok(()), &mut logger);

    assert!(!sm.records[SERVER_CHECK_JUMP_BUTTON].installed);
    assert_eq!(sm.records[SERVER_CHECK_JUMP_BUTTON].trampoline, FuncPtr::Inert);
    assert!(sm.records[SERVER_FINISH_GRAVITY].installed);
    assert_eq!(detour.mapping, vec![(0x9002, SERVER_BASE + FINISH_GRAVITY_OFF)]);
}

#[test]
fn unhook_returns_the_target_to_a_fresh_state() {
    let mut detour = DetourEngine::new(STATUS_OK);
    let mut logger = quiet_logger();
    let mut sm = server_module(0xD1, 0xD2);
    let resolved = sm.resolve(server_module_info());
    sm.hook(resolved, &vec![Ok(0x9001), Ok(0x9002)], &mut detour, Ok(()), &mut logger);

    sm.unhook(&mut detour, Ok(()), &vec![Ok(()), Ok(())], &mut logger);

    assert!(sm.module_info.is_none());
    assert_eq!(sm.current_name_index, None);
    for rec in &sm.records {
        assert_eq!(*rec, HookRecord { target: 0, trampoline: FuncPtr::Inert, detour: 0, installed: false });
    }
    assert!(detour.mapping.is_empty());
    assert!(detour.enabled.is_empty());
    assert!(detour.queued.is_empty());
}

#[test]
fn rehook_after_unhook_matches_a_fresh_hook() {
    let mut detour = DetourEngine::new(STATUS_OK);
    let mut logger = quiet_logger();

    let mut fresh = server_module(0xD1, 0xD2);
    let resolved = fresh.resolve(server_module_info());
    fresh.hook(resolved, &vec![Ok(0x9001), Ok(0x9002)], &mut detour, Ok(()), &mut logger);
    let fresh_records = fresh.records.clone();

    let mut reused = server_module(0xD1, 0xD2);
    let mut detour2 = DetourEngine::new(STATUS_OK);
    let resolved = reused.resolve(server_module_info());
    reused.hook(resolved, &vec![Ok(0x5001), Ok(0x5002)], &mut detour2, Ok(()), &mut logger);
    reused.unhook(&mut detour2, Ok(()), &vec![Ok(()), Ok(())], &mut logger);
    let resolved = reused.resolve(server_module_info());
    reused.hook(resolved, &vec![Ok(0x9001), Ok(0x9002)], &mut detour2, Ok(()), &mut logger);

    assert_eq!(reused.records, fresh_records);
    assert_eq!(reused.current_name_index, Some(0));
    assert_eq!(reused.module_info.as_ref().map(|m| m.handle), Some(11));
    assert_eq!(detour2.mapping, detour.mapping);
    assert_eq!(detour2.enabled, detour.enabled);
}

#[test]
fn two_targets_share_no_state() {
    let mut detour = DetourEngine::new(STATUS_OK);
    let mut logger = quiet_logger();

    let mut sm = server_module(0xD1, 0xD2);
    let resolved = sm.resolve(server_module_info());
    sm.hook(resolved, &vec![Ok(0x9001), Ok(0x9002)], &mut detour, Ok(()), &mut logger);

    let mut em = engine_module(0xE1, 0xE2);
    let resolved = em.resolve(engine_module_info());
    em.hook(
        resolved,
        &vec![Ok(0), Ok(0x7001), Ok(0x7002), Ok(0), Ok(0)],
        &mut detour,
        Ok(()),
        &mut logger,
    );
    let engine_records = em.records.clone();

    // Unhooking the server target leaves the engine target's records alone.
    sm.unhook(&mut detour, Ok(()), &vec![Ok(()), Ok(())], &mut logger);
    assert_eq!(em.records, engine_records);
    assert!(em.records[ENGINE_HOST_SPAWN].installed);
    // The engine target's hooks are still in the mapping.
    assert_eq!(
        detour.mapping,
        vec![
            (0x7001, ENGINE_BASE + SPAWN_OFF),
            (0x7002, ENGINE_BASE + UNPAUSE_OFF),
        ]
    );
}

#[test]
fn uninitialized_subsystem_installs_nothing() {
    let mut detour = DetourEngine::new(42);
    let mut logger = quiet_logger();
    let mut sm = server_module(0xD1, 0xD2);
    let resolved = sm.resolve(server_module_info());
    sm.hook(resolved, &vec![Ok(0x9001), Ok(0x9002)], &mut detour, Ok(()), &mut logger);

    assert!(!sm.records[SERVER_CHECK_JUMP_BUTTON].installed);
    assert!(!sm.records[SERVER_FINISH_GRAVITY].installed);
    assert!(detour.mapping.is_empty());
    // The module is still bound: the scan itself needs no subsystem.
    assert!(sm.module_info.is_some());
}
