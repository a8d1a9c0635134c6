use hookcore::detour::FuncPtr;
use hookcore::engine::{engine_module, ENGINE_HOST_SPAWN};
use hookcore::features::{
    standard_features, FEATURE_AUTOJUMP, FEATURE_AUTOPAUSE, FEATURE_CONSOLE_COMMANDS,
};
use hookcore::hookable::{HookRecord, HookableModule};
use hookcore::logger::{Logger, LogLevelFilter};
use hookcore::server::server_module;

fn available(target: usize) -> HookRecord {
    HookRecord { target, trampoline: FuncPtr::Addr(target), detour: 0, installed: true }
}

fn with_all_records_available(mut m: HookableModule) -> HookableModule {
    for i in 0..m.records.len() {
        m.records[i] = available(0x1000 + i);
    }
    m
}

#[test]
fn features_are_the_conjunction_of_their_prerequisites() {
    let engine = with_all_records_available(engine_module(1, 2));
    let server = with_all_records_available(server_module(3, 4));
    let mut features = standard_features();
    let mut logger = Logger::new(LogLevelFilter::Trace);

    features.refresh(&engine, &server, &mut logger);
    assert!(features.autopause());
    assert!(features.console_commands());
    assert!(features.autojump());
}

#[test]
fn fresh_targets_enable_nothing() {
    let engine = engine_module(1, 2);
    let server = server_module(3, 4);
    let mut features = standard_features();
    let mut logger = Logger::new(LogLevelFilter::Trace);

    features.refresh(&engine, &server, &mut logger);
    assert!(!features.autopause());
    assert!(!features.console_commands());
    assert!(!features.autojump());
}

#[test]
fn toggling_one_record_changes_exactly_the_dependent_features() {
    let mut engine = with_all_records_available(engine_module(1, 2));
    let server = with_all_records_available(server_module(3, 4));
    let mut features = standard_features();
    let mut logger = Logger::new(LogLevelFilter::Trace);

    features.refresh(&engine, &server, &mut logger);
    let console_before = features.console_commands();
    let autojump_before = features.autojump();
    assert!(features.autopause());

    // Drop one auto-pause prerequisite and refresh: only auto-pause flips.
    engine.records[ENGINE_HOST_SPAWN] =
        HookRecord { target: 0, trampoline: FuncPtr::Inert, detour: 0, installed: false };
    features.refresh(&engine, &server, &mut logger);
    assert!(!features.autopause());
    assert_eq!(features.console_commands(), console_before);
    assert_eq!(features.autojump(), autojump_before);

    // Restore it: auto-pause comes back, the others still unchanged.
    engine.records[ENGINE_HOST_SPAWN] = available(0x2000);
    features.refresh(&engine, &server, &mut logger);
    assert!(features.autopause());
    assert_eq!(features.console_commands(), console_before);
    assert_eq!(features.autojump(), autojump_before);
}

#[test]
fn partially_available_prerequisites_disable_the_feature() {
    let engine = engine_module(1, 2);
    let server = {
        let mut s = server_module(3, 4);
        s.records[0] = available(0x1234);
        // The second movement hook is missing.
        s
    };
    let mut features = standard_features();
    let mut logger = Logger::new(LogLevelFilter::Trace);
    features.refresh(&engine, &server, &mut logger);
    assert!(!features.autojump());
}

#[test]
fn refresh_logs_one_line_per_feature() {
    let engine = engine_module(1, 2);
    let server = server_module(3, 4);
    let mut features = standard_features();
    let mut logger = Logger::new(LogLevelFilter::Trace);
    features.refresh(&engine, &server, &mut logger);
    assert_eq!(logger.records.len(), 3);
    assert_eq!(logger.records[0].message, "autopause");
    assert_eq!(logger.records[1].message, "console commands");
    assert_eq!(logger.records[2].message, "autojump");
}

#[test]
fn is_enabled_out_of_range_reads_disabled() {
    let features = standard_features();
    assert!(!features.is_enabled(FEATURE_AUTOPAUSE));
    assert!(!features.is_enabled(FEATURE_CONSOLE_COMMANDS));
    assert!(!features.is_enabled(FEATURE_AUTOJUMP));
    assert!(!features.is_enabled(99));
}
