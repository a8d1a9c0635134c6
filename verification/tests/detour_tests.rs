use hookcore::detour::{DetourEngine, DetourError, FuncPtr, MinHookError, STATUS_OK};

#[test]
fn create_hook_records_trampoline_to_target() {
    let mut e = DetourEngine::new(STATUS_OK);
    let mut slot = FuncPtr::Inert;
    let r = e.create_hook(0x1000, 0x2000, &mut slot, Ok(0x3000));
    assert_eq!(r, Ok(()));
    assert_eq!(slot, FuncPtr::Addr(0x3000));
    assert_eq!(e.mapping, vec![(0x3000, 0x1000)]);
}

#[test]
fn create_hook_failed_outcome_changes_nothing() {
    let mut e = DetourEngine::new(STATUS_OK);
    let mut slot = FuncPtr::Inert;
    let r = e.create_hook(0x1000, 0x2000, &mut slot, Err(7));
    assert_eq!(r, Err(DetourError::OperationError(MinHookError { status: 7 })));
    assert_eq!(slot, FuncPtr::Inert);
    assert!(e.mapping.is_empty());
}

#[test]
fn failed_initialization_fails_every_operation_fast() {
    let mut e = DetourEngine::new(9);
    let mut slot = FuncPtr::Inert;
    let init_err = Err(DetourError::InitError(MinHookError { status: 9 }));
    assert_eq!(e.create_hook(0x1000, 0x2000, &mut slot, Ok(0x3000)), init_err);
    assert_eq!(slot, FuncPtr::Inert);
    assert_eq!(e.queue_enable_hook(0x1000), init_err);
    assert_eq!(e.queue_disable_hook(&FuncPtr::Addr(0x3000)), init_err);
    assert_eq!(e.apply_queued(Ok(())), init_err);
    assert_eq!(e.remove_hook(&FuncPtr::Addr(0x3000), Ok(())), init_err);
    assert!(e.mapping.is_empty());
    assert!(e.queued.is_empty());
    assert!(e.enabled.is_empty());
}

#[test]
fn queue_enable_only_created_targets() {
    let mut e = DetourEngine::new(STATUS_OK);
    let mut slot = FuncPtr::Inert;
    e.create_hook(0x1000, 0x2000, &mut slot, Ok(0x3000)).unwrap();
    assert_eq!(e.queue_enable_hook(0x1000), Ok(()));
    // A target with no created hook has nothing to enable.
    assert_eq!(e.queue_enable_hook(0x9999), Ok(()));
    assert_eq!(e.queued, vec![(0x1000, true)]);
}

#[test]
fn queue_disable_of_inert_trampoline_is_nothing_to_disable() {
    let mut e = DetourEngine::new(STATUS_OK);
    assert_eq!(e.queue_disable_hook(&FuncPtr::Inert), Ok(()));
    assert_eq!(e.queue_disable_hook(&FuncPtr::Addr(0x4444)), Ok(()));
    assert!(e.queued.is_empty());
}

#[test]
fn queue_disable_looks_the_target_up_through_the_mapping() {
    let mut e = DetourEngine::new(STATUS_OK);
    let mut slot = FuncPtr::Inert;
    e.create_hook(0x1000, 0x2000, &mut slot, Ok(0x3000)).unwrap();
    assert_eq!(e.queue_disable_hook(&slot), Ok(()));
    assert_eq!(e.queued, vec![(0x1000, false)]);
}

#[test]
fn apply_queued_commits_transitions_in_order() {
    let mut e = DetourEngine::new(STATUS_OK);
    let mut s1 = FuncPtr::Inert;
    let mut s2 = FuncPtr::Inert;
    e.create_hook(0x1000, 0x2000, &mut s1, Ok(0x3000)).unwrap();
    e.create_hook(0x1100, 0x2100, &mut s2, Ok(0x3100)).unwrap();
    e.queue_enable_hook(0x1000).unwrap();
    e.queue_enable_hook(0x1100).unwrap();
    assert_eq!(e.apply_queued(Ok(())), Ok(()));
    assert_eq!(e.enabled, vec![0x1000, 0x1100]);
    assert!(e.queued.is_empty());

    e.queue_disable_hook(&s1).unwrap();
    assert_eq!(e.apply_queued(Ok(())), Ok(()));
    assert_eq!(e.enabled, vec![0x1100]);
}

#[test]
fn apply_queued_failure_keeps_committed_state_and_drops_queue() {
    let mut e = DetourEngine::new(STATUS_OK);
    let mut s1 = FuncPtr::Inert;
    e.create_hook(0x1000, 0x2000, &mut s1, Ok(0x3000)).unwrap();
    e.queue_enable_hook(0x1000).unwrap();
    let r = e.apply_queued(Err(5));
    assert_eq!(r, Err(DetourError::OperationError(MinHookError { status: 5 })));
    assert!(e.enabled.is_empty());
    assert!(e.queued.is_empty());
}

#[test]
fn remove_hook_drops_mapping_and_committed_target() {
    let mut e = DetourEngine::new(STATUS_OK);
    let mut s1 = FuncPtr::Inert;
    e.create_hook(0x1000, 0x2000, &mut s1, Ok(0x3000)).unwrap();
    e.queue_enable_hook(0x1000).unwrap();
    e.apply_queued(Ok(())).unwrap();
    assert_eq!(e.remove_hook(&s1, Ok(())), Ok(()));
    assert!(e.mapping.is_empty());
    assert!(e.enabled.is_empty());
}

#[test]
fn remove_hook_failure_still_drops_the_pair() {
    let mut e = DetourEngine::new(STATUS_OK);
    let mut s1 = FuncPtr::Inert;
    e.create_hook(0x1000, 0x2000, &mut s1, Ok(0x3000)).unwrap();
    let r = e.remove_hook(&s1, Err(10));
    assert_eq!(r, Err(DetourError::OperationError(MinHookError { status: 10 })));
    assert!(e.mapping.is_empty());
}

#[test]
fn remove_hook_of_unknown_trampoline_is_nothing_to_remove() {
    let mut e = DetourEngine::new(STATUS_OK);
    assert_eq!(e.remove_hook(&FuncPtr::Inert, Ok(())), Ok(()));
    assert_eq!(e.remove_hook(&FuncPtr::Addr(0xABCD), Ok(())), Ok(()));
}

#[test]
fn uninitialize_clears_bookkeeping_once_initialized() {
    let mut e = DetourEngine::new(STATUS_OK);
    let mut s1 = FuncPtr::Inert;
    e.create_hook(0x1000, 0x2000, &mut s1, Ok(0x3000)).unwrap();
    e.uninitialize();
    assert!(e.mapping.is_empty());
    assert!(e.queued.is_empty());
    assert!(e.enabled.is_empty());

    let mut dead = DetourEngine::new(3);
    dead.uninitialize();
    assert_eq!(dead.init_status, 3);
}

#[test]
fn funcptr_default_detection() {
    assert!(FuncPtr::Inert.is_default());
    assert!(!FuncPtr::Addr(1).is_default());
}
