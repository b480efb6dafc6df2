//! The hook-engine lifecycle: one initialize/uninitialize pair, hook
//! creation under protection bracketing, and the enable/disable transitions.

use cheatlib::memory::MEM_COMMIT;
use cheatlib::memory::PAGE_EXECUTE_READWRITE;
use cheatlib::memory::PAGE_READONLY;
use cheatlib::minhook::create_hook;
use cheatlib::minhook::disable_hook;
use cheatlib::minhook::disable_hooks;
use cheatlib::minhook::enable_hook;
use cheatlib::minhook::enable_hooks;
use cheatlib::minhook::initialize;
use cheatlib::minhook::uninitialize;
use cheatlib::minhook::HookState;
use cheatlib::minhook::MH_ERROR_ALREADY_CREATED;
use cheatlib::minhook::MH_ERROR_ALREADY_INITIALIZED;
use cheatlib::minhook::MH_ERROR_DISABLED;
use cheatlib::minhook::MH_ERROR_ENABLED;
use cheatlib::minhook::MH_ERROR_NOT_CREATED;
use cheatlib::minhook::MH_ERROR_NOT_INITIALIZED;
use cheatlib::Error;
use cheatlib::HookEngine;
use cheatlib::HookOperation;
use cheatlib::MemorySnapshot;
use cheatlib::OsCall;
use cheatlib::Page;

fn code_page() -> Page {
    Page { base: 0x400000, state: MEM_COMMIT, protect: PAGE_EXECUTE_READWRITE, contents: vec![0u8; 64] }
}

#[test]
fn initialize_exactly_once() {
    let mut engine = HookEngine::new();
    assert!(initialize(&mut engine).is_ok());
    assert_eq!(
        initialize(&mut engine).unwrap_err(),
        Error::EngineStatus {
            status: MH_ERROR_ALREADY_INITIALIZED,
            operation: HookOperation::Initialize,
            target: 0,
        }
    );
}

#[test]
fn uninitialize_requires_initialization() {
    let mut engine = HookEngine::new();
    assert_eq!(
        uninitialize(&mut engine).unwrap_err(),
        Error::EngineStatus {
            status: MH_ERROR_NOT_INITIALIZED,
            operation: HookOperation::Uninitialize,
            target: 0,
        }
    );
    assert!(initialize(&mut engine).is_ok());
    assert!(uninitialize(&mut engine).is_ok());
    assert!(engine.hooks.is_empty());
}

#[test]
fn hook_operations_while_uninitialized_yield_engine_status() {
    let mut engine = HookEngine::new();
    let mut page = code_page();
    assert_eq!(
        create_hook(&mut engine, &mut page, 0x400010, 0x500000, 0x600000).unwrap_err(),
        Error::EngineStatus {
            status: MH_ERROR_NOT_INITIALIZED,
            operation: HookOperation::Create,
            target: 0x400010,
        }
    );
    assert_eq!(
        enable_hook(&mut engine, Some(0x400010)).unwrap_err(),
        Error::EngineStatus {
            status: MH_ERROR_NOT_INITIALIZED,
            operation: HookOperation::Enable,
            target: 0x400010,
        }
    );
}

#[test]
fn created_then_enabled_then_disabled() {
    let mut engine = HookEngine::new();
    let mut page = code_page();
    assert!(initialize(&mut engine).is_ok());
    let trampoline = create_hook(&mut engine, &mut page, 0x400010, 0x500000, 0x600000).unwrap();
    assert_eq!(trampoline, 0x600000);
    assert_eq!(engine.hooks.len(), 1);
    assert_eq!(engine.hooks[0].state, HookState::Created);
    assert!(enable_hook(&mut engine, Some(0x400010)).is_ok());
    assert_eq!(engine.hooks[0].state, HookState::Enabled);
    assert!(disable_hook(&mut engine, Some(0x400010)).is_ok());
    assert_eq!(engine.hooks[0].state, HookState::Disabled);
}

#[test]
fn enable_without_hook_yields_engine_status_never_a_crash() {
    let mut engine = HookEngine::new();
    assert!(initialize(&mut engine).is_ok());
    assert_eq!(
        enable_hook(&mut engine, Some(0x12345)).unwrap_err(),
        Error::EngineStatus {
            status: MH_ERROR_NOT_CREATED,
            operation: HookOperation::Enable,
            target: 0x12345,
        }
    );
    assert_eq!(
        disable_hook(&mut engine, Some(0x12345)).unwrap_err(),
        Error::EngineStatus {
            status: MH_ERROR_NOT_CREATED,
            operation: HookOperation::Disable,
            target: 0x12345,
        }
    );
}

#[test]
fn double_enable_and_double_disable_are_refused() {
    let mut engine = HookEngine::new();
    let mut page = code_page();
    assert!(initialize(&mut engine).is_ok());
    create_hook(&mut engine, &mut page, 0x400020, 0x500000, 0x600000).unwrap();
    assert_eq!(
        disable_hook(&mut engine, Some(0x400020)).unwrap_err(),
        Error::EngineStatus {
            status: MH_ERROR_DISABLED,
            operation: HookOperation::Disable,
            target: 0x400020,
        }
    );
    assert!(enable_hook(&mut engine, Some(0x400020)).is_ok());
    assert_eq!(
        enable_hook(&mut engine, Some(0x400020)).unwrap_err(),
        Error::EngineStatus {
            status: MH_ERROR_ENABLED,
            operation: HookOperation::Enable,
            target: 0x400020,
        }
    );
}

#[test]
fn duplicate_target_is_refused() {
    let mut engine = HookEngine::new();
    let mut page = code_page();
    assert!(initialize(&mut engine).is_ok());
    create_hook(&mut engine, &mut page, 0x400030, 0x500000, 0x600000).unwrap();
    assert_eq!(
        create_hook(&mut engine, &mut page, 0x400030, 0x500008, 0x600008).unwrap_err(),
        Error::EngineStatus {
            status: MH_ERROR_ALREADY_CREATED,
            operation: HookOperation::Create,
            target: 0x400030,
        }
    );
    assert_eq!(engine.hooks.len(), 1);
}

#[test]
fn bulk_enable_and_disable_toggle_every_hook() {
    let mut engine = HookEngine::new();
    let mut page = code_page();
    assert!(initialize(&mut engine).is_ok());
    create_hook(&mut engine, &mut page, 0x400040, 0x500000, 0x600000).unwrap();
    create_hook(&mut engine, &mut page, 0x400048, 0x500008, 0x600008).unwrap();
    assert!(enable_hooks(&mut engine).is_ok());
    assert!(engine.hooks.iter().all(|h| h.state == HookState::Enabled));
    assert!(disable_hooks(&mut engine).is_ok());
    assert!(engine.hooks.iter().all(|h| h.state == HookState::Disabled));
}

#[test]
fn create_hook_elevates_and_restores_a_non_executable_page() {
    let mut engine = HookEngine::new();
    let mut page = code_page();
    page.protect = PAGE_READONLY;
    assert!(initialize(&mut engine).is_ok());
    create_hook(&mut engine, &mut page, 0x400010, 0x500000, 0x600000).unwrap();
    assert_eq!(page.protect, PAGE_READONLY);
}

#[test]
fn create_hook_restores_protection_even_when_the_engine_refuses() {
    let mut engine = HookEngine::new();
    let mut page = code_page();
    page.protect = PAGE_READONLY;
    assert!(create_hook(&mut engine, &mut page, 0x400010, 0x500000, 0x600000).is_err());
    assert_eq!(page.protect, PAGE_READONLY);
}

#[test]
fn create_hook_on_uncommitted_page_fails_on_protection_call() {
    let mut engine = HookEngine::new();
    let mut page = code_page();
    page.state = 0;
    page.protect = PAGE_READONLY;
    assert!(initialize(&mut engine).is_ok());
    assert_eq!(
        create_hook(&mut engine, &mut page, 0x400010, 0x500000, 0x600000).unwrap_err(),
        Error::OsCallFailed { call: OsCall::VirtualProtect, code: 0, address: 0x400010 }
    );
    assert!(engine.hooks.is_empty());
}

#[test]
fn snapshot_type_is_plain_data() {
    let s = MemorySnapshot { base: 1, size: 2, state: 3, protect: 4 };
    assert_eq!(s, s);
}
