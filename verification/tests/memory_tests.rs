//! The operable predicates, and the protection-bracketed read/write
//! discipline on the page model, under both backends.

use cheatlib::memory::MEM_COMMIT;
use cheatlib::memory::PAGE_EXECUTE_READWRITE;
use cheatlib::memory::PAGE_NOACCESS;
use cheatlib::memory::PAGE_READONLY;
use cheatlib::memory::PAGE_READWRITE;
use cheatlib::Error;
use cheatlib::MemoryAccessor;
use cheatlib::MemorySnapshot;
use cheatlib::OsCall;
use cheatlib::Page;
use cheatlib::utilities::is_page_readable;
use cheatlib::utilities::is_page_writable;

fn snapshot(state: u32, protect: u32) -> MemorySnapshot {
    MemorySnapshot { base: 0x1000, size: 0x1000, state, protect }
}

#[test]
fn readable_committed_no_access_is_not_operable() {
    assert!(!is_page_readable(&snapshot(MEM_COMMIT, PAGE_NOACCESS)));
}

#[test]
fn readable_committed_read_only_is_operable() {
    assert!(is_page_readable(&snapshot(MEM_COMMIT, PAGE_READONLY)));
}

#[test]
fn readable_committed_read_write_is_operable() {
    assert!(is_page_readable(&snapshot(MEM_COMMIT, PAGE_READWRITE)));
}

#[test]
fn readable_uncommitted_is_never_operable() {
    assert!(!is_page_readable(&snapshot(0, PAGE_NOACCESS)));
    assert!(!is_page_readable(&snapshot(0, PAGE_READONLY)));
    assert!(!is_page_readable(&snapshot(0, PAGE_READWRITE)));
}

#[test]
fn readable_zero_protection_is_not_operable() {
    assert!(!is_page_readable(&snapshot(MEM_COMMIT, 0)));
}

#[test]
fn writable_committed_read_write_is_operable() {
    assert!(is_page_writable(&snapshot(MEM_COMMIT, PAGE_READWRITE)));
    assert!(is_page_writable(&snapshot(MEM_COMMIT, PAGE_EXECUTE_READWRITE)));
}

#[test]
fn writable_other_states_are_not_operable() {
    assert!(!is_page_writable(&snapshot(MEM_COMMIT, PAGE_NOACCESS)));
    assert!(!is_page_writable(&snapshot(MEM_COMMIT, PAGE_READONLY)));
    assert!(!is_page_writable(&snapshot(0, PAGE_NOACCESS)));
    assert!(!is_page_writable(&snapshot(0, PAGE_READONLY)));
    assert!(!is_page_writable(&snapshot(0, PAGE_READWRITE)));
}

fn fresh_page(protect: u32) -> Page {
    Page { base: 0x2000, state: MEM_COMMIT, protect, contents: vec![0u8; 16] }
}

#[test]
fn round_trip_in_process() {
    let acc = MemoryAccessor::in_process();
    let mut page = fresh_page(PAGE_READWRITE);
    let value = vec![0xDEu8, 0xAD, 0xBE, 0xEF];
    assert!(acc.write(&mut page, 0x2004, &value).is_ok());
    let back = acc.read(&mut page, 0x2004, 4).unwrap();
    assert_eq!(back, value);
}

#[test]
fn round_trip_cross_process() {
    let acc = MemoryAccessor::cross_process(0x33);
    let mut page = fresh_page(PAGE_READWRITE);
    let value = vec![1u8, 2, 3];
    assert!(acc.write(&mut page, 0x2000, &value).is_ok());
    let back = acc.read(&mut page, 0x2000, 3).unwrap();
    assert_eq!(back, value);
}

#[test]
fn round_trip_on_protected_page() {
    // Not operable as found: both operations elevate, act, and restore.
    let acc = MemoryAccessor::in_process();
    let mut page = fresh_page(PAGE_NOACCESS);
    let value = vec![0x42u8, 0x43];
    assert!(acc.write(&mut page, 0x2001, &value).is_ok());
    assert_eq!(page.protect, PAGE_NOACCESS);
    let back = acc.read(&mut page, 0x2001, 2).unwrap();
    assert_eq!(back, value);
    assert_eq!(page.protect, PAGE_NOACCESS);
}

#[test]
fn protection_restored_across_repeated_operations() {
    let acc = MemoryAccessor::cross_process(7);
    let mut page = fresh_page(PAGE_READONLY);
    for round in 0..5u8 {
        let before = page.protect;
        assert!(acc.write(&mut page, 0x2002, &vec![round]).is_ok());
        assert_eq!(page.protect, before);
        let back = acc.read(&mut page, 0x2002, 1).unwrap();
        assert_eq!(back, vec![round]);
        assert_eq!(page.protect, before);
    }
}

#[test]
fn read_of_uncommitted_page_fails_on_protection_call() {
    let acc = MemoryAccessor::in_process();
    let mut page = fresh_page(PAGE_READWRITE);
    page.state = 0;
    let r = acc.read(&mut page, 0x2000, 4);
    assert_eq!(
        r.unwrap_err(),
        Error::OsCallFailed { call: OsCall::VirtualProtect, code: 0, address: 0x2000 }
    );
    assert_eq!(page.protect, PAGE_READWRITE);
}

#[test]
fn write_of_uncommitted_page_fails_on_protection_call() {
    let acc = MemoryAccessor::in_process();
    let mut page = fresh_page(PAGE_READONLY);
    page.state = 0;
    let r = acc.write(&mut page, 0x2000, &vec![1u8]);
    assert_eq!(
        r.unwrap_err(),
        Error::OsCallFailed { call: OsCall::VirtualProtect, code: 0, address: 0x2000 }
    );
    assert_eq!(page.protect, PAGE_READONLY);
}

#[test]
fn out_of_range_read_fails_and_restores_protection() {
    let acc = MemoryAccessor::in_process();
    let mut page = fresh_page(PAGE_NOACCESS);
    let r = acc.read(&mut page, 0x2010, 4);
    assert_eq!(
        r.unwrap_err(),
        Error::OsCallFailed { call: OsCall::ReadMemory, code: 0, address: 0x2010 }
    );
    assert_eq!(page.protect, PAGE_NOACCESS);
}

#[test]
fn out_of_range_write_fails_and_restores_protection() {
    let acc = MemoryAccessor::in_process();
    let mut page = fresh_page(PAGE_READONLY);
    let r = acc.write(&mut page, 0x1fff, &vec![1u8]);
    assert_eq!(
        r.unwrap_err(),
        Error::OsCallFailed { call: OsCall::WriteMemory, code: 0, address: 0x1fff }
    );
    assert_eq!(page.protect, PAGE_READONLY);
    assert_eq!(page.contents, vec![0u8; 16]);
}

#[test]
fn write_changes_only_the_written_span() {
    let acc = MemoryAccessor::in_process();
    let mut page = Page {
        base: 0,
        state: MEM_COMMIT,
        protect: PAGE_READWRITE,
        contents: vec![9u8; 8],
    };
    assert!(acc.write(&mut page, 3, &vec![1u8, 2]).is_ok());
    assert_eq!(page.contents, vec![9, 9, 9, 1, 2, 9, 9, 9]);
}

#[test]
fn query_reports_the_page_as_found() {
    let acc = MemoryAccessor::in_process();
    let page = fresh_page(PAGE_READONLY);
    let info = acc.query(&page);
    assert_eq!(info.base, 0x2000);
    assert_eq!(info.size, 16);
    assert_eq!(info.state, MEM_COMMIT);
    assert_eq!(info.protect, PAGE_READONLY);
}
