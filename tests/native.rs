use region::{
    check_status, convert_from_native, convert_to_native, is_native_protection, query_result,
    region_from_query, status_result, Error, MemoryInfo, Protection, Region, MEM_COMMIT,
    MEM_FREE, MEM_IMAGE, MEM_MAPPED, MEM_PRIVATE, MEM_RESERVE, PAGE_EXECUTE, PAGE_EXECUTE_READ,
    PAGE_EXECUTE_READWRITE, PAGE_EXECUTE_WRITECOPY, PAGE_GUARD, PAGE_NOACCESS, PAGE_NOCACHE,
    PAGE_READONLY, PAGE_READWRITE, PAGE_WRITECOMBINE, PAGE_WRITECOPY,
};

fn committed(protect: u32, kind: u32) -> MemoryInfo {
    MemoryInfo {
        base_address: 0x10000,
        region_size: 0x3000,
        state: MEM_COMMIT,
        protect,
        kind,
    }
}

#[test]
fn canonical_levels_round_trip() {
    let levels = [
        Protection::none(),
        Protection::read_only(),
        Protection::read_write(),
        Protection::read_execute(),
        Protection::read_write_execute(),
    ];
    for p in levels {
        assert_eq!(convert_from_native(convert_to_native(p)), p);
    }
}

#[test]
fn canonical_levels_map_to_exact_codes() {
    assert_eq!(convert_to_native(Protection::none()), 0x01);
    assert_eq!(convert_to_native(Protection::read_only()), 0x02);
    assert_eq!(convert_to_native(Protection::read_write()), 0x04);
    assert_eq!(convert_to_native(Protection::read_execute()), 0x20);
}

#[test]
fn other_levels_map_to_most_permissive_code() {
    assert_eq!(convert_to_native(Protection::read_write_execute()), PAGE_EXECUTE_READWRITE);
    assert_eq!(convert_to_native(Protection::write_only()), PAGE_EXECUTE_READWRITE);
    assert_eq!(convert_to_native(Protection::execute_only()), PAGE_EXECUTE_READWRITE);
    let write_execute = Protection::write_only().union(Protection::execute_only());
    assert_eq!(convert_to_native(write_execute), 0x40);
}

#[test]
fn every_documented_code_translates() {
    assert_eq!(convert_from_native(PAGE_NOACCESS), Protection::none());
    assert_eq!(convert_from_native(PAGE_READONLY), Protection::read_only());
    assert_eq!(convert_from_native(PAGE_READWRITE), Protection::read_write());
    assert_eq!(convert_from_native(PAGE_WRITECOPY), Protection::read_write());
    assert_eq!(convert_from_native(PAGE_EXECUTE), Protection::execute_only());
    assert_eq!(convert_from_native(PAGE_EXECUTE_READ), Protection::read_execute());
    assert_eq!(convert_from_native(PAGE_EXECUTE_READWRITE), Protection::read_write_execute());
    assert_eq!(convert_from_native(PAGE_EXECUTE_WRITECOPY), Protection::read_write_execute());
}

#[test]
fn documented_codes_other_than_execute_only_give_standard_levels() {
    let standard = [
        Protection::none(),
        Protection::read_only(),
        Protection::read_write(),
        Protection::read_execute(),
        Protection::read_write_execute(),
    ];
    for code in [0x01u32, 0x02, 0x04, 0x08, 0x20, 0x40, 0x80] {
        assert!(standard.contains(&convert_from_native(code)));
    }
}

#[test]
fn modifier_bits_are_ignored() {
    assert_eq!(convert_from_native(PAGE_READWRITE | PAGE_GUARD), Protection::read_write());
    assert_eq!(convert_from_native(PAGE_READONLY | PAGE_NOCACHE), Protection::read_only());
    assert_eq!(
        convert_from_native(PAGE_EXECUTE_READ | PAGE_WRITECOMBINE | PAGE_GUARD),
        Protection::read_execute()
    );
}

#[test]
fn undocumented_codes_are_recognised() {
    assert!(!is_native_protection(0));
    assert!(!is_native_protection(0x03));
    assert!(!is_native_protection(PAGE_GUARD));
    assert!(is_native_protection(PAGE_NOACCESS | PAGE_GUARD));
    assert!(is_native_protection(PAGE_EXECUTE_WRITECOPY));
}

#[test]
fn fresh_allocation_is_readable_and_writable() {
    let info = committed(PAGE_READWRITE, MEM_PRIVATE);
    let region = query_result(0x10010, 48, &info, 0).unwrap();
    assert!(region.protection.contains(Protection::read_write()));
    assert!(!region.guarded);
    assert!(!region.shared);
    assert_eq!(region.base, 0x10000);
    assert_eq!(region.size, 0x3000);
}

#[test]
fn free_address_fails_with_free() {
    let info = MemoryInfo {
        base_address: 0x7000_0000,
        region_size: 0x1000,
        state: MEM_FREE,
        protect: PAGE_NOACCESS,
        kind: 0,
    };
    assert_eq!(query_result(0x7000_0010, 48, &info, 0), Err(Error::Free));
    assert_eq!(region_from_query(0x7000_0010, 48, &info), Err(Error::Free));
}

#[test]
fn failed_query_reports_the_error_code() {
    let info = committed(PAGE_READWRITE, MEM_PRIVATE);
    assert_eq!(query_result(0x10010, 0, &info, 87), Err(Error::SystemCall(87)));
    assert!(matches!(region_from_query(0x10010, 0, &info), Err(Error::SystemCall(_))));
}

#[test]
fn guard_and_sharing_bits_are_reported() {
    let info = committed(PAGE_READWRITE | PAGE_GUARD, MEM_MAPPED);
    let expected = Region {
        base: 0x10000,
        size: 0x3000,
        protection: Protection::read_write(),
        shared: true,
        guarded: true,
    };
    assert_eq!(query_result(0x12fff, 48, &info, 0), Ok(expected));
    let image = committed(PAGE_EXECUTE_WRITECOPY, MEM_IMAGE);
    let region = region_from_query(0x10000, 48, &image).unwrap();
    assert!(region.shared);
    assert!(!region.guarded);
    assert_eq!(region.protection, Protection::read_write_execute());
}

#[test]
fn read_only_change_is_reported_back() {
    let requested = convert_to_native(Protection::read_only());
    let info = committed(requested, MEM_PRIVATE);
    let region = region_from_query(0x10000, 48, &info).unwrap();
    assert_eq!(region.protection, Protection::read_only());
}

#[test]
fn answers_are_checked_against_the_address() {
    let info = committed(PAGE_READWRITE, MEM_PRIVATE);
    assert!(info.is_answer_for(0x10000));
    assert!(info.is_answer_for(0x12fff));
    assert!(!info.is_answer_for(0x13000));
    assert!(!info.is_answer_for(0xffff));
    let reserved = MemoryInfo { state: MEM_RESERVE, protect: 0, ..info };
    assert!(!reserved.is_answer_for(0x10000));
    let free = MemoryInfo { state: MEM_FREE, protect: 0, ..info };
    assert!(free.is_answer_for(0x5));
}

#[test]
fn call_status_becomes_a_result() {
    assert_eq!(status_result(1, 0), Ok(()));
    assert_eq!(status_result(-1, 5), Ok(()));
    assert_eq!(status_result(0, 1453), Err(Error::SystemCall(1453)));
    assert_eq!(check_status(1), Ok(()));
    assert!(matches!(check_status(0), Err(Error::SystemCall(_))));
}

#[test]
fn lock_then_unlock_both_succeed() {
    let locked = status_result(1, 0);
    let unlocked = status_result(1, 0);
    assert_eq!(locked, Ok(()));
    assert_eq!(unlocked, Ok(()));
    let not_locked = status_result(0, 158);
    assert_eq!(not_locked, Err(Error::SystemCall(158)));
}

#[test]
fn protection_set_operations() {
    let rw = Protection::read_only().union(Protection::write_only());
    assert_eq!(rw, Protection::read_write());
    assert!(rw.contains(Protection::read_only()));
    assert!(!rw.contains(Protection::execute_only()));
    assert!(rw.contains(Protection::none()));
    assert!(Protection::none().is_none());
    assert!(!Protection::execute_only().is_none());
    assert_eq!(
        Protection::read_execute().union(Protection::read_write()),
        Protection::read_write_execute()
    );
}
