use launchk::entry_status::build_entry_status;
use launchk::entry_status::get_entry_status;
use launchk::entry_status::record_entry_status;
use launchk::entry_status::EntryStatusCache;
use launchk::entry_status::LaunchdEntryStatus;
use launchk::entry_status::ENTRY_INFO_QUERY_TTL;
use launchk::enums::DomainType;
use launchk::enums::SessionType;
use launchk::plist::LaunchdEntryLocation;
use launchk::plist::LaunchdEntryType;
use launchk::plist::LaunchdPlist;
use launchk::xpc_dictionary::XPCDictionary;
use launchk::xpc_error::XPCError;
use launchk::xpc_object::XPCObject;

fn reply(pid: XPCObject, session: XPCObject) -> XPCDictionary {
    let service = XPCObject::Dictionary(vec![
        ("PID".to_string(), pid),
        ("LimitLoadToSessionType".to_string(), session),
    ]);
    XPCDictionary::new(&XPCObject::Dictionary(vec![("service".to_string(), service)])).unwrap()
}

fn plist() -> LaunchdPlist {
    LaunchdPlist {
        entry_type: LaunchdEntryType::Agent,
        entry_location: LaunchdEntryLocation::User,
        plist_path: "/Users/me/Library/LaunchAgents/x.plist".to_string(),
        readonly: false,
    }
}

#[test]
fn ttl_is_fifteen_seconds() {
    assert_eq!(ENTRY_INFO_QUERY_TTL, 15_000);
}

#[test]
fn status_is_built_from_the_reply() {
    let status = build_entry_status(
        Ok((DomainType::Session, reply(XPCObject::Int64(501), XPCObject::from("Aqua")))),
        Some(plist()),
        77,
    );
    assert_eq!(status.pid, 501);
    assert_eq!(status.limit_load_to_session_type, SessionType::Aqua);
    assert_eq!(status.domain, DomainType::Session);
    assert_eq!(status.plist, Some(plist()));
    assert_eq!(status.tick, 77);
}

#[test]
fn failed_lookup_degrades_to_not_running() {
    let status = build_entry_status(Err(XPCError::NotFound), Some(plist()), 5);
    assert_eq!(status.pid, 0);
    assert_eq!(status.limit_load_to_session_type, SessionType::Unknown);
    assert_eq!(status.domain, DomainType::Unknown);
    assert_eq!(status.plist, Some(plist()));
    assert_eq!(status.tick, 5);

    let status = build_entry_status(Err(XPCError::IOError("pipe".to_string())), None, 6);
    assert_eq!(status, LaunchdEntryStatus::unknown(6));
    assert_eq!(status.plist, None);
}

#[test]
fn fields_of_the_wrong_kind_fall_back() {
    let status = build_entry_status(
        Ok((DomainType::System, reply(XPCObject::UInt64(9), XPCObject::Int64(3)))),
        None,
        1,
    );
    assert_eq!(status.pid, 0);
    assert_eq!(status.limit_load_to_session_type, SessionType::Unknown);
    assert_eq!(status.domain, DomainType::System);

    let status = build_entry_status(
        Ok((DomainType::System, reply(XPCObject::Int64(-4), XPCObject::from("Nonsense")))),
        None,
        1,
    );
    assert_eq!(status.pid, -4);
    assert_eq!(status.limit_load_to_session_type, SessionType::Unknown);

    let empty = XPCDictionary::empty();
    let status = build_entry_status(Ok((DomainType::User, empty)), None, 1);
    assert_eq!(status.pid, 0);
    assert_eq!(status.domain, DomainType::User);
}

#[test]
fn second_lookup_within_ttl_is_served_unchanged() {
    let mut cache = EntryStatusCache::new();
    assert_eq!(get_entry_status(&mut cache, "x", 1_000), None);
    let built = record_entry_status(
        &mut cache,
        "x".to_string(),
        Ok((DomainType::System, reply(XPCObject::Int64(12), XPCObject::from("System")))),
        None,
        1_000,
    );
    assert_eq!(built.tick, 1_000);
    assert_eq!(cache.len(), 1);

    let first = get_entry_status(&mut cache, "x", 2_000).unwrap();
    let second = get_entry_status(&mut cache, "x", 16_000).unwrap();
    assert_eq!(first, built);
    assert_eq!(second, built);
    assert_eq!(second.tick, 1_000);
    assert_eq!(cache.len(), 1);
}

#[test]
fn lookup_after_ttl_evicts_and_asks_again_once() {
    let mut cache = EntryStatusCache::new();
    record_entry_status(&mut cache, "x".to_string(), Err(XPCError::NotFound), None, 1_000);
    record_entry_status(&mut cache, "y".to_string(), Err(XPCError::NotFound), None, 1_000);

    assert!(get_entry_status(&mut cache, "x", 16_000).is_some());
    assert_eq!(get_entry_status(&mut cache, "x", 16_001), None);
    assert_eq!(cache.len(), 1);
    assert_eq!(get_entry_status(&mut cache, "x", 16_001), None);

    let rebuilt = record_entry_status(
        &mut cache,
        "x".to_string(),
        Ok((DomainType::System, reply(XPCObject::Int64(3), XPCObject::from("Aqua")))),
        None,
        16_001,
    );
    assert_eq!(cache.len(), 2);
    assert_eq!(get_entry_status(&mut cache, "x", 16_002), Some(rebuilt.clone()));
    assert_eq!(get_entry_status(&mut cache, "x", 31_001), Some(rebuilt));
    assert_eq!(get_entry_status(&mut cache, "x", 31_002), None);
    assert_eq!(get_entry_status(&mut cache, "y", 16_000).unwrap().tick, 1_000);
}

#[test]
fn a_clock_that_went_back_serves_the_entry() {
    let mut cache = EntryStatusCache::new();
    record_entry_status(&mut cache, "x".to_string(), Err(XPCError::NotFound), None, 50_000);
    assert!(get_entry_status(&mut cache, "x", 10).is_some());
    assert!(LaunchdEntryStatus::unknown(50_000).is_fresh(10));
    assert!(LaunchdEntryStatus::unknown(0).is_fresh(15_000));
    assert!(!LaunchdEntryStatus::unknown(0).is_fresh(15_001));
    assert!(LaunchdEntryStatus::unknown(u64::MAX - 1).is_fresh(u64::MAX));
    assert!(!LaunchdEntryStatus::unknown(0).is_fresh(u64::MAX));
}

#[test]
fn a_later_status_supersedes_the_earlier_one() {
    let mut cache = EntryStatusCache::new();
    record_entry_status(&mut cache, "x".to_string(), Err(XPCError::NotFound), None, 1);
    cache.insert("x".to_string(), LaunchdEntryStatus::unknown(9));
    assert_eq!(cache.len(), 1);
    assert_eq!(get_entry_status(&mut cache, "x", 10).unwrap().tick, 9);
    assert_eq!(get_entry_status(&mut cache, "other", 10), None);
    assert_eq!(cache.len(), 1);
}

#[test]
fn unknown_status() {
    let status = LaunchdEntryStatus::unknown(3);
    assert_eq!(status.plist, None);
    assert_eq!(status.limit_load_to_session_type, SessionType::Unknown);
    assert_eq!(status.domain, DomainType::Unknown);
    assert_eq!(status.pid, 0);
    assert_eq!(status.tick, 3);
    assert_eq!(status.clone(), status);
}
