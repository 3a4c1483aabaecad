use launchk::enums::DomainType;
use launchk::enums::SessionType;
use launchk::job_type_filter::JobTypeFilter;
use launchk::job_type_filter::AGENT;
use launchk::job_type_filter::DAEMON;
use launchk::job_type_filter::GLOBAL;
use launchk::job_type_filter::LOADED;
use launchk::job_type_filter::SYSTEM;
use launchk::job_type_filter::USER;
use launchk::plist::LaunchdEntryLocation;
use launchk::plist::LaunchdEntryType;
use launchk::plist::LaunchdPlist;
use launchk::xpc_object::XPCObject;

#[test]
fn domain_codes() {
    let all = [
        (DomainType::System, 1),
        (DomainType::User, 2),
        (DomainType::UserLogin, 3),
        (DomainType::Session, 4),
        (DomainType::PID, 5),
        (DomainType::RequestorUserDomain, 6),
        (DomainType::RequestorDomain, 7),
        (DomainType::Unknown, 0),
    ];
    for (domain, code) in all {
        assert_eq!(domain.code(), code);
        assert_eq!(DomainType::from_code(code), domain);
    }
    assert_eq!(DomainType::from_code(8), DomainType::Unknown);
    assert_eq!(DomainType::from_code(u64::MAX), DomainType::Unknown);
}

#[test]
fn session_names() {
    let all = [
        (SessionType::Aqua, "Aqua"),
        (SessionType::StandardIO, "StandardIO"),
        (SessionType::Background, "Background"),
        (SessionType::LoginWindow, "LoginWindow"),
        (SessionType::System, "System"),
    ];
    for (session, name) in all {
        assert_eq!(session.name(), name);
        assert_eq!(SessionType::from_name(name), session);
        assert_eq!(SessionType::of_object(&XPCObject::from(name)), session);
    }
    assert_eq!(SessionType::Unknown.name(), "Unknown");
    assert_eq!(SessionType::from_name("aqua"), SessionType::Unknown);
    assert_eq!(SessionType::from_name(""), SessionType::Unknown);
    assert_eq!(SessionType::of_object(&XPCObject::Int64(1)), SessionType::Unknown);
    assert_eq!(
        SessionType::of_object(&XPCObject::String(vec![0xff])),
        SessionType::Unknown
    );
}

#[test]
fn filter_bits() {
    assert_eq!((SYSTEM, GLOBAL, USER, AGENT, DAEMON, LOADED), (2, 4, 8, 16, 32, 64));
    assert_eq!(JobTypeFilter::launchk_default(), JobTypeFilter { bits: 64 });
    assert_eq!(JobTypeFilter::loaded(), JobTypeFilter { bits: 64 });
    assert_eq!(JobTypeFilter::default(), JobTypeFilter { bits: 0 });
    assert!(JobTypeFilter::empty().is_empty());
    assert!(!JobTypeFilter::loaded().is_empty());

    let both = JobTypeFilter { bits: USER }.union(JobTypeFilter { bits: AGENT });
    assert_eq!(both.bits, 24);
    assert!(both.contains(JobTypeFilter { bits: USER }));
    assert!(both.contains(JobTypeFilter::empty()));
    assert!(!both.contains(JobTypeFilter { bits: USER | LOADED }));
    assert!(both.intersects(JobTypeFilter { bits: USER | LOADED }));
    assert!(!both.intersects(JobTypeFilter::loaded()));

    let mut toggled = both;
    toggled.toggle(JobTypeFilter { bits: USER | LOADED });
    assert_eq!(toggled.bits, AGENT | LOADED);
}

#[test]
fn filter_of_a_configuration() {
    let mut plist = LaunchdPlist {
        entry_type: LaunchdEntryType::Daemon,
        entry_location: LaunchdEntryLocation::System,
        plist_path: "/System/Library/LaunchDaemons/a.plist".to_string(),
        readonly: true,
    };
    assert_eq!(plist.job_type_filter(false).bits, SYSTEM | DAEMON);
    assert_eq!(plist.job_type_filter(true).bits, SYSTEM | DAEMON | LOADED);
    plist.entry_location = LaunchdEntryLocation::Global;
    plist.entry_type = LaunchdEntryType::Agent;
    assert_eq!(plist.job_type_filter(true).bits, GLOBAL | AGENT | LOADED);
    plist.entry_location = LaunchdEntryLocation::User;
    assert_eq!(plist.job_type_filter(false).bits, USER | AGENT);
    assert_eq!(plist.clone(), plist);
}
