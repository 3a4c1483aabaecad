use launchk::entry_status::LaunchdEntryStatus;
use launchk::enums::DomainType;
use launchk::enums::SessionType;
use launchk::job_type_filter::JobTypeFilter;
use launchk::job_type_filter::AGENT;
use launchk::job_type_filter::DAEMON;
use launchk::job_type_filter::LOADED;
use launchk::job_type_filter::SYSTEM;
use launchk::job_type_filter::USER;
use launchk::omnibox::OmniboxMode;
use launchk::omnibox::OmniboxState;
use launchk::plist::LaunchdEntryLocation;
use launchk::plist::LaunchdEntryType;
use launchk::plist::LaunchdPlist;
use launchk::service_list::contains_label;
use launchk::service_list::insert_row;
use launchk::service_list::poll_running_jobs;
use launchk::service_list::row_before;
use launchk::service_list::ServiceListItem;
use launchk::service_list::ServiceListView;
use launchk::xpc_error::XPCError;
use launchk::xpc_object::XPCObject;

fn labels(names: &[&str]) -> Vec<String> {
    names.iter().map(|n| n.to_string()).collect()
}

fn state(mode: OmniboxMode, label_filter: &str, bits: u32) -> OmniboxState {
    OmniboxState {
        mode,
        label_filter: label_filter.to_string(),
        command_filter: String::new(),
        job_type_filter: JobTypeFilter { bits },
    }
}

fn status(plist: Option<LaunchdPlist>, pid: i64) -> LaunchdEntryStatus {
    LaunchdEntryStatus {
        plist,
        limit_load_to_session_type: SessionType::Unknown,
        domain: DomainType::Unknown,
        pid,
        tick: 0,
    }
}

fn plist(entry_type: LaunchdEntryType, entry_location: LaunchdEntryLocation) -> LaunchdPlist {
    LaunchdPlist { entry_type, entry_location, plist_path: "/p".to_string(), readonly: false }
}

fn row(name: &str, bits: u32) -> ServiceListItem {
    ServiceListItem {
        name: name.to_string(),
        status: status(None, 0),
        job_type_filter: JobTypeFilter { bits },
    }
}

fn names(rows: &[ServiceListItem]) -> Vec<&str> {
    rows.iter().map(|r| r.name.as_str()).collect()
}

#[test]
fn new_view_shows_loaded_jobs() {
    let view = ServiceListView::new();
    assert!(view.running_jobs().is_empty());
    assert_eq!(view.label_filter(), "");
    assert_eq!(view.job_type_filter(), JobTypeFilter { bits: LOADED });
}

#[test]
fn state_update_follows_the_mode() {
    let mut view = ServiceListView::new();
    assert_eq!(view.handle_state_update(state(OmniboxMode::LabelFilter, "spot", 2)), Ok(None));
    assert_eq!(view.label_filter(), "spot");
    assert_eq!(view.job_type_filter().bits, LOADED);

    assert_eq!(view.handle_state_update(state(OmniboxMode::JobTypeFilter, "other", USER)), Ok(None));
    assert_eq!(view.label_filter(), "spot");
    assert_eq!(view.job_type_filter().bits, USER);

    assert_eq!(view.handle_state_update(state(OmniboxMode::CommandFilter, "x", 0)), Ok(None));
    assert_eq!(view.handle_state_update(state(OmniboxMode::CommandConfirm, "y", 0)), Ok(None));
    assert_eq!(view.label_filter(), "spot");
    assert_eq!(view.job_type_filter().bits, USER);

    assert_eq!(view.handle_state_update(state(OmniboxMode::Idle, "", SYSTEM)), Ok(None));
    assert_eq!(view.label_filter(), "");
    assert_eq!(view.job_type_filter().bits, SYSTEM);
}

#[test]
fn running_jobs_are_a_set() {
    let mut view = ServiceListView::new();
    view.set_running_jobs(labels(&["b", "a", "b", "c", "a"]));
    let mut running = view.running_jobs().clone();
    running.sort();
    assert_eq!(running, labels(&["a", "b", "c"]));
    assert!(view.is_running("a"));
    assert!(!view.is_running("d"));
    view.set_running_jobs(labels(&[]));
    assert!(!view.is_running("a"));
    assert!(contains_label(&labels(&["x", "y"]), "y"));
    assert!(!contains_label(&labels(&["x", "y"]), "z"));
}

#[test]
fn poll_takes_the_listing() {
    let mut view = ServiceListView::new();
    view.handle_state_update(state(OmniboxMode::Idle, "f", USER)).unwrap();
    let services = XPCObject::Dictionary(vec![
        ("com.a".to_string(), XPCObject::Dictionary(vec![])),
        ("com.b".to_string(), XPCObject::Dictionary(vec![])),
    ]);
    let reply = Ok(XPCObject::Dictionary(vec![("services".to_string(), services)]));
    poll_running_jobs(&mut view, &reply);
    assert!(view.is_running("com.a"));
    assert!(view.is_running("com.b"));
    assert_eq!(view.running_jobs().len(), 2);
    assert_eq!(view.label_filter(), "f");
    assert_eq!(view.job_type_filter().bits, USER);

    poll_running_jobs(&mut view, &Err(XPCError::NotFound));
    assert!(view.running_jobs().is_empty());
}

#[test]
fn candidate_labels_chain_and_filter() {
    let mut view = ServiceListView::new();
    view.set_running_jobs(labels(&["com.run.only", "com.both", "org.Spot.run"]));
    let configured = labels(&["com.both", "com.apple.Spotlight", "com.plist.only"]);

    let all = view.candidate_labels(&configured);
    assert_eq!(all[..3], configured[..]);
    let mut only_running = all[3..].to_vec();
    only_running.sort();
    assert_eq!(only_running, labels(&["com.run.only", "org.Spot.run"]));

    view.handle_state_update(state(OmniboxMode::LabelFilter, "SPOT", 0)).unwrap();
    assert_eq!(
        view.candidate_labels(&configured),
        labels(&["com.apple.Spotlight", "org.Spot.run"])
    );
    assert!(view.passes_name_filter("a.spot.b"));
    assert!(!view.passes_name_filter("a.spo"));

    view.handle_state_update(state(OmniboxMode::LabelFilter, "nothing", 0)).unwrap();
    assert!(view.candidate_labels(&configured).is_empty());
}

#[test]
fn rows_are_filtered_and_sorted() {
    let mut view = ServiceListView::new();
    view.handle_state_update(state(OmniboxMode::Idle, "", 0)).unwrap();
    view.set_running_jobs(labels(&["com.b", "com.d"]));
    let entries = vec![
        ("com.d".to_string(), status(None, 4)),
        ("com.c".to_string(), status(Some(plist(LaunchdEntryType::Agent, LaunchdEntryLocation::User)), 0)),
        ("com.b".to_string(), status(Some(plist(LaunchdEntryType::Daemon, LaunchdEntryLocation::System)), 2)),
        ("com.a".to_string(), status(None, 0)),
    ];

    let rows = view.present_services(&entries);
    assert_eq!(names(&rows), vec!["com.a", "com.c", "com.b", "com.d"]);
    assert_eq!(rows[0].job_type_filter.bits, 0);
    assert_eq!(rows[1].job_type_filter.bits, USER | AGENT);
    assert_eq!(rows[2].job_type_filter.bits, SYSTEM | DAEMON | LOADED);
    assert_eq!(rows[3].job_type_filter.bits, LOADED);
    assert_eq!(rows[2].status, entries[2].1);
    assert_eq!(rows[3].status.pid, 4);

    view.handle_state_update(state(OmniboxMode::JobTypeFilter, "", LOADED)).unwrap();
    assert_eq!(names(&view.present_services(&entries)), vec!["com.b", "com.d"]);

    view.handle_state_update(state(OmniboxMode::JobTypeFilter, "", USER | AGENT)).unwrap();
    assert_eq!(names(&view.present_services(&entries)), vec!["com.c"]);

    view.handle_state_update(state(OmniboxMode::JobTypeFilter, "", SYSTEM | LOADED)).unwrap();
    assert_eq!(names(&view.present_services(&entries)), vec!["com.b"]);

    view.handle_state_update(state(OmniboxMode::Idle, ".C", 0)).unwrap();
    assert_eq!(names(&view.present_services(&entries)), vec!["com.c"]);
    assert!(view.present_entry(&entries[0]).is_none());
    assert_eq!(view.present_entry(&entries[1]).unwrap().name, "com.c");

    view.handle_state_update(state(OmniboxMode::Idle, "", USER | DAEMON)).unwrap();
    assert!(view.present_services(&entries).is_empty());
    assert!(view.present_services(&vec![]).is_empty());
}

#[test]
fn rows_agree_with_a_std_sort() {
    let mut view = ServiceListView::new();
    view.handle_state_update(state(OmniboxMode::Idle, "", 0)).unwrap();
    view.set_running_jobs(labels(&["m", "B", "zz", "a"]));
    let all = ["q", "m", "a", "Z", "zz", "B", "b", "", "ab", "é"];
    let entries: Vec<(String, LaunchdEntryStatus)> =
        all.iter().map(|n| (n.to_string(), status(None, 0))).collect();

    let rows = view.present_services(&entries);

    let mut expected: Vec<(bool, &str)> = all.iter().map(|n| (view.is_running(n), *n)).collect();
    expected.sort();
    let got: Vec<(bool, &str)> =
        rows.iter().map(|r| (r.job_type_filter.bits & LOADED != 0, r.name.as_str())).collect();
    assert_eq!(got, expected);
}

#[test]
fn rows_equal_in_order_keep_their_places() {
    let mut view = ServiceListView::new();
    view.handle_state_update(state(OmniboxMode::Idle, "", 0)).unwrap();
    let entries = vec![
        ("same".to_string(), status(None, 1)),
        ("other".to_string(), status(None, 9)),
        ("same".to_string(), status(None, 2)),
        ("same".to_string(), status(None, 3)),
    ];
    let rows = view.present_services(&entries);
    let pids: Vec<i64> = rows.iter().map(|r| r.status.pid).collect();
    assert_eq!(pids, vec![9, 1, 2, 3]);
}

#[test]
fn order_of_two_rows() {
    assert!(row_before(&row("z", 0), &row("a", LOADED)));
    assert!(!row_before(&row("a", LOADED), &row("z", 0)));
    assert!(row_before(&row("a", LOADED), &row("b", LOADED | USER)));
    assert!(!row_before(&row("b", 0), &row("a", USER)));
    assert!(!row_before(&row("a", 0), &row("a", 0)));

    let mut rows = vec![row("b", 0), row("d", 0), row("a", LOADED)];
    insert_row(&mut rows, row("c", 0));
    insert_row(&mut rows, row("A", LOADED));
    insert_row(&mut rows, row("zz", LOADED));
    insert_row(&mut rows, row("a", 0));
    assert_eq!(names(&rows), vec!["a", "b", "c", "d", "A", "a", "zz"]);
}
