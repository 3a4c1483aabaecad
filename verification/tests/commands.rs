use launchk::commands::ServiceAction;
use launchk::entry_status::LaunchdEntryStatus;
use launchk::enums::DomainType;
use launchk::enums::SessionType;
use launchk::job_type_filter::JobTypeFilter;
use launchk::omnibox::prompt_commands;
use launchk::omnibox::OmniboxCommand;
use launchk::omnibox::OmniboxError;
use launchk::omnibox::OmniboxEvent;
use launchk::omnibox::OmniboxMode;
use launchk::omnibox::OmniboxState;
use launchk::omnibox::PromptThen;
use launchk::plist::LaunchdEntryLocation;
use launchk::plist::LaunchdEntryType;
use launchk::plist::LaunchdPlist;
use launchk::service_list::ServiceListItem;
use launchk::service_list::ServiceListView;
use launchk::xpc_dictionary::XPCDictionary;
use launchk::xpc_error::XPCError;

fn plist(entry_location: LaunchdEntryLocation) -> LaunchdPlist {
    LaunchdPlist {
        entry_type: LaunchdEntryType::Agent,
        entry_location,
        plist_path: "/Library/LaunchAgents/com.x.plist".to_string(),
        readonly: false,
    }
}

fn item(plist: Option<LaunchdPlist>, session: SessionType, domain: DomainType, pid: i64) -> ServiceListItem {
    ServiceListItem {
        name: "com.x".to_string(),
        status: LaunchdEntryStatus {
            plist,
            limit_load_to_session_type: session,
            domain,
            pid,
            tick: 0,
        },
        job_type_filter: JobTypeFilter { bits: 0 },
    }
}

fn user_item() -> ServiceListItem {
    item(Some(plist(LaunchdEntryLocation::User)), SessionType::Aqua, DomainType::User, 55)
}

fn error(text: &str) -> OmniboxError {
    OmniboxError::CommandError(text.to_string())
}

fn answer(command: OmniboxCommand) -> Result<ServiceAction, OmniboxError> {
    Ok(ServiceAction::Respond(Some(command)))
}

fn prompt(skip_session: bool, then: PromptThen) -> Result<ServiceAction, OmniboxError> {
    answer(OmniboxCommand::DomainSessionPrompt("com.x".to_string(), skip_session, then))
}

fn sudo_question() -> Result<ServiceAction, OmniboxError> {
    answer(OmniboxCommand::Confirm(
        "This requires root privileges. Sudo and restart?".to_string(),
        vec![OmniboxCommand::Quit, OmniboxCommand::Sudo],
    ))
}

#[test]
fn no_active_row() {
    assert_eq!(
        ServiceListView::decide_command(OmniboxCommand::Reload, None, true),
        Err(error("Cannot get highlighted row"))
    );
    assert_eq!(
        ServiceListView::get_active_list_item(None),
        Err(error("Cannot get highlighted row"))
    );
    assert_eq!(
        ServiceListView::with_active_item_plist(None),
        Err(error("Cannot get highlighted row"))
    );
    assert_eq!(
        ServiceListView::handle_plist_command(OmniboxCommand::Edit, None),
        Err(error("Cannot get highlighted row"))
    );
    assert_eq!(
        ServiceListView::handle_command(OmniboxCommand::Quit, None),
        Err(error("Cannot get highlighted row"))
    );
}

#[test]
fn active_row_and_its_configuration() {
    assert_eq!(ServiceListView::get_active_list_item(Some(user_item())), Ok(user_item()));
    assert_eq!(
        ServiceListView::with_active_item_plist(Some(user_item())),
        Ok((user_item(), Some(plist(LaunchdEntryLocation::User))))
    );
}

#[test]
fn root_is_asked_for_where_it_is_needed() {
    let requests = || {
        vec![
            OmniboxCommand::LoadRequest,
            OmniboxCommand::UnloadRequest,
            OmniboxCommand::DisableRequest,
            OmniboxCommand::EnableRequest,
            OmniboxCommand::ProcInfo,
            OmniboxCommand::Edit,
        ]
    };
    for location in [LaunchdEntryLocation::System, LaunchdEntryLocation::Global] {
        for cmd in requests() {
            let row = item(Some(plist(location)), SessionType::Aqua, DomainType::System, 1);
            assert_eq!(ServiceListView::decide_command(cmd, Some(row), false), sudo_question());
        }
    }
    for cmd in requests() {
        let row = item(None, SessionType::Aqua, DomainType::System, 1);
        assert_eq!(ServiceListView::decide_command(cmd, Some(row), false), sudo_question());
    }
    for cmd in requests() {
        assert_ne!(ServiceListView::decide_command(cmd, Some(user_item()), false), sudo_question());
    }
    for cmd in requests() {
        let row = item(Some(plist(LaunchdEntryLocation::System)), SessionType::Aqua, DomainType::System, 1);
        assert_ne!(ServiceListView::decide_command(cmd, Some(row), true), sudo_question());
    }
    let row = item(None, SessionType::Aqua, DomainType::System, 1);
    assert_ne!(
        ServiceListView::decide_command(OmniboxCommand::Reload, Some(row), false),
        sudo_question()
    );
}

#[test]
fn reload() {
    assert_eq!(
        ServiceListView::decide_command(OmniboxCommand::Reload, Some(user_item()), false),
        answer(OmniboxCommand::Chain(vec![
            OmniboxCommand::Unload(DomainType::User, None),
            OmniboxCommand::Load(SessionType::Aqua, DomainType::User, None),
        ]))
    );
    let row = item(None, SessionType::Aqua, DomainType::Unknown, 0);
    assert_eq!(
        ServiceListView::decide_command(OmniboxCommand::Reload, Some(row), true),
        prompt(false, PromptThen::Reload)
    );
    let row = item(None, SessionType::Unknown, DomainType::System, 0);
    assert_eq!(
        ServiceListView::decide_command(OmniboxCommand::Reload, Some(row), true),
        prompt(false, PromptThen::Reload)
    );
}

#[test]
fn requests_turn_into_prompts_or_commands() {
    let known = || Some(user_item());
    let unknown = || Some(item(Some(plist(LaunchdEntryLocation::User)), SessionType::Aqua, DomainType::Unknown, 0));

    assert_eq!(
        ServiceListView::decide_command(OmniboxCommand::LoadRequest, known(), true),
        prompt(false, PromptThen::Load)
    );
    assert_eq!(
        ServiceListView::decide_command(OmniboxCommand::UnloadRequest, known(), true),
        answer(OmniboxCommand::Unload(DomainType::User, None))
    );
    assert_eq!(
        ServiceListView::decide_command(OmniboxCommand::UnloadRequest, unknown(), true),
        prompt(true, PromptThen::Unload)
    );
    assert_eq!(
        ServiceListView::decide_command(OmniboxCommand::EnableRequest, known(), true),
        prompt(true, PromptThen::Enable)
    );
    assert_eq!(
        ServiceListView::decide_command(OmniboxCommand::DisableRequest, known(), true),
        answer(OmniboxCommand::Chain(vec![OmniboxCommand::Disable(DomainType::User)]))
    );
    assert_eq!(
        ServiceListView::decide_command(OmniboxCommand::DisableRequest, unknown(), true),
        prompt(true, PromptThen::Disable)
    );
}

#[test]
fn commands_for_the_daemon() {
    assert_eq!(
        ServiceListView::decide_command(OmniboxCommand::Enable(DomainType::System), Some(user_item()), false),
        Ok(ServiceAction::Enable { name: "com.x".to_string(), domain: DomainType::System })
    );
    assert_eq!(
        ServiceListView::decide_command(OmniboxCommand::Disable(DomainType::User), Some(user_item()), false),
        Ok(ServiceAction::Disable { name: "com.x".to_string(), domain: DomainType::User })
    );
    assert_eq!(
        ServiceListView::decide_command(OmniboxCommand::ProcInfo, Some(user_item()), false),
        Ok(ServiceAction::ProcInfo { pid: 55 })
    );
    let stopped = item(Some(plist(LaunchdEntryLocation::User)), SessionType::Aqua, DomainType::User, 0);
    assert_eq!(
        ServiceListView::decide_command(OmniboxCommand::ProcInfo, Some(stopped), false),
        Err(error("No PID for com.x"))
    );
}

#[test]
fn commands_on_the_configuration() {
    let path = "/Library/LaunchAgents/com.x.plist".to_string();
    assert_eq!(
        ServiceListView::decide_command(OmniboxCommand::Edit, Some(user_item()), false),
        Ok(ServiceAction::Edit { name: "com.x".to_string(), plist: plist(LaunchdEntryLocation::User) })
    );
    assert_eq!(
        ServiceListView::decide_command(
            OmniboxCommand::Load(SessionType::Background, DomainType::System, Some(9)),
            Some(user_item()),
            false
        ),
        Ok(ServiceAction::Load {
            name: "com.x".to_string(),
            plist_path: path.clone(),
            domain: DomainType::System,
            session: SessionType::Background,
        })
    );
    assert_eq!(
        ServiceListView::decide_command(
            OmniboxCommand::Unload(DomainType::System, None),
            Some(user_item()),
            false
        ),
        Ok(ServiceAction::Unload {
            name: "com.x".to_string(),
            plist_path: path,
            domain: DomainType::System,
            session: SessionType::Aqua,
        })
    );
    let bare = || Some(item(None, SessionType::Aqua, DomainType::User, 1));
    assert_eq!(
        ServiceListView::decide_command(OmniboxCommand::Edit, bare(), true),
        Err(error("Cannot find plist"))
    );
    assert_eq!(
        ServiceListView::decide_command(OmniboxCommand::Unload(DomainType::User, None), bare(), false),
        Err(error("Cannot find plist"))
    );
    assert_eq!(
        ServiceListView::handle_plist_command(OmniboxCommand::Reload, Some(user_item())),
        Ok(ServiceAction::Respond(None))
    );
    assert_eq!(
        ServiceListView::handle_plist_command(OmniboxCommand::Reload, bare()),
        Err(error("Cannot find plist"))
    );
}

#[test]
fn other_commands_have_no_effect() {
    for cmd in [
        OmniboxCommand::Quit,
        OmniboxCommand::Sudo,
        OmniboxCommand::Chain(vec![OmniboxCommand::Reload]),
        OmniboxCommand::Confirm("q".to_string(), vec![]),
        OmniboxCommand::DomainSessionPrompt("n".to_string(), true, PromptThen::Enable),
    ] {
        assert_eq!(
            ServiceListView::decide_command(cmd, Some(user_item()), false),
            Ok(ServiceAction::Respond(None))
        );
    }
}

#[test]
fn handle_command_agrees_with_one_of_the_two_decisions() {
    let requests = || {
        vec![
            OmniboxCommand::LoadRequest,
            OmniboxCommand::ProcInfo,
            OmniboxCommand::Edit,
            OmniboxCommand::Reload,
            OmniboxCommand::Enable(DomainType::User),
        ]
    };
    let row = || Some(item(Some(plist(LaunchdEntryLocation::System)), SessionType::Aqua, DomainType::System, 3));
    for (cmd, (as_root, as_user)) in requests().into_iter().zip(
        requests()
            .into_iter()
            .map(|c| ServiceListView::decide_command(c, row(), true))
            .zip(requests().into_iter().map(|c| ServiceListView::decide_command(c, row(), false))),
    ) {
        let handled = ServiceListView::handle_command(cmd, row());
        assert!(handled == as_root || handled == as_user);
    }
    assert_eq!(
        ServiceListView::handle_command(OmniboxCommand::Reload, row()),
        answer(OmniboxCommand::Chain(vec![
            OmniboxCommand::Unload(DomainType::System, None),
            OmniboxCommand::Load(SessionType::Aqua, DomainType::System, None),
        ]))
    );
}

#[test]
fn events_of_the_command_line() {
    let mut view = ServiceListView::new();
    let update = OmniboxEvent::StateUpdate(OmniboxState {
        mode: OmniboxMode::LabelFilter,
        label_filter: "abc".to_string(),
        command_filter: String::new(),
        job_type_filter: JobTypeFilter { bits: 0 },
    });
    assert_eq!(view.on_omnibox(update, None), Ok(ServiceAction::Respond(None)));
    assert_eq!(view.label_filter(), "abc");

    let command = OmniboxEvent::Command(OmniboxCommand::Disable(DomainType::System));
    assert_eq!(
        view.on_omnibox(command, Some(user_item())),
        Ok(ServiceAction::Disable { name: "com.x".to_string(), domain: DomainType::System })
    );
    assert_eq!(view.label_filter(), "abc");
}

#[test]
fn answers_after_the_work_outside() {
    assert_eq!(ServiceListView::command_response(Ok(XPCDictionary::empty())), Ok(None));
    assert_eq!(
        ServiceListView::command_response(Err(XPCError::CommandError("113: no such service".to_string()))),
        Err(error("113: no such service"))
    );
    assert_eq!(
        ServiceListView::command_response(Err(XPCError::NotFound)),
        Err(error("not found"))
    );
    assert_eq!(
        ServiceListView::edit_response("com.x", Ok(())),
        Ok(Some(OmniboxCommand::Confirm(
            "Reload com.x?".to_string(),
            vec![OmniboxCommand::Reload]
        )))
    );
    assert_eq!(
        ServiceListView::edit_response("com.x", Err("editor failed".to_string())),
        Err(error("editor failed"))
    );
    assert_eq!(ServiceListView::shown_response(Ok(())), Ok(None));
    assert_eq!(
        ServiceListView::shown_response(Err("no pager".to_string())),
        Err(error("no pager"))
    );
}

#[test]
fn commands_after_a_prompt() {
    let d = DomainType::User;
    let s = Some(SessionType::Aqua);
    assert_eq!(
        prompt_commands(PromptThen::Reload, d, s),
        vec![OmniboxCommand::Unload(d, None), OmniboxCommand::Load(SessionType::Aqua, d, None)]
    );
    assert_eq!(
        prompt_commands(PromptThen::Load, d, s),
        vec![OmniboxCommand::Load(SessionType::Aqua, d, None)]
    );
    assert_eq!(prompt_commands(PromptThen::Unload, d, None), vec![OmniboxCommand::Unload(d, None)]);
    assert_eq!(prompt_commands(PromptThen::Enable, d, None), vec![OmniboxCommand::Enable(d)]);
    assert_eq!(prompt_commands(PromptThen::Disable, d, s), vec![OmniboxCommand::Disable(d)]);
}
