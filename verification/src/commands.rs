use crate::enums::DomainType;
use crate::enums::SessionType;
use crate::omnibox::OmniboxCommand;
use crate::omnibox::OmniboxError;
use crate::omnibox::OmniboxEvent;
use crate::omnibox::PromptThen;
use crate::plist::LaunchdEntryLocation;
use crate::plist::LaunchdPlist;
use crate::service_list::ServiceListItem;
use crate::service_list::ServiceListView;
use crate::xpc_dictionary::XPCDictionary;
use crate::xpc_error::XPCError;
use vstd::prelude::*;
use vstd::string::StringExecFns;

verus! {

/// Under which user the program runs.
#[derive(Clone, Copy, Debug, PartialEq, Eq, Structural)]
pub enum RunningAs {
    Root,
    User,
    Suid,
}

/// `sudo::check`, which reads the real and the effective user id of the
/// process. Nothing is claimed of what it finds.
#[verifier::external_body]
fn running_as() -> (r: RunningAs) {
    match sudo::check() {
        sudo::RunningAs::Root => RunningAs::Root,
        sudo::RunningAs::User => RunningAs::User,
        sudo::RunningAs::Suid => RunningAs::Suid,
    }
}

/// What has to happen outside for a command, or the answer when nothing has.
#[derive(Debug, PartialEq, Eq)]
pub enum ServiceAction {
    /// Nothing is to be done outside: this is the answer to the command.
    Respond(Option<OmniboxCommand>),
    /// Let the user edit the configuration of the service.
    Edit { name: String, plist: LaunchdPlist },
    /// Ask the daemon to load the job of the configuration file.
    Load { name: String, plist_path: String, domain: DomainType, session: SessionType },
    /// Ask the daemon to unload the job of the configuration file.
    Unload { name: String, plist_path: String, domain: DomainType, session: SessionType },
    /// Ask the daemon to enable the service.
    Enable { name: String, domain: DomainType },
    /// Ask the daemon to disable the service.
    Disable { name: String, domain: DomainType },
    /// Ask the daemon what it knows of the process and show it.
    ProcInfo { pid: i64 },
}

/// Whether a command is one for which the program may have to run as root.
pub open spec fn needs_root(cmd: OmniboxCommand) -> bool {
    cmd is LoadRequest || cmd is UnloadRequest || cmd is DisableRequest || cmd is EnableRequest
        || cmd is ProcInfo || cmd is Edit
}

/// Whether a job with this configuration is out of reach of an ordinary user:
/// it is, unless a configuration is known and lies with the user.
pub open spec fn need_escalate(plist: Option<LaunchdPlist>) -> bool {
    match plist {
        Some(p) => p.entry_location == LaunchdEntryLocation::System || p.entry_location
            == LaunchdEntryLocation::Global,
        None => true,
    }
}

/// Whether `r` is the failure with the message `text`.
pub open spec fn fails_with<T>(r: Result<T, OmniboxError>, text: Seq<char>) -> bool {
    r matches Err(OmniboxError::CommandError(message)) && message@ == text
}

/// Whether `r` answers with a question to the user, followed on yes by `then`.
pub open spec fn asks(
    r: Result<ServiceAction, OmniboxError>,
    text: Seq<char>,
    then: Seq<OmniboxCommand>,
) -> bool {
    r matches Ok(ServiceAction::Respond(Some(OmniboxCommand::Confirm(question, commands))))
        && question@ == text && commands@ == then
}

/// Whether `r` answers with a chain of the commands `then`.
pub open spec fn chains(r: Result<ServiceAction, OmniboxError>, then: Seq<OmniboxCommand>) -> bool {
    r matches Ok(ServiceAction::Respond(Some(OmniboxCommand::Chain(commands)))) && commands@ == then
}

/// Whether `r` answers with the command `command`, which holds no list.
pub open spec fn answers(r: Result<ServiceAction, OmniboxError>, command: OmniboxCommand) -> bool {
    r == Ok::<ServiceAction, OmniboxError>(ServiceAction::Respond(Some(command)))
}

/// Whether `r` is what a command that works on the configuration file comes
/// to, for the row `item`: without a configuration it fails; editing, loading
/// and unloading are each to be done outside, unloading under the session type
/// of the status; any other command has no effect.
pub open spec fn plist_decided(
    cmd: OmniboxCommand,
    item: ServiceListItem,
    r: Result<ServiceAction, OmniboxError>,
) -> bool {
    match item.status.plist {
        None => fails_with(r, "Cannot find plist"@),
        Some(plist) => match cmd {
            OmniboxCommand::Edit => r == Ok::<ServiceAction, OmniboxError>(
                ServiceAction::Edit { name: item.name, plist },
            ),
            OmniboxCommand::Load(session, domain, _) => r == Ok::<ServiceAction, OmniboxError>(
                ServiceAction::Load { name: item.name, plist_path: plist.plist_path, domain, session },
            ),
            OmniboxCommand::Unload(domain, _) => r == Ok::<ServiceAction, OmniboxError>(
                ServiceAction::Unload {
                    name: item.name,
                    plist_path: plist.plist_path,
                    domain,
                    session: item.status.limit_load_to_session_type,
                },
            ),
            _ => r == Ok::<ServiceAction, OmniboxError>(ServiceAction::Respond(None)),
        },
    }
}

/// Whether `r` is what a command comes to, for the row `item`, when the
/// question of root has been settled.
pub open spec fn item_decided(
    cmd: OmniboxCommand,
    item: ServiceListItem,
    r: Result<ServiceAction, OmniboxError>,
) -> bool {
    let session = item.status.limit_load_to_session_type;
    let domain = item.status.domain;
    match cmd {
        OmniboxCommand::Reload => if domain == DomainType::Unknown || session
            == SessionType::Unknown {
            answers(r, OmniboxCommand::DomainSessionPrompt(item.name, false, PromptThen::Reload))
        } else {
            chains(
                r,
                seq![
                    OmniboxCommand::Unload(domain, None),
                    OmniboxCommand::Load(session, domain, None),
                ],
            )
        },
        OmniboxCommand::LoadRequest => answers(
            r,
            OmniboxCommand::DomainSessionPrompt(item.name, false, PromptThen::Load),
        ),
        OmniboxCommand::UnloadRequest => if domain == DomainType::Unknown {
            answers(r, OmniboxCommand::DomainSessionPrompt(item.name, true, PromptThen::Unload))
        } else {
            answers(r, OmniboxCommand::Unload(domain, None))
        },
        OmniboxCommand::EnableRequest => answers(
            r,
            OmniboxCommand::DomainSessionPrompt(item.name, true, PromptThen::Enable),
        ),
        OmniboxCommand::DisableRequest => if domain == DomainType::Unknown {
            answers(r, OmniboxCommand::DomainSessionPrompt(item.name, true, PromptThen::Disable))
        } else {
            chains(r, seq![OmniboxCommand::Disable(domain)])
        },
        OmniboxCommand::Enable(to) => r == Ok::<ServiceAction, OmniboxError>(
            ServiceAction::Enable { name: item.name, domain: to },
        ),
        OmniboxCommand::Disable(to) => r == Ok::<ServiceAction, OmniboxError>(
            ServiceAction::Disable { name: item.name, domain: to },
        ),
        OmniboxCommand::ProcInfo => if item.status.pid == 0 {
            fails_with(r, "No PID for "@ + item.name@)
        } else {
            r == Ok::<ServiceAction, OmniboxError>(ServiceAction::ProcInfo { pid: item.status.pid })
        },
        OmniboxCommand::Edit => plist_decided(cmd, item, r),
        OmniboxCommand::Load(_, _, _) => plist_decided(cmd, item, r),
        OmniboxCommand::Unload(_, _) => plist_decided(cmd, item, r),
        _ => r == Ok::<ServiceAction, OmniboxError>(ServiceAction::Respond(None)),
    }
}

/// Whether `r` is what a command comes to when the row `highlighted` is the
/// active one and the program runs as root or not: without an active row it
/// fails; a command that may need root, for a job out of reach of an ordinary
/// user, asks whether to start again as root when the program is not root; and
/// otherwise it is what `item_decided` says.
pub open spec fn decided(
    cmd: OmniboxCommand,
    highlighted: Option<ServiceListItem>,
    is_root: bool,
    r: Result<ServiceAction, OmniboxError>,
) -> bool {
    match highlighted {
        None => fails_with(r, "Cannot get highlighted row"@),
        Some(item) => if needs_root(cmd) && !is_root && need_escalate(item.status.plist) {
            asks(
                r,
                "This requires root privileges. Sudo and restart?"@,
                seq![OmniboxCommand::Quit, OmniboxCommand::Sudo],
            )
        } else {
            item_decided(cmd, item, r)
        },
    }
}

fn respond(command: OmniboxCommand) -> (r: Result<ServiceAction, OmniboxError>)
    ensures
        r == Ok::<ServiceAction, OmniboxError>(ServiceAction::Respond(Some(command))),
{
    Ok(ServiceAction::Respond(Some(command)))
}

fn failure<T>(text: &str) -> (r: Result<T, OmniboxError>)
    ensures
        fails_with(r, text@),
{
    Err(OmniboxError::CommandError(String::from_str(text)))
}

impl ServiceListView {
    /// The active row, or the failure to have one.
    pub fn get_active_list_item(highlighted: Option<ServiceListItem>) -> (r: Result<
        ServiceListItem,
        OmniboxError,
    >)
        ensures
            match highlighted {
                Some(item) => r == Ok::<ServiceListItem, OmniboxError>(item),
                None => fails_with(r, "Cannot get highlighted row"@),
            },
    {
        match highlighted {
            Some(item) => Ok(item),
            None => failure("Cannot get highlighted row"),
        }
    }

    /// The active row together with the configuration of its job, or the
    /// failure to have an active row.
    pub fn with_active_item_plist(highlighted: Option<ServiceListItem>) -> (r: Result<
        (ServiceListItem, Option<LaunchdPlist>),
        OmniboxError,
    >)
        ensures
            match highlighted {
                Some(item) => r == Ok::<(ServiceListItem, Option<LaunchdPlist>), OmniboxError>(
                    (item, item.status.plist),
                ),
                None => fails_with(r, "Cannot get highlighted row"@),
            },
    {
        match ServiceListView::get_active_list_item(highlighted) {
            Ok(item) => {
                let plist = match &item.status.plist {
                    Some(p) => Some(p.clone()),
                    None => None,
                };
                Ok((item, plist))
            },
            Err(e) => Err(e),
        }
    }

    /// What a command that works on the configuration file of the active row
    /// comes to.
    pub fn handle_plist_command(cmd: OmniboxCommand, highlighted: Option<ServiceListItem>) -> (r:
        Result<ServiceAction, OmniboxError>)
        ensures
            match highlighted {
                Some(item) => plist_decided(cmd, item, r),
                None => fails_with(r, "Cannot get highlighted row"@),
            },
    {
        let (item, plist) = match ServiceListView::with_active_item_plist(highlighted) {
            Ok(found) => found,
            Err(e) => {
                return Err(e);
            },
        };
        let ServiceListItem { name, status, job_type_filter: _ } = item;
        let plist = match plist {
            Some(p) => p,
            None => {
                return failure("Cannot find plist");
            },
        };
        match cmd {
            OmniboxCommand::Edit => Ok(ServiceAction::Edit { name, plist }),
            OmniboxCommand::Load(session, domain, _) => Ok(
                ServiceAction::Load { name, plist_path: plist.plist_path, domain, session },
            ),
            OmniboxCommand::Unload(domain, _) => Ok(
                ServiceAction::Unload {
                    name,
                    plist_path: plist.plist_path,
                    domain,
                    session: status.limit_load_to_session_type,
                },
            ),
            _ => Ok(ServiceAction::Respond(None)),
        }
    }

    /// What a command comes to for the active row, given whether the program
    /// runs as root.
    pub fn decide_command(
        cmd: OmniboxCommand,
        highlighted: Option<ServiceListItem>,
        is_root: bool,
    ) -> (r: Result<ServiceAction, OmniboxError>)
        ensures
            decided(cmd, highlighted, is_root, r),
    {
        let item = match &highlighted {
            Some(item) => item,
            None => {
                return failure("Cannot get highlighted row");
            },
        };
        let need_escalate = match &item.status.plist {
            Some(plist) => match plist.entry_location {
                LaunchdEntryLocation::System => true,
                LaunchdEntryLocation::Global => true,
                LaunchdEntryLocation::User => false,
            },
            None => true,
        };
        let may_need_root = match &cmd {
            OmniboxCommand::LoadRequest => true,
            OmniboxCommand::UnloadRequest => true,
            OmniboxCommand::DisableRequest => true,
            OmniboxCommand::EnableRequest => true,
            OmniboxCommand::ProcInfo => true,
            OmniboxCommand::Edit => true,
            _ => false,
        };
        if may_need_root && !is_root && need_escalate {
            let mut then: Vec<OmniboxCommand> = Vec::new();
            then.push(OmniboxCommand::Quit);
            then.push(OmniboxCommand::Sudo);
            assert(then@ =~= seq![OmniboxCommand::Quit, OmniboxCommand::Sudo]);
            return respond(
                OmniboxCommand::Confirm(
                    String::from_str("This requires root privileges. Sudo and restart?"),
                    then,
                ),
            );
        }
        let session = item.status.limit_load_to_session_type;
        let domain = item.status.domain;
        match cmd {
            OmniboxCommand::Reload => {
                if domain == DomainType::Unknown || session == SessionType::Unknown {
                    respond(
                        OmniboxCommand::DomainSessionPrompt(item.name.clone(), false, PromptThen::Reload),
                    )
                } else {
                    let mut then: Vec<OmniboxCommand> = Vec::new();
                    then.push(OmniboxCommand::Unload(domain, None));
                    then.push(OmniboxCommand::Load(session, domain, None));
                    assert(then@ =~= seq![
                        OmniboxCommand::Unload(domain, None),
                        OmniboxCommand::Load(session, domain, None),
                    ]);
                    respond(OmniboxCommand::Chain(then))
                }
            },
            OmniboxCommand::LoadRequest => respond(
                OmniboxCommand::DomainSessionPrompt(item.name.clone(), false, PromptThen::Load),
            ),
            OmniboxCommand::UnloadRequest => {
                if domain == DomainType::Unknown {
                    respond(
                        OmniboxCommand::DomainSessionPrompt(item.name.clone(), true, PromptThen::Unload),
                    )
                } else {
                    respond(OmniboxCommand::Unload(domain, None))
                }
            },
            OmniboxCommand::EnableRequest => respond(
                OmniboxCommand::DomainSessionPrompt(item.name.clone(), true, PromptThen::Enable),
            ),
            OmniboxCommand::DisableRequest => {
                if domain == DomainType::Unknown {
                    respond(
                        OmniboxCommand::DomainSessionPrompt(item.name.clone(), true, PromptThen::Disable),
                    )
                } else {
                    let mut then: Vec<OmniboxCommand> = Vec::new();
                    then.push(OmniboxCommand::Disable(domain));
                    assert(then@ =~= seq![OmniboxCommand::Disable(domain)]);
                    respond(OmniboxCommand::Chain(then))
                }
            },
            OmniboxCommand::Enable(to) => Ok(
                ServiceAction::Enable { name: item.name.clone(), domain: to },
            ),
            OmniboxCommand::Disable(to) => Ok(
                ServiceAction::Disable { name: item.name.clone(), domain: to },
            ),
            OmniboxCommand::ProcInfo => {
                if item.status.pid == 0 {
                    Err(
                        OmniboxError::CommandError(
                            String::from_str("No PID for ").concat(item.name.as_str()),
                        ),
                    )
                } else {
                    Ok(ServiceAction::ProcInfo { pid: item.status.pid })
                }
            },
            OmniboxCommand::Edit => ServiceListView::handle_plist_command(cmd, highlighted),
            OmniboxCommand::Load(_, _, _) => ServiceListView::handle_plist_command(cmd, highlighted),
            OmniboxCommand::Unload(_, _) => ServiceListView::handle_plist_command(cmd, highlighted),
            _ => Ok(ServiceAction::Respond(None)),
        }
    }

    /// What a command comes to for the active row. Whether the program runs as
    /// root is found out here, and only for a command that may need it.
    pub fn handle_command(cmd: OmniboxCommand, highlighted: Option<ServiceListItem>) -> (r: Result<
        ServiceAction,
        OmniboxError,
    >)
        ensures
            decided(cmd, highlighted, true, r) || decided(cmd, highlighted, false, r),
            !needs_root(cmd) ==> decided(cmd, highlighted, true, r),
    {
        let may_need_root = match &cmd {
            OmniboxCommand::LoadRequest => true,
            OmniboxCommand::UnloadRequest => true,
            OmniboxCommand::DisableRequest => true,
            OmniboxCommand::EnableRequest => true,
            OmniboxCommand::ProcInfo => true,
            OmniboxCommand::Edit => true,
            _ => false,
        };
        let is_root = if may_need_root {
            match running_as() {
                RunningAs::Root => true,
                _ => false,
            }
        } else {
            true
        };
        ServiceListView::decide_command(cmd, highlighted, is_root)
    }

    /// Takes an event of the command line: a new state is taken over, a command
    /// is decided for the active row.
    pub fn on_omnibox(&mut self, event: OmniboxEvent, highlighted: Option<ServiceListItem>) -> (r:
        Result<ServiceAction, OmniboxError>)
        ensures
            match event {
                OmniboxEvent::StateUpdate(state) => {
                    &&& r == Ok::<ServiceAction, OmniboxError>(ServiceAction::Respond(None))
                    &&& final(self).took_over(old(self), state)
                },
                OmniboxEvent::Command(cmd) => {
                    &&& decided(cmd, highlighted, true, r) || decided(cmd, highlighted, false, r)
                    &&& !needs_root(cmd) ==> decided(cmd, highlighted, true, r)
                    &&& final(self).same_as(old(self))
                },
            },
    {
        match event {
            OmniboxEvent::StateUpdate(state) => {
                let _ = self.handle_state_update(state);
                Ok(ServiceAction::Respond(None))
            },
            OmniboxEvent::Command(cmd) => ServiceListView::handle_command(cmd, highlighted),
        }
    }

    /// The answer to a request that was sent to the daemon: nothing to follow
    /// when it went well, the text of the error when it did not.
    pub fn command_response(result: Result<XPCDictionary, XPCError>) -> (r: Result<
        Option<OmniboxCommand>,
        OmniboxError,
    >)
        ensures
            match result {
                Ok(_) => r == Ok::<Option<OmniboxCommand>, OmniboxError>(None),
                Err(e) => fails_with(r, e.spec_message()),
            },
    {
        match result {
            Ok(_) => Ok(None),
            Err(e) => Err(OmniboxError::CommandError(e.message())),
        }
    }

    /// The answer once the user has edited the configuration of `name`: the
    /// question whether to reload it, or the text of what went wrong.
    pub fn edit_response(name: &str, result: Result<(), String>) -> (r: Result<
        Option<OmniboxCommand>,
        OmniboxError,
    >)
        ensures
            match result {
                Ok(_) => r matches Ok(Some(OmniboxCommand::Confirm(question, then))) && question@
                    == "Reload "@ + name@ + "?"@ && then@ == seq![OmniboxCommand::Reload],
                Err(text) => r == Err::<Option<OmniboxCommand>, OmniboxError>(
                    OmniboxError::CommandError(text),
                ),
            },
    {
        match result {
            Ok(_) => {
                let mut then: Vec<OmniboxCommand> = Vec::new();
                then.push(OmniboxCommand::Reload);
                assert(then@ =~= seq![OmniboxCommand::Reload]);
                let question = String::from_str("Reload ").concat(name).concat("?");
                Ok(Some(OmniboxCommand::Confirm(question, then)))
            },
            Err(text) => Err(OmniboxError::CommandError(text)),
        }
    }

    /// The answer once something was shown to the user: nothing to follow, or
    /// the text of what went wrong.
    pub fn shown_response(result: Result<(), String>) -> (r: Result<
        Option<OmniboxCommand>,
        OmniboxError,
    >)
        ensures
            match result {
                Ok(_) => r == Ok::<Option<OmniboxCommand>, OmniboxError>(None),
                Err(text) => r == Err::<Option<OmniboxCommand>, OmniboxError>(
                    OmniboxError::CommandError(text),
                ),
            },
    {
        match result {
            Ok(_) => Ok(None),
            Err(text) => Err(OmniboxError::CommandError(text)),
        }
    }
}

} // verus!
