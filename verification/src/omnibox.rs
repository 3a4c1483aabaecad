use crate::enums::DomainType;
use crate::enums::SessionType;
use crate::job_type_filter::JobTypeFilter;
use vstd::prelude::*;

verus! {

/// What the command line of the interface is being used for.
#[derive(Clone, Copy, Debug, PartialEq, Eq, Structural)]
pub enum OmniboxMode {
    Idle,
    LabelFilter,
    JobTypeFilter,
    CommandFilter,
    CommandConfirm,
}

/// What the command line holds at one moment.
#[derive(Debug, PartialEq, Eq)]
pub struct OmniboxState {
    pub mode: OmniboxMode,
    pub label_filter: String,
    pub command_filter: String,
    pub job_type_filter: JobTypeFilter,
}

/// Why a command could not be carried out, as a message to show.
#[derive(Debug, PartialEq, Eq)]
pub enum OmniboxError {
    CommandError(String),
}

/// What is asked once the user has chosen a domain and a session type.
#[derive(Clone, Copy, Debug, PartialEq, Eq, Structural)]
pub enum PromptThen {
    /// Unload from the domain, then load into it under the session type.
    Reload,
    /// Load into the domain under the session type.
    Load,
    /// Unload from the domain.
    Unload,
    /// Enable in the domain.
    Enable,
    /// Disable in the domain.
    Disable,
}

/// A command of the interface.
#[derive(Debug, PartialEq, Eq)]
pub enum OmniboxCommand {
    /// Several commands, one after the other.
    Chain(Vec<OmniboxCommand>),
    /// Load under a session type, into a domain, with a handle.
    Load(SessionType, DomainType, Option<u64>),
    /// Unload from a domain, with a handle.
    Unload(DomainType, Option<u64>),
    Enable(DomainType),
    Disable(DomainType),
    Reload,
    LoadRequest,
    UnloadRequest,
    EnableRequest,
    DisableRequest,
    Edit,
    ProcInfo,
    Sudo,
    Quit,
    /// Ask the user a question; the commands follow on yes.
    Confirm(String, Vec<OmniboxCommand>),
    /// Ask the user for a domain and, unless the flag is set, for a session
    /// type as well, for the service that is named.
    DomainSessionPrompt(String, bool, PromptThen),
}

/// What happens at the command line.
#[derive(Debug, PartialEq, Eq)]
pub enum OmniboxEvent {
    StateUpdate(OmniboxState),
    Command(OmniboxCommand),
}

/// The commands that follow a choice of domain and session type.
pub open spec fn prompt_commands_of(
    then: PromptThen,
    domain: DomainType,
    session: Option<SessionType>,
) -> Seq<OmniboxCommand> {
    match then {
        PromptThen::Reload => seq![
            OmniboxCommand::Unload(domain, None),
            OmniboxCommand::Load(session->Some_0, domain, None),
        ],
        PromptThen::Load => seq![OmniboxCommand::Load(session->Some_0, domain, None)],
        PromptThen::Unload => seq![OmniboxCommand::Unload(domain, None)],
        PromptThen::Enable => seq![OmniboxCommand::Enable(domain)],
        PromptThen::Disable => seq![OmniboxCommand::Disable(domain)],
    }
}

/// Whether what follows the prompt needs a session type.
pub open spec fn needs_session(then: PromptThen) -> bool {
    then == PromptThen::Reload || then == PromptThen::Load
}

/// The commands that follow once the user has chosen `domain` and `session`.
/// Loading needs a session type.
pub fn prompt_commands(then: PromptThen, domain: DomainType, session: Option<SessionType>) -> (r:
    Vec<OmniboxCommand>)
    requires
        needs_session(then) ==> session is Some,
    ensures
        r@ == prompt_commands_of(then, domain, session),
{
    let mut out: Vec<OmniboxCommand> = Vec::new();
    match then {
        PromptThen::Reload => {
            out.push(OmniboxCommand::Unload(domain, None));
            out.push(OmniboxCommand::Load(session.unwrap(), domain, None));
        },
        PromptThen::Load => {
            out.push(OmniboxCommand::Load(session.unwrap(), domain, None));
        },
        PromptThen::Unload => {
            out.push(OmniboxCommand::Unload(domain, None));
        },
        PromptThen::Enable => {
            out.push(OmniboxCommand::Enable(domain));
        },
        PromptThen::Disable => {
            out.push(OmniboxCommand::Disable(domain));
        },
    }
    assert(out@ =~= prompt_commands_of(then, domain, session));
    out
}

} // verus!
