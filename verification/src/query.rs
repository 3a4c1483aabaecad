use crate::enums::DomainType;
use crate::enums::SessionType;
use crate::xpc_dictionary::labels_of;
use crate::xpc_dictionary::mapping_of;
use crate::xpc_dictionary::XPCDictionary;
use crate::xpc_error::XPCError;
use crate::xpc_object::values_of;
use crate::xpc_object::XPCObject;
use crate::xpc_object::XPCValue;
use crate::xpc_shmem::XPCShmem;
use vstd::prelude::*;
use vstd::string::StringExecFns;
use vstd::utf8::encode_utf8;

verus! {

/// The subsystem of the daemon that manages services.
pub const SUBSYSTEM: u64 = 3;

/// The routine that lists services, or one service when a name is given.
pub const ROUTINE_LIST: u64 = 815;

/// The routine that loads the jobs of configuration files.
pub const ROUTINE_LOAD: u64 = 800;

/// The routine that unloads the jobs of configuration files.
pub const ROUTINE_UNLOAD: u64 = 801;

/// The routine that enables services.
pub const ROUTINE_ENABLE: u64 = 808;

/// The routine that disables services.
pub const ROUTINE_DISABLE: u64 = 809;

/// The kind of message that a call of a routine is.
pub const MESSAGE_TYPE: u64 = 1;

/// What every request to the daemon holds: the kind of message, the handle of
/// the target, which is 0 unless one is named, the subsystem and the routine,
/// the flag of the legacy interface, and the bootstrap port of the caller as a
/// send right.
pub open spec fn base_message(routine: u64, handle: u64, bootstrap_port: u32) -> Map<
    Seq<char>,
    XPCValue,
> {
    Map::<Seq<char>, XPCValue>::empty().insert("type"@, XPCValue::UInt64(MESSAGE_TYPE)).insert(
        "handle"@,
        XPCValue::UInt64(handle),
    ).insert("subsystem"@, XPCValue::UInt64(SUBSYSTEM)).insert(
        "routine"@,
        XPCValue::UInt64(routine),
    ).insert("legacy"@, XPCValue::Bool(true)).insert(
        "domain-port"@,
        XPCValue::MachSend(bootstrap_port),
    )
}

/// A request with the domain that it addresses, by the number of the domain.
pub open spec fn in_domain(message: Map<Seq<char>, XPCValue>, domain: DomainType) -> Map<
    Seq<char>,
    XPCValue,
> {
    message.insert("domain"@, XPCValue::UInt64(domain.spec_code()))
}

/// A request with the session type that it addresses, by its name, where one
/// is given.
pub open spec fn in_session(message: Map<Seq<char>, XPCValue>, session: Option<SessionType>) -> Map<
    Seq<char>,
    XPCValue,
> {
    match session {
        Some(s) => message.insert("session"@, XPCValue::Text(encode_utf8(s.spec_name()))),
        None => message,
    }
}

/// The request that lists all services: the listing routine with no name.
pub open spec fn list_all_message(bootstrap_port: u32) -> Map<Seq<char>, XPCValue> {
    base_message(ROUTINE_LIST, 0, bootstrap_port)
}

/// The request that looks one service up in one domain and session type.
pub open spec fn find_message(
    label: Seq<char>,
    domain: DomainType,
    session: SessionType,
    handle: u64,
    bootstrap_port: u32,
) -> Map<Seq<char>, XPCValue> {
    in_session(
        in_domain(
            base_message(ROUTINE_LIST, handle, bootstrap_port).insert(
                "name"@,
                XPCValue::Text(encode_utf8(label)),
            ),
            domain,
        ),
        Some(session),
    )
}

fn base_request(routine: u64, handle: u64, bootstrap_port: u32) -> (r: XPCDictionary)
    ensures
        r@ == base_message(routine, handle, bootstrap_port),
{
    let mut message = XPCDictionary::empty();
    message.insert(String::from_str("type"), XPCObject::from(MESSAGE_TYPE));
    message.insert(String::from_str("handle"), XPCObject::from(handle));
    message.insert(String::from_str("subsystem"), XPCObject::from(SUBSYSTEM));
    message.insert(String::from_str("routine"), XPCObject::from(routine));
    message.insert(String::from_str("legacy"), XPCObject::from(true));
    message.insert(String::from_str("domain-port"), XPCObject::from(bootstrap_port));
    message
}

fn address(message: &mut XPCDictionary, domain: DomainType, session: Option<SessionType>)
    ensures
        final(message)@ == in_session(in_domain(old(message)@, domain), session),
{
    message.insert(String::from_str("domain"), XPCObject::from(domain.code()));
    match session {
        Some(s) => {
            message.insert(String::from_str("session"), XPCObject::from(s.name()));
        },
        None => {},
    }
}

/// The request that lists all services.
pub fn list_all_request(bootstrap_port: u32) -> (r: XPCDictionary)
    ensures
        r@ == list_all_message(bootstrap_port),
{
    base_request(ROUTINE_LIST, 0, bootstrap_port)
}

/// The request that looks `label` up in one domain and session type.
pub fn find_in_domain_request(
    label: &str,
    domain: DomainType,
    session: SessionType,
    handle: u64,
    bootstrap_port: u32,
) -> (r: XPCDictionary)
    ensures
        r@ == find_message(label@, domain, session, handle, bootstrap_port),
{
    let mut message = base_request(ROUTINE_LIST, handle, bootstrap_port);
    message.insert(String::from_str("name"), XPCObject::from(label));
    address(&mut message, domain, Some(session));
    message
}

/// The labels that a listing names: the keys of the dictionary under
/// "services" in the reply, and none where the request failed or the reply
/// holds no such dictionary.
pub open spec fn listed_labels(reply: Result<XPCObject, XPCError>) -> Set<Seq<char>> {
    match reply {
        Ok(object) => match mapping_of(object@) {
            Ok(top) => if top.contains_key("services"@) {
                match mapping_of(top["services"@]) {
                    Ok(services) => services.dom(),
                    Err(_) => Set::empty(),
                }
            } else {
                Set::empty()
            },
            Err(_) => Set::empty(),
        },
        Err(_) => Set::empty(),
    }
}

/// The labels of the services that are loaded, each once, from the reply to a
/// listing.
pub fn list_all(reply: &Result<XPCObject, XPCError>) -> (r: Vec<String>)
    ensures
        labels_of(r@).no_duplicates(),
        labels_of(r@).to_set() == listed_labels(*reply),
{
    let none: Vec<String> = Vec::new();
    proof {
        assert(labels_of(none@).to_set() =~= Set::<Seq<char>>::empty());
    }
    match reply {
        Ok(object) => match XPCDictionary::new(object) {
            Ok(top) => match top.lookup("services") {
                Some(inner) => match XPCDictionary::new(inner) {
                    Ok(services) => services.keys(),
                    Err(_) => none,
                },
                None => none,
            },
            Err(_) => none,
        },
        Err(_) => none,
    }
}

/// What a lookup in one domain found: the reply as a mapping when it names the
/// service, `NotFound` when it lacks the key "service", and the error of a
/// request that failed or of a reply that is no dictionary.
pub open spec fn found_in_domain(reply: Result<XPCObject, XPCError>) -> Result<
    Map<Seq<char>, XPCValue>,
    XPCError,
> {
    match reply {
        Ok(object) => match mapping_of(object@) {
            Ok(top) => if top.contains_key("service"@) {
                Ok(top)
            } else {
                Err(XPCError::NotFound)
            },
            Err(e) => Err(e),
        },
        Err(e) => Err(e),
    }
}

/// Reads the reply to a lookup in one domain.
pub fn find_in_domain(reply: Result<XPCObject, XPCError>) -> (r: Result<XPCDictionary, XPCError>)
    ensures
        match found_in_domain(reply) {
            Ok(top) => r matches Ok(d) && d@ == top,
            Err(e) => r matches Err(f) && f == e,
        },
{
    match reply {
        Ok(object) => match XPCDictionary::new(&object) {
            Ok(top) => {
                if top.contains_key("service") {
                    Ok(top)
                } else {
                    Err(XPCError::NotFound)
                }
            },
            Err(e) => Err(e),
        },
        Err(e) => Err(e),
    }
}

/// One place to look a service up: a domain, the session type within it, and
/// the handle that names the domain's owner (a process id for a domain of a
/// process, 0 otherwise).
#[derive(Clone, Copy, Debug, PartialEq, Eq, Structural)]
pub struct Candidate {
    pub domain: DomainType,
    pub session: SessionType,
    pub handle: u64,
}

/// The places that every lookup tries, cheapest first: the system domain, then
/// each session type of a login session.
pub open spec fn session_candidates() -> Seq<Candidate> {
    seq![
        Candidate { domain: DomainType::System, session: SessionType::System, handle: 0 },
        Candidate { domain: DomainType::Session, session: SessionType::Aqua, handle: 0 },
        Candidate { domain: DomainType::Session, session: SessionType::StandardIO, handle: 0 },
        Candidate { domain: DomainType::Session, session: SessionType::Background, handle: 0 },
        Candidate { domain: DomainType::Session, session: SessionType::LoginWindow, handle: 0 },
    ]
}

/// All places to try: those of every lookup, then the domain of each process
/// that is known, in the order given.
pub open spec fn candidates_for(known_pids: Seq<u64>) -> Seq<Candidate> {
    session_candidates() + Seq::new(
        known_pids.len(),
        |i: int| Candidate { domain: DomainType::PID, session: SessionType::Unknown, handle: known_pids[i] },
    )
}

/// The places to try for a lookup, in order.
pub fn candidates(known_pids: &Vec<u64>) -> (r: Vec<Candidate>)
    ensures
        r@ == candidates_for(known_pids@),
{
    let mut out: Vec<Candidate> = Vec::new();
    out.push(Candidate { domain: DomainType::System, session: SessionType::System, handle: 0 });
    out.push(Candidate { domain: DomainType::Session, session: SessionType::Aqua, handle: 0 });
    out.push(Candidate { domain: DomainType::Session, session: SessionType::StandardIO, handle: 0 });
    out.push(Candidate { domain: DomainType::Session, session: SessionType::Background, handle: 0 });
    out.push(Candidate { domain: DomainType::Session, session: SessionType::LoginWindow, handle: 0 });
    assert(out@ =~= session_candidates());
    let mut i: usize = 0;
    while i < known_pids.len()
        invariant
            i <= known_pids@.len(),
            out@ =~= candidates_for(known_pids@.take(i as int)),
        decreases known_pids@.len() - i,
    {
        out.push(
            Candidate { domain: DomainType::PID, session: SessionType::Unknown, handle: known_pids[i] },
        );
        i += 1;
    }
    assert(known_pids@.take(known_pids@.len() as int) =~= known_pids@);
    out
}

/// What the answer of the place number `tried` settles: a service that was
/// found ends the lookup with the domain of that place and the reply; a place
/// that does not know the service is passed over while another place is left,
/// and ends the lookup with `NotFound` when it is the last; any other failure
/// ends the lookup at once, with that failure.
pub open spec fn settled(
    candidates: Seq<Candidate>,
    tried: int,
    found: Result<Map<Seq<char>, XPCValue>, XPCError>,
) -> Option<Result<(DomainType, Map<Seq<char>, XPCValue>), XPCError>> {
    match found {
        Ok(top) => Some(Ok((candidates[tried].domain, top))),
        Err(e) => if e == XPCError::NotFound && tried + 1 < candidates.len() {
            None
        } else {
            Some(Err(e))
        },
    }
}

/// What a lookup over all places returns when the place number `i` answers
/// `replies[i]`, counted from the place number `from`: what the first place
/// settles that knows the service or fails in another way than by not knowing
/// it, and `NotFound` where no place knows it. With no place left to try it is
/// `NotFound`.
pub open spec fn find_in_all_outcome(
    candidates: Seq<Candidate>,
    replies: Seq<Result<XPCObject, XPCError>>,
    from: int,
) -> Result<(DomainType, Map<Seq<char>, XPCValue>), XPCError>
    decreases candidates.len() - from,
{
    if from < 0 || from >= candidates.len() || from >= replies.len() {
        Err(XPCError::NotFound)
    } else {
        match settled(candidates, from, found_in_domain(replies[from])) {
            Some(result) => result,
            None => find_in_all_outcome(candidates, replies, from + 1),
        }
    }
}

/// A lookup of one service over all places, between two requests.
#[derive(Debug)]
pub struct FindInAll {
    /// The service that is looked for.
    pub label: String,
    /// The bootstrap port of the caller.
    pub bootstrap_port: u32,
    /// The places to try, in order.
    pub candidates: Vec<Candidate>,
    /// How many places have answered.
    pub tried: usize,
}

/// Starts a lookup of `label` over all places.
pub fn find_in_all(label: String, bootstrap_port: u32, known_pids: &Vec<u64>) -> (r: FindInAll)
    ensures
        r.label == label,
        r.bootstrap_port == bootstrap_port,
        r.candidates@ == candidates_for(known_pids@),
        r.tried == 0,
{
    FindInAll { label, bootstrap_port, candidates: candidates(known_pids), tried: 0 }
}

impl FindInAll {
    /// The request to send next: the lookup at the first place that has not
    /// answered. `None` when every place has.
    pub fn next_request(&self) -> (r: Option<XPCDictionary>)
        ensures
            self.tried < self.candidates@.len() ==> (r matches Some(message) && message@
                == find_message(
                self.label@,
                self.candidates@[self.tried as int].domain,
                self.candidates@[self.tried as int].session,
                self.candidates@[self.tried as int].handle,
                self.bootstrap_port,
            )),
            self.tried >= self.candidates@.len() ==> r is None,
    {
        if self.tried < self.candidates.len() {
            let place = self.candidates[self.tried];
            Some(
                find_in_domain_request(
                    self.label.as_str(),
                    place.domain,
                    place.session,
                    place.handle,
                    self.bootstrap_port,
                ),
            )
        } else {
            None
        }
    }

    /// Takes the answer to the request that was sent last. `Some` ends the
    /// lookup with its result; `None` asks for the next request. Only a place
    /// that does not know the service is passed over: every other failure ends
    /// the lookup.
    pub fn on_reply(&mut self, reply: Result<XPCObject, XPCError>) -> (r: Option<
        Result<(DomainType, XPCDictionary), XPCError>,
    >)
        requires
            old(self).tried < old(self).candidates@.len(),
        ensures
            match settled(old(self).candidates@, old(self).tried as int, found_in_domain(reply)) {
                Some(Ok((domain, top))) => r matches Some(Ok((d, dictionary))) && d == domain
                    && dictionary@ == top,
                Some(Err(e)) => r matches Some(Err(f)) && f == e,
                None => r is None,
            },
            final(self).tried == old(self).tried + 1,
            final(self).candidates == old(self).candidates,
            final(self).label == old(self).label,
            final(self).bootstrap_port == old(self).bootstrap_port,
    {
        let place = self.candidates[self.tried];
        let last = self.tried == self.candidates.len() - 1;
        self.tried = self.tried + 1;
        match find_in_domain(reply) {
            Ok(top) => Some(Ok((place.domain, top))),
            Err(XPCError::NotFound) => {
                if last {
                    Some(Err(XPCError::NotFound))
                } else {
                    None
                }
            },
            Err(e) => Some(Err(e)),
        }
    }
}

/// What the lookup returns when the place number `k` ends it.
pub open spec fn ended_by(
    candidates: Seq<Candidate>,
    k: int,
    found: Result<Map<Seq<char>, XPCValue>, XPCError>,
) -> Result<(DomainType, Map<Seq<char>, XPCValue>), XPCError> {
    match found {
        Ok(top) => Ok((candidates[k].domain, top)),
        Err(e) => Err(e),
    }
}

/// Where the places before the place number `k` do not know the service and
/// that place is the first to answer otherwise, the lookup returns what that
/// place says: the service under its domain when it found it, its failure when
/// it failed. That the places before did not know the service is not seen.
pub proof fn lemma_first_answer_wins(
    candidates: Seq<Candidate>,
    replies: Seq<Result<XPCObject, XPCError>>,
    k: int,
)
    requires
        0 <= k < candidates.len(),
        k < replies.len(),
        found_in_domain(replies[k]) != Err::<Map<Seq<char>, XPCValue>, XPCError>(
            XPCError::NotFound,
        ),
        forall|j: int|
            0 <= j < k ==> found_in_domain(#[trigger] replies[j]) == Err::<
                Map<Seq<char>, XPCValue>,
                XPCError,
            >(XPCError::NotFound),
    ensures
        find_in_all_outcome(candidates, replies, 0) == ended_by(
            candidates,
            k,
            found_in_domain(replies[k]),
        ),
{
    lemma_outcome_from(candidates, replies, k, 0);
}

/// The induction behind `lemma_first_answer_wins`.
proof fn lemma_outcome_from(
    candidates: Seq<Candidate>,
    replies: Seq<Result<XPCObject, XPCError>>,
    k: int,
    from: int,
)
    requires
        0 <= from <= k < candidates.len(),
        k < replies.len(),
        found_in_domain(replies[k]) != Err::<Map<Seq<char>, XPCValue>, XPCError>(
            XPCError::NotFound,
        ),
        forall|j: int|
            0 <= j < k ==> found_in_domain(#[trigger] replies[j]) == Err::<
                Map<Seq<char>, XPCValue>,
                XPCError,
            >(XPCError::NotFound),
    ensures
        find_in_all_outcome(candidates, replies, from) == ended_by(
            candidates,
            k,
            found_in_domain(replies[k]),
        ),
    decreases k - from,
{
    if from < k {
        assert(found_in_domain(replies[from]) == Err::<Map<Seq<char>, XPCValue>, XPCError>(
            XPCError::NotFound,
        ));
        lemma_outcome_from(candidates, replies, k, from + 1);
    }
}

/// Where no place knows the service, the lookup returns the failure that it
/// saw last, which is `NotFound`.
pub proof fn lemma_not_found_anywhere(
    candidates: Seq<Candidate>,
    replies: Seq<Result<XPCObject, XPCError>>,
    from: int,
)
    requires
        0 <= from < candidates.len(),
        replies.len() == candidates.len(),
        forall|j: int|
            0 <= j < replies.len() ==> found_in_domain(#[trigger] replies[j]) == Err::<
                Map<Seq<char>, XPCValue>,
                XPCError,
            >(XPCError::NotFound),
    ensures
        find_in_all_outcome(candidates, replies, from) == Err::<
            (DomainType, Map<Seq<char>, XPCValue>),
            XPCError,
        >(XPCError::NotFound),
    decreases candidates.len() - from,
{
    assert(found_in_domain(replies[from]) == Err::<Map<Seq<char>, XPCValue>, XPCError>(
        XPCError::NotFound,
    ));
    if from + 1 < candidates.len() {
        lemma_not_found_anywhere(candidates, replies, from + 1);
    }
}

/// The request that loads or unloads the job of a configuration file in a
/// domain, under a session type where one is given. A handle that is not given
/// is 0.
pub open spec fn paths_message(
    routine: u64,
    plist_path: Seq<char>,
    domain: DomainType,
    session: Option<SessionType>,
    handle: Option<u64>,
    bootstrap_port: u32,
) -> Map<Seq<char>, XPCValue> {
    in_session(
        in_domain(
            base_message(
                routine,
                match handle {
                    Some(h) => h,
                    None => 0,
                },
                bootstrap_port,
            ),
            domain,
        ),
        session,
    ).insert("paths"@, XPCValue::Array(seq![XPCValue::Text(encode_utf8(plist_path))]))
}

/// The request that enables or disables a service in a domain.
pub open spec fn names_message(
    routine: u64,
    label: Seq<char>,
    domain: DomainType,
    bootstrap_port: u32,
) -> Map<Seq<char>, XPCValue> {
    in_domain(base_message(routine, 0, bootstrap_port), domain).insert(
        "names"@,
        XPCValue::Array(seq![XPCValue::Text(encode_utf8(label))]),
    )
}

fn paths_request(
    routine: u64,
    plist_path: &str,
    domain: DomainType,
    session: Option<SessionType>,
    handle: Option<u64>,
    bootstrap_port: u32,
) -> (r: XPCDictionary)
    ensures
        r@ == paths_message(routine, plist_path@, domain, session, handle, bootstrap_port),
{
    let target: u64 = match handle {
        Some(h) => h,
        None => 0,
    };
    let mut message = base_request(routine, target, bootstrap_port);
    address(&mut message, domain, session);
    let mut paths: Vec<XPCObject> = Vec::new();
    paths.push(XPCObject::from(plist_path));
    proof {
        crate::xpc_object::lemma_values_of(paths@);
        assert(values_of(paths@) =~= seq![XPCValue::Text(encode_utf8(plist_path@))]);
    }
    message.insert(String::from_str("paths"), XPCObject::from(paths));
    message
}

fn names_request(routine: u64, label: &str, domain: DomainType, bootstrap_port: u32) -> (r:
    XPCDictionary)
    ensures
        r@ == names_message(routine, label@, domain, bootstrap_port),
{
    let mut message = base_request(routine, 0, bootstrap_port);
    address(&mut message, domain, None);
    let mut names: Vec<XPCObject> = Vec::new();
    names.push(XPCObject::from(label));
    proof {
        crate::xpc_object::lemma_values_of(names@);
        assert(values_of(names@) =~= seq![XPCValue::Text(encode_utf8(label@))]);
    }
    message.insert(String::from_str("names"), XPCObject::from(names));
    message
}

/// The request that loads the job of a configuration file.
pub fn load_request(
    plist_path: &str,
    domain: DomainType,
    session: Option<SessionType>,
    handle: Option<u64>,
    bootstrap_port: u32,
) -> (r: XPCDictionary)
    ensures
        r@ == paths_message(ROUTINE_LOAD, plist_path@, domain, session, handle, bootstrap_port),
{
    paths_request(ROUTINE_LOAD, plist_path, domain, session, handle, bootstrap_port)
}

/// The request that unloads the job of a configuration file.
pub fn unload_request(
    plist_path: &str,
    domain: DomainType,
    session: Option<SessionType>,
    handle: Option<u64>,
    bootstrap_port: u32,
) -> (r: XPCDictionary)
    ensures
        r@ == paths_message(ROUTINE_UNLOAD, plist_path@, domain, session, handle, bootstrap_port),
{
    paths_request(ROUTINE_UNLOAD, plist_path, domain, session, handle, bootstrap_port)
}

/// The request that enables a service in a domain.
pub fn enable_request(label: &str, domain: DomainType, bootstrap_port: u32) -> (r: XPCDictionary)
    ensures
        r@ == names_message(ROUTINE_ENABLE, label@, domain, bootstrap_port),
{
    names_request(ROUTINE_ENABLE, label, domain, bootstrap_port)
}

/// The request that disables a service in a domain.
pub fn disable_request(label: &str, domain: DomainType, bootstrap_port: u32) -> (r: XPCDictionary)
    ensures
        r@ == names_message(ROUTINE_DISABLE, label@, domain, bootstrap_port),
{
    names_request(ROUTINE_DISABLE, label, domain, bootstrap_port)
}

/// The status that a reply reports: the signed integer under "error", and 0,
/// which is success, where the reply holds no such key. What stands under
/// "error" and is no signed integer is a `TypeMismatch`.
pub open spec fn reply_status(top: Map<Seq<char>, XPCValue>) -> Result<i64, XPCError> {
    if top.contains_key("error"@) {
        match top["error"@] {
            XPCValue::Int64(code) => Ok(code),
            _ => Err(XPCError::TypeMismatch),
        }
    } else {
        Ok(0)
    }
}

/// The status that the reply to a request reports; 0 is success.
pub fn command_status(reply: &XPCDictionary) -> (r: Result<i64, XPCError>)
    ensures
        r == reply_status(reply@),
{
    match reply.lookup("error") {
        Some(XPCObject::Int64(code)) => Ok(*code),
        Some(_) => Err(XPCError::TypeMismatch),
        None => Ok(0),
    }
}

/// The result of a request that changes a service: the reply when it reports
/// success; a `CommandError` that carries `description`, the platform's text
/// for the status, when it reports another status; and `TypeMismatch` when its
/// status cannot be read.
pub fn command_outcome(reply: XPCDictionary, description: String) -> (r: Result<
    XPCDictionary,
    XPCError,
>)
    ensures
        match reply_status(reply@) {
            Ok(status) => if status == 0 {
                r matches Ok(d) && d@ == reply@
            } else {
                r matches Err(e) && e == XPCError::CommandError(description)
            },
            Err(unread) => r matches Err(e) && e == unread,
        },
{
    match command_status(&reply) {
        Ok(status) => {
            if status == 0 {
                Ok(reply)
            } else {
                Err(XPCError::CommandError(description))
            }
        },
        Err(unread) => Err(unread),
    }
}

/// The routine that writes what the daemon knows of a process into shared
/// memory.
pub const ROUTINE_PROCINFO: u64 = 708;

/// The subsystem that answers questions about processes.
pub const SUBSYSTEM_PROCINFO: u64 = 2;

/// The request that asks what the daemon knows of the process `pid`, to be
/// written into the region of `shmem`.
pub open spec fn procinfo_message(pid: i64, shmem: XPCValue, bootstrap_port: u32) -> Map<
    Seq<char>,
    XPCValue,
> {
    base_message(ROUTINE_PROCINFO, 0, bootstrap_port).insert(
        "subsystem"@,
        XPCValue::UInt64(SUBSYSTEM_PROCINFO),
    ).insert("pid"@, XPCValue::Int64(pid)).insert("shmem"@, shmem)
}

/// The request that asks what the daemon knows of the process `pid`. The
/// answer is written into the region of the segment, of which the request
/// holds the native object a second time.
pub fn procinfo_request(pid: i64, shmem: &XPCShmem, bootstrap_port: u32) -> (r: XPCDictionary)
    ensures
        r@ == procinfo_message(pid, shmem.xpc_object@, bootstrap_port),
{
    let mut message = base_request(ROUTINE_PROCINFO, 0, bootstrap_port);
    message.insert(String::from_str("subsystem"), XPCObject::from(SUBSYSTEM_PROCINFO));
    message.insert(String::from_str("pid"), XPCObject::from(pid));
    message.insert(String::from_str("shmem"), shmem.xpc_object.clone());
    message
}

/// How many bytes the daemon wrote into the region, according to its reply:
/// the unsigned integer under "bytes-written". `NotFound` where the reply holds
/// no such key, `TypeMismatch` where it holds something else there.
pub open spec fn bytes_written(top: Map<Seq<char>, XPCValue>) -> Result<u64, XPCError> {
    if top.contains_key("bytes-written"@) {
        match top["bytes-written"@] {
            XPCValue::UInt64(count) => Ok(count),
            _ => Err(XPCError::TypeMismatch),
        }
    } else {
        Err(XPCError::NotFound)
    }
}

/// How many bytes of the region of `shmem` hold what the daemon wrote: the
/// count that the reply gives, and never more than the region is long.
pub fn procinfo_size(reply: &XPCDictionary, shmem: &XPCShmem) -> (r: Result<u64, XPCError>)
    ensures
        match bytes_written(reply@) {
            Ok(count) => r == Ok::<u64, XPCError>(
                if count <= shmem.size {
                    count
                } else {
                    shmem.size
                },
            ),
            Err(e) => r == Err::<u64, XPCError>(e),
        },
{
    match reply.lookup("bytes-written") {
        Some(XPCObject::UInt64(count)) => {
            if *count <= shmem.size {
                Ok(*count)
            } else {
                Ok(shmem.size)
            }
        },
        Some(_) => Err(XPCError::TypeMismatch),
        None => Err(XPCError::NotFound),
    }
}

/// The processes of which the domains are tried, with `pid` among them: a
/// process that runs, which is one with a positive id, is added at the end
/// unless it is known already; anything else leaves the list as it is.
pub open spec fn with_known_pid(known: Seq<u64>, pid: i64) -> Seq<u64> {
    if pid > 0 && !known.contains(pid as u64) {
        known.push(pid as u64)
    } else {
        known
    }
}

/// Takes note of the process of a service, so that later lookups try the
/// domain of that process too.
pub fn remember_pid(known: &mut Vec<u64>, pid: i64)
    ensures
        final(known)@ == with_known_pid(old(known)@, pid),
{
    if pid <= 0 {
        return ;
    }
    let wanted: u64 = pid as u64;
    let mut i: usize = 0;
    while i < known.len()
        invariant
            i <= known@.len(),
            pid > 0,
            wanted == pid as u64,
            known@ == old(known)@,
            forall|j: int| 0 <= j < i ==> known@[j] != wanted,
        decreases known@.len() - i,
    {
        if known[i] == wanted {
            assert(known@[i as int] == wanted);
            return ;
        }
        i += 1;
    }
    known.push(wanted);
}

} // verus!
