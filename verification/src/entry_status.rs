use crate::enums::DomainType;
use crate::enums::SessionType;
use crate::mapping::distinct_keys;
use crate::mapping::last_index_of;
use crate::mapping::lemma_distinct_index;
use crate::mapping::lemma_distinct_push;
use crate::mapping::lemma_last_index_of;
use crate::mapping::lemma_mapping_of_pairs;
use crate::mapping::lemma_mapping_remove;
use crate::mapping::lemma_mapping_update;
use crate::mapping::mapping_of_pairs;
use crate::plist::LaunchdPlist;
use crate::text::str_eq;
use crate::xpc_dictionary::value_at;
use crate::xpc_dictionary::XPCDictionary;
use crate::xpc_error::XPCError;
use crate::xpc_object::TryXPCValue;
use crate::xpc_object::XPCValue;
use vstd::prelude::*;

verus! {

/// How long a status is served from the cache, in milliseconds: 15 seconds.
pub const ENTRY_INFO_QUERY_TTL: u64 = 15000;

/// What is known of one service at one moment.
#[derive(Debug, PartialEq, Eq)]
pub struct LaunchdEntryStatus {
    /// The configuration of the job, where one was found.
    pub plist: Option<LaunchdPlist>,
    /// The session type to which the daemon limits the job.
    pub limit_load_to_session_type: SessionType,
    /// The domain in which the daemon knows the job.
    pub domain: DomainType,
    /// The process of the job; 0 when it does not run.
    pub pid: i64,
    /// When this was found out, in milliseconds since the Unix epoch.
    pub tick: u64,
}

impl Clone for LaunchdEntryStatus {
    fn clone(&self) -> (r: Self)
        ensures
            r == *self,
    {
        LaunchdEntryStatus {
            plist: match &self.plist {
                Some(plist) => Some(plist.clone()),
                None => None,
            },
            limit_load_to_session_type: self.limit_load_to_session_type,
            domain: self.domain,
            pid: self.pid,
            tick: self.tick,
        }
    }
}

/// The two keys that lead to the process id in a reply.
pub open spec fn pid_path() -> Seq<Seq<char>> {
    seq!["service"@, "PID"@]
}

/// The two keys that lead to the session type in a reply.
pub open spec fn session_type_path() -> Seq<Seq<char>> {
    seq!["service"@, "LimitLoadToSessionType"@]
}

/// The process id that a lookup found: the signed integer at its place in the
/// reply, and 0 where the lookup failed or holds none.
pub open spec fn pid_of(response: Result<(DomainType, XPCDictionary), XPCError>) -> i64 {
    match response {
        Ok((_, reply)) => match value_at(reply@, pid_path()) {
            Ok(XPCValue::Int64(pid)) => pid,
            _ => 0,
        },
        Err(_) => 0,
    }
}

/// The session type that a lookup found: the one named at its place in the
/// reply, and `Unknown` where the lookup failed or names none.
pub open spec fn session_type_of(
    response: Result<(DomainType, XPCDictionary), XPCError>,
) -> SessionType {
    match response {
        Ok((_, reply)) => match value_at(reply@, session_type_path()) {
            Ok(value) => SessionType::spec_of_value(value),
            Err(_) => SessionType::Unknown,
        },
        Err(_) => SessionType::Unknown,
    }
}

/// The domain in which a lookup found the service; `Unknown` where it failed.
pub open spec fn domain_of(response: Result<(DomainType, XPCDictionary), XPCError>) -> DomainType {
    match response {
        Ok((domain, _)) => domain,
        Err(_) => DomainType::Unknown,
    }
}

/// A lookup that failed, whatever the failure, gives the status of a service
/// that does not run: process 0, session type and domain unknown.
pub proof fn lemma_failed_lookup_degrades(e: XPCError)
    ensures
        pid_of(Err(e)) == 0,
        session_type_of(Err(e)) == SessionType::Unknown,
        domain_of(Err(e)) == DomainType::Unknown,
{
}

impl LaunchdEntryStatus {
    /// The status of a service of which nothing is known at `now`: no
    /// configuration, no session type, no domain, not running.
    pub fn unknown(now: u64) -> (r: LaunchdEntryStatus)
        ensures
            r.plist is None,
            r.limit_load_to_session_type == SessionType::Unknown,
            r.domain == DomainType::Unknown,
            r.pid == 0,
            r.tick == now,
    {
        LaunchdEntryStatus {
            plist: None,
            limit_load_to_session_type: SessionType::Unknown,
            domain: DomainType::Unknown,
            pid: 0,
            tick: now,
        }
    }

    /// How old the status is at `now`, in milliseconds; a status from the
    /// future counts as new.
    pub open spec fn age(&self, now: u64) -> int {
        if now >= self.tick {
            now - self.tick
        } else {
            0
        }
    }

    /// Whether the status may still be served at `now`.
    pub open spec fn fresh(&self, now: u64) -> bool {
        self.age(now) <= ENTRY_INFO_QUERY_TTL
    }

    /// Whether the status may still be served at `now`.
    pub fn is_fresh(&self, now: u64) -> (r: bool)
        ensures
            r == self.fresh(now),
    {
        now < self.tick || now - self.tick <= ENTRY_INFO_QUERY_TTL
    }
}

/// The status of a service, from what a lookup over the domains returned for it
/// and from its configuration.
///
/// A lookup that failed gives no error here but the status of a service that
/// does not run: process 0, session type and domain unknown.
pub fn build_entry_status(
    response: Result<(DomainType, XPCDictionary), XPCError>,
    plist: Option<LaunchdPlist>,
    now: u64,
) -> (r: LaunchdEntryStatus)
    ensures
        r.pid == pid_of(response),
        r.limit_load_to_session_type == session_type_of(response),
        r.domain == domain_of(response),
        r.plist == plist,
        r.tick == now,
{
    let mut pid: i64 = 0;
    let mut limit_load_to_session_type = SessionType::Unknown;
    let mut domain = DomainType::Unknown;
    proof {
        reveal_strlit("service");
        reveal_strlit("PID");
        reveal_strlit("LimitLoadToSessionType");
    }
    match &response {
        Ok((found_in, reply)) => {
            domain = *found_in;
            let pid_keys: [&str; 2] = ["service", "PID"];
            assert(crate::xpc_dictionary::texts_of(pid_keys@) =~= pid_path());
            match reply.get(pid_keys.as_slice()) {
                Ok(object) => {
                    let value: Result<i64, XPCError> = object.xpc_value();
                    match value {
                        Ok(found) => {
                            pid = found;
                        },
                        Err(_) => {},
                    }
                },
                Err(_) => {},
            }
            let session_keys: [&str; 2] = ["service", "LimitLoadToSessionType"];
            assert(crate::xpc_dictionary::texts_of(session_keys@) =~= session_type_path());
            match reply.get(session_keys.as_slice()) {
                Ok(object) => {
                    limit_load_to_session_type = SessionType::of_object(&object);
                },
                Err(_) => {},
            }
        },
        Err(_) => {},
    }
    LaunchdEntryStatus { plist, limit_load_to_session_type, domain, pid, tick: now }
}

/// The labels and statuses of a run of cache entries.
pub open spec fn labelled(entries: Seq<(String, LaunchdEntryStatus)>) -> Seq<
    (Seq<char>, LaunchdEntryStatus),
> {
    Seq::new(entries.len(), |i: int| (entries[i].0@, entries[i].1))
}

/// What a lookup at `now` serves from a cache: the status under the label when
/// there is one and it is still fresh, and nothing otherwise.
pub open spec fn served(
    cache: Map<Seq<char>, LaunchdEntryStatus>,
    label: Seq<char>,
    now: u64,
) -> Option<LaunchdEntryStatus> {
    if cache.contains_key(label) && cache[label].fresh(now) {
        Some(cache[label])
    } else {
        None
    }
}

/// What a lookup at `now` leaves of a cache: a status that has expired goes,
/// everything else stays.
pub open spec fn after_lookup(
    cache: Map<Seq<char>, LaunchdEntryStatus>,
    label: Seq<char>,
    now: u64,
) -> Map<Seq<char>, LaunchdEntryStatus> {
    if cache.contains_key(label) && !cache[label].fresh(now) {
        cache.remove(label)
    } else {
        cache
    }
}

/// The statuses that were found out last, by label.
///
/// It is built by whoever needs it and handed to the lookups; no label stands
/// twice.
#[derive(Debug)]
pub struct EntryStatusCache {
    entries: Vec<(String, LaunchdEntryStatus)>,
}

impl View for EntryStatusCache {
    type V = Map<Seq<char>, LaunchdEntryStatus>;

    closed spec fn view(&self) -> Map<Seq<char>, LaunchdEntryStatus> {
        mapping_of_pairs(labelled(self.entries@))
    }
}

impl EntryStatusCache {
    #[verifier::type_invariant]
    spec fn distinct(&self) -> bool {
        distinct_keys(labelled(self.entries@))
    }

    /// A cache without entries.
    pub fn new() -> (r: EntryStatusCache)
        ensures
            r@ == Map::<Seq<char>, LaunchdEntryStatus>::empty(),
    {
        EntryStatusCache { entries: Vec::new() }
    }

    /// The number of labels with a status.
    pub fn len(&self) -> (r: usize)
        ensures
            self@.dom().finite(),
            r == self@.len(),
    {
        proof {
            use_type_invariant(self);
            crate::mapping::lemma_mapping_len(labelled(self.entries@));
        }
        self.entries.len()
    }

    /// Where `label` stands among the entries, if it does.
    fn position(&self, label: &str) -> (r: Option<usize>)
        ensures
            self.distinct(),
            r is Some <==> self@.contains_key(label@),
            r matches Some(i) ==> i < self.entries@.len() && self.entries@[i as int].0@ == label@
                && self@[label@] == self.entries@[i as int].1,
            r is None ==> last_index_of(labelled(self.entries@), label@) == -1,
    {
        proof {
            use_type_invariant(self);
        }
        let ghost pairs = labelled(self.entries@);
        proof {
            lemma_mapping_of_pairs(pairs, label@);
            lemma_last_index_of(pairs, label@);
        }
        let mut i: usize = 0;
        while i < self.entries.len()
            invariant
                self.distinct(),
                pairs == labelled(self.entries@),
                i <= self.entries@.len(),
                forall|j: int| 0 <= j < i ==> self.entries@[j].0@ != label@,
            decreases self.entries@.len() - i,
        {
            if str_eq(self.entries[i].0.as_str(), label) {
                proof {
                    assert(pairs[i as int].0 == label@);
                    lemma_distinct_index(pairs, i as int);
                    lemma_mapping_of_pairs(pairs, label@);
                }
                return Some(i);
            }
            i += 1;
        }
        proof {
            let k = last_index_of(pairs, label@);
            if k >= 0 {
                assert(pairs[k].0 == label@);
                assert(self.entries@[k].0@ != label@);
            }
        }
        None
    }

    /// Puts `status` under `label`, in place of what stood there.
    pub fn insert(&mut self, label: String, status: LaunchdEntryStatus)
        ensures
            final(self)@ == old(self)@.insert(label@, status),
    {
        let found = self.position(label.as_str());
        let mut taken = EntryStatusCache::new();
        core::mem::swap(self, &mut taken);
        let mut entries = taken.entries;
        match found {
            Some(i) => {
                proof {
                    lemma_mapping_update(labelled(entries@), i as int, status);
                    assert(labelled(entries@.update(i as int, (label, status))) =~= labelled(
                        entries@,
                    ).update(i as int, (label@, status)));
                }
                entries.set(i, (label, status));
            },
            None => {
                proof {
                    lemma_distinct_push(labelled(entries@), (label@, status));
                    assert(labelled(entries@.push((label, status))) =~= labelled(entries@).push(
                        (label@, status),
                    ));
                }
                entries.push((label, status));
            },
        }
        *self = EntryStatusCache { entries };
    }
}

/// Looks `label` up in the cache at the time `now`.
///
/// A status that is there and no older than the time to live is returned as it
/// stands, and the cache is left alone. A status that has expired is taken out.
/// `None` says that the caller has to ask the daemon and to record what it
/// learns with [`record_entry_status`].
pub fn get_entry_status(cache: &mut EntryStatusCache, label: &str, now: u64) -> (r: Option<
    LaunchdEntryStatus,
>)
    ensures
        r == served(old(cache)@, label@, now),
        final(cache)@ == after_lookup(old(cache)@, label@, now),
{
    let found = cache.position(label);
    match found {
        None => None,
        Some(i) => {
            if cache.entries[i].1.is_fresh(now) {
                Some(cache.entries[i].1.clone())
            } else {
                let mut taken = EntryStatusCache::new();
                core::mem::swap(cache, &mut taken);
                let mut entries = taken.entries;
                proof {
                    lemma_mapping_remove(labelled(entries@), i as int);
                    assert(labelled(entries@.remove(i as int)) =~= labelled(entries@).remove(
                        i as int,
                    ));
                }
                entries.remove(i);
                *cache = EntryStatusCache { entries };
                None
            }
        },
    }
}

/// Builds the status of `label` from what the daemon and the configuration
/// said, puts it into the cache in place of any earlier one, and returns it.
pub fn record_entry_status(
    cache: &mut EntryStatusCache,
    label: String,
    response: Result<(DomainType, XPCDictionary), XPCError>,
    plist: Option<LaunchdPlist>,
    now: u64,
) -> (r: LaunchdEntryStatus)
    ensures
        r.pid == pid_of(response),
        r.limit_load_to_session_type == session_type_of(response),
        r.domain == domain_of(response),
        r.plist == plist,
        r.tick == now,
        final(cache)@ == old(cache)@.insert(label@, r),
{
    let status = build_entry_status(response, plist, now);
    cache.insert(label, status.clone());
    status
}

/// Two lookups of one label while its status is fresh are both served from the
/// cache, with the very same status, and neither changes the cache: the second
/// asks the daemon no more than the first.
pub proof fn lemma_served_twice(
    cache: Map<Seq<char>, LaunchdEntryStatus>,
    label: Seq<char>,
    first: u64,
    second: u64,
)
    requires
        cache.contains_key(label),
        cache[label].fresh(first),
        cache[label].fresh(second),
    ensures
        served(cache, label, first) == Some(cache[label]),
        after_lookup(cache, label, first) == cache,
        served(after_lookup(cache, label, first), label, second) == served(cache, label, first),
        after_lookup(after_lookup(cache, label, first), label, second) == cache,
{
}

/// A status is fresh up to 15 seconds after it was found out, and no longer.
pub proof fn lemma_fresh_for_ttl(status: LaunchdEntryStatus, now: u64)
    requires
        now >= status.tick,
    ensures
        status.fresh(now) <==> now - status.tick <= 15000,
{
}

/// A lookup after the time to live serves nothing and takes the old status out;
/// once the new one is recorded, lookups are served again, by the new one.
pub proof fn lemma_recomputed_once(
    cache: Map<Seq<char>, LaunchdEntryStatus>,
    label: Seq<char>,
    now: u64,
    rebuilt: LaunchdEntryStatus,
)
    requires
        cache.contains_key(label),
        !cache[label].fresh(now),
        rebuilt.tick == now,
    ensures
        served(cache, label, now) is None,
        !after_lookup(cache, label, now).contains_key(label),
        served(after_lookup(cache, label, now).insert(label, rebuilt), label, now) == Some(rebuilt),
{
}

} // verus!
