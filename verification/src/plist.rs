use crate::job_type_filter::JobTypeFilter;
use crate::job_type_filter::AGENT;
use crate::job_type_filter::DAEMON;
use crate::job_type_filter::GLOBAL;
use crate::job_type_filter::LOADED;
use crate::job_type_filter::SYSTEM;
use crate::job_type_filter::USER;
use vstd::prelude::*;

verus! {

/// Whether a job is an agent of a user or a daemon of the system.
#[derive(Clone, Copy, Debug, PartialEq, Eq, Structural)]
pub enum LaunchdEntryType {
    Agent,
    Daemon,
}

/// Where the configuration of a job was found.
#[derive(Clone, Copy, Debug, PartialEq, Eq, Structural)]
pub enum LaunchdEntryLocation {
    System,
    Global,
    User,
}

/// The parsed configuration of a job: what kind of job it declares and where
/// the file lies.
#[derive(Debug, PartialEq, Eq)]
pub struct LaunchdPlist {
    pub entry_type: LaunchdEntryType,
    pub entry_location: LaunchdEntryLocation,
    pub plist_path: String,
    pub readonly: bool,
}

impl Clone for LaunchdPlist {
    fn clone(&self) -> (r: Self)
        ensures
            r == *self,
    {
        LaunchdPlist {
            entry_type: self.entry_type,
            entry_location: self.entry_location,
            plist_path: self.plist_path.clone(),
            readonly: self.readonly,
        }
    }
}

impl LaunchdPlist {
    /// The bits of the properties that this configuration declares, with that
    /// of a loaded job added when it is loaded.
    pub open spec fn spec_job_type_filter(&self, is_loaded: bool) -> JobTypeFilter {
        let location: u32 = match self.entry_location {
            LaunchdEntryLocation::System => SYSTEM,
            LaunchdEntryLocation::Global => GLOBAL,
            LaunchdEntryLocation::User => USER,
        };
        let kind: u32 = match self.entry_type {
            LaunchdEntryType::Agent => AGENT,
            LaunchdEntryType::Daemon => DAEMON,
        };
        let loaded: u32 = if is_loaded {
            LOADED
        } else {
            0
        };
        JobTypeFilter { bits: (location + kind + loaded) as u32 }
    }

    /// The properties of the job that this configuration describes.
    pub fn job_type_filter(&self, is_loaded: bool) -> (r: JobTypeFilter)
        ensures
            r == self.spec_job_type_filter(is_loaded),
    {
        let location: u32 = match self.entry_location {
            LaunchdEntryLocation::System => SYSTEM,
            LaunchdEntryLocation::Global => GLOBAL,
            LaunchdEntryLocation::User => USER,
        };
        let kind: u32 = match self.entry_type {
            LaunchdEntryType::Agent => AGENT,
            LaunchdEntryType::Daemon => DAEMON,
        };
        let loaded: u32 = if is_loaded {
            LOADED
        } else {
            0
        };
        JobTypeFilter { bits: location + kind + loaded }
    }
}

} // verus!
