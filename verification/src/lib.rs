//! A typed layer over the native objects that are exchanged with the
//! service-management daemon, and what is built on it: the requests and the
//! reading of replies, the lookup of a service over the domains, the cache of
//! statuses, the guard of shared memory, and the rules of the service list.
//!
//! The library holds native objects by value and does no input or output
//! itself. Whoever talks to the daemon hands it the replies and carries out
//! what it decides.

pub mod commands;
pub mod entry_status;
pub mod enums;
pub mod job_type_filter;
pub mod mapping;
pub mod omnibox;
pub mod plist;
pub mod query;
pub mod service_list;
pub mod text;
pub mod xpc_dictionary;
pub mod xpc_error;
pub mod xpc_handle;
pub mod xpc_object;
pub mod xpc_shmem;
