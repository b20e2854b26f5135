//! The decision cores of the individual action modules.
//!
//! Each module's host effect (a process spawn, a registry edit, a
//! lookup) is performed outside the library; what stands here is
//! everything the module decides and records: its name and labels,
//! the artifacts it plans, the records it builds from the effect's
//! outcome, and the exact status it reports for each outcome.

pub mod create_proc;
pub mod dns_query_storm;
pub mod enable_rdp;
pub mod get_clipboard;
pub mod get_env_vars;
pub mod named_pipe_sim;
pub mod pwd_guessing;
pub mod time_manipulation_sim;
pub mod enable_ssh;
pub mod minidump_proc;
pub mod share_enum;
pub mod ransom_note;
pub mod registry_persistence;
pub mod startup_exec;
