//! Deciding when a background refresh is started.
use vstd::prelude::*;
use crate::clock::now_millis;
use crate::config::{is_stale, GhAlfredConfig};

verus! {

/// Defines which branch of the fork we are on
#[derive(PartialEq, Eq, Structural, Clone, Copy, Debug)]
pub enum DaemonResult {
    Main,
    Daemon,
}

/// The subcommand to execute
pub enum CliCommand {
    /// Search for a github repository
    SearchGH { filter: String },
    /// Search for a rust crate
    SearchCrate { filter: String },
    /// Update the database in the foreground
    UpdateDb,
    /// Clear the database
    ClearDb,
}

impl CliCommand {
    /// Whether the command first checks the cache's age and may start a
    /// background refresh: the searches do, the cache commands do not.
    pub fn checks_for_refresh(&self) -> (r: bool)
        ensures
            r == !(self is UpdateDb || self is ClearDb),
    {
        match self {
            CliCommand::UpdateDb => false,
            CliCommand::ClearDb => false,
            _ => true,
        }
    }
}

/// Decides at the instant `now` whether a background refresh starts: when
/// the cache is due, the start is recorded in `config` and the result is
/// true; otherwise `config` is left alone.
pub fn run_update_daemon_if_needed_at(config: &mut GhAlfredConfig, now: i64) -> (r: bool)
    ensures
        r == is_stale(old(config).last_update_start_time, now as int),
        r ==> final(config).last_update_start_time == Some(now),
        !r ==> final(config).last_update_start_time == old(config).last_update_start_time,
{
    if config.should_update_db_at(now) {
        config.update_last_update_start_time_at(now);
        true
    } else {
        false
    }
}

/// Decides now whether a background refresh starts; see
/// `run_update_daemon_if_needed_at`. A state that never saw a refresh
/// always starts one. The caller persists `config` and detaches the worker
/// when the result is true.
pub fn run_update_daemon_if_needed(config: &mut GhAlfredConfig) -> (r: bool)
    ensures
        old(config).last_update_start_time is None ==> r,
        r ==> final(config).last_update_start_time is Some,
        !r ==> final(config).last_update_start_time == old(config).last_update_start_time,
{
    let now = now_millis();
    run_update_daemon_if_needed_at(config, now)
}

} // verus!
