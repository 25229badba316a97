//! The launcher/daemon split: which role a process plays, and where the
//! daemon sends its standard output and error.
use vstd::prelude::*;

use crate::args::Arguments;
use crate::text::same_text;

verus! {

/// The file, relative to the working directory, that the daemon logs to.
pub const LOG_FILE: &'static str = "log";

/// The part a shim process plays.
#[derive(Debug, Clone, Copy, PartialEq, Eq, Structural)]
pub enum Role {
    /// Re-executes the shim as the daemon, relays the daemon's address line
    /// to its own standard output and exits.
    Launcher,
    /// Redirects its output to a log sink and runs the application.
    Daemon,
}

/// The role of a process whose action is `action`.
pub open spec fn role_of(action: Seq<char>) -> Role {
    if action == "start"@ {
        Role::Launcher
    } else {
        Role::Daemon
    }
}

/// Where the daemon's standard output and error go, in the order tried.
#[derive(Debug, Clone, Copy, PartialEq, Eq, Structural)]
pub enum LogSink {
    /// The log file, opened for appending.
    LogFile,
    /// A duplicate of standard error, when that is a terminal.
    Stderr,
    /// The null device.
    Null,
}

/// The sink to try after `failed` could not be had, or none when every
/// fallback is spent.
pub open spec fn fallback_of(failed: LogSink, stderr_is_terminal: bool) -> Option<LogSink> {
    match failed {
        LogSink::LogFile => if stderr_is_terminal {
            Some(LogSink::Stderr)
        } else {
            Some(LogSink::Null)
        },
        LogSink::Stderr => Some(LogSink::Null),
        LogSink::Null => None,
    }
}

impl Arguments {
    /// The role this process plays: `start` launches the daemon, every other
    /// action runs in this process.
    pub fn role(&self) -> (r: Role)
        ensures
            r == role_of(self.action@),
    {
        if same_text(self.action.as_str(), "start") {
            Role::Launcher
        } else {
            Role::Daemon
        }
    }
}

/// The first sink the daemon tries.
pub fn first_log_sink() -> (r: LogSink)
    ensures
        r == LogSink::LogFile,
{
    LogSink::LogFile
}

/// The sink to try once `failed` could not be opened; `None` means that no
/// sink is left and startup fails.
pub fn next_log_sink(failed: LogSink, stderr_is_terminal: bool) -> (r: Option<LogSink>)
    ensures
        r == fallback_of(failed, stderr_is_terminal),
{
    match failed {
        LogSink::LogFile => if stderr_is_terminal {
            Some(LogSink::Stderr)
        } else {
            Some(LogSink::Null)
        },
        LogSink::Stderr => Some(LogSink::Null),
        LogSink::Null => None,
    }
}

} // verus!
