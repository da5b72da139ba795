//! Host-dependent strategies, chosen once at startup.

use vstd::prelude::*;

verus! {

/// The host platforms whose behaviour differs.
#[derive(Clone, Copy, Debug, PartialEq, Eq, Structural)]
pub enum Platform {
    Windows,
    Other,
}

/// Where diagnostic lines go.
#[derive(Clone, Copy, Debug, PartialEq, Eq, Structural)]
pub enum LogSink {
    /// A per-user log file and the error console.
    FileAndConsole,
    /// The error console only.
    ConsoleOnly,
}

/// Which way of invoking the server tool is tried first.
#[derive(Clone, Copy, Debug, PartialEq, Eq, Structural)]
pub enum InvocationPreference {
    /// Try the package runner, then the tool itself.
    WrapperFirst,
    /// Try the tool itself only.
    DirectOnly,
}

/// How a failure to start the host framework is shown.
#[derive(Clone, Copy, Debug, PartialEq, Eq, Structural)]
pub enum FatalErrorPresentation {
    /// A blocking error dialog, after the log entry.
    Dialog,
    /// The log entry only.
    LogOnly,
}

/// The strategies in force on one host.
#[derive(Clone, Copy, Debug, PartialEq, Eq, Structural)]
pub struct Capabilities {
    pub log_sink: LogSink,
    pub invocation: InvocationPreference,
    pub fatal_error: FatalErrorPresentation,
}

/// The strategies that belong to a platform.
pub open spec fn capabilities_of(platform: Platform) -> Capabilities {
    match platform {
        Platform::Windows => Capabilities {
            log_sink: LogSink::FileAndConsole,
            invocation: InvocationPreference::WrapperFirst,
            fatal_error: FatalErrorPresentation::Dialog,
        },
        Platform::Other => Capabilities {
            log_sink: LogSink::ConsoleOnly,
            invocation: InvocationPreference::DirectOnly,
            fatal_error: FatalErrorPresentation::LogOnly,
        },
    }
}

/// Selects the strategies for `platform`.
pub fn capabilities_for(platform: Platform) -> (c: Capabilities)
    ensures
        c == capabilities_of(platform),
{
    match platform {
        Platform::Windows => Capabilities {
            log_sink: LogSink::FileAndConsole,
            invocation: InvocationPreference::WrapperFirst,
            fatal_error: FatalErrorPresentation::Dialog,
        },
        Platform::Other => Capabilities {
            log_sink: LogSink::ConsoleOnly,
            invocation: InvocationPreference::DirectOnly,
            fatal_error: FatalErrorPresentation::LogOnly,
        },
    }
}

} // verus!
