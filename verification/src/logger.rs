//! What a diagnostic entry looks like and where it goes.

use vstd::prelude::*;
use vstd::string::*;
use crate::platform::LogSink;
use crate::text::{append_decimal, decimal};

verus! {

/// The environment variable that names the per-user application-data
/// directory.
pub const LOG_ROOT_VARIABLE: &'static str = "APPDATA";

/// The log's directory below the application-data directory.
pub const LOG_DIRECTORY: &'static str = "Eliza Desktop";

/// The log file's name.
pub const LOG_FILE: &'static str = "eliza-desktop.log";

/// The title of the dialog that reports a fatal error.
pub const FATAL_ERROR_TITLE: &'static str = "Eliza Desktop Error";

/// A log line: the time in seconds since the epoch in square brackets, a
/// space, and the message.
pub open spec fn log_line_of(timestamp: nat, message: Seq<char>) -> Seq<char> {
    seq!['['] + decimal(timestamp) + seq![']', ' '] + message
}

/// The time that an entry carries: the clock's, or 0 where the clock gave
/// none.
pub open spec fn entry_time(clock: Option<u64>) -> nat {
    match clock {
        Some(seconds) => seconds as nat,
        None => 0,
    }
}

/// What goes to the log file: the line to append, and the application-data
/// directory that the file lies under.
#[derive(Clone, Debug, PartialEq, Eq)]
pub struct FileRecord {
    pub root: String,
    pub line: String,
}

/// What one entry sends where.
#[derive(Clone, Debug, PartialEq, Eq)]
pub struct LogRecord {
    /// The file's part; `None` where nothing goes to a file.
    pub file: Option<FileRecord>,
    /// The console's part.
    pub console: String,
}

/// A log record as plain values.
pub struct LogRecordView {
    pub file: Option<(Seq<char>, Seq<char>)>,
    pub console: Seq<char>,
}

impl View for LogRecord {
    type V = LogRecordView;

    open spec fn view(&self) -> LogRecordView {
        LogRecordView {
            file: match self.file {
                Some(record) => Some((record.root@, record.line@)),
                None => None,
            },
            console: self.console@,
        }
    }
}

/// The view of an application-data directory that may be unknown.
pub open spec fn root_view(root: Option<String>) -> Option<Seq<char>> {
    match root {
        Some(text) => Some(text@),
        None => None,
    }
}

/// What an entry sends where: the raw message to the console always, and the
/// timestamped line to the file where the sink has one and the
/// application-data directory is known.
pub open spec fn record_of(
    sink: LogSink,
    root: Option<Seq<char>>,
    clock: Option<u64>,
    message: Seq<char>,
) -> LogRecordView {
    LogRecordView {
        file: if sink == LogSink::FileAndConsole && root is Some {
            Some((root->0, log_line_of(entry_time(clock), message)))
        } else {
            None
        },
        console: message,
    }
}

/// Renders a log line.
pub fn log_line(timestamp: u64, message: &str) -> (line: String)
    ensures
        line@ == log_line_of(timestamp as nat, message@),
{
    proof {
        reveal_strlit("[");
        reveal_strlit("] ");
    }
    let mut line = String::from_str("[");
    append_decimal(&mut line, timestamp);
    line.append("] ");
    line.append(message);
    assert(line@ =~= log_line_of(timestamp as nat, message@));
    line
}

/// Prepares one diagnostic entry. `root` is the application-data directory,
/// where the environment names one; `clock` is the time in seconds since the
/// epoch, where the clock gave one.
pub fn record(sink: LogSink, root: Option<String>, clock: Option<u64>, message: &str) -> (entry:
    LogRecord)
    ensures
        entry@ == record_of(sink, root_view(root), clock, message@),
{
    let timestamp: u64 = match clock {
        Some(seconds) => seconds,
        None => 0,
    };
    let file = match sink {
        LogSink::FileAndConsole => match root {
            Some(root) => Some(FileRecord { root, line: log_line(timestamp, message) }),
            None => None,
        },
        LogSink::ConsoleOnly => None,
    };
    LogRecord { file, console: String::from_str(message) }
}

/// The text of the dialog that reports a fatal error.
pub open spec fn fatal_error_message_of(error: Seq<char>) -> Seq<char> {
    "Failed to start Eliza Desktop App:\n\n"@ + error
        + "\n\nCheck the log file at:\n%APPDATA%\\Eliza Desktop\\eliza-desktop.log"@
}

/// Builds the text of the dialog that reports a fatal error.
pub fn fatal_error_message(error: &str) -> (message: String)
    ensures
        message@ == fatal_error_message_of(error@),
{
    let mut message = String::from_str("Failed to start Eliza Desktop App:\n\n");
    message.append(error);
    message.append("\n\nCheck the log file at:\n%APPDATA%\\Eliza Desktop\\eliza-desktop.log");
    message
}

} // verus!
