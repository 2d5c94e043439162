//! The bridge from log records to the host's debug channel: which records
//! pass, at which level of the host they are shown, and what the line says.

use vstd::prelude::*;
use vstd::string::*;

verus! {

/// The verbosity of a log record, the most serious first.
#[derive(Clone, Copy, Debug, PartialEq, Eq, Structural)]
pub enum Level {
    Error,
    Warn,
    Info,
    Debug,
    Trace,
}

/// The levels of the host's debug channel.
#[derive(Clone, Copy, Debug, PartialEq, Eq, Structural)]
pub enum PurpleDebugLevel {
    All,
    Misc,
    Info,
    Warning,
    Error,
    Fatal,
}

/// One call of the host's debug function.
pub struct DebugCall {
    pub level: PurpleDebugLevel,
    pub category: String,
    pub line: String,
}

/// A record that waits to be logged: its target, its level and its message.
pub struct BufferedRecord {
    pub target: String,
    pub level: Level,
    pub message: String,
}

impl Level {
    /// The place of a level in the order of verbosity: 1 for errors, 5 for traces.
    pub open spec fn rank(self) -> int {
        match self {
            Level::Error => 1,
            Level::Warn => 2,
            Level::Info => 3,
            Level::Debug => 4,
            Level::Trace => 5,
        }
    }
}

/// The host's level for a record: errors, warnings and informations keep
/// theirs, everything else is miscellaneous.
pub open spec fn purple_level(level: Level) -> PurpleDebugLevel {
    match level {
        Level::Error => PurpleDebugLevel::Error,
        Level::Warn => PurpleDebugLevel::Warning,
        Level::Info => PurpleDebugLevel::Info,
        _ => PurpleDebugLevel::Misc,
    }
}

/// The name a record is logged under: its target, or else its module, or else nothing.
pub open spec fn log_target(target: Seq<char>, module: Option<Seq<char>>) -> Seq<char> {
    if target.len() > 0 {
        target
    } else {
        match module {
            Some(path) => path,
            None => Seq::empty(),
        }
    }
}

/// The line for the host: the name in square brackets, a space, the message, a line feed.
pub open spec fn log_line(name: Seq<char>, message: Seq<char>) -> Seq<char> {
    seq!['['] + name + seq![']', ' '] + message + seq!['\n']
}

/// The module path of a record, as characters.
pub open spec fn path_view(module: Option<&str>) -> Option<Seq<char>> {
    match module {
        Some(path) => Some(path@),
        None => None,
    }
}

/// The logger that writes to the host's debug channel.
pub struct PurpleDebugLogger;

impl PurpleDebugLogger {
    /// Whether records of `level` pass: those more serious than debug records.
    pub fn enabled(&self, level: Level) -> (r: bool)
        ensures
            r == (level.rank() < Level::Debug.rank()),
    {
        match level {
            Level::Error | Level::Warn | Level::Info => true,
            Level::Debug | Level::Trace => false,
        }
    }

    /// The call of the host's debug function for one record: the host's level,
    /// no category, and the line made of the record's name and message.
    pub fn log(&self, level: Level, target: &str, module: Option<&str>, message: &str) -> (r:
        DebugCall)
        ensures
            r.level == purple_level(level),
            r.category@.len() == 0,
            r.line@ == log_line(log_target(target@, path_view(module)), message@),
    {
        let purple_level = match level {
            Level::Error => PurpleDebugLevel::Error,
            Level::Warn => PurpleDebugLevel::Warning,
            Level::Info => PurpleDebugLevel::Info,
            _ => PurpleDebugLevel::Misc,
        };
        let name: &str = if target.unicode_len() > 0 {
            target
        } else {
            match module {
                Some(path) => path,
                None => "",
            }
        };
        proof {
            reveal_strlit("");
            reveal_strlit("[");
            reveal_strlit("] ");
            reveal_strlit("\n");
        }
        let mut line = String::from_str("[");
        line.append(name);
        line.append("] ");
        line.append(message);
        line.append("\n");
        proof {
            assert("["@ =~= seq!['[']);
            assert("] "@ =~= seq![']', ' ']);
            assert("\n"@ =~= seq!['\n']);
            assert(name@ =~= log_target(target@, path_view(module)));
        }
        DebugCall { level: purple_level, category: String::new(), line }
    }

    /// Empties the buffer and hands out the records it held, the oldest first,
    /// for each to be logged.
    pub fn flush(&self, buffer: &mut Vec<BufferedRecord>) -> (r: Vec<BufferedRecord>)
        ensures
            r@ == old(buffer)@,
            final(buffer)@.len() == 0,
    {
        let mut taken: Vec<BufferedRecord> = Vec::new();
        core::mem::swap(buffer, &mut taken);
        taken
    }
}

} // verus!
