//! Log entries and the arguments that select them.

use crate::form::{field, push_field};
use vstd::prelude::*;

verus! {

#[derive(Debug, Clone, PartialEq, Eq)]
pub struct Log {
    /// ID of the message
    pub id: u64,
    /// Text of the message
    pub message: String,
    /// Milliseconds since epoch
    pub timestamp: u64,
    /// Type of the message: Log::NORMAL: `1`, Log::INFO: `2`, Log::WARNING:
    /// `4`, Log::CRITICAL: `8`
    pub log_type: i8,
}

/// The kind of a log message.
#[derive(Debug, Clone, Copy, PartialEq, Eq, PartialOrd, Ord, Structural)]
pub enum LogLevel {
    /// A normal message.
    Normal,
    /// An informational message.
    Info,
    /// A warning.
    Warning,
    /// A critical message.
    Critical,
}

impl LogLevel {
    /// The number of the value on the wire.
    pub open spec fn spec_code(self) -> i8 {
        match self {
            LogLevel::Normal => 1,
            LogLevel::Info => 2,
            LogLevel::Warning => 4,
            LogLevel::Critical => 8,
        }
    }

    /// The value that a number on the wire stands for.
    pub open spec fn spec_from_code(code: i8) -> Option<LogLevel> {
        if code == 1 {
            Some(LogLevel::Normal)
        } else if code == 2 {
            Some(LogLevel::Info)
        } else if code == 4 {
            Some(LogLevel::Warning)
        } else if code == 8 {
            Some(LogLevel::Critical)
        } else {
            None
        }
    }

    /// The number of the value on the wire.
    pub fn code(&self) -> (c: i8)
        ensures
            c == self.spec_code(),
    {
        match self {
            LogLevel::Normal => 1,
            LogLevel::Info => 2,
            LogLevel::Warning => 4,
            LogLevel::Critical => 8,
        }
    }

    /// Reads a number on the wire.
    pub fn from_code(code: i8) -> (r: Option<LogLevel>)
        ensures
            r == Self::spec_from_code(code),
    {
        if code == 1 {
            Some(LogLevel::Normal)
        } else if code == 2 {
            Some(LogLevel::Info)
        } else if code == 4 {
            Some(LogLevel::Warning)
        } else if code == 8 {
            Some(LogLevel::Critical)
        } else {
            None
        }
    }

    /// A number that is read gives back the value that wrote it, and a
    /// value that is read from a number writes that number again.
    pub proof fn lemma_code_round_trip(value: LogLevel, code: i8)
        ensures
            Self::spec_from_code(value.spec_code()) == Some(value),
            Self::spec_from_code(code) matches Some(read) ==> read.spec_code() == code,
    {
    }
}

#[derive(Debug, Clone, PartialEq, Eq)]
pub struct GetLogsArg {
    /// Include normal messages (default: `true`)
    pub normal: Option<bool>,
    /// Include info messages (default: `true`)
    pub info: Option<bool>,
    /// Include warning messages (default: `true`)
    pub warning: Option<bool>,
    /// Include critical messages (default: `true`)
    pub critical: Option<bool>,
    /// Exclude messages with "message id" <= `last_known_id` (default: `-1`)
    pub last_known_id: Option<i64>,
}

impl GetLogsArg {
    /// The fields that are sent: each one that is set, under its own name.
    pub open spec fn spec_fields(self) -> Seq<(Seq<char>, Seq<char>)> {
        field("normal"@, self.normal) + field("info"@, self.info) + field(
            "warning"@,
            self.warning,
        ) + field("critical"@, self.critical) + field("last_known_id"@, self.last_known_id)
    }

    /// The fields that are sent.
    pub fn fields(&self) -> (out: Vec<(String, String)>)
        ensures
            out.deep_view() == self.spec_fields(),
    {
        let mut out: Vec<(String, String)> = Vec::new();
        push_field(&mut out, "normal", &self.normal);
        push_field(&mut out, "info", &self.info);
        push_field(&mut out, "warning", &self.warning);
        push_field(&mut out, "critical", &self.critical);
        push_field(&mut out, "last_known_id", &self.last_known_id);
        out
    }
}

} // verus!
