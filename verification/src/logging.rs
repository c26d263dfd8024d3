//! Log levels: the one a pass is configured with, and the one a failure is
//! reported at.

use vstd::prelude::*;
use vstd::string::StringExecFns;
use crate::outside::{lowercase, to_lowercase};

verus! {

/// How much weight a log entry carries, from least to most.
#[derive(Clone, Copy, Debug, PartialEq, Eq, Structural)]
pub enum Level {
    Trace,
    Debug,
    Info,
    Warn,
    Error,
}

impl Level {
    /// The place of a level in the order from least to most weight.
    pub open spec fn weight(self) -> nat {
        match self {
            Level::Trace => 0,
            Level::Debug => 1,
            Level::Info => 2,
            Level::Warn => 3,
            Level::Error => 4,
        }
    }
}

/// The level at which a failure is reported: `Error` when nothing will be
/// tried after it, `Warn` when a further attempt is still to come.
pub open spec fn failure_level(is_final: bool) -> Level {
    if is_final {
        Level::Error
    } else {
        Level::Warn
    }
}

/// The level at which a failure is reported.
pub fn warn_or_error(is_error: bool) -> (level: Level)
    ensures
        level == failure_level(is_error),
{
    if is_error {
        Level::Error
    } else {
        Level::Warn
    }
}

/// Of two failures, the one after which nothing more is tried is reported at
/// the higher level.
pub proof fn final_failure_weighs_more(passing: bool, last: bool)
    requires
        !passing,
        last,
    ensures
        failure_level(passing).weight() < failure_level(last).weight(),
{
}

/// The log level asked for when the process starts.
#[derive(Clone, Copy, Debug, PartialEq, Eq, Structural)]
pub enum LogLevel {
    /// Nothing usable was asked for.
    Default,
    Trace,
    Debug,
    Info,
    Warn,
    Error,
}

/// The level that a lower-case name stands for.
pub open spec fn level_named(name: Seq<char>) -> Option<LogLevel> {
    if name == "trace"@ {
        Some(LogLevel::Trace)
    } else if name == "debug"@ {
        Some(LogLevel::Debug)
    } else if name == "info"@ {
        Some(LogLevel::Info)
    } else if name == "warn"@ {
        Some(LogLevel::Warn)
    } else if name == "error"@ {
        Some(LogLevel::Error)
    } else {
        None
    }
}

fn is_text(name: &String, text: &str) -> (same: bool)
    ensures
        same == (name@ == text@),
{
    let other = String::from_str(text);
    *name == other
}

impl LogLevel {
    /// The level that a name stands for, if it is one of the five names in
    /// lower case.
    pub fn named(name: &String) -> (level: Option<LogLevel>)
        ensures
            level == level_named(name@),
    {
        if is_text(name, "trace") {
            Some(LogLevel::Trace)
        } else if is_text(name, "debug") {
            Some(LogLevel::Debug)
        } else if is_text(name, "info") {
            Some(LogLevel::Info)
        } else if is_text(name, "warn") {
            Some(LogLevel::Warn)
        } else if is_text(name, "error") {
            Some(LogLevel::Error)
        } else {
            None
        }
    }

    /// The level that a text asks for, whatever its case.
    pub fn from_string(source: String) -> (level: Option<LogLevel>)
        ensures
            level == level_named(lowercase(source@)),
    {
        let lower = to_lowercase(source.as_str());
        LogLevel::named(&lower)
    }

    /// The level at which entries are let through: `Info` unless another one
    /// was asked for.
    pub open spec fn threshold(self) -> Level {
        match self {
            LogLevel::Default => Level::Info,
            LogLevel::Trace => Level::Trace,
            LogLevel::Debug => Level::Debug,
            LogLevel::Info => Level::Info,
            LogLevel::Warn => Level::Warn,
            LogLevel::Error => Level::Error,
        }
    }

    /// The level at which entries are let through.
    pub fn level(&self) -> (level: Level)
        ensures
            level == self.threshold(),
    {
        match self {
            LogLevel::Default => Level::Info,
            LogLevel::Trace => Level::Trace,
            LogLevel::Debug => Level::Debug,
            LogLevel::Info => Level::Info,
            LogLevel::Warn => Level::Warn,
            LogLevel::Error => Level::Error,
        }
    }

    /// The name of the threshold, in upper case.
    pub open spec fn threshold_name(self) -> Seq<char> {
        match self.threshold() {
            Level::Trace => "TRACE"@,
            Level::Debug => "DEBUG"@,
            Level::Info => "INFO"@,
            Level::Warn => "WARN"@,
            Level::Error => "ERROR"@,
        }
    }

    /// The name of the level at which entries are let through.
    pub fn log_level(&self) -> (name: &'static str)
        ensures
            name@ == self.threshold_name(),
    {
        match self {
            LogLevel::Default => "INFO",
            LogLevel::Trace => "TRACE",
            LogLevel::Debug => "DEBUG",
            LogLevel::Info => "INFO",
            LogLevel::Warn => "WARN",
            LogLevel::Error => "ERROR",
        }
    }
}

} // verus!
