//! Severity levels and the mapping from the source framework's vocabulary
//! to the sink's vocabulary.

use vstd::prelude::*;

verus! {

/// Severity of an event as the source logging framework grades it,
/// ordered from least to most urgent.
#[derive(Clone, Copy, Debug, PartialEq, Eq, Structural)]
pub enum Severity {
    Trace,
    Debug,
    Info,
    Warn,
    Error,
}

/// Severity of a text-log record in the sink's vocabulary.
#[derive(Clone, Copy, Debug, PartialEq, Eq, Structural)]
pub enum SinkLevel {
    Trace,
    Debug,
    Info,
    Warn,
    Error,
}

/// The image of each source severity in the sink's vocabulary: every source
/// level has an explicit mapping, with no default arm.
pub open spec fn level_map(level: Severity) -> SinkLevel {
    match level {
        Severity::Trace => SinkLevel::Trace,
        Severity::Debug => SinkLevel::Debug,
        Severity::Info => SinkLevel::Info,
        Severity::Warn => SinkLevel::Warn,
        Severity::Error => SinkLevel::Error,
    }
}

/// Map a source severity to the sink severity under which the record is
/// submitted. Total: every source level has a defined image.
pub fn to_rerun_log_level(level: &Severity) -> (r: SinkLevel)
    ensures
        r == level_map(*level),
{
    match *level {
        Severity::Trace => SinkLevel::Trace,
        Severity::Debug => SinkLevel::Debug,
        Severity::Info => SinkLevel::Info,
        Severity::Warn => SinkLevel::Warn,
        Severity::Error => SinkLevel::Error,
    }
}

/// The sink's name for each severity, as its text-log vocabulary spells it.
pub open spec fn sink_label(level: SinkLevel) -> Seq<char> {
    match level {
        SinkLevel::Trace => "TRACE"@,
        SinkLevel::Debug => "DEBUG"@,
        SinkLevel::Info => "INFO"@,
        SinkLevel::Warn => "WARN"@,
        SinkLevel::Error => "ERROR"@,
    }
}

impl SinkLevel {
    /// The label under which the sink files a record of this severity.
    pub fn label(&self) -> (r: &'static str)
        ensures
            r@ == sink_label(*self),
    {
        match self {
            SinkLevel::Trace => "TRACE",
            SinkLevel::Debug => "DEBUG",
            SinkLevel::Info => "INFO",
            SinkLevel::Warn => "WARN",
            SinkLevel::Error => "ERROR",
        }
    }
}

/// No two source severities collapse onto one sink severity: the level
/// mapping is injective.
pub proof fn lemma_level_map_injective(a: Severity, b: Severity)
    ensures
        level_map(a) == level_map(b) ==> a == b,
{
}

} // verus!
