//! Severity vocabularies and the mapping between them.
//!
//! The host instrumentation framework orders its levels
//! trace < debug < info < warn < error (error being the most severe).
//! The provider orders its own levels verbose < info < warn < critical,
//! with an extra "no level" value that the mapping never produces for a
//! defined host level. The mapping collapses trace and debug into
//! verbose and is monotonic: a more severe host level never maps to a
//! less severe provider level.

use vstd::prelude::*;

verus! {

/// A severity level in the host instrumentation framework's vocabulary.
#[derive(Clone, Copy, PartialEq, Eq, Structural, Debug)]
pub enum TracingLevel {
    Trace,
    Debug,
    Info,
    Warn,
    Error,
}

impl TracingLevel {
    /// Rank in the "at least as severe as" order: error is the most severe.
    pub open spec fn severity(self) -> int {
        match self {
            TracingLevel::Trace => 0,
            TracingLevel::Debug => 1,
            TracingLevel::Info => 2,
            TracingLevel::Warn => 3,
            TracingLevel::Error => 4,
        }
    }
}

/// A severity level in the provider's vocabulary.
#[derive(Clone, Copy, PartialEq, Eq, Structural, Debug)]
pub enum EtwLevel {
    /// The provider's "no level" fallback (numeric code 0). Never produced
    /// by the mapping for a defined host level.
    Unset,
    Critical,
    Warn,
    Info,
    Verbose,
}

impl EtwLevel {
    /// Rank in the "at least as severe as" order: critical is the most
    /// severe; the "no level" fallback ranks below every real level.
    pub open spec fn severity(self) -> int {
        match self {
            EtwLevel::Unset => 0,
            EtwLevel::Verbose => 1,
            EtwLevel::Info => 2,
            EtwLevel::Warn => 3,
            EtwLevel::Critical => 4,
        }
    }

    /// The numeric code under which the OS tracing subsystem knows this
    /// level (smaller codes are more severe; 0 means "no level").
    pub open spec fn spec_code(self) -> u8 {
        match self {
            EtwLevel::Unset => 0,
            EtwLevel::Critical => 1,
            EtwLevel::Warn => 3,
            EtwLevel::Info => 4,
            EtwLevel::Verbose => 5,
        }
    }

    /// Returns the numeric code of this level.
    pub fn code(self) -> (c: u8)
        ensures
            c == self.spec_code(),
    {
        match self {
            EtwLevel::Unset => 0,
            EtwLevel::Critical => 1,
            EtwLevel::Warn => 3,
            EtwLevel::Info => 4,
            EtwLevel::Verbose => 5,
        }
    }
}

/// The level-mapping policy: error maps to critical, warn to warn, info to
/// info, and both debug and trace to verbose.
pub open spec fn spec_map_level(level: TracingLevel) -> EtwLevel {
    match level {
        TracingLevel::Error => EtwLevel::Critical,
        TracingLevel::Warn => EtwLevel::Warn,
        TracingLevel::Info => EtwLevel::Info,
        TracingLevel::Debug => EtwLevel::Verbose,
        TracingLevel::Trace => EtwLevel::Verbose,
    }
}

/// Translates a host level into the provider level every outgoing call
/// carries.
pub fn map_level(level: TracingLevel) -> (r: EtwLevel)
    ensures
        r == spec_map_level(level),
{
    match level {
        TracingLevel::Error => EtwLevel::Critical,
        TracingLevel::Warn => EtwLevel::Warn,
        TracingLevel::Info => EtwLevel::Info,
        TracingLevel::Debug => EtwLevel::Verbose,
        TracingLevel::Trace => EtwLevel::Verbose,
    }
}

/// Law: the level mapping is total and monotonic. Every defined host level
/// maps to a real provider level, never the "no level" fallback; and
/// whenever one host level is at least as severe as another, its provider
/// level is at least as severe as the other's.
pub proof fn lemma_map_level_total_monotonic(a: TracingLevel, b: TracingLevel)
    ensures
        spec_map_level(a) != EtwLevel::Unset,
        a.severity() >= b.severity() ==> spec_map_level(a).severity() >= spec_map_level(b).severity(),
{
}

} // verus!
