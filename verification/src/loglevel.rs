//! Verbosity levels for the diagnostic output, and the two adjustments
//! the command line applies to them.

use vstd::prelude::*;

verus! {

/// A verbosity threshold, ordered from silent to most talkative.
#[derive(Clone, Copy, Debug, PartialEq, Eq, Structural)]
pub enum LevelFilter {
    Off,
    Error,
    Warn,
    Info,
    Debug,
    Trace,
}

/// The level one step more talkative than `level`; `Trace` stays `Trace`.
pub open spec fn spec_increment_loglevel(level: LevelFilter) -> LevelFilter {
    match level {
        LevelFilter::Off => LevelFilter::Error,
        LevelFilter::Error => LevelFilter::Warn,
        LevelFilter::Warn => LevelFilter::Info,
        LevelFilter::Info => LevelFilter::Debug,
        LevelFilter::Debug => LevelFilter::Trace,
        LevelFilter::Trace => LevelFilter::Trace,
    }
}

/// The level one step quieter than `level`; `Off` stays `Off`.
pub open spec fn spec_decrement_loglevel(level: LevelFilter) -> LevelFilter {
    match level {
        LevelFilter::Off => LevelFilter::Off,
        LevelFilter::Error => LevelFilter::Off,
        LevelFilter::Warn => LevelFilter::Error,
        LevelFilter::Info => LevelFilter::Warn,
        LevelFilter::Debug => LevelFilter::Info,
        LevelFilter::Trace => LevelFilter::Debug,
    }
}

/// Raise the verbosity by one level, saturating at `Trace`.
pub fn increment_loglevel(level: LevelFilter) -> (raised: LevelFilter)
    ensures
        raised == spec_increment_loglevel(level),
{
    match level {
        LevelFilter::Off => LevelFilter::Error,
        LevelFilter::Error => LevelFilter::Warn,
        LevelFilter::Warn => LevelFilter::Info,
        LevelFilter::Info => LevelFilter::Debug,
        LevelFilter::Debug => LevelFilter::Trace,
        LevelFilter::Trace => LevelFilter::Trace,
    }
}

/// Lower the verbosity by one level, saturating at `Off`.
pub fn decrement_loglevel(level: LevelFilter) -> (lowered: LevelFilter)
    ensures
        lowered == spec_decrement_loglevel(level),
{
    match level {
        LevelFilter::Off => LevelFilter::Off,
        LevelFilter::Error => LevelFilter::Off,
        LevelFilter::Warn => LevelFilter::Error,
        LevelFilter::Info => LevelFilter::Warn,
        LevelFilter::Debug => LevelFilter::Info,
        LevelFilter::Trace => LevelFilter::Debug,
    }
}

} // verus!
