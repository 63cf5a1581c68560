use vstd::prelude::*;

verus! {

/// Verbosity levels for console and file logging, from silent to most
/// verbose. They mirror the level filters of the `log` crate one for one.
#[derive(Clone, Copy, Debug, PartialEq, Eq, Hash, Structural)]
pub enum LogLevel {
    Off,
    Error,
    Warn,
    Info,
    Debug,
    Trace,
}

/// Policy applied when a required runtime is missing.
#[derive(Clone, Copy, Debug, PartialEq, Eq, Hash, Structural)]
pub enum MissingRuntimeBehavior {
    AutoInstall,
    Prompt,
    Warn,
    Ignore,
}

/// The only failure this library reports: a string that was explicitly
/// configured could not be parsed into its target type (a log level, a
/// missing-runtime policy, or a job count).
#[derive(Clone, Copy, Debug, PartialEq, Eq, Hash, Structural)]
pub enum SettingsError {
    MalformedValue,
}

} // verus!
