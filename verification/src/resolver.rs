use vstd::prelude::*;
use std::collections::HashMap;
use crate::overlay::{Overlay, SettingsKey, SpecValue, Value};
use crate::parse::{
    parse_behavior, parse_level, parse_usize, spec_parse_behavior, spec_parse_level,
    spec_parse_usize, spec_truthy, val_is_true,
};
use crate::types::{LogLevel, MissingRuntimeBehavior, SettingsError};

verus! {

/// The resolved settings view: one value for every setting, derived from
/// the overlay and the built-in defaults, always internally consistent.
#[derive(Clone, Copy, Debug, PartialEq, Eq, Structural)]
pub struct ResolvedView {
    pub t: bool,
    pub log_level: LogLevel,
    pub log_file_level: LogLevel,
    pub missing_runtime_behavior: MissingRuntimeBehavior,
    pub raw: bool,
    pub jobs: usize,
    pub verbose: bool,
    pub experimental: bool,
}

/// The string stored under `key`, if the overlay holds a string there.
pub open spec fn str_entry(ov: Map<SettingsKey, SpecValue>, key: SettingsKey) -> Option<
    Seq<char>,
> {
    if ov.contains_key(key) {
        match ov[key] {
            SpecValue::Str(s) => Some(s),
            _ => None,
        }
    } else {
        None
    }
}

/// The boolean stored under `key`, if the overlay holds a boolean there.
pub open spec fn bool_entry(ov: Map<SettingsKey, SpecValue>, key: SettingsKey) -> Option<bool> {
    if ov.contains_key(key) {
        match ov[key] {
            SpecValue::Bool(b) => Some(b),
            _ => None,
        }
    } else {
        None
    }
}

/// The integer stored under `key`, if the overlay holds an integer there.
pub open spec fn int_entry(ov: Map<SettingsKey, SpecValue>, key: SettingsKey) -> Option<usize> {
    if ov.contains_key(key) {
        match ov[key] {
            SpecValue::Int(n) => Some(n),
            _ => None,
        }
    } else {
        None
    }
}

/// The recompute pass: a total, deterministic function from the prior view
/// and the overlay to the next view, or `None` if an explicitly configured
/// string is malformed. The derivation order encodes the cross-field rules:
/// the file log level tracks the just-resolved console level unless it is
/// itself overlaid, and an overlaid `Raw` key takes precedence over the
/// `Jobs` and `Verbose` keys: when raw mode is switched on it forces one
/// job and verbose output, and any overlaid `Jobs`/`Verbose` values are
/// ignored whenever `Raw` is present.
pub open spec fn spec_recompute(prior: ResolvedView, ov: Map<SettingsKey, SpecValue>) -> Option<
    ResolvedView,
> {
    let level_step = match str_entry(ov, SettingsKey::LogLevel) {
        Some(s) => spec_parse_level(s),
        None => Some(prior.log_level),
    };
    match level_step {
        None => None,
        Some(log_level) => {
            let file_step = match str_entry(ov, SettingsKey::LogFileLevel) {
                Some(s) => spec_parse_level(s),
                None => Some(log_level),
            };
            match file_step {
                None => None,
                Some(log_file_level) => {
                    let experimental = match bool_entry(ov, SettingsKey::Experimental) {
                        Some(b) => b,
                        None => prior.experimental,
                    };
                    let raw = match bool_entry(ov, SettingsKey::Raw) {
                        Some(b) => b,
                        None => prior.raw,
                    };
                    let jobs = match bool_entry(ov, SettingsKey::Raw) {
                        Some(b) => if b {
                            1usize
                        } else {
                            prior.jobs
                        },
                        None => match int_entry(ov, SettingsKey::Jobs) {
                            Some(n) => n,
                            None => prior.jobs,
                        },
                    };
                    let verbose = match bool_entry(ov, SettingsKey::Raw) {
                        Some(b) => if b {
                            true
                        } else {
                            prior.verbose
                        },
                        None => match bool_entry(ov, SettingsKey::Verbose) {
                            Some(b) => b,
                            None => prior.verbose,
                        },
                    };
                    let behavior_step = match str_entry(ov, SettingsKey::MissingRuntimeBehavior) {
                        Some(s) => spec_parse_behavior(s),
                        None => Some(prior.missing_runtime_behavior),
                    };
                    match behavior_step {
                        None => None,
                        Some(missing_runtime_behavior) => Some(
                            ResolvedView {
                                t: prior.t,
                                log_level,
                                log_file_level,
                                missing_runtime_behavior,
                                raw,
                                jobs,
                                verbose,
                                experimental,
                            },
                        ),
                    }
                },
            }
        },
    }
}

/// Recomputing is idempotent: a view that recompute produced is a fixed
/// point of recompute under the same overlay.
pub proof fn lemma_recompute_idempotent(
    prior: ResolvedView,
    next: ResolvedView,
    ov: Map<SettingsKey, SpecValue>,
)
    requires
        spec_recompute(prior, ov) == Some(next),
    ensures
        spec_recompute(next, ov) == Some(next),
{
}

/// Raw-mode precedence: whenever the overlay switches raw mode on, a
/// successful recompute yields raw output with one job and verbose on,
/// whatever the overlay holds for `Jobs` and `Verbose`.
pub proof fn lemma_raw_mode_precedence(
    prior: ResolvedView,
    next: ResolvedView,
    ov: Map<SettingsKey, SpecValue>,
)
    requires
        bool_entry(ov, SettingsKey::Raw) == Some(true),
        spec_recompute(prior, ov) == Some(next),
    ensures
        next.raw,
        next.jobs == 1,
        next.verbose,
{
}

/// Raw-mode absence: when the overlay holds no boolean for `Raw`, a
/// successful recompute applies overlaid `Jobs` and `Verbose` values
/// independently, and leaves unset ones at their prior value.
pub proof fn lemma_raw_absent_independence(
    prior: ResolvedView,
    next: ResolvedView,
    ov: Map<SettingsKey, SpecValue>,
)
    requires
        bool_entry(ov, SettingsKey::Raw) is None,
        spec_recompute(prior, ov) == Some(next),
    ensures
        next.jobs == (match int_entry(ov, SettingsKey::Jobs) {
            Some(n) => n,
            None => prior.jobs,
        }),
        next.verbose == (match bool_entry(ov, SettingsKey::Verbose) {
            Some(b) => b,
            None => prior.verbose,
        }),
        next.raw == prior.raw,
{
}

/// File-log-level inheritance: when the overlay holds no string for
/// `LogFileLevel`, a successful recompute makes the file level track the
/// just-resolved console level.
pub proof fn lemma_file_level_tracks_console(
    prior: ResolvedView,
    next: ResolvedView,
    ov: Map<SettingsKey, SpecValue>,
)
    requires
        str_entry(ov, SettingsKey::LogFileLevel) is None,
        spec_recompute(prior, ov) == Some(next),
    ensures
        next.log_file_level == next.log_level,
{
}

/// File-log-level override: when the overlay holds a string for
/// `LogFileLevel`, a successful recompute parses the file level from that
/// string alone, independent of the console level.
pub proof fn lemma_file_level_override(
    prior: ResolvedView,
    next: ResolvedView,
    ov: Map<SettingsKey, SpecValue>,
    s: Seq<char>,
)
    requires
        str_entry(ov, SettingsKey::LogFileLevel) == Some(s),
        spec_recompute(prior, ov) == Some(next),
    ensures
        spec_parse_level(s) == Some(next.log_file_level),
{
}

fn get_str<'a>(ov: &'a Overlay, key: SettingsKey) -> (r: Option<&'a String>)
    ensures
        match r {
            Some(s) => str_entry(ov@, key) == Some(s@),
            None => str_entry(ov@, key) is None,
        },
{
    match ov.get(key) {
        Some(v) => match v {
            Value::String(s) => Some(s),
            _ => None,
        },
        None => None,
    }
}

fn get_bool(ov: &Overlay, key: SettingsKey) -> (r: Option<bool>)
    ensures
        r == bool_entry(ov@, key),
{
    match ov.get(key) {
        Some(v) => match v {
            Value::Bool(b) => Some(*b),
            _ => None,
        },
        None => None,
    }
}

fn get_int(ov: &Overlay, key: SettingsKey) -> (r: Option<usize>)
    ensures
        r == int_entry(ov@, key),
{
    match ov.get(key) {
        Some(v) => match v {
            Value::Int(n) => Some(*n),
            _ => None,
        },
        None => None,
    }
}

/// Runs the recompute pass on `prior` with overlay `ov`.
fn compute(prior: ResolvedView, ov: &Overlay) -> (r: Result<ResolvedView, SettingsError>)
    ensures
        match r {
            Ok(v) => spec_recompute(prior, ov@) == Some(v),
            Err(e) => spec_recompute(prior, ov@) is None && e == SettingsError::MalformedValue,
        },
{
    let log_level = match get_str(ov, SettingsKey::LogLevel) {
        Some(s) => match parse_level(s.as_str()) {
            Some(l) => l,
            None => {
                return Err(SettingsError::MalformedValue);
            },
        },
        None => prior.log_level,
    };
    let log_file_level = match get_str(ov, SettingsKey::LogFileLevel) {
        Some(s) => match parse_level(s.as_str()) {
            Some(l) => l,
            None => {
                return Err(SettingsError::MalformedValue);
            },
        },
        None => log_level,
    };
    let experimental = match get_bool(ov, SettingsKey::Experimental) {
        Some(b) => b,
        None => prior.experimental,
    };
    let mut raw = prior.raw;
    let mut jobs = prior.jobs;
    let mut verbose = prior.verbose;
    match get_bool(ov, SettingsKey::Raw) {
        Some(b) => {
            raw = b;
            if b {
                jobs = 1;
                verbose = true;
            }
        },
        None => {
            if let Some(n) = get_int(ov, SettingsKey::Jobs) {
                jobs = n;
            }
            if let Some(b) = get_bool(ov, SettingsKey::Verbose) {
                verbose = b;
            }
        },
    }
    let missing_runtime_behavior = match get_str(ov, SettingsKey::MissingRuntimeBehavior) {
        Some(s) => match parse_behavior(s.as_str()) {
            Some(m) => m,
            None => {
                return Err(SettingsError::MalformedValue);
            },
        },
        None => prior.missing_runtime_behavior,
    };
    Ok(
        ResolvedView {
            t: prior.t,
            log_level,
            log_file_level,
            missing_runtime_behavior,
            raw,
            jobs,
            verbose,
            experimental,
        },
    )
}

/// The value an environment-like mapping holds under `name`, if any.
pub open spec fn env_lookup(env: Map<Seq<char>, Seq<char>>, name: Seq<char>) -> Option<Seq<char>> {
    if env.contains_key(name) {
        Some(env[name])
    } else {
        None
    }
}

/// Relies on `HashMap::get` with a borrowed `&str` key: it returns a
/// reference to the value stored under the equal `String` key, if any.
/// Stated over the map's deep view; distinct `String` keys always have
/// distinct views, so the deep view loses no entry.
#[verifier::external_body]
fn env_get<'a>(env: &'a HashMap<String, String>, key: &str) -> (r: Option<&'a String>)
    ensures
        match r {
            Some(v) => env.deep_view().contains_key(key@) && env.deep_view()[key@] == v@,
            None => !env.deep_view().contains_key(key@),
        },
{
    env.get(key)
}

/// The overlay after ingesting the last four recognized variables.
pub open spec fn spec_env_overlay_rest(
    ov: Map<SettingsKey, SpecValue>,
    env: Map<Seq<char>, Seq<char>>,
) -> Map<SettingsKey, SpecValue> {
    let ov = match env_lookup(env, "RTX_JOBS"@) {
        Some(v) => ov.insert(
            SettingsKey::Jobs,
            SpecValue::Int(spec_parse_usize(v).unwrap()),
        ),
        None => ov,
    };
    let ov = match env_lookup(env, "RTX_VERBOSE"@) {
        Some(v) => ov.insert(SettingsKey::Verbose, SpecValue::Bool(spec_truthy(v))),
        None => ov,
    };
    let ov = match env_lookup(env, "RTX_MISSING_RUNTIME_BEHAVIOR"@) {
        Some(v) => ov.insert(SettingsKey::MissingRuntimeBehavior, SpecValue::Str(v)),
        None => ov,
    };
    match env_lookup(env, "RTX_EXPERIMENTAL"@) {
        Some(v) => ov.insert(SettingsKey::Experimental, SpecValue::Bool(spec_truthy(v))),
        None => ov,
    }
}

/// The overlay after ingesting every recognized variable present in `env`:
/// log levels and the missing-runtime policy as raw strings, raw, verbose
/// and experimental through the permissive boolean grammar, and the job
/// count as a parsed integer. `None` exactly when the job count is present
/// and malformed.
pub open spec fn spec_env_overlay(
    ov: Map<SettingsKey, SpecValue>,
    env: Map<Seq<char>, Seq<char>>,
) -> Option<Map<SettingsKey, SpecValue>> {
    let ov = match env_lookup(env, "RTX_LOG_LEVEL"@) {
        Some(v) => ov.insert(SettingsKey::LogLevel, SpecValue::Str(v)),
        None => ov,
    };
    let ov = match env_lookup(env, "RTX_LOG_FILE_LEVEL"@) {
        Some(v) => ov.insert(SettingsKey::LogFileLevel, SpecValue::Str(v)),
        None => ov,
    };
    let ov = match env_lookup(env, "RTX_RAW"@) {
        Some(v) => ov.insert(SettingsKey::Raw, SpecValue::Bool(spec_truthy(v))),
        None => ov,
    };
    let jobs_ok = match env_lookup(env, "RTX_JOBS"@) {
        Some(v) => spec_parse_usize(v) is Some,
        None => true,
    };
    if jobs_ok {
        Some(spec_env_overlay_rest(ov, env))
    } else {
        None
    }
}

/// The settings resolver: the resolved view as public fields, plus the
/// sparse overlay of explicitly configured values that the view is derived
/// from.
#[derive(Debug)]
pub struct Settings2 {
    pub t: bool,
    pub log_level: LogLevel,
    pub log_file_level: LogLevel,
    pub missing_runtime_behavior: MissingRuntimeBehavior,
    pub raw: bool,
    pub jobs: usize,
    pub verbose: bool,
    pub experimental: bool,
    vars: Overlay,
}

impl Settings2 {
    /// The resolved view held in the public fields.
    pub closed spec fn resolved(self) -> ResolvedView {
        ResolvedView {
            t: self.t,
            log_level: self.log_level,
            log_file_level: self.log_file_level,
            missing_runtime_behavior: self.missing_runtime_behavior,
            raw: self.raw,
            jobs: self.jobs,
            verbose: self.verbose,
            experimental: self.experimental,
        }
    }

    /// The overlay contents, as a mapping from keys to explicitly set
    /// values.
    pub closed spec fn overlay_map(self) -> Map<SettingsKey, SpecValue> {
        self.vars@
    }

    /// A resolver with an empty overlay and the built-in defaults: the two
    /// seeded log levels, four jobs, the warn policy, and raw, verbose and
    /// experimental all off.
    pub fn new(log_level: LogLevel, log_file_level: LogLevel) -> (r: Settings2)
        ensures
            r.overlay_map() == Map::<SettingsKey, SpecValue>::empty(),
            r.resolved() == (ResolvedView {
                t: true,
                log_level,
                log_file_level,
                missing_runtime_behavior: MissingRuntimeBehavior::Warn,
                raw: false,
                jobs: 4,
                verbose: false,
                experimental: false,
            }),
    {
        Settings2 {
            t: true,
            log_level,
            log_file_level,
            missing_runtime_behavior: MissingRuntimeBehavior::Warn,
            raw: false,
            jobs: 4,
            verbose: false,
            experimental: false,
            vars: Overlay::new(),
        }
    }

    /// The resolved view, as one copyable value.
    pub fn snapshot(&self) -> (r: ResolvedView)
        ensures
            r == self.resolved(),
    {
        ResolvedView {
            t: self.t,
            log_level: self.log_level,
            log_file_level: self.log_file_level,
            missing_runtime_behavior: self.missing_runtime_behavior,
            raw: self.raw,
            jobs: self.jobs,
            verbose: self.verbose,
            experimental: self.experimental,
        }
    }

    fn commit(&mut self, v: ResolvedView)
        ensures
            final(self).resolved() == v,
            final(self).vars == old(self).vars,
    {
        self.t = v.t;
        self.log_level = v.log_level;
        self.log_file_level = v.log_file_level;
        self.missing_runtime_behavior = v.missing_runtime_behavior;
        self.raw = v.raw;
        self.jobs = v.jobs;
        self.verbose = v.verbose;
        self.experimental = v.experimental;
    }

    /// Records that `key` was explicitly set to the string `value`. No
    /// validation happens here; the string is parsed during recompute.
    pub fn set_str(&mut self, key: SettingsKey, value: &str)
        ensures
            final(self).overlay_map() == old(self).overlay_map().insert(
                key,
                SpecValue::Str(value@),
            ),
            final(self).resolved() == old(self).resolved(),
    {
        self.vars.set(key, Value::String(value.to_owned()));
    }

    /// Records that `key` was explicitly set to the integer `value`.
    pub fn set_int(&mut self, key: SettingsKey, value: usize)
        ensures
            final(self).overlay_map() == old(self).overlay_map().insert(
                key,
                SpecValue::Int(value),
            ),
            final(self).resolved() == old(self).resolved(),
    {
        self.vars.set(key, Value::Int(value));
    }

    /// Records that `key` was explicitly set to the boolean `value`.
    pub fn set_bool(&mut self, key: SettingsKey, value: bool)
        ensures
            final(self).overlay_map() == old(self).overlay_map().insert(
                key,
                SpecValue::Bool(value),
            ),
            final(self).resolved() == old(self).resolved(),
    {
        self.vars.set(key, Value::Bool(value));
    }

    /// Rewrites every derived field from the overlay and the current view.
    /// Fails, leaving the resolver untouched, exactly when an explicitly
    /// configured string is malformed.
    pub fn reset(&mut self) -> (r: Result<(), SettingsError>)
        ensures
            match r {
                Ok(_) => {
                    &&& spec_recompute(old(self).resolved(), old(self).overlay_map()) == Some(
                        final(self).resolved(),
                    )
                    &&& final(self).overlay_map() == old(self).overlay_map()
                },
                Err(e) => {
                    &&& spec_recompute(old(self).resolved(), old(self).overlay_map()) is None
                    &&& e == SettingsError::MalformedValue
                    &&& *final(self) == *old(self)
                },
            },
    {
        let prior = self.snapshot();
        match compute(prior, &self.vars) {
            Ok(v) => {
                self.commit(v);
                Ok(())
            },
            Err(e) => Err(e),
        }
    }

    /// Ingests an environment-like mapping: every recognized variable
    /// present in `env` is stored in the overlay, and the view is then
    /// recomputed unconditionally. Fails, leaving the resolver untouched,
    /// exactly when an explicitly supplied value is malformed: a job count
    /// that is not an unsigned integer, or a level or policy string that
    /// does not parse during recompute.
    pub fn load_env(&mut self, env: HashMap<String, String>) -> (r: Result<(), SettingsError>)
        ensures
            ({
                let staged = spec_env_overlay(old(self).overlay_map(), env.deep_view());
                match r {
                    Ok(_) => {
                        &&& staged is Some
                        &&& final(self).overlay_map() == staged.unwrap()
                        &&& spec_recompute(old(self).resolved(), staged.unwrap()) == Some(
                            final(self).resolved(),
                        )
                    },
                    Err(e) => {
                        &&& e == SettingsError::MalformedValue
                        &&& (staged is None || spec_recompute(
                            old(self).resolved(),
                            staged.unwrap(),
                        ) is None)
                        &&& *final(self) == *old(self)
                    },
                }
            }),
    {
        let mut staged = self.vars.duplicate();
        if let Some(v) = env_get(&env, "RTX_LOG_LEVEL") {
            staged.set(SettingsKey::LogLevel, Value::String(v.clone()));
        }
        if let Some(v) = env_get(&env, "RTX_LOG_FILE_LEVEL") {
            staged.set(SettingsKey::LogFileLevel, Value::String(v.clone()));
        }
        if let Some(v) = env_get(&env, "RTX_RAW") {
            let b = val_is_true(v.as_str());
            staged.set(SettingsKey::Raw, Value::Bool(b));
        }
        if let Some(v) = env_get(&env, "RTX_JOBS") {
            match parse_usize(v.as_str()) {
                Some(n) => staged.set(SettingsKey::Jobs, Value::Int(n)),
                None => {
                    return Err(SettingsError::MalformedValue);
                },
            }
        }
        if let Some(v) = env_get(&env, "RTX_VERBOSE") {
            let b = val_is_true(v.as_str());
            staged.set(SettingsKey::Verbose, Value::Bool(b));
        }
        if let Some(v) = env_get(&env, "RTX_MISSING_RUNTIME_BEHAVIOR") {
            staged.set(SettingsKey::MissingRuntimeBehavior, Value::String(v.clone()));
        }
        if let Some(v) = env_get(&env, "RTX_EXPERIMENTAL") {
            let b = val_is_true(v.as_str());
            staged.set(SettingsKey::Experimental, Value::Bool(b));
        }
        let prior = self.snapshot();
        match compute(prior, &staged) {
            Ok(v) => {
                self.commit(v);
                self.vars = staged;
                Ok(())
            },
            Err(e) => Err(e),
        }
    }

    /// Layers `other` on top of `self`: every entry of `other`'s overlay is
    /// copied into `self`'s, overwriting on collision, and the view is
    /// recomputed. Fails, leaving the resolver untouched, exactly when the
    /// merged overlay holds a malformed string.
    pub fn apply(&mut self, other: &Settings2) -> (r: Result<(), SettingsError>)
        ensures
            ({
                let merged = old(self).overlay_map().union_prefer_right(other.overlay_map());
                match r {
                    Ok(_) => {
                        &&& final(self).overlay_map() == merged
                        &&& spec_recompute(old(self).resolved(), merged) == Some(
                            final(self).resolved(),
                        )
                    },
                    Err(e) => {
                        &&& spec_recompute(old(self).resolved(), merged) is None
                        &&& e == SettingsError::MalformedValue
                        &&& *final(self) == *old(self)
                    },
                }
            }),
    {
        let mut merged = self.vars.duplicate();
        merged.merge_from(&other.vars);
        let prior = self.snapshot();
        match compute(prior, &merged) {
            Ok(v) => {
                self.commit(v);
                self.vars = merged;
                Ok(())
            },
            Err(e) => Err(e),
        }
    }
}

} // verus!
