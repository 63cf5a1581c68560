use vstd::prelude::*;
use vstd::string::StrSliceExecFns;
use crate::parse::{parse_level, spec_parse_level};
use crate::types::{LogLevel, SettingsError};

verus! {

/// The view of an optional borrowed string.
pub open spec fn opt_str_view(v: Option<&String>) -> Option<Seq<char>> {
    match v {
        Some(s) => Some(s@),
        None => None,
    }
}

/// The level the startup scan falls back to when the argument list decides
/// nothing: the environment-supplied name if present and well formed,
/// otherwise `Info`. This fallback never fails.
pub open spec fn spec_seed_fallback(env_level: Option<Seq<char>>) -> LogLevel {
    match env_level {
        Some(s) => match spec_parse_level(s) {
            Some(l) => l,
            None => LogLevel::Info,
        },
        None => LogLevel::Info,
    }
}

/// The startup scan for the console log level default, from position `i`
/// on: a literal "--" stops the scan, "--log-level=NAME" and "--log-level
/// NAME" select NAME (malformed NAME is fatal, `None`), "--debug" and
/// "--trace" select fixed levels, and a "--log-level" with no following
/// argument is ignored. If nothing decides, the fallback applies.
pub open spec fn spec_scan_args(
    args: Seq<Seq<char>>,
    env_level: Option<Seq<char>>,
    i: int,
) -> Option<LogLevel>
    decreases args.len() - i,
{
    if i < 0 || i >= args.len() {
        Some(spec_seed_fallback(env_level))
    } else {
        let a = args[i];
        if a == "--"@ {
            Some(spec_seed_fallback(env_level))
        } else if a.len() >= 12 && a.subrange(0, 12) == "--log-level="@ {
            spec_parse_level(a.subrange(12, a.len() as int))
        } else if a == "--log-level"@ {
            if i + 1 < args.len() {
                spec_parse_level(args[i + 1])
            } else {
                spec_scan_args(args, env_level, i + 1)
            }
        } else if a == "--debug"@ {
            Some(LogLevel::Debug)
        } else if a == "--trace"@ {
            Some(LogLevel::Trace)
        } else {
            spec_scan_args(args, env_level, i + 1)
        }
    }
}

fn string_eq_lit(a: &String, lit: &str) -> (r: bool)
    ensures
        r == (a@ == lit@),
{
    let owned = lit.to_owned();
    a.eq(&owned)
}

fn split_log_level_eq<'a>(arg: &'a String) -> (r: Option<&'a str>)
    ensures
        ({
            let a = arg@;
            match r {
                Some(v) => a.len() >= 12 && a.subrange(0, 12) == "--log-level="@ && v@
                    == a.subrange(12, a.len() as int),
                None => !(a.len() >= 12 && a.subrange(0, 12) == "--log-level="@),
            }
        }),
{
    let len = arg.as_str().unicode_len();
    if len < 12 {
        return None;
    }
    let pre = arg.as_str().substring_char(0, 12);
    let lit = "--log-level=".to_owned();
    if pre.to_owned().eq(&lit) {
        Some(arg.as_str().substring_char(12, len))
    } else {
        None
    }
}

fn seed_fallback(env_level: Option<&String>) -> (r: LogLevel)
    ensures
        r == spec_seed_fallback(opt_str_view(env_level)),
{
    match env_level {
        Some(s) => match parse_level(s.as_str()) {
            Some(l) => l,
            None => LogLevel::Info,
        },
        None => LogLevel::Info,
    }
}

/// Scans a startup argument list, and then an optional environment value,
/// for the console log level default. Fails exactly when an argument
/// explicitly names a malformed level.
pub fn default_log_level_from(args: &Vec<String>, env_level: Option<&String>) -> (r: Result<
    LogLevel,
    SettingsError,
>)
    ensures
        ({
            let outcome = spec_scan_args(args.deep_view(), opt_str_view(env_level), 0);
            match r {
                Ok(l) => outcome == Some(l),
                Err(e) => outcome is None && e == SettingsError::MalformedValue,
            }
        }),
{
    let n = args.len();
    let mut i: usize = 0;
    while i < n
        invariant
            n == args.len(),
            i <= n,
            spec_scan_args(args.deep_view(), opt_str_view(env_level), i as int)
                == spec_scan_args(args.deep_view(), opt_str_view(env_level), 0),
        decreases n - i,
    {
        let arg: &String = &args[i];
        proof {
            assert(args.deep_view()[i as int] == args@[i as int].deep_view());
        }
        if string_eq_lit(arg, "--") {
            return Ok(seed_fallback(env_level));
        }
        if let Some(v) = split_log_level_eq(arg) {
            return match parse_level(v) {
                Some(l) => Ok(l),
                None => Err(SettingsError::MalformedValue),
            };
        }
        if string_eq_lit(arg, "--log-level") {
            if i + 1 < n {
                proof {
                    assert(args.deep_view()[i + 1] == args@[i + 1].deep_view());
                }
                return match parse_level(args[i + 1].as_str()) {
                    Some(l) => Ok(l),
                    None => Err(SettingsError::MalformedValue),
                };
            }
            // a trailing "--log-level" with no value is ignored
        } else if string_eq_lit(arg, "--debug") {
            return Ok(LogLevel::Debug);
        } else if string_eq_lit(arg, "--trace") {
            return Ok(LogLevel::Trace);
        }
        i = i + 1;
    }
    Ok(seed_fallback(env_level))
}

/// The file log level default: the environment-supplied name if present
/// (malformed is fatal), otherwise the already-resolved console default.
pub open spec fn spec_file_seed(env_file: Option<Seq<char>>, console: LogLevel) -> Option<
    LogLevel,
> {
    match env_file {
        Some(s) => spec_parse_level(s),
        None => Some(console),
    }
}

/// Seeds the file log level default from an optional environment value,
/// falling back to the console default. Fails exactly when the value is
/// present and malformed.
pub fn default_file_log_level_from(env_file: Option<&String>, console: LogLevel) -> (r: Result<
    LogLevel,
    SettingsError,
>)
    ensures
        match r {
            Ok(l) => spec_file_seed(opt_str_view(env_file), console) == Some(l),
            Err(e) => spec_file_seed(opt_str_view(env_file), console) is None && e
                == SettingsError::MalformedValue,
        },
{
    match env_file {
        Some(s) => match parse_level(s.as_str()) {
            Some(l) => Ok(l),
            None => Err(SettingsError::MalformedValue),
        },
        None => Ok(console),
    }
}

} // verus!
