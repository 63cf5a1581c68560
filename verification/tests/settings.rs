use std::collections::HashMap;

use rtx_settings::LogLevel;
use rtx_settings::MissingRuntimeBehavior;
use rtx_settings::Settings2;
use rtx_settings::SettingsError;
use rtx_settings::SettingsKey;
use rtx_settings::Value;
use rtx_settings::default_file_log_level_from;
use rtx_settings::default_log_level_from;
use rtx_settings::eq_ignore_case;
use rtx_settings::parse_usize;
use rtx_settings::val_is_true;
use rtx_settings::Overlay;

fn args(list: &[&str]) -> Vec<String> {
    list.iter().map(|s| s.to_string()).collect()
}

#[test]
fn truthy_strings_resolve_to_true() {
    assert!(val_is_true("y"));
    assert!(val_is_true("Y"));
    assert!(val_is_true("yes"));
    assert!(val_is_true("YES"));
    assert!(val_is_true("TRUE"));
    assert!(val_is_true("tRuE"));
    assert!(val_is_true("1"));
    assert!(val_is_true("on"));
    assert!(val_is_true("On"));
}

#[test]
fn other_strings_resolve_to_false() {
    assert!(!val_is_true(""));
    assert!(!val_is_true("no"));
    assert!(!val_is_true("0"));
    assert!(!val_is_true("false"));
    assert!(!val_is_true("yess"));
    assert!(!val_is_true("2"));
    assert!(!val_is_true(" y"));
}

#[test]
fn eq_ignore_case_basics() {
    assert!(eq_ignore_case("DeBuG", "debug"));
    assert!(eq_ignore_case("", ""));
    assert!(!eq_ignore_case("debug", "debu"));
    assert!(!eq_ignore_case("warn", "wart"));
}

#[test]
fn defaults_are_documented_builtins() {
    let s = Settings2::new(LogLevel::Info, LogLevel::Info);
    assert!(s.t);
    assert_eq!(s.jobs, 4);
    assert_eq!(s.missing_runtime_behavior, MissingRuntimeBehavior::Warn);
    assert!(!s.experimental);
    assert!(!s.raw);
    assert!(!s.verbose);
    assert_eq!(s.log_level, LogLevel::Info);
    assert_eq!(s.log_file_level, LogLevel::Info);
}

#[test]
fn recompute_is_idempotent() {
    let mut s = Settings2::new(LogLevel::Info, LogLevel::Info);
    s.set_str(SettingsKey::LogLevel, "debug");
    s.set_int(SettingsKey::Jobs, 8);
    s.set_bool(SettingsKey::Experimental, true);
    s.reset().unwrap();
    let first = s.snapshot();
    s.reset().unwrap();
    let second = s.snapshot();
    assert_eq!(first, second);
}

#[test]
fn recompute_on_empty_overlay_preserves_defaults() {
    let mut s = Settings2::new(LogLevel::Warn, LogLevel::Warn);
    s.reset().unwrap();
    assert_eq!(s.log_level, LogLevel::Warn);
    assert_eq!(s.log_file_level, LogLevel::Warn);
    assert_eq!(s.jobs, 4);
    assert_eq!(s.missing_runtime_behavior, MissingRuntimeBehavior::Warn);
    assert!(!s.raw);
    assert!(!s.verbose);
    assert!(!s.experimental);
}

#[test]
fn raw_mode_wins_over_jobs_and_verbose() {
    let mut s = Settings2::new(LogLevel::Info, LogLevel::Info);
    s.set_bool(SettingsKey::Raw, true);
    s.set_int(SettingsKey::Jobs, 8);
    s.set_bool(SettingsKey::Verbose, false);
    s.reset().unwrap();
    assert!(s.raw);
    assert_eq!(s.jobs, 1);
    assert!(s.verbose);
}

#[test]
fn absent_raw_applies_jobs_and_verbose_independently() {
    let mut s = Settings2::new(LogLevel::Info, LogLevel::Info);
    s.set_int(SettingsKey::Jobs, 8);
    s.set_bool(SettingsKey::Verbose, false);
    s.reset().unwrap();
    assert!(!s.raw);
    assert_eq!(s.jobs, 8);
    assert!(!s.verbose);
}

#[test]
fn explicit_raw_false_shields_jobs_and_verbose() {
    let mut s = Settings2::new(LogLevel::Info, LogLevel::Info);
    s.set_bool(SettingsKey::Raw, false);
    s.set_int(SettingsKey::Jobs, 8);
    s.set_bool(SettingsKey::Verbose, true);
    s.reset().unwrap();
    assert!(!s.raw);
    assert_eq!(s.jobs, 4);
    assert!(!s.verbose);
}

#[test]
fn file_log_level_tracks_console_level() {
    let mut s = Settings2::new(LogLevel::Info, LogLevel::Info);
    s.set_str(SettingsKey::LogLevel, "debug");
    s.reset().unwrap();
    assert_eq!(s.log_level, LogLevel::Debug);
    assert_eq!(s.log_file_level, LogLevel::Debug);
}

#[test]
fn file_log_level_override_is_kept() {
    let mut s = Settings2::new(LogLevel::Info, LogLevel::Info);
    s.set_str(SettingsKey::LogLevel, "debug");
    s.set_str(SettingsKey::LogFileLevel, "error");
    s.reset().unwrap();
    assert_eq!(s.log_level, LogLevel::Debug);
    assert_eq!(s.log_file_level, LogLevel::Error);
}

#[test]
fn level_names_parse_case_insensitively() {
    let mut s = Settings2::new(LogLevel::Info, LogLevel::Info);
    s.set_str(SettingsKey::LogLevel, "TRACE");
    s.reset().unwrap();
    assert_eq!(s.log_level, LogLevel::Trace);
    s.set_str(SettingsKey::LogLevel, "oFf");
    s.reset().unwrap();
    assert_eq!(s.log_level, LogLevel::Off);
}

#[test]
fn malformed_level_is_fatal_and_leaves_state() {
    let mut s = Settings2::new(LogLevel::Info, LogLevel::Info);
    s.set_str(SettingsKey::LogLevel, "bogus");
    let before = s.snapshot();
    assert_eq!(s.reset(), Err(SettingsError::MalformedValue));
    assert_eq!(s.snapshot(), before);
}

#[test]
fn behavior_names_parse_case_insensitively() {
    let mut s = Settings2::new(LogLevel::Info, LogLevel::Info);
    s.set_str(SettingsKey::MissingRuntimeBehavior, "AUTOINSTALL");
    s.reset().unwrap();
    assert_eq!(s.missing_runtime_behavior, MissingRuntimeBehavior::AutoInstall);
    s.set_str(SettingsKey::MissingRuntimeBehavior, "Prompt");
    s.reset().unwrap();
    assert_eq!(s.missing_runtime_behavior, MissingRuntimeBehavior::Prompt);
    s.set_str(SettingsKey::MissingRuntimeBehavior, "ignore");
    s.reset().unwrap();
    assert_eq!(s.missing_runtime_behavior, MissingRuntimeBehavior::Ignore);
}

#[test]
fn malformed_behavior_is_fatal() {
    let mut s = Settings2::new(LogLevel::Info, LogLevel::Info);
    s.set_str(SettingsKey::MissingRuntimeBehavior, "shrug");
    assert_eq!(s.reset(), Err(SettingsError::MalformedValue));
}

#[test]
fn composition_prefers_the_applied_source() {
    let mut a = Settings2::new(LogLevel::Info, LogLevel::Info);
    a.set_int(SettingsKey::Jobs, 2);
    a.reset().unwrap();
    let mut b = Settings2::new(LogLevel::Info, LogLevel::Info);
    b.set_int(SettingsKey::Jobs, 16);
    b.reset().unwrap();
    a.apply(&b).unwrap();
    assert_eq!(a.jobs, 16);
}

#[test]
fn composition_copies_keys_absent_on_the_left() {
    let mut a = Settings2::new(LogLevel::Info, LogLevel::Info);
    let mut b = Settings2::new(LogLevel::Info, LogLevel::Info);
    b.set_bool(SettingsKey::Verbose, true);
    b.set_str(SettingsKey::LogLevel, "warn");
    a.apply(&b).unwrap();
    assert!(a.verbose);
    assert_eq!(a.log_level, LogLevel::Warn);
}

#[test]
fn composition_keeps_keys_absent_on_the_right() {
    let mut a = Settings2::new(LogLevel::Info, LogLevel::Info);
    a.set_int(SettingsKey::Jobs, 2);
    let b = Settings2::new(LogLevel::Info, LogLevel::Info);
    a.apply(&b).unwrap();
    assert_eq!(a.jobs, 2);
}

#[test]
fn load_env_ingests_all_recognized_variables() {
    let mut env = HashMap::new();
    env.insert("RTX_LOG_LEVEL".to_string(), "debug".to_string());
    env.insert("RTX_LOG_FILE_LEVEL".to_string(), "error".to_string());
    env.insert("RTX_RAW".to_string(), "no".to_string());
    env.insert("RTX_JOBS".to_string(), "7".to_string());
    env.insert("RTX_VERBOSE".to_string(), "1".to_string());
    env.insert("RTX_MISSING_RUNTIME_BEHAVIOR".to_string(), "ignore".to_string());
    env.insert("RTX_EXPERIMENTAL".to_string(), "true".to_string());
    let mut s = Settings2::new(LogLevel::Info, LogLevel::Info);
    s.load_env(env).unwrap();
    assert_eq!(s.log_level, LogLevel::Debug);
    assert_eq!(s.log_file_level, LogLevel::Error);
    assert!(!s.raw);
    assert_eq!(s.jobs, 4);
    assert!(!s.verbose);
    assert_eq!(s.missing_runtime_behavior, MissingRuntimeBehavior::Ignore);
    assert!(s.experimental);
}

#[test]
fn load_env_without_recognized_names_keeps_defaults() {
    let mut env = HashMap::new();
    env.insert("HOME".to_string(), "/root".to_string());
    let mut s = Settings2::new(LogLevel::Info, LogLevel::Info);
    s.load_env(env).unwrap();
    assert_eq!(s.jobs, 4);
    assert_eq!(s.log_level, LogLevel::Info);
}

#[test]
fn load_env_jobs_applies_without_raw() {
    let mut env = HashMap::new();
    env.insert("RTX_JOBS".to_string(), "7".to_string());
    env.insert("RTX_VERBOSE".to_string(), "on".to_string());
    let mut s = Settings2::new(LogLevel::Info, LogLevel::Info);
    s.load_env(env).unwrap();
    assert_eq!(s.jobs, 7);
    assert!(s.verbose);
}

#[test]
fn load_env_accepts_plus_signed_jobs() {
    let mut env = HashMap::new();
    env.insert("RTX_JOBS".to_string(), "+8".to_string());
    let mut s = Settings2::new(LogLevel::Info, LogLevel::Info);
    s.load_env(env).unwrap();
    assert_eq!(s.jobs, 8);
}

#[test]
fn malformed_jobs_is_fatal_not_a_default() {
    let mut env = HashMap::new();
    env.insert("RTX_JOBS".to_string(), "abc".to_string());
    let mut s = Settings2::new(LogLevel::Info, LogLevel::Info);
    let before = s.snapshot();
    assert_eq!(s.load_env(env), Err(SettingsError::MalformedValue));
    assert_eq!(s.snapshot(), before);
    assert_eq!(s.jobs, 4);
}

#[test]
fn overflowing_jobs_is_fatal() {
    let mut env = HashMap::new();
    env.insert(
        "RTX_JOBS".to_string(),
        "340282366920938463463374607431768211456".to_string(),
    );
    let mut s = Settings2::new(LogLevel::Info, LogLevel::Info);
    assert_eq!(s.load_env(env), Err(SettingsError::MalformedValue));
}

#[test]
fn malformed_level_in_env_is_fatal() {
    let mut env = HashMap::new();
    env.insert("RTX_LOG_LEVEL".to_string(), "loud".to_string());
    let mut s = Settings2::new(LogLevel::Info, LogLevel::Info);
    assert_eq!(s.load_env(env), Err(SettingsError::MalformedValue));
    assert_eq!(s.log_level, LogLevel::Info);
}

#[test]
fn raw_from_env_forces_one_quiet_job() {
    let mut env = HashMap::new();
    env.insert("RTX_RAW".to_string(), "yes".to_string());
    env.insert("RTX_JOBS".to_string(), "9".to_string());
    env.insert("RTX_VERBOSE".to_string(), "no".to_string());
    let mut s = Settings2::new(LogLevel::Info, LogLevel::Info);
    s.load_env(env).unwrap();
    assert!(s.raw);
    assert_eq!(s.jobs, 1);
    assert!(s.verbose);
}

#[test]
fn job_counts_parse_like_unsigned_decimals() {
    assert_eq!(parse_usize("0"), Some(0));
    assert_eq!(parse_usize("007"), Some(7));
    assert_eq!(parse_usize("+42"), Some(42));
    assert_eq!(parse_usize("18446744073709551615"), Some(usize::MAX));
    assert_eq!(parse_usize("18446744073709551616"), None);
    assert_eq!(parse_usize(""), None);
    assert_eq!(parse_usize("+"), None);
    assert_eq!(parse_usize("-1"), None);
    assert_eq!(parse_usize("4 "), None);
    assert_eq!(parse_usize("4a"), None);
}

#[test]
fn overlay_set_and_get_round_trip() {
    let mut ov = Overlay::new();
    assert!(ov.get(SettingsKey::Jobs).is_none());
    ov.set(SettingsKey::Jobs, Value::Int(3));
    match ov.get(SettingsKey::Jobs) {
        Some(Value::Int(n)) => assert_eq!(*n, 3),
        _ => panic!("expected an integer entry"),
    }
}

#[test]
fn overlay_replaces_on_resetting_a_key() {
    let mut ov = Overlay::new();
    ov.set(SettingsKey::Verbose, Value::Bool(false));
    ov.set(SettingsKey::Verbose, Value::Bool(true));
    match ov.get(SettingsKey::Verbose) {
        Some(Value::Bool(b)) => assert!(*b),
        _ => panic!("expected a boolean entry"),
    }
}

#[test]
fn seed_scan_takes_equals_form() {
    let a = args(&["rtx", "--log-level=debug"]);
    assert_eq!(default_log_level_from(&a, None), Ok(LogLevel::Debug));
}

#[test]
fn seed_scan_takes_separate_value() {
    let a = args(&["rtx", "--log-level", "warn"]);
    assert_eq!(default_log_level_from(&a, None), Ok(LogLevel::Warn));
}

#[test]
fn seed_scan_takes_shorthand_flags() {
    let a = args(&["rtx", "--debug"]);
    assert_eq!(default_log_level_from(&a, None), Ok(LogLevel::Debug));
    let b = args(&["rtx", "--trace"]);
    assert_eq!(default_log_level_from(&b, None), Ok(LogLevel::Trace));
}

#[test]
fn seed_scan_stops_at_separator() {
    let a = args(&["rtx", "--", "--debug"]);
    assert_eq!(default_log_level_from(&a, None), Ok(LogLevel::Info));
    let env = "error".to_string();
    assert_eq!(default_log_level_from(&a, Some(&env)), Ok(LogLevel::Error));
}

#[test]
fn seed_scan_ignores_trailing_flag_without_value() {
    let a = args(&["rtx", "--log-level"]);
    assert_eq!(default_log_level_from(&a, None), Ok(LogLevel::Info));
}

#[test]
fn seed_scan_malformed_argument_is_fatal() {
    let a = args(&["rtx", "--log-level=loud"]);
    assert_eq!(
        default_log_level_from(&a, None),
        Err(SettingsError::MalformedValue)
    );
    let b = args(&["rtx", "--log-level", "loud"]);
    assert_eq!(
        default_log_level_from(&b, None),
        Err(SettingsError::MalformedValue)
    );
}

#[test]
fn seed_env_fallback_is_forgiving() {
    let a = args(&["rtx"]);
    let good = "trace".to_string();
    assert_eq!(default_log_level_from(&a, Some(&good)), Ok(LogLevel::Trace));
    let bad = "loud".to_string();
    assert_eq!(default_log_level_from(&a, Some(&bad)), Ok(LogLevel::Info));
    assert_eq!(default_log_level_from(&a, None), Ok(LogLevel::Info));
}

#[test]
fn file_seed_prefers_its_own_variable() {
    let v = "error".to_string();
    assert_eq!(
        default_file_log_level_from(Some(&v), LogLevel::Debug),
        Ok(LogLevel::Error)
    );
    assert_eq!(
        default_file_log_level_from(None, LogLevel::Debug),
        Ok(LogLevel::Debug)
    );
    let bad = "loud".to_string();
    assert_eq!(
        default_file_log_level_from(Some(&bad), LogLevel::Debug),
        Err(SettingsError::MalformedValue)
    );
}

#[test]
fn setters_do_not_touch_the_view_until_reset() {
    let mut s = Settings2::new(LogLevel::Info, LogLevel::Info);
    s.set_int(SettingsKey::Jobs, 12);
    s.set_bool(SettingsKey::Raw, true);
    s.set_str(SettingsKey::LogLevel, "trace");
    assert_eq!(s.jobs, 4);
    assert!(!s.raw);
    assert_eq!(s.log_level, LogLevel::Info);
    s.reset().unwrap();
    assert_eq!(s.jobs, 1);
    assert!(s.raw);
    assert_eq!(s.log_level, LogLevel::Trace);
}
