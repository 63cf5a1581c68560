//! A layered configuration resolver.
//!
//! Sources (environment-like mappings, or other resolvers) feed explicitly
//! set values into a sparse overlay; a deterministic recompute pass derives
//! the full resolved view from the overlay and built-in defaults.

mod overlay;
mod parse;
mod resolver;
mod seed;
mod text;
mod types;

pub use overlay::Overlay;
pub use overlay::SettingsKey;
pub use overlay::SpecValue;
pub use overlay::Value;
pub use parse::parse_behavior;
pub use parse::spec_all_digits;
pub use parse::parse_usize;
pub use parse::spec_digit_chars;
pub use parse::spec_digits_value;
pub use parse::spec_parse_behavior;
pub use parse::spec_parse_level;
pub use parse::spec_parse_usize;
pub use parse::spec_truthy;
pub use parse::val_is_true;
pub use resolver::ResolvedView;
pub use resolver::Settings2;
pub use resolver::bool_entry;
pub use resolver::env_lookup;
pub use resolver::int_entry;
pub use resolver::lemma_file_level_override;
pub use resolver::lemma_file_level_tracks_console;
pub use resolver::lemma_raw_absent_independence;
pub use resolver::lemma_raw_mode_precedence;
pub use resolver::lemma_recompute_idempotent;
pub use resolver::spec_env_overlay;
pub use resolver::spec_env_overlay_rest;
pub use resolver::spec_recompute;
pub use resolver::str_entry;
pub use seed::default_file_log_level_from;
pub use seed::default_log_level_from;
pub use seed::opt_str_view;
pub use seed::spec_file_seed;
pub use seed::spec_scan_args;
pub use seed::spec_seed_fallback;
pub use text::char_eq_ci;
pub use text::eq_ignore_case;
pub use text::lower_code;
pub use text::str_eq_ci;
pub use types::LogLevel;
pub use types::MissingRuntimeBehavior;
pub use types::SettingsError;
