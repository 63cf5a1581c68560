use vstd::prelude::*;
use vstd::string::StrSliceExecFns;
use crate::text::{eq_ignore_case, str_eq_ci};
use crate::types::{LogLevel, MissingRuntimeBehavior};

verus! {

/// The level name grammar: the six names below, matched
/// ASCII-case-insensitively; anything else is malformed.
pub open spec fn spec_parse_level(s: Seq<char>) -> Option<LogLevel> {
    if str_eq_ci(s, "off"@) {
        Some(LogLevel::Off)
    } else if str_eq_ci(s, "error"@) {
        Some(LogLevel::Error)
    } else if str_eq_ci(s, "warn"@) {
        Some(LogLevel::Warn)
    } else if str_eq_ci(s, "info"@) {
        Some(LogLevel::Info)
    } else if str_eq_ci(s, "debug"@) {
        Some(LogLevel::Debug)
    } else if str_eq_ci(s, "trace"@) {
        Some(LogLevel::Trace)
    } else {
        None
    }
}

/// Relies on `log::LevelFilter`'s `FromStr`: it matches the input
/// ASCII-case-insensitively against the six names "OFF", "ERROR", "WARN",
/// "INFO", "DEBUG" and "TRACE" (in that order, though at most one can
/// match), and rejects every other string.
#[verifier::external_body]
pub(crate) fn parse_level(s: &str) -> (r: Option<LogLevel>)
    ensures
        r == spec_parse_level(s@),
{
    match s.parse::<log::LevelFilter>() {
        Ok(log::LevelFilter::Off) => Some(LogLevel::Off),
        Ok(log::LevelFilter::Error) => Some(LogLevel::Error),
        Ok(log::LevelFilter::Warn) => Some(LogLevel::Warn),
        Ok(log::LevelFilter::Info) => Some(LogLevel::Info),
        Ok(log::LevelFilter::Debug) => Some(LogLevel::Debug),
        Ok(log::LevelFilter::Trace) => Some(LogLevel::Trace),
        Err(_) => None,
    }
}

/// The missing-runtime policy grammar: the four names below, matched
/// ASCII-case-insensitively; anything else is malformed.
pub open spec fn spec_parse_behavior(s: Seq<char>) -> Option<MissingRuntimeBehavior> {
    if str_eq_ci(s, "autoinstall"@) {
        Some(MissingRuntimeBehavior::AutoInstall)
    } else if str_eq_ci(s, "prompt"@) {
        Some(MissingRuntimeBehavior::Prompt)
    } else if str_eq_ci(s, "warn"@) {
        Some(MissingRuntimeBehavior::Warn)
    } else if str_eq_ci(s, "ignore"@) {
        Some(MissingRuntimeBehavior::Ignore)
    } else {
        None
    }
}

/// Parses a missing-runtime policy name.
pub fn parse_behavior(s: &str) -> (r: Option<MissingRuntimeBehavior>)
    ensures
        r == spec_parse_behavior(s@),
{
    if eq_ignore_case(s, "autoinstall") {
        Some(MissingRuntimeBehavior::AutoInstall)
    } else if eq_ignore_case(s, "prompt") {
        Some(MissingRuntimeBehavior::Prompt)
    } else if eq_ignore_case(s, "warn") {
        Some(MissingRuntimeBehavior::Warn)
    } else if eq_ignore_case(s, "ignore") {
        Some(MissingRuntimeBehavior::Ignore)
    } else {
        None
    }
}

/// The permissive boolean grammar: exactly the strings "y", "yes", "true",
/// "1" and "on", up to ASCII case, count as true; every other string counts
/// as false. No string is ever rejected.
pub open spec fn spec_truthy(s: Seq<char>) -> bool {
    ||| str_eq_ci(s, "y"@)
    ||| str_eq_ci(s, "yes"@)
    ||| str_eq_ci(s, "true"@)
    ||| str_eq_ci(s, "1"@)
    ||| str_eq_ci(s, "on"@)
}

/// Recognizes the truthy strings of the permissive boolean grammar.
pub fn val_is_true(val: &str) -> (r: bool)
    ensures
        r == spec_truthy(val@),
{
    eq_ignore_case(val, "y") || eq_ignore_case(val, "yes") || eq_ignore_case(val, "true")
        || eq_ignore_case(val, "1") || eq_ignore_case(val, "on")
}

/// Whether every character of `s` is an ASCII decimal digit.
pub open spec fn spec_digit_chars(s: Seq<char>) -> bool {
    forall|i: int| 0 <= i < s.len() ==> 48 <= #[trigger] (s[i] as u32) <= 57
}

/// Whether `s` is a run of ASCII decimal digits, at least one long.
pub open spec fn spec_all_digits(s: Seq<char>) -> bool {
    s.len() > 0 && spec_digit_chars(s)
}

/// The value of a sequence of ASCII decimal digits.
pub open spec fn spec_digits_value(s: Seq<char>) -> int
    decreases s.len(),
{
    if s.len() == 0 {
        0
    } else {
        spec_digits_value(s.drop_last()) * 10 + (s.last() as u32 - 48)
    }
}

/// The unsigned decimal grammar of `str::parse::<usize>`: an optional
/// leading '+', then one or more ASCII digits, whose value must fit in
/// `usize`; everything else is malformed.
pub open spec fn spec_parse_usize(s: Seq<char>) -> Option<usize> {
    let digits = if s.len() > 0 && s[0] == '+' {
        s.drop_first()
    } else {
        s
    };
    if spec_all_digits(digits) && spec_digits_value(digits) <= usize::MAX {
        Some(spec_digits_value(digits) as usize)
    } else {
        None
    }
}

proof fn lemma_digits_value_nonneg(t: Seq<char>)
    requires
        spec_digit_chars(t),
    ensures
        spec_digits_value(t) >= 0,
    decreases t.len(),
{
    if t.len() > 0 {
        assert(spec_digit_chars(t.drop_last()));
        lemma_digits_value_nonneg(t.drop_last());
    }
}

proof fn lemma_digits_value_prefix_le(t: Seq<char>, m: int)
    requires
        spec_digit_chars(t),
        0 <= m <= t.len(),
    ensures
        spec_digits_value(t.take(m)) <= spec_digits_value(t),
    decreases t.len() - m,
{
    if m == t.len() {
        assert(t.take(m) =~= t);
    } else {
        assert(t.take(m + 1).drop_last() =~= t.take(m));
        assert(t.take(m + 1).last() == t[m]);
        assert(spec_digit_chars(t.take(m)));
        lemma_digits_value_nonneg(t.take(m));
        lemma_digits_value_prefix_le(t, m + 1);
    }
}

/// Parses an unsigned decimal job count: an optional leading '+', then one
/// or more ASCII digits, whose value must fit in `usize`; anything else is
/// malformed. This is the grammar of `str::parse::<usize>`.
pub fn parse_usize(s: &str) -> (r: Option<usize>)
    ensures
        r == spec_parse_usize(s@),
{
    let n = s.unicode_len();
    let mut i: usize = 0;
    if n > 0 && s.get_char(0) == '+' {
        i = 1;
    }
    let ghost start: int = i as int;
    let ghost digits: Seq<char> = if s@.len() > 0 && s@[0] == '+' {
        s@.drop_first()
    } else {
        s@
    };
    proof {
        assert(digits =~= s@.subrange(start, n as int));
    }
    if i >= n {
        // no digits at all
        return None;
    }
    let mut acc: usize = 0;
    while i < n
        invariant
            n == s@.len(),
            0 <= start < n,
            start <= i <= n,
            digits == (if s@.len() > 0 && s@[0] == '+' {
                s@.drop_first()
            } else {
                s@
            }),
            digits =~= s@.subrange(start, n as int),
            spec_digit_chars(digits.take(i - start)),
            acc == spec_digits_value(digits.take(i - start)),
        decreases n - i,
    {
        let c = s.get_char(i);
        let u = c as u32;
        proof {
            assert(digits[i - start] == s@[i as int]);
        }
        if u < 48 || u > 57 {
            proof {
                assert(!(48 <= (digits[i - start] as u32) <= 57));
                assert(!spec_digit_chars(digits));
            }
            return None;
        }
        let d = (u - 48) as usize;
        proof {
            assert(digits.take(i - start + 1).drop_last() =~= digits.take(i - start));
            assert(digits.take(i - start + 1).last() == digits[i - start]);
        }
        if acc > (usize::MAX - d) / 10 {
            proof {
                // the value grows past usize::MAX here, so the whole run of
                // digits cannot fit, whatever follows
                assert(acc * 10 + d > usize::MAX);
                assert(spec_digits_value(digits.take(i - start + 1)) == acc * 10 + d);
                if spec_digit_chars(digits) {
                    lemma_digits_value_prefix_le(digits, i - start + 1);
                }
            }
            return None;
        }
        proof {
            assert(acc * 10 + d <= usize::MAX);
        }
        acc = acc * 10 + d;
        i = i + 1;
    }
    proof {
        assert(digits.take(n - start) =~= digits);
    }
    Some(acc)
}

} // verus!
