//! The settings of a run: where the database is, where the output goes, and
//! how much is logged.

use vstd::prelude::*;
use vstd::utf8::is_ascii_chars;
use crate::discovery::{RunError, RunErrorKind, RunErrorView};
use crate::text::push_char;

verus! {

/// The database file that is read where none is named.
pub const DEFAULT_DATABASE: &'static str = "appliance_stats.sqlite";

/// The output directory that is written where none is named.
pub const DEFAULT_OUTPUT_DIRECTORY: &'static str = "sqlite_dump";

/// The log level that holds where none is named.
pub const DEFAULT_LOG_LEVEL: &'static str = "NONE";

/// How much is logged.
#[derive(Clone, Copy, Debug, PartialEq, Eq, Structural)]
pub enum LogLevel {
    Error,
    Warn,
    Info,
    Debug,
    Trace,
    Off,
}

/// The lower-case form of an ASCII letter; any other character as it is.
pub open spec fn lower(c: char) -> char {
    if 'A' <= c && c <= 'Z' {
        ((c as u8 + 32) as u8) as char
    } else {
        c
    }
}

/// `s` with its ASCII letters in lower case.
pub open spec fn lower_case(s: Seq<char>) -> Seq<char> {
    s.map_values(|c: char| lower(c))
}

/// The lower-case form of `word` by the rules of Unicode.
pub uninterp spec fn unicode_lower_case(word: Seq<char>) -> Seq<char>;

/// `str::to_lowercase` of std, which lowers a text by the rules of Unicode.
/// Nothing is proved of it. The contract gives its result the name
/// `unicode_lower_case`: it depends on the text alone.
#[verifier::external_body]
pub(crate) fn unicode_lowered(word: &str) -> (out: String)
    ensures
        out@ == unicode_lower_case(word@),
{
    word.to_lowercase()
}

/// The lower-case form of a word. A word of ASCII characters has its letters
/// lowered one by one; a word with any other character is lowered by the
/// rules of Unicode.
pub open spec fn lowered(word: Seq<char>) -> Seq<char> {
    if is_ascii_chars(word) {
        lower_case(word)
    } else {
        unicode_lower_case(word)
    }
}

/// The log level that a word in lower case names.
pub open spec fn level_named(word: Seq<char>) -> Option<LogLevel> {
    if word == "error"@ {
        Some(LogLevel::Error)
    } else if word == "warn"@ {
        Some(LogLevel::Warn)
    } else if word == "info"@ {
        Some(LogLevel::Info)
    } else if word == "debug"@ {
        Some(LogLevel::Debug)
    } else if word == "trace"@ {
        Some(LogLevel::Trace)
    } else if word == "none"@ {
        Some(LogLevel::Off)
    } else {
        None
    }
}

/// The failure for a word that names no log level.
pub open spec fn invalid_level(word: Seq<char>) -> RunErrorView {
    RunErrorView { kind: RunErrorKind::Config, cause: "Invalid log level '"@ + word + "'"@ }
}

/// What a word in lower case gives: the level it names, or the failure that
/// reports the word.
pub open spec fn level_or_failure(word: Seq<char>) -> Result<LogLevel, RunErrorView> {
    match level_named(word) {
        Some(level) => Ok(level),
        None => Err(invalid_level(word)),
    }
}

/// The name of a level in upper case, as the logger's filter takes it.
pub open spec fn filter_text(level: LogLevel) -> Seq<char> {
    match level {
        LogLevel::Error => "ERROR"@,
        LogLevel::Warn => "WARN"@,
        LogLevel::Info => "INFO"@,
        LogLevel::Debug => "DEBUG"@,
        LogLevel::Trace => "TRACE"@,
        LogLevel::Off => "NONE"@,
    }
}

fn lower_of(c: char) -> (out: char)
    ensures
        out == lower(c),
{
    if 'A' <= c && c <= 'Z' {
        ((c as u8) + 32) as char
    } else {
        c
    }
}

/// The lower-case form of a word.
pub fn lower_word(word: &str) -> (out: String)
    ensures
        out@ == lowered(word@),
{
    if !word.is_ascii() {
        return unicode_lowered(word);
    }
    let n = word.unicode_len();
    let mut out = String::new();
    let mut i: usize = 0;
    while i < n
        invariant
            i <= n,
            n == word@.len(),
            out@ == lower_case(word@).take(i as int),
        decreases n - i,
    {
        push_char(&mut out, lower_of(word.get_char(i)));
        proof {
            assert(lower_case(word@).take(i + 1) =~= lower_case(word@).take(i as int).push(
                lower_case(word@)[i as int],
            ));
        }
        i += 1;
    }
    proof {
        assert(lower_case(word@).take(n as int) == lower_case(word@));
    }
    out
}

fn same_text(a: &str, b: &str) -> (out: bool)
    ensures
        out == (a@ == b@),
{
    String::from_str(a) == String::from_str(b)
}

impl LogLevel {
    /// The name of this level in upper case, as the logger's filter takes it.
    pub fn filter(&self) -> (out: &'static str)
        ensures
            out@ == filter_text(*self),
    {
        match self {
            LogLevel::Error => "ERROR",
            LogLevel::Warn => "WARN",
            LogLevel::Info => "INFO",
            LogLevel::Debug => "DEBUG",
            LogLevel::Trace => "TRACE",
            LogLevel::Off => "NONE",
        }
    }
}

/// The log level that a word in lower case names: one of `error`, `warn`,
/// `info`, `debug`, `trace` and `none`. Any other word is a failure of the
/// configuration, which reports the word.
pub fn level_of(word: &str) -> (out: Result<LogLevel, RunError>)
    ensures
        match out {
            Ok(level) => level_or_failure(word@) == Ok::<LogLevel, RunErrorView>(level),
            Err(e) => level_or_failure(word@) == Err::<LogLevel, RunErrorView>(e@),
        },
{
    if same_text(word, "error") {
        Ok(LogLevel::Error)
    } else if same_text(word, "warn") {
        Ok(LogLevel::Warn)
    } else if same_text(word, "info") {
        Ok(LogLevel::Info)
    } else if same_text(word, "debug") {
        Ok(LogLevel::Debug)
    } else if same_text(word, "trace") {
        Ok(LogLevel::Trace)
    } else if same_text(word, "none") {
        Ok(LogLevel::Off)
    } else {
        let mut cause = String::from_str("Invalid log level '");
        cause.append(word);
        cause.append("'");
        Err(RunError { kind: RunErrorKind::Config, cause })
    }
}

/// Reads a log level: one of `error`, `warn`, `info`, `debug`, `trace` and
/// `none`, in any case. Any other word is a failure of the configuration,
/// which reports the word in lower case.
pub fn parse_log_level(word: &str) -> (out: Result<LogLevel, RunError>)
    ensures
        match out {
            Ok(level) => level_or_failure(lowered(word@)) == Ok::<LogLevel, RunErrorView>(level),
            Err(e) => level_or_failure(lowered(word@)) == Err::<LogLevel, RunErrorView>(e@),
        },
{
    let lower = lower_word(word);
    level_of(lower.as_str())
}

} // verus!
