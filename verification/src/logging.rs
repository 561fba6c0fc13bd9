use vstd::prelude::*;
use std::str::FromStr;
use crate::text::push_text;

verus! {

/// The most verbose kind of message that is shown, or none.
#[derive(PartialEq, Eq, Structural, Clone, Copy, Debug)]
pub enum LevelFilter {
    Off,
    Error,
    Warn,
    Info,
    Debug,
    Trace,
}

/// How important a message is.
#[derive(PartialEq, Eq, Structural, Clone, Copy, Debug)]
pub enum Level {
    Error,
    Warn,
    Info,
    Debug,
    Trace,
}

/// The verbosity rank of a filter: `Off` is 0, `Trace` 5.
pub open spec fn filter_rank(f: LevelFilter) -> int {
    match f {
        LevelFilter::Off => 0,
        LevelFilter::Error => 1,
        LevelFilter::Warn => 2,
        LevelFilter::Info => 3,
        LevelFilter::Debug => 4,
        LevelFilter::Trace => 5,
    }
}

/// The verbosity rank of a message level: `Error` is 1, `Trace` 5.
pub open spec fn level_rank(l: Level) -> int {
    match l {
        Level::Error => 1,
        Level::Warn => 2,
        Level::Info => 3,
        Level::Debug => 4,
        Level::Trace => 5,
    }
}

/// The name of a filter, as the command line and log output spell it.
pub open spec fn filter_name(f: LevelFilter) -> Seq<char> {
    match f {
        LevelFilter::Off => "OFF"@,
        LevelFilter::Error => "ERROR"@,
        LevelFilter::Warn => "WARN"@,
        LevelFilter::Info => "INFO"@,
        LevelFilter::Debug => "DEBUG"@,
        LevelFilter::Trace => "TRACE"@,
    }
}

/// The name of a message level.
pub open spec fn level_name(l: Level) -> Seq<char> {
    match l {
        Level::Error => "ERROR"@,
        Level::Warn => "WARN"@,
        Level::Info => "INFO"@,
        Level::Debug => "DEBUG"@,
        Level::Trace => "TRACE"@,
    }
}

/// `c` with an ASCII upper case letter turned to lower case.
pub open spec fn ascii_lower(c: char) -> char {
    if 'A' <= c && c <= 'Z' {
        ((c as u32) + 32) as char
    } else {
        c
    }
}

/// `true` iff `a` and `b` are equal when ASCII letters are compared
/// without regard to case.
pub open spec fn eq_ignore_ascii_case(a: Seq<char>, b: Seq<char>) -> bool {
    &&& a.len() == b.len()
    &&& forall|i: int| 0 <= i < a.len() ==> ascii_lower(#[trigger] a[i]) == ascii_lower(b[i])
}

/// `log::LevelFilter::from_str`. The crate compares `s`, without regard to
/// ASCII case, with the names `OFF`, `ERROR`, `WARN`, `INFO`, `DEBUG`,
/// `TRACE` and returns the filter of the first that is equal; the claim is
/// that the result is a filter whose name equals `s` in that sense, and
/// that there is none when no name does.
#[verifier::external_body]
fn parse_log_filter(s: &str) -> (r: Option<LevelFilter>)
    ensures
        r matches Some(f) ==> eq_ignore_ascii_case(filter_name(f), s@),
        r is None ==> forall|f: LevelFilter| !eq_ignore_ascii_case(#[trigger] filter_name(f), s@),
{
    match log::LevelFilter::from_str(s) {
        Ok(log::LevelFilter::Off) => Some(LevelFilter::Off),
        Ok(log::LevelFilter::Error) => Some(LevelFilter::Error),
        Ok(log::LevelFilter::Warn) => Some(LevelFilter::Warn),
        Ok(log::LevelFilter::Info) => Some(LevelFilter::Info),
        Ok(log::LevelFilter::Debug) => Some(LevelFilter::Debug),
        Ok(log::LevelFilter::Trace) => Some(LevelFilter::Trace),
        Err(_) => None,
    }
}

/// The filter named by `s`, if any, case being ignored.
pub open spec fn spec_filter_from_str(s: Seq<char>) -> Option<LevelFilter> {
    if eq_ignore_ascii_case(filter_name(LevelFilter::Off), s) {
        Some(LevelFilter::Off)
    } else if eq_ignore_ascii_case(filter_name(LevelFilter::Error), s) {
        Some(LevelFilter::Error)
    } else if eq_ignore_ascii_case(filter_name(LevelFilter::Warn), s) {
        Some(LevelFilter::Warn)
    } else if eq_ignore_ascii_case(filter_name(LevelFilter::Info), s) {
        Some(LevelFilter::Info)
    } else if eq_ignore_ascii_case(filter_name(LevelFilter::Debug), s) {
        Some(LevelFilter::Debug)
    } else if eq_ignore_ascii_case(filter_name(LevelFilter::Trace), s) {
        Some(LevelFilter::Trace)
    } else {
        None
    }
}

/// No two filter names are equal without regard to case, so at most one
/// filter matches a string.
pub proof fn lemma_filter_names_distinct(f: LevelFilter, g: LevelFilter, s: Seq<char>)
    requires
        eq_ignore_ascii_case(filter_name(f), s),
        eq_ignore_ascii_case(filter_name(g), s),
    ensures
        f == g,
{
    reveal_strlit("OFF");
    reveal_strlit("ERROR");
    reveal_strlit("WARN");
    reveal_strlit("INFO");
    reveal_strlit("DEBUG");
    reveal_strlit("TRACE");
    if f != g {
        let a = filter_name(f);
        let b = filter_name(g);
        if a.len() == b.len() {
            assert(ascii_lower(a[0]) == ascii_lower(s[0]));
            assert(ascii_lower(b[0]) == ascii_lower(s[0]));
            assert(ascii_lower(a[1]) == ascii_lower(s[1]));
            assert(ascii_lower(b[1]) == ascii_lower(s[1]));
        }
    }
}

/// Parses a log filter name, ignoring ASCII case.
pub fn filter_from_str(s: &str) -> (r: Option<LevelFilter>)
    ensures
        r == spec_filter_from_str(s@),
{
    let r = parse_log_filter(s);
    proof {
        match r {
            Some(f) => {
                match spec_filter_from_str(s@) {
                    Some(g) => lemma_filter_names_distinct(f, g, s@),
                    None => {
                        assert(eq_ignore_ascii_case(filter_name(f), s@));
                        match f {
                            LevelFilter::Off => {},
                            LevelFilter::Error => {},
                            LevelFilter::Warn => {},
                            LevelFilter::Info => {},
                            LevelFilter::Debug => {},
                            LevelFilter::Trace => {},
                        }
                    },
                }
            },
            None => {
                assert(!eq_ignore_ascii_case(filter_name(LevelFilter::Off), s@));
                assert(!eq_ignore_ascii_case(filter_name(LevelFilter::Error), s@));
                assert(!eq_ignore_ascii_case(filter_name(LevelFilter::Warn), s@));
                assert(!eq_ignore_ascii_case(filter_name(LevelFilter::Info), s@));
                assert(!eq_ignore_ascii_case(filter_name(LevelFilter::Debug), s@));
                assert(!eq_ignore_ascii_case(filter_name(LevelFilter::Trace), s@));
            },
        }
    }
    r
}

/// A filter's name is read back as that filter.
pub proof fn lemma_filter_name_round_trip(f: LevelFilter)
    ensures
        spec_filter_from_str(filter_name(f)) == Some(f),
{
    let n = filter_name(f);
    assert(eq_ignore_ascii_case(n, n));
    match spec_filter_from_str(n) {
        Some(g) => lemma_filter_names_distinct(f, g, n),
        None => {},
    }
}

fn level_str(l: Level) -> (s: &'static str)
    ensures
        s@ == level_name(l),
{
    match l {
        Level::Error => "ERROR",
        Level::Warn => "WARN",
        Level::Info => "INFO",
        Level::Debug => "DEBUG",
        Level::Trace => "TRACE",
    }
}

fn filter_at_least(f: LevelFilter, rank: u8) -> (b: bool)
    ensures
        b == (filter_rank(f) >= rank),
{
    let r: u8 = match f {
        LevelFilter::Off => 0,
        LevelFilter::Error => 1,
        LevelFilter::Warn => 2,
        LevelFilter::Info => 3,
        LevelFilter::Debug => 4,
        LevelFilter::Trace => 5,
    };
    r >= rank
}

fn level_number(l: Level) -> (n: u8)
    ensures
        n == level_rank(l),
{
    match l {
        Level::Error => 1,
        Level::Warn => 2,
        Level::Info => 3,
        Level::Debug => 4,
        Level::Trace => 5,
    }
}

/// The line a shown message is written as: at debug verbosity and above
/// `(target) LEVEL: message`, otherwise `LEVEL: message`.
pub open spec fn log_line(max: LevelFilter, level: Level, target: Seq<char>, message: Seq<char>) -> Seq<char> {
    if filter_rank(max) >= 4 {
        "("@ + target + ") "@ + level_name(level) + ": "@ + message
    } else {
        level_name(level) + ": "@ + message
    }
}

/// Writes log messages to standard error.
pub struct Logger;

impl Logger {
    /// Whether a message of `level` is shown under the filter `max`.
    pub fn enabled(level: Level, max: LevelFilter) -> (b: bool)
        ensures
            b == (level_rank(level) <= filter_rank(max)),
    {
        filter_at_least(max, level_number(level))
    }

    /// The line to write for a message of `level` from `target` under the
    /// filter `max`, or nothing if the message is not shown.
    pub fn format_line(max: LevelFilter, level: Level, target: &str, message: &str) -> (r: Option<
        String,
    >)
        ensures
            r is Some <==> level_rank(level) <= filter_rank(max),
            r matches Some(line) ==> line@ == log_line(max, level, target@, message@),
    {
        if !Self::enabled(level, max) {
            return None;
        }
        let mut line = String::new();
        if filter_at_least(max, 4) {
            push_text(&mut line, "(");
            push_text(&mut line, target);
            push_text(&mut line, ") ");
        }
        push_text(&mut line, level_str(level));
        push_text(&mut line, ": ");
        push_text(&mut line, message);
        proof {
            if filter_rank(max) >= 4 {
                assert(line@ =~= log_line(max, level, target@, message@));
            } else {
                assert(line@ =~= log_line(max, level, target@, message@));
            }
        }
        Some(line)
    }
}

/// The filter named like a message level.
pub open spec fn filter_of(l: Level) -> LevelFilter {
    match l {
        Level::Error => LevelFilter::Error,
        Level::Warn => LevelFilter::Warn,
        Level::Info => LevelFilter::Info,
        Level::Debug => LevelFilter::Debug,
        Level::Trace => LevelFilter::Trace,
    }
}

/// Levels and filters are ordered alike: `Off` is below every level, the
/// filters rise strictly from `Off` through `Error`, `Warn`, `Info` and
/// `Debug` to `Trace`, a level has the rank of the filter of the same
/// name, and so a message is shown under the filter of its own name and
/// under every more verbose one, and under no less verbose one.
pub proof fn lemma_levels_match_filters(l: Level, f: LevelFilter)
    ensures
        filter_rank(LevelFilter::Off) == 0,
        filter_rank(LevelFilter::Off) < filter_rank(LevelFilter::Error),
        filter_rank(LevelFilter::Error) < filter_rank(LevelFilter::Warn),
        filter_rank(LevelFilter::Warn) < filter_rank(LevelFilter::Info),
        filter_rank(LevelFilter::Info) < filter_rank(LevelFilter::Debug),
        filter_rank(LevelFilter::Debug) < filter_rank(LevelFilter::Trace),
        level_rank(l) == filter_rank(filter_of(l)),
        level_name(l) == filter_name(filter_of(l)),
        level_rank(l) <= filter_rank(filter_of(l)),
        (level_rank(l) <= filter_rank(f)) == (filter_rank(filter_of(l)) <= filter_rank(f)),
        level_rank(l) > filter_rank(LevelFilter::Off),
{
}

/// Log lines spell the levels as the `log` crate prints them, upper case:
/// `ERROR`, `WARN`, `INFO`, `DEBUG`, `TRACE`; a shown line is the level,
/// a colon and the message, preceded by the target in brackets at debug
/// verbosity and above.
pub proof fn lemma_log_line_form(max: LevelFilter, target: Seq<char>, message: Seq<char>)
    ensures
        level_name(Level::Error) == "ERROR"@,
        level_name(Level::Warn) == "WARN"@,
        level_name(Level::Info) == "INFO"@,
        level_name(Level::Debug) == "DEBUG"@,
        level_name(Level::Trace) == "TRACE"@,
        log_line(LevelFilter::Info, Level::Error, target, message) == "ERROR"@ + ": "@ + message,
        log_line(LevelFilter::Debug, Level::Debug, target, message) == "("@ + target + ") "@
            + "DEBUG"@ + ": "@ + message,
        log_line(LevelFilter::Trace, Level::Info, target, message) == "("@ + target + ") "@
            + "INFO"@ + ": "@ + message,
{
}

} // verus!
