use vstd::prelude::*;
use crate::io_error::{IoError, IoErrorKind};
use crate::logging::{filter_from_str, filter_name, spec_filter_from_str, LevelFilter};
use crate::text::push_text;

verus! {

/// `true` iff the two strings are equal.
fn str_eq(a: &str, b: &str) -> (r: bool)
    ensures
        r == (a@ == b@),
{
    a.to_owned() == b.to_owned()
}

/// The options of an authentication request given on the command line.
pub struct CliOptions {
    pub config_path: Option<String>,
    pub user: String,
}

/// Why a command line was refused.
pub enum ArgsError {
    /// The configuration file was given more than once.
    ConfigGivenTwice,
    /// The configuration option is the last argument.
    MissingConfigPath,
    /// A positional argument that is not the last one.
    Unrecognised(String),
    /// No user name was given.
    MissingUser,
}

/// The meaning of a command line.
pub enum ParsedArgs {
    /// Show the usage and stop successfully.
    Help,
    /// Stop with a failure.
    Failed(ArgsError),
    /// Authenticate.
    Run(CliOptions),
}

/// The command line, read: its meaning and the log level asked for (by
/// the last verbosity option read before the reading stopped), if any.
pub struct ArgsOutcome {
    pub parsed: ParsedArgs,
    pub log_level: Option<LevelFilter>,
}

/// The meaning of a command line, as plain values.
pub enum ArgsMeaning {
    Help,
    ConfigGivenTwice,
    MissingConfigPath,
    Unrecognised(Seq<char>),
    MissingUser,
    Run { config_path: Option<Seq<char>>, user: Seq<char> },
}

/// The characters of an optional string.
pub open spec fn opt_view(o: Option<String>) -> Option<Seq<char>> {
    match o {
        Some(s) => Some(s@),
        None => None,
    }
}

/// `true` iff `a` is one of the two spellings of the help option.
pub open spec fn is_help(a: Seq<char>) -> bool {
    a == "-h"@ || a == "--help"@
}

/// `true` iff `a` is one of the two spellings of the configuration option.
pub open spec fn is_config(a: Seq<char>) -> bool {
    a == "-c"@ || a == "--config"@
}

/// The value of the `--config=<path>` form of the configuration option,
/// if `a` has that form.
pub open spec fn config_value(a: Seq<char>) -> Option<Seq<char>> {
    if a.len() >= "--config="@.len() && a.take("--config="@.len() as int) == "--config="@ {
        Some(a.skip("--config="@.len() as int))
    } else {
        None
    }
}

/// The log level a verbosity option asks for: `-D`/`--debug` debug
/// logging, `-q`/`--quiet` no logging.
pub open spec fn verbosity_level(a: Seq<char>) -> Option<LevelFilter> {
    if a == "-D"@ || a == "--debug"@ {
        Some(LevelFilter::Debug)
    } else if a == "-q"@ || a == "--quiet"@ {
        Some(LevelFilter::Off)
    } else {
        None
    }
}

/// The meaning of the arguments from position `i` on, the configuration
/// path read so far being `config`.
///
/// Options are read left to right. The help option stops the reading. The
/// configuration option takes the next argument as its value, or, written
/// `--config=<path>`, the text after the `=`. Any other argument is the
/// user name; it must be the last argument.
pub open spec fn args_meaning(args: Seq<Seq<char>>, i: int, config: Option<Seq<char>>) -> ArgsMeaning
    decreases args.len() - i,
{
    if i < 0 || i >= args.len() {
        ArgsMeaning::MissingUser
    } else if is_help(args[i]) {
        ArgsMeaning::Help
    } else if is_config(args[i]) {
        if i + 1 >= args.len() {
            ArgsMeaning::MissingConfigPath
        } else if config is Some {
            ArgsMeaning::ConfigGivenTwice
        } else {
            args_meaning(args, i + 2, Some(args[i + 1]))
        }
    } else if config_value(args[i]) is Some {
        if config is Some {
            ArgsMeaning::ConfigGivenTwice
        } else {
            args_meaning(args, i + 1, config_value(args[i]))
        }
    } else if verbosity_level(args[i]) is Some {
        args_meaning(args, i + 1, config)
    } else if i + 1 < args.len() {
        ArgsMeaning::Unrecognised(args[i])
    } else {
        ArgsMeaning::Run { config_path: config, user: args[i] }
    }
}

/// The log level asked for when the reading stops, reading from position
/// `i` on with `level` asked for so far.
pub open spec fn args_log_level(
    args: Seq<Seq<char>>,
    i: int,
    config: Option<Seq<char>>,
    level: Option<LevelFilter>,
) -> Option<LevelFilter>
    decreases args.len() - i,
{
    if i < 0 || i >= args.len() {
        level
    } else if is_help(args[i]) {
        level
    } else if is_config(args[i]) {
        if i + 1 >= args.len() || config is Some {
            level
        } else {
            args_log_level(args, i + 2, Some(args[i + 1]), level)
        }
    } else if config_value(args[i]) is Some {
        if config is Some {
            level
        } else {
            args_log_level(args, i + 1, config_value(args[i]), level)
        }
    } else if verbosity_level(args[i]) is Some {
        args_log_level(args, i + 1, config, verbosity_level(args[i]))
    } else {
        level
    }
}

/// The value of `arg` if it is the `--config=<path>` form of the
/// configuration option.
fn config_value_of(arg: &str) -> (r: Option<String>)
    ensures
        opt_view(r) == config_value(arg@),
{
    let prefix: &str = "--config=";
    let n = arg.unicode_len();
    let p = prefix.unicode_len();
    if n >= p && str_eq(arg.substring_char(0, p), prefix) {
        Some(arg.substring_char(p, n).to_owned())
    } else {
        None
    }
}

impl ParsedArgs {
    pub open spec fn meaning(&self) -> ArgsMeaning {
        match self {
            ParsedArgs::Help => ArgsMeaning::Help,
            ParsedArgs::Failed(ArgsError::ConfigGivenTwice) => ArgsMeaning::ConfigGivenTwice,
            ParsedArgs::Failed(ArgsError::MissingConfigPath) => ArgsMeaning::MissingConfigPath,
            ParsedArgs::Failed(ArgsError::Unrecognised(a)) => ArgsMeaning::Unrecognised(a@),
            ParsedArgs::Failed(ArgsError::MissingUser) => ArgsMeaning::MissingUser,
            ParsedArgs::Run(o) => ArgsMeaning::Run {
                config_path: opt_view(o.config_path),
                user: o.user@,
            },
        }
    }
}

/// Reads the arguments of an authentication request (without the program
/// name): `-h`/`--help`, `-c`/`--config <path>` or `--config=<path>`,
/// `-D`/`--debug`, `-q`/`--quiet`, and the user name as the last argument.
pub fn parse_args(args: &[String]) -> (r: ArgsOutcome)
    ensures
        r.parsed.meaning() == args_meaning(args@.map_values(|s: String| s@), 0, None),
        r.log_level == args_log_level(args@.map_values(|s: String| s@), 0, None, None),
{
    let ghost view = args@.map_values(|s: String| s@);
    let mut config_path: Option<String> = None;
    let mut log_level: Option<LevelFilter> = None;
    let mut i: usize = 0;
    while i < args.len()
        invariant
            0 <= i <= args@.len(),
            view == args@.map_values(|s: String| s@),
            view.len() == args@.len(),
            args_meaning(view, 0, None) == args_meaning(view, i as int, opt_view(config_path)),
            args_log_level(view, 0, None, None) == args_log_level(
                view,
                i as int,
                opt_view(config_path),
                log_level,
            ),
        decreases args@.len() - i,
    {
        let arg: &str = args[i].as_str();
        assert(view[i as int] == arg@);
        if str_eq(arg, "-h") || str_eq(arg, "--help") {
            return ArgsOutcome { parsed: ParsedArgs::Help, log_level };
        } else if str_eq(arg, "-c") || str_eq(arg, "--config") {
            if i + 1 >= args.len() {
                return ArgsOutcome {
                    parsed: ParsedArgs::Failed(ArgsError::MissingConfigPath),
                    log_level,
                };
            }
            if config_path.is_some() {
                return ArgsOutcome {
                    parsed: ParsedArgs::Failed(ArgsError::ConfigGivenTwice),
                    log_level,
                };
            }
            assert(view[i + 1] == args@[i + 1]@);
            config_path = Some(args[i + 1].clone());
            i = i + 2;
        } else {
            let value = config_value_of(arg);
            if value.is_some() {
                if config_path.is_some() {
                    return ArgsOutcome {
                        parsed: ParsedArgs::Failed(ArgsError::ConfigGivenTwice),
                        log_level,
                    };
                }
                config_path = value;
                i = i + 1;
            } else if str_eq(arg, "-D") || str_eq(arg, "--debug") {
                log_level = Some(LevelFilter::Debug);
                i = i + 1;
            } else if str_eq(arg, "-q") || str_eq(arg, "--quiet") {
                log_level = Some(LevelFilter::Off);
                i = i + 1;
            } else if i + 1 < args.len() {
                return ArgsOutcome {
                    parsed: ParsedArgs::Failed(ArgsError::Unrecognised(args[i].clone())),
                    log_level,
                };
            } else {
                return ArgsOutcome {
                    parsed: ParsedArgs::Run(CliOptions { config_path, user: args[i].clone() }),
                    log_level,
                };
            }
        }
    }
    ArgsOutcome { parsed: ParsedArgs::Failed(ArgsError::MissingUser), log_level }
}

/// The usage line, with the program's name or, if unknown,
/// `pam_usb_check`.
pub open spec fn usage_line(name: Option<Seq<char>>) -> Seq<char> {
    "Usage: "@ + match name {
        Some(n) => n,
        None => "pam_usb_check"@,
    } + " [--help] [--debug] [--config=path] [--dump] [--quiet] [--version] <username>"@
}

/// The usage line shown for `--help`.
pub fn usage(name: Option<&str>) -> (r: String)
    ensures
        r@ == usage_line(match name {
            Some(n) => Some(n@),
            None => None,
        }),
{
    let mut r = String::new();
    push_text(&mut r, "Usage: ");
    match name {
        Some(n) => push_text(&mut r, n),
        None => push_text(&mut r, "pam_usb_check"),
    }
    push_text(&mut r, " [--help] [--debug] [--config=path] [--dump] [--quiet] [--version] <username>");
    r
}

/// A request to the privileged checker: whom to authenticate, and with
/// which log level.
pub struct CheckInvocation {
    pub user: String,
    pub log_level: LevelFilter,
}

/// What the privileged checker accepts: a non-empty environment, exactly
/// the program name, the user and a log level name (any case), and a log
/// level other than `OFF` only when run by root (user id 0).
pub open spec fn check_invocation(env_is_empty: bool, args: Seq<Seq<char>>, uid: u32) -> Option<
    (Seq<char>, LevelFilter),
> {
    if env_is_empty || args.len() != 3 {
        None
    } else {
        match spec_filter_from_str(args[2]) {
            None => None,
            Some(level) => if level != LevelFilter::Off && uid != 0 {
                None
            } else {
                Some((args[1], level))
            },
        }
    }
}

/// Reads the privileged checker's command line `args` (program name
/// included), given whether its environment is empty and the user id it
/// runs as. `None` means the checker must fail at once.
pub fn parse_check_invocation(env_is_empty: bool, args: &[String], uid: u32) -> (r: Option<
    CheckInvocation,
>)
    ensures
        match check_invocation(env_is_empty, args@.map_values(|s: String| s@), uid) {
            None => r is None,
            Some((user, level)) => r matches Some(c) && c.user@ == user && c.log_level == level,
        },
        r matches Some(c) && c.log_level != LevelFilter::Off ==> uid == 0,
{
    let ghost view = args@.map_values(|s: String| s@);
    if env_is_empty || args.len() != 3 {
        return None;
    }
    assert(view[1] == args@[1]@ && view[2] == args@[2]@);
    let level = match filter_from_str(args[2].as_str()) {
        None => return None,
        Some(l) => l,
    };
    if level != LevelFilter::Off && uid != 0 {
        return None;
    }
    Some(CheckInvocation { user: args[1].clone(), log_level: level })
}

/// The log level argument passed to the privileged checker.
pub open spec fn level_argument(debug: bool) -> Seq<char> {
    if debug {
        "DEBUG"@
    } else {
        "OFF"@
    }
}

/// The arguments to start the privileged checker with, to authenticate
/// `user`: debugging is allowed only to root (user id 0).
pub fn pamusb_check_args(user: &str, debug: bool, uid: u32) -> (r: Result<Vec<String>, IoError>)
    ensures
        r is Err <==> debug && uid != 0,
        r matches Err(e) ==> e.kind == IoErrorKind::PermissionDenied,
        r matches Ok(v) ==> v@.map_values(|s: String| s@) == seq![user@, level_argument(debug)],
{
    if debug && uid != 0 {
        return Err(
            IoError::new(
                IoErrorKind::PermissionDenied,
                "You must run as root to debug pamusb-check".to_owned(),
            ),
        );
    }
    let mut v: Vec<String> = Vec::new();
    v.push(user.to_owned());
    if debug {
        v.push("DEBUG".to_owned());
    } else {
        v.push("OFF".to_owned());
    }
    assert(v@.map_values(|s: String| s@) =~= seq![user@, level_argument(debug)]);
    Ok(v)
}

/// What the unprivileged side passes to the privileged checker is
/// accepted by it, for the same user id: the user is the one asked for and
/// the log level is `DEBUG` or `OFF` as asked.
pub proof fn lemma_check_arguments_accepted(program: Seq<char>, user: Seq<char>, debug: bool, uid: u32)
    requires
        !(debug && uid != 0),
    ensures
        check_invocation(false, seq![program, user, level_argument(debug)], uid) == Some(
            (user, if debug { LevelFilter::Debug } else { LevelFilter::Off }),
        ),
{
    crate::logging::lemma_filter_name_round_trip(LevelFilter::Debug);
    crate::logging::lemma_filter_name_round_trip(LevelFilter::Off);
    let args = seq![program, user, level_argument(debug)];
    assert(args[2] == level_argument(debug));
}

/// What the command line tool reports after asking the privileged
/// checker about `user`.
pub open spec fn check_report_line(user: Seq<char>, authenticated: bool) -> Seq<char> {
    if authenticated {
        "Successfully authenticated "@ + user
    } else {
        "Failed to authenticated "@ + user
    }
}

/// The line the command line tool prints after a check of `user`.
pub fn check_report(user: &str, authenticated: bool) -> (r: String)
    ensures
        r@ == check_report_line(user@, authenticated),
{
    let mut r = String::new();
    if authenticated {
        push_text(&mut r, "Successfully authenticated ");
    } else {
        push_text(&mut r, "Failed to authenticated ");
    }
    push_text(&mut r, user);
    r
}

/// Either spelling of the help option, `-h` or `--help`, at any position
/// the reading reaches, stops the reading with `Help`, whatever follows.
pub proof fn lemma_help_stops_reading(args: Seq<Seq<char>>, i: int, config: Option<Seq<char>>)
    requires
        0 <= i < args.len(),
        args[i] == "-h"@ || args[i] == "--help"@,
    ensures
        args_meaning(args, i, config) == ArgsMeaning::Help,
{
}

/// `-h` and `--help` as the first argument mean `Help`, whatever follows.
pub proof fn lemma_help_first(rest: Seq<Seq<char>>)
    ensures
        args_meaning(seq!["-h"@] + rest, 0, None) == ArgsMeaning::Help,
        args_meaning(seq!["--help"@] + rest, 0, None) == ArgsMeaning::Help,
{
    assert((seq!["-h"@] + rest)[0] == "-h"@);
    assert((seq!["--help"@] + rest)[0] == "--help"@);
}

/// Root may run the privileged checker with every log level, named in any
/// case; anyone else only with `OFF`: for every program name, user and
/// filter.
pub proof fn lemma_check_levels_by_user(
    program: Seq<char>,
    user: Seq<char>,
    f: LevelFilter,
    uid: u32,
)
    ensures
        check_invocation(false, seq![program, user, filter_name(f)], 0) == Some((user, f)),
        uid != 0 ==> check_invocation(false, seq![program, user, filter_name(f)], uid) == if f
            == LevelFilter::Off {
            Some((user, f))
        } else {
            None
        },
        check_invocation(true, seq![program, user, filter_name(f)], uid) is None,
{
    crate::logging::lemma_filter_name_round_trip(f);
    let args = seq![program, user, filter_name(f)];
    assert(args[1] == user && args[2] == filter_name(f));
}

/// The documented forms of a command line: a user name alone; the
/// configuration path given as `-c <path>`, `--config <path>` or
/// `--config=<path>` before it; and `--debug` asking for debug logging and
/// `--quiet` for none. A user name here is any argument not starting with
/// `-`.
pub proof fn lemma_documented_forms(path: Seq<char>, user: Seq<char>)
    requires
        user.len() > 0,
        user[0] != '-',
    ensures
        args_meaning(seq![user], 0, None) == (ArgsMeaning::Run { config_path: None, user }),
        args_meaning(seq!["-c"@, path, user], 0, None) == (ArgsMeaning::Run {
            config_path: Some(path),
            user,
        }),
        args_meaning(seq!["--config"@, path, user], 0, None) == (ArgsMeaning::Run {
            config_path: Some(path),
            user,
        }),
        args_meaning(seq!["--config="@ + path, user], 0, None) == (ArgsMeaning::Run {
            config_path: Some(path),
            user,
        }),
        args_log_level(seq!["--debug"@, user], 0, None, None) == Some(LevelFilter::Debug),
        args_log_level(seq!["--quiet"@, user], 0, None, None) == Some(LevelFilter::Off),
        args_meaning(seq!["--quiet"@, user], 0, None) == (ArgsMeaning::Run {
            config_path: None,
            user,
        }),
{
    reveal_strlit("-h");
    reveal_strlit("--help");
    reveal_strlit("-c");
    reveal_strlit("--config");
    reveal_strlit("--config=");
    reveal_strlit("-D");
    reveal_strlit("--debug");
    reveal_strlit("-q");
    reveal_strlit("--quiet");
    let prefix = "--config="@;
    assert(user != "-h"@ && user != "--help"@ && user != "-c"@ && user != "--config"@);
    assert(user != "-D"@ && user != "--debug"@ && user != "-q"@ && user != "--quiet"@);
    assert(config_value(user) is None) by {
        if user.len() >= prefix.len() {
            assert(user.take(prefix.len() as int)[0] != prefix[0]);
        }
    }
    let a = prefix + path;
    assert(a.take(prefix.len() as int) =~= prefix);
    assert(a.skip(prefix.len() as int) =~= path);
    assert(a != "-h"@ && a != "--help"@ && a != "-c"@ && a != "--config"@) by {
        assert(a.len() >= 9);
    }
    assert(config_value("--quiet"@) is None);
    assert(config_value("--debug"@) is None);
    let s1 = seq![user];
    assert(s1[0] == user);
    let s2 = seq!["-c"@, path, user];
    assert(s2[0] == "-c"@ && s2[1] == path && s2[2] == user);
    let s3 = seq!["--config"@, path, user];
    assert(s3[0] == "--config"@ && s3[1] == path && s3[2] == user);
    let s4 = seq![a, user];
    assert(s4[0] == a && s4[1] == user);
    let s5 = seq!["--debug"@, user];
    assert(s5[0] == "--debug"@ && s5[1] == user);
    let s6 = seq!["--quiet"@, user];
    assert(s6[0] == "--quiet"@ && s6[1] == user);
    assert(args_meaning(s2, 2, Some(path)) == (ArgsMeaning::Run { config_path: Some(path), user }));
    assert("-c"@[1] != "-h"@[1]);
    assert(!is_help(s2[0]) && is_config(s2[0]));
    assert(args_meaning(s2, 0, None) == args_meaning(s2, 2, Some(path)));
    assert(args_meaning(s3, 2, Some(path)) == (ArgsMeaning::Run { config_path: Some(path), user }));
    assert(args_meaning(s4, 1, Some(path)) == (ArgsMeaning::Run { config_path: Some(path), user }));
    assert(args_log_level(s5, 1, None, Some(LevelFilter::Debug)) == Some(LevelFilter::Debug));
    assert(args_log_level(s6, 1, None, Some(LevelFilter::Off)) == Some(LevelFilter::Off));
    assert("--quiet"@[2] != "--debug"@[2]);
    assert("--quiet"@ != "-D"@ && "--quiet"@ != "--debug"@);
    assert(verbosity_level(s6[0]) == Some(LevelFilter::Off));
    assert(!is_help(s6[0]) && !is_config(s6[0]) && config_value(s6[0]) is None);
    assert(args_log_level(s6, 0, None, None) == args_log_level(s6, 1, None, Some(LevelFilter::Off)));
    assert(args_meaning(s6, 1, None) == (ArgsMeaning::Run { config_path: None, user }));
}

} // verus!
