use pamusb::cli::{
    parse_args, parse_check_invocation, pamusb_check_args, usage, ArgsError, ArgsOutcome, ParsedArgs,
};
use pamusb::io_error::IoErrorKind;
use pamusb::logging::LevelFilter;

fn args(a: &[&str]) -> Vec<String> {
    a.iter().map(|s| s.to_string()).collect()
}

#[test]
fn user_with_config() {
    let r = parse_args(&args(&["-c", "/etc/p.toml", "alice"]));
    assert_eq!(r.log_level, None);
    match r.parsed {
        ParsedArgs::Run(o) => {
            assert_eq!(o.config_path.as_deref(), Some("/etc/p.toml"));
            assert_eq!(o.user, "alice");
        },
        _ => panic!("expected Run"),
    }
    match parse_args(&args(&["--debug", "bob"])) {
        ArgsOutcome { parsed: ParsedArgs::Run(o), log_level } => {
            assert_eq!(log_level, Some(LevelFilter::Debug));
            assert!(o.config_path.is_none());
            assert_eq!(o.user, "bob");
        },
        _ => panic!("expected Run"),
    }
}

#[test]
fn help_and_errors() {
    assert!(matches!(parse_args(&args(&["-q", "--help", "x", "y"])).parsed, ParsedArgs::Help));
    assert!(matches!(
        parse_args(&args(&["-c", "a", "--config", "b", "u"])).parsed,
        ParsedArgs::Failed(ArgsError::ConfigGivenTwice)
    ));
    assert!(matches!(
        parse_args(&args(&["alice", "-c"])).parsed,
        ParsedArgs::Failed(ArgsError::Unrecognised(ref a)) if a == "alice"
    ));
    assert!(matches!(
        parse_args(&args(&["--config"])).parsed,
        ParsedArgs::Failed(ArgsError::MissingConfigPath)
    ));
    assert!(matches!(parse_args(&args(&[])).parsed, ParsedArgs::Failed(ArgsError::MissingUser)));
    assert!(matches!(
        parse_args(&args(&["-c", "p"])).parsed,
        ParsedArgs::Failed(ArgsError::MissingUser)
    ));
    let r = parse_args(&args(&["-D"]));
    assert_eq!(r.log_level, Some(LevelFilter::Debug));
    assert!(matches!(r.parsed, ParsedArgs::Failed(ArgsError::MissingUser)));
}

#[test]
fn usage_text() {
    assert_eq!(
        usage(None),
        "Usage: pam_usb_check [--help] [--debug] [--config=path] [--dump] [--quiet] [--version] <username>"
    );
    assert!(usage(Some("/bin/x")).starts_with("Usage: /bin/x [--help]"));
}

#[test]
fn check_invocation_rules() {
    let ok = parse_check_invocation(false, &args(&["check", "alice", "off"]), 1000).unwrap();
    assert_eq!(ok.user, "alice");
    assert_eq!(ok.log_level, LevelFilter::Off);
    let dbg = parse_check_invocation(false, &args(&["check", "alice", "Debug"]), 0).unwrap();
    assert_eq!(dbg.log_level, LevelFilter::Debug);
    assert!(parse_check_invocation(false, &args(&["check", "alice", "DEBUG"]), 1000).is_none());
    assert!(parse_check_invocation(true, &args(&["check", "alice", "OFF"]), 0).is_none());
    assert!(parse_check_invocation(false, &args(&["check", "alice"]), 0).is_none());
    assert!(parse_check_invocation(false, &args(&["check", "alice", "OFF", "x"]), 0).is_none());
    assert!(parse_check_invocation(false, &args(&["check", "alice", "loud"]), 0).is_none());
}

#[test]
fn checker_arguments() {
    assert_eq!(pamusb_check_args("alice", false, 1000).unwrap(), args(&["alice", "OFF"]));
    assert_eq!(pamusb_check_args("alice", true, 0).unwrap(), args(&["alice", "DEBUG"]));
    let e = pamusb_check_args("alice", true, 1000).unwrap_err();
    assert_eq!(e.kind, IoErrorKind::PermissionDenied);
    assert_eq!(e.message, "You must run as root to debug pamusb-check");
    let mut full = args(&["check"]);
    full.extend(pamusb_check_args("alice", true, 0).unwrap());
    let inv = parse_check_invocation(false, &full, 0).unwrap();
    assert_eq!(inv.user, "alice");
    assert_eq!(inv.log_level, LevelFilter::Debug);
}

#[test]
fn check_report_lines() {
    assert_eq!(pamusb::cli::check_report("alice", true), "Successfully authenticated alice");
    assert_eq!(pamusb::cli::check_report("bob", false), "Failed to authenticated bob");
}

#[test]
fn config_with_equals_sign() {
    match parse_args(&args(&["--config=/etc/p.toml", "alice"])).parsed {
        ParsedArgs::Run(o) => {
            assert_eq!(o.config_path.as_deref(), Some("/etc/p.toml"));
            assert_eq!(o.user, "alice");
        },
        _ => panic!("expected Run"),
    }
    assert!(matches!(
        parse_args(&args(&["--config=a", "-c", "b", "u"])).parsed,
        ParsedArgs::Failed(ArgsError::ConfigGivenTwice)
    ));
    assert!(matches!(
        parse_args(&args(&["-c", "a", "--config=b", "u"])).parsed,
        ParsedArgs::Failed(ArgsError::ConfigGivenTwice)
    ));
    match parse_args(&args(&["--config=", "u"])).parsed {
        ParsedArgs::Run(o) => assert_eq!(o.config_path.as_deref(), Some("")),
        _ => panic!("expected Run"),
    }
}

#[test]
fn quiet_does_not_raise_verbosity() {
    let r = parse_args(&args(&["--quiet", "alice"]));
    assert_eq!(r.log_level, Some(LevelFilter::Off));
    match r.parsed {
        ParsedArgs::Run(o) => {
            assert!(o.config_path.is_none());
            assert_eq!(o.user, "alice");
        },
        _ => panic!("expected Run"),
    }
    assert_eq!(parse_args(&args(&["-D", "-q", "u"])).log_level, Some(LevelFilter::Off));
    assert_eq!(parse_args(&args(&["-q", "--debug", "u"])).log_level, Some(LevelFilter::Debug));
}
