use sidealsa::arguments::{
    parse_args, ArgumentError, CommandLine, DaemonArguments, ProfileSource, SocketSource,
};

const DEFAULT_SOCKET_PATH: &str = "/tmp/sidealsad.sock";
const LEGACY_PROFILE_PATH: &str = "/etc/sidealsa/profiles/topping-e1x2.toml";

fn line(arguments: &[&str]) -> Vec<Option<String>> {
    arguments.iter().map(|text| Some(text.to_string())).collect()
}

fn run(arguments: &[&str]) -> DaemonArguments {
    match parse_args(&line(arguments)) {
        Ok(CommandLine::Run(read)) => read,
        other => panic!("unexpected command line: {other:?}"),
    }
}

fn resolve(arguments: &[&str], selected: bool, legacy: bool) -> Option<(String, String)> {
    let read = run(arguments);
    let (profile, socket) = read.sources(selected, legacy)?;
    let profile = match profile {
        ProfileSource::Argument(place) => arguments[place].to_string(),
        ProfileSource::Selected => "/selected.toml".to_string(),
        ProfileSource::Legacy => LEGACY_PROFILE_PATH.to_string(),
    };
    let socket = match socket {
        SocketSource::Argument(place) => arguments[place].to_string(),
        SocketSource::Selected => "/selected.sock".to_string(),
        SocketSource::Default => DEFAULT_SOCKET_PATH.to_string(),
    };
    Some((profile, socket))
}

#[test]
fn selection_precedence_and_absence() {
    for (flags, selected, legacy, expected) in [
        (vec![], true, false, Some(("/selected.toml", "/selected.sock"))),
        (vec!["--profile", "dev.toml"], true, false, Some(("dev.toml", "/selected.sock"))),
        (
            vec!["--socket", "/explicit.sock"],
            true,
            false,
            Some(("/selected.toml", "/explicit.sock")),
        ),
        (
            vec!["--profile", "dev.toml"],
            false,
            false,
            Some(("dev.toml", DEFAULT_SOCKET_PATH)),
        ),
        (vec![], false, true, Some((LEGACY_PROFILE_PATH, DEFAULT_SOCKET_PATH))),
        (vec![], false, false, None),
    ] {
        let found = resolve(&flags, selected, legacy);
        assert_eq!(
            found,
            expected.map(|(profile, socket)| (profile.to_string(), socket.to_string()))
        );
    }
    let explicit = run(&["--profile", "dev.toml", "--socket", "/explicit.sock"]);
    assert!(!explicit.needs_selection());
    assert!(!explicit.needs_legacy(false));
    let profile_only = run(&["--profile", "dev.toml"]);
    assert!(profile_only.needs_selection());
    assert!(!profile_only.needs_legacy(false));
    assert!(run(&[]).needs_legacy(false));
    assert!(!run(&[]).needs_legacy(true));
}

#[test]
fn pro_diagnostics_flag_is_opt_in() {
    let defaults = run(&["--profile", "dev.toml", "--socket", "/tmp/test.sock"]);
    assert!(!defaults.pro_diagnostics);
    let arguments = [
        "--pro-diagnostics",
        "--profile",
        "dev.toml",
        "--socket",
        "/tmp/diagnostic-test.sock",
    ];
    let enabled = run(&arguments);
    assert!(enabled.pro_diagnostics);
    assert_eq!(arguments[enabled.socket.unwrap()], "/tmp/diagnostic-test.sock");
}

#[test]
fn malformed_command_lines_are_refused() {
    assert_eq!(parse_args(&line(&["--profile"])), Err(ArgumentError::MissingProfilePath));
    assert_eq!(parse_args(&line(&["--socket"])), Err(ArgumentError::MissingSocketPath));
    assert_eq!(
        parse_args(&line(&["--pro-diagnostics", "--verbose"])),
        Err(ArgumentError::Unknown(1))
    );
    assert_eq!(parse_args(&vec![None]), Err(ArgumentError::NotUtf8));
    assert_eq!(parse_args(&line(&["--help", "--verbose"])), Ok(CommandLine::Help));
    assert_eq!(parse_args(&line(&["-h"])), Ok(CommandLine::Help));
    // A path need not be text, and the last one given counts.
    let mut arguments = line(&["--profile", "first.toml", "--profile"]);
    arguments.push(None);
    assert_eq!(
        parse_args(&arguments),
        Ok(CommandLine::Run(DaemonArguments {
            profile: Some(3),
            socket: None,
            pro_diagnostics: false,
        }))
    );
}
