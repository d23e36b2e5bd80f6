//! The command line of the daemon, and where the profile and the socket come from.
use vstd::prelude::*;

verus! {

/// What the command line asks for. A path is given by its place among the arguments, for it need
/// not be text.
#[derive(Clone, Copy, Debug, PartialEq, Eq, Structural)]
pub struct DaemonArguments {
    pub profile: Option<usize>,
    pub socket: Option<usize>,
    pub pro_diagnostics: bool,
}

#[derive(Clone, Copy, Debug, PartialEq, Eq, Structural)]
pub enum CommandLine {
    Help,
    Run(DaemonArguments),
}

/// Why a command line is refused.
#[derive(Clone, Copy, Debug, PartialEq, Eq, Structural)]
pub enum ArgumentError {
    /// `--profile` requires a path.
    MissingProfilePath,
    /// `--socket` requires a path.
    MissingSocketPath,
    /// The argument at this place is not known.
    Unknown(usize),
    /// Arguments must be valid UTF-8.
    NotUtf8,
}

/// Where the profile comes from.
#[derive(Clone, Copy, Debug, PartialEq, Eq, Structural)]
pub enum ProfileSource {
    Argument(usize),
    /// The installed selection.
    Selected,
    /// The profile that was installed before there was a selection.
    Legacy,
}

/// Where the socket comes from.
#[derive(Clone, Copy, Debug, PartialEq, Eq, Structural)]
pub enum SocketSource {
    Argument(usize),
    Selected,
    Default,
}

/// An argument is the given text.
pub open spec fn says(argument: Option<String>, text: &str) -> bool {
    argument is Some && argument->0@ == text@
}

/// What the arguments from place `from` on add to what was said before.
pub open spec fn parsed(
    arguments: Seq<Option<String>>,
    from: int,
    before: DaemonArguments,
) -> Result<CommandLine, ArgumentError>
    decreases arguments.len() - from,
{
    if from >= arguments.len() {
        Ok(CommandLine::Run(before))
    } else if says(arguments[from], "--pro-diagnostics") {
        parsed(arguments, from + 1, DaemonArguments { pro_diagnostics: true, ..before })
    } else if says(arguments[from], "--profile") {
        if from + 1 < arguments.len() {
            parsed(
                arguments,
                from + 2,
                DaemonArguments { profile: Some((from + 1) as usize), ..before },
            )
        } else {
            Err(ArgumentError::MissingProfilePath)
        }
    } else if says(arguments[from], "--socket") {
        if from + 1 < arguments.len() {
            parsed(
                arguments,
                from + 2,
                DaemonArguments { socket: Some((from + 1) as usize), ..before },
            )
        } else {
            Err(ArgumentError::MissingSocketPath)
        }
    } else if says(arguments[from], "--help") || says(arguments[from], "-h") {
        Ok(CommandLine::Help)
    } else if arguments[from] is Some {
        Err(ArgumentError::Unknown(from as usize))
    } else {
        Err(ArgumentError::NotUtf8)
    }
}

fn is_text(argument: &Option<String>, text: &str) -> (is: bool)
    ensures
        is == says(*argument, text),
{
    match argument {
        Some(value) => {
            let wanted: String = text.to_owned();
            *value == wanted
        },
        None => false,
    }
}

/// Reads a command line; an argument that is not text is `None`.
pub fn parse_args(arguments: &Vec<Option<String>>) -> (result: Result<CommandLine, ArgumentError>)
    ensures
        result == parsed(
            arguments@,
            0,
            DaemonArguments { profile: None, socket: None, pro_diagnostics: false },
        ),
{
    let mut read = DaemonArguments { profile: None, socket: None, pro_diagnostics: false };
    let count: usize = arguments.len();
    let mut i: usize = 0;
    while i < count
        invariant
            i <= count == arguments@.len(),
            parsed(
                arguments@,
                0,
                DaemonArguments { profile: None, socket: None, pro_diagnostics: false },
            ) == parsed(arguments@, i as int, read),
        decreases count - i,
    {
        let argument = &arguments[i];
        if is_text(argument, "--pro-diagnostics") {
            read.pro_diagnostics = true;
            i = i + 1;
        } else if is_text(argument, "--profile") {
            if i + 1 >= count {
                return Err(ArgumentError::MissingProfilePath);
            }
            read.profile = Some(i + 1);
            i = i + 2;
        } else if is_text(argument, "--socket") {
            if i + 1 >= count {
                return Err(ArgumentError::MissingSocketPath);
            }
            read.socket = Some(i + 1);
            i = i + 2;
        } else if is_text(argument, "--help") || is_text(argument, "-h") {
            return Ok(CommandLine::Help);
        } else if argument.is_some() {
            return Err(ArgumentError::Unknown(i));
        } else {
            return Err(ArgumentError::NotUtf8);
        }
    }
    Ok(CommandLine::Run(read))
}

impl DaemonArguments {
    /// Whether the installed selection is looked at: only when something is left open.
    pub fn needs_selection(&self) -> (needs: bool)
        ensures
            needs == (self.profile is None || self.socket is None),
    {
        self.profile.is_none() || self.socket.is_none()
    }

    /// Whether the legacy profile is looked for: only when neither the command line nor a
    /// selection names one.
    pub fn needs_legacy(&self, selected: bool) -> (needs: bool)
        ensures
            needs == (self.profile is None && !selected),
    {
        self.profile.is_none() && !selected
    }

    /// Where the profile comes from, if there is one.
    pub open spec fn profile_source(self, selected: bool, legacy: bool) -> Option<ProfileSource> {
        match self.profile {
            Some(place) => Some(ProfileSource::Argument(place)),
            None => if selected {
                Some(ProfileSource::Selected)
            } else if legacy {
                Some(ProfileSource::Legacy)
            } else {
                None
            },
        }
    }

    /// Where the profile and the socket come from; `selected` tells whether there is an installed
    /// selection, and `legacy` whether there is a legacy profile. Nothing when no profile can be
    /// had.
    pub fn sources(&self, selected: bool, legacy: bool) -> (sources: Option<
        (ProfileSource, SocketSource),
    >)
        ensures
            sources is None <==> self.profile is None && !selected && !legacy,
            self.profile matches Some(place) ==> (sources->0).0 == ProfileSource::Argument(place),
            self.profile is None && selected ==> (sources->0).0 == ProfileSource::Selected,
            self.profile is None && !selected && legacy ==> (sources->0).0 == ProfileSource::Legacy,
            sources is Some ==> (self.socket matches Some(place) ==> (sources->0).1
                == SocketSource::Argument(place)),
            sources is Some && self.socket is None ==> (sources->0).1 == if selected {
                SocketSource::Selected
            } else {
                SocketSource::Default
            },
            match self.profile_source(selected, legacy) {
                None => sources is None,
                Some(profile) => {
                    &&& sources matches Some(found)
                    &&& found.0 == profile
                    &&& found.1 == match self.socket {
                        Some(place) => SocketSource::Argument(place),
                        None => if selected {
                            SocketSource::Selected
                        } else {
                            SocketSource::Default
                        },
                    }
                },
            },
    {
        let profile = match self.profile {
            Some(place) => ProfileSource::Argument(place),
            None => if selected {
                ProfileSource::Selected
            } else if legacy {
                ProfileSource::Legacy
            } else {
                return None;
            },
        };
        let socket = match self.socket {
            Some(place) => SocketSource::Argument(place),
            None => if selected {
                SocketSource::Selected
            } else {
                SocketSource::Default
            },
        };
        Some((profile, socket))
    }
}

/// What the command line names is used whatever is installed.
pub proof fn the_command_line_comes_first(
    arguments: DaemonArguments,
    selected: bool,
    legacy: bool,
    place: usize,
)
    requires
        arguments.profile == Some(place),
    ensures
        arguments.profile_source(selected, legacy) == Some(ProfileSource::Argument(place)),
{
}

/// Every path that a command line gives is one of its arguments.
pub proof fn paths_are_among_the_arguments(
    arguments: Seq<Option<String>>,
    from: int,
    before: DaemonArguments,
)
    requires
        0 <= from,
        arguments.len() <= usize::MAX,
        before.profile is Some ==> before.profile->0 < arguments.len(),
        before.socket is Some ==> before.socket->0 < arguments.len(),
    ensures
        parsed(arguments, from, before) matches Ok(CommandLine::Run(read)) ==> {
            &&& read.profile is Some ==> read.profile->0 < arguments.len()
            &&& read.socket is Some ==> read.socket->0 < arguments.len()
        },
    decreases arguments.len() - from,
{
    if from < arguments.len() {
        if says(arguments[from], "--pro-diagnostics") {
            paths_are_among_the_arguments(
                arguments,
                from + 1,
                DaemonArguments { pro_diagnostics: true, ..before },
            );
        } else if says(arguments[from], "--profile") {
            if from + 1 < arguments.len() {
                paths_are_among_the_arguments(
                    arguments,
                    from + 2,
                    DaemonArguments { profile: Some((from + 1) as usize), ..before },
                );
            }
        } else if says(arguments[from], "--socket") {
            if from + 1 < arguments.len() {
                paths_are_among_the_arguments(
                    arguments,
                    from + 2,
                    DaemonArguments { socket: Some((from + 1) as usize), ..before },
                );
            }
        }
    }
}

/// Every argument is read for what it says: a switch by itself, an option together with the path
/// that follows it, and help ends the reading. Nothing that is not known is passed over.
pub proof fn every_argument_is_read_for_what_it_says(
    arguments: Seq<Option<String>>,
    from: int,
    before: DaemonArguments,
    text: Seq<char>,
)
    requires
        0 <= from < arguments.len() < usize::MAX,
        arguments[from] is Some,
        arguments[from]->0@ == text,
    ensures
        text == "--pro-diagnostics"@ ==> parsed(arguments, from, before) == parsed(
            arguments,
            from + 1,
            (DaemonArguments {
                profile: before.profile,
                socket: before.socket,
                pro_diagnostics: true,
            }),
        ),
        text == "--profile"@ && from + 1 < arguments.len() ==> parsed(arguments, from, before)
            == parsed(
            arguments,
            from + 2,
            (DaemonArguments {
                profile: Some((from + 1) as usize),
                socket: before.socket,
                pro_diagnostics: before.pro_diagnostics,
            }),
        ),
        text == "--socket"@ && from + 1 < arguments.len() ==> parsed(arguments, from, before)
            == parsed(
            arguments,
            from + 2,
            (DaemonArguments {
                profile: before.profile,
                socket: Some((from + 1) as usize),
                pro_diagnostics: before.pro_diagnostics,
            }),
        ),
        text == "--profile"@ && from + 1 == arguments.len() ==> parsed(arguments, from, before)
            == Err::<CommandLine, ArgumentError>(ArgumentError::MissingProfilePath),
        text == "--socket"@ && from + 1 == arguments.len() ==> parsed(arguments, from, before)
            == Err::<CommandLine, ArgumentError>(ArgumentError::MissingSocketPath),
        text == "--help"@ || text == "-h"@ ==> parsed(arguments, from, before) == Ok::<
            CommandLine,
            ArgumentError,
        >(CommandLine::Help),
        text != "--pro-diagnostics"@ && text != "--profile"@ && text != "--socket"@ && text
            != "--help"@ && text != "-h"@ ==> parsed(arguments, from, before) == Err::<
            CommandLine,
            ArgumentError,
        >(ArgumentError::Unknown(from as usize)),
{
    reveal_strlit("--pro-diagnostics");
    reveal_strlit("--profile");
    reveal_strlit("--socket");
    reveal_strlit("--help");
    reveal_strlit("-h");
    assert("--pro-diagnostics"@[2] == 'p' && "--profile"@[2] == 'p' && "--socket"@[2] == 's'
        && "--help"@[2] == 'h');
    assert("--pro-diagnostics"@.len() == 17 && "--profile"@.len() == 9 && "--socket"@.len() == 8
        && "--help"@.len() == 6 && "-h"@.len() == 2);
}

/// What was said before stays unless it is said again, and an argument that is no text is refused.
pub proof fn an_argument_must_be_text(
    arguments: Seq<Option<String>>,
    from: int,
    before: DaemonArguments,
)
    requires
        0 <= from,
    ensures
        from >= arguments.len() ==> parsed(arguments, from, before) == Ok::<
            CommandLine,
            ArgumentError,
        >(CommandLine::Run(before)),
        from < arguments.len() && arguments[from] is None ==> parsed(arguments, from, before)
            == Err::<CommandLine, ArgumentError>(ArgumentError::NotUtf8),
{
}

} // verus!
