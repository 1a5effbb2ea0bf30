//! How an installed build tool is launched.

use crate::command_line::{
    optional_path,
    text_arguments,
    ArgumentView,
    CommandLine,
    CommandLineView,
};
use crate::config::Config;
use crate::error::{Failure, FailureKind, FailureView};
use crate::path::{texts, ToolPath};
use crate::platform::OsFamily;
use vstd::prelude::*;

verus! {

/// The way to launch the build tool's binary.
#[derive(Clone, Copy, Debug, PartialEq, Eq, Structural)]
pub enum Host {
    /// The binary runs by itself.
    Clr,
    /// The binary runs under the managed runtime, `dotnet`.
    CoreClr,
    /// The binary runs under the compatibility runtime, `mono`.
    Mono,
}

/// The host for a run: the managed runtime where it is asked for, whatever
/// the system; else the compatibility runtime on a Unix-like system; else
/// none.
pub open spec fn host_for(use_coreclr: bool, family: OsFamily) -> Host {
    if use_coreclr {
        Host::CoreClr
    } else if family == OsFamily::Unix {
        Host::Mono
    } else {
        Host::Clr
    }
}

/// Chooses the host for a run.
pub fn get_host(config: &Config, family: OsFamily) -> (host: Host)
    ensures
        host == host_for(config.use_coreclr, family),
{
    if config.use_coreclr {
        Host::CoreClr
    } else {
        match family {
            OsFamily::Unix => Host::Mono,
            OsFamily::Windows => Host::Clr,
        }
    }
}

impl Host {
    /// The name by which the host is shown to the user.
    pub open spec fn name(self) -> Seq<char> {
        match self {
            Host::Clr => "CLR"@,
            Host::CoreClr => "dotnet"@,
            Host::Mono => "mono"@,
        }
    }

    /// The program of the runtime that the host needs, if it needs one.
    pub open spec fn runtime(self) -> Option<Seq<char>> {
        match self {
            Host::Clr => None,
            Host::CoreClr => Some("dotnet"@),
            Host::Mono => Some("mono"@),
        }
    }

    /// The command whose success shows that the host's runtime can be
    /// reached: the runtime asked for its version.
    pub open spec fn probe_command(self, sdk: Option<Seq<Seq<char>>>) -> Option<CommandLineView> {
        match self.runtime() {
            Some(program) => Some(
                CommandLineView {
                    program: seq![program],
                    arguments: seq![ArgumentView::Text("--version"@)],
                    sdk,
                },
            ),
            None => None,
        }
    }

    /// What is said when the host's runtime cannot be reached.
    pub open spec fn unavailable(self) -> Seq<char> {
        match self {
            Host::Clr => Seq::empty(),
            Host::CoreClr => "Could not locate the .NET Core SDK."@,
            Host::Mono => "Could not locate the Mono runtime."@,
        }
    }

    /// The command that runs the binary at `path` with `arguments`: the
    /// binary itself, or the runtime with the binary as its first argument.
    pub open spec fn launch_command(
        self,
        path: Seq<Seq<char>>,
        arguments: Seq<Seq<char>>,
        sdk: Option<Seq<Seq<char>>>,
    ) -> CommandLineView {
        match self.runtime() {
            Some(program) => CommandLineView {
                program: seq![program],
                arguments: seq![ArgumentView::Path(path)] + text_arguments(arguments),
                sdk,
            },
            None => CommandLineView { program: path, arguments: text_arguments(arguments), sdk },
        }
    }

    /// Returns the name by which the host is shown to the user.
    pub fn get_name(&self) -> (name: &'static str)
        ensures
            name@ == self.name(),
    {
        match self {
            Host::Clr => "CLR",
            Host::CoreClr => "dotnet",
            Host::Mono => "mono",
        }
    }

    /// Returns the command to try before the tool is launched, where the host
    /// needs a runtime.
    pub fn probe(&self, sdk: Option<ToolPath>) -> (command: Option<CommandLine>)
        ensures
            match command {
                Some(command) => self.probe_command(optional_path(sdk)) == Some(command@),
                None => self.probe_command(optional_path(sdk)) is None,
            },
    {
        let program = match self {
            Host::Clr => {
                return None;
            },
            Host::CoreClr => ToolPath::new("dotnet"),
            Host::Mono => ToolPath::new("mono"),
        };
        let command = CommandLine::new(program, sdk).text("--version");
        assert(command@.arguments =~= seq![ArgumentView::Text("--version"@)]);
        Some(command)
    }

    /// Judges the host by the outcome of its probe: a host whose runtime
    /// could not be reached is unavailable. A host without a runtime is
    /// always available.
    pub fn verify(&self, reachable: bool) -> (verdict: Result<(), Failure>)
        ensures
            match verdict {
                Ok(_) => reachable || self.runtime() is None,
                Err(failure) => !reachable && self.runtime() is Some && failure@ == (FailureView {
                    kind: FailureKind::HostUnavailable,
                    message: self.unavailable(),
                }),
            },
    {
        if reachable {
            return Ok(());
        }
        match self {
            Host::Clr => Ok(()),
            Host::CoreClr => Err(
                Failure::new(FailureKind::HostUnavailable, "Could not locate the .NET Core SDK."),
            ),
            Host::Mono => Err(
                Failure::new(FailureKind::HostUnavailable, "Could not locate the Mono runtime."),
            ),
        }
    }

    /// Returns the command that runs the binary at `path` with `arguments`.
    pub fn execute(
        &self,
        path: ToolPath,
        arguments: &Vec<String>,
        sdk: Option<ToolPath>,
    ) -> (command: CommandLine)
        ensures
            command@ == self.launch_command(path@, texts(arguments@), optional_path(sdk)),
    {
        match self {
            Host::Clr => {
                let command = CommandLine::new(path, sdk).texts(arguments);
                assert(command@.arguments =~= text_arguments(texts(arguments@)));
                command
            },
            Host::CoreClr => {
                let command = CommandLine::new(ToolPath::new("dotnet"), sdk)
                    .path(path)
                    .texts(arguments);
                assert(command@.arguments =~= seq![ArgumentView::Path(path@)] + text_arguments(
                    texts(arguments@),
                ));
                command
            },
            Host::Mono => {
                let command = CommandLine::new(ToolPath::new("mono"), sdk)
                    .path(path)
                    .texts(arguments);
                assert(command@.arguments =~= seq![ArgumentView::Path(path@)] + text_arguments(
                    texts(arguments@),
                ));
                command
            },
        }
    }
}

} // verus!
