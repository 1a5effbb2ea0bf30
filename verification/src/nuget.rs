//! The installer of the package manager, NuGet.

use crate::command_line::{ArgumentView, CommandLine, CommandLineView};
use crate::config::{Config, ConfigView};
use crate::error::FailureKind;
use crate::http::{download, download_step, DownloadStage};
use crate::path::ToolPath;
use crate::platform::{get_platform, platform_of, Platform, System, SystemView};
use crate::step::{
    refusal,
    refusal_of,
    Action,
    ActionView,
    Event,
    EventView,
    Progress,
    ProgressView,
};
use crate::version::{VersionRequest, VersionSpec};
use vstd::prelude::*;

verus! {

/// Where the installation of NuGet stands.
#[derive(Clone, Copy, Debug, PartialEq, Eq, Structural)]
pub enum NugetStage {
    /// Nothing was asked yet.
    Start,
    /// The file was asked after.
    Probe,
    /// The file is being downloaded.
    Download(DownloadStage),
    /// The file was asked to be made executable.
    Permit,
    /// NuGet is in place, or was not wanted.
    Ready,
}

/// The version as it stands in the address: the request's own text, and
/// "latest" for the newest release.
pub open spec fn nuget_version(request: VersionRequest) -> Seq<char> {
    match request {
        VersionRequest::Absent => Seq::empty(),
        VersionRequest::Latest => "latest"@,
        VersionRequest::Specific(text) => text,
    }
}

/// The address that NuGet is distributed from.
pub open spec fn nuget_url(request: VersionRequest) -> Seq<char> {
    "https://dist.nuget.org/win-x86-commandline/"@ + nuget_version(request) + "/nuget.exe"@
}

/// The file that NuGet is kept in.
pub open spec fn nuget_file(config: ConfigView) -> Seq<Seq<char>> {
    seq![config.tools, "nuget.exe"@]
}

/// Whether a file must be marked executable before it can be run.
pub open spec fn needs_permission(system: SystemView) -> bool {
    platform_of(system.os) == Some(Platform::Linux) || platform_of(system.os) == Some(
        Platform::MacOS,
    )
}

/// The command that marks a file executable.
pub open spec fn permit_command(file: Seq<Seq<char>>) -> CommandLineView {
    CommandLineView {
        program: seq!["chmod"@],
        arguments: seq![ArgumentView::Text("+x"@), ArgumentView::Path(file)],
        sdk: None,
    }
}

/// One step of the installation. Where the file is there already, nothing
/// is fetched. Else it is downloaded under the user agent "Cakeup" and,
/// where the system asks for it, marked executable.
pub open spec fn install_step(
    config: ConfigView,
    system: SystemView,
    stage: NugetStage,
    event: EventView,
) -> (NugetStage, ProgressView) {
    match stage {
        NugetStage::Start => if config.nuget_version is Absent {
            (NugetStage::Ready, ProgressView::Finished)
        } else {
            (NugetStage::Probe, ProgressView::Next(ActionView::PathExists(nuget_file(config))))
        },
        NugetStage::Probe => match event {
            EventView::Exists(true) => (NugetStage::Ready, ProgressView::Finished),
            EventView::Exists(false) => transfer_step(config, system, DownloadStage::Start, event),
            _ => (
                NugetStage::Ready,
                ProgressView::Failed(refusal_of(FailureKind::FileSystem, event)),
            ),
        },
        NugetStage::Download(inner) => transfer_step(config, system, inner, event),
        NugetStage::Permit => match event {
            EventView::Exited(_) => (NugetStage::Ready, ProgressView::Finished),
            _ => (
                NugetStage::Ready,
                ProgressView::Failed(refusal_of(FailureKind::Execution, event)),
            ),
        },
        NugetStage::Ready => (NugetStage::Ready, ProgressView::Finished),
    }
}

/// One step of the download of NuGet, and what follows it.
pub open spec fn transfer_step(
    config: ConfigView,
    system: SystemView,
    inner: DownloadStage,
    event: EventView,
) -> (NugetStage, ProgressView) {
    let (next, progress) = download_step(
        nuget_url(config.nuget_version),
        nuget_file(config),
        Some("Cakeup"@),
        inner,
        event,
    );
    match progress {
        ProgressView::Finished => if needs_permission(system) {
            (
                NugetStage::Permit,
                ProgressView::Next(ActionView::Spawn(permit_command(nuget_file(config)))),
            )
        } else {
            (NugetStage::Ready, ProgressView::Finished)
        },
        ProgressView::Next(action) => (NugetStage::Download(next), progress),
        ProgressView::Failed(failure) => (NugetStage::Ready, progress),
    }
}

/// Tells whether NuGet is wanted.
pub fn should_install(config: &Config) -> (wanted: bool)
    ensures
        wanted == !(config@.nuget_version is Absent),
{
    config.nuget_version.is_requested()
}

/// Returns the file that NuGet is kept in.
pub fn get_path(config: &Config) -> (file: ToolPath)
    ensures
        file@ == nuget_file(config@),
{
    let file = ToolPath::new(config.tools.as_str()).join("nuget.exe");
    assert(file@ =~= nuget_file(config@));
    file
}

/// Returns the address that NuGet is distributed from.
pub fn get_url(config: &Config) -> (url: String)
    ensures
        url@ == nuget_url(config@.nuget_version),
{
    let mut url = String::from_str("https://dist.nuget.org/win-x86-commandline/");
    match &config.nuget_version {
        VersionSpec::Absent => {
            assert(url@ + Seq::<char>::empty() =~= url@);
        },
        VersionSpec::Latest => {
            url.append("latest");
        },
        VersionSpec::Specific(text) => {
            url.append(text.as_str());
        },
    }
    url.append("/nuget.exe");
    url
}

/// Returns the command that marks a file executable.
pub fn permit(file: ToolPath) -> (command: CommandLine)
    ensures
        command@ == permit_command(file@),
{
    let command = CommandLine::new(ToolPath::new("chmod"), None).text("+x").path(file);
    assert(command@.arguments =~= seq![ArgumentView::Text("+x"@), ArgumentView::Path(file@)]);
    command
}

fn transfer(config: &Config, system: &System, inner: DownloadStage, event: &Event) -> (next: (
    NugetStage,
    Progress,
))
    ensures
        (next.0, next.1@) == transfer_step(config@, system@, inner, event@),
{
    let (stage, progress) = download(
        get_url(config),
        get_path(config),
        Some(String::from_str("Cakeup")),
        inner,
        event,
    );
    match progress {
        Progress::Finished => {
            let marked = match get_platform(system.os.as_str()) {
                Ok(Platform::Linux) => true,
                Ok(Platform::MacOS) => true,
                _ => false,
            };
            if marked {
                (NugetStage::Permit, Progress::Next(Action::Spawn(permit(get_path(config)))))
            } else {
                (NugetStage::Ready, Progress::Finished)
            }
        },
        Progress::Next(action) => (NugetStage::Download(stage), Progress::Next(action)),
        Progress::Failed(failure) => (NugetStage::Ready, Progress::Failed(failure)),
    }
}

/// Takes the installation of NuGet one step further: `event` answers the
/// action that the step before asked for. At `NugetStage::Start` nothing
/// was asked, and the event is not looked at.
pub fn install(config: &Config, system: &System, stage: NugetStage, event: &Event) -> (next: (
    NugetStage,
    Progress,
))
    ensures
        (next.0, next.1@) == install_step(config@, system@, stage, event@),
{
    match stage {
        NugetStage::Start => {
            if should_install(config) {
                (NugetStage::Probe, Progress::Next(Action::PathExists(get_path(config))))
            } else {
                (NugetStage::Ready, Progress::Finished)
            }
        },
        NugetStage::Probe => match event {
            Event::Exists(true) => (NugetStage::Ready, Progress::Finished),
            Event::Exists(false) => transfer(config, system, DownloadStage::Start, event),
            _ => (NugetStage::Ready, Progress::Failed(refusal(FailureKind::FileSystem, event))),
        },
        NugetStage::Download(inner) => transfer(config, system, inner, event),
        NugetStage::Permit => match event {
            Event::Exited(_) => (NugetStage::Ready, Progress::Finished),
            _ => (NugetStage::Ready, Progress::Failed(refusal(FailureKind::Execution, event))),
        },
        NugetStage::Ready => (NugetStage::Ready, Progress::Finished),
    }
}

} // verus!
