//! The installer of the runtime SDK, .NET Core.

use crate::command_line::{ArgumentView, CommandLine, CommandLineView};
use crate::config::{Config, ConfigView};
use crate::error::{Failure, FailureKind, FailureView};
use crate::http::{download, download_step, DownloadStage};
use crate::nuget::{permit, permit_command};
use crate::path::ToolPath;
use crate::platform::{
    get_platform,
    get_platform_name,
    path_separator,
    platform_name,
    platform_of,
    prepend_search_path,
    unknown_platform,
    OsFamily,
    Platform,
    System,
    SystemView,
};
use crate::step::{
    refusal,
    refusal_of,
    Action,
    ActionView,
    Event,
    EventView,
    Progress,
    ProgressView,
};
use crate::text::{trim, trimmed};
use crate::version::{semver_parse, ResolvedVersion, Semver, VersionRequest, VersionSpec};
use vstd::prelude::*;

verus! {

/// Where the installation of the SDK stands.
#[derive(Clone, Copy, Debug, PartialEq, Eq, Structural)]
pub enum SdkStage {
    /// Nothing was asked yet.
    Start,
    /// The SDK on the search path was asked for its version.
    Global,
    /// The SDK of this project was asked for its version.
    Local,
    /// The directory of the project's SDKs was asked after.
    Directory,
    /// The directory of the project's SDKs was asked to be created.
    DirectoryCreate,
    /// The directory of this platform's SDK was asked after.
    PlatformDirectory,
    /// The directory of this platform's SDK was asked to be created.
    PlatformDirectoryCreate,
    /// The installation script is being downloaded.
    Script(DownloadStage),
    /// The installation script was asked to be made executable.
    Permit,
    /// The installation script was started.
    Install,
    /// The SDK on the search path was asked for its version once more.
    Verify,
    /// The SDK is in place, or was not wanted.
    Ready,
}

/// The installation of the SDK: where it stands and what it has found out.
#[derive(Clone, Debug, PartialEq, Eq)]
pub struct SdkState {
    pub stage: SdkStage,
    /// The version that is asked for; 0.0.0 until the request is resolved.
    pub wanted: ResolvedVersion,
    /// Whether the project's own SDK is the one to use, so that every
    /// command from now on must find it first on its search path.
    pub local: bool,
}

/// What an `SdkState` is in contracts.
pub struct SdkStateView {
    pub stage: SdkStage,
    pub wanted: Semver,
    pub local: bool,
}

impl View for SdkState {
    type V = SdkStateView;

    open spec fn view(&self) -> SdkStateView {
        SdkStateView { stage: self.stage, wanted: self.wanted@, local: self.local }
    }
}

impl SdkStateView {
    /// The state before anything was asked.
    pub open spec fn start() -> SdkStateView {
        SdkStateView { stage: SdkStage::Start, wanted: Semver::release(0, 0, 0), local: false }
    }

    /// This state, moved to `stage`.
    pub open spec fn at(self, stage: SdkStage) -> SdkStateView {
        SdkStateView { stage, ..self }
    }
}

impl SdkState {
    /// The state before anything was asked.
    pub fn start() -> (state: SdkState)
        ensures
            state@ == SdkStateView::start(),
    {
        SdkState { stage: SdkStage::Start, wanted: ResolvedVersion::new(0, 0, 0), local: false }
    }

    fn at(self, stage: SdkStage) -> (state: SdkState)
        ensures
            state@ == self@.at(stage),
    {
        SdkState { stage, wanted: self.wanted, local: self.local }
    }
}

/// What is said when the newest SDK is asked for: nothing can tell which
/// one that is.
pub open spec fn latest_refused() -> Seq<char> {
    "You must specify a specific SDK version or none at all."@
}

/// What is said when the version asked for is no version.
pub open spec fn invalid_version() -> Seq<char> {
    "Provided .NET Core SDK version is not valid."@
}

/// What is said when the SDK on the search path is still too old after the
/// installation.
pub open spec fn still_missing(found: Semver, wanted: Semver) -> Seq<char> {
    "Found v"@ + found.render() + " on PATH but wanted v"@ + wanted.render() + "."@
}

/// What a request for the SDK resolves to: nothing where no SDK is asked
/// for; the version that is given, where it is one; else the reason why
/// there is none. The newest release cannot be asked for.
pub open spec fn wanted_version(request: VersionRequest) -> Option<Result<Semver, FailureView>> {
    match request {
        VersionRequest::Absent => None,
        VersionRequest::Latest => Some(
            Err(FailureView { kind: FailureKind::Version, message: latest_refused() }),
        ),
        VersionRequest::Specific(text) => match semver_parse(text) {
            Some(version) => Some(Ok(version)),
            None => Some(
                Err(FailureView { kind: FailureKind::Version, message: invalid_version() }),
            ),
        },
    }
}

/// What an answer says a command printed: nothing, unless the answer is
/// the output of a command that ended in success.
pub open spec fn reported(event: EventView) -> Option<Seq<char>> {
    match event {
        EventView::Output(output) => output,
        _ => None,
    }
}

/// The version that an SDK reports: what it printed, without the white
/// space around it. An SDK that printed nothing, or no version, counts as
/// version 0.0.0, which satisfies no request but one for 0.0.0.
pub open spec fn installed_version(output: Option<Seq<char>>) -> Semver {
    match output {
        Some(text) => match semver_parse(trimmed(text)) {
            Some(version) => version,
            None => Semver::release(0, 0, 0),
        },
        None => Semver::release(0, 0, 0),
    }
}

/// The directory that holds the project's SDKs.
pub open spec fn sdk_root(config: ConfigView) -> Seq<Seq<char>> {
    seq![config.root, ".dotnet"@]
}

/// The directory that holds the project's SDK for a platform.
pub open spec fn sdk_directory(config: ConfigView, platform: Platform) -> Seq<Seq<char>> {
    seq![config.root, ".dotnet"@, platform_name(platform)]
}

/// The command that asks an SDK for its version.
pub open spec fn version_command(
    program: Seq<Seq<char>>,
    sdk: Option<Seq<Seq<char>>>,
) -> CommandLineView {
    CommandLineView { program, arguments: seq![ArgumentView::Text("--version"@)], sdk }
}

/// Whether the platform's installation script is a shell script.
pub open spec fn uses_shell(platform: Platform) -> bool {
    platform != Platform::Windows
}

/// The name of the platform's installation script.
pub open spec fn script_name(platform: Platform) -> Seq<char> {
    if uses_shell(platform) {
        "dotnet-install.sh"@
    } else {
        "dotnet-install.ps1"@
    }
}

/// The address of the platform's installation script.
pub open spec fn script_url(platform: Platform) -> Seq<char> {
    if uses_shell(platform) {
        "https://dot.net/v1/dotnet-install.sh"@
    } else {
        "https://dot.net/v1/dotnet-install.ps1"@
    }
}

/// The file that the installation script is kept in.
pub open spec fn script_file(config: ConfigView, platform: Platform) -> Seq<Seq<char>> {
    sdk_directory(config, platform).push(script_name(platform))
}

/// The command that installs the SDK in the wanted version, given by its
/// three numbers, into the project's directory for the platform.
pub open spec fn install_command(
    config: ConfigView,
    platform: Platform,
    wanted: Semver,
) -> CommandLineView {
    if uses_shell(platform) {
        CommandLineView {
            program: script_file(config, platform),
            arguments: seq![
                ArgumentView::Text("--version"@),
                ArgumentView::Text(wanted.render_numbers()),
                ArgumentView::Text("--install-dir"@),
                ArgumentView::Path(sdk_directory(config, platform)),
                ArgumentView::Text("--no-path"@),
            ],
            sdk: None,
        }
    } else {
        CommandLineView {
            program: seq!["powershell"@],
            arguments: seq![
                ArgumentView::Text("-NoProfile"@),
                ArgumentView::Text("-File"@),
                ArgumentView::Path(script_file(config, platform)),
                ArgumentView::Text("-Channel"@),
                ArgumentView::Text("current"@),
                ArgumentView::Text("-Version"@),
                ArgumentView::Text(wanted.render_numbers()),
                ArgumentView::Text("-InstallDir"@),
                ArgumentView::Path(sdk_directory(config, platform)),
            ],
            sdk: None,
        }
    }
}

/// The state in which the installation is over.
pub open spec fn over(state: SdkStateView) -> SdkStateView {
    state.at(SdkStage::Ready)
}

/// One step of the installation.
///
/// The request is resolved first, and a request for the newest release is
/// refused before anything is asked of the outside world. An SDK on the
/// search path that is the wanted version or newer is enough; so is one
/// in the project's directory, which is then the one to use. Else the
/// project's directory is made ready, the installation script is downloaded
/// and run, and the SDK on the search path, with the project's directory
/// first, is asked again: too old a version is then a failure.
pub open spec fn install_step(
    config: ConfigView,
    system: SystemView,
    state: SdkStateView,
    event: EventView,
) -> (SdkStateView, ProgressView) {
    match state.stage {
        SdkStage::Start => match wanted_version(config.sdk_version) {
            None => (over(state), ProgressView::Finished),
            Some(Ok(wanted)) => (
                SdkStateView { stage: SdkStage::Global, wanted, local: false },
                ProgressView::Next(ActionView::Capture(version_command(seq!["dotnet"@], None))),
            ),
            Some(Err(failure)) => (over(state), ProgressView::Failed(failure)),
        },
        SdkStage::Global => if installed_version(reported(event)).at_least(state.wanted) {
            (over(state), ProgressView::Finished)
        } else {
            match platform_of(system.os) {
                Some(platform) => (
                    state.at(SdkStage::Local),
                    ProgressView::Next(
                        ActionView::Capture(
                            version_command(
                                sdk_directory(config, platform).push("dotnet"@),
                                None,
                            ),
                        ),
                    ),
                ),
                None => (over(state), unplaced()),
            }
        },
        SdkStage::Ready => (state, ProgressView::Finished),
        _ => match platform_of(system.os) {
            Some(platform) => placed_step(config, platform, state, event),
            None => (over(state), unplaced()),
        },
    }
}

/// The failure of an installation on a platform that is not known.
pub open spec fn unplaced() -> ProgressView {
    ProgressView::Failed(FailureView { kind: FailureKind::Argument, message: unknown_platform() })
}

/// One step of the installation, from the point on where the platform is
/// known and the SDK on the search path was found too old.
pub open spec fn placed_step(
    config: ConfigView,
    platform: Platform,
    state: SdkStateView,
    event: EventView,
) -> (SdkStateView, ProgressView) {
    match state.stage {
        SdkStage::Local => if installed_version(reported(event)).at_least(state.wanted) {
            (SdkStateView { stage: SdkStage::Ready, local: true, ..state }, ProgressView::Finished)
        } else {
            (
                state.at(SdkStage::Directory),
                ProgressView::Next(ActionView::PathExists(sdk_root(config))),
            )
        },
        SdkStage::Directory => match event {
            EventView::Exists(true) => (
                state.at(SdkStage::PlatformDirectory),
                ProgressView::Next(ActionView::PathExists(sdk_directory(config, platform))),
            ),
            EventView::Exists(false) => (
                state.at(SdkStage::DirectoryCreate),
                ProgressView::Next(ActionView::CreateDirectory(sdk_root(config))),
            ),
            _ => (over(state), ProgressView::Failed(refusal_of(FailureKind::FileSystem, event))),
        },
        SdkStage::DirectoryCreate => match event {
            EventView::Done => (
                state.at(SdkStage::PlatformDirectory),
                ProgressView::Next(ActionView::PathExists(sdk_directory(config, platform))),
            ),
            _ => (over(state), ProgressView::Failed(refusal_of(FailureKind::FileSystem, event))),
        },
        SdkStage::PlatformDirectory => match event {
            EventView::Exists(true) => script_step(
                config,
                platform,
                state,
                DownloadStage::Start,
                event,
            ),
            EventView::Exists(false) => (
                state.at(SdkStage::PlatformDirectoryCreate),
                ProgressView::Next(ActionView::CreateDirectory(sdk_directory(config, platform))),
            ),
            _ => (over(state), ProgressView::Failed(refusal_of(FailureKind::FileSystem, event))),
        },
        SdkStage::PlatformDirectoryCreate => match event {
            EventView::Done => script_step(config, platform, state, DownloadStage::Start, event),
            _ => (over(state), ProgressView::Failed(refusal_of(FailureKind::FileSystem, event))),
        },
        SdkStage::Script(inner) => script_step(config, platform, state, inner, event),
        SdkStage::Permit => match event {
            EventView::Exited(_) => (
                state.at(SdkStage::Install),
                ProgressView::Next(
                    ActionView::Spawn(install_command(config, platform, state.wanted)),
                ),
            ),
            _ => (over(state), ProgressView::Failed(refusal_of(FailureKind::Execution, event))),
        },
        SdkStage::Install => match event {
            EventView::Exited(_) => (
                SdkStateView { stage: SdkStage::Verify, local: true, ..state },
                ProgressView::Next(
                    ActionView::Capture(
                        version_command(seq!["dotnet"@], Some(sdk_directory(config, platform))),
                    ),
                ),
            ),
            _ => (over(state), ProgressView::Failed(refusal_of(FailureKind::Execution, event))),
        },
        SdkStage::Verify => if installed_version(reported(event)).at_least(state.wanted) {
            (over(state), ProgressView::Finished)
        } else {
            (
                over(state),
                ProgressView::Failed(
                    FailureView {
                        kind: FailureKind::Version,
                        message: still_missing(
                            installed_version(reported(event)),
                            state.wanted,
                        ),
                    },
                ),
            )
        },
        _ => (over(state), ProgressView::Finished),
    }
}

/// One step of the download of the installation script, and what follows
/// it: a shell script is marked executable and then run, any other script
/// is run at once.
pub open spec fn script_step(
    config: ConfigView,
    platform: Platform,
    state: SdkStateView,
    inner: DownloadStage,
    event: EventView,
) -> (SdkStateView, ProgressView) {
    let (next, progress) = download_step(
        script_url(platform),
        script_file(config, platform),
        None,
        inner,
        event,
    );
    match progress {
        ProgressView::Finished => if uses_shell(platform) {
            (
                state.at(SdkStage::Permit),
                ProgressView::Next(
                    ActionView::Spawn(permit_command(script_file(config, platform))),
                ),
            )
        } else {
            (
                state.at(SdkStage::Install),
                ProgressView::Next(
                    ActionView::Spawn(install_command(config, platform, state.wanted)),
                ),
            )
        },
        ProgressView::Next(action) => (state.at(SdkStage::Script(next)), progress),
        ProgressView::Failed(failure) => (over(state), progress),
    }
}

/// One variable of a child's environment.
#[derive(Clone, Debug, PartialEq, Eq)]
pub struct Variable {
    pub name: String,
    pub value: String,
}

impl View for Variable {
    type V = (Seq<char>, Seq<char>);

    open spec fn view(&self) -> (Seq<char>, Seq<char>) {
        (self.name@, self.value@)
    }
}

/// The variables of a sequence, each as what it is in contracts.
pub open spec fn variable_views(variables: Seq<Variable>) -> Seq<(Seq<char>, Seq<char>)> {
    Seq::new(variables.len(), |i: int| variables[i]@)
}

/// The environment of a child that is to use the project's own SDK: the
/// SDK's directory comes first on the search path, and the SDK is told to
/// leave out its first-time experience and its telemetry.
pub open spec fn sdk_environment(
    directory: Seq<char>,
    family: OsFamily,
    search_path: Seq<char>,
) -> Seq<(Seq<char>, Seq<char>)> {
    seq![
        ("PATH"@, directory + path_separator(family) + search_path),
        ("DOTNET_SKIP_FIRST_TIME_EXPERIENCE"@, "1"@),
        ("DOTNET_CLI_TELEMETRY_OPTOUT"@, "1"@),
    ]
}

/// Returns the variables to set for a child that is to use the project's
/// own SDK in `directory`, where `search_path` is the search path as it
/// stands.
pub fn set_environment_variables(
    directory: &str,
    family: OsFamily,
    search_path: &str,
) -> (variables: Vec<Variable>)
    ensures
        variable_views(variables@) == sdk_environment(directory@, family, search_path@),
{
    let mut variables: Vec<Variable> = Vec::new();
    variables.push(
        Variable {
            name: String::from_str("PATH"),
            value: prepend_search_path(directory, family, search_path),
        },
    );
    variables.push(
        Variable {
            name: String::from_str("DOTNET_SKIP_FIRST_TIME_EXPERIENCE"),
            value: String::from_str("1"),
        },
    );
    variables.push(
        Variable {
            name: String::from_str("DOTNET_CLI_TELEMETRY_OPTOUT"),
            value: String::from_str("1"),
        },
    );
    assert(variable_views(variables@) =~= sdk_environment(directory@, family, search_path@));
    variables
}

/// Tells whether the SDK is wanted.
pub fn should_install(config: &Config) -> (wanted: bool)
    ensures
        wanted == !(config@.sdk_version is Absent),
{
    config.sdk_version.is_requested()
}

/// Resolves the request for the SDK.
pub fn resolve(request: &VersionSpec) -> (resolved: Option<Result<ResolvedVersion, Failure>>)
    ensures
        match resolved {
            None => wanted_version(request@) is None,
            Some(Ok(version)) => wanted_version(request@) == Some(
                Ok::<Semver, FailureView>(version@),
            ),
            Some(Err(failure)) => wanted_version(request@) == Some(
                Err::<Semver, FailureView>(failure@),
            ),
        },
{
    match request {
        VersionSpec::Absent => None,
        VersionSpec::Latest => Some(
            Err(
                Failure::new(
                    FailureKind::Version,
                    "You must specify a specific SDK version or none at all.",
                ),
            ),
        ),
        VersionSpec::Specific(text) => match ResolvedVersion::parse(text.as_str()) {
            Ok(version) => Some(Ok(version)),
            Err(_) => Some(
                Err(
                    Failure::new(
                        FailureKind::Version,
                        "Provided .NET Core SDK version is not valid.",
                    ),
                ),
            ),
        },
    }
}

/// Reads the version that an SDK reports from the answer to the command
/// that asked for it.
pub fn get_installed_version(event: &Event) -> (version: ResolvedVersion)
    ensures
        version@ == installed_version(reported(event@)),
{
    match event {
        Event::Output(Some(text)) => match ResolvedVersion::parse(trim(text.as_str())) {
            Ok(version) => version,
            Err(_) => ResolvedVersion::new(0, 0, 0),
        },
        _ => ResolvedVersion::new(0, 0, 0),
    }
}

/// Returns the directory that holds the project's SDKs.
pub fn get_installation_root(config: &Config) -> (path: ToolPath)
    ensures
        path@ == sdk_root(config@),
{
    let path = ToolPath::new(config.root.as_str()).join(".dotnet");
    assert(path@ =~= sdk_root(config@));
    path
}

/// Returns the directory that holds the project's SDK for a platform.
pub fn get_installation_path(config: &Config, platform: Platform) -> (path: ToolPath)
    ensures
        path@ == sdk_directory(config@, platform),
{
    let path = get_installation_root(config).join(platform.get_name());
    assert(path@ =~= sdk_directory(config@, platform));
    path
}

/// Returns the directory that holds the project's SDK on this system. A
/// system whose platform is not known has none.
pub fn get_local_installation_path(config: &Config, system: &System) -> (path: Result<
    ToolPath,
    Failure,
>)
    ensures
        match path {
            Ok(path) => platform_of(system@.os) matches Some(platform) && path@ == sdk_directory(
                config@,
                platform,
            ),
            Err(failure) => platform_of(system@.os) is None && failure@ == (FailureView {
                kind: FailureKind::Argument,
                message: unknown_platform(),
            }),
        },
{
    match get_platform_name(system.os.as_str()) {
        Ok(name) => {
            let path = get_installation_root(config).join(name.as_str());
            assert(path@ =~= seq![config@.root, ".dotnet"@, name@]);
            Ok(path)
        },
        Err(failure) => Err(failure),
    }
}

fn ask_version(program: ToolPath, sdk: Option<ToolPath>) -> (command: CommandLine)
    ensures
        command@ == version_command(program@, crate::command_line::optional_path(sdk)),
{
    let command = CommandLine::new(program, sdk).text("--version");
    assert(command@.arguments =~= seq![ArgumentView::Text("--version"@)]);
    command
}

fn get_script(config: &Config, platform: Platform) -> (file: ToolPath)
    ensures
        file@ == script_file(config@, platform),
{
    match platform {
        Platform::Windows => get_installation_path(config, platform).join("dotnet-install.ps1"),
        _ => get_installation_path(config, platform).join("dotnet-install.sh"),
    }
}

fn get_script_url(platform: Platform) -> (url: String)
    ensures
        url@ == script_url(platform),
{
    match platform {
        Platform::Windows => String::from_str("https://dot.net/v1/dotnet-install.ps1"),
        _ => String::from_str("https://dot.net/v1/dotnet-install.sh"),
    }
}

/// Returns the command that installs the SDK in the wanted version.
pub fn execute_install_script(
    config: &Config,
    platform: Platform,
    wanted: &ResolvedVersion,
) -> (command: CommandLine)
    ensures
        command@ == install_command(config@, platform, wanted@),
{
    let numbers = wanted.numbers();
    match platform {
        Platform::Windows => {
            let command = CommandLine::new(ToolPath::new("powershell"), None)
                .text("-NoProfile")
                .text("-File")
                .path(get_script(config, platform))
                .text("-Channel")
                .text("current")
                .text("-Version")
                .text(numbers.as_str())
                .text("-InstallDir")
                .path(get_installation_path(config, platform));
            assert(command@.arguments =~= install_command(config@, platform, wanted@).arguments);
            command
        },
        _ => {
            let command = CommandLine::new(get_script(config, platform), None)
                .text("--version")
                .text(numbers.as_str())
                .text("--install-dir")
                .path(get_installation_path(config, platform))
                .text("--no-path");
            assert(command@.arguments =~= install_command(config@, platform, wanted@).arguments);
            command
        },
    }
}

fn unknown() -> (progress: Progress)
    ensures
        progress@ == unplaced(),
{
    Progress::Failed(Failure::new(FailureKind::Argument, "Could not get platform."))
}

fn script(
    config: &Config,
    platform: Platform,
    state: SdkState,
    inner: DownloadStage,
    event: &Event,
) -> (next: (SdkState, Progress))
    ensures
        (next.0@, next.1@) == script_step(config@, platform, state@, inner, event@),
{
    let (stage, progress) = download(
        get_script_url(platform),
        get_script(config, platform),
        None,
        inner,
        event,
    );
    match progress {
        Progress::Finished => match platform {
            Platform::Windows => {
                let command = execute_install_script(config, platform, &state.wanted);
                (state.at(SdkStage::Install), Progress::Next(Action::Spawn(command)))
            },
            _ => (
                state.at(SdkStage::Permit),
                Progress::Next(Action::Spawn(permit(get_script(config, platform)))),
            ),
        },
        Progress::Next(action) => (state.at(SdkStage::Script(stage)), Progress::Next(action)),
        Progress::Failed(failure) => (state.at(SdkStage::Ready), Progress::Failed(failure)),
    }
}

fn placed(config: &Config, platform: Platform, state: SdkState, event: &Event) -> (next: (
    SdkState,
    Progress,
))
    ensures
        (next.0@, next.1@) == placed_step(config@, platform, state@, event@),
{
    match state.stage {
        SdkStage::Local => {
            if get_installed_version(event).satisfies(&state.wanted) {
                (
                    SdkState { stage: SdkStage::Ready, wanted: state.wanted, local: true },
                    Progress::Finished,
                )
            } else {
                (
                    state.at(SdkStage::Directory),
                    Progress::Next(Action::PathExists(get_installation_root(config))),
                )
            }
        },
        SdkStage::Directory => match event {
            Event::Exists(true) => (
                state.at(SdkStage::PlatformDirectory),
                Progress::Next(Action::PathExists(get_installation_path(config, platform))),
            ),
            Event::Exists(false) => (
                state.at(SdkStage::DirectoryCreate),
                Progress::Next(Action::CreateDirectory(get_installation_root(config))),
            ),
            _ => (
                state.at(SdkStage::Ready),
                Progress::Failed(refusal(FailureKind::FileSystem, event)),
            ),
        },
        SdkStage::DirectoryCreate => match event {
            Event::Done => (
                state.at(SdkStage::PlatformDirectory),
                Progress::Next(Action::PathExists(get_installation_path(config, platform))),
            ),
            _ => (
                state.at(SdkStage::Ready),
                Progress::Failed(refusal(FailureKind::FileSystem, event)),
            ),
        },
        SdkStage::PlatformDirectory => match event {
            Event::Exists(true) => script(config, platform, state, DownloadStage::Start, event),
            Event::Exists(false) => (
                state.at(SdkStage::PlatformDirectoryCreate),
                Progress::Next(Action::CreateDirectory(get_installation_path(config, platform))),
            ),
            _ => (
                state.at(SdkStage::Ready),
                Progress::Failed(refusal(FailureKind::FileSystem, event)),
            ),
        },
        SdkStage::PlatformDirectoryCreate => match event {
            Event::Done => script(config, platform, state, DownloadStage::Start, event),
            _ => (
                state.at(SdkStage::Ready),
                Progress::Failed(refusal(FailureKind::FileSystem, event)),
            ),
        },
        SdkStage::Script(inner) => script(config, platform, state, inner, event),
        SdkStage::Permit => match event {
            Event::Exited(_) => {
                let command = execute_install_script(config, platform, &state.wanted);
                (state.at(SdkStage::Install), Progress::Next(Action::Spawn(command)))
            },
            _ => (
                state.at(SdkStage::Ready),
                Progress::Failed(refusal(FailureKind::Execution, event)),
            ),
        },
        SdkStage::Install => match event {
            Event::Exited(_) => (
                SdkState { stage: SdkStage::Verify, wanted: state.wanted, local: true },
                Progress::Next(
                    Action::Capture(
                        ask_version(
                            ToolPath::new("dotnet"),
                            Some(get_installation_path(config, platform)),
                        ),
                    ),
                ),
            ),
            _ => (
                state.at(SdkStage::Ready),
                Progress::Failed(refusal(FailureKind::Execution, event)),
            ),
        },
        SdkStage::Verify => {
            let found = get_installed_version(event);
            if found.satisfies(&state.wanted) {
                (state.at(SdkStage::Ready), Progress::Finished)
            } else {
                let mut message = String::from_str("Found v");
                message.append(found.to_text().as_str());
                message.append(" on PATH but wanted v");
                message.append(state.wanted.to_text().as_str());
                message.append(".");
                (
                    state.at(SdkStage::Ready),
                    Progress::Failed(Failure { kind: FailureKind::Version, message }),
                )
            }
        },
        _ => (state.at(SdkStage::Ready), Progress::Finished),
    }
}

/// Takes the installation of the SDK one step further: `event` answers the
/// action that the step before asked for. At `SdkStage::Start` nothing was
/// asked, and the event is not looked at.
pub fn install(config: &Config, system: &System, state: SdkState, event: &Event) -> (next: (
    SdkState,
    Progress,
))
    ensures
        (next.0@, next.1@) == install_step(config@, system@, state@, event@),
{
    match state.stage {
        SdkStage::Start => match resolve(&config.sdk_version) {
            None => (state.at(SdkStage::Ready), Progress::Finished),
            Some(Ok(wanted)) => (
                SdkState { stage: SdkStage::Global, wanted, local: false },
                Progress::Next(Action::Capture(ask_version(ToolPath::new("dotnet"), None))),
            ),
            Some(Err(failure)) => (state.at(SdkStage::Ready), Progress::Failed(failure)),
        },
        SdkStage::Global => {
            if get_installed_version(event).satisfies(&state.wanted) {
                return (state.at(SdkStage::Ready), Progress::Finished);
            }
            match get_local_installation_path(config, system) {
                Ok(directory) => (
                    state.at(SdkStage::Local),
                    Progress::Next(Action::Capture(ask_version(directory.join("dotnet"), None))),
                ),
                Err(failure) => (state.at(SdkStage::Ready), Progress::Failed(failure)),
            }
        },
        SdkStage::Ready => (state, Progress::Finished),
        _ => match get_platform(system.os.as_str()) {
            Ok(platform) => placed(config, platform, state, event),
            Err(_) => (state.at(SdkStage::Ready), unknown()),
        },
    }
}

} // verus!
