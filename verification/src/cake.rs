//! The build tool, Cake: its package, its installer, and the two phases in
//! which it runs a script.

use crate::command_line::optional_path;
use crate::config::{Config, ConfigView};
use crate::error::{Failure, FailureKind, FailureView};
use crate::github::{get_latest_release, no_release};
use crate::host::{get_host, host_for, Host};
use crate::http::{download, download_step, DownloadStage};
use crate::path::{texts, ToolPath};
use crate::platform::{OsFamily, System, SystemView};
use crate::step::{
    refusal,
    refusal_of,
    Action,
    ActionView,
    Event,
    EventView,
    Progress,
    ProgressView,
};
use crate::version::{
    resolve_latest,
    resolve_specific,
    semver_parse,
    semver_precedes,
    without_prefix,
    ResolvedVersion,
    Semver,
    VersionSpec,
};
use vstd::prelude::*;

verus! {

/// The version of this library, as it names itself to servers.
pub const VERSION: &'static str = "0.1.0";

/// The name of the package: that of the build for the managed runtime
/// where that one is asked for.
pub open spec fn flavor(use_coreclr: bool) -> Seq<char> {
    if use_coreclr {
        "Cake.CoreClr"@
    } else {
        "Cake"@
    }
}

/// The name of the package in lower case.
pub open spec fn flavor_lowercase(use_coreclr: bool) -> Seq<char> {
    if use_coreclr {
        "cake.coreclr"@
    } else {
        "cake"@
    }
}

/// The name of the tool's binary.
pub open spec fn binary_name(use_coreclr: bool) -> Seq<char> {
    if use_coreclr {
        "Cake.dll"@
    } else {
        "Cake.exe"@
    }
}

/// The name of the directory that a version of the package is installed
/// in.
pub open spec fn directory_name(use_coreclr: bool, version: Semver) -> Seq<char> {
    flavor_lowercase(use_coreclr) + "."@ + version.render()
}

/// The name of the archive that holds a version of the package.
pub open spec fn archive_name(use_coreclr: bool, version: Semver) -> Seq<char> {
    flavor_lowercase(use_coreclr) + "."@ + version.render() + ".nupkg"@
}

/// What the installer calls itself when it downloads the package.
pub open spec fn user_agent() -> Seq<char> {
    "Cakeup NuGet Client/"@ + VERSION@
}

/// Returns the name of the package.
pub fn get_cake_flavor(config: &Config) -> (name: &'static str)
    ensures
        name@ == flavor(config.use_coreclr),
{
    if config.use_coreclr {
        "Cake.CoreClr"
    } else {
        "Cake"
    }
}

fn get_cake_flavor_lowercase(config: &Config) -> (name: &'static str)
    ensures
        name@ == flavor_lowercase(config.use_coreclr),
{
    if config.use_coreclr {
        "cake.coreclr"
    } else {
        "cake"
    }
}

/// Returns the name of the tool's binary.
pub fn get_cake_filename(config: &Config) -> (name: &'static str)
    ensures
        name@ == binary_name(config.use_coreclr),
{
    if config.use_coreclr {
        "Cake.dll"
    } else {
        "Cake.exe"
    }
}

/// Returns the name of the archive that holds a version of the package.
pub fn get_cake_package_name(config: &Config, version: &ResolvedVersion) -> (name: String)
    ensures
        name@ == archive_name(config.use_coreclr, version@),
{
    let mut name = String::from_str(get_cake_flavor_lowercase(config));
    name.append(".");
    name.append(version.to_text().as_str());
    name.append(".nupkg");
    name
}

/// One version of the build tool on disk.
#[derive(Clone, Debug, PartialEq, Eq)]
pub struct Package {
    pub name: String,
    pub version: ResolvedVersion,
    /// The name of the archive.
    pub filename: String,
    /// The directory that the package is installed in. That it exists is
    /// the one sign that the package is installed.
    pub directory: ToolPath,
    pub core_clr: bool,
    /// The directory that holds the tools.
    pub tools: String,
}

/// What a `Package` is in contracts.
pub struct PackageView {
    pub name: Seq<char>,
    pub version: Semver,
    pub filename: Seq<char>,
    pub directory: Seq<Seq<char>>,
    pub core_clr: bool,
    pub tools: Seq<char>,
}

impl View for Package {
    type V = PackageView;

    open spec fn view(&self) -> PackageView {
        PackageView {
            name: self.name@,
            version: self.version@,
            filename: self.filename@,
            directory: self.directory@,
            core_clr: self.core_clr,
            tools: self.tools@,
        }
    }
}

impl PackageView {
    /// The package of a version of the tool, for a run.
    pub open spec fn of(config: ConfigView, version: Semver) -> PackageView {
        PackageView {
            name: flavor(config.use_coreclr),
            version,
            filename: archive_name(config.use_coreclr, version),
            directory: seq![config.tools, directory_name(config.use_coreclr, version)],
            core_clr: config.use_coreclr,
            tools: config.tools,
        }
    }

    /// Whether the names of the package are those of its flavor and its
    /// version, and its directory lies among the tools.
    pub open spec fn well_formed(self) -> bool {
        &&& self.name == flavor(self.core_clr)
        &&& self.filename == archive_name(self.core_clr, self.version)
        &&& self.directory == seq![self.tools, directory_name(self.core_clr, self.version)]
    }

    /// The tool's binary.
    pub open spec fn binary(self) -> Seq<Seq<char>> {
        self.directory.push(binary_name(self.core_clr))
    }

    /// The archive, where it is put before it is unpacked.
    pub open spec fn archive(self) -> Seq<Seq<char>> {
        seq![self.tools, self.filename]
    }

    /// The archive in the package cache under the user's home directory.
    pub open spec fn cached(self, home: Seq<char>) -> Seq<Seq<char>> {
        seq![
            home,
            ".nuget"@,
            "packages"@,
            flavor_lowercase(self.core_clr),
            self.version.render(),
            self.filename,
        ]
    }

    /// The address that the package is distributed from.
    pub open spec fn url(self) -> Seq<char> {
        "https://www.nuget.org/api/v2/package/"@ + self.name + "/"@ + self.version.render()
    }
}

impl Package {
    /// Describes the package of a version of the tool, for a run.
    pub fn new(config: &Config, version: &ResolvedVersion) -> (package: Package)
        ensures
            package@ == PackageView::of(config@, version@),
            package@.well_formed(),
    {
        let mut name = String::from_str(get_cake_flavor_lowercase(config));
        name.append(".");
        name.append(version.to_text().as_str());
        let directory = ToolPath::new(config.tools.as_str()).join(name.as_str());
        assert(directory@ =~= seq![config@.tools, directory_name(config.use_coreclr, version@)]);
        Package {
            name: String::from_str(get_cake_flavor(config)),
            version: version.copy(),
            filename: get_cake_package_name(config, version),
            directory,
            core_clr: config.use_coreclr,
            tools: config.tools.clone(),
        }
    }

    /// Returns the tool's binary.
    pub fn get_path(&self) -> (path: ToolPath)
        ensures
            path@ == self@.binary(),
    {
        if self.core_clr {
            self.directory.join("Cake.dll")
        } else {
            self.directory.join("Cake.exe")
        }
    }

    /// Returns the place of the archive before it is unpacked.
    pub fn get_archive(&self) -> (path: ToolPath)
        ensures
            path@ == self@.archive(),
    {
        let path = ToolPath::new(self.tools.as_str()).join(self.filename.as_str());
        assert(path@ =~= self@.archive());
        path
    }

    /// Returns the place of the archive in the package cache under the
    /// user's home directory.
    pub fn get_cached(&self, home: &str) -> (path: ToolPath)
        ensures
            path@ == self@.cached(home@),
    {
        let lowercase = if self.core_clr {
            "cake.coreclr"
        } else {
            "cake"
        };
        let path = ToolPath::new(home).join(".nuget").join("packages").join(lowercase).join(
            self.version.to_text().as_str(),
        ).join(self.filename.as_str());
        assert(path@ =~= self@.cached(home@));
        path
    }

    /// Returns the address that the package is distributed from.
    pub fn get_url(&self) -> (url: String)
        ensures
            url@ == self@.url(),
    {
        let mut url = String::from_str("https://www.nuget.org/api/v2/package/");
        url.append(self.name.as_str());
        url.append("/");
        url.append(self.version.to_text().as_str());
        url
    }
}

/// Where the installation of the build tool stands.
#[derive(Clone, Copy, Debug, PartialEq, Eq, Structural)]
pub enum CakeStage {
    /// Nothing was asked yet.
    Start,
    /// The release index was asked for the releases.
    Latest,
    /// The package's directory was asked after.
    Directory,
    /// The archive was asked after.
    Archive,
    /// The archive in the package cache was asked after.
    Cache,
    /// The archive was asked to be copied from the package cache.
    Copy,
    /// The archive is being downloaded.
    Download(DownloadStage),
    /// The archive was asked to be unpacked.
    Extract,
    /// The tool is in place, or was not wanted.
    Ready,
}

/// The installation of the build tool: where it stands and which version
/// it is about.
#[derive(Clone, Debug, PartialEq, Eq)]
pub struct CakeState {
    pub stage: CakeStage,
    /// The version that is installed; 0.0.0 until the request is resolved.
    pub version: ResolvedVersion,
}

/// What a `CakeState` is in contracts.
pub struct CakeStateView {
    pub stage: CakeStage,
    pub version: Semver,
}

impl View for CakeState {
    type V = CakeStateView;

    open spec fn view(&self) -> CakeStateView {
        CakeStateView { stage: self.stage, version: self.version@ }
    }
}

impl CakeStateView {
    /// The state before anything was asked.
    pub open spec fn start() -> CakeStateView {
        CakeStateView { stage: CakeStage::Start, version: Semver::release(0, 0, 0) }
    }

    /// This state, moved to `stage`.
    pub open spec fn at(self, stage: CakeStage) -> CakeStateView {
        CakeStateView { stage, ..self }
    }
}

impl CakeState {
    /// The state before anything was asked.
    pub fn start() -> (state: CakeState)
        ensures
            state@ == CakeStateView::start(),
    {
        CakeState { stage: CakeStage::Start, version: ResolvedVersion::new(0, 0, 0) }
    }

    fn at(self, stage: CakeStage) -> (state: CakeState)
        ensures
            state@ == self@.at(stage),
    {
        CakeState { stage, version: self.version }
    }
}

/// What is said when the version asked for, or the newest release's tag,
/// is no version.
pub open spec fn invalid_version() -> Seq<char> {
    "Provided Cake version is not valid."@
}

/// The failure of a request that names no version.
pub open spec fn unresolved() -> ProgressView {
    ProgressView::Failed(FailureView { kind: FailureKind::Version, message: invalid_version() })
}

/// The step that follows the resolution of the request: the package's
/// directory is asked after.
pub open spec fn resolved_step(config: ConfigView, resolved: Option<Semver>) -> (
    CakeStateView,
    ProgressView,
) {
    match resolved {
        Some(version) => (
            CakeStateView { stage: CakeStage::Directory, version },
            ProgressView::Next(ActionView::PathExists(PackageView::of(config, version).directory)),
        ),
        None => (CakeStateView::start().at(CakeStage::Ready), unresolved()),
    }
}

/// The step that unpacks the archive.
pub open spec fn unpack_step(config: ConfigView, state: CakeStateView) -> (
    CakeStateView,
    ProgressView,
) {
    let package = PackageView::of(config, state.version);
    (
        state.at(CakeStage::Extract),
        ProgressView::Next(
            ActionView::Extract { archive: package.archive(), to: package.directory },
        ),
    )
}

/// One step of the download of the archive, and what follows it: the
/// archive is unpacked.
pub open spec fn transfer_step(
    config: ConfigView,
    state: CakeStateView,
    inner: DownloadStage,
    event: EventView,
) -> (CakeStateView, ProgressView) {
    let package = PackageView::of(config, state.version);
    let (next, progress) = download_step(
        package.url(),
        package.archive(),
        Some(user_agent()),
        inner,
        event,
    );
    match progress {
        ProgressView::Finished => unpack_step(config, state),
        ProgressView::Next(action) => (state.at(CakeStage::Download(next)), progress),
        ProgressView::Failed(failure) => (state.at(CakeStage::Ready), progress),
    }
}

/// One step of the installation.
///
/// A request for one version is resolved at once; for the newest release
/// the release index is asked first, and the first release's tag, without
/// its prefix, is the version. Where the package's directory exists, the
/// tool counts as installed and nothing is fetched. Else the archive is
/// taken from where it lies already, or copied from the package cache under
/// the user's home directory, or downloaded; and then unpacked.
pub open spec fn install_step(
    config: ConfigView,
    system: SystemView,
    state: CakeStateView,
    event: EventView,
) -> (CakeStateView, ProgressView) {
    let package = PackageView::of(config, state.version);
    match state.stage {
        CakeStage::Start => match config.cake_version {
            crate::version::VersionRequest::Absent => (
                state.at(CakeStage::Ready),
                ProgressView::Finished,
            ),
            crate::version::VersionRequest::Latest => (
                state.at(CakeStage::Latest),
                ProgressView::Next(
                    ActionView::FetchReleases { owner: "cake-build"@, repository: "cake"@ },
                ),
            ),
            crate::version::VersionRequest::Specific(text) => resolved_step(
                config,
                semver_parse(text),
            ),
        },
        CakeStage::Latest => match event {
            EventView::Releases(releases) => if releases.len() == 0 {
                (
                    state.at(CakeStage::Ready),
                    ProgressView::Failed(
                        FailureView { kind: FailureKind::Network, message: no_release() },
                    ),
                )
            } else {
                resolved_step(config, semver_parse(without_prefix(releases[0].name)))
            },
            _ => (
                state.at(CakeStage::Ready),
                ProgressView::Failed(refusal_of(FailureKind::Network, event)),
            ),
        },
        CakeStage::Directory => match event {
            EventView::Exists(true) => (state.at(CakeStage::Ready), ProgressView::Finished),
            EventView::Exists(false) => (
                state.at(CakeStage::Archive),
                ProgressView::Next(ActionView::PathExists(package.archive())),
            ),
            _ => (
                state.at(CakeStage::Ready),
                ProgressView::Failed(refusal_of(FailureKind::FileSystem, event)),
            ),
        },
        CakeStage::Archive => match event {
            EventView::Exists(true) => unpack_step(config, state),
            EventView::Exists(false) => match system.home {
                Some(home) => (
                    state.at(CakeStage::Cache),
                    ProgressView::Next(ActionView::PathExists(package.cached(home))),
                ),
                None => transfer_step(config, state, DownloadStage::Start, event),
            },
            _ => (
                state.at(CakeStage::Ready),
                ProgressView::Failed(refusal_of(FailureKind::FileSystem, event)),
            ),
        },
        CakeStage::Cache => match event {
            EventView::Exists(true) => match system.home {
                Some(home) => (
                    state.at(CakeStage::Copy),
                    ProgressView::Next(
                        ActionView::CopyFile { from: package.cached(home), to: package.archive() },
                    ),
                ),
                None => transfer_step(config, state, DownloadStage::Start, event),
            },
            EventView::Exists(false) => transfer_step(config, state, DownloadStage::Start, event),
            _ => (
                state.at(CakeStage::Ready),
                ProgressView::Failed(refusal_of(FailureKind::FileSystem, event)),
            ),
        },
        CakeStage::Copy => match event {
            EventView::Copied(bytes) => if bytes > 0 {
                unpack_step(config, state)
            } else {
                transfer_step(config, state, DownloadStage::Start, event)
            },
            _ => (
                state.at(CakeStage::Ready),
                ProgressView::Failed(refusal_of(FailureKind::FileSystem, event)),
            ),
        },
        CakeStage::Download(inner) => transfer_step(config, state, inner, event),
        CakeStage::Extract => match event {
            EventView::Done => (state.at(CakeStage::Ready), ProgressView::Finished),
            _ => (
                state.at(CakeStage::Ready),
                ProgressView::Failed(refusal_of(FailureKind::Extraction, event)),
            ),
        },
        CakeStage::Ready => (state, ProgressView::Finished),
    }
}

/// Tells whether the build tool is wanted.
pub fn should_install(config: &Config) -> (wanted: bool)
    ensures
        wanted == !(config@.cake_version is Absent),
{
    config.cake_version.is_requested()
}

fn get_user_agent() -> (agent: String)
    ensures
        agent@ == user_agent(),
{
    let mut agent = String::from_str("Cakeup NuGet Client/");
    agent.append(VERSION);
    agent
}

fn resolved(config: &Config, outcome: Result<ResolvedVersion, Failure>) -> (next: (
    CakeState,
    Progress,
))
    ensures
        (next.0@, next.1@) == resolved_step(
            config@,
            match outcome {
                Ok(version) => Some(version@),
                Err(_) => None,
            },
        ),
{
    match outcome {
        Ok(version) => {
            let package = Package::new(config, &version);
            (
                CakeState { stage: CakeStage::Directory, version },
                Progress::Next(Action::PathExists(package.directory)),
            )
        },
        Err(_) => (
            CakeState::start().at(CakeStage::Ready),
            Progress::Failed(
                Failure::new(FailureKind::Version, "Provided Cake version is not valid."),
            ),
        ),
    }
}

fn unpack(config: &Config, state: CakeState) -> (next: (CakeState, Progress))
    ensures
        (next.0@, next.1@) == unpack_step(config@, state@),
{
    let package = Package::new(config, &state.version);
    let archive = package.get_archive();
    (
        state.at(CakeStage::Extract),
        Progress::Next(Action::Extract { archive, to: package.directory }),
    )
}

fn transfer(config: &Config, state: CakeState, inner: DownloadStage, event: &Event) -> (next: (
    CakeState,
    Progress,
))
    ensures
        (next.0@, next.1@) == transfer_step(config@, state@, inner, event@),
{
    let package = Package::new(config, &state.version);
    let (stage, progress) = download(
        package.get_url(),
        package.get_archive(),
        Some(get_user_agent()),
        inner,
        event,
    );
    match progress {
        Progress::Finished => unpack(config, state),
        Progress::Next(action) => (state.at(CakeStage::Download(stage)), Progress::Next(action)),
        Progress::Failed(failure) => (state.at(CakeStage::Ready), Progress::Failed(failure)),
    }
}

/// Takes the installation of the build tool one step further: `event`
/// answers the action that the step before asked for. At
/// `CakeStage::Start` nothing was asked, and the event is not looked at.
pub fn install(config: &Config, system: &System, state: CakeState, event: &Event) -> (next: (
    CakeState,
    Progress,
))
    ensures
        (next.0@, next.1@) == install_step(config@, system@, state@, event@),
{
    match state.stage {
        CakeStage::Start => match &config.cake_version {
            VersionSpec::Absent => (state.at(CakeStage::Ready), Progress::Finished),
            VersionSpec::Latest => (
                state.at(CakeStage::Latest),
                Progress::Next(
                    Action::FetchReleases {
                        owner: String::from_str("cake-build"),
                        repository: String::from_str("cake"),
                    },
                ),
            ),
            VersionSpec::Specific(text) => resolved(config, resolve_specific(text.as_str())),
        },
        CakeStage::Latest => match event {
            Event::Releases(releases) => match get_latest_release(releases) {
                Ok(release) => resolved(config, resolve_latest(release.name.as_str())),
                Err(failure) => (state.at(CakeStage::Ready), Progress::Failed(failure)),
            },
            _ => (
                state.at(CakeStage::Ready),
                Progress::Failed(refusal(FailureKind::Network, event)),
            ),
        },
        CakeStage::Directory => match event {
            Event::Exists(true) => (state.at(CakeStage::Ready), Progress::Finished),
            Event::Exists(false) => {
                let package = Package::new(config, &state.version);
                (
                    state.at(CakeStage::Archive),
                    Progress::Next(Action::PathExists(package.get_archive())),
                )
            },
            _ => (
                state.at(CakeStage::Ready),
                Progress::Failed(refusal(FailureKind::FileSystem, event)),
            ),
        },
        CakeStage::Archive => match event {
            Event::Exists(true) => unpack(config, state),
            Event::Exists(false) => match &system.home {
                Some(home) => {
                    let package = Package::new(config, &state.version);
                    (
                        state.at(CakeStage::Cache),
                        Progress::Next(Action::PathExists(package.get_cached(home.as_str()))),
                    )
                },
                None => transfer(config, state, DownloadStage::Start, event),
            },
            _ => (
                state.at(CakeStage::Ready),
                Progress::Failed(refusal(FailureKind::FileSystem, event)),
            ),
        },
        CakeStage::Cache => match event {
            Event::Exists(true) => match &system.home {
                Some(home) => {
                    let package = Package::new(config, &state.version);
                    let from = package.get_cached(home.as_str());
                    let to = package.get_archive();
                    (state.at(CakeStage::Copy), Progress::Next(Action::CopyFile { from, to }))
                },
                None => transfer(config, state, DownloadStage::Start, event),
            },
            Event::Exists(false) => transfer(config, state, DownloadStage::Start, event),
            _ => (
                state.at(CakeStage::Ready),
                Progress::Failed(refusal(FailureKind::FileSystem, event)),
            ),
        },
        CakeStage::Copy => match event {
            Event::Copied(bytes) => {
                if *bytes > 0 {
                    unpack(config, state)
                } else {
                    transfer(config, state, DownloadStage::Start, event)
                }
            },
            _ => (
                state.at(CakeStage::Ready),
                Progress::Failed(refusal(FailureKind::FileSystem, event)),
            ),
        },
        CakeStage::Download(inner) => transfer(config, state, inner, event),
        CakeStage::Extract => match event {
            Event::Done => (state.at(CakeStage::Ready), Progress::Finished),
            _ => (
                state.at(CakeStage::Ready),
                Progress::Failed(refusal(FailureKind::Extraction, event)),
            ),
        },
        CakeStage::Ready => (state, Progress::Finished),
    }
}

/// The build tool once it is installed: where its binary lies, which
/// version it is, and how it is launched.
#[derive(Clone, Debug, PartialEq, Eq)]
pub struct Cake {
    pub path: ToolPath,
    pub version: ResolvedVersion,
    pub host: Host,
}

/// What a `Cake` is in contracts.
pub struct CakeView {
    pub path: Seq<Seq<char>>,
    pub version: Semver,
    pub host: Host,
}

impl View for Cake {
    type V = CakeView;

    open spec fn view(&self) -> CakeView {
        CakeView { path: self.path@, version: self.version@, host: self.host }
    }
}

/// Where one phase of running the script stands.
#[derive(Clone, Copy, Debug, PartialEq, Eq, Structural)]
pub enum ScriptStage {
    /// Nothing was asked yet.
    Start,
    /// The user was warned that the phase is left out.
    Warned,
    /// The host's runtime was asked for its version.
    Probe,
    /// The tool was started.
    Running,
    /// The phase was left out.
    Skipped,
    /// The tool ran and ended with this exit code.
    Exited(i32),
    /// The phase failed.
    Failed,
}

impl ScriptStage {
    /// What the phase gave: the tool's exit code, or -1 for a phase that
    /// was left out or did not come to an end.
    pub open spec fn code(self) -> i32 {
        match self {
            ScriptStage::Exited(code) => code,
            _ => (-1) as i32,
        }
    }

    /// Returns what the phase gave.
    pub fn get_code(&self) -> (code: i32)
        ensures
            code == self.code(),
    {
        match self {
            ScriptStage::Exited(code) => *code,
            _ => -1,
        }
    }
}

/// The oldest version of the tool that can bootstrap.
pub open spec fn bootstrap_threshold() -> Semver {
    Semver::release(0, 24, 0)
}

/// What the user is told when the tool is too old to bootstrap.
pub open spec fn bootstrap_warning() -> Seq<char> {
    "Bootstrapping requires at least version 0.24.0 of Cake."@
}

/// What is said when the tool ended without an exit code.
pub open spec fn unknown_ending() -> Seq<char> {
    "An unknown error occured when executing script."@
}

/// Whether an answer shows that a runtime was reached: it is the output of
/// a command that ended in success.
pub open spec fn answered(event: EventView) -> bool {
    event matches EventView::Output(Some(_))
}

/// The arguments of the bootstrap phase: the marker, then the arguments of
/// the run as they stand.
pub open spec fn bootstrap_arguments(config: ConfigView) -> Seq<Seq<char>> {
    seq!["--bootstrap"@] + config.remaining
}

impl CakeView {
    /// The tool that a run uses once the package of `version` is
    /// installed.
    pub open spec fn of(config: ConfigView, family: OsFamily, version: Semver) -> CakeView {
        CakeView {
            path: PackageView::of(config, version).binary(),
            version,
            host: host_for(config.use_coreclr, family),
        }
    }

    /// The launch of the tool with `arguments`: where the host needs a
    /// runtime, that one is tried first; else the tool is started at once.
    pub open spec fn launch_step(self, arguments: Seq<Seq<char>>, sdk: Option<Seq<Seq<char>>>) -> (
        ScriptStage,
        ProgressView,
    ) {
        match self.host.probe_command(sdk) {
            Some(command) => (ScriptStage::Probe, ProgressView::Next(ActionView::Capture(command))),
            None => (
                ScriptStage::Running,
                ProgressView::Next(
                    ActionView::Spawn(self.host.launch_command(self.path, arguments, sdk)),
                ),
            ),
        }
    }

    /// One step of running the tool with `arguments`.
    ///
    /// A host whose runtime does not answer is unavailable, and the tool is
    /// not started. The exit code of the tool is what the phase gives; a
    /// tool that ends without one has failed.
    pub open spec fn script_step(
        self,
        arguments: Seq<Seq<char>>,
        sdk: Option<Seq<Seq<char>>>,
        stage: ScriptStage,
        event: EventView,
    ) -> (ScriptStage, ProgressView) {
        match stage {
            ScriptStage::Start => self.launch_step(arguments, sdk),
            ScriptStage::Warned => (ScriptStage::Skipped, ProgressView::Finished),
            ScriptStage::Probe => if answered(event) || self.host.runtime() is None {
                (
                    ScriptStage::Running,
                    ProgressView::Next(
                        ActionView::Spawn(self.host.launch_command(self.path, arguments, sdk)),
                    ),
                )
            } else {
                (
                    ScriptStage::Failed,
                    ProgressView::Failed(
                        FailureView {
                            kind: FailureKind::HostUnavailable,
                            message: self.host.unavailable(),
                        },
                    ),
                )
            },
            ScriptStage::Running => match event {
                EventView::Exited(Some(code)) => (
                    ScriptStage::Exited(code),
                    ProgressView::Finished,
                ),
                EventView::Exited(None) => (
                    ScriptStage::Failed,
                    ProgressView::Failed(
                        FailureView { kind: FailureKind::Execution, message: unknown_ending() },
                    ),
                ),
                _ => (
                    ScriptStage::Failed,
                    ProgressView::Failed(refusal_of(FailureKind::Execution, event)),
                ),
            },
            ScriptStage::Skipped => (stage, ProgressView::Finished),
            ScriptStage::Exited(_) => (stage, ProgressView::Finished),
            ScriptStage::Failed => (stage, ProgressView::Finished),
        }
    }

    /// One step of the bootstrap phase. A tool older than the threshold
    /// cannot bootstrap: the user is warned, nothing is started, and the
    /// phase counts as left out, which is no failure.
    pub open spec fn bootstrap_step(
        self,
        config: ConfigView,
        sdk: Option<Seq<Seq<char>>>,
        stage: ScriptStage,
        event: EventView,
    ) -> (ScriptStage, ProgressView) {
        if stage == ScriptStage::Start && semver_precedes(self.version, bootstrap_threshold()) {
            (ScriptStage::Warned, ProgressView::Next(ActionView::Warn(bootstrap_warning())))
        } else {
            self.script_step(bootstrap_arguments(config), sdk, stage, event)
        }
    }

    /// One step of the phase that executes the script: the tool is run
    /// with the arguments of the run as they stand.
    pub open spec fn execute_step(
        self,
        config: ConfigView,
        sdk: Option<Seq<Seq<char>>>,
        stage: ScriptStage,
        event: EventView,
    ) -> (ScriptStage, ProgressView) {
        self.script_step(config.remaining, sdk, stage, event)
    }
}

/// Returns the arguments of the bootstrap phase.
pub fn get_bootstrap_arguments(config: &Config) -> (arguments: Vec<String>)
    ensures
        texts(arguments@) == bootstrap_arguments(config@),
{
    let mut arguments: Vec<String> = Vec::new();
    arguments.push(String::from_str("--bootstrap"));
    let mut i: usize = 0;
    while i < config.remaining.len()
        invariant
            i <= config.remaining.len(),
            arguments.len() == i + 1,
            arguments[0]@ == "--bootstrap"@,
            forall|k: int| 0 <= k < i ==> arguments[k + 1]@ == config.remaining[k]@,
        decreases config.remaining.len() - i,
    {
        arguments.push(config.remaining[i].clone());
        i = i + 1;
    }
    assert(texts(arguments@) =~= bootstrap_arguments(config@));
    arguments
}

impl Cake {
    /// Describes the tool that a run uses once the package of `version`
    /// is installed.
    pub fn new(config: &Config, family: OsFamily, version: &ResolvedVersion) -> (cake: Cake)
        ensures
            cake@ == CakeView::of(config@, family, version@),
    {
        let package = Package::new(config, version);
        Cake { path: package.get_path(), version: version.copy(), host: get_host(config, family) }
    }

    fn launch(&self, arguments: &Vec<String>, sdk: Option<ToolPath>) -> (next: (
        ScriptStage,
        Progress,
    ))
        ensures
            (next.0, next.1@) == self@.launch_step(texts(arguments@), optional_path(sdk)),
    {
        match self.host {
            Host::Clr => (
                ScriptStage::Running,
                Progress::Next(
                    Action::Spawn(self.host.execute(self.path.copy(), arguments, sdk)),
                ),
            ),
            _ => match self.host.probe(sdk) {
                Some(command) => (ScriptStage::Probe, Progress::Next(Action::Capture(command))),
                None => (ScriptStage::Failed, Progress::Finished),
            },
        }
    }

    /// Takes the run of the tool with `arguments` one step further: `event`
    /// answers the action that the step before asked for. At
    /// `ScriptStage::Start` nothing was asked, and the event is not looked
    /// at.
    pub fn execute_script(
        &self,
        arguments: &Vec<String>,
        sdk: Option<ToolPath>,
        stage: ScriptStage,
        event: &Event,
    ) -> (next: (ScriptStage, Progress))
        ensures
            (next.0, next.1@) == self@.script_step(
                texts(arguments@),
                optional_path(sdk),
                stage,
                event@,
            ),
    {
        match stage {
            ScriptStage::Start => self.launch(arguments, sdk),
            ScriptStage::Warned => (ScriptStage::Skipped, Progress::Finished),
            ScriptStage::Probe => {
                let reachable = match event {
                    Event::Output(Some(_)) => true,
                    _ => false,
                };
                match self.host.verify(reachable) {
                    Ok(_) => (
                        ScriptStage::Running,
                        Progress::Next(
                            Action::Spawn(self.host.execute(self.path.copy(), arguments, sdk)),
                        ),
                    ),
                    Err(failure) => (ScriptStage::Failed, Progress::Failed(failure)),
                }
            },
            ScriptStage::Running => match event {
                Event::Exited(Some(code)) => (ScriptStage::Exited(*code), Progress::Finished),
                Event::Exited(None) => (
                    ScriptStage::Failed,
                    Progress::Failed(
                        Failure::new(
                            FailureKind::Execution,
                            "An unknown error occured when executing script.",
                        ),
                    ),
                ),
                _ => (
                    ScriptStage::Failed,
                    Progress::Failed(refusal(FailureKind::Execution, event)),
                ),
            },
            ScriptStage::Skipped => (stage, Progress::Finished),
            ScriptStage::Exited(_) => (stage, Progress::Finished),
            ScriptStage::Failed => (stage, Progress::Finished),
        }
    }

    /// Tells whether this version of the tool can bootstrap: whether it is
    /// the threshold or comes after it.
    pub fn can_bootstrap(&self) -> (able: bool)
        ensures
            able == self@.version.at_least(bootstrap_threshold()),
            !self@.version.same_numbers(bootstrap_threshold()) ==> able
                == bootstrap_threshold().numbers_before(self@.version),
            self@.version.same_numbers(bootstrap_threshold()) && self@.version.pre.len() == 0
                ==> able,
    {
        !self.version.precedes(&ResolvedVersion::new(0, 24, 0))
    }

    /// Takes the bootstrap phase one step further.
    pub fn bootstrap(
        &self,
        config: &Config,
        sdk: Option<ToolPath>,
        stage: ScriptStage,
        event: &Event,
    ) -> (next: (ScriptStage, Progress))
        ensures
            (next.0, next.1@) == self@.bootstrap_step(config@, optional_path(sdk), stage, event@),
    {
        let fresh = match stage {
            ScriptStage::Start => true,
            _ => false,
        };
        if fresh && !self.can_bootstrap() {
            (
                ScriptStage::Warned,
                Progress::Next(
                    Action::Warn(
                        String::from_str("Bootstrapping requires at least version 0.24.0 of Cake."),
                    ),
                ),
            )
        } else {
            let arguments = get_bootstrap_arguments(config);
            self.execute_script(&arguments, sdk, stage, event)
        }
    }

    /// Takes the phase that executes the script one step further.
    pub fn execute(
        &self,
        config: &Config,
        sdk: Option<ToolPath>,
        stage: ScriptStage,
        event: &Event,
    ) -> (next: (ScriptStage, Progress))
        ensures
            (next.0, next.1@) == self@.execute_step(config@, optional_path(sdk), stage, event@),
    {
        self.execute_script(&config.remaining, sdk, stage, event)
    }
}

} // verus!
