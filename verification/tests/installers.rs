use cakeup::cake::{
    get_cake_filename, get_cake_flavor, get_cake_package_name, CakeStage, CakeState, Package,
};
use cakeup::command_line::{Argument, CommandLine};
use cakeup::config::Config;
use cakeup::dotnet::{
    execute_install_script, get_installation_path, get_installation_root, get_installed_version,
    get_local_installation_path, SdkStage, SdkState,
};
use cakeup::error::{Failure, FailureKind};
use cakeup::github::{get_latest_release, GitHubRelease};
use cakeup::http::{download, DownloadStage};
use cakeup::nuget::NugetStage;
use cakeup::path::ToolPath;
use cakeup::platform::{OsFamily, Platform, System};
use cakeup::step::{refusal, Action, Event, Progress};
use cakeup::version::{ResolvedVersion, VersionSpec};

fn config() -> Config {
    Config {
        root: "/work".to_string(),
        tools: "/work/tools".to_string(),
        cake_version: VersionSpec::Absent,
        nuget_version: VersionSpec::Absent,
        sdk_version: VersionSpec::Absent,
        use_coreclr: false,
        bootstrap: false,
        execute_script: false,
        remaining: vec![],
    }
}

fn linux() -> System {
    System { os: "linux".to_string(), family: OsFamily::Unix, home: Some("/home/me".to_string()) }
}

fn windows() -> System {
    System { os: "windows".to_string(), family: OsFamily::Windows, home: None }
}

fn path(segments: &[&str]) -> ToolPath {
    ToolPath { segments: segments.iter().map(|s| s.to_string()).collect() }
}

fn text(value: &str) -> Argument {
    Argument::Text(value.to_string())
}

fn specific(version: &str) -> VersionSpec {
    VersionSpec::Specific(version.to_string())
}

fn failed(kind: FailureKind, message: &str) -> Progress {
    Progress::Failed(Failure { kind, message: message.to_string() })
}

fn release(name: &str) -> GitHubRelease {
    GitHubRelease { url: format!("https://example.org/{}", name), name: name.to_string() }
}

// Downloads

fn transfer(stage: DownloadStage, event: Event) -> (DownloadStage, Progress) {
    download(
        "https://example.org/file".to_string(),
        path(&["/work", "file"]),
        Some("agent".to_string()),
        stage,
        &event,
    )
}

#[test]
fn a_download_asks_for_the_transfer() {
    assert_eq!(
        transfer(DownloadStage::Start, Event::Done),
        (
            DownloadStage::Transfer,
            Progress::Next(Action::Download {
                url: "https://example.org/file".to_string(),
                to: path(&["/work", "file"]),
                user_agent: Some("agent".to_string()),
            })
        )
    );
}

#[test]
fn a_download_ends_well_on_success() {
    assert_eq!(
        transfer(DownloadStage::Transfer, Event::Status(200)),
        (DownloadStage::Complete, Progress::Finished)
    );
    assert_eq!(
        transfer(DownloadStage::Complete, Event::Done),
        (DownloadStage::Complete, Progress::Finished)
    );
}

#[test]
fn a_download_removes_the_file_after_any_other_status() {
    for status in [0, 199, 201, 204, 301, 404, 500] {
        assert_eq!(
            transfer(DownloadStage::Transfer, Event::Status(status)),
            (DownloadStage::Cleanup(status), Progress::Next(Action::Remove(path(&["/work", "file"]))))
        );
    }
}

#[test]
fn a_download_fails_with_the_status_it_received() {
    assert_eq!(
        transfer(DownloadStage::Cleanup(404), Event::Done),
        (
            DownloadStage::Complete,
            failed(FailureKind::Network, "Expected status code 200 but received 404.")
        )
    );
    assert_eq!(
        transfer(DownloadStage::Cleanup(4294967295), Event::Done),
        (
            DownloadStage::Complete,
            failed(FailureKind::Network, "Expected status code 200 but received 4294967295.")
        )
    );
}

#[test]
fn a_download_fails_when_the_transfer_or_the_removal_fails() {
    assert_eq!(
        transfer(DownloadStage::Transfer, Event::Failed("connection reset".to_string())),
        (DownloadStage::Complete, failed(FailureKind::Network, "connection reset"))
    );
    assert_eq!(
        transfer(DownloadStage::Cleanup(404), Event::Failed("permission denied".to_string())),
        (DownloadStage::Complete, failed(FailureKind::FileSystem, "permission denied"))
    );
    assert_eq!(
        transfer(DownloadStage::Transfer, Event::Exists(true)),
        (
            DownloadStage::Complete,
            failed(FailureKind::Network, "The answer does not fit the action.")
        )
    );
}

#[test]
fn an_answer_other_than_success_is_a_refusal() {
    assert_eq!(
        refusal(FailureKind::Extraction, &Event::Failed("bad archive".to_string())),
        Failure { kind: FailureKind::Extraction, message: "bad archive".to_string() }
    );
    assert_eq!(
        refusal(FailureKind::Extraction, &Event::Copied(3)),
        Failure {
            kind: FailureKind::Extraction,
            message: "The answer does not fit the action.".to_string()
        }
    );
}

// Releases

#[test]
fn the_first_release_is_the_latest() {
    let releases = vec![release("v0.30.0"), release("v0.29.0")];
    assert_eq!(get_latest_release(&releases), Ok(release("v0.30.0")));
}

#[test]
fn an_empty_index_is_a_network_failure() {
    assert_eq!(
        get_latest_release(&vec![]),
        Err(Failure {
            kind: FailureKind::Network,
            message: "The release index lists no release.".to_string()
        })
    );
}

// NuGet

fn nuget(config: &Config, system: &System, stage: NugetStage, event: Event) -> (NugetStage, Progress) {
    cakeup::nuget::install(config, system, stage, &event)
}

#[test]
fn nuget_is_wanted_when_it_is_asked_for() {
    let mut wanted = config();
    assert!(!cakeup::nuget::should_install(&wanted));
    wanted.nuget_version = VersionSpec::Latest;
    assert!(cakeup::nuget::should_install(&wanted));
    wanted.nuget_version = specific("v4.6.2");
    assert!(cakeup::nuget::should_install(&wanted));
}

#[test]
fn nuget_has_its_file_and_its_address() {
    let mut wanted = config();
    wanted.nuget_version = VersionSpec::Latest;
    assert_eq!(cakeup::nuget::get_path(&wanted), path(&["/work/tools", "nuget.exe"]));
    assert_eq!(
        cakeup::nuget::get_url(&wanted),
        "https://dist.nuget.org/win-x86-commandline/latest/nuget.exe"
    );
    wanted.nuget_version = specific("v4.6.2");
    assert_eq!(
        cakeup::nuget::get_url(&wanted),
        "https://dist.nuget.org/win-x86-commandline/v4.6.2/nuget.exe"
    );
}

#[test]
fn nuget_that_is_not_wanted_is_ready_at_once() {
    assert_eq!(
        nuget(&config(), &linux(), NugetStage::Start, Event::Done),
        (NugetStage::Ready, Progress::Finished)
    );
}

#[test]
fn nuget_that_is_there_is_not_fetched() {
    let mut wanted = config();
    wanted.nuget_version = VersionSpec::Latest;
    assert_eq!(
        nuget(&wanted, &linux(), NugetStage::Start, Event::Done),
        (
            NugetStage::Probe,
            Progress::Next(Action::PathExists(path(&["/work/tools", "nuget.exe"])))
        )
    );
    assert_eq!(
        nuget(&wanted, &linux(), NugetStage::Probe, Event::Exists(true)),
        (NugetStage::Ready, Progress::Finished)
    );
}

#[test]
fn nuget_is_downloaded_and_marked_executable() {
    let mut wanted = config();
    wanted.nuget_version = specific("v4.6.2");
    assert_eq!(
        nuget(&wanted, &linux(), NugetStage::Probe, Event::Exists(false)),
        (
            NugetStage::Download(DownloadStage::Transfer),
            Progress::Next(Action::Download {
                url: "https://dist.nuget.org/win-x86-commandline/v4.6.2/nuget.exe".to_string(),
                to: path(&["/work/tools", "nuget.exe"]),
                user_agent: Some("Cakeup".to_string()),
            })
        )
    );
    assert_eq!(
        nuget(&wanted, &linux(), NugetStage::Download(DownloadStage::Transfer), Event::Status(200)),
        (
            NugetStage::Permit,
            Progress::Next(Action::Spawn(CommandLine {
                program: path(&["chmod"]),
                arguments: vec![text("+x"), Argument::Path(path(&["/work/tools", "nuget.exe"]))],
                sdk: None,
            }))
        )
    );
    assert_eq!(
        nuget(&wanted, &linux(), NugetStage::Permit, Event::Exited(Some(0))),
        (NugetStage::Ready, Progress::Finished)
    );
    assert_eq!(
        nuget(&wanted, &linux(), NugetStage::Permit, Event::Failed("no chmod".to_string())),
        (NugetStage::Ready, failed(FailureKind::Execution, "no chmod"))
    );
}

#[test]
fn nuget_needs_no_permission_on_windows() {
    let mut wanted = config();
    wanted.nuget_version = VersionSpec::Latest;
    assert_eq!(
        nuget(&wanted, &windows(), NugetStage::Download(DownloadStage::Transfer), Event::Status(200)),
        (NugetStage::Ready, Progress::Finished)
    );
}

#[test]
fn nuget_fails_with_its_download() {
    let mut wanted = config();
    wanted.nuget_version = VersionSpec::Latest;
    assert_eq!(
        nuget(&wanted, &linux(), NugetStage::Download(DownloadStage::Transfer), Event::Status(404)),
        (
            NugetStage::Download(DownloadStage::Cleanup(404)),
            Progress::Next(Action::Remove(path(&["/work/tools", "nuget.exe"])))
        )
    );
    assert_eq!(
        nuget(&wanted, &linux(), NugetStage::Download(DownloadStage::Cleanup(404)), Event::Done),
        (
            NugetStage::Ready,
            failed(FailureKind::Network, "Expected status code 200 but received 404.")
        )
    );
    assert_eq!(
        nuget(&wanted, &linux(), NugetStage::Probe, Event::Done),
        (NugetStage::Ready, failed(FailureKind::FileSystem, "The answer does not fit the action."))
    );
}

// The SDK

fn sdk_state(stage: SdkStage, wanted: &str, local: bool) -> SdkState {
    SdkState { stage, wanted: ResolvedVersion::parse(wanted).unwrap(), local }
}

fn sdk(config: &Config, system: &System, state: SdkState, event: Event) -> (SdkState, Progress) {
    cakeup::dotnet::install(config, system, state, &event)
}

fn sdk_next(state: SdkState, action: Action) -> (SdkState, Progress) {
    (state, Progress::Next(action))
}

fn wants_sdk(version: &str) -> Config {
    let mut wanted = config();
    wanted.sdk_version = specific(version);
    wanted
}

fn ask_version(program: &[&str], sdk: Option<&[&str]>) -> Action {
    Action::Capture(CommandLine {
        program: path(program),
        arguments: vec![text("--version")],
        sdk: sdk.map(path),
    })
}

fn output(text: &str) -> Event {
    Event::Output(Some(text.to_string()))
}

#[test]
fn the_sdk_is_wanted_when_it_is_asked_for() {
    assert!(!cakeup::dotnet::should_install(&config()));
    assert!(cakeup::dotnet::should_install(&wants_sdk("2.1.4")));
}

#[test]
fn the_sdk_that_is_not_wanted_is_ready_at_once() {
    assert_eq!(
        sdk(&config(), &linux(), SdkState::start(), Event::Done),
        (sdk_state(SdkStage::Ready, "0.0.0", false), Progress::Finished)
    );
}

#[test]
fn the_newest_sdk_cannot_be_asked_for() {
    let mut wanted = config();
    wanted.sdk_version = VersionSpec::Latest;
    assert_eq!(
        sdk(&wanted, &linux(), SdkState::start(), Event::Done),
        (
            sdk_state(SdkStage::Ready, "0.0.0", false),
            failed(FailureKind::Version, "You must specify a specific SDK version or none at all.")
        )
    );
    assert_eq!(
        cakeup::dotnet::resolve(&VersionSpec::Latest),
        Some(Err(Failure {
            kind: FailureKind::Version,
            message: "You must specify a specific SDK version or none at all.".to_string()
        }))
    );
    assert_eq!(cakeup::dotnet::resolve(&VersionSpec::Absent), None);
}

#[test]
fn an_sdk_version_must_be_a_version() {
    assert_eq!(
        sdk(&wants_sdk("2.x"), &linux(), SdkState::start(), Event::Done),
        (
            sdk_state(SdkStage::Ready, "0.0.0", false),
            failed(FailureKind::Version, "Provided .NET Core SDK version is not valid.")
        )
    );
    assert_eq!(
        cakeup::dotnet::resolve(&specific("2.1.4")),
        Some(Ok(ResolvedVersion::new(2, 1, 4)))
    );
}

#[test]
fn the_sdk_on_the_search_path_is_asked_first() {
    assert_eq!(
        sdk(&wants_sdk("2.1.4"), &linux(), SdkState::start(), Event::Done),
        sdk_next(sdk_state(SdkStage::Global, "2.1.4", false), ask_version(&["dotnet"], None))
    );
}

#[test]
fn an_sdk_that_is_new_enough_is_kept() {
    for reported in ["2.1.4", "2.1.4\n", "  2.1.5\r\n", "3.0.100-preview-010184\n"] {
        assert_eq!(
            sdk(
                &wants_sdk("2.1.4"),
                &linux(),
                sdk_state(SdkStage::Global, "2.1.4", false),
                output(reported)
            ),
            (sdk_state(SdkStage::Ready, "2.1.4", false), Progress::Finished)
        );
    }
}

#[test]
fn the_reported_version_is_read_without_white_space() {
    assert_eq!(get_installed_version(&output("2.1.4\n")), ResolvedVersion::new(2, 1, 4));
    assert_eq!(get_installed_version(&output(" 2.1.4 ")), ResolvedVersion::new(2, 1, 4));
    assert_eq!(
        get_installed_version(&output("2.1.300-preview1-008174\r\n")).to_text(),
        "2.1.300-preview1-008174"
    );
}

#[test]
fn an_sdk_that_reports_nothing_counts_as_the_oldest() {
    assert_eq!(get_installed_version(&Event::Output(None)), ResolvedVersion::new(0, 0, 0));
    assert_eq!(get_installed_version(&output("")), ResolvedVersion::new(0, 0, 0));
    assert_eq!(get_installed_version(&output("command not found")), ResolvedVersion::new(0, 0, 0));
    assert_eq!(get_installed_version(&Event::Done), ResolvedVersion::new(0, 0, 0));
    assert_eq!(
        get_installed_version(&Event::Failed("no such file".to_string())),
        ResolvedVersion::new(0, 0, 0)
    );
}

#[test]
fn the_sdk_of_the_project_is_asked_second() {
    for event in [output("2.1.3\n"), Event::Output(None), output("2.1.4-rc1")] {
        assert_eq!(
            sdk(&wants_sdk("2.1.4"), &linux(), sdk_state(SdkStage::Global, "2.1.4", false), event),
            sdk_next(
                sdk_state(SdkStage::Local, "2.1.4", false),
                ask_version(&["/work", ".dotnet", "linux", "dotnet"], None)
            )
        );
    }
}

#[test]
fn the_sdk_of_the_project_is_used_when_it_is_new_enough() {
    assert_eq!(
        sdk(
            &wants_sdk("2.1.4"),
            &linux(),
            sdk_state(SdkStage::Local, "2.1.4", false),
            output("2.1.4\n")
        ),
        (sdk_state(SdkStage::Ready, "2.1.4", true), Progress::Finished)
    );
}

#[test]
fn the_sdk_needs_a_known_platform() {
    let unknown =
        System { os: "freebsd".to_string(), family: OsFamily::Unix, home: None };
    assert_eq!(
        sdk(
            &wants_sdk("2.1.4"),
            &unknown,
            sdk_state(SdkStage::Global, "2.1.4", false),
            Event::Output(None)
        ),
        (
            sdk_state(SdkStage::Ready, "2.1.4", false),
            failed(FailureKind::Argument, "Could not get platform.")
        )
    );
    assert_eq!(
        get_local_installation_path(&config(), &unknown),
        Err(Failure {
            kind: FailureKind::Argument,
            message: "Could not get platform.".to_string()
        })
    );
    assert_eq!(
        sdk(
            &wants_sdk("2.1.4"),
            &unknown,
            sdk_state(SdkStage::Global, "2.1.4", false),
            output("2.1.4")
        ),
        (sdk_state(SdkStage::Ready, "2.1.4", false), Progress::Finished)
    );
}

#[test]
fn the_sdk_has_its_directories() {
    assert_eq!(get_installation_root(&config()), path(&["/work", ".dotnet"]));
    assert_eq!(
        get_installation_path(&config(), Platform::MacOS),
        path(&["/work", ".dotnet", "macos"])
    );
    assert_eq!(
        get_local_installation_path(&config(), &windows()),
        Ok(path(&["/work", ".dotnet", "windows"]))
    );
}

#[test]
fn the_directories_of_the_sdk_are_made_ready() {
    let wanted = wants_sdk("2.1.4");
    assert_eq!(
        sdk(&wanted, &linux(), sdk_state(SdkStage::Local, "2.1.4", false), Event::Output(None)),
        sdk_next(
            sdk_state(SdkStage::Directory, "2.1.4", false),
            Action::PathExists(path(&["/work", ".dotnet"]))
        )
    );
    assert_eq!(
        sdk(&wanted, &linux(), sdk_state(SdkStage::Directory, "2.1.4", false), Event::Exists(false)),
        sdk_next(
            sdk_state(SdkStage::DirectoryCreate, "2.1.4", false),
            Action::CreateDirectory(path(&["/work", ".dotnet"]))
        )
    );
    for (stage, event) in [
        (SdkStage::Directory, Event::Exists(true)),
        (SdkStage::DirectoryCreate, Event::Done),
    ] {
        assert_eq!(
            sdk(&wanted, &linux(), sdk_state(stage, "2.1.4", false), event),
            sdk_next(
                sdk_state(SdkStage::PlatformDirectory, "2.1.4", false),
                Action::PathExists(path(&["/work", ".dotnet", "linux"]))
            )
        );
    }
    assert_eq!(
        sdk(
            &wanted,
            &linux(),
            sdk_state(SdkStage::PlatformDirectory, "2.1.4", false),
            Event::Exists(false)
        ),
        sdk_next(
            sdk_state(SdkStage::PlatformDirectoryCreate, "2.1.4", false),
            Action::CreateDirectory(path(&["/work", ".dotnet", "linux"]))
        )
    );
    assert_eq!(
        sdk(
            &wanted,
            &linux(),
            sdk_state(SdkStage::DirectoryCreate, "2.1.4", false),
            Event::Failed("read-only".to_string())
        ),
        (sdk_state(SdkStage::Ready, "2.1.4", false), failed(FailureKind::FileSystem, "read-only"))
    );
}

#[test]
fn the_shell_script_is_downloaded_marked_and_run() {
    let wanted = wants_sdk("2.1.300-preview1");
    let download = Action::Download {
        url: "https://dot.net/v1/dotnet-install.sh".to_string(),
        to: path(&["/work", ".dotnet", "linux", "dotnet-install.sh"]),
        user_agent: None,
    };
    for (stage, event) in [
        (SdkStage::PlatformDirectory, Event::Exists(true)),
        (SdkStage::PlatformDirectoryCreate, Event::Done),
    ] {
        assert_eq!(
            sdk(&wanted, &linux(), sdk_state(stage, "2.1.300-preview1", false), event),
            sdk_next(
                sdk_state(SdkStage::Script(DownloadStage::Transfer), "2.1.300-preview1", false),
                download.clone()
            )
        );
    }
    assert_eq!(
        sdk(
            &wanted,
            &linux(),
            sdk_state(SdkStage::Script(DownloadStage::Transfer), "2.1.300-preview1", false),
            Event::Status(200)
        ),
        sdk_next(
            sdk_state(SdkStage::Permit, "2.1.300-preview1", false),
            Action::Spawn(CommandLine {
                program: path(&["chmod"]),
                arguments: vec![
                    text("+x"),
                    Argument::Path(path(&["/work", ".dotnet", "linux", "dotnet-install.sh"]))
                ],
                sdk: None,
            })
        )
    );
    let install = CommandLine {
        program: path(&["/work", ".dotnet", "linux", "dotnet-install.sh"]),
        arguments: vec![
            text("--version"),
            text("2.1.300"),
            text("--install-dir"),
            Argument::Path(path(&["/work", ".dotnet", "linux"])),
            text("--no-path"),
        ],
        sdk: None,
    };
    assert_eq!(
        execute_install_script(
            &wanted,
            Platform::Linux,
            &ResolvedVersion::parse("2.1.300-preview1").unwrap()
        ),
        install
    );
    assert_eq!(
        sdk(
            &wanted,
            &linux(),
            sdk_state(SdkStage::Permit, "2.1.300-preview1", false),
            Event::Exited(Some(0))
        ),
        sdk_next(sdk_state(SdkStage::Install, "2.1.300-preview1", false), Action::Spawn(install))
    );
}

#[test]
fn the_powershell_script_is_downloaded_and_run() {
    let wanted = wants_sdk("2.1.4");
    assert_eq!(
        sdk(
            &wanted,
            &windows(),
            sdk_state(SdkStage::PlatformDirectory, "2.1.4", false),
            Event::Exists(true)
        ),
        sdk_next(
            sdk_state(SdkStage::Script(DownloadStage::Transfer), "2.1.4", false),
            Action::Download {
                url: "https://dot.net/v1/dotnet-install.ps1".to_string(),
                to: path(&["/work", ".dotnet", "windows", "dotnet-install.ps1"]),
                user_agent: None,
            }
        )
    );
    assert_eq!(
        sdk(
            &wanted,
            &windows(),
            sdk_state(SdkStage::Script(DownloadStage::Transfer), "2.1.4", false),
            Event::Status(200)
        ),
        sdk_next(
            sdk_state(SdkStage::Install, "2.1.4", false),
            Action::Spawn(CommandLine {
                program: path(&["powershell"]),
                arguments: vec![
                    text("-NoProfile"),
                    text("-File"),
                    Argument::Path(path(&["/work", ".dotnet", "windows", "dotnet-install.ps1"])),
                    text("-Channel"),
                    text("current"),
                    text("-Version"),
                    text("2.1.4"),
                    text("-InstallDir"),
                    Argument::Path(path(&["/work", ".dotnet", "windows"])),
                ],
                sdk: None,
            })
        )
    );
}

#[test]
fn the_installed_sdk_is_verified_on_the_search_path() {
    let wanted = wants_sdk("2.1.4");
    assert_eq!(
        sdk(&wanted, &linux(), sdk_state(SdkStage::Install, "2.1.4", false), Event::Exited(None)),
        sdk_next(
            sdk_state(SdkStage::Verify, "2.1.4", true),
            ask_version(&["dotnet"], Some(&["/work", ".dotnet", "linux"]))
        )
    );
    assert_eq!(
        sdk(&wanted, &linux(), sdk_state(SdkStage::Verify, "2.1.4", true), output("2.1.4\n")),
        (sdk_state(SdkStage::Ready, "2.1.4", true), Progress::Finished)
    );
}

#[test]
fn an_sdk_that_is_still_too_old_is_a_failure() {
    let wanted = wants_sdk("2.1.4");
    assert_eq!(
        sdk(&wanted, &linux(), sdk_state(SdkStage::Verify, "2.1.4", true), output("2.1.3\n")),
        (
            sdk_state(SdkStage::Ready, "2.1.4", true),
            failed(FailureKind::Version, "Found v2.1.3 on PATH but wanted v2.1.4.")
        )
    );
    assert_eq!(
        sdk(&wanted, &linux(), sdk_state(SdkStage::Verify, "2.1.4", true), Event::Output(None)),
        (
            sdk_state(SdkStage::Ready, "2.1.4", true),
            failed(FailureKind::Version, "Found v0.0.0 on PATH but wanted v2.1.4.")
        )
    );
}

#[test]
fn the_sdk_fails_with_its_script() {
    let wanted = wants_sdk("2.1.4");
    assert_eq!(
        sdk(
            &wanted,
            &linux(),
            sdk_state(SdkStage::Script(DownloadStage::Cleanup(503)), "2.1.4", false),
            Event::Done
        ),
        (
            sdk_state(SdkStage::Ready, "2.1.4", false),
            failed(FailureKind::Network, "Expected status code 200 but received 503.")
        )
    );
    assert_eq!(
        sdk(
            &wanted,
            &linux(),
            sdk_state(SdkStage::Install, "2.1.4", false),
            Event::Failed("cannot run".to_string())
        ),
        (sdk_state(SdkStage::Ready, "2.1.4", false), failed(FailureKind::Execution, "cannot run"))
    );
}

// The build tool

fn wants_cake(version: VersionSpec, use_coreclr: bool) -> Config {
    let mut wanted = config();
    wanted.cake_version = version;
    wanted.use_coreclr = use_coreclr;
    wanted
}

fn cake_state(stage: CakeStage, version: &str) -> CakeState {
    CakeState { stage, version: ResolvedVersion::parse(version).unwrap() }
}

fn cake(config: &Config, system: &System, state: CakeState, event: Event) -> (CakeState, Progress) {
    cakeup::cake::install(config, system, state, &event)
}

fn next(state: CakeState, action: Action) -> (CakeState, Progress) {
    (state, Progress::Next(action))
}

#[test]
fn the_package_is_named_after_its_flavor_and_version() {
    let wanted = wants_cake(specific("0.30.0"), false);
    let package = Package::new(&wanted, &ResolvedVersion::new(0, 30, 0));
    assert_eq!(package.name, "Cake");
    assert_eq!(package.version, ResolvedVersion::new(0, 30, 0));
    assert_eq!(package.filename, "cake.0.30.0.nupkg");
    assert_eq!(package.directory, path(&["/work/tools", "cake.0.30.0"]));
    assert!(!package.core_clr);
    assert_eq!(package.get_path(), path(&["/work/tools", "cake.0.30.0", "Cake.exe"]));
    assert_eq!(package.get_archive(), path(&["/work/tools", "cake.0.30.0.nupkg"]));
    assert_eq!(package.get_url(), "https://www.nuget.org/api/v2/package/Cake/0.30.0");
    assert_eq!(
        package.get_cached("/home/me"),
        path(&["/home/me", ".nuget", "packages", "cake", "0.30.0", "cake.0.30.0.nupkg"])
    );
}

#[test]
fn the_package_for_the_managed_runtime_has_its_own_names() {
    let wanted = wants_cake(specific("1.0.0-rc0001"), true);
    let version = ResolvedVersion::parse("1.0.0-rc0001").unwrap();
    let package = Package::new(&wanted, &version);
    assert_eq!(package.name, "Cake.CoreClr");
    assert_eq!(package.filename, "cake.coreclr.1.0.0-rc0001.nupkg");
    assert_eq!(package.directory, path(&["/work/tools", "cake.coreclr.1.0.0-rc0001"]));
    assert!(package.core_clr);
    assert_eq!(
        package.get_path(),
        path(&["/work/tools", "cake.coreclr.1.0.0-rc0001", "Cake.dll"])
    );
    assert_eq!(
        package.get_url(),
        "https://www.nuget.org/api/v2/package/Cake.CoreClr/1.0.0-rc0001"
    );
    assert_eq!(
        package.get_cached("C:\\Users\\me"),
        path(&[
            "C:\\Users\\me",
            ".nuget",
            "packages",
            "cake.coreclr",
            "1.0.0-rc0001",
            "cake.coreclr.1.0.0-rc0001.nupkg"
        ])
    );
    assert_eq!(get_cake_flavor(&wanted), "Cake.CoreClr");
    assert_eq!(get_cake_filename(&wanted), "Cake.dll");
    assert_eq!(get_cake_package_name(&wanted, &version), "cake.coreclr.1.0.0-rc0001.nupkg");
    let plain = wants_cake(specific("0.30.0"), false);
    assert_eq!(get_cake_flavor(&plain), "Cake");
    assert_eq!(get_cake_filename(&plain), "Cake.exe");
    assert_eq!(
        get_cake_package_name(&plain, &ResolvedVersion::new(0, 30, 0)),
        "cake.0.30.0.nupkg"
    );
}

#[test]
fn the_build_tool_is_wanted_when_it_is_asked_for() {
    assert!(!cakeup::cake::should_install(&config()));
    assert!(cakeup::cake::should_install(&wants_cake(VersionSpec::Latest, false)));
    assert!(cakeup::cake::should_install(&wants_cake(specific("0.30.0"), false)));
}

#[test]
fn the_build_tool_that_is_not_wanted_is_ready_at_once() {
    assert_eq!(
        cake(&config(), &linux(), CakeState::start(), Event::Done),
        (cake_state(CakeStage::Ready, "0.0.0"), Progress::Finished)
    );
}

#[test]
fn a_given_version_is_resolved_at_once() {
    assert_eq!(
        cake(&wants_cake(specific("0.30.0"), false), &linux(), CakeState::start(), Event::Done),
        next(
            cake_state(CakeStage::Directory, "0.30.0"),
            Action::PathExists(path(&["/work/tools", "cake.0.30.0"]))
        )
    );
    assert_eq!(
        cake(&wants_cake(specific("0.30"), false), &linux(), CakeState::start(), Event::Done),
        (
            cake_state(CakeStage::Ready, "0.0.0"),
            failed(FailureKind::Version, "Provided Cake version is not valid.")
        )
    );
}

#[test]
fn the_newest_version_is_asked_of_the_release_index() {
    let wanted = wants_cake(VersionSpec::Latest, true);
    assert_eq!(
        cake(&wanted, &linux(), CakeState::start(), Event::Done),
        next(
            cake_state(CakeStage::Latest, "0.0.0"),
            Action::FetchReleases {
                owner: "cake-build".to_string(),
                repository: "cake".to_string()
            }
        )
    );
    assert_eq!(
        cake(
            &wanted,
            &linux(),
            cake_state(CakeStage::Latest, "0.0.0"),
            Event::Releases(vec![release("v0.33.0"), release("v0.32.1")])
        ),
        next(
            cake_state(CakeStage::Directory, "0.33.0"),
            Action::PathExists(path(&["/work/tools", "cake.coreclr.0.33.0"]))
        )
    );
}

#[test]
fn a_release_index_that_does_not_help_is_a_failure() {
    let wanted = wants_cake(VersionSpec::Latest, false);
    assert_eq!(
        cake(&wanted, &linux(), cake_state(CakeStage::Latest, "0.0.0"), Event::Releases(vec![])),
        (
            cake_state(CakeStage::Ready, "0.0.0"),
            failed(FailureKind::Network, "The release index lists no release.")
        )
    );
    assert_eq!(
        cake(
            &wanted,
            &linux(),
            cake_state(CakeStage::Latest, "0.0.0"),
            Event::Releases(vec![release("nightly")])
        ),
        (
            cake_state(CakeStage::Ready, "0.0.0"),
            failed(FailureKind::Version, "Provided Cake version is not valid.")
        )
    );
    assert_eq!(
        cake(
            &wanted,
            &linux(),
            cake_state(CakeStage::Latest, "0.0.0"),
            Event::Failed("rate limited".to_string())
        ),
        (cake_state(CakeStage::Ready, "0.0.0"), failed(FailureKind::Network, "rate limited"))
    );
}

#[test]
fn a_package_whose_directory_exists_is_installed() {
    assert_eq!(
        cake(
            &wants_cake(specific("0.30.0"), false),
            &linux(),
            cake_state(CakeStage::Directory, "0.30.0"),
            Event::Exists(true)
        ),
        (cake_state(CakeStage::Ready, "0.30.0"), Progress::Finished)
    );
}

#[test]
fn an_archive_that_lies_there_is_unpacked() {
    let wanted = wants_cake(specific("0.30.0"), false);
    assert_eq!(
        cake(&wanted, &linux(), cake_state(CakeStage::Directory, "0.30.0"), Event::Exists(false)),
        next(
            cake_state(CakeStage::Archive, "0.30.0"),
            Action::PathExists(path(&["/work/tools", "cake.0.30.0.nupkg"]))
        )
    );
    let unpack = Action::Extract {
        archive: path(&["/work/tools", "cake.0.30.0.nupkg"]),
        to: path(&["/work/tools", "cake.0.30.0"]),
    };
    assert_eq!(
        cake(&wanted, &linux(), cake_state(CakeStage::Archive, "0.30.0"), Event::Exists(true)),
        next(cake_state(CakeStage::Extract, "0.30.0"), unpack)
    );
    assert_eq!(
        cake(&wanted, &linux(), cake_state(CakeStage::Extract, "0.30.0"), Event::Done),
        (cake_state(CakeStage::Ready, "0.30.0"), Progress::Finished)
    );
    assert_eq!(
        cake(
            &wanted,
            &linux(),
            cake_state(CakeStage::Extract, "0.30.0"),
            Event::Failed("not a zip file".to_string())
        ),
        (cake_state(CakeStage::Ready, "0.30.0"), failed(FailureKind::Extraction, "not a zip file"))
    );
}

#[test]
fn the_package_cache_is_used_before_the_network() {
    let wanted = wants_cake(specific("0.30.0"), false);
    let cached = path(&["/home/me", ".nuget", "packages", "cake", "0.30.0", "cake.0.30.0.nupkg"]);
    let archive = path(&["/work/tools", "cake.0.30.0.nupkg"]);
    assert_eq!(
        cake(&wanted, &linux(), cake_state(CakeStage::Archive, "0.30.0"), Event::Exists(false)),
        next(cake_state(CakeStage::Cache, "0.30.0"), Action::PathExists(cached.clone()))
    );
    assert_eq!(
        cake(&wanted, &linux(), cake_state(CakeStage::Cache, "0.30.0"), Event::Exists(true)),
        next(
            cake_state(CakeStage::Copy, "0.30.0"),
            Action::CopyFile { from: cached, to: archive.clone() }
        )
    );
    assert_eq!(
        cake(&wanted, &linux(), cake_state(CakeStage::Copy, "0.30.0"), Event::Copied(1)),
        next(
            cake_state(CakeStage::Extract, "0.30.0"),
            Action::Extract { archive, to: path(&["/work/tools", "cake.0.30.0"]) }
        )
    );
}

#[test]
fn the_package_is_downloaded_when_it_is_nowhere_else() {
    let wanted = wants_cake(specific("0.30.0"), false);
    let download = Action::Download {
        url: "https://www.nuget.org/api/v2/package/Cake/0.30.0".to_string(),
        to: path(&["/work/tools", "cake.0.30.0.nupkg"]),
        user_agent: Some("Cakeup NuGet Client/0.1.0".to_string()),
    };
    let started = cake_state(CakeStage::Download(DownloadStage::Transfer), "0.30.0");
    assert_eq!(
        cake(&wanted, &windows(), cake_state(CakeStage::Archive, "0.30.0"), Event::Exists(false)),
        next(started.clone(), download.clone())
    );
    assert_eq!(
        cake(&wanted, &linux(), cake_state(CakeStage::Cache, "0.30.0"), Event::Exists(false)),
        next(started.clone(), download.clone())
    );
    assert_eq!(
        cake(&wanted, &linux(), cake_state(CakeStage::Copy, "0.30.0"), Event::Copied(0)),
        next(started.clone(), download)
    );
    assert_eq!(
        cake(&wanted, &linux(), started, Event::Status(200)),
        next(
            cake_state(CakeStage::Extract, "0.30.0"),
            Action::Extract {
                archive: path(&["/work/tools", "cake.0.30.0.nupkg"]),
                to: path(&["/work/tools", "cake.0.30.0"]),
            }
        )
    );
}

#[test]
fn the_build_tool_fails_with_its_download() {
    let wanted = wants_cake(specific("0.30.0"), false);
    assert_eq!(
        cake(
            &wanted,
            &linux(),
            cake_state(CakeStage::Download(DownloadStage::Transfer), "0.30.0"),
            Event::Status(404)
        ),
        next(
            cake_state(CakeStage::Download(DownloadStage::Cleanup(404)), "0.30.0"),
            Action::Remove(path(&["/work/tools", "cake.0.30.0.nupkg"]))
        )
    );
    assert_eq!(
        cake(
            &wanted,
            &linux(),
            cake_state(CakeStage::Download(DownloadStage::Cleanup(404)), "0.30.0"),
            Event::Done
        ),
        (
            cake_state(CakeStage::Ready, "0.30.0"),
            failed(FailureKind::Network, "Expected status code 200 but received 404.")
        )
    );
    assert_eq!(
        cake(
            &wanted,
            &linux(),
            cake_state(CakeStage::Copy, "0.30.0"),
            Event::Failed("disk full".to_string())
        ),
        (cake_state(CakeStage::Ready, "0.30.0"), failed(FailureKind::FileSystem, "disk full"))
    );
}
