use cakeup::commands::{get_command, CommandType};
use cakeup::error::{Failure, FailureKind};
use cakeup::step::Outcome;
use cakeup::platform::{
    get_path_separator, get_platform, get_platform_name, prepend_search_path, OsFamily, Platform,
};

#[test]
fn the_platform_is_found_from_the_name_of_the_system() {
    assert_eq!(get_platform("windows").unwrap(), Platform::Windows);
    assert_eq!(get_platform("linux").unwrap(), Platform::Linux);
    assert_eq!(get_platform("macos").unwrap(), Platform::MacOS);
}

#[test]
fn an_unknown_system_has_no_platform() {
    for os in ["", "freebsd", "Linux", "android", "win"] {
        let failure = get_platform(os).unwrap_err();
        assert_eq!(failure.kind, FailureKind::Argument);
        assert_eq!(failure.message, "Could not get platform.");
        let failure = get_platform_name(os).unwrap_err();
        assert_eq!(failure.kind, FailureKind::Argument);
        assert_eq!(failure.message, "Could not get platform.");
    }
}

#[test]
fn the_platform_has_a_name() {
    assert_eq!(get_platform_name("windows").unwrap(), "windows");
    assert_eq!(get_platform_name("linux").unwrap(), "linux");
    assert_eq!(get_platform_name("macos").unwrap(), "macos");
}

#[test]
fn the_separator_follows_the_family() {
    assert_eq!(get_path_separator(OsFamily::Unix), ":");
    assert_eq!(get_path_separator(OsFamily::Windows), ";");
}

#[test]
fn a_directory_is_put_first_on_the_search_path() {
    assert_eq!(
        prepend_search_path("/work/.dotnet/linux", OsFamily::Unix, "/usr/bin:/bin"),
        "/work/.dotnet/linux:/usr/bin:/bin"
    );
    assert_eq!(
        prepend_search_path("C:\\work\\.dotnet\\windows", OsFamily::Windows, "C:\\Windows"),
        "C:\\work\\.dotnet\\windows;C:\\Windows"
    );
    assert_eq!(prepend_search_path("a", OsFamily::Unix, ""), "a:");
}

#[test]
fn platforms_have_names() {
    assert_eq!(Platform::Windows.get_name(), "windows");
    assert_eq!(Platform::Linux.get_name(), "linux");
    assert_eq!(Platform::MacOS.get_name(), "macos");
}

#[test]
fn the_sdk_of_the_project_comes_first_in_the_environment() {
    let variables = cakeup::dotnet::set_environment_variables(
        "/work/.dotnet/linux",
        OsFamily::Unix,
        "/usr/local/bin:/usr/bin",
    );
    let pairs: Vec<(&str, &str)> =
        variables.iter().map(|v| (v.name.as_str(), v.value.as_str())).collect();
    assert_eq!(
        pairs,
        vec![
            ("PATH", "/work/.dotnet/linux:/usr/local/bin:/usr/bin"),
            ("DOTNET_SKIP_FIRST_TIME_EXPERIENCE", "1"),
            ("DOTNET_CLI_TELEMETRY_OPTOUT", "1"),
        ]
    );
    let variables = cakeup::dotnet::set_environment_variables(
        "C:\\work\\.dotnet\\windows",
        OsFamily::Windows,
        "C:\\Windows",
    );
    assert_eq!(variables[0].value, "C:\\work\\.dotnet\\windows;C:\\Windows");
}

#[test]
fn the_subcommand_names_the_command() {
    assert_eq!(get_command(Some("run")), CommandType::Run);
    assert_eq!(get_command(Some("help")), CommandType::Help);
    assert_eq!(get_command(Some("")), CommandType::Help);
    assert_eq!(get_command(Some("Run")), CommandType::Help);
    assert_eq!(get_command(None), CommandType::Help);
}

#[test]
fn a_run_ends_with_its_exit_code() {
    assert_eq!(Outcome::Idle.exit_code(), 0);
    assert_eq!(Outcome::Completed(0).exit_code(), 0);
    assert_eq!(Outcome::Completed(17).exit_code(), 17);
    assert_eq!(Outcome::Completed(-1).exit_code(), -1);
    let failure = Failure::new(FailureKind::Network, "unreachable");
    assert_eq!(failure.clone().within("While fetching.").message, "While fetching. unreachable");
    assert_eq!(failure.clone().within("While fetching.").kind, FailureKind::Network);
    assert_eq!(Outcome::Failed(failure).exit_code(), 1);
}
