//! Facts about the machine that the installers and the host selection depend
//! on.

use crate::error::{Failure, FailureKind};
use crate::text::same_text;
use vstd::prelude::*;

verus! {

/// The operating-system family, as far as launching a tool is concerned.
#[derive(Clone, Copy, Debug, PartialEq, Eq, Structural)]
pub enum OsFamily {
    Unix,
    Windows,
}

/// The platforms that the runtime SDK is distributed for.
#[derive(Clone, Copy, Debug, PartialEq, Eq, Structural)]
pub enum Platform {
    Windows,
    Linux,
    MacOS,
}

/// The platform that an operating-system name stands for, if it stands for
/// one.
pub open spec fn platform_of(os: Seq<char>) -> Option<Platform> {
    if os == "windows"@ {
        Some(Platform::Windows)
    } else if os == "linux"@ {
        Some(Platform::Linux)
    } else if os == "macos"@ {
        Some(Platform::MacOS)
    } else {
        None
    }
}

/// The name under which a platform's files are kept.
pub open spec fn platform_name(platform: Platform) -> Seq<char> {
    match platform {
        Platform::Windows => "windows"@,
        Platform::Linux => "linux"@,
        Platform::MacOS => "macos"@,
    }
}

/// What is said when the operating system is none that is known.
pub open spec fn unknown_platform() -> Seq<char> {
    "Could not get platform."@
}

/// Finds the platform from the operating system's name.
pub fn get_platform(os: &str) -> (found: Result<Platform, Failure>)
    ensures
        match found {
            Ok(platform) => platform_of(os@) == Some(platform),
            Err(failure) => platform_of(os@) is None && failure@.kind == FailureKind::Argument
                && failure@.message == unknown_platform(),
        },
{
    if same_text(os, "windows") {
        Ok(Platform::Windows)
    } else if same_text(os, "linux") {
        Ok(Platform::Linux)
    } else if same_text(os, "macos") {
        Ok(Platform::MacOS)
    } else {
        Err(Failure::new(FailureKind::Argument, "Could not get platform."))
    }
}

impl Platform {
    /// Returns the name under which the platform's files are kept.
    pub fn get_name(&self) -> (name: &'static str)
        ensures
            name@ == platform_name(*self),
    {
        match self {
            Platform::Windows => "windows",
            Platform::Linux => "linux",
            Platform::MacOS => "macos",
        }
    }
}

/// Finds the name under which the files of the platform are kept, from the
/// operating system's name.
pub fn get_platform_name(os: &str) -> (found: Result<String, Failure>)
    ensures
        match found {
            Ok(name) => platform_of(os@) matches Some(platform) && name@ == platform_name(
                platform,
            ),
            Err(failure) => platform_of(os@) is None && failure@.kind == FailureKind::Argument
                && failure@.message == unknown_platform(),
        },
{
    match get_platform(os) {
        Ok(platform) => Ok(String::from_str(platform.get_name())),
        Err(failure) => Err(failure),
    }
}

/// The separator between the entries of a command search path.
pub open spec fn path_separator(family: OsFamily) -> Seq<char> {
    match family {
        OsFamily::Unix => ":"@,
        OsFamily::Windows => ";"@,
    }
}

/// Returns the separator between the entries of a command search path.
pub fn get_path_separator(family: OsFamily) -> (separator: String)
    ensures
        separator@ == path_separator(family),
{
    match family {
        OsFamily::Unix => String::from_str(":"),
        OsFamily::Windows => String::from_str(";"),
    }
}

/// The search path with `directory` put before what it held.
pub fn prepend_search_path(directory: &str, family: OsFamily, current: &str) -> (path: String)
    ensures
        path@ == directory@ + path_separator(family) + current@,
{
    let mut path = String::from_str(directory);
    path.append(get_path_separator(family).as_str());
    path.append(current);
    path
}

/// What a run is told about the machine it runs on.
#[derive(Clone, Debug, PartialEq, Eq)]
pub struct System {
    /// The operating system's name, in lower case.
    pub os: String,
    pub family: OsFamily,
    /// The user's home directory, where one is known.
    pub home: Option<String>,
}

/// What a `System` is in contracts.
pub struct SystemView {
    pub os: Seq<char>,
    pub family: OsFamily,
    pub home: Option<Seq<char>>,
}

impl View for System {
    type V = SystemView;

    open spec fn view(&self) -> SystemView {
        SystemView {
            os: self.os@,
            family: self.family,
            home: match self.home {
                Some(home) => Some(home@),
                None => None,
            },
        }
    }
}

} // verus!
