//! The configuration of one run, and how it is read from what the user gave.

use crate::path::{copy_texts, texts};
use crate::text::{is_true, reads_true, same_text};
use crate::version::{request_of, VersionRequest, VersionSpec};
use vstd::prelude::*;

verus! {

/// One setting as the user gave it: on the command line, in the environment,
/// in both or in neither.
#[derive(Clone, Debug, PartialEq, Eq)]
pub struct Setting {
    pub argument: Option<String>,
    pub variable: Option<String>,
}

/// One switch as the user gave it: whether it stands on the command line,
/// and what the environment holds for it.
#[derive(Clone, Debug, PartialEq, Eq)]
pub struct Switch {
    pub present: bool,
    pub variable: Option<String>,
}

/// Everything the user gave, before any default is applied.
#[derive(Clone, Debug, PartialEq, Eq)]
pub struct Arguments {
    pub cake: Setting,
    pub nuget: Setting,
    pub sdk: Setting,
    pub coreclr: Switch,
    pub bootstrap: Switch,
    pub execute: Switch,
    /// What follows the options, to be handed to the script as it stands.
    pub arguments: Vec<String>,
}

/// The characters of a text that may be missing.
pub open spec fn optional_text(text: Option<String>) -> Option<Seq<char>> {
    match text {
        Some(text) => Some(text@),
        None => None,
    }
}

/// The value of a setting: what the command line holds, unless it holds
/// nothing or an empty value; then what the environment holds; then the
/// default. An empty value on the command line is the default whatever the
/// environment holds.
pub open spec fn setting_value(
    argument: Option<Seq<char>>,
    variable: Option<Seq<char>>,
    default: Seq<char>,
) -> Seq<char> {
    match argument {
        Some(value) => if value == ""@ {
            default
        } else {
            value
        },
        None => match variable {
            Some(value) => value,
            None => default,
        },
    }
}

/// The value of a switch: on where it stands on the command line; else on
/// where the environment holds "true" for it, in any letter case.
pub open spec fn switch_value(present: bool, variable: Option<Seq<char>>) -> bool {
    present || (variable matches Some(value) && reads_true(value))
}

/// Finds the value of a setting.
pub fn parse_string(setting: &Setting, default: &str) -> (value: String)
    ensures
        value@ == setting_value(
            optional_text(setting.argument),
            optional_text(setting.variable),
            default@,
        ),
{
    match &setting.argument {
        Some(value) => {
            if same_text(value.as_str(), "") {
                String::from_str(default)
            } else {
                value.clone()
            }
        },
        None => match &setting.variable {
            Some(value) => value.clone(),
            None => String::from_str(default),
        },
    }
}

/// Finds the version request that a setting makes. Without a value no tool
/// is asked for.
pub fn parse_string_option(setting: &Setting) -> (spec: VersionSpec)
    ensures
        spec@ == request_of(
            setting_value(
                optional_text(setting.argument),
                optional_text(setting.variable),
                "none"@,
            ),
        ),
{
    let value = parse_string(setting, "none");
    VersionSpec::parse(value.as_str())
}

/// Finds the value of a switch.
pub fn parse_bool(switch: &Switch) -> (on: bool)
    ensures
        on == switch_value(switch.present, optional_text(switch.variable)),
{
    if switch.present {
        return true;
    }
    match &switch.variable {
        Some(value) => is_true(value.as_str()),
        None => false,
    }
}

/// The configuration of one run. It is made once and never changed.
#[derive(Clone, Debug, PartialEq, Eq)]
pub struct Config {
    pub root: String,
    pub tools: String,
    pub cake_version: VersionSpec,
    pub nuget_version: VersionSpec,
    pub sdk_version: VersionSpec,
    pub use_coreclr: bool,
    pub bootstrap: bool,
    pub execute_script: bool,
    /// The arguments that are handed to the script as they stand.
    pub remaining: Vec<String>,
}

/// What a `Config` is in contracts.
pub struct ConfigView {
    pub root: Seq<char>,
    pub tools: Seq<char>,
    pub cake_version: VersionRequest,
    pub nuget_version: VersionRequest,
    pub sdk_version: VersionRequest,
    pub use_coreclr: bool,
    pub bootstrap: bool,
    pub execute_script: bool,
    pub remaining: Seq<Seq<char>>,
}

impl ConfigView {
    /// Whether any tool is asked for, which is when the tools directory is
    /// needed.
    pub open spec fn wants_tools(self) -> bool {
        !(self.cake_version is Absent) || !(self.nuget_version is Absent) || !(self.sdk_version
            is Absent)
    }
}

impl View for Config {
    type V = ConfigView;

    open spec fn view(&self) -> ConfigView {
        ConfigView {
            root: self.root@,
            tools: self.tools@,
            cake_version: self.cake_version@,
            nuget_version: self.nuget_version@,
            sdk_version: self.sdk_version@,
            use_coreclr: self.use_coreclr,
            bootstrap: self.bootstrap,
            execute_script: self.execute_script,
            remaining: texts(self.remaining@),
        }
    }
}

/// The configuration that the user's input stands for, for a run in `root`
/// with its tools under `tools`.
pub open spec fn config_of(root: Seq<char>, tools: Seq<char>, given: &Arguments) -> ConfigView {
    ConfigView {
        root,
        tools,
        cake_version: request_of(
            setting_value(
                optional_text(given.cake.argument),
                optional_text(given.cake.variable),
                "none"@,
            ),
        ),
        nuget_version: request_of(
            setting_value(
                optional_text(given.nuget.argument),
                optional_text(given.nuget.variable),
                "none"@,
            ),
        ),
        sdk_version: request_of(
            setting_value(
                optional_text(given.sdk.argument),
                optional_text(given.sdk.variable),
                "none"@,
            ),
        ),
        use_coreclr: switch_value(given.coreclr.present, optional_text(given.coreclr.variable)),
        bootstrap: switch_value(given.bootstrap.present, optional_text(given.bootstrap.variable)),
        execute_script: switch_value(given.execute.present, optional_text(given.execute.variable)),
        remaining: texts(given.arguments@),
    }
}

impl Config {
    /// Reads the configuration of a run from what the user gave.
    pub fn parse(root: &str, tools: &str, given: &Arguments) -> (config: Config)
        ensures
            config@ == config_of(root@, tools@, given),
    {
        Config {
            root: String::from_str(root),
            tools: String::from_str(tools),
            cake_version: parse_string_option(&given.cake),
            nuget_version: parse_string_option(&given.nuget),
            sdk_version: parse_string_option(&given.sdk),
            use_coreclr: parse_bool(&given.coreclr),
            bootstrap: parse_bool(&given.bootstrap),
            execute_script: parse_bool(&given.execute),
            remaining: copy_texts(&given.arguments),
        }
    }

    /// Tells whether the tools directory is needed: it is as soon as any
    /// tool is asked for.
    pub fn should_create_tools_directory(&self) -> (needed: bool)
        ensures
            needed == self@.wants_tools(),
    {
        self.cake_version.is_requested() || self.nuget_version.is_requested()
            || self.sdk_version.is_requested()
    }
}

} // verus!
