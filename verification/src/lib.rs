//! Tool acquisition and script execution for the Cake build tool.
//!
//! A run makes sure that the build tool and what it depends on are on the
//! machine, and then drives the tool against the user's script. The library
//! decides every step of a run and performs none: `run` and `Run::advance`
//! say what is to be done next, the caller does it and reports back.

pub mod cake;
pub mod command_line;
pub mod commands;
pub mod config;
pub mod dotnet;
pub mod error;
pub mod github;
pub mod host;
pub mod http;
pub mod laws;
pub mod nuget;
pub mod orchestrator;
pub mod path;
pub mod platform;
pub mod step;
pub mod text;
pub mod version;

pub use crate::cake::VERSION;
pub use crate::config::Config;
pub use crate::orchestrator::{run, Run};
