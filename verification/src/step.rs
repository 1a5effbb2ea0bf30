//! The conversation between a run and the outside world: what the run asks
//! for, and what it is told in answer.

use crate::command_line::{CommandLine, CommandLineView};
use crate::error::{Failure, FailureKind, FailureView};
use crate::github::{release_views, GitHubRelease, ReleaseView};
use crate::path::ToolPath;
use vstd::prelude::*;

verus! {

/// How a run ended.
#[derive(Clone, Debug, PartialEq, Eq)]
pub enum Outcome {
    /// Nothing was asked for, and no action was performed.
    Idle,
    /// The run went through. The code is that of the script, or 0 where no
    /// script was executed.
    Completed(i32),
    /// A step failed and the run stopped there.
    Failed(Failure),
}

/// What an `Outcome` is in contracts.
pub enum OutcomeView {
    Idle,
    Completed(i32),
    Failed(FailureView),
}

impl View for Outcome {
    type V = OutcomeView;

    open spec fn view(&self) -> OutcomeView {
        match self {
            Outcome::Idle => OutcomeView::Idle,
            Outcome::Completed(code) => OutcomeView::Completed(*code),
            Outcome::Failed(failure) => OutcomeView::Failed(failure@),
        }
    }
}

impl OutcomeView {
    /// The exit code of the process: the script's code where the run went
    /// through, 0 where nothing was done, 1 where a step failed.
    pub open spec fn exit_code(self) -> i32 {
        match self {
            OutcomeView::Idle => 0,
            OutcomeView::Completed(code) => code,
            OutcomeView::Failed(_) => 1,
        }
    }
}

impl Outcome {
    /// Returns the exit code of the process.
    pub fn exit_code(&self) -> (code: i32)
        ensures
            code == self@.exit_code(),
    {
        match self {
            Outcome::Idle => 0,
            Outcome::Completed(code) => *code,
            Outcome::Failed(_) => 1,
        }
    }
}

/// What a run asks the outside world to do next.
#[derive(Clone, Debug, PartialEq, Eq)]
pub enum Action {
    /// Tell whether the path exists. Answered by `Event::Exists`.
    PathExists(ToolPath),
    /// Create the directory. Answered by `Event::Done`.
    CreateDirectory(ToolPath),
    /// Fetch the address into the file, following redirections, and name
    /// the user agent where one is given. Answered by `Event::Status` with
    /// the status of the response.
    Download { url: String, to: ToolPath, user_agent: Option<String> },
    /// Delete the file. Answered by `Event::Done`.
    Remove(ToolPath),
    /// Copy the file. Answered by `Event::Copied` with the number of bytes.
    CopyFile { from: ToolPath, to: ToolPath },
    /// Unpack the ZIP archive into the directory. Answered by `Event::Done`.
    Extract { archive: ToolPath, to: ToolPath },
    /// List the releases of the repository, newest first. Answered by
    /// `Event::Releases`.
    FetchReleases { owner: String, repository: String },
    /// Run the command and keep what it prints. Answered by `Event::Output`.
    Capture(CommandLine),
    /// Run the command and wait for it. Answered by `Event::Exited`.
    Spawn(CommandLine),
    /// Show the warning to the user. Answered by `Event::Done`.
    Warn(String),
    /// Stop: the run is over.
    Finish(Outcome),
}

/// What an `Action` is in contracts.
pub enum ActionView {
    PathExists(Seq<Seq<char>>),
    CreateDirectory(Seq<Seq<char>>),
    Download { url: Seq<char>, to: Seq<Seq<char>>, user_agent: Option<Seq<char>> },
    Remove(Seq<Seq<char>>),
    CopyFile { from: Seq<Seq<char>>, to: Seq<Seq<char>> },
    Extract { archive: Seq<Seq<char>>, to: Seq<Seq<char>> },
    FetchReleases { owner: Seq<char>, repository: Seq<char> },
    Capture(CommandLineView),
    Spawn(CommandLineView),
    Warn(Seq<char>),
    Finish(OutcomeView),
}

impl View for Action {
    type V = ActionView;

    open spec fn view(&self) -> ActionView {
        match self {
            Action::PathExists(path) => ActionView::PathExists(path@),
            Action::CreateDirectory(path) => ActionView::CreateDirectory(path@),
            Action::Download { url, to, user_agent } => ActionView::Download {
                url: url@,
                to: to@,
                user_agent: match user_agent {
                    Some(agent) => Some(agent@),
                    None => None,
                },
            },
            Action::Remove(path) => ActionView::Remove(path@),
            Action::CopyFile { from, to } => ActionView::CopyFile { from: from@, to: to@ },
            Action::Extract { archive, to } => ActionView::Extract { archive: archive@, to: to@ },
            Action::FetchReleases { owner, repository } => ActionView::FetchReleases {
                owner: owner@,
                repository: repository@,
            },
            Action::Capture(command) => ActionView::Capture(command@),
            Action::Spawn(command) => ActionView::Spawn(command@),
            Action::Warn(text) => ActionView::Warn(text@),
            Action::Finish(outcome) => ActionView::Finish(outcome@),
        }
    }
}

impl ActionView {
    /// Whether the action reaches out over the network.
    pub open spec fn uses_network(self) -> bool {
        self is Download || self is FetchReleases
    }

    /// Whether the action changes what is installed on disk.
    pub open spec fn installs(self) -> bool {
        ||| self is CreateDirectory
        ||| self is Download
        ||| self is Remove
        ||| self is CopyFile
        ||| self is Extract
    }

    /// Whether the action starts a child process.
    pub open spec fn starts_process(self) -> bool {
        self is Capture || self is Spawn
    }
}

/// What the outside world tells a run in answer to an action.
#[derive(Clone, Debug, PartialEq, Eq)]
pub enum Event {
    /// The path exists, or does not.
    Exists(bool),
    /// The action was performed.
    Done,
    /// The action could not be performed; the text says why.
    Failed(String),
    /// The transfer ended with this status.
    Status(u32),
    /// The file was copied; it had this many bytes.
    Copied(u64),
    /// The releases that the index lists, newest first.
    Releases(Vec<GitHubRelease>),
    /// What the command printed, where it ran and ended in success.
    Output(Option<String>),
    /// The command ended, with this exit code where it had one.
    Exited(Option<i32>),
}

/// What an `Event` is in contracts.
pub enum EventView {
    Exists(bool),
    Done,
    Failed(Seq<char>),
    Status(u32),
    Copied(u64),
    Releases(Seq<ReleaseView>),
    Output(Option<Seq<char>>),
    Exited(Option<i32>),
}

impl View for Event {
    type V = EventView;

    open spec fn view(&self) -> EventView {
        match self {
            Event::Exists(exists) => EventView::Exists(*exists),
            Event::Done => EventView::Done,
            Event::Failed(reason) => EventView::Failed(reason@),
            Event::Status(status) => EventView::Status(*status),
            Event::Copied(bytes) => EventView::Copied(*bytes),
            Event::Releases(releases) => EventView::Releases(release_views(releases@)),
            Event::Output(output) => EventView::Output(
                match output {
                    Some(text) => Some(text@),
                    None => None,
                },
            ),
            Event::Exited(code) => EventView::Exited(*code),
        }
    }
}


/// What is said when an answer is none that the pending action can have.
pub open spec fn misfit() -> Seq<char> {
    "The answer does not fit the action."@
}

/// The failure that an answer other than success stands for: the reason it
/// gives, or that it does not fit the action.
pub open spec fn refusal_of(kind: FailureKind, event: EventView) -> FailureView {
    FailureView {
        kind,
        message: match event {
            EventView::Failed(reason) => reason,
            _ => misfit(),
        },
    }
}

/// Makes the failure that an answer other than success stands for.
pub fn refusal(kind: FailureKind, event: &Event) -> (failure: Failure)
    ensures
        failure@ == refusal_of(kind, event@),
{
    match event {
        Event::Failed(reason) => Failure::new(kind, reason.as_str()),
        _ => Failure::new(kind, "The answer does not fit the action."),
    }
}

/// Where one part of a run stands after a step.
#[derive(Clone, Debug, PartialEq, Eq)]
pub enum Progress {
    /// The part goes on: this is to be done next.
    Next(Action),
    /// The part is over, and went well.
    Finished,
    /// The part failed.
    Failed(Failure),
}

/// What a `Progress` is in contracts.
pub enum ProgressView {
    Next(ActionView),
    Finished,
    Failed(FailureView),
}

impl View for Progress {
    type V = ProgressView;

    open spec fn view(&self) -> ProgressView {
        match self {
            Progress::Next(action) => ProgressView::Next(action@),
            Progress::Finished => ProgressView::Finished,
            Progress::Failed(failure) => ProgressView::Failed(failure@),
        }
    }
}

} // verus!
