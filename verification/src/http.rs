//! Downloads: what is asked of the transport, and what its answers mean.

use crate::error::{FailureKind, FailureView};
use crate::path::ToolPath;
use crate::step::{
    refusal,
    refusal_of,
    Action,
    ActionView,
    Event,
    EventView,
    Progress,
    ProgressView,
};
use crate::text::{decimal, render_number};
use vstd::prelude::*;

verus! {

/// Where a download stands.
#[derive(Clone, Copy, Debug, PartialEq, Eq, Structural)]
pub enum DownloadStage {
    /// Nothing was asked yet.
    Start,
    /// The transfer was asked for.
    Transfer,
    /// The transfer ended with this status, which is not success, and the
    /// file was asked to be removed.
    Cleanup(u32),
    /// The download is over.
    Complete,
}

/// The one status that counts as success.
pub open spec fn success_status() -> u32 {
    200
}

/// What is said of a response that is not a success.
pub open spec fn bad_status(status: u32) -> Seq<char> {
    "Expected status code 200 but received "@ + decimal(status as nat) + "."@
}

/// One step of a download. The transfer is asked for once. A response with
/// the success status ends the download well. After any other response the
/// file is removed, and the download then fails as a network failure that
/// names the status. A transfer that fails is a network failure.
pub open spec fn download_step(
    url: Seq<char>,
    to: Seq<Seq<char>>,
    user_agent: Option<Seq<char>>,
    stage: DownloadStage,
    event: EventView,
) -> (DownloadStage, ProgressView) {
    match stage {
        DownloadStage::Start => (
            DownloadStage::Transfer,
            ProgressView::Next(ActionView::Download { url, to, user_agent }),
        ),
        DownloadStage::Transfer => match event {
            EventView::Status(status) => if status == success_status() {
                (DownloadStage::Complete, ProgressView::Finished)
            } else {
                (DownloadStage::Cleanup(status), ProgressView::Next(ActionView::Remove(to)))
            },
            _ => (
                DownloadStage::Complete,
                ProgressView::Failed(refusal_of(FailureKind::Network, event)),
            ),
        },
        DownloadStage::Cleanup(status) => match event {
            EventView::Done => (
                DownloadStage::Complete,
                ProgressView::Failed(
                    FailureView { kind: FailureKind::Network, message: bad_status(status) },
                ),
            ),
            _ => (
                DownloadStage::Complete,
                ProgressView::Failed(refusal_of(FailureKind::FileSystem, event)),
            ),
        },
        DownloadStage::Complete => (DownloadStage::Complete, ProgressView::Finished),
    }
}

/// Takes a download one step further.
pub fn download(
    url: String,
    to: ToolPath,
    user_agent: Option<String>,
    stage: DownloadStage,
    event: &Event,
) -> (next: (DownloadStage, Progress))
    ensures
        (next.0, next.1@) == download_step(
            url@,
            to@,
            match user_agent {
                Some(agent) => Some(agent@),
                None => None,
            },
            stage,
            event@,
        ),
{
    match stage {
        DownloadStage::Start => (
            DownloadStage::Transfer,
            Progress::Next(Action::Download { url, to, user_agent }),
        ),
        DownloadStage::Transfer => match event {
            Event::Status(status) => {
                if *status == 200 {
                    (DownloadStage::Complete, Progress::Finished)
                } else {
                    (DownloadStage::Cleanup(*status), Progress::Next(Action::Remove(to)))
                }
            },
            _ => (DownloadStage::Complete, Progress::Failed(refusal(FailureKind::Network, event))),
        },
        DownloadStage::Cleanup(status) => match event {
            Event::Done => {
                let mut message = String::from_str("Expected status code 200 but received ");
                message.append(render_number(status as u64).as_str());
                message.append(".");
                (
                    DownloadStage::Complete,
                    Progress::Failed(crate::error::Failure { kind: FailureKind::Network, message }),
                )
            },
            _ => (
                DownloadStage::Complete,
                Progress::Failed(refusal(FailureKind::FileSystem, event)),
            ),
        },
        DownloadStage::Complete => (DownloadStage::Complete, Progress::Finished),
    }
}

} // verus!
