//! Update checks: from the outcome of a check to the status that the front end
//! is shown.

use vstd::prelude::*;
use crate::text::{prefixed, text_view};

verus! {

/// Where an update stands.
#[derive(Clone, Debug, PartialEq, Eq)]
pub enum UpdateStatus {
    Idle,
    Checking,
    Available { version: String, body: Option<String>, date: Option<String> },
    UpToDate,
    Downloading { progress: u64, total: u64 },
    Downloaded { version: String, body: Option<String>, date: Option<String> },
    Error { message: String },
}

/// A status as contracts see it.
pub enum UpdateStatusView {
    Idle,
    Checking,
    Available { version: Seq<char>, body: Option<Seq<char>>, date: Option<Seq<char>> },
    UpToDate,
    Downloading { progress: u64, total: u64 },
    Downloaded { version: Seq<char>, body: Option<Seq<char>>, date: Option<Seq<char>> },
    Error { message: Seq<char> },
}

impl View for UpdateStatus {
    type V = UpdateStatusView;

    open spec fn view(&self) -> UpdateStatusView {
        match *self {
            UpdateStatus::Idle => UpdateStatusView::Idle,
            UpdateStatus::Checking => UpdateStatusView::Checking,
            UpdateStatus::Available { version, body, date } => UpdateStatusView::Available {
                version: version@,
                body: text_view(body),
                date: text_view(date),
            },
            UpdateStatus::UpToDate => UpdateStatusView::UpToDate,
            UpdateStatus::Downloading { progress, total } => UpdateStatusView::Downloading {
                progress,
                total,
            },
            UpdateStatus::Downloaded { version, body, date } => UpdateStatusView::Downloaded {
                version: version@,
                body: text_view(body),
                date: text_view(date),
            },
            UpdateStatus::Error { message } => UpdateStatusView::Error { message: message@ },
        }
    }
}

/// What is known of an update that is on offer.
#[derive(Clone, Debug, PartialEq, Eq)]
pub struct UpdateInfo {
    pub version: String,
    pub body: Option<String>,
    pub date: Option<String>,
}

/// How asking the updater for an update went.
#[derive(Clone, Debug, PartialEq, Eq)]
pub enum CheckOutcome {
    /// There is no updater to ask, with the reason.
    UpdaterUnavailable(String),
    /// The check failed, with the reason.
    CheckFailed(String),
    /// The application is up to date.
    UpToDate,
    /// An update is on offer.
    Available(UpdateInfo),
}

/// The status "available" for an update on offer.
pub open spec fn available_view(info: UpdateInfo) -> UpdateStatusView {
    UpdateStatusView::Available {
        version: info.version@,
        body: text_view(info.body),
        date: text_view(info.date),
    }
}

/// The status that a check for updates ends in.
pub open spec fn status_after_check(outcome: CheckOutcome) -> UpdateStatusView {
    match outcome {
        CheckOutcome::UpdaterUnavailable(reason) => UpdateStatusView::Error {
            message: "Updater not available: "@ + reason@,
        },
        CheckOutcome::CheckFailed(reason) => UpdateStatusView::Error { message: reason@ },
        CheckOutcome::UpToDate => UpdateStatusView::UpToDate,
        CheckOutcome::Available(info) => available_view(info),
    }
}

/// The status to show and return after a check for updates.
pub fn check_for_updates(outcome: CheckOutcome) -> (status: UpdateStatus)
    ensures
        status@ == status_after_check(outcome),
{
    match outcome {
        CheckOutcome::UpdaterUnavailable(reason) => UpdateStatus::Error {
            message: prefixed("Updater not available: ", reason.as_str()),
        },
        CheckOutcome::CheckFailed(reason) => UpdateStatus::Error { message: reason },
        CheckOutcome::UpToDate => UpdateStatus::UpToDate,
        CheckOutcome::Available(info) => UpdateStatus::Available {
            version: info.version,
            body: info.body,
            date: info.date,
        },
    }
}

/// What a request to install an update comes to: the status to show, if
/// any, and the answer to the request.
#[derive(Debug, PartialEq, Eq)]
pub struct InstallReport {
    pub status: Option<UpdateStatus>,
    pub answer: Result<String, String>,
}

/// The words of the failure that a request to install ends in, if it fails.
pub open spec fn install_failure_text(outcome: CheckOutcome) -> Option<Seq<char>> {
    match outcome {
        CheckOutcome::UpdaterUnavailable(reason) => Some("Updater not available: "@ + reason@),
        CheckOutcome::CheckFailed(reason) => Some("Failed to check for updates: "@ + reason@),
        CheckOutcome::UpToDate => Some("No update available to install"@),
        CheckOutcome::Available(_) => None,
    }
}

/// The status that a request to install shows, if it shows one.
pub open spec fn status_after_install(outcome: CheckOutcome) -> Option<UpdateStatusView> {
    match outcome {
        CheckOutcome::Available(info) => Some(available_view(info)),
        CheckOutcome::UpToDate => None,
        _ => Some(UpdateStatusView::Error { message: install_failure_text(outcome).unwrap() }),
    }
}

/// The answer to a request to install.
pub open spec fn answer_after_install(outcome: CheckOutcome) -> Result<Seq<char>, Seq<char>> {
    match install_failure_text(outcome) {
        Some(text) => Err(text),
        None => Ok("Update available. See dialog for installation."@),
    }
}

/// A status that may be missing, as contracts see it.
pub open spec fn status_view(status: Option<UpdateStatus>) -> Option<UpdateStatusView> {
    match status {
        Some(s) => Some(s@),
        None => None,
    }
}

/// The answer to a request as contracts see it.
pub open spec fn answer_view(answer: Result<String, String>) -> Result<Seq<char>, Seq<char>> {
    match answer {
        Ok(text) => Ok(text@),
        Err(text) => Err(text@),
    }
}

/// The status to show and the answer to give to a request to install an
/// update. An update on offer is shown and left to the updater's dialog;
/// without one the request fails, and a failure of the check is shown too.
pub fn install_update(outcome: CheckOutcome) -> (report: InstallReport)
    ensures
        status_view(report.status) == status_after_install(outcome),
        answer_view(report.answer) == answer_after_install(outcome),
{
    match outcome {
        CheckOutcome::Available(info) => InstallReport {
            status: Some(
                UpdateStatus::Available { version: info.version, body: info.body, date: info.date },
            ),
            answer: Ok(String::from_str("Update available. See dialog for installation.")),
        },
        CheckOutcome::UpToDate => InstallReport {
            status: None,
            answer: Err(String::from_str("No update available to install")),
        },
        CheckOutcome::CheckFailed(reason) => {
            let text: String = prefixed("Failed to check for updates: ", reason.as_str());
            InstallReport {
                status: Some(UpdateStatus::Error { message: text.clone() }),
                answer: Err(text),
            }
        },
        CheckOutcome::UpdaterUnavailable(reason) => {
            let text: String = prefixed("Updater not available: ", reason.as_str());
            InstallReport {
                status: Some(UpdateStatus::Error { message: text.clone() }),
                answer: Err(text),
            }
        },
    }
}

} // verus!
