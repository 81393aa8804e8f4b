use mup_supervisor::updater::{
    check_for_updates, install_update, CheckOutcome, InstallReport, UpdateInfo, UpdateStatus,
};

fn offer() -> UpdateInfo {
    UpdateInfo {
        version: "1.2.3".to_string(),
        body: Some("Fixes".to_string()),
        date: None,
    }
}

fn offered() -> UpdateStatus {
    UpdateStatus::Available {
        version: "1.2.3".to_string(),
        body: Some("Fixes".to_string()),
        date: None,
    }
}

#[test]
fn check_ends_in_a_status() {
    assert_eq!(check_for_updates(CheckOutcome::Available(offer())), offered());
    assert_eq!(check_for_updates(CheckOutcome::UpToDate), UpdateStatus::UpToDate);
    assert_eq!(
        check_for_updates(CheckOutcome::CheckFailed("network down".to_string())),
        UpdateStatus::Error { message: "network down".to_string() }
    );
    assert_eq!(
        check_for_updates(CheckOutcome::UpdaterUnavailable("no endpoints".to_string())),
        UpdateStatus::Error { message: "Updater not available: no endpoints".to_string() }
    );
}

#[test]
fn install_with_an_update_on_offer() {
    assert_eq!(
        install_update(CheckOutcome::Available(offer())),
        InstallReport {
            status: Some(offered()),
            answer: Ok("Update available. See dialog for installation.".to_string()),
        }
    );
}

#[test]
fn install_without_an_update_fails() {
    assert_eq!(
        install_update(CheckOutcome::UpToDate),
        InstallReport { status: None, answer: Err("No update available to install".to_string()) }
    );
    assert_eq!(
        install_update(CheckOutcome::CheckFailed("network down".to_string())),
        InstallReport {
            status: Some(UpdateStatus::Error {
                message: "Failed to check for updates: network down".to_string()
            }),
            answer: Err("Failed to check for updates: network down".to_string()),
        }
    );
    assert_eq!(
        install_update(CheckOutcome::UpdaterUnavailable("no endpoints".to_string())),
        InstallReport {
            status: Some(UpdateStatus::Error {
                message: "Updater not available: no endpoints".to_string()
            }),
            answer: Err("Updater not available: no endpoints".to_string()),
        }
    );
}
