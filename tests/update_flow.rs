use schoice::update::{
    dialog_style, install_failure_message, install_prompt, restart_prompt, CheckOutcome, DialogButtons,
    DialogKind, UpdateAction, UpdateController, UpdateEvent, UpdateState,
};

fn is_dialog(a: UpdateAction) -> bool {
    dialog_style(a).is_some()
}

#[test]
fn disabled_preference_never_checks() {
    for pref in [Some(false), None] {
        let mut c = UpdateController::new(false);
        assert_eq!(c.step(UpdateEvent::Start), UpdateAction::ReadPreference);
        assert_eq!(c.step(UpdateEvent::Preference(pref)), UpdateAction::Finish);
        assert_eq!(c.state(), UpdateState::Finished);
        for e in [
            UpdateEvent::Checked(CheckOutcome::Found),
            UpdateEvent::Answer(true),
            UpdateEvent::Installed(true),
            UpdateEvent::Start,
        ] {
            let a = c.step(e);
            assert_ne!(a, UpdateAction::CheckForUpdate);
            assert_eq!(a, UpdateAction::Finish);
        }
    }
}

#[test]
fn no_update_shows_no_dialog() {
    let mut c = UpdateController::new(false);
    let mut acts = vec![];
    acts.push(c.step(UpdateEvent::Start));
    acts.push(c.step(UpdateEvent::Preference(Some(true))));
    assert_eq!(acts[1], UpdateAction::CheckForUpdate);
    acts.push(c.step(UpdateEvent::Checked(CheckOutcome::NotFound)));
    acts.push(c.step(UpdateEvent::Answer(true)));
    assert!(acts.iter().all(|a| !is_dialog(*a)));
    assert_eq!(acts[2], UpdateAction::Finish);
}

#[test]
fn declined_update_is_never_downloaded() {
    let mut c = UpdateController::new(false);
    c.step(UpdateEvent::Start);
    c.step(UpdateEvent::Preference(Some(true)));
    assert_eq!(c.step(UpdateEvent::Checked(CheckOutcome::Found)), UpdateAction::AskInstall);
    assert_eq!(c.step(UpdateEvent::Answer(false)), UpdateAction::Finish);
    assert_ne!(c.step(UpdateEvent::Answer(true)), UpdateAction::DownloadAndInstall);
    assert_ne!(c.step(UpdateEvent::Installed(true)), UpdateAction::DownloadAndInstall);
}

#[test]
fn accepted_update_installs_and_restarts() {
    let mut c = UpdateController::new(false);
    assert_eq!(c.step(UpdateEvent::Start), UpdateAction::ReadPreference);
    assert_eq!(c.step(UpdateEvent::Preference(Some(true))), UpdateAction::CheckForUpdate);
    assert_eq!(c.step(UpdateEvent::Checked(CheckOutcome::Found)), UpdateAction::AskInstall);
    assert_eq!(c.step(UpdateEvent::Answer(true)), UpdateAction::DownloadAndInstall);
    assert_eq!(c.state(), UpdateState::Downloading);
    assert_eq!(c.step(UpdateEvent::Installed(true)), UpdateAction::AskRestart);
    assert_eq!(c.step(UpdateEvent::Answer(true)), UpdateAction::Restart);
    assert_eq!(c.state(), UpdateState::Finished);
}

#[test]
fn declined_restart_finishes() {
    let mut c = UpdateController::new(false);
    c.step(UpdateEvent::Start);
    c.step(UpdateEvent::Preference(Some(true)));
    c.step(UpdateEvent::Checked(CheckOutcome::Found));
    c.step(UpdateEvent::Answer(true));
    c.step(UpdateEvent::Installed(true));
    assert_eq!(c.step(UpdateEvent::Answer(false)), UpdateAction::Finish);
}

#[test]
fn failed_install_is_reported_then_finishes() {
    let mut c = UpdateController::new(true);
    c.step(UpdateEvent::Start);
    c.step(UpdateEvent::Preference(Some(true)));
    c.step(UpdateEvent::Checked(CheckOutcome::Found));
    c.step(UpdateEvent::Answer(true));
    assert_eq!(c.step(UpdateEvent::Installed(false)), UpdateAction::ReportInstallFailure);
    assert_eq!(c.state(), UpdateState::ReportingFailure);
    assert_eq!(c.step(UpdateEvent::Answer(true)), UpdateAction::Finish);
}

#[test]
fn failed_check_is_fatal_only_when_configured() {
    let mut fatal = UpdateController::new(true);
    fatal.step(UpdateEvent::Start);
    fatal.step(UpdateEvent::Preference(Some(true)));
    assert_eq!(fatal.step(UpdateEvent::Checked(CheckOutcome::Failed)), UpdateAction::Abort);

    let mut lenient = UpdateController::new(false);
    lenient.step(UpdateEvent::Start);
    lenient.step(UpdateEvent::Preference(Some(true)));
    assert_eq!(lenient.step(UpdateEvent::Checked(CheckOutcome::Failed)), UpdateAction::Finish);
}

#[test]
fn event_out_of_turn_ends_the_flow() {
    let mut c = UpdateController::new(false);
    assert_eq!(c.step(UpdateEvent::Answer(true)), UpdateAction::Finish);
    assert_eq!(c.state(), UpdateState::Finished);
    assert_eq!(c.step(UpdateEvent::Start), UpdateAction::Finish);
}

#[test]
fn at_most_one_check_and_one_download() {
    let mut c = UpdateController::new(false);
    let events = [
        UpdateEvent::Start,
        UpdateEvent::Preference(Some(true)),
        UpdateEvent::Checked(CheckOutcome::Found),
        UpdateEvent::Answer(true),
        UpdateEvent::Installed(false),
        UpdateEvent::Answer(true),
        UpdateEvent::Start,
        UpdateEvent::Preference(Some(true)),
        UpdateEvent::Checked(CheckOutcome::Found),
        UpdateEvent::Answer(true),
    ];
    let acts: Vec<UpdateAction> = events.iter().map(|e| c.step(*e)).collect();
    assert_eq!(acts.iter().filter(|a| **a == UpdateAction::CheckForUpdate).count(), 1);
    assert_eq!(acts.iter().filter(|a| **a == UpdateAction::DownloadAndInstall).count(), 1);
}

#[test]
fn dialog_styles() {
    assert_eq!(dialog_style(UpdateAction::AskInstall), Some((DialogKind::Info, DialogButtons::OkCancel)));
    assert_eq!(dialog_style(UpdateAction::AskRestart), Some((DialogKind::Info, DialogButtons::OkCancel)));
    assert_eq!(
        dialog_style(UpdateAction::ReportInstallFailure),
        Some((DialogKind::Warning, DialogButtons::OkOnly))
    );
    assert_eq!(dialog_style(UpdateAction::DownloadAndInstall), None);
    assert_eq!(dialog_style(UpdateAction::Finish), None);
}

#[test]
fn dialog_messages() {
    assert_eq!(install_prompt("1.4.2"), "Update available: v1.4.2");
    assert_eq!(install_failure_message("connection reset"), "Download Update failed: connection reset");
    assert_eq!(restart_prompt(), "Update downloaded. Restart now?");
}

#[test]
fn terminal_actions_leave_the_flow_finished() {
    let mut c = UpdateController::new(true);
    let events = [
        UpdateEvent::Start,
        UpdateEvent::Preference(Some(true)),
        UpdateEvent::Checked(CheckOutcome::Found),
        UpdateEvent::Answer(true),
        UpdateEvent::Installed(true),
        UpdateEvent::Answer(true),
    ];
    for e in events {
        let a = c.step(e);
        let terminal = matches!(a, UpdateAction::Restart | UpdateAction::Abort | UpdateAction::Finish);
        assert_eq!(terminal, c.state() == UpdateState::Finished);
    }
    assert_eq!(c.state(), UpdateState::Finished);
}
