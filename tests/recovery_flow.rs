use schoice::recovery::{
    classify, notice_script, parse_choice, recovery_script, select_locale, DeleteOutcome, DialogOutcome,
    FailureClass, Locale, RecoveryAction, RecoveryController, RecoveryEvent, RecoveryState, FATAL_EXIT_CODE,
};

#[test]
fn failure_messages_are_classified() {
    assert_eq!(classify("duplicate column: ema5"), FailureClass::SchemaIncompatible);
    assert_eq!(classify("disk full"), FailureClass::OtherFatal);
    assert_eq!(classify("error while running migration 6"), FailureClass::SchemaIncompatible);
    assert_eq!(classify(""), FailureClass::OtherFatal);
    assert_eq!(classify("Migration failed"), FailureClass::OtherFatal);
    assert_eq!(classify("duplicate"), FailureClass::OtherFatal);
}

#[test]
fn locale_prefix_selects_the_strings() {
    assert_eq!(select_locale("zh_TW"), Locale::Chinese);
    assert_eq!(select_locale("zh-Hans"), Locale::Chinese);
    assert_eq!(select_locale("zh"), Locale::Chinese);
    assert_eq!(select_locale("en_US"), Locale::Default);
    assert_eq!(select_locale("z"), Locale::Default);
    assert_eq!(select_locale(""), Locale::Default);
    assert_eq!(select_locale(" zh_TW"), Locale::Default);
}

#[test]
fn other_failure_exits_at_once_without_dialog() {
    let mut c = RecoveryController::new("disk full");
    assert_eq!(c.class(), FailureClass::OtherFatal);
    assert_eq!(c.step(RecoveryEvent::Begin), RecoveryAction::Exit(1));
    assert_eq!(c.state(), RecoveryState::Done);
    let a = c.step(RecoveryEvent::DialogClosed(DialogOutcome::ResetChosen));
    assert_eq!(a, RecoveryAction::Exit(FATAL_EXIT_CODE));
    assert_eq!(FATAL_EXIT_CODE, 1);
}

#[test]
fn reset_path_deletes_and_notifies() {
    let mut c = RecoveryController::new("duplicate column: ema5");
    assert_eq!(c.step(RecoveryEvent::Begin), RecoveryAction::QueryLocale);
    assert_eq!(c.step(RecoveryEvent::LocaleRead(Locale::Chinese)), RecoveryAction::ShowRecoveryDialog);
    assert_eq!(c.locale(), Locale::Chinese);
    assert!(c.dialog_script().contains("duplicate column: ema5"));
    assert!(c.dialog_script().contains("重設資料庫"));
    assert_eq!(c.choice("button returned:重設資料庫"), DialogOutcome::ResetChosen);
    assert_eq!(c.step(RecoveryEvent::DialogClosed(DialogOutcome::ResetChosen)), RecoveryAction::DeleteDatabase);
    assert_eq!(c.step(RecoveryEvent::Deleted(DeleteOutcome::Removed)), RecoveryAction::ShowResetNotice);
    assert_eq!(c.reset_notice_script(), notice_script(Locale::Chinese));
    assert_eq!(c.step(RecoveryEvent::NoticeClosed), RecoveryAction::Exit(1));
}

#[test]
fn reset_of_absent_file_goes_on_as_a_delete() {
    let mut removed = RecoveryController::new("migration failed");
    let mut absent = RecoveryController::new("migration failed");
    for c in [&mut removed, &mut absent] {
        c.step(RecoveryEvent::Begin);
        c.step(RecoveryEvent::LocaleRead(Locale::Default));
        c.step(RecoveryEvent::DialogClosed(DialogOutcome::ResetChosen));
    }
    let a = removed.step(RecoveryEvent::Deleted(DeleteOutcome::Removed));
    let b = absent.step(RecoveryEvent::Deleted(DeleteOutcome::AlreadyAbsent));
    assert_eq!(a, RecoveryAction::ShowResetNotice);
    assert_eq!(a, b);
    assert_eq!(removed.state(), absent.state());
}

#[test]
fn failed_delete_exits() {
    let mut c = RecoveryController::new("migration failed");
    c.step(RecoveryEvent::Begin);
    c.step(RecoveryEvent::LocaleRead(Locale::Default));
    c.step(RecoveryEvent::DialogClosed(DialogOutcome::ResetChosen));
    assert_eq!(c.step(RecoveryEvent::Deleted(DeleteOutcome::Failed)), RecoveryAction::Exit(1));
}

#[test]
fn exit_choice_or_missing_dialog_never_deletes() {
    for outcome in [DialogOutcome::ExitChosen, DialogOutcome::Unavailable] {
        let mut c = RecoveryController::new("duplicate column: adx");
        c.step(RecoveryEvent::Begin);
        c.step(RecoveryEvent::LocaleRead(Locale::Default));
        assert_eq!(c.step(RecoveryEvent::DialogClosed(outcome)), RecoveryAction::Exit(1));
        assert_eq!(c.step(RecoveryEvent::Deleted(DeleteOutcome::Removed)), RecoveryAction::Exit(1));
    }
}

#[test]
fn locale_is_default_until_read() {
    let mut c = RecoveryController::new("migration failed");
    assert_eq!(c.locale(), Locale::Default);
    c.step(RecoveryEvent::LocaleRead(Locale::Chinese));
    assert_eq!(c.locale(), Locale::Default);
    assert_eq!(c.state(), RecoveryState::Done);
}

#[test]
fn choice_is_read_from_tool_output() {
    assert_eq!(parse_choice(Locale::Default, "button returned:Reset Database\n"), DialogOutcome::ResetChosen);
    assert_eq!(parse_choice(Locale::Default, "button returned:Exit\n"), DialogOutcome::ExitChosen);
    assert_eq!(parse_choice(Locale::Default, ""), DialogOutcome::ExitChosen);
    assert_eq!(parse_choice(Locale::Chinese, "button returned:重設資料庫"), DialogOutcome::ResetChosen);
    assert_eq!(parse_choice(Locale::Chinese, "button returned:Reset Database"), DialogOutcome::ExitChosen);
}

#[test]
fn dialog_script_escapes_the_message() {
    let s = recovery_script(Locale::Default, "bad \"x\" \\ y");
    assert_eq!(
        s,
        "display dialog \"The local database could not be brought up to date:\n\nbad \\\"x\\\" \\\\ y\n\nExit now, or reset the database? A reset deletes all locally stored data.\" with title \"Database Error\" buttons {\"Exit\", \"Reset Database\"} default button \"Reset Database\" with icon stop"
    );
}

#[test]
fn notice_scripts() {
    assert_eq!(
        notice_script(Locale::Default),
        "display dialog \"The database has been reset. Please start the application again.\" with title \"Database Error\" buttons {\"OK\"} default button \"OK\" with icon note"
    );
    assert_eq!(
        notice_script(Locale::Chinese),
        "display dialog \"資料庫已重設，請重新啟動應用程式。\" with title \"資料庫錯誤\" buttons {\"確定\"} default button \"確定\" with icon note"
    );
}
