use vstd::prelude::*;

use crate::text::{contains, contains_str, escaped, push_escaped, starts_with, starts_with_str};

verus! {

/// The exit status of the process after any fatal startup condition.
pub const FATAL_EXIT_CODE: i32 = 1;

/// What a migration failure allows.
#[derive(Clone, Copy, Debug, PartialEq, Eq, Structural)]
pub enum FailureClass {
    /// The stored schema does not fit the one this version expects: a reset helps.
    SchemaIncompatible,
    /// Anything else: no recovery is offered.
    OtherFatal,
}

/// The language of the recovery dialogs.
#[derive(Clone, Copy, Debug, PartialEq, Eq, Structural)]
pub enum Locale {
    Chinese,
    Default,
}

/// The class of a migration failure with message `m`.
pub open spec fn class_of(m: Seq<char>) -> FailureClass {
    if contains(m, "migration"@) || contains(m, "duplicate column"@) {
        FailureClass::SchemaIncompatible
    } else {
        FailureClass::OtherFatal
    }
}

/// The dialog language for the host's locale setting `l`.
pub open spec fn locale_of(l: Seq<char>) -> Locale {
    if starts_with(l, "zh"@) {
        Locale::Chinese
    } else {
        Locale::Default
    }
}

/// Classifies a migration failure by its message.
pub fn classify(message: &str) -> (r: FailureClass)
    ensures
        r == class_of(message@),
{
    if contains_str(message, "migration") || contains_str(message, "duplicate column") {
        FailureClass::SchemaIncompatible
    } else {
        FailureClass::OtherFatal
    }
}

/// Picks the dialog language from the host's locale setting.
pub fn select_locale(locale: &str) -> (r: Locale)
    ensures
        r == locale_of(locale@),
{
    if starts_with_str(locale, "zh") {
        Locale::Chinese
    } else {
        Locale::Default
    }
}

pub open spec fn title_of(l: Locale) -> Seq<char> {
    match l {
        Locale::Chinese => "資料庫錯誤"@,
        Locale::Default => "Database Error"@,
    }
}

pub open spec fn body_head_of(l: Locale) -> Seq<char> {
    match l {
        Locale::Chinese => "本機資料庫無法更新至目前版本：\n\n"@,
        Locale::Default => "The local database could not be brought up to date:\n\n"@,
    }
}

pub open spec fn body_tail_of(l: Locale) -> Seq<char> {
    match l {
        Locale::Chinese => "\n\n要結束程式，還是重設資料庫？重設會刪除所有本機資料。"@,
        Locale::Default => "\n\nExit now, or reset the database? A reset deletes all locally stored data."@,
    }
}

pub open spec fn exit_label_of(l: Locale) -> Seq<char> {
    match l {
        Locale::Chinese => "結束"@,
        Locale::Default => "Exit"@,
    }
}

pub open spec fn reset_label_of(l: Locale) -> Seq<char> {
    match l {
        Locale::Chinese => "重設資料庫"@,
        Locale::Default => "Reset Database"@,
    }
}

pub open spec fn reset_done_of(l: Locale) -> Seq<char> {
    match l {
        Locale::Chinese => "資料庫已重設，請重新啟動應用程式。"@,
        Locale::Default => "The database has been reset. Please start the application again."@,
    }
}

pub open spec fn ok_label_of(l: Locale) -> Seq<char> {
    match l {
        Locale::Chinese => "確定"@,
        Locale::Default => "OK"@,
    }
}

/// The recovery dialog's text: the failure message between a localized
/// explanation and a localized question.
pub open spec fn body_of(l: Locale, m: Seq<char>) -> Seq<char> {
    body_head_of(l) + m + body_tail_of(l)
}

/// Title of the recovery dialogs.
pub fn title(l: Locale) -> (r: &'static str)
    ensures
        r@ == title_of(l),
{
    match l {
        Locale::Chinese => "資料庫錯誤",
        Locale::Default => "Database Error",
    }
}

/// Label of the button that leaves the database alone and exits.
pub fn exit_label(l: Locale) -> (r: &'static str)
    ensures
        r@ == exit_label_of(l),
{
    match l {
        Locale::Chinese => "結束",
        Locale::Default => "Exit",
    }
}

/// Label of the button that deletes the database.
pub fn reset_label(l: Locale) -> (r: &'static str)
    ensures
        r@ == reset_label_of(l),
{
    match l {
        Locale::Chinese => "重設資料庫",
        Locale::Default => "Reset Database",
    }
}

/// Text of the notice shown after a reset.
pub fn reset_done_message(l: Locale) -> (r: &'static str)
    ensures
        r@ == reset_done_of(l),
{
    match l {
        Locale::Chinese => "資料庫已重設，請重新啟動應用程式。",
        Locale::Default => "The database has been reset. Please start the application again.",
    }
}

/// Label of the button that closes the notice.
pub fn ok_label(l: Locale) -> (r: &'static str)
    ensures
        r@ == ok_label_of(l),
{
    match l {
        Locale::Chinese => "確定",
        Locale::Default => "OK",
    }
}

/// The recovery dialog's text for failure message `message`.
pub fn dialog_body(l: Locale, message: &str) -> (r: String)
    ensures
        r@ == body_of(l, message@),
{
    let mut s = match l {
        Locale::Chinese => String::from_str("本機資料庫無法更新至目前版本：\n\n"),
        Locale::Default => String::from_str("The local database could not be brought up to date:\n\n"),
    };
    s.append(message);
    match l {
        Locale::Chinese => s.append("\n\n要結束程式，還是重設資料庫？重設會刪除所有本機資料。"),
        Locale::Default => s.append("\n\nExit now, or reset the database? A reset deletes all locally stored data."),
    }
    s
}

/// `t` as a double-quoted string of the native dialog's script language.
pub open spec fn quoted(t: Seq<char>) -> Seq<char> {
    "\""@ + escaped(t) + "\""@
}

/// The script that shows the recovery dialog: the failure message, an Exit
/// and a Reset button, Reset as the default.
pub open spec fn recovery_script_of(l: Locale, m: Seq<char>) -> Seq<char> {
    "display dialog "@ + quoted(body_of(l, m)) + " with title "@ + quoted(title_of(l)) + " buttons {"@
        + quoted(exit_label_of(l)) + ", "@ + quoted(reset_label_of(l)) + "} default button "@ + quoted(
        reset_label_of(l),
    ) + " with icon stop"@
}

/// The script that shows the notice after a reset, with a single OK button.
pub open spec fn notice_script_of(l: Locale) -> Seq<char> {
    "display dialog "@ + quoted(reset_done_of(l)) + " with title "@ + quoted(title_of(l)) + " buttons {"@
        + quoted(ok_label_of(l)) + "} default button "@ + quoted(ok_label_of(l)) + " with icon note"@
}

fn push_quoted(s: &mut String, t: &str)
    ensures
        final(s)@ == old(s)@ + quoted(t@),
{
    s.append("\"");
    push_escaped(s, t);
    s.append("\"");
    assert(s@ =~= old(s)@ + quoted(t@));
}

/// The native dialog script offering to reset the database after the
/// migration failure `message`.
pub fn recovery_script(l: Locale, message: &str) -> (r: String)
    ensures
        r@ == recovery_script_of(l, message@),
{
    let body = dialog_body(l, message);
    let mut s = String::from_str("display dialog ");
    push_quoted(&mut s, body.as_str());
    s.append(" with title ");
    push_quoted(&mut s, title(l));
    s.append(" buttons {");
    push_quoted(&mut s, exit_label(l));
    s.append(", ");
    push_quoted(&mut s, reset_label(l));
    s.append("} default button ");
    push_quoted(&mut s, reset_label(l));
    s.append(" with icon stop");
    assert(s@ =~= recovery_script_of(l, message@));
    s
}

/// The native dialog script of the notice shown after a reset.
pub fn notice_script(l: Locale) -> (r: String)
    ensures
        r@ == notice_script_of(l),
{
    let mut s = String::from_str("display dialog ");
    push_quoted(&mut s, reset_done_message(l));
    s.append(" with title ");
    push_quoted(&mut s, title(l));
    s.append(" buttons {");
    push_quoted(&mut s, ok_label(l));
    s.append("} default button ");
    push_quoted(&mut s, ok_label(l));
    s.append(" with icon note");
    assert(s@ =~= notice_script_of(l));
    s
}

/// How the recovery dialog ended.
#[derive(Clone, Copy, Debug, PartialEq, Eq, Structural)]
pub enum DialogOutcome {
    /// Exit was chosen, or the dialog was closed without choosing Reset.
    ExitChosen,
    /// Reset Database was chosen.
    ResetChosen,
    /// The dialog could not be shown at all.
    Unavailable,
}

/// The outcome read from the dialog tool's output: Reset only when the output
/// names the Reset button.
pub open spec fn outcome_of(l: Locale, output: Seq<char>) -> DialogOutcome {
    if contains(output, reset_label_of(l)) {
        DialogOutcome::ResetChosen
    } else {
        DialogOutcome::ExitChosen
    }
}

/// Reads the user's choice from what the dialog tool printed.
pub fn parse_choice(l: Locale, output: &str) -> (r: DialogOutcome)
    ensures
        r == outcome_of(l, output@),
{
    if contains_str(output, reset_label(l)) {
        DialogOutcome::ResetChosen
    } else {
        DialogOutcome::ExitChosen
    }
}

/// What became of the database file when a reset was asked for.
#[derive(Clone, Copy, Debug, PartialEq, Eq, Structural)]
pub enum DeleteOutcome {
    /// The file was there and is gone.
    Removed,
    /// There was no file to delete.
    AlreadyAbsent,
    /// The file is there and could not be deleted.
    Failed,
}

/// Where the recovery protocol stands.
#[derive(Clone, Copy, Debug, PartialEq, Eq, Structural)]
pub enum RecoveryState {
    /// Not started.
    Start,
    /// Waiting for the host's locale setting.
    AwaitLocale,
    /// Waiting for the user's choice in the recovery dialog.
    AwaitChoice,
    /// Waiting for the database file to be deleted.
    AwaitDelete,
    /// Waiting for the user to close the notice after a reset.
    AwaitNotice,
    /// The process is ending.
    Done,
}

/// What happened since the last action.
#[derive(Clone, Copy, Debug, PartialEq, Eq, Structural)]
pub enum RecoveryEvent {
    /// Recovery is launched.
    Begin,
    /// The host's locale setting was read.
    LocaleRead(Locale),
    /// The recovery dialog ended.
    DialogClosed(DialogOutcome),
    /// The delete of the database file ended.
    Deleted(DeleteOutcome),
    /// The notice after a reset was closed.
    NoticeClosed,
}

/// What the recovery protocol asks its runner to do next.
#[derive(Clone, Copy, Debug, PartialEq, Eq, Structural)]
pub enum RecoveryAction {
    /// Read the host's locale setting.
    QueryLocale,
    /// Show the recovery dialog.
    ShowRecoveryDialog,
    /// Delete the database file.
    DeleteDatabase,
    /// Show the notice that the database was reset.
    ShowResetNotice,
    /// End the process with this status.
    Exit(i32),
}

/// The actions that show a dialog.
pub open spec fn is_recovery_dialog(a: RecoveryAction) -> bool {
    a == RecoveryAction::ShowRecoveryDialog || a == RecoveryAction::ShowResetNotice
}

/// One transition of the recovery protocol for a failure of class `c`. Only a
/// schema mismatch leads to a dialog; only an explicit Reset leads to a delete;
/// every other path, and every event that does not fit the state, ends the
/// process with the fatal status.
pub open spec fn recovery_next(c: FailureClass, s: RecoveryState, e: RecoveryEvent) -> (RecoveryState, RecoveryAction) {
    let fatal = (RecoveryState::Done, RecoveryAction::Exit(FATAL_EXIT_CODE));
    match (s, e) {
        (RecoveryState::Start, RecoveryEvent::Begin) => if c == FailureClass::SchemaIncompatible {
            (RecoveryState::AwaitLocale, RecoveryAction::QueryLocale)
        } else {
            fatal
        },
        (RecoveryState::AwaitLocale, RecoveryEvent::LocaleRead(_)) => (RecoveryState::AwaitChoice, RecoveryAction::ShowRecoveryDialog),
        (RecoveryState::AwaitChoice, RecoveryEvent::DialogClosed(o)) => if o == DialogOutcome::ResetChosen {
            (RecoveryState::AwaitDelete, RecoveryAction::DeleteDatabase)
        } else {
            fatal
        },
        (RecoveryState::AwaitDelete, RecoveryEvent::Deleted(d)) => if d == DeleteOutcome::Failed {
            fatal
        } else {
            (RecoveryState::AwaitNotice, RecoveryAction::ShowResetNotice)
        },
        _ => fatal,
    }
}

/// The final state and the actions asked for, when the protocol in state `s`
/// receives `events` one after another.
pub open spec fn recovery_run(c: FailureClass, s: RecoveryState, events: Seq<RecoveryEvent>) -> (RecoveryState, Seq<RecoveryAction>)
    decreases events.len(),
{
    if events.len() == 0 {
        (s, Seq::empty())
    } else {
        let (s1, a) = recovery_next(c, s, events[0]);
        let (last, rest) = recovery_run(c, s1, events.drop_first());
        (last, seq![a] + rest)
    }
}

/// The next state and action for event `e` in state `s`.
pub fn recovery_step(c: FailureClass, s: RecoveryState, e: RecoveryEvent) -> (r: (RecoveryState, RecoveryAction))
    ensures
        r == recovery_next(c, s, e),
{
    let fatal = (RecoveryState::Done, RecoveryAction::Exit(FATAL_EXIT_CODE));
    match (s, e) {
        (RecoveryState::Start, RecoveryEvent::Begin) => if c == FailureClass::SchemaIncompatible {
            (RecoveryState::AwaitLocale, RecoveryAction::QueryLocale)
        } else {
            fatal
        },
        (RecoveryState::AwaitLocale, RecoveryEvent::LocaleRead(_)) => (RecoveryState::AwaitChoice, RecoveryAction::ShowRecoveryDialog),
        (RecoveryState::AwaitChoice, RecoveryEvent::DialogClosed(o)) => if o == DialogOutcome::ResetChosen {
            (RecoveryState::AwaitDelete, RecoveryAction::DeleteDatabase)
        } else {
            fatal
        },
        (RecoveryState::AwaitDelete, RecoveryEvent::Deleted(d)) => if d == DeleteOutcome::Failed {
            fatal
        } else {
            (RecoveryState::AwaitNotice, RecoveryAction::ShowResetNotice)
        },
        _ => fatal,
    }
}

/// The recovery protocol for one migration failure: the failure's class and
/// message, where the protocol stands, and the dialog language once known.
pub struct RecoveryController {
    class: FailureClass,
    message: String,
    state: RecoveryState,
    locale: Locale,
}

/// What a recovery controller holds, as plain values.
pub ghost struct RecoveryView {
    pub class: FailureClass,
    pub message: Seq<char>,
    pub state: RecoveryState,
    pub locale: Locale,
}

impl View for RecoveryController {
    type V = RecoveryView;

    closed spec fn view(&self) -> RecoveryView {
        RecoveryView { class: self.class, message: self.message@, state: self.state, locale: self.locale }
    }
}

impl RecoveryController {
    /// Recovery for the migration failure `message`, not yet started; the
    /// dialog language is the default one until the locale is read.
    pub fn new(message: &str) -> (r: Self)
        ensures
            r@ == (RecoveryView {
                class: class_of(message@),
                message: message@,
                state: RecoveryState::Start,
                locale: Locale::Default,
            }),
    {
        RecoveryController {
            class: classify(message),
            message: String::from_str(message),
            state: RecoveryState::Start,
            locale: Locale::Default,
        }
    }

    /// The class of the failure.
    pub fn class(&self) -> (r: FailureClass)
        ensures
            r == self@.class,
    {
        self.class
    }

    /// Where the protocol stands.
    pub fn state(&self) -> (r: RecoveryState)
        ensures
            r == self@.state,
    {
        self.state
    }

    /// The dialog language.
    pub fn locale(&self) -> (r: Locale)
        ensures
            r == self@.locale,
    {
        self.locale
    }

    /// Takes one event and returns the next action; a locale that is read is
    /// kept for the dialogs.
    pub fn step(&mut self, e: RecoveryEvent) -> (a: RecoveryAction)
        ensures
            (final(self)@.state, a) == recovery_next(old(self)@.class, old(self)@.state, e),
            final(self)@.class == old(self)@.class,
            final(self)@.message == old(self)@.message,
            final(self)@.locale == match e {
                RecoveryEvent::LocaleRead(l) if old(self)@.state == RecoveryState::AwaitLocale => l,
                _ => old(self)@.locale,
            },
    {
        if let RecoveryEvent::LocaleRead(l) = e {
            if self.state == RecoveryState::AwaitLocale {
                self.locale = l;
            }
        }
        let (s, a) = recovery_step(self.class, self.state, e);
        self.state = s;
        a
    }

    /// The script of the recovery dialog, in the current language.
    pub fn dialog_script(&self) -> (r: String)
        ensures
            r@ == recovery_script_of(self@.locale, self@.message),
    {
        recovery_script(self.locale, self.message.as_str())
    }

    /// The script of the notice after a reset, in the current language.
    pub fn reset_notice_script(&self) -> (r: String)
        ensures
            r@ == notice_script_of(self@.locale),
    {
        notice_script(self.locale)
    }

    /// Reads the user's choice from the dialog tool's output.
    pub fn choice(&self, output: &str) -> (r: DialogOutcome)
        ensures
            r == outcome_of(self@.locale, output@),
    {
        parse_choice(self.locale, output)
    }
}

proof fn lemma_recovery_run_cons(c: FailureClass, s: RecoveryState, e: RecoveryEvent, rest: Seq<RecoveryEvent>)
    ensures
        recovery_run(c, s, seq![e] + rest) == ({
            let (s1, a) = recovery_next(c, s, e);
            let (last, acts) = recovery_run(c, s1, rest);
            (last, seq![a] + acts)
        }),
{
    let evs = seq![e] + rest;
    assert(evs[0] == e);
    assert(evs.drop_first() =~= rest);
}

/// One action for each event.
pub proof fn lemma_recovery_run_len(c: FailureClass, s: RecoveryState, events: Seq<RecoveryEvent>)
    ensures
        recovery_run(c, s, events).1.len() == events.len(),
    decreases events.len(),
{
    if events.len() > 0 {
        lemma_recovery_run_len(c, recovery_next(c, s, events[0]).0, events.drop_first());
    }
}

/// A failure that is not a schema mismatch ends the process with the fatal
/// status at once and never shows a dialog, whatever events follow.
pub proof fn lemma_other_fatal_exits(message: Seq<char>, events: Seq<RecoveryEvent>)
    requires
        class_of(message) == FailureClass::OtherFatal,
    ensures
        forall|i: int|
            0 <= i < events.len() ==> #[trigger] recovery_run(class_of(message), RecoveryState::Start, events).1[i]
                == RecoveryAction::Exit(FATAL_EXIT_CODE),
        forall|i: int|
            0 <= i < events.len() ==> !is_recovery_dialog(
                #[trigger] recovery_run(class_of(message), RecoveryState::Start, events).1[i],
            ),
{
    lemma_fatal_only(class_of(message), RecoveryState::Start, events);
}

proof fn lemma_fatal_only(c: FailureClass, s: RecoveryState, events: Seq<RecoveryEvent>)
    requires
        c == FailureClass::OtherFatal,
        s == RecoveryState::Start || s == RecoveryState::Done,
    ensures
        forall|i: int|
            0 <= i < events.len() ==> #[trigger] recovery_run(c, s, events).1[i] == RecoveryAction::Exit(
                FATAL_EXIT_CODE,
            ),
    decreases events.len(),
{
    lemma_recovery_run_len(c, s, events);
    if events.len() > 0 {
        let s1 = recovery_next(c, s, events[0]).0;
        lemma_fatal_only(c, s1, events.drop_first());
        let rest = recovery_run(c, s1, events.drop_first()).1;
        assert forall|i: int| 0 <= i < events.len() implies #[trigger] recovery_run(c, s, events).1[i]
            == RecoveryAction::Exit(FATAL_EXIT_CODE) by {
            if i > 0 {
                assert(rest[i - 1] == RecoveryAction::Exit(FATAL_EXIT_CODE));
            }
        }
    }
}

/// Every exit that recovery asks for carries the fatal status.
pub proof fn lemma_exits_are_fatal(c: FailureClass, s: RecoveryState, events: Seq<RecoveryEvent>)
    ensures
        forall|i: int|
            0 <= i < events.len() && (#[trigger] recovery_run(c, s, events).1[i]) is Exit ==> recovery_run(
                c,
                s,
                events,
            ).1[i] == RecoveryAction::Exit(FATAL_EXIT_CODE),
    decreases events.len(),
{
    lemma_recovery_run_len(c, s, events);
    if events.len() > 0 {
        let s1 = recovery_next(c, s, events[0]).0;
        lemma_exits_are_fatal(c, s1, events.drop_first());
        let rest = recovery_run(c, s1, events.drop_first()).1;
        assert forall|i: int|
            0 <= i < events.len() && (#[trigger] recovery_run(c, s, events).1[i]) is Exit implies recovery_run(
            c,
            s,
            events,
        ).1[i] == RecoveryAction::Exit(FATAL_EXIT_CODE) by {
            if i > 0 {
                assert(rest[i - 1] == recovery_run(c, s, events).1[i]);
            }
        }
    }
}

/// The database file is deleted only in answer to an explicit Reset choice:
/// never when the dialog could not be shown or was left another way.
pub proof fn lemma_delete_only_on_reset(c: FailureClass, s: RecoveryState, events: Seq<RecoveryEvent>)
    ensures
        forall|i: int|
            0 <= i < events.len() && #[trigger] recovery_run(c, s, events).1[i] == RecoveryAction::DeleteDatabase
                ==> events[i] == RecoveryEvent::DialogClosed(DialogOutcome::ResetChosen),
    decreases events.len(),
{
    lemma_recovery_run_len(c, s, events);
    if events.len() > 0 {
        let s1 = recovery_next(c, s, events[0]).0;
        lemma_delete_only_on_reset(c, s1, events.drop_first());
        let rest = recovery_run(c, s1, events.drop_first()).1;
        assert forall|i: int|
            0 <= i < events.len() && #[trigger] recovery_run(c, s, events).1[i] == RecoveryAction::DeleteDatabase
                implies events[i] == RecoveryEvent::DialogClosed(DialogOutcome::ResetChosen) by {
            if i > 0 {
                assert(rest[i - 1] == recovery_run(c, s, events).1[i]);
                assert(events.drop_first()[i - 1] == events[i]);
            }
        }
    }
}

/// A reset of a database file that is already gone goes on exactly as one
/// that deleted it: the notice is shown, and no error is reported.
pub proof fn lemma_reset_idempotent(c: FailureClass, rest: Seq<RecoveryEvent>)
    ensures
        recovery_run(c, RecoveryState::AwaitDelete, seq![RecoveryEvent::Deleted(DeleteOutcome::AlreadyAbsent)] + rest)
            == recovery_run(c, RecoveryState::AwaitDelete, seq![RecoveryEvent::Deleted(DeleteOutcome::Removed)] + rest),
        recovery_run(c, RecoveryState::AwaitDelete, seq![RecoveryEvent::Deleted(DeleteOutcome::AlreadyAbsent)] + rest).1[0]
            == RecoveryAction::ShowResetNotice,
{
    lemma_recovery_run_cons(c, RecoveryState::AwaitDelete, RecoveryEvent::Deleted(DeleteOutcome::AlreadyAbsent), rest);
    lemma_recovery_run_cons(c, RecoveryState::AwaitDelete, RecoveryEvent::Deleted(DeleteOutcome::Removed), rest);
}

} // verus!
