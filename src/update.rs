use vstd::prelude::*;

use crate::progress::{progress_text, DownloadProgress};

verus! {

/// Where the startup update flow stands.
#[derive(Clone, Copy, Debug, PartialEq, Eq, Structural)]
pub enum UpdateState {
    /// Not started yet.
    Idle,
    /// Waiting for the auto-update preference.
    CheckingPreference,
    /// Waiting for the update service to say whether a new version exists.
    CheckingRemote,
    /// Waiting for the user to accept or decline the new version.
    PromptUser,
    /// Waiting for the download and install to end.
    Downloading,
    /// Waiting for the user to acknowledge that the install failed.
    ReportingFailure,
    /// Waiting for the user to accept or decline a restart.
    PromptRestart,
    /// The flow is over.
    Finished,
}

/// What the update service answered to a version check.
#[derive(Clone, Copy, Debug, PartialEq, Eq, Structural)]
pub enum CheckOutcome {
    Found,
    NotFound,
    Failed,
}

/// What happened since the last action.
#[derive(Clone, Copy, Debug, PartialEq, Eq, Structural)]
pub enum UpdateEvent {
    /// The flow is launched.
    Start,
    /// The stored preference: `None` when it is absent or cannot be read.
    Preference(Option<bool>),
    /// The version check ended.
    Checked(CheckOutcome),
    /// The user closed a dialog: `true` for OK.
    Answer(bool),
    /// The download and install ended: `true` on success.
    Installed(bool),
}

/// What the flow asks its runner to do next.
#[derive(Clone, Copy, Debug, PartialEq, Eq, Structural)]
pub enum UpdateAction {
    /// Read the auto-update preference.
    ReadPreference,
    /// Ask the update service for a new version.
    CheckForUpdate,
    /// Show the OK/Cancel prompt naming the new version.
    AskInstall,
    /// Download and install the new version, reporting progress.
    DownloadAndInstall,
    /// Show the warning that the install failed.
    ReportInstallFailure,
    /// Show the OK/Cancel prompt to restart now.
    AskRestart,
    /// Restart the application; this ends the process.
    Restart,
    /// A service error, treated as fatal: end the process with a failure.
    Abort,
    /// Nothing more to do.
    Finish,
}

/// The look of a dialog.
#[derive(Clone, Copy, Debug, PartialEq, Eq, Structural)]
pub enum DialogKind {
    Info,
    Warning,
}

/// The buttons of a dialog.
#[derive(Clone, Copy, Debug, PartialEq, Eq, Structural)]
pub enum DialogButtons {
    /// A single OK button.
    OkOnly,
    /// OK and Cancel.
    OkCancel,
}

/// The actions that show a dialog to the user.
pub open spec fn is_dialog(a: UpdateAction) -> bool {
    a == UpdateAction::AskInstall || a == UpdateAction::ReportInstallFailure || a
        == UpdateAction::AskRestart
}

/// Some action in `acts` shows a dialog.
pub open spec fn shows_dialog(acts: Seq<UpdateAction>) -> bool {
    exists|i: int| 0 <= i < acts.len() && is_dialog(#[trigger] acts[i])
}

/// The actions after which the runner stops: nothing follows them.
pub open spec fn is_terminal(a: UpdateAction) -> bool {
    a == UpdateAction::Restart || a == UpdateAction::Abort || a == UpdateAction::Finish
}

/// One transition of the update flow. Only an enabled preference leads to a
/// version check; only an accepted prompt leads to a download; a failed check
/// ends the flow, as a fatal error when `abort_on_error` is set. Any event that
/// does not fit the state ends the flow.
pub open spec fn next(abort_on_error: bool, s: UpdateState, e: UpdateEvent) -> (UpdateState, UpdateAction) {
    match (s, e) {
        (UpdateState::Idle, UpdateEvent::Start) => (UpdateState::CheckingPreference, UpdateAction::ReadPreference),
        (UpdateState::CheckingPreference, UpdateEvent::Preference(p)) => {
            if p == Some(true) {
                (UpdateState::CheckingRemote, UpdateAction::CheckForUpdate)
            } else {
                (UpdateState::Finished, UpdateAction::Finish)
            }
        },
        (UpdateState::CheckingRemote, UpdateEvent::Checked(c)) => match c {
            CheckOutcome::Found => (UpdateState::PromptUser, UpdateAction::AskInstall),
            CheckOutcome::NotFound => (UpdateState::Finished, UpdateAction::Finish),
            CheckOutcome::Failed => if abort_on_error {
                (UpdateState::Finished, UpdateAction::Abort)
            } else {
                (UpdateState::Finished, UpdateAction::Finish)
            },
        },
        (UpdateState::PromptUser, UpdateEvent::Answer(ok)) => {
            if ok {
                (UpdateState::Downloading, UpdateAction::DownloadAndInstall)
            } else {
                (UpdateState::Finished, UpdateAction::Finish)
            }
        },
        (UpdateState::Downloading, UpdateEvent::Installed(ok)) => {
            if ok {
                (UpdateState::PromptRestart, UpdateAction::AskRestart)
            } else {
                (UpdateState::ReportingFailure, UpdateAction::ReportInstallFailure)
            }
        },
        (UpdateState::ReportingFailure, UpdateEvent::Answer(_)) => (UpdateState::Finished, UpdateAction::Finish),
        (UpdateState::PromptRestart, UpdateEvent::Answer(ok)) => {
            if ok {
                (UpdateState::Finished, UpdateAction::Restart)
            } else {
                (UpdateState::Finished, UpdateAction::Finish)
            }
        },
        _ => (UpdateState::Finished, UpdateAction::Finish),
    }
}

/// The final state and the actions asked for, when the flow in state `s`
/// receives `events` one after another.
pub open spec fn run(abort_on_error: bool, s: UpdateState, events: Seq<UpdateEvent>) -> (UpdateState, Seq<UpdateAction>)
    decreases events.len(),
{
    if events.len() == 0 {
        (s, Seq::empty())
    } else {
        let (s1, a) = next(abort_on_error, s, events[0]);
        let (last, rest) = run(abort_on_error, s1, events.drop_first());
        (last, seq![a] + rest)
    }
}

/// The next state and action for event `e` in state `s`.
pub fn next_step(abort_on_error: bool, s: UpdateState, e: UpdateEvent) -> (r: (UpdateState, UpdateAction))
    ensures
        r == next(abort_on_error, s, e),
{
    match (s, e) {
        (UpdateState::Idle, UpdateEvent::Start) => (UpdateState::CheckingPreference, UpdateAction::ReadPreference),
        (UpdateState::CheckingPreference, UpdateEvent::Preference(p)) => {
            if p == Some(true) {
                (UpdateState::CheckingRemote, UpdateAction::CheckForUpdate)
            } else {
                (UpdateState::Finished, UpdateAction::Finish)
            }
        },
        (UpdateState::CheckingRemote, UpdateEvent::Checked(c)) => match c {
            CheckOutcome::Found => (UpdateState::PromptUser, UpdateAction::AskInstall),
            CheckOutcome::NotFound => (UpdateState::Finished, UpdateAction::Finish),
            CheckOutcome::Failed => if abort_on_error {
                (UpdateState::Finished, UpdateAction::Abort)
            } else {
                (UpdateState::Finished, UpdateAction::Finish)
            },
        },
        (UpdateState::PromptUser, UpdateEvent::Answer(ok)) => {
            if ok {
                (UpdateState::Downloading, UpdateAction::DownloadAndInstall)
            } else {
                (UpdateState::Finished, UpdateAction::Finish)
            }
        },
        (UpdateState::Downloading, UpdateEvent::Installed(ok)) => {
            if ok {
                (UpdateState::PromptRestart, UpdateAction::AskRestart)
            } else {
                (UpdateState::ReportingFailure, UpdateAction::ReportInstallFailure)
            }
        },
        (UpdateState::ReportingFailure, UpdateEvent::Answer(_)) => (UpdateState::Finished, UpdateAction::Finish),
        (UpdateState::PromptRestart, UpdateEvent::Answer(ok)) => {
            if ok {
                (UpdateState::Finished, UpdateAction::Restart)
            } else {
                (UpdateState::Finished, UpdateAction::Finish)
            }
        },
        _ => (UpdateState::Finished, UpdateAction::Finish),
    }
}

/// How a dialog action is shown: its look and its buttons.
pub open spec fn dialog_style_of(a: UpdateAction) -> Option<(DialogKind, DialogButtons)> {
    if a == UpdateAction::AskInstall || a == UpdateAction::AskRestart {
        Some((DialogKind::Info, DialogButtons::OkCancel))
    } else if a == UpdateAction::ReportInstallFailure {
        Some((DialogKind::Warning, DialogButtons::OkOnly))
    } else {
        None
    }
}

/// The look and buttons of the dialog that `a` shows, if it shows one.
pub fn dialog_style(a: UpdateAction) -> (r: Option<(DialogKind, DialogButtons)>)
    ensures
        r == dialog_style_of(a),
        r is Some <==> is_dialog(a),
{
    match a {
        UpdateAction::AskInstall | UpdateAction::AskRestart => Some((DialogKind::Info, DialogButtons::OkCancel)),
        UpdateAction::ReportInstallFailure => Some((DialogKind::Warning, DialogButtons::OkOnly)),
        _ => None,
    }
}

/// The prompt that names the new version.
pub fn install_prompt(version: &str) -> (r: String)
    ensures
        r@ == "Update available: v"@ + version@,
{
    let mut s = String::from_str("Update available: v");
    s.append(version);
    s
}

/// The warning shown when the download or install failed.
pub fn install_failure_message(detail: &str) -> (r: String)
    ensures
        r@ == "Download Update failed: "@ + detail@,
{
    let mut s = String::from_str("Download Update failed: ");
    s.append(detail);
    s
}

/// The prompt shown once the new version is installed.
pub fn restart_prompt() -> (r: String)
    ensures
        r@ == "Update downloaded. Restart now?"@,
{
    String::from_str("Update downloaded. Restart now?")
}

/// The update flow of one process run: its state, whether a failed version
/// check ends the process, and the byte count of the download in progress.
pub struct UpdateController {
    state: UpdateState,
    abort_on_error: bool,
    progress: DownloadProgress,
}

/// What an update controller holds, as plain values.
pub ghost struct UpdateView {
    pub state: UpdateState,
    pub abort_on_error: bool,
    pub downloaded: nat,
}

impl View for UpdateController {
    type V = UpdateView;

    closed spec fn view(&self) -> UpdateView {
        UpdateView { state: self.state, abort_on_error: self.abort_on_error, downloaded: self.progress@ }
    }
}

impl UpdateController {
    /// A flow that has not started. With `abort_on_error` a failed version
    /// check is fatal to the process; without it the flow just ends.
    pub fn new(abort_on_error: bool) -> (r: Self)
        ensures
            r@ == (UpdateView { state: UpdateState::Idle, abort_on_error, downloaded: 0 }),
    {
        UpdateController { state: UpdateState::Idle, abort_on_error, progress: DownloadProgress::new() }
    }

    /// Where the flow stands.
    pub fn state(&self) -> (r: UpdateState)
        ensures
            r == self@.state,
    {
        self.state
    }

    /// Bytes of the current download received so far.
    pub fn downloaded(&self) -> (r: u64)
        ensures
            r == self@.downloaded,
    {
        self.progress.downloaded()
    }

    /// Takes one event and returns the next action. A download starts from a
    /// zero byte count.
    pub fn step(&mut self, e: UpdateEvent) -> (a: UpdateAction)
        ensures
            (final(self)@.state, a) == next(old(self)@.abort_on_error, old(self)@.state, e),
            is_terminal(a) <==> final(self)@.state == UpdateState::Finished,
            final(self)@.abort_on_error == old(self)@.abort_on_error,
            final(self)@.downloaded == if a == UpdateAction::DownloadAndInstall {
                0
            } else {
                old(self)@.downloaded
            },
    {
        let (s, a) = next_step(self.abort_on_error, self.state, e);
        self.state = s;
        if a == UpdateAction::DownloadAndInstall {
            self.progress = DownloadProgress::new();
        }
        a
    }

    /// Adds one downloaded chunk and returns the progress line to show.
    pub fn record_progress(&mut self, delta: u64, total: Option<u64>) -> (line: String)
        requires
            old(self)@.downloaded + delta <= u64::MAX,
        ensures
            final(self)@ == (UpdateView { downloaded: (old(self)@.downloaded + delta) as nat, ..old(self)@ }),
            line@ == progress_text(final(self)@.downloaded, total),
    {
        self.progress.record(delta, total)
    }
}

/// How often `a` occurs in `acts`.
pub open spec fn count(acts: Seq<UpdateAction>, a: UpdateAction) -> nat
    decreases acts.len(),
{
    if acts.len() == 0 {
        0
    } else {
        (if acts[0] == a { 1nat } else { 0nat }) + count(acts.drop_first(), a)
    }
}

proof fn lemma_run_cons(abort_on_error: bool, s: UpdateState, e: UpdateEvent, rest: Seq<UpdateEvent>)
    ensures
        run(abort_on_error, s, seq![e] + rest) == ({
            let (s1, a) = next(abort_on_error, s, e);
            let (last, acts) = run(abort_on_error, s1, rest);
            (last, seq![a] + acts)
        }),
{
    let evs = seq![e] + rest;
    assert(evs[0] == e);
    assert(evs.drop_first() =~= rest);
}

proof fn lemma_count_cons(a: UpdateAction, rest: Seq<UpdateAction>, x: UpdateAction)
    ensures
        count(seq![a] + rest, x) == (if a == x { 1nat } else { 0nat }) + count(rest, x),
{
    let acts = seq![a] + rest;
    assert(acts[0] == a);
    assert(acts.drop_first() =~= rest);
}

/// One action for each event.
pub proof fn lemma_run_len(abort_on_error: bool, s: UpdateState, events: Seq<UpdateEvent>)
    ensures
        run(abort_on_error, s, events).1.len() == events.len(),
    decreases events.len(),
{
    if events.len() > 0 {
        lemma_run_len(abort_on_error, next(abort_on_error, s, events[0]).0, events.drop_first());
    }
}

/// Once the flow is over, every later event only gets `Finish` back.
pub proof fn lemma_finished_stays(abort_on_error: bool, events: Seq<UpdateEvent>)
    ensures
        run(abort_on_error, UpdateState::Finished, events).0 == UpdateState::Finished,
        forall|i: int|
            0 <= i < events.len() ==> #[trigger] run(abort_on_error, UpdateState::Finished, events).1[i]
                == UpdateAction::Finish,
    decreases events.len(),
{
    lemma_run_len(abort_on_error, UpdateState::Finished, events);
    if events.len() > 0 {
        lemma_finished_stays(abort_on_error, events.drop_first());
        let rest = run(abort_on_error, UpdateState::Finished, events.drop_first()).1;
        assert forall|i: int| 0 <= i < events.len() implies #[trigger] run(
            abort_on_error,
            UpdateState::Finished,
            events,
        ).1[i] == UpdateAction::Finish by {
            if i > 0 {
                assert(rest[i - 1] == UpdateAction::Finish);
            }
        }
    }
}

/// A preference that is off, absent or unreadable means no version check at
/// all, whatever happens afterwards.
pub proof fn lemma_disabled_never_checks(
    abort_on_error: bool,
    pref: Option<bool>,
    rest: Seq<UpdateEvent>,
)
    requires
        pref != Some(true),
    ensures
        !run(
            abort_on_error,
            UpdateState::Idle,
            seq![UpdateEvent::Start, UpdateEvent::Preference(pref)] + rest,
        ).1.contains(UpdateAction::CheckForUpdate),
{
    let tail = seq![UpdateEvent::Preference(pref)] + rest;
    assert(seq![UpdateEvent::Start, UpdateEvent::Preference(pref)] + rest =~= seq![UpdateEvent::Start] + tail);
    lemma_run_cons(abort_on_error, UpdateState::Idle, UpdateEvent::Start, tail);
    lemma_run_cons(abort_on_error, UpdateState::CheckingPreference, UpdateEvent::Preference(pref), rest);
    lemma_finished_stays(abort_on_error, rest);
    lemma_run_len(abort_on_error, UpdateState::Finished, rest);
    let acts = run(abort_on_error, UpdateState::Idle, seq![UpdateEvent::Start] + tail).1;
    assert forall|i: int| 0 <= i < acts.len() implies acts[i] != UpdateAction::CheckForUpdate by {
        if i >= 2 {
            assert(run(abort_on_error, UpdateState::Finished, rest).1[i - 2] == UpdateAction::Finish);
        }
    }
}

/// When the service finds no new version, no dialog is ever shown.
pub proof fn lemma_no_update_no_dialog(abort_on_error: bool, rest: Seq<UpdateEvent>)
    ensures
        !shows_dialog(
            run(
                abort_on_error,
                UpdateState::Idle,
                seq![
                    UpdateEvent::Start,
                    UpdateEvent::Preference(Some(true)),
                    UpdateEvent::Checked(CheckOutcome::NotFound),
                ] + rest,
            ).1,
        ),
{
    let t2 = seq![UpdateEvent::Checked(CheckOutcome::NotFound)] + rest;
    let t1 = seq![UpdateEvent::Preference(Some(true))] + t2;
    assert(seq![
        UpdateEvent::Start,
        UpdateEvent::Preference(Some(true)),
        UpdateEvent::Checked(CheckOutcome::NotFound),
    ] + rest =~= seq![UpdateEvent::Start] + t1);
    lemma_run_cons(abort_on_error, UpdateState::Idle, UpdateEvent::Start, t1);
    lemma_run_cons(abort_on_error, UpdateState::CheckingPreference, UpdateEvent::Preference(Some(true)), t2);
    lemma_run_cons(abort_on_error, UpdateState::CheckingRemote, UpdateEvent::Checked(CheckOutcome::NotFound), rest);
    lemma_finished_stays(abort_on_error, rest);
    lemma_run_len(abort_on_error, UpdateState::Finished, rest);
    let acts = run(abort_on_error, UpdateState::Idle, seq![UpdateEvent::Start] + t1).1;
    assert forall|i: int| 0 <= i < acts.len() implies !is_dialog(#[trigger] acts[i]) by {
        if i >= 3 {
            assert(run(abort_on_error, UpdateState::Finished, rest).1[i - 3] == UpdateAction::Finish);
        }
    }
}

/// When the user declines the new version, it is never downloaded.
pub proof fn lemma_declined_never_downloads(abort_on_error: bool, rest: Seq<UpdateEvent>)
    ensures
        !run(
            abort_on_error,
            UpdateState::Idle,
            seq![
                UpdateEvent::Start,
                UpdateEvent::Preference(Some(true)),
                UpdateEvent::Checked(CheckOutcome::Found),
                UpdateEvent::Answer(false),
            ] + rest,
        ).1.contains(UpdateAction::DownloadAndInstall),
{
    let t3 = seq![UpdateEvent::Answer(false)] + rest;
    let t2 = seq![UpdateEvent::Checked(CheckOutcome::Found)] + t3;
    let t1 = seq![UpdateEvent::Preference(Some(true))] + t2;
    assert(seq![
        UpdateEvent::Start,
        UpdateEvent::Preference(Some(true)),
        UpdateEvent::Checked(CheckOutcome::Found),
        UpdateEvent::Answer(false),
    ] + rest =~= seq![UpdateEvent::Start] + t1);
    lemma_run_cons(abort_on_error, UpdateState::Idle, UpdateEvent::Start, t1);
    lemma_run_cons(abort_on_error, UpdateState::CheckingPreference, UpdateEvent::Preference(Some(true)), t2);
    lemma_run_cons(abort_on_error, UpdateState::CheckingRemote, UpdateEvent::Checked(CheckOutcome::Found), t3);
    lemma_run_cons(abort_on_error, UpdateState::PromptUser, UpdateEvent::Answer(false), rest);
    lemma_finished_stays(abort_on_error, rest);
    lemma_run_len(abort_on_error, UpdateState::Finished, rest);
    let acts = run(abort_on_error, UpdateState::Idle, seq![UpdateEvent::Start] + t1).1;
    assert forall|i: int| 0 <= i < acts.len() implies acts[i] != UpdateAction::DownloadAndInstall by {
        if i >= 4 {
            assert(run(abort_on_error, UpdateState::Finished, rest).1[i - 4] == UpdateAction::Finish);
        }
    }
}

/// The states from which a version check can still be asked for.
pub open spec fn check_pending(s: UpdateState) -> bool {
    s == UpdateState::Idle || s == UpdateState::CheckingPreference
}

/// The states from which a download can still be asked for.
pub open spec fn download_pending(s: UpdateState) -> bool {
    check_pending(s) || s == UpdateState::CheckingRemote || s == UpdateState::PromptUser
}

proof fn lemma_checks_bounded(abort_on_error: bool, s: UpdateState, events: Seq<UpdateEvent>)
    ensures
        count(run(abort_on_error, s, events).1, UpdateAction::CheckForUpdate) <= (if check_pending(s) { 1nat } else { 0nat }),
        count(run(abort_on_error, s, events).1, UpdateAction::DownloadAndInstall) <= (if download_pending(s) { 1nat } else { 0nat }),
    decreases events.len(),
{
    if events.len() > 0 {
        let (s1, a) = next(abort_on_error, s, events[0]);
        lemma_checks_bounded(abort_on_error, s1, events.drop_first());
        let rest = run(abort_on_error, s1, events.drop_first()).1;
        lemma_count_cons(a, rest, UpdateAction::CheckForUpdate);
        lemma_count_cons(a, rest, UpdateAction::DownloadAndInstall);
    }
}

/// Whatever happens, one run of the flow asks for at most one version check
/// and at most one download.
pub proof fn lemma_at_most_one_check_and_download(abort_on_error: bool, events: Seq<UpdateEvent>)
    ensures
        count(run(abort_on_error, UpdateState::Idle, events).1, UpdateAction::CheckForUpdate) <= 1,
        count(run(abort_on_error, UpdateState::Idle, events).1, UpdateAction::DownloadAndInstall) <= 1,
{
    lemma_checks_bounded(abort_on_error, UpdateState::Idle, events);
}

} // verus!
