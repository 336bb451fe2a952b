//! The order of an update run: take the right to run, see whether the
//! startup check is due, check, ask, download, write the file, replace the
//! executable, restart; and what is shown, cleaned up and sent on the way.
//!
//! The program does the work that each step asks for (dialogs, network,
//! files, the tray) and hands back what came of it; [`run_step`] decides
//! what comes next. A step asks for at most one thing that has an answer,
//! and asks for it last; a run with nothing left to answer is over.

use vstd::prelude::*;

use crate::update::{
    busy_notice, busy_notice_of, download_failed_message, download_failed_text,
    install_failed_message, install_failed_text, notice_after_check, notice_of, outcome_view,
    restart_failed_message, restart_failed_text, Available, AvailableView, CheckError,
    CheckErrorView, Notice, NoticeView,
};
use crate::guard::acquire_step;
use crate::version::Version;

verus! {

// ---------------------------------------------------------------------------
// States, events and actions
// ---------------------------------------------------------------------------

/// Where a run stands: what it waits for.
#[derive(Debug, Clone, Copy, PartialEq, Eq)]
pub enum RunStage {
    /// Waits to learn whether it got the right to run.
    Start,
    /// Waits to learn whether the startup check is due.
    AwaitInterval,
    /// Waits for the outcome of the check.
    AwaitCheck,
    /// Waits for the user's answer to the update question.
    AwaitAnswer,
    /// Waits for the download (fetched and verified).
    AwaitDownload,
    /// Waits for the temporary file to be written.
    AwaitWrite,
    /// Waits for the executable to be replaced.
    AwaitInstall,
    /// Waits for the new version to be started.
    AwaitRestart,
    /// The run is over.
    Finished,
}

/// A run: where it stands, whether it was asked from the menu, this
/// build's version, the releases page, and the update found.
pub struct RunState {
    pub stage: RunStage,
    pub manual: bool,
    pub current: Version,
    pub releases_page: String,
    pub found: Option<Available>,
}

/// What came of the work that a step asked for.
pub enum RunEvent {
    /// The right to run was taken, or another run holds it.
    Started { acquired: bool },
    /// Whether the startup check is due.
    IntervalChecked { due: bool },
    /// The outcome of the check.
    Checked(Result<Option<Available>, CheckError>),
    /// The user's answer to the update question.
    Answered { yes: bool },
    /// The download, fetched and verified, or why not.
    Downloaded(Result<(), String>),
    /// The temporary file written, or why not.
    Written(Result<(), String>),
    /// The executable replaced, or why not.
    Installed(Result<(), String>),
    /// The new version started, or why not.
    Restarted(Result<(), String>),
}

/// Work that a step asks the program to do, in the order given.
pub enum RunAction {
    /// Take the right to run (answered by `Started`).
    Acquire,
    /// See whether the startup check is due (answered by `IntervalChecked`).
    CheckInterval,
    /// Record that the startup check ran now.
    MarkChecked,
    /// Check for an update (answered by `Checked`).
    Check,
    /// Show a notice (a question is answered by `Answered`).
    Show(Notice),
    /// Fetch and verify the update found (answered by `Downloaded`).
    Download,
    /// Write the download to the temporary file (answered by `Written`).
    WriteTemp,
    /// Delete the temporary file.
    RemoveTemp,
    /// Replace the executable with the temporary file (answered by `Installed`).
    Install,
    /// Start the new version (answered by `Restarted`).
    Restart,
    /// Open a page in the browser.
    OpenPage(String),
    /// Tell the tray that the update ended without a restart.
    SendFinished,
    /// Tell the tray to quit: the new version runs.
    SendQuit,
    /// Give the right to run back.
    Release,
}

pub struct RunStateView {
    pub stage: RunStage,
    pub manual: bool,
    pub current: Version,
    pub releases_page: Seq<char>,
    pub found: Option<AvailableView>,
}

pub enum RunEventView {
    Started { acquired: bool },
    IntervalChecked { due: bool },
    Checked(Result<Option<AvailableView>, CheckErrorView>),
    Answered { yes: bool },
    Downloaded(Result<(), Seq<char>>),
    Written(Result<(), Seq<char>>),
    Installed(Result<(), Seq<char>>),
    Restarted(Result<(), Seq<char>>),
}

pub enum RunActionView {
    Acquire,
    CheckInterval,
    MarkChecked,
    Check,
    Show(NoticeView),
    Download,
    WriteTemp,
    RemoveTemp,
    Install,
    Restart,
    OpenPage(Seq<char>),
    SendFinished,
    SendQuit,
    Release,
}

pub open spec fn found_view(f: Option<Available>) -> Option<AvailableView> {
    match f {
        Some(a) => Some(a@),
        None => None,
    }
}

pub open spec fn done_view(r: Result<(), String>) -> Result<(), Seq<char>> {
    match r {
        Ok(()) => Ok(()),
        Err(m) => Err(m@),
    }
}

impl View for RunState {
    type V = RunStateView;

    open spec fn view(&self) -> RunStateView {
        RunStateView {
            stage: self.stage,
            manual: self.manual,
            current: self.current,
            releases_page: self.releases_page@,
            found: found_view(self.found),
        }
    }
}

impl View for RunEvent {
    type V = RunEventView;

    open spec fn view(&self) -> RunEventView {
        match self {
            RunEvent::Started { acquired } => RunEventView::Started { acquired: *acquired },
            RunEvent::IntervalChecked { due } => RunEventView::IntervalChecked { due: *due },
            RunEvent::Checked(o) => RunEventView::Checked(outcome_view(*o)),
            RunEvent::Answered { yes } => RunEventView::Answered { yes: *yes },
            RunEvent::Downloaded(r) => RunEventView::Downloaded(done_view(*r)),
            RunEvent::Written(r) => RunEventView::Written(done_view(*r)),
            RunEvent::Installed(r) => RunEventView::Installed(done_view(*r)),
            RunEvent::Restarted(r) => RunEventView::Restarted(done_view(*r)),
        }
    }
}

impl View for RunAction {
    type V = RunActionView;

    open spec fn view(&self) -> RunActionView {
        match self {
            RunAction::Acquire => RunActionView::Acquire,
            RunAction::CheckInterval => RunActionView::CheckInterval,
            RunAction::MarkChecked => RunActionView::MarkChecked,
            RunAction::Check => RunActionView::Check,
            RunAction::Show(n) => RunActionView::Show(n@),
            RunAction::Download => RunActionView::Download,
            RunAction::WriteTemp => RunActionView::WriteTemp,
            RunAction::RemoveTemp => RunActionView::RemoveTemp,
            RunAction::Install => RunActionView::Install,
            RunAction::Restart => RunActionView::Restart,
            RunAction::OpenPage(u) => RunActionView::OpenPage(u@),
            RunAction::SendFinished => RunActionView::SendFinished,
            RunAction::SendQuit => RunActionView::SendQuit,
            RunAction::Release => RunActionView::Release,
        }
    }
}

/// The actions of a step, each by its view.
pub open spec fn actions_view(actions: Seq<RunAction>) -> Seq<RunActionView> {
    actions.map_values(|a: RunAction| a@)
}

// ---------------------------------------------------------------------------
// Specification of a run
// ---------------------------------------------------------------------------

/// `s` at another stage.
pub open spec fn with_stage(s: RunStateView, stage: RunStage) -> RunStateView {
    RunStateView {
        stage,
        manual: s.manual,
        current: s.current,
        releases_page: s.releases_page,
        found: s.found,
    }
}

/// The detail of a temporary file that could not be written.
pub open spec fn write_failed_detail(e: Seq<char>) -> Seq<char> {
    "一時ファイルの書き出しに失敗: "@ + e
}

/// A run as it starts: it first takes the right to run.
pub open spec fn run_begin_of(manual: bool, current: Version, releases_page: Seq<char>) -> (
    RunStateView,
    Seq<RunActionView>,
) {
    (
        RunStateView { stage: RunStage::Start, manual, current, releases_page, found: None },
        seq![RunActionView::Acquire],
    )
}

/// One step of a run: from `s`, on event `e`, the next state and the work
/// to do, in order. An event that the stage does not wait for changes
/// nothing.
///
/// - Another run holds the right: only the busy notice (for a check from
///   the menu; silence at startup), and the run is over, without a release.
/// - A startup check that is not due ends the run; one that is due is
///   recorded before the check.
/// - After the check: the notice of its outcome; an update found is asked
///   about, anything else ends the run.
/// - A refusal ends the run; a yes downloads.
/// - A failed download, write, replacement or restart is reported, and
///   the tray is told that the update ended; a failed write, and the
///   replacement whatever its result, delete the temporary file; a failed
///   replacement opens the release page.
/// - A started new version makes the tray quit.
/// - Every run that took the right gives it back as its last action.
pub open spec fn run_step_of(s: RunStateView, e: RunEventView) -> (RunStateView, Seq<RunActionView>) {
    let unchanged = (s, Seq::<RunActionView>::empty());
    match s.stage {
        RunStage::Start => match e {
            RunEventView::Started { acquired } => if !acquired {
                (
                    with_stage(s, RunStage::Finished),
                    seq![RunActionView::Show(busy_notice_of(s.manual))],
                )
            } else if s.manual {
                (with_stage(s, RunStage::AwaitCheck), seq![RunActionView::Check])
            } else {
                (with_stage(s, RunStage::AwaitInterval), seq![RunActionView::CheckInterval])
            },
            _ => unchanged,
        },
        RunStage::AwaitInterval => match e {
            RunEventView::IntervalChecked { due } => if due {
                (
                    with_stage(s, RunStage::AwaitCheck),
                    seq![RunActionView::MarkChecked, RunActionView::Check],
                )
            } else {
                (with_stage(s, RunStage::Finished), seq![RunActionView::Release])
            },
            _ => unchanged,
        },
        RunStage::AwaitCheck => match e {
            RunEventView::Checked(o) => {
                let notice = RunActionView::Show(notice_of(s.manual, o, s.releases_page, s.current));
                match o {
                    Ok(Some(a)) => (
                        RunStateView {
                            stage: RunStage::AwaitAnswer,
                            manual: s.manual,
                            current: s.current,
                            releases_page: s.releases_page,
                            found: Some(a),
                        },
                        seq![notice],
                    ),
                    _ => (with_stage(s, RunStage::Finished), seq![notice, RunActionView::Release]),
                }
            },
            _ => unchanged,
        },
        RunStage::AwaitAnswer => match (e, s.found) {
            (RunEventView::Answered { yes }, Some(_)) => if yes {
                (with_stage(s, RunStage::AwaitDownload), seq![RunActionView::Download])
            } else {
                (with_stage(s, RunStage::Finished), seq![RunActionView::Release])
            },
            _ => unchanged,
        },
        RunStage::AwaitDownload => match (e, s.found) {
            (RunEventView::Downloaded(r), Some(a)) => match r {
                Ok(()) => (with_stage(s, RunStage::AwaitWrite), seq![RunActionView::WriteTemp]),
                Err(m) => (
                    with_stage(s, RunStage::Finished),
                    seq![
                        RunActionView::Show(NoticeView::Error(download_failed_message(a.page_url, m))),
                        RunActionView::SendFinished,
                        RunActionView::Release,
                    ],
                ),
            },
            _ => unchanged,
        },
        RunStage::AwaitWrite => match (e, s.found) {
            (RunEventView::Written(r), Some(a)) => match r {
                Ok(()) => (with_stage(s, RunStage::AwaitInstall), seq![RunActionView::Install]),
                Err(m) => (
                    with_stage(s, RunStage::Finished),
                    seq![
                        RunActionView::RemoveTemp,
                        RunActionView::Show(
                            NoticeView::Error(
                                download_failed_message(a.page_url, write_failed_detail(m)),
                            ),
                        ),
                        RunActionView::SendFinished,
                        RunActionView::Release,
                    ],
                ),
            },
            _ => unchanged,
        },
        RunStage::AwaitInstall => match (e, s.found) {
            (RunEventView::Installed(r), Some(a)) => match r {
                Ok(()) => (
                    with_stage(s, RunStage::AwaitRestart),
                    seq![RunActionView::RemoveTemp, RunActionView::Restart],
                ),
                Err(m) => (
                    with_stage(s, RunStage::Finished),
                    seq![
                        RunActionView::RemoveTemp,
                        RunActionView::Show(NoticeView::Error(install_failed_message(m))),
                        RunActionView::OpenPage(a.page_url),
                        RunActionView::SendFinished,
                        RunActionView::Release,
                    ],
                ),
            },
            _ => unchanged,
        },
        RunStage::AwaitRestart => match e {
            RunEventView::Restarted(r) => match r {
                Ok(()) => (
                    with_stage(s, RunStage::Finished),
                    seq![RunActionView::SendQuit, RunActionView::Release],
                ),
                Err(m) => (
                    with_stage(s, RunStage::Finished),
                    seq![
                        RunActionView::Show(NoticeView::Error(restart_failed_message(m))),
                        RunActionView::SendFinished,
                        RunActionView::Release,
                    ],
                ),
            },
            _ => unchanged,
        },
        RunStage::Finished => unchanged,
    }
}

// ---------------------------------------------------------------------------
// The steps
// ---------------------------------------------------------------------------

fn copy_available(a: &Available) -> (r: Available)
    ensures
        r@ == a@,
{
    Available {
        version: a.version,
        download_url: a.download_url.clone(),
        sha256: match &a.sha256 {
            Some(h) => Some(h.clone()),
            None => None,
        },
        page_url: a.page_url.clone(),
    }
}

/// `state` at another stage.
fn at_stage(state: &RunState, stage: RunStage) -> (r: RunState)
    ensures
        r@ == with_stage(state@, stage),
{
    RunState {
        stage,
        manual: state.manual,
        current: state.current,
        releases_page: state.releases_page.clone(),
        found: match &state.found {
            Some(a) => Some(copy_available(a)),
            None => None,
        },
    }
}

fn no_actions() -> (v: Vec<RunAction>)
    ensures
        actions_view(v@) == Seq::<RunActionView>::empty(),
{
    let v: Vec<RunAction> = Vec::new();
    assert(actions_view(v@) =~= Seq::<RunActionView>::empty());
    v
}

fn one(a: RunAction) -> (v: Vec<RunAction>)
    ensures
        actions_view(v@) == seq![a@],
{
    let mut v: Vec<RunAction> = Vec::new();
    v.push(a);
    assert(actions_view(v@) =~= seq![a@]);
    v
}

fn two(a: RunAction, b: RunAction) -> (v: Vec<RunAction>)
    ensures
        actions_view(v@) == seq![a@, b@],
{
    let ghost (av, bv) = (a@, b@);
    let mut v: Vec<RunAction> = Vec::new();
    v.push(a);
    v.push(b);
    assert(actions_view(v@) =~= seq![av, bv]);
    v
}

fn three(a: RunAction, b: RunAction, c: RunAction) -> (v: Vec<RunAction>)
    ensures
        actions_view(v@) == seq![a@, b@, c@],
{
    let ghost (av, bv, cv) = (a@, b@, c@);
    let mut v: Vec<RunAction> = Vec::new();
    v.push(a);
    v.push(b);
    v.push(c);
    assert(actions_view(v@) =~= seq![av, bv, cv]);
    v
}

fn four(a: RunAction, b: RunAction, c: RunAction, d: RunAction) -> (v: Vec<RunAction>)
    ensures
        actions_view(v@) == seq![a@, b@, c@, d@],
{
    let ghost (av, bv, cv, dv) = (a@, b@, c@, d@);
    let mut v: Vec<RunAction> = Vec::new();
    v.push(a);
    v.push(b);
    v.push(c);
    v.push(d);
    assert(actions_view(v@) =~= seq![av, bv, cv, dv]);
    v
}

fn five(a: RunAction, b: RunAction, c: RunAction, d: RunAction, e: RunAction) -> (v: Vec<
    RunAction,
>)
    ensures
        actions_view(v@) == seq![a@, b@, c@, d@, e@],
{
    let ghost (av, bv, cv, dv, ev) = (a@, b@, c@, d@, e@);
    let mut v: Vec<RunAction> = Vec::new();
    v.push(a);
    v.push(b);
    v.push(c);
    v.push(d);
    v.push(e);
    assert(actions_view(v@) =~= seq![av, bv, cv, dv, ev]);
    v
}

/// Starts a run (`manual`: asked from the menu) of this build
/// (`current`); it first asks for the right to run.
pub fn run_begin(manual: bool, current: Version, releases_page: String) -> (r: (
    RunState,
    Vec<RunAction>,
))
    ensures
        (r.0@, actions_view(r.1@)) == run_begin_of(manual, current, releases_page@),
{
    let state = RunState { stage: RunStage::Start, manual, current, releases_page, found: None };
    (state, one(RunAction::Acquire))
}

/// The next state of a run and the work to do, given what came of the
/// work asked for last.
pub fn run_step(state: &RunState, event: RunEvent) -> (r: (RunState, Vec<RunAction>))
    ensures
        (r.0@, actions_view(r.1@)) == run_step_of(state@, event@),
{
    match state.stage {
        RunStage::Start => match event {
            RunEvent::Started { acquired } => {
                if !acquired {
                    let n = busy_notice(state.manual);
                    (at_stage(state, RunStage::Finished), one(RunAction::Show(n)))
                } else if state.manual {
                    (at_stage(state, RunStage::AwaitCheck), one(RunAction::Check))
                } else {
                    (at_stage(state, RunStage::AwaitInterval), one(RunAction::CheckInterval))
                }
            },
            _ => (at_stage(state, state.stage), no_actions()),
        },
        RunStage::AwaitInterval => match event {
            RunEvent::IntervalChecked { due } => {
                if due {
                    (
                        at_stage(state, RunStage::AwaitCheck),
                        two(RunAction::MarkChecked, RunAction::Check),
                    )
                } else {
                    (at_stage(state, RunStage::Finished), one(RunAction::Release))
                }
            },
            _ => (at_stage(state, state.stage), no_actions()),
        },
        RunStage::AwaitCheck => match event {
            RunEvent::Checked(outcome) => {
                let notice = notice_after_check(
                    state.manual,
                    &outcome,
                    state.releases_page.as_str(),
                    &state.current,
                );
                match outcome {
                    Ok(Some(info)) => {
                        let next = RunState {
                            stage: RunStage::AwaitAnswer,
                            manual: state.manual,
                            current: state.current,
                            releases_page: state.releases_page.clone(),
                            found: Some(info),
                        };
                        (next, one(RunAction::Show(notice)))
                    },
                    _ => (
                        at_stage(state, RunStage::Finished),
                        two(RunAction::Show(notice), RunAction::Release),
                    ),
                }
            },
            _ => (at_stage(state, state.stage), no_actions()),
        },
        RunStage::AwaitAnswer => match (event, &state.found) {
            (RunEvent::Answered { yes }, Some(_)) => {
                if yes {
                    (at_stage(state, RunStage::AwaitDownload), one(RunAction::Download))
                } else {
                    (at_stage(state, RunStage::Finished), one(RunAction::Release))
                }
            },
            _ => (at_stage(state, state.stage), no_actions()),
        },
        RunStage::AwaitDownload => match (event, &state.found) {
            (RunEvent::Downloaded(r), Some(info)) => match r {
                Ok(()) => (at_stage(state, RunStage::AwaitWrite), one(RunAction::WriteTemp)),
                Err(m) => {
                    let text = download_failed_text(info.page_url.as_str(), m.as_str());
                    (
                        at_stage(state, RunStage::Finished),
                        three(
                            RunAction::Show(Notice::Error(text)),
                            RunAction::SendFinished,
                            RunAction::Release,
                        ),
                    )
                },
            },
            _ => (at_stage(state, state.stage), no_actions()),
        },
        RunStage::AwaitWrite => match (event, &state.found) {
            (RunEvent::Written(r), Some(info)) => match r {
                Ok(()) => (at_stage(state, RunStage::AwaitInstall), one(RunAction::Install)),
                Err(m) => {
                    let mut detail = "一時ファイルの書き出しに失敗: ".to_owned();
                    detail.append(m.as_str());
                    let text = download_failed_text(info.page_url.as_str(), detail.as_str());
                    (
                        at_stage(state, RunStage::Finished),
                        four(
                            RunAction::RemoveTemp,
                            RunAction::Show(Notice::Error(text)),
                            RunAction::SendFinished,
                            RunAction::Release,
                        ),
                    )
                },
            },
            _ => (at_stage(state, state.stage), no_actions()),
        },
        RunStage::AwaitInstall => match (event, &state.found) {
            (RunEvent::Installed(r), Some(info)) => match r {
                Ok(()) => (
                    at_stage(state, RunStage::AwaitRestart),
                    two(RunAction::RemoveTemp, RunAction::Restart),
                ),
                Err(m) => {
                    let text = install_failed_text(m.as_str());
                    (
                        at_stage(state, RunStage::Finished),
                        five(
                            RunAction::RemoveTemp,
                            RunAction::Show(Notice::Error(text)),
                            RunAction::OpenPage(info.page_url.clone()),
                            RunAction::SendFinished,
                            RunAction::Release,
                        ),
                    )
                },
            },
            _ => (at_stage(state, state.stage), no_actions()),
        },
        RunStage::AwaitRestart => match event {
            RunEvent::Restarted(r) => match r {
                Ok(()) => (
                    at_stage(state, RunStage::Finished),
                    two(RunAction::SendQuit, RunAction::Release),
                ),
                Err(m) => {
                    let text = restart_failed_text(m.as_str());
                    (
                        at_stage(state, RunStage::Finished),
                        three(
                            RunAction::Show(Notice::Error(text)),
                            RunAction::SendFinished,
                            RunAction::Release,
                        ),
                    )
                },
            },
            _ => (at_stage(state, state.stage), no_actions()),
        },
        RunStage::Finished => (at_stage(state, state.stage), no_actions()),
    }
}


// ---------------------------------------------------------------------------
// Whole runs
// ---------------------------------------------------------------------------

/// A run from `s` through `events`: the state reached and all the actions
/// asked for on the way, in order.
pub open spec fn run_trace(s: RunStateView, events: Seq<RunEventView>) -> (
    RunStateView,
    Seq<RunActionView>,
)
    decreases events.len(),
{
    if events.len() == 0 {
        (s, Seq::empty())
    } else {
        let first = run_step_of(s, events[0]);
        let rest = run_trace(first.0, events.drop_first());
        (rest.0, first.1 + rest.1)
    }
}

/// How many times `x` occurs in `actions`.
pub open spec fn count_of(actions: Seq<RunActionView>, x: RunActionView) -> nat
    decreases actions.len(),
{
    if actions.len() == 0 {
        0
    } else {
        (if actions[0] == x {
            1nat
        } else {
            0nat
        }) + count_of(actions.drop_first(), x)
    }
}

/// How many messages that end the update the tray is sent.
pub open spec fn sends_in(actions: Seq<RunActionView>) -> nat {
    count_of(actions, RunActionView::SendQuit) + count_of(actions, RunActionView::SendFinished)
}

/// The stages after the user agreed to the download.
pub open spec fn past_download(stage: RunStage) -> bool {
    ||| stage == RunStage::AwaitDownload
    ||| stage == RunStage::AwaitWrite
    ||| stage == RunStage::AwaitInstall
    ||| stage == RunStage::AwaitRestart
}

/// The stages of a run that holds the right to run.
pub open spec fn holding(stage: RunStage) -> bool {
    stage != RunStage::Start && stage != RunStage::Finished
}

proof fn lemma_count_concat(a: Seq<RunActionView>, b: Seq<RunActionView>, x: RunActionView)
    ensures
        count_of(a + b, x) == count_of(a, x) + count_of(b, x),
    decreases a.len(),
{
    if a.len() == 0 {
        assert(a + b =~= b);
    } else {
        assert((a + b).drop_first() =~= a.drop_first() + b);
        lemma_count_concat(a.drop_first(), b, x);
    }
}

proof fn lemma_finished_stays(s: RunStateView, events: Seq<RunEventView>)
    requires
        s.stage == RunStage::Finished,
    ensures
        run_trace(s, events).0 == s,
        run_trace(s, events).1 == Seq::<RunActionView>::empty(),
    decreases events.len(),
{
    if events.len() > 0 {
        lemma_finished_stays(s, events.drop_first());
        assert(Seq::<RunActionView>::empty() + Seq::<RunActionView>::empty() =~= Seq::<
            RunActionView,
        >::empty());
    }
}

/// What one step of a run that holds the right does to the counts of
/// releases and of ending messages, and to the stage.
proof fn lemma_step_counts(s: RunStateView, e: RunEventView)
    requires
        holding(s.stage),
    ensures
        ({
            let (t, acts) = run_step_of(s, e);
            &&& t.stage == RunStage::Finished || holding(t.stage)
            &&& count_of(acts, RunActionView::Release) == (if t.stage == RunStage::Finished {
                1nat
            } else {
                0nat
            })
            &&& past_download(s.stage) ==> past_download(t.stage) || t.stage == RunStage::Finished
            &&& past_download(s.stage) ==> sends_in(acts) == count_of(acts, RunActionView::Release)
            &&& (s.stage == RunStage::AwaitWrite || s.stage == RunStage::AwaitInstall) ==> (
            t.stage == s.stage || t.stage == RunStage::AwaitInstall || count_of(
                acts,
                RunActionView::RemoveTemp,
            ) >= 1)
        }),
{
    reveal_with_fuel(count_of, 6);
}

/// The right to run is given back exactly once: a run that holds it gives
/// it back at most once whatever happens next, and has given it back
/// exactly when it is over.
pub proof fn law_run_releases_once(s: RunStateView, events: Seq<RunEventView>)
    requires
        holding(s.stage),
    ensures
        count_of(run_trace(s, events).1, RunActionView::Release) <= 1,
        run_trace(s, events).0.stage == RunStage::Finished <==> count_of(
            run_trace(s, events).1,
            RunActionView::Release,
        ) == 1,
    decreases events.len(),
{
    if events.len() > 0 {
        let first = run_step_of(s, events[0]);
        let rest_events = events.drop_first();
        lemma_step_counts(s, events[0]);
        if first.0.stage == RunStage::Finished {
            lemma_finished_stays(first.0, rest_events);
        } else {
            law_run_releases_once(first.0, rest_events);
        }
        lemma_count_concat(first.1, run_trace(first.0, rest_events).1, RunActionView::Release);
    }
}

/// Once the user agreed to the download, the tray is sent exactly one
/// message that ends the update (`Quit` after a restart, `UpdateFinished`
/// after a failure) by the time the run is over, and never a second one.
pub proof fn law_one_ending_message_after_download(s: RunStateView, events: Seq<RunEventView>)
    requires
        past_download(s.stage),
    ensures
        sends_in(run_trace(s, events).1) <= 1,
        run_trace(s, events).0.stage == RunStage::Finished <==> sends_in(run_trace(s, events).1)
            == 1,
    decreases events.len(),
{
    if events.len() > 0 {
        let first = run_step_of(s, events[0]);
        let rest_events = events.drop_first();
        let rest = run_trace(first.0, rest_events);
        lemma_step_counts(s, events[0]);
        if first.0.stage == RunStage::Finished {
            lemma_finished_stays(first.0, rest_events);
        } else {
            law_one_ending_message_after_download(first.0, rest_events);
        }
        lemma_count_concat(first.1, rest.1, RunActionView::SendQuit);
        lemma_count_concat(first.1, rest.1, RunActionView::SendFinished);
    }
}

/// The downloaded file is deleted whether or not the replacement
/// succeeds: a run that is about to write the temporary file, or to
/// replace the executable with it, has deleted it by the time it is over.
pub proof fn law_temp_file_removed(s: RunStateView, events: Seq<RunEventView>)
    requires
        s.stage == RunStage::AwaitWrite || s.stage == RunStage::AwaitInstall,
    ensures
        run_trace(s, events).0.stage == RunStage::Finished ==> count_of(
            run_trace(s, events).1,
            RunActionView::RemoveTemp,
        ) >= 1,
    decreases events.len(),
{
    if events.len() > 0 {
        let first = run_step_of(s, events[0]);
        let rest_events = events.drop_first();
        let rest = run_trace(first.0, rest_events);
        lemma_step_counts(s, events[0]);
        lemma_count_concat(first.1, rest.1, RunActionView::RemoveTemp);
        if first.0.stage == s.stage || first.0.stage == RunStage::AwaitInstall {
            law_temp_file_removed(first.0, rest_events);
        }
    }
}

/// A run that finds another one holding the right does nothing but show
/// the busy notice (only when asked from the menu; silence at startup):
/// its acquire on the held guard fails and leaves the guard held, and the
/// run ends with no check, no file written, nothing sent, and the other
/// run's right not given back.
pub proof fn law_busy_run_does_nothing(manual: bool, current: Version, releases_page: Seq<char>)
    ensures
        !acquire_step(true).0,
        acquire_step(true).1,
        run_step_of(
            run_begin_of(manual, current, releases_page).0,
            RunEventView::Started { acquired: acquire_step(true).0 },
        ) == (
            with_stage(run_begin_of(manual, current, releases_page).0, RunStage::Finished),
            seq![RunActionView::Show(busy_notice_of(manual))],
        ),
        busy_notice_of(manual) is Info <==> manual,
        !manual ==> busy_notice_of(manual) is Silent,
{
}

/// Work whose outcome comes back as the next event.
pub open spec fn answered(a: RunActionView) -> bool {
    ||| a is Acquire
    ||| a is CheckInterval
    ||| a is Check
    ||| a matches RunActionView::Show(NoticeView::AskToUpdate(_))
    ||| a is Download
    ||| a is WriteTemp
    ||| a is Install
    ||| a is Restart
}

/// A step asks for an answer only with its last action, and a step that
/// changes the stage either asks for one or ends the run.
pub proof fn law_step_waits_for_one_answer(s: RunStateView, e: RunEventView)
    ensures
        ({
            let (t, acts) = run_step_of(s, e);
            &&& forall|i: int| 0 <= i < acts.len() - 1 ==> !answered(#[trigger] acts[i])
            &&& t.stage != s.stage ==> (t.stage == RunStage::Finished <==> (acts.len() == 0
                || !answered(acts.last())))
        }),
{
}

} // verus!
