//! The per-invocation orchestration state machine.
//!
//! One invocation drives one session: launch the engine, pump its events,
//! navigate (with a scripted fallback), settle, extract, and tear down on
//! every path. The decisions live here, verified; the unverified shell
//! performs each returned [`Action`] against the engine and feeds the
//! result back as an [`Event`], together with how long the step took.
//! A fixed deadline bounds the whole navigate–settle–extract sequence:
//! once it has expired, no step may produce a result.

use vstd::prelude::*;
use vstd::pervasive::unreached;
use crate::errors::{ErrorKind, Outcome, SessionError};
use crate::mode::ExtractionMode;
use crate::response::{
    document_response, image_response, is_document_response, is_image_response, matches_mode,
    response_wf, Response,
};
use crate::script::{nav_script_text, navigation_script};
use crate::title::{resolve_title, title_text, TitleOutcome};

verus! {

/// The deadline on the whole navigate–settle–extract sequence, in
/// milliseconds.
pub const DEADLINE_MS: u64 = 60_000;

/// The fixed unconditional delay after navigation, approximating network
/// idle, in milliseconds.
pub const SETTLE_MS: u64 = 5_000;

/// The fixed delay before an image capture, letting in-page animations
/// settle, in milliseconds.
pub const PRE_CAPTURE_MS: u64 = 2_000;

/// Where one invocation stands.
#[derive(Clone, Copy, PartialEq, Eq, Structural, Debug)]
pub enum Phase {
    /// The engine process is being launched.
    Launching,
    /// The engine is up and its event stream is being drained; a page is
    /// being opened.
    EventPumpActive,
    /// The direct navigation command is in flight.
    Navigating,
    /// The direct command failed; the scripted fallback is in flight.
    NavigatingFallback,
    /// Navigation was submitted; the completion signal is awaited.
    AwaitingSignal,
    /// The fixed post-navigation delay is running.
    Settling,
    /// The best-effort document-state probe is in flight.
    Probing,
    /// The title command is in flight.
    ReadingTitle,
    /// Document mode: the serialized document is being read.
    AwaitingDocument,
    /// Image mode: the fixed pre-capture delay is running.
    PreCaptureDelay,
    /// Image mode: the capture command is in flight.
    AwaitingImage,
    /// The sequence produced a result.
    Succeeded,
    /// The sequence failed with a fatal session-operation error.
    FailedFatal,
    /// The deadline expired before the sequence completed.
    FailedTimeout,
    /// The engine is being closed and the event pump cancelled.
    Closing,
    /// Teardown is over; nothing more may be issued against the session.
    Done,
}

/// How the navigation phase went; informational only, it never aborts
/// extraction.
#[derive(Clone, Copy, PartialEq, Eq, Structural, Debug)]
pub enum NavigationOutcome {
    /// The direct command succeeded and the completion signal arrived.
    Completed,
    /// The direct command failed but the scripted fallback succeeded.
    CompletedViaFallback,
    /// The completion signal never arrived; the page may still be usable.
    TimedOutWaitingForSignal,
}

/// What the shell observed while performing the last action. Failure
/// payloads carry the engine's diagnostic text.
#[derive(Debug)]
pub enum Event {
    /// The engine process and its connection are up and the event pump
    /// is running.
    Launched,
    LaunchFailed(String),
    PageCreated,
    PageCreateFailed(String),
    /// The navigation command (direct or fallback) was accepted.
    CommandOk,
    CommandFailed(String),
    SignalReceived,
    SignalTimedOut,
    /// A fixed delay elapsed.
    Slept,
    ProbeOk,
    ProbeFailed,
    TitleFound(String),
    TitleAbsent,
    TitleFailed,
    DocumentRead(String),
    DocumentFailed(String),
    ImageCaptured(Vec<u8>),
    ImageFailed(String),
    /// No outside work: take the next internal transition.
    Advance,
    Closed,
    CloseFailed,
}

/// What the shell must do next.
#[derive(PartialEq, Debug)]
pub enum Action {
    /// Launch the engine process and start draining its event stream.
    LaunchEngine,
    /// Open a blank page to drive.
    OpenPage,
    /// Issue the direct navigation command to the session's URL.
    NavigateDirect,
    /// Evaluate the given fallback navigation script on the page.
    EvaluateNavigationScript(String),
    /// Wait for the engine's navigation-finished signal.
    AwaitNavigationSignal,
    /// Sleep the fixed settle delay, in milliseconds.
    SleepSettle(u64),
    /// Evaluate the best-effort document-state probe.
    ProbeReadiness,
    /// Ask the engine for the page title.
    ReadTitle,
    /// Ask the engine for the serialized document.
    ReadDocument,
    /// Sleep the fixed pre-capture delay, in milliseconds.
    SleepPreCapture(u64),
    /// Ask the engine for a viewport-bounded image of the page.
    CaptureImage,
    /// Close the engine process and cancel the event pump.
    CloseEngineAndStopPump,
    /// No outside work: call `step` again with `Event::Advance`.
    Advance,
    /// The invocation is over; report the session's outcome.
    Finish,
}

/// One invocation's session: the machine's phase plus what the sequence
/// has established so far.
#[derive(Debug)]
pub struct Session {
    pub phase: Phase,
    /// The target URL, echoed in the result.
    pub url: String,
    /// The extraction mode the request selected.
    pub mode: ExtractionMode,
    /// Time spent so far, against the fixed deadline.
    pub elapsed_ms: u64,
    /// Whether navigation went through the scripted fallback.
    pub via_fallback: bool,
    /// How the navigation phase went, once known.
    pub nav_outcome: Option<NavigationOutcome>,
    /// The resolved title, once known.
    pub title: Option<String>,
    /// How the invocation ended, once terminal.
    pub outcome: Option<Outcome>,
}

/// Addition of step durations, saturating at the integer's top; the
/// deadline has long expired there anyway.
pub open spec fn sat_add(a: u64, b: u64) -> u64 {
    if a + b > u64::MAX {
        u64::MAX
    } else {
        (a + b) as u64
    }
}

/// The phases inside the deadline-guarded scope: everything between a
/// successful launch and a terminal state. Expiry supersedes whatever
/// event arrives there.
pub open spec fn in_deadline_scope(p: Phase) -> bool {
    match p {
        Phase::EventPumpActive | Phase::Navigating | Phase::NavigatingFallback
            | Phase::AwaitingSignal | Phase::Settling | Phase::Probing | Phase::ReadingTitle
            | Phase::AwaitingDocument | Phase::PreCaptureDelay | Phase::AwaitingImage => true,
        _ => false,
    }
}

/// The three ways a sequence can end; each must still pass through
/// `Closing` before the invocation is over.
pub open spec fn is_terminal_bound(p: Phase) -> bool {
    p is Succeeded || p is FailedFatal || p is FailedTimeout
}

/// The phases at or past a terminal state: exactly those where the
/// session carries an outcome.
pub open spec fn after_terminal(p: Phase) -> bool {
    is_terminal_bound(p) || p is Closing || p is Done
}

/// The phases that hold a resolved title.
pub open spec fn holds_title(p: Phase) -> bool {
    p is AwaitingDocument || p is PreCaptureDelay || p is AwaitingImage
}

/// Which events can answer which phase: the protocol between the machine
/// and the shell that drives it. No event fits `Done`: nothing may be
/// issued against a closed session.
pub open spec fn event_fits(p: Phase, ev: Event) -> bool {
    match p {
        Phase::Launching => ev is Launched || ev is LaunchFailed,
        Phase::EventPumpActive => ev is PageCreated || ev is PageCreateFailed,
        Phase::Navigating => ev is CommandOk || ev is CommandFailed,
        Phase::NavigatingFallback => ev is CommandOk || ev is CommandFailed,
        Phase::AwaitingSignal => ev is SignalReceived || ev is SignalTimedOut,
        Phase::Settling => ev is Slept,
        Phase::Probing => ev is ProbeOk || ev is ProbeFailed,
        Phase::ReadingTitle => ev is TitleFound || ev is TitleAbsent || ev is TitleFailed,
        Phase::AwaitingDocument => ev is DocumentRead || ev is DocumentFailed,
        Phase::PreCaptureDelay => ev is Slept,
        Phase::AwaitingImage => ev is ImageCaptured || ev is ImageFailed,
        Phase::Succeeded | Phase::FailedFatal | Phase::FailedTimeout => ev is Advance,
        Phase::Closing => ev is Closed || ev is CloseFailed,
        Phase::Done => false,
    }
}

/// A session's internal invariant: an outcome exists exactly at and past
/// a terminal state and agrees with it; a successful outcome's result is
/// well-formed, answers the session's mode, and echoes its URL; the
/// phases that need a title have one.
pub open spec fn session_wf(s: Session) -> bool {
    &&& s.outcome is Some <==> after_terminal(s.phase)
    &&& (s.outcome matches Some(Outcome::Success(r)) ==> response_wf(r) && matches_mode(r, s.mode)
        && r.url@ == s.url@)
    &&& (s.phase is Succeeded ==> (s.outcome matches Some(o) && o is Success))
    &&& (s.phase is FailedTimeout ==> s.outcome == Some(Outcome::Timeout))
    &&& (s.phase is FailedFatal ==> (s.outcome matches Some(o) && o is Fatal))
    &&& (holds_title(s.phase) ==> s.title is Some)
    &&& (s.phase is AwaitingDocument ==> s.mode is Document)
    &&& ((s.phase is PreCaptureDelay || s.phase is AwaitingImage) ==> s.mode is Image)
}

/// The fields a step never touches besides the listed ones.
pub open spec fn keeps_aux(pre: Session, post: Session) -> bool {
    &&& post.via_fallback == pre.via_fallback
    &&& post.nav_outcome == pre.nav_outcome
    &&& post.title == pre.title
    &&& post.outcome == pre.outcome
}

/// A step that ends the sequence with a fatal session-operation error of
/// the given kind and diagnostic.
pub open spec fn fatal_step(pre: Session, post: Session, a: Action, kind: ErrorKind, detail: Seq<char>) -> bool {
    &&& post.phase is FailedFatal
    &&& post.outcome matches Some(Outcome::Fatal(e)) && e.kind == kind && e.detail@ == detail
    &&& post.via_fallback == pre.via_fallback
    &&& post.nav_outcome == pre.nav_outcome
    &&& post.title == pre.title
    &&& a == Action::Advance
}

/// The title outcome a title event reports.
pub open spec fn title_outcome_of(ev: Event) -> TitleOutcome {
    match ev {
        Event::TitleFound(t) => TitleOutcome::Found(t),
        Event::TitleFailed => TitleOutcome::ReadFailed,
        _ => TitleOutcome::Absent,
    }
}

/// The machine's transition relation: what one `step` does to the session
/// and which action it hands the shell, given the event and how long the
/// step took. Expiry of the deadline inside the guarded scope supersedes
/// the event. Where the event does not fit the phase the relation is
/// false; `step` requires a fitting event.
pub open spec fn step_rel(pre: Session, ev: Event, dt: u64, post: Session, a: Action) -> bool {
    let e2 = sat_add(pre.elapsed_ms, dt);
    &&& post.url == pre.url
    &&& post.mode == pre.mode
    &&& post.elapsed_ms == e2
    &&& if in_deadline_scope(pre.phase) && e2 >= DEADLINE_MS {
        &&& post.phase is FailedTimeout
        &&& post.outcome == Some(Outcome::Timeout)
        &&& post.via_fallback == pre.via_fallback
        &&& post.nav_outcome == pre.nav_outcome
        &&& post.title == pre.title
        &&& a == Action::Advance
    } else {
        match pre.phase {
            Phase::Launching => match ev {
                Event::Launched => {
                    &&& post.phase is EventPumpActive
                    &&& keeps_aux(pre, post)
                    &&& a == Action::OpenPage
                },
                Event::LaunchFailed(d) => fatal_step(pre, post, a, ErrorKind::Launch, d@),
                _ => false,
            },
            Phase::EventPumpActive => match ev {
                Event::PageCreated => {
                    &&& post.phase is Navigating
                    &&& keeps_aux(pre, post)
                    &&& a == Action::NavigateDirect
                },
                Event::PageCreateFailed(d) => fatal_step(pre, post, a, ErrorKind::PageCreate, d@),
                _ => false,
            },
            Phase::Navigating => match ev {
                Event::CommandOk => {
                    &&& post.phase is AwaitingSignal
                    &&& keeps_aux(pre, post)
                    &&& a == Action::AwaitNavigationSignal
                },
                Event::CommandFailed(_) => {
                    // Non-fatal: fall back to the scripted navigation.
                    &&& post.phase is NavigatingFallback
                    &&& keeps_aux(pre, post)
                    &&& a matches Action::EvaluateNavigationScript(sc) && sc@ == nav_script_text(
                        pre.url@,
                    )
                },
                _ => false,
            },
            Phase::NavigatingFallback => match ev {
                Event::CommandOk => {
                    &&& post.phase is AwaitingSignal
                    &&& post.via_fallback == true
                    &&& post.nav_outcome == pre.nav_outcome
                    &&& post.title == pre.title
                    &&& post.outcome == pre.outcome
                    &&& a == Action::AwaitNavigationSignal
                },
                Event::CommandFailed(d) => fatal_step(
                    pre,
                    post,
                    a,
                    ErrorKind::NavigationFallback,
                    d@,
                ),
                _ => false,
            },
            Phase::AwaitingSignal => match ev {
                Event::SignalReceived => {
                    &&& post.phase is Settling
                    &&& post.nav_outcome == Some(
                        if pre.via_fallback {
                            NavigationOutcome::CompletedViaFallback
                        } else {
                            NavigationOutcome::Completed
                        },
                    )
                    &&& post.via_fallback == pre.via_fallback
                    &&& post.title == pre.title
                    &&& post.outcome == pre.outcome
                    &&& a == Action::SleepSettle(SETTLE_MS)
                },
                Event::SignalTimedOut => {
                    // Recovered: the page may still be usable.
                    &&& post.phase is Settling
                    &&& post.nav_outcome == Some(NavigationOutcome::TimedOutWaitingForSignal)
                    &&& post.via_fallback == pre.via_fallback
                    &&& post.title == pre.title
                    &&& post.outcome == pre.outcome
                    &&& a == Action::SleepSettle(SETTLE_MS)
                },
                _ => false,
            },
            Phase::Settling => match ev {
                Event::Slept => {
                    &&& post.phase is Probing
                    &&& keeps_aux(pre, post)
                    &&& a == Action::ProbeReadiness
                },
                _ => false,
            },
            Phase::Probing => match ev {
                // The probe is diagnostic only: either way, read the title.
                Event::ProbeOk | Event::ProbeFailed => {
                    &&& post.phase is ReadingTitle
                    &&& keeps_aux(pre, post)
                    &&& a == Action::ReadTitle
                },
                _ => false,
            },
            Phase::ReadingTitle => match ev {
                Event::TitleFound(_) | Event::TitleAbsent | Event::TitleFailed => {
                    &&& post.title matches Some(t) && t@ == title_text(title_outcome_of(ev))
                    &&& post.via_fallback == pre.via_fallback
                    &&& post.nav_outcome == pre.nav_outcome
                    &&& post.outcome == pre.outcome
                    &&& (pre.mode is Document ==> post.phase is AwaitingDocument && a
                        == Action::ReadDocument)
                    &&& (pre.mode is Image ==> post.phase is PreCaptureDelay && a
                        == Action::SleepPreCapture(PRE_CAPTURE_MS))
                },
                _ => false,
            },
            Phase::AwaitingDocument => match ev {
                Event::DocumentRead(html) => {
                    &&& post.phase is Succeeded
                    &&& post.outcome matches Some(Outcome::Success(r)) && is_document_response(
                        r,
                        pre.title->0@,
                        pre.url@,
                        html@,
                    )
                    &&& post.via_fallback == pre.via_fallback
                    &&& post.nav_outcome == pre.nav_outcome
                    &&& post.title == pre.title
                    &&& a == Action::Advance
                },
                Event::DocumentFailed(d) => fatal_step(pre, post, a, ErrorKind::Extraction, d@),
                _ => false,
            },
            Phase::PreCaptureDelay => match ev {
                Event::Slept => {
                    &&& post.phase is AwaitingImage
                    &&& keeps_aux(pre, post)
                    &&& a == Action::CaptureImage
                },
                _ => false,
            },
            Phase::AwaitingImage => match ev {
                Event::ImageCaptured(bytes) => {
                    &&& post.phase is Succeeded
                    &&& post.outcome matches Some(Outcome::Success(r)) && is_image_response(
                        r,
                        pre.title->0@,
                        pre.url@,
                        bytes@,
                    )
                    &&& post.via_fallback == pre.via_fallback
                    &&& post.nav_outcome == pre.nav_outcome
                    &&& post.title == pre.title
                    &&& a == Action::Advance
                },
                Event::ImageFailed(d) => fatal_step(pre, post, a, ErrorKind::Extraction, d@),
                _ => false,
            },
            Phase::Succeeded | Phase::FailedFatal | Phase::FailedTimeout => match ev {
                Event::Advance => {
                    &&& post.phase is Closing
                    &&& keeps_aux(pre, post)
                    &&& a == Action::CloseEngineAndStopPump
                },
                _ => false,
            },
            Phase::Closing => match ev {
                // Teardown failures are suppressed: they never override
                // the outcome.
                Event::Closed | Event::CloseFailed => {
                    &&& post.phase is Done
                    &&& keeps_aux(pre, post)
                    &&& a == Action::Finish
                },
                _ => false,
            },
            Phase::Done => false,
        }
    }
}

/// Open one invocation's session for a target URL and an optional mode
/// string; the first action is to launch the engine.
pub fn start(url: String, mode: ExtractionMode) -> (r: (Session, Action))
    ensures
        r.0.phase is Launching,
        r.0.url == url,
        r.0.mode == mode,
        r.0.elapsed_ms == 0,
        r.0.via_fallback == false,
        r.0.nav_outcome is None,
        r.0.title is None,
        r.0.outcome is None,
        session_wf(r.0),
        r.1 == Action::LaunchEngine,
{
    let s = Session {
        phase: Phase::Launching,
        url,
        mode,
        elapsed_ms: 0,
        via_fallback: false,
        nav_outcome: None,
        title: None,
        outcome: None,
    };
    (s, Action::LaunchEngine)
}

/// Whether the phase lies inside the deadline-guarded scope.
fn guarded_now(p: Phase) -> (b: bool)
    ensures
        b == in_deadline_scope(p),
{
    match p {
        Phase::EventPumpActive | Phase::Navigating | Phase::NavigatingFallback
            | Phase::AwaitingSignal | Phase::Settling | Phase::Probing | Phase::ReadingTitle
            | Phase::AwaitingDocument | Phase::PreCaptureDelay | Phase::AwaitingImage => true,
        _ => false,
    }
}

/// Take one step of the machine: account the step's duration against the
/// deadline, then transition on the event and hand back the next action.
pub fn step(s: &mut Session, ev: Event, dt_ms: u64) -> (a: Action)
    requires
        session_wf(*old(s)),
        event_fits(old(s).phase, ev),
        ev matches Event::ImageCaptured(bytes) ==> 4 * ((bytes@.len() + 2) / 3) <= usize::MAX,
    ensures
        step_rel(*old(s), ev, dt_ms, *final(s), a),
        session_wf(*final(s)),
{
    let e2: u64 = if dt_ms > u64::MAX - s.elapsed_ms {
        u64::MAX
    } else {
        s.elapsed_ms + dt_ms
    };
    s.elapsed_ms = e2;
    if guarded_now(s.phase) && e2 >= DEADLINE_MS {
        s.phase = Phase::FailedTimeout;
        s.outcome = Some(Outcome::Timeout);
        return Action::Advance;
    }
    match s.phase {
        Phase::Launching => match ev {
            Event::Launched => {
                s.phase = Phase::EventPumpActive;
                Action::OpenPage
            },
            Event::LaunchFailed(d) => {
                s.phase = Phase::FailedFatal;
                s.outcome = Some(Outcome::Fatal(SessionError { kind: ErrorKind::Launch, detail: d }));
                Action::Advance
            },
            _ => unreached(),
        },
        Phase::EventPumpActive => match ev {
            Event::PageCreated => {
                s.phase = Phase::Navigating;
                Action::NavigateDirect
            },
            Event::PageCreateFailed(d) => {
                s.phase = Phase::FailedFatal;
                s.outcome = Some(
                    Outcome::Fatal(SessionError { kind: ErrorKind::PageCreate, detail: d }),
                );
                Action::Advance
            },
            _ => unreached(),
        },
        Phase::Navigating => match ev {
            Event::CommandOk => {
                s.phase = Phase::AwaitingSignal;
                Action::AwaitNavigationSignal
            },
            Event::CommandFailed(_) => {
                s.phase = Phase::NavigatingFallback;
                Action::EvaluateNavigationScript(navigation_script(s.url.as_str()))
            },
            _ => unreached(),
        },
        Phase::NavigatingFallback => match ev {
            Event::CommandOk => {
                s.phase = Phase::AwaitingSignal;
                s.via_fallback = true;
                Action::AwaitNavigationSignal
            },
            Event::CommandFailed(d) => {
                s.phase = Phase::FailedFatal;
                s.outcome = Some(
                    Outcome::Fatal(
                        SessionError { kind: ErrorKind::NavigationFallback, detail: d },
                    ),
                );
                Action::Advance
            },
            _ => unreached(),
        },
        Phase::AwaitingSignal => match ev {
            Event::SignalReceived => {
                s.phase = Phase::Settling;
                s.nav_outcome = Some(
                    if s.via_fallback {
                        NavigationOutcome::CompletedViaFallback
                    } else {
                        NavigationOutcome::Completed
                    },
                );
                Action::SleepSettle(SETTLE_MS)
            },
            Event::SignalTimedOut => {
                s.phase = Phase::Settling;
                s.nav_outcome = Some(NavigationOutcome::TimedOutWaitingForSignal);
                Action::SleepSettle(SETTLE_MS)
            },
            _ => unreached(),
        },
        Phase::Settling => match ev {
            Event::Slept => {
                s.phase = Phase::Probing;
                Action::ProbeReadiness
            },
            _ => unreached(),
        },
        Phase::Probing => match ev {
            Event::ProbeOk | Event::ProbeFailed => {
                s.phase = Phase::ReadingTitle;
                Action::ReadTitle
            },
            _ => unreached(),
        },
        Phase::ReadingTitle => {
            let title: String = match ev {
                Event::TitleFound(t) => resolve_title(TitleOutcome::Found(t)),
                Event::TitleAbsent => resolve_title(TitleOutcome::Absent),
                Event::TitleFailed => resolve_title(TitleOutcome::ReadFailed),
                _ => unreached(),
            };
            s.title = Some(title);
            match s.mode {
                ExtractionMode::Document => {
                    s.phase = Phase::AwaitingDocument;
                    Action::ReadDocument
                },
                ExtractionMode::Image => {
                    s.phase = Phase::PreCaptureDelay;
                    Action::SleepPreCapture(PRE_CAPTURE_MS)
                },
            }
        },
        Phase::AwaitingDocument => match ev {
            Event::DocumentRead(html) => {
                let title: String = match &s.title {
                    Some(t) => t.clone(),
                    None => unreached(),
                };
                let r = document_response(title, s.url.clone(), html);
                s.phase = Phase::Succeeded;
                s.outcome = Some(Outcome::Success(r));
                Action::Advance
            },
            Event::DocumentFailed(d) => {
                s.phase = Phase::FailedFatal;
                s.outcome = Some(
                    Outcome::Fatal(SessionError { kind: ErrorKind::Extraction, detail: d }),
                );
                Action::Advance
            },
            _ => unreached(),
        },
        Phase::PreCaptureDelay => match ev {
            Event::Slept => {
                s.phase = Phase::AwaitingImage;
                Action::CaptureImage
            },
            _ => unreached(),
        },
        Phase::AwaitingImage => match ev {
            Event::ImageCaptured(bytes) => {
                let title: String = match &s.title {
                    Some(t) => t.clone(),
                    None => unreached(),
                };
                let r = image_response(title, s.url.clone(), &bytes);
                s.phase = Phase::Succeeded;
                s.outcome = Some(Outcome::Success(r));
                Action::Advance
            },
            Event::ImageFailed(d) => {
                s.phase = Phase::FailedFatal;
                s.outcome = Some(
                    Outcome::Fatal(SessionError { kind: ErrorKind::Extraction, detail: d }),
                );
                Action::Advance
            },
            _ => unreached(),
        },
        Phase::Succeeded | Phase::FailedFatal | Phase::FailedTimeout => match ev {
            Event::Advance => {
                s.phase = Phase::Closing;
                Action::CloseEngineAndStopPump
            },
            _ => unreached(),
        },
        Phase::Closing => match ev {
            Event::Closed | Event::CloseFailed => {
                s.phase = Phase::Done;
                Action::Finish
            },
            _ => unreached(),
        },
        Phase::Done => unreached(),
    }
}

/// If the direct navigation command fails but the scripted fallback
/// succeeds, the session proceeds (to the completion-signal wait, and so
/// to extraction) instead of failing: the first step hands the shell the
/// fallback script for the session's URL, and after the second the
/// session carries no failure outcome.
pub proof fn lemma_fallback_rescues_navigation(
    pre: Session,
    detail: String,
    dt1: u64,
    mid: Session,
    a1: Action,
    dt2: u64,
    post: Session,
    a2: Action,
)
    requires
        session_wf(pre),
        pre.phase is Navigating,
        step_rel(pre, Event::CommandFailed(detail), dt1, mid, a1),
        sat_add(pre.elapsed_ms, dt1) < DEADLINE_MS,
        step_rel(mid, Event::CommandOk, dt2, post, a2),
        sat_add(mid.elapsed_ms, dt2) < DEADLINE_MS,
    ensures
        mid.phase is NavigatingFallback,
        a1 matches Action::EvaluateNavigationScript(sc) && sc@ == nav_script_text(pre.url@),
        post.phase is AwaitingSignal,
        post.via_fallback,
        post.outcome is None,
        a2 == Action::AwaitNavigationSignal,
{
}

/// If both navigation paths fail, the invocation fails with a fatal
/// navigation error and no result: the outcome is the fallback failure,
/// never a success.
pub proof fn lemma_both_navigation_paths_fail(
    pre: Session,
    detail: String,
    dt: u64,
    post: Session,
    a: Action,
)
    requires
        pre.phase is NavigatingFallback,
        step_rel(pre, Event::CommandFailed(detail), dt, post, a),
        sat_add(pre.elapsed_ms, dt) < DEADLINE_MS,
    ensures
        post.phase is FailedFatal,
        post.outcome matches Some(Outcome::Fatal(e)) && e.kind == ErrorKind::NavigationFallback
            && e.detail@ == detail@,
        forall|r: Response| post.outcome != Some(Outcome::Success(r)),
{
}

/// Once the deadline has expired inside the guarded scope, the step fails
/// with the deadline outcome whatever event arrives — no step produces a
/// result after expiry — and that outcome is distinguishable from every
/// session-operation error and every success.
pub proof fn lemma_deadline_supersedes(pre: Session, ev: Event, dt: u64, post: Session, a: Action)
    requires
        in_deadline_scope(pre.phase),
        sat_add(pre.elapsed_ms, dt) >= DEADLINE_MS,
        step_rel(pre, ev, dt, post, a),
    ensures
        post.phase is FailedTimeout,
        post.outcome == Some(Outcome::Timeout),
        forall|e: SessionError| post.outcome != Some(Outcome::Fatal(e)),
        forall|r: Response| post.outcome != Some(Outcome::Success(r)),
{
}

/// From every terminal-bound state — success, fatal error, and timeout
/// alike — the next step enters `Closing` and instructs the shell to
/// close the engine and cancel the event pump, keeping the outcome.
pub proof fn lemma_teardown_on_every_outcome(
    pre: Session,
    ev: Event,
    dt: u64,
    post: Session,
    a: Action,
)
    requires
        is_terminal_bound(pre.phase),
        step_rel(pre, ev, dt, post, a),
    ensures
        post.phase is Closing,
        a == Action::CloseEngineAndStopPump,
        post.outcome == pre.outcome,
{
}

/// The session can only finish through teardown: `Done` is reached only
/// from `Closing`, `Closing` only from a terminal-bound state by the
/// teardown action, and teardown failures never change the outcome. No
/// event fits a `Done` session, so nothing is issued after close.
pub proof fn lemma_no_exit_without_teardown(pre: Session, ev: Event, dt: u64, post: Session, a: Action)
    requires
        step_rel(pre, ev, dt, post, a),
    ensures
        post.phase is Done ==> pre.phase is Closing && post.outcome == pre.outcome
            && a == Action::Finish,
        post.phase is Closing ==> is_terminal_bound(pre.phase)
            && a == Action::CloseEngineAndStopPump && post.outcome == pre.outcome,
        forall|later: Event| !event_fits(Phase::Done, later),
{
}

/// Title retrieval failures or absence never abort the invocation: from
/// the title phase, within the deadline, every title event proceeds to
/// extraction with no failure outcome, and the failure cases resolve to
/// the fixed sentinel titles.
pub proof fn lemma_title_failure_never_aborts(
    pre: Session,
    ev: Event,
    dt: u64,
    post: Session,
    a: Action,
)
    requires
        pre.phase is ReadingTitle,
        event_fits(pre.phase, ev),
        step_rel(pre, ev, dt, post, a),
        sat_add(pre.elapsed_ms, dt) < DEADLINE_MS,
    ensures
        !(post.phase is FailedFatal),
        !(post.phase is FailedTimeout),
        post.outcome == pre.outcome,
        ev is TitleAbsent ==> (post.title matches Some(t) && t@ == "No title found"@),
        ev is TitleFailed ==> (post.title matches Some(t) && t@ == "Error getting title"@),
{
}

/// A successful outcome of a well-formed session populates exactly the
/// pair its mode asked for: the document pair in document mode, the image
/// pair in image mode, the other pair absent.
pub proof fn lemma_success_answers_mode(s: Session)
    requires
        session_wf(s),
        s.outcome matches Some(o) && o is Success,
    ensures
        s.outcome matches Some(Outcome::Success(r)) && response_wf(r) && matches_mode(r, s.mode),
        s.mode is Document ==> (s.outcome matches Some(Outcome::Success(r)) && r.html is Some
            && r.content_length is Some && r.screenshot is None && r.screenshot_size is None),
        s.mode is Image ==> (s.outcome matches Some(Outcome::Success(r)) && r.screenshot is Some
            && r.screenshot_size is Some && r.html is None && r.content_length is None),
{
}

} // verus!
