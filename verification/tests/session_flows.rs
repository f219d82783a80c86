use render_session::errors::{ErrorKind, Outcome};
use render_session::mode::{select_mode, ExtractionMode};
use render_session::session::{start, step, Action, Event, NavigationOutcome, Phase, Session};

/// Drive a fresh session up to the title phase with a successful direct
/// navigation, returning it together with the actions seen so far.
fn drive_to_title(mode: ExtractionMode) -> Session {
    let (mut s, a0) = start("https://example.com".to_string(), mode);
    assert_eq!(a0, Action::LaunchEngine);
    assert_eq!(step(&mut s, Event::Launched, 100), Action::OpenPage);
    assert_eq!(step(&mut s, Event::PageCreated, 100), Action::NavigateDirect);
    assert_eq!(step(&mut s, Event::CommandOk, 100), Action::AwaitNavigationSignal);
    assert_eq!(step(&mut s, Event::SignalReceived, 100), Action::SleepSettle(5_000));
    assert_eq!(s.nav_outcome, Some(NavigationOutcome::Completed));
    assert_eq!(step(&mut s, Event::Slept, 5_000), Action::ProbeReadiness);
    assert_eq!(step(&mut s, Event::ProbeOk, 50), Action::ReadTitle);
    assert_eq!(s.phase, Phase::ReadingTitle);
    s
}

/// Tear a terminal session down, asserting the engine close and pump
/// cancellation really run, and hand back the final outcome.
fn teardown(s: &mut Session) -> Outcome {
    assert_eq!(step(s, Event::Advance, 0), Action::CloseEngineAndStopPump);
    assert_eq!(s.phase, Phase::Closing);
    assert_eq!(step(s, Event::Closed, 200), Action::Finish);
    assert_eq!(s.phase, Phase::Done);
    s.outcome.clone().expect("a finished session carries an outcome")
}

#[test]
fn scenario_html_mode_returns_document_pair() {
    let mode = select_mode(&Some("html".to_string()));
    let mut s = drive_to_title(mode);
    assert_eq!(
        step(&mut s, Event::TitleFound("Example Domain".to_string()), 50),
        Action::ReadDocument
    );
    let html = "<html><body>Example</body></html>".to_string();
    assert_eq!(step(&mut s, Event::DocumentRead(html.clone()), 100), Action::Advance);
    assert_eq!(s.phase, Phase::Succeeded);
    match teardown(&mut s) {
        Outcome::Success(r) => {
            assert_eq!(r.message, "Successfully processed page");
            assert_eq!(r.title, "Example Domain");
            assert_eq!(r.url, "https://example.com");
            assert_eq!(r.content_length, Some(html.len()));
            assert_eq!(r.html, Some(html));
            assert_eq!(r.screenshot, None);
            assert_eq!(r.screenshot_size, None);
        },
        other => panic!("expected success, got {:?}", other),
    }
}

#[test]
fn scenario_mode_omitted_returns_image_pair() {
    let mode = select_mode(&None);
    let mut s = drive_to_title(mode);
    assert_eq!(
        step(&mut s, Event::TitleFound("Example Domain".to_string()), 50),
        Action::SleepPreCapture(2_000)
    );
    assert_eq!(step(&mut s, Event::Slept, 2_000), Action::CaptureImage);
    let bytes: Vec<u8> = b"hello".to_vec();
    assert_eq!(step(&mut s, Event::ImageCaptured(bytes), 100), Action::Advance);
    assert_eq!(s.phase, Phase::Succeeded);
    match teardown(&mut s) {
        Outcome::Success(r) => {
            assert_eq!(r.screenshot, Some("aGVsbG8=".to_string()));
            assert_eq!(r.screenshot_size, Some(5));
            assert_eq!(r.html, None);
            assert_eq!(r.content_length, None);
        },
        other => panic!("expected success, got {:?}", other),
    }
}

#[test]
fn scenario_unrecognized_mode_behaves_as_screenshot() {
    let mode = select_mode(&Some("pdf".to_string()));
    let mut s = drive_to_title(mode);
    assert_eq!(
        step(&mut s, Event::TitleAbsent, 50),
        Action::SleepPreCapture(2_000)
    );
    assert_eq!(step(&mut s, Event::Slept, 2_000), Action::CaptureImage);
    assert_eq!(step(&mut s, Event::ImageCaptured(vec![1u8, 2, 3]), 100), Action::Advance);
    match teardown(&mut s) {
        Outcome::Success(r) => {
            assert_eq!(r.title, "No title found");
            assert!(r.screenshot.is_some());
            assert_eq!(r.screenshot_size, Some(3));
            assert_eq!(r.html, None);
        },
        other => panic!("expected success, got {:?}", other),
    }
}

#[test]
fn fallback_navigation_rescues_the_session() {
    let (mut s, _) = start("https://example.com".to_string(), ExtractionMode::Image);
    step(&mut s, Event::Launched, 100);
    step(&mut s, Event::PageCreated, 100);
    let a = step(&mut s, Event::CommandFailed("net::ERR_ABORTED".to_string()), 100);
    match a {
        Action::EvaluateNavigationScript(sc) => {
            assert_eq!(sc, "window.location.href = 'https://example.com'");
        },
        other => panic!("expected the fallback script, got {:?}", other),
    }
    assert_eq!(s.phase, Phase::NavigatingFallback);
    assert_eq!(step(&mut s, Event::CommandOk, 100), Action::AwaitNavigationSignal);
    assert_eq!(s.phase, Phase::AwaitingSignal);
    assert!(s.outcome.is_none());
    assert_eq!(step(&mut s, Event::SignalReceived, 100), Action::SleepSettle(5_000));
    assert_eq!(s.nav_outcome, Some(NavigationOutcome::CompletedViaFallback));
}

#[test]
fn scenario_both_navigation_paths_fail() {
    let (mut s, _) = start("https://bad.invalid".to_string(), ExtractionMode::Image);
    step(&mut s, Event::Launched, 100);
    step(&mut s, Event::PageCreated, 100);
    step(&mut s, Event::CommandFailed("net::ERR_NAME_NOT_RESOLVED".to_string()), 100);
    let a = step(&mut s, Event::CommandFailed("net::ERR_NAME_NOT_RESOLVED".to_string()), 100);
    assert_eq!(a, Action::Advance);
    assert_eq!(s.phase, Phase::FailedFatal);
    match teardown(&mut s) {
        Outcome::Fatal(e) => {
            assert_eq!(e.kind, ErrorKind::NavigationFallback);
            assert_eq!(e.detail, "net::ERR_NAME_NOT_RESOLVED");
        },
        other => panic!("expected a fatal navigation error, got {:?}", other),
    }
}

#[test]
fn signal_timeout_is_not_fatal() {
    let (mut s, _) = start("https://example.com".to_string(), ExtractionMode::Image);
    step(&mut s, Event::Launched, 100);
    step(&mut s, Event::PageCreated, 100);
    step(&mut s, Event::CommandOk, 100);
    assert_eq!(step(&mut s, Event::SignalTimedOut, 9_000), Action::SleepSettle(5_000));
    assert_eq!(s.phase, Phase::Settling);
    assert_eq!(s.nav_outcome, Some(NavigationOutcome::TimedOutWaitingForSignal));
    assert!(s.outcome.is_none());
}

#[test]
fn probe_failure_is_ignored() {
    let (mut s, _) = start("https://example.com".to_string(), ExtractionMode::Image);
    step(&mut s, Event::Launched, 100);
    step(&mut s, Event::PageCreated, 100);
    step(&mut s, Event::CommandOk, 100);
    step(&mut s, Event::SignalReceived, 100);
    step(&mut s, Event::Slept, 5_000);
    assert_eq!(step(&mut s, Event::ProbeFailed, 50), Action::ReadTitle);
    assert_eq!(s.phase, Phase::ReadingTitle);
    assert!(s.outcome.is_none());
}

#[test]
fn title_read_failure_yields_sentinel_and_proceeds() {
    let mut s = drive_to_title(ExtractionMode::Document);
    assert_eq!(step(&mut s, Event::TitleFailed, 50), Action::ReadDocument);
    assert!(s.outcome.is_none());
    let html = "<html></html>".to_string();
    step(&mut s, Event::DocumentRead(html), 100);
    match teardown(&mut s) {
        Outcome::Success(r) => assert_eq!(r.title, "Error getting title"),
        other => panic!("expected success, got {:?}", other),
    }
}

#[test]
fn scenario_slow_engine_hits_the_deadline() {
    let (mut s, _) = start("https://example.com".to_string(), ExtractionMode::Image);
    step(&mut s, Event::Launched, 100);
    step(&mut s, Event::PageCreated, 100);
    step(&mut s, Event::CommandOk, 100);
    // The settle sleep comes back only after the 60-second budget is gone.
    let a = step(&mut s, Event::SignalReceived, 61_000);
    assert_eq!(a, Action::Advance);
    assert_eq!(s.phase, Phase::FailedTimeout);
    // The engine is still closed afterward.
    let outcome = teardown(&mut s);
    assert_eq!(outcome, Outcome::Timeout);
    assert_eq!(
        render_session::errors::outcome_message(&outcome),
        "Operation timed out after 60 seconds"
    );
    // The deadline error is a kind of its own, not a session-operation error.
    assert!(!matches!(outcome, Outcome::Fatal(_)));
}

#[test]
fn expiry_supersedes_a_late_result() {
    let mut s = drive_to_title(ExtractionMode::Document);
    step(&mut s, Event::TitleFound("T".to_string()), 50);
    // The document arrives, but only after the deadline: no result.
    let a = step(&mut s, Event::DocumentRead("<html></html>".to_string()), 60_000);
    assert_eq!(a, Action::Advance);
    assert_eq!(s.phase, Phase::FailedTimeout);
    assert_eq!(teardown(&mut s), Outcome::Timeout);
}

#[test]
fn teardown_runs_after_success_failure_and_timeout() {
    // Success path.
    let mut ok = drive_to_title(ExtractionMode::Document);
    step(&mut ok, Event::TitleAbsent, 50);
    step(&mut ok, Event::DocumentRead("<html></html>".to_string()), 100);
    assert_eq!(step(&mut ok, Event::Advance, 0), Action::CloseEngineAndStopPump);

    // Fatal path.
    let (mut bad, _) = start("https://bad.invalid".to_string(), ExtractionMode::Image);
    step(&mut bad, Event::Launched, 100);
    step(&mut bad, Event::PageCreated, 100);
    step(&mut bad, Event::CommandFailed("refused".to_string()), 100);
    step(&mut bad, Event::CommandFailed("refused".to_string()), 100);
    assert_eq!(step(&mut bad, Event::Advance, 0), Action::CloseEngineAndStopPump);

    // Timeout path.
    let (mut slow, _) = start("https://example.com".to_string(), ExtractionMode::Image);
    step(&mut slow, Event::Launched, 100);
    step(&mut slow, Event::PageCreated, 70_000);
    assert_eq!(step(&mut slow, Event::Advance, 0), Action::CloseEngineAndStopPump);

    // A teardown failure is suppressed: the outcome stands.
    assert_eq!(step(&mut slow, Event::CloseFailed, 100), Action::Finish);
    assert_eq!(slow.phase, Phase::Done);
    assert_eq!(slow.outcome, Some(Outcome::Timeout));
}

#[test]
fn extraction_failure_is_fatal() {
    let mut s = drive_to_title(ExtractionMode::Document);
    step(&mut s, Event::TitleAbsent, 50);
    assert_eq!(step(&mut s, Event::DocumentFailed("target crashed".to_string()), 100), Action::Advance);
    match teardown(&mut s) {
        Outcome::Fatal(e) => {
            assert_eq!(e.kind, ErrorKind::Extraction);
            assert_eq!(e.detail, "target crashed");
        },
        other => panic!("expected a fatal extraction error, got {:?}", other),
    }
}

#[test]
fn page_creation_failure_is_fatal() {
    let (mut s, _) = start("https://example.com".to_string(), ExtractionMode::Image);
    step(&mut s, Event::Launched, 100);
    assert_eq!(
        step(&mut s, Event::PageCreateFailed("no target".to_string()), 100),
        Action::Advance
    );
    assert_eq!(s.phase, Phase::FailedFatal);
    match teardown(&mut s) {
        Outcome::Fatal(e) => {
            assert_eq!(e.kind, ErrorKind::PageCreate);
            assert_eq!(e.detail, "no target");
        },
        other => panic!("expected a fatal page-creation error, got {:?}", other),
    }
}

#[test]
fn launch_failure_is_fatal_and_still_torn_down() {
    let (mut s, _) = start("https://example.com".to_string(), ExtractionMode::Image);
    assert_eq!(step(&mut s, Event::LaunchFailed("no executable".to_string()), 100), Action::Advance);
    assert_eq!(s.phase, Phase::FailedFatal);
    match teardown(&mut s) {
        Outcome::Fatal(e) => assert_eq!(e.kind, ErrorKind::Launch),
        other => panic!("expected a fatal launch error, got {:?}", other),
    }
}
