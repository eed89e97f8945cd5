use ffmpeg_setup::driver::DriverAction;
use ffmpeg_setup::driver::DriverEvent;
use ffmpeg_setup::driver::DriverState;
use ffmpeg_setup::driver::FinishReason;
use ffmpeg_setup::driver::parse_consent;
use ffmpeg_setup::driver::step;

#[test]
fn consent_lines_parse_case_insensitively() {
    assert_eq!(parse_consent(&b"Y\n".to_vec()), Some(true));
    assert_eq!(parse_consent(&b" y \r\n".to_vec()), Some(true));
    assert_eq!(parse_consent(&b"N".to_vec()), Some(false));
    assert_eq!(parse_consent(&b"n  ".to_vec()), Some(false));
    assert_eq!(parse_consent(&b"yes".to_vec()), None);
    assert_eq!(parse_consent(&b"".to_vec()), None);
    assert_eq!(parse_consent(&b"q".to_vec()), None);
}

#[test]
fn found_executable_ends_the_run() {
    let (state, action) = step(
        DriverState::ProbingPath,
        &DriverEvent::ProbeResult { found: true },
    );
    assert_eq!(state, DriverState::Done { reason: FinishReason::AlreadyInstalled });
    assert_eq!(action, DriverAction::Finish);
}

#[test]
fn full_run_reaches_registered() {
    let (state, action) = step(
        DriverState::ProbingPath,
        &DriverEvent::ProbeResult { found: false },
    );
    assert_eq!(state, DriverState::AwaitingInstallConsent);
    assert_eq!(action, DriverAction::AskInstallConsent);

    let (state, action) = step(state, &DriverEvent::Line { text: b"Y\n".to_vec() });
    assert_eq!(state, DriverState::AwaitingInstallPath);
    assert_eq!(action, DriverAction::AskInstallPath);

    let (state, action) = step(
        state,
        &DriverEvent::PathLine { text: b" /opt/tools \n".to_vec(), exists: true },
    );
    assert_eq!(state, DriverState::Downloading { install: b"/opt/tools".to_vec() });
    assert_eq!(action, DriverAction::StartDownload);

    let (state, action) = step(state, &DriverEvent::StageResult { ok: true });
    assert_eq!(state, DriverState::Extracting { install: b"/opt/tools".to_vec() });
    assert_eq!(action, DriverAction::StartExtraction);

    let (state, action) = step(state, &DriverEvent::StageResult { ok: true });
    assert_eq!(state, DriverState::Normalizing { install: b"/opt/tools".to_vec() });
    assert_eq!(action, DriverAction::StartNormalization);

    let (state, action) = step(state, &DriverEvent::StageResult { ok: true });
    assert_eq!(state, DriverState::AwaitingPathConsent { install: b"/opt/tools".to_vec() });
    assert_eq!(action, DriverAction::AskPathConsent);

    let (state, action) = step(state, &DriverEvent::Line { text: b"y".to_vec() });
    assert_eq!(state, DriverState::Registering { install: b"/opt/tools".to_vec() });
    assert_eq!(action, DriverAction::StartRegistration);

    let (state, action) = step(state, &DriverEvent::StageResult { ok: true });
    assert_eq!(state, DriverState::Done { reason: FinishReason::Registered });
    assert_eq!(action, DriverAction::Finish);
}

#[test]
fn malformed_consent_loops_then_decline_ends() {
    let state = DriverState::AwaitingInstallConsent;
    let (state, action) = step(state, &DriverEvent::Line { text: b"maybe".to_vec() });
    assert_eq!(state, DriverState::AwaitingInstallConsent);
    assert_eq!(action, DriverAction::AskAgain);

    let (state, action) = step(state, &DriverEvent::Line { text: b"N\n".to_vec() });
    assert_eq!(state, DriverState::Done { reason: FinishReason::InstallDeclined });
    assert_eq!(action, DriverAction::Finish);
}

#[test]
fn missing_directory_reprompts() {
    let state = DriverState::AwaitingInstallPath;
    let (state, action) = step(
        state,
        &DriverEvent::PathLine { text: b"/no/such/dir".to_vec(), exists: false },
    );
    assert_eq!(state, DriverState::AwaitingInstallPath);
    assert_eq!(action, DriverAction::AskAgain);
}

#[test]
fn stage_failures_end_the_run() {
    let (state, action) = step(
        DriverState::Downloading { install: b"/x".to_vec() },
        &DriverEvent::StageResult { ok: false },
    );
    assert_eq!(state, DriverState::Done { reason: FinishReason::DownloadFailed });
    assert_eq!(action, DriverAction::Finish);

    let (state, _) = step(
        DriverState::Extracting { install: b"/x".to_vec() },
        &DriverEvent::StageResult { ok: false },
    );
    assert_eq!(state, DriverState::Done { reason: FinishReason::ExtractFailed });

    let (state, _) = step(
        DriverState::Normalizing { install: b"/x".to_vec() },
        &DriverEvent::StageResult { ok: false },
    );
    assert_eq!(state, DriverState::Done { reason: FinishReason::NormalizeFailed });

    let (state, _) = step(
        DriverState::Registering { install: b"/x".to_vec() },
        &DriverEvent::StageResult { ok: false },
    );
    assert_eq!(state, DriverState::Done { reason: FinishReason::RegisterFailed });
}

#[test]
fn declined_registration_still_ends_cleanly() {
    let (state, action) = step(
        DriverState::AwaitingPathConsent { install: b"/x".to_vec() },
        &DriverEvent::Line { text: b"n".to_vec() },
    );
    assert_eq!(state, DriverState::Done { reason: FinishReason::RegisterDeclined });
    assert_eq!(action, DriverAction::Finish);
}

#[test]
fn terminal_state_only_finishes() {
    let done = DriverState::Done { reason: FinishReason::Registered };
    let (state, action) = step(done, &DriverEvent::StageResult { ok: true });
    assert_eq!(state, DriverState::Done { reason: FinishReason::Registered });
    assert_eq!(action, DriverAction::Finish);
}

#[test]
fn unexpected_event_restates_the_request() {
    let (state, action) = step(
        DriverState::AwaitingInstallConsent,
        &DriverEvent::StageResult { ok: true },
    );
    assert_eq!(state, DriverState::AwaitingInstallConsent);
    assert_eq!(action, DriverAction::AskInstallConsent);
}
