use vstd::prelude::*;
use crate::bytes::trim_bytes;
use crate::bytes::trimmed;

verus! {

/// Why the run reached its terminal state. Whatever the reason, the driver
/// ends the same way: print a final message, wait for one line of input,
/// exit successfully.
#[derive(Clone, Copy, PartialEq, Eq, Structural, Debug)]
pub enum FinishReason {
    /// The executable was already on the search path; nothing to do.
    AlreadyInstalled,
    /// The user declined the installation.
    InstallDeclined,
    /// The download failed; the run cannot continue.
    DownloadFailed,
    /// Extraction failed; the run cannot continue.
    ExtractFailed,
    /// Renaming the extracted folder failed; the run cannot continue.
    NormalizeFailed,
    /// The user declined the search-path registration.
    RegisterDeclined,
    /// The platform's environment update failed; reported, run over.
    RegisterFailed,
    /// Everything succeeded and the directory was registered.
    Registered,
}

/// Where the interactive run stands. The `install` payload is the
/// installation root the user chose, carried from the path prompt to every
/// later stage.
#[derive(PartialEq, Eq, Debug)]
pub enum DriverState {
    /// Scanning the search path for an existing executable.
    ProbingPath,
    /// Asking whether to download and install.
    AwaitingInstallConsent,
    /// Asking for an existing directory to install into.
    AwaitingInstallPath,
    /// Streaming the archive to disk.
    Downloading { install: Vec<u8> },
    /// Unpacking the downloaded archive.
    Extracting { install: Vec<u8> },
    /// Renaming the extracted folder to its canonical name.
    Normalizing { install: Vec<u8> },
    /// Asking whether to register the tool on the search path.
    AwaitingPathConsent { install: Vec<u8> },
    /// Updating the persistent search-path variable.
    Registering { install: Vec<u8> },
    /// Terminal state.
    Done { reason: FinishReason },
}

/// What the outside world reports back to the driver.
#[derive(PartialEq, Eq, Debug)]
pub enum DriverEvent {
    /// The search-path probe finished; `found` says whether the executable
    /// is already present.
    ProbeResult { found: bool },
    /// One line read from the console at a consent prompt.
    Line { text: Vec<u8> },
    /// One line read at the path prompt, with whether its trimmed text
    /// names an existing directory.
    PathLine { text: Vec<u8>, exists: bool },
    /// A download, extraction, normalization or registration stage ended,
    /// successfully or not.
    StageResult { ok: bool },
}

/// What the driver asks the outside world to do next.
#[derive(Clone, Copy, PartialEq, Eq, Structural, Debug)]
pub enum DriverAction {
    /// Scan the search path and report a `ProbeResult`.
    Probe,
    /// Prompt for install consent and report a `Line`.
    AskInstallConsent,
    /// Prompt for the installation directory and report a `PathLine`.
    AskInstallPath,
    /// Repeat the current prompt after malformed input.
    AskAgain,
    /// Download the archive into the chosen directory.
    StartDownload,
    /// Extract the downloaded archive.
    StartExtraction,
    /// Rename the extracted folder to its canonical name.
    StartNormalization,
    /// Prompt for registration consent and report a `Line`.
    AskPathConsent,
    /// Register the tool's directory on the persistent search path.
    StartRegistration,
    /// Print the final message, wait for a keypress, exit successfully.
    Finish,
}

/// How one console line answers a yes/no prompt: after trimming
/// whitespace, a single `y` or `Y` consents, a single `n` or `N` declines,
/// and anything else is malformed.
pub open spec fn consent_spec(line: Seq<u8>) -> Option<bool> {
    let t = trimmed(line);
    if t.len() == 1 && (t[0] == 89 || t[0] == 121) {
        Some(true)
    } else if t.len() == 1 && (t[0] == 78 || t[0] == 110) {
        Some(false)
    } else {
        None
    }
}

/// Interprets a console line at a yes/no prompt, case-insensitively.
pub fn parse_consent(line: &Vec<u8>) -> (r: Option<bool>)
    ensures
        r == consent_spec(line@),
{
    let t = trim_bytes(line);
    if t.len() == 1 {
        let b = t[0];
        if b == 89 || b == 121 {
            Some(true)
        } else if b == 78 || b == 110 {
            Some(false)
        } else {
            None
        }
    } else {
        None
    }
}

/// The event kind each state is waiting for.
pub open spec fn event_matches_state(s: DriverState, e: DriverEvent) -> bool {
    match s {
        DriverState::ProbingPath => e is ProbeResult,
        DriverState::AwaitingInstallConsent => e is Line,
        DriverState::AwaitingInstallPath => e is PathLine,
        DriverState::Downloading { .. } => e is StageResult,
        DriverState::Extracting { .. } => e is StageResult,
        DriverState::Normalizing { .. } => e is StageResult,
        DriverState::AwaitingPathConsent { .. } => e is Line,
        DriverState::Registering { .. } => e is StageResult,
        DriverState::Done { .. } => true,
    }
}

/// The request each state has standing: what the driver answers when an
/// event arrives that the state is not waiting for.
pub open spec fn pending_action(s: DriverState) -> DriverAction {
    match s {
        DriverState::ProbingPath => DriverAction::Probe,
        DriverState::AwaitingInstallConsent => DriverAction::AskInstallConsent,
        DriverState::AwaitingInstallPath => DriverAction::AskInstallPath,
        DriverState::Downloading { .. } => DriverAction::StartDownload,
        DriverState::Extracting { .. } => DriverAction::StartExtraction,
        DriverState::Normalizing { .. } => DriverAction::StartNormalization,
        DriverState::AwaitingPathConsent { .. } => DriverAction::AskPathConsent,
        DriverState::Registering { .. } => DriverAction::StartRegistration,
        DriverState::Done { .. } => DriverAction::Finish,
    }
}

/// Two states that stand at the same point of the run, with the same
/// chosen installation root.
pub open spec fn same_state(a: DriverState, b: DriverState) -> bool {
    match (a, b) {
        (DriverState::ProbingPath, DriverState::ProbingPath) => true,
        (DriverState::AwaitingInstallConsent, DriverState::AwaitingInstallConsent) => true,
        (DriverState::AwaitingInstallPath, DriverState::AwaitingInstallPath) => true,
        (
            DriverState::Downloading { install: x },
            DriverState::Downloading { install: y },
        ) => x@ == y@,
        (DriverState::Extracting { install: x }, DriverState::Extracting { install: y }) => x@
            == y@,
        (DriverState::Normalizing { install: x }, DriverState::Normalizing { install: y }) => x@
            == y@,
        (
            DriverState::AwaitingPathConsent { install: x },
            DriverState::AwaitingPathConsent { install: y },
        ) => x@ == y@,
        (DriverState::Registering { install: x }, DriverState::Registering { install: y }) => x@
            == y@,
        (DriverState::Done { reason: x }, DriverState::Done { reason: y }) => x == y,
        _ => false,
    }
}

/// Advances the interactive run by one event and says what to do next.
///
/// The transition table is the one the run follows: probing either ends the
/// run (the tool is already installed) or leads to the install prompt;
/// every prompt loops on malformed input and a declined consent ends the
/// run at once; each working stage advances on success and ends the run on
/// failure, none of those failures being recoverable; and the terminal
/// state only ever asks to finish. An event a state is not waiting for
/// changes nothing and restates the standing request.
pub fn step(s: DriverState, e: &DriverEvent) -> (r: (DriverState, DriverAction))
    ensures
        s matches DriverState::ProbingPath ==> (e matches DriverEvent::ProbeResult { found }
            ==> {
            &&& *found ==> (r.0 matches DriverState::Done { reason }
                && reason == FinishReason::AlreadyInstalled && r.1 == DriverAction::Finish)
            &&& !*found ==> (r.0 is AwaitingInstallConsent
                && r.1 == DriverAction::AskInstallConsent)
        }),
        s matches DriverState::AwaitingInstallConsent ==> (e matches DriverEvent::Line { text }
            ==> {
            &&& consent_spec(text@) == Some(true) ==> (r.0 is AwaitingInstallPath
                && r.1 == DriverAction::AskInstallPath)
            &&& consent_spec(text@) == Some(false) ==> (r.0 matches DriverState::Done { reason }
                && reason == FinishReason::InstallDeclined && r.1 == DriverAction::Finish)
            &&& consent_spec(text@) is None ==> (r.0 is AwaitingInstallConsent
                && r.1 == DriverAction::AskAgain)
        }),
        s matches DriverState::AwaitingInstallPath ==> (e matches DriverEvent::PathLine {
            text,
            exists,
        } ==> {
            &&& *exists ==> (r.0 matches DriverState::Downloading { install }
                && install@ == trimmed(text@) && r.1 == DriverAction::StartDownload)
            &&& !*exists ==> (r.0 is AwaitingInstallPath && r.1 == DriverAction::AskAgain)
        }),
        s matches DriverState::Downloading { install } ==> (e matches DriverEvent::StageResult {
            ok,
        } ==> {
            &&& *ok ==> (r.0 matches DriverState::Extracting { install: i2 } && i2@ == install@
                && r.1 == DriverAction::StartExtraction)
            &&& !*ok ==> (r.0 matches DriverState::Done { reason }
                && reason == FinishReason::DownloadFailed && r.1 == DriverAction::Finish)
        }),
        s matches DriverState::Extracting { install } ==> (e matches DriverEvent::StageResult {
            ok,
        } ==> {
            &&& *ok ==> (r.0 matches DriverState::Normalizing { install: i2 } && i2@ == install@
                && r.1 == DriverAction::StartNormalization)
            &&& !*ok ==> (r.0 matches DriverState::Done { reason }
                && reason == FinishReason::ExtractFailed && r.1 == DriverAction::Finish)
        }),
        s matches DriverState::Normalizing { install } ==> (e matches DriverEvent::StageResult {
            ok,
        } ==> {
            &&& *ok ==> (r.0 matches DriverState::AwaitingPathConsent { install: i2 }
                && i2@ == install@ && r.1 == DriverAction::AskPathConsent)
            &&& !*ok ==> (r.0 matches DriverState::Done { reason }
                && reason == FinishReason::NormalizeFailed && r.1 == DriverAction::Finish)
        }),
        s matches DriverState::AwaitingPathConsent { install } ==> (e matches DriverEvent::Line {
            text,
        } ==> {
            &&& consent_spec(text@) == Some(true) ==> (r.0 matches DriverState::Registering {
                install: i2,
            } && i2@ == install@ && r.1 == DriverAction::StartRegistration)
            &&& consent_spec(text@) == Some(false) ==> (r.0 matches DriverState::Done { reason }
                && reason == FinishReason::RegisterDeclined && r.1 == DriverAction::Finish)
            &&& consent_spec(text@) is None ==> (r.0 matches DriverState::AwaitingPathConsent {
                install: i2,
            } && i2@ == install@ && r.1 == DriverAction::AskAgain)
        }),
        s matches DriverState::Registering { install } ==> (e matches DriverEvent::StageResult {
            ok,
        } ==> {
            &&& *ok ==> (r.0 matches DriverState::Done { reason }
                && reason == FinishReason::Registered && r.1 == DriverAction::Finish)
            &&& !*ok ==> (r.0 matches DriverState::Done { reason }
                && reason == FinishReason::RegisterFailed && r.1 == DriverAction::Finish)
        }),
        s matches DriverState::Done { reason } ==> (r.0 matches DriverState::Done {
            reason: r2,
        } && r2 == reason && r.1 == DriverAction::Finish),
        !event_matches_state(s, *e) ==> (same_state(r.0, s) && r.1 == pending_action(s)),
{
    match s {
        DriverState::ProbingPath => {
            match e {
                DriverEvent::ProbeResult { found } => {
                    if *found {
                        (
                            DriverState::Done { reason: FinishReason::AlreadyInstalled },
                            DriverAction::Finish,
                        )
                    } else {
                        (DriverState::AwaitingInstallConsent, DriverAction::AskInstallConsent)
                    }
                },
                _ => (DriverState::ProbingPath, DriverAction::Probe),
            }
        },
        DriverState::AwaitingInstallConsent => {
            match e {
                DriverEvent::Line { text } => {
                    match parse_consent(text) {
                        Some(true) => (
                            DriverState::AwaitingInstallPath,
                            DriverAction::AskInstallPath,
                        ),
                        Some(false) => (
                            DriverState::Done { reason: FinishReason::InstallDeclined },
                            DriverAction::Finish,
                        ),
                        None => (
                            DriverState::AwaitingInstallConsent,
                            DriverAction::AskAgain,
                        ),
                    }
                },
                _ => (DriverState::AwaitingInstallConsent, DriverAction::AskInstallConsent),
            }
        },
        DriverState::AwaitingInstallPath => {
            match e {
                DriverEvent::PathLine { text, exists } => {
                    if *exists {
                        let install = trim_bytes(text);
                        (DriverState::Downloading { install }, DriverAction::StartDownload)
                    } else {
                        (DriverState::AwaitingInstallPath, DriverAction::AskAgain)
                    }
                },
                _ => (DriverState::AwaitingInstallPath, DriverAction::AskInstallPath),
            }
        },
        DriverState::Downloading { install } => {
            match e {
                DriverEvent::StageResult { ok } => {
                    if *ok {
                        (DriverState::Extracting { install }, DriverAction::StartExtraction)
                    } else {
                        (
                            DriverState::Done { reason: FinishReason::DownloadFailed },
                            DriverAction::Finish,
                        )
                    }
                },
                _ => (DriverState::Downloading { install }, DriverAction::StartDownload),
            }
        },
        DriverState::Extracting { install } => {
            match e {
                DriverEvent::StageResult { ok } => {
                    if *ok {
                        (
                            DriverState::Normalizing { install },
                            DriverAction::StartNormalization,
                        )
                    } else {
                        (
                            DriverState::Done { reason: FinishReason::ExtractFailed },
                            DriverAction::Finish,
                        )
                    }
                },
                _ => (DriverState::Extracting { install }, DriverAction::StartExtraction),
            }
        },
        DriverState::Normalizing { install } => {
            match e {
                DriverEvent::StageResult { ok } => {
                    if *ok {
                        (
                            DriverState::AwaitingPathConsent { install },
                            DriverAction::AskPathConsent,
                        )
                    } else {
                        (
                            DriverState::Done { reason: FinishReason::NormalizeFailed },
                            DriverAction::Finish,
                        )
                    }
                },
                _ => (DriverState::Normalizing { install }, DriverAction::StartNormalization),
            }
        },
        DriverState::AwaitingPathConsent { install } => {
            match e {
                DriverEvent::Line { text } => {
                    match parse_consent(text) {
                        Some(true) => (
                            DriverState::Registering { install },
                            DriverAction::StartRegistration,
                        ),
                        Some(false) => (
                            DriverState::Done { reason: FinishReason::RegisterDeclined },
                            DriverAction::Finish,
                        ),
                        None => (
                            DriverState::AwaitingPathConsent { install },
                            DriverAction::AskAgain,
                        ),
                    }
                },
                _ => (
                    DriverState::AwaitingPathConsent { install },
                    DriverAction::AskPathConsent,
                ),
            }
        },
        DriverState::Registering { install } => {
            match e {
                DriverEvent::StageResult { ok } => {
                    if *ok {
                        (
                            DriverState::Done { reason: FinishReason::Registered },
                            DriverAction::Finish,
                        )
                    } else {
                        (
                            DriverState::Done { reason: FinishReason::RegisterFailed },
                            DriverAction::Finish,
                        )
                    }
                },
                _ => (DriverState::Registering { install }, DriverAction::StartRegistration),
            }
        },
        DriverState::Done { reason } => (DriverState::Done { reason }, DriverAction::Finish),
    }
}

} // verus!
