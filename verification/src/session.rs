//! The session open/retry policy and the shell-output decoding.
//!
//! A session is a short-lived protocol channel, opened per operation and
//! discarded afterwards. Opening can fail because a background protocol
//! daemon holds the device exclusively; the policy then kills that daemon,
//! waits a fixed settle delay, and retries exactly once. The USB transport,
//! the daemon kill and the sleep are outside work performed by the host;
//! the decisions — when to retry, what to propagate — are verified here.
use vstd::prelude::*;

verus! {

/// How long the host waits after killing the daemon before the single
/// retry, in milliseconds.
pub const RETRY_SETTLE_MS: u64 = 500;

/// The outcome of one attempt to open a protocol session.
#[derive(Debug)]
pub enum AttemptOutcome {
    /// The session was negotiated.
    Opened,
    /// The operating system refused exclusive access: another process,
    /// typically the background protocol daemon, holds the device.
    AccessDenied,
    /// Any other failure, to be propagated unchanged.
    Failed { message: String },
}

/// Mathematical value of an [`AttemptOutcome`].
pub ghost enum AttemptOutcomeModel {
    Opened,
    AccessDenied,
    Failed { message: Seq<char> },
}

impl View for AttemptOutcome {
    type V = AttemptOutcomeModel;

    open spec fn view(&self) -> AttemptOutcomeModel {
        match self {
            AttemptOutcome::Opened => AttemptOutcomeModel::Opened,
            AttemptOutcome::AccessDenied => AttemptOutcomeModel::AccessDenied,
            AttemptOutcome::Failed { message } => AttemptOutcomeModel::Failed {
                message: message@,
            },
        }
    }
}

/// What the host must do after the first open attempt.
#[derive(PartialEq, Eq, Structural, Clone, Copy, Debug)]
pub enum OpenAction {
    /// The attempt succeeded: use the session.
    UseSession,
    /// Exclusive access was denied: kill the local daemon, wait
    /// [`RETRY_SETTLE_MS`], and attempt once more.
    KillDaemonAndRetry,
    /// Any other failure: propagate it unchanged, with no retry.
    Propagate,
}

/// The retry-on-busy decision after the first open attempt: retry exactly
/// on an access-denied failure, never on anything else.
pub fn open_action(first: &AttemptOutcome) -> (action: OpenAction)
    ensures
        (action == OpenAction::KillDaemonAndRetry) <==> first@ is AccessDenied,
        (action == OpenAction::UseSession) <==> first@ is Opened,
        (action == OpenAction::Propagate) <==> first@ is Failed,
{
    match first {
        AttemptOutcome::Opened => OpenAction::UseSession,
        AttemptOutcome::AccessDenied => OpenAction::KillDaemonAndRetry,
        AttemptOutcome::Failed { .. } => OpenAction::Propagate,
    }
}

/// The outcome an open call surfaces, given the first attempt and — only
/// when that attempt was refused for access — the retry's outcome.
pub open spec fn spec_open_result(
    first: AttemptOutcomeModel,
    retry: Option<AttemptOutcomeModel>,
) -> AttemptOutcomeModel {
    if first is AccessDenied {
        retry.unwrap()
    } else {
        first
    }
}

/// Resolve a whole open call. The single retry happens exactly when the
/// first attempt was refused for access; its outcome, whatever it is,
/// is surfaced unchanged — a second refusal is not retried again. Every
/// other first outcome is surfaced unchanged with no retry.
pub fn resolve_open(first: AttemptOutcome, retry: Option<AttemptOutcome>) -> (outcome:
    AttemptOutcome)
    requires
        (retry is Some) <==> (first@ is AccessDenied),
    ensures
        outcome@ == spec_open_result(first@, match retry {
            Some(r) => Some(r@),
            None => None,
        }),
{
    match first {
        AttemptOutcome::AccessDenied => match retry {
            Some(second) => second,
            None => AttemptOutcome::AccessDenied,
        },
        other => other,
    }
}

} // verus!
