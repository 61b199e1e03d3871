//! What the outcome of a push is.

use vstd::prelude::*;
use vstd::string::StringExecFns;
#[allow(unused_imports)]
use vstd::utf8::{decode_utf8, is_ascii_chars, valid_utf8};

#[allow(unused_imports)]
use crate::credential::{str_chars, string_chars};
#[allow(unused_imports)]
use crate::error::{error_code, error_message, fault_of, Fault, GitCode};
use crate::error::{AppError, AppResult, GitFailure};
#[allow(unused_imports)]
use crate::text::{
    ascii_lowercase, decoded, lowercase, lowered, occurs, occurs_at, trimmed, utf8_lossy,
};
use crate::text::{contains, from_utf8_lossy, to_lowercase};

verus! {

/// Result of a push attempt. `pushed: false` with `non_fast_forward: true` is the
/// normal case of two devices (pull, merge, retry); a `rejection_message` carries
/// what the remote said.
#[derive(Debug)]
pub struct PushOutcome {
    pub pushed: bool,
    /// The remote moved past us (another device pushed first): the caller pulls,
    /// merges, and retries. Failures that the remote gave no reason for are
    /// errors, never this.
    pub non_fast_forward: bool,
    pub rejection_message: Option<String>,
}

/// A [`PushOutcome`] as a mathematical value.
pub struct Outcome {
    pub pushed: bool,
    pub non_fast_forward: bool,
    pub rejection_message: Option<Seq<char>>,
}

impl View for PushOutcome {
    type V = Outcome;

    open spec fn view(&self) -> Outcome {
        Outcome {
            pushed: self.pushed,
            non_fast_forward: self.non_fast_forward,
            rejection_message: string_chars(self.rejection_message),
        }
    }
}

/// Whether a remote that gives `reason`, in lower case, says that it moved past us.
pub open spec fn says_remote_moved(reason: Seq<char>) -> bool {
    ||| occurs("non-fast-forward"@, reason)
    ||| occurs("fetch first"@, reason)
    ||| occurs("cannot lock ref"@, reason)
}

/// A rejection's message with what the remote explained on the side, if that is
/// more than whitespace, on a line of its own below it.
pub open spec fn with_detail(message: Seq<char>, sideband: Seq<char>) -> Seq<char> {
    if trimmed(sideband).len() == 0 {
        message
    } else {
        message + "\n"@ + trimmed(sideband)
    }
}

/// The outcome of a push that the remote rejected with `message`.
pub open spec fn rejected(message: Seq<char>, sideband: Seq<char>) -> Outcome {
    Outcome {
        pushed: false,
        non_fast_forward: says_remote_moved(lowered(message)),
        rejection_message: Some(with_detail(message, sideband)),
    }
}

/// The phrases that say that the remote moved past us are ASCII.
proof fn phrases_are_ascii()
    ensures
        is_ascii_chars("non-fast-forward"@),
        is_ascii_chars("fetch first"@),
        is_ascii_chars("cannot lock ref"@),
{
    reveal_strlit("non-fast-forward");
    reveal_strlit("fetch first");
    reveal_strlit("cannot lock ref");
}

/// The outcome of a push that the remote rejected with `message`.
pub fn classify_rejection(message: String, sideband: &str) -> (outcome: PushOutcome)
    ensures
        outcome@ == rejected(message@, sideband@),
        !outcome.pushed,
        outcome.non_fast_forward <==> {
            ||| exists|at: int| #[trigger]
                occurs_at("non-fast-forward"@, lowercase(message@), at)
            ||| exists|at: int| #[trigger] occurs_at("fetch first"@, lowercase(message@), at)
            ||| exists|at: int| #[trigger] occurs_at("cannot lock ref"@, lowercase(message@), at)
        },
        is_ascii_chars(message@) ==> (outcome.non_fast_forward <==> {
            ||| exists|at: int| #[trigger]
                occurs_at("non-fast-forward"@, ascii_lowercase(message@), at)
            ||| exists|at: int| #[trigger]
                occurs_at("fetch first"@, ascii_lowercase(message@), at)
            ||| exists|at: int| #[trigger]
                occurs_at("cannot lock ref"@, ascii_lowercase(message@), at)
        }),
        forall|at: int| #[trigger]
            occurs_at("non-fast-forward"@, ascii_lowercase(message@), at)
                ==> outcome.non_fast_forward,
        forall|at: int| #[trigger]
            occurs_at("fetch first"@, ascii_lowercase(message@), at) ==> outcome.non_fast_forward,
        forall|at: int| #[trigger]
            occurs_at("cannot lock ref"@, ascii_lowercase(message@), at)
                ==> outcome.non_fast_forward,
        outcome.rejection_message is Some,
        trimmed(sideband@).len() == 0 ==> outcome.rejection_message->0@ == message@,
        trimmed(sideband@).len() > 0 ==> outcome.rejection_message->0@ == message@ + "\n"@
            + trimmed(sideband@),
{
    proof {
        phrases_are_ascii();
    }
    let reason = to_lowercase(message.as_str());
    let reason = reason.as_str();
    let non_fast_forward = contains(reason, "non-fast-forward") || contains(reason, "fetch first")
        || contains(reason, "cannot lock ref");
    let detail = sideband.trim();
    let mut full = message;
    if !detail.is_empty() {
        full.append("\n");
        full.append(detail);
    }
    PushOutcome { pushed: false, non_fast_forward, rejection_message: Some(full) }
}

/// What comes of a push with this failure, if it failed, with a reference rejected
/// for this reason, if one was, and with this on the sideband.
pub open spec fn conclude(
    failure: Option<(GitCode, Seq<char>)>,
    rejection: Option<Seq<char>>,
    sideband: Seq<char>,
) -> Result<Outcome, Fault> {
    match (failure, rejection) {
        (Some((GitCode::NotFastForward, message)), _) => Ok(
            Outcome {
                pushed: false,
                non_fast_forward: true,
                rejection_message: Some(message),
            },
        ),
        (_, Some(message)) => Ok(rejected(message, sideband)),
        (Some((code, message)), None) => Err(fault_of(code, message)),
        (None, None) => Ok(
            Outcome { pushed: true, non_fast_forward: false, rejection_message: None },
        ),
    }
}

/// The code and the message of the failure in `result`, if there is one.
pub open spec fn failure_in(result: Result<(), GitFailure>) -> Option<(GitCode, Seq<char>)> {
    match result {
        Ok(_) => None,
        Err(failure) => Some((failure.code, failure.message@)),
    }
}

/// The code and the message of the error in `result`, if there is one.
pub open spec fn git_failure_in(result: Result<(), git2::Error>) -> Option<(GitCode, Seq<char>)> {
    match result {
        Ok(_) => None,
        Err(error) => Some((error_code(error), error_message(error))),
    }
}

/// `result` as a mathematical value.
pub open spec fn conclusion(result: AppResult<PushOutcome>) -> Result<Outcome, Fault> {
    match result {
        Ok(outcome) => Ok(outcome@),
        Err(error) => Err(error@),
    }
}

/// The outcome of a push, given how the push itself ended, what the remote
/// rejected a reference with and what it said on the side.
///
/// A rejection comes back as an outcome, not as an error: the caller branches on
/// it. An error is left for failures that the remote gave no reason for.
pub fn push_outcome(
    result: Result<(), GitFailure>,
    rejection: Option<String>,
    sideband: &str,
) -> (outcome: AppResult<PushOutcome>)
    ensures
        conclusion(outcome) == conclude(failure_in(result), string_chars(rejection), sideband@),
        // Not failed and not rejected: made.
        result is Ok && rejection is None ==> (outcome matches Ok(made) && made.pushed
            && !made.non_fast_forward && made.rejection_message is None),
        // Failed because the remote moved past us.
        result matches Err(failure) && failure.code == GitCode::NotFastForward ==> (
        outcome matches Ok(moved) && !moved.pushed && moved.non_fast_forward
            && moved.rejection_message is Some && moved.rejection_message->0@
            == result->Err_0.message@),
        // Rejected, and not failed for that reason.
        rejection is Some && (result is Ok || result->Err_0.code != GitCode::NotFastForward) ==> (
        outcome matches Ok(declined) && {
            &&& !declined.pushed
            &&& declined.non_fast_forward <==> {
                ||| exists|at: int| #[trigger]
                    occurs_at("non-fast-forward"@, lowercase(rejection->0@), at)
                ||| exists|at: int| #[trigger]
                    occurs_at("fetch first"@, lowercase(rejection->0@), at)
                ||| exists|at: int| #[trigger]
                    occurs_at("cannot lock ref"@, lowercase(rejection->0@), at)
            }
            &&& is_ascii_chars(rejection->0@) ==> (declined.non_fast_forward <==> {
                ||| exists|at: int| #[trigger]
                    occurs_at("non-fast-forward"@, ascii_lowercase(rejection->0@), at)
                ||| exists|at: int| #[trigger]
                    occurs_at("fetch first"@, ascii_lowercase(rejection->0@), at)
                ||| exists|at: int| #[trigger]
                    occurs_at("cannot lock ref"@, ascii_lowercase(rejection->0@), at)
            })
            &&& declined.rejection_message is Some
            &&& trimmed(sideband@).len() == 0 ==> declined.rejection_message->0@ == rejection->0@
            &&& trimmed(sideband@).len() > 0 ==> declined.rejection_message->0@ == rejection->0@
                + "\n"@ + trimmed(sideband@)
        }),
        // Failed for another reason, and nothing rejected: the failure is the error.
        rejection is None && result is Err && result->Err_0.code != GitCode::NotFastForward ==> (
        outcome matches Err(error) && match error {
            AppError::Auth(message) => result->Err_0.code == GitCode::Auth && message@
                == result->Err_0.message@,
            AppError::Git(message) => result->Err_0.code != GitCode::Auth && message@
                == result->Err_0.message@,
            AppError::NotFound(_) => false,
        }),
{
    match result {
        Ok(()) => match rejection {
            None => Ok(
                PushOutcome { pushed: true, non_fast_forward: false, rejection_message: None },
            ),
            Some(message) => Ok(classify_rejection(message, sideband)),
        },
        Err(failure) => {
            if failure.code == GitCode::NotFastForward {
                return Ok(
                    PushOutcome {
                        pushed: false,
                        non_fast_forward: true,
                        rejection_message: Some(failure.message),
                    },
                );
            }
            if let Some(message) = rejection {
                return Ok(classify_rejection(message, sideband));
            }
            Err(AppError::from_failure(failure))
        },
    }
}

/// What the remote has said in the course of a push.
pub struct PushLog {
    rejection: Option<String>,
    sideband: String,
}

/// A [`PushLog`] as a mathematical value.
pub struct Log {
    pub rejection: Option<Seq<char>>,
    pub sideband: Seq<char>,
}

impl View for PushLog {
    type V = Log;

    closed spec fn view(&self) -> Log {
        Log { rejection: string_chars(self.rejection), sideband: self.sideband@ }
    }
}

/// One message of the remote in the course of a push.
pub enum PushEvent {
    /// What became of a reference: `None` if it was updated, else why it was not.
    Status(Option<Seq<char>>),
    /// Bytes on the sideband.
    Sideband(Seq<u8>),
}

impl Log {
    /// Nothing has been said yet.
    pub open spec fn empty() -> Log {
        Log { rejection: None, sideband: Seq::empty() }
    }

    /// The log once the remote has said `event`. The last rejection stays; what
    /// comes on the sideband adds up.
    pub open spec fn after(self, event: PushEvent) -> Log {
        match event {
            PushEvent::Status(None) => self,
            PushEvent::Status(Some(message)) => Log { rejection: Some(message), ..self },
            PushEvent::Sideband(bytes) => Log {
                sideband: self.sideband + decoded(bytes),
                ..self
            },
        }
    }
}

impl PushLog {
    /// A log of a remote that has said nothing yet.
    pub fn new() -> (log: PushLog)
        ensures
            log@ == Log::empty(),
            log@.rejection is None,
            log@.sideband.len() == 0,
    {
        PushLog { rejection: None, sideband: String::new() }
    }

    /// Notes what became of a reference.
    pub fn note_status(&mut self, status: Option<&str>)
        ensures
            final(self)@ == old(self)@.after(PushEvent::Status(str_chars(status))),
            status matches Some(message) ==> final(self)@.rejection == Some(message@),
            status is None ==> final(self)@.rejection == old(self)@.rejection,
            final(self)@.sideband == old(self)@.sideband,
    {
        if let Some(message) = status {
            self.rejection = Some(message.to_owned());
        }
    }

    /// Notes bytes that came on the sideband, where remotes explain why they
    /// declined a push.
    pub fn note_sideband(&mut self, data: &[u8])
        ensures
            final(self)@ == old(self)@.after(PushEvent::Sideband(data@)),
            final(self)@.rejection == old(self)@.rejection,
            final(self)@.sideband == old(self)@.sideband + utf8_lossy(data@),
            valid_utf8(data@) ==> final(self)@.sideband == old(self)@.sideband + decode_utf8(data@),
    {
        let text = from_utf8_lossy(data);
        self.sideband.append(text.as_str());
    }

    /// The outcome of the push that this is the log of, once the push has ended
    /// with `result`.
    pub fn conclude(self, result: Result<(), git2::Error>) -> (outcome: AppResult<PushOutcome>)
        ensures
            conclusion(outcome) == conclude(
                git_failure_in(result),
                self@.rejection,
                self@.sideband,
            ),
            // Not failed and not rejected: made.
            result is Ok && self@.rejection is None ==> (outcome matches Ok(made) && made.pushed
                && !made.non_fast_forward && made.rejection_message is None),
            // Failed because the remote moved past us.
            result is Err && error_code(result->Err_0) == GitCode::NotFastForward ==> (
            outcome matches Ok(moved) && !moved.pushed && moved.non_fast_forward
                && moved.rejection_message is Some && moved.rejection_message->0@
                == error_message(result->Err_0)),
            // Rejected, and not failed for that reason.
            self@.rejection is Some && (result is Ok || error_code(result->Err_0)
                != GitCode::NotFastForward) ==> (outcome matches Ok(declined) && {
                &&& !declined.pushed
                &&& declined.non_fast_forward <==> {
                    ||| exists|at: int| #[trigger]
                        occurs_at("non-fast-forward"@, lowercase(self@.rejection->0), at)
                    ||| exists|at: int| #[trigger]
                        occurs_at("fetch first"@, lowercase(self@.rejection->0), at)
                    ||| exists|at: int| #[trigger]
                        occurs_at("cannot lock ref"@, lowercase(self@.rejection->0), at)
                }
                &&& is_ascii_chars(self@.rejection->0) ==> (declined.non_fast_forward <==> {
                    ||| exists|at: int| #[trigger]
                        occurs_at("non-fast-forward"@, ascii_lowercase(self@.rejection->0), at)
                    ||| exists|at: int| #[trigger]
                        occurs_at("fetch first"@, ascii_lowercase(self@.rejection->0), at)
                    ||| exists|at: int| #[trigger]
                        occurs_at("cannot lock ref"@, ascii_lowercase(self@.rejection->0), at)
                })
                &&& declined.rejection_message is Some
                &&& trimmed(self@.sideband).len() == 0 ==> declined.rejection_message->0@
                    == self@.rejection->0
                &&& trimmed(self@.sideband).len() > 0 ==> declined.rejection_message->0@
                    == self@.rejection->0 + "\n"@ + trimmed(self@.sideband)
            }),
            // Failed for another reason, and nothing rejected: the failure is the error.
            self@.rejection is None && result is Err && error_code(result->Err_0)
                != GitCode::NotFastForward ==> (outcome matches Err(error) && match error {
                AppError::Auth(message) => error_code(result->Err_0) == GitCode::Auth && message@
                    == error_message(result->Err_0),
                AppError::Git(message) => error_code(result->Err_0) != GitCode::Auth && message@
                    == error_message(result->Err_0),
                AppError::NotFound(_) => false,
            }),
    {
        let result = match result {
            Ok(()) => Ok(()),
            Err(error) => Err(GitFailure::read(&error)),
        };
        push_outcome(result, self.rejection, self.sideband.as_str())
    }
}

} // verus!
