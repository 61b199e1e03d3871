//! What holds of the outcome of every push, whatever the remote says.

use vstd::prelude::*;

#[allow(unused_imports)]
use vstd::utf8::{decode_utf8, is_ascii_chars, valid_utf8};

#[allow(unused_imports)]
use crate::error::{error_code, error_message, fault_of, AppError, Fault, GitCode, GitFailure};
#[allow(unused_imports)]
use crate::push::{
    conclude, conclusion, failure_in, git_failure_in, rejected, Log, Outcome, PushEvent, PushOutcome,
};
#[allow(unused_imports)]
use crate::text::{
    all_whitespace, ascii_capitals_are_lost, ascii_lower, ascii_lowercase, ascii_uppercase,
    is_whitespace, lowered, occurs_at, trimmed, trimmed_is_the_middle, trims_to_nothing, utf8_lossy,
};

verus! {

/// The log once the remote has said the first `n` of `events`.
pub open spec fn log_before(events: Seq<PushEvent>, n: nat) -> Log
    decreases n,
{
    if n == 0 {
        Log::empty()
    } else {
        log_before(events, (n - 1) as nat).after(events[n - 1])
    }
}

/// The outcome of a push in the course of which the remote said `events`.
pub open spec fn outcome_of(
    failure: Option<(GitCode, Seq<char>)>,
    events: Seq<PushEvent>,
) -> Result<Outcome, Fault> {
    let log = log_before(events, events.len());
    conclude(failure, log.rejection, log.sideband)
}

/// The remote rejected a reference at position `i`.
pub open spec fn rejects_at(events: Seq<PushEvent>, i: int) -> bool {
    0 <= i < events.len() && events[i] matches PushEvent::Status(Some(_))
}

/// A push is reported as made if and only if it is not reported as rejected, and
/// one that the remote moved past is never reported as made.
pub proof fn outcomes_are_consistent(
    failure: Option<(GitCode, Seq<char>)>,
    rejection: Option<Seq<char>>,
    sideband: Seq<char>,
)
    ensures
        conclude(failure, rejection, sideband) matches Ok(outcome) ==> {
            &&& outcome.pushed <==> outcome.rejection_message is None
            &&& outcome.non_fast_forward ==> !outcome.pushed
        },
{
}

/// A push is reported as made exactly if it did not fail and no reference was
/// rejected.
pub proof fn pushed_means_accepted(
    failure: Option<(GitCode, Seq<char>)>,
    rejection: Option<Seq<char>>,
    sideband: Seq<char>,
)
    ensures
        (conclude(failure, rejection, sideband) matches Ok(outcome) && outcome.pushed) <==> (
        failure is None && rejection is None),
{
}

/// Rejections are outcomes, not errors: a push ends in an error exactly if it
/// failed for another reason than that the remote moved past us, and the remote
/// rejected nothing.
pub proof fn errors_are_unexplained_failures(
    failure: Option<(GitCode, Seq<char>)>,
    rejection: Option<Seq<char>>,
    sideband: Seq<char>,
)
    ensures
        conclude(failure, rejection, sideband) is Err <==> rejection is None && (
        failure matches Some((code, _)) && code != GitCode::NotFastForward),
{
}

/// Where the remote rejected nothing, a failure for another reason than that the
/// remote moved past us is the error that callers see. An authentication failure
/// is an authentication error.
pub proof fn unexplained_failure_is_the_error(
    code: GitCode,
    message: Seq<char>,
    sideband: Seq<char>,
)
    requires
        code != GitCode::NotFastForward,
    ensures
        conclude(Some((code, message)), None, sideband) == Err::<Outcome, Fault>(
            fault_of(code, message),
        ),
        code == GitCode::Auth ==> conclude(Some((code, message)), None, sideband) == Err::<
            Outcome,
            Fault,
        >(Fault::Auth(message)),
{
}

/// A failure that says that the remote moved past us is reported as that, whatever
/// else the remote said.
pub proof fn moved_remote_is_reported(
    message: Seq<char>,
    rejection: Option<Seq<char>>,
    sideband: Seq<char>,
)
    ensures
        conclude(Some((GitCode::NotFastForward, message)), rejection, sideband) == Ok::<
            Outcome,
            Fault,
        >(Outcome { pushed: false, non_fast_forward: true, rejection_message: Some(message) }),
{
}

/// What the remote says on the side changes the message of a rejection and
/// nothing else, and if it is blank, not even that.
pub proof fn sideband_only_explains(message: Seq<char>, sideband: Seq<char>, other: Seq<char>)
    ensures
        rejected(message, sideband).pushed == rejected(message, other).pushed,
        rejected(message, sideband).non_fast_forward == rejected(message, other).non_fast_forward,
        (forall|i: int| 0 <= i < sideband.len() ==> is_whitespace(#[trigger] sideband[i]))
            ==> rejected(message, sideband).rejection_message == Some(message),
        rejected(message, sideband).rejection_message matches Some(full) && message.is_prefix_of(
            full,
        ),
{
    trims_to_nothing(sideband);
}

/// Whether a rejection says that the remote moved past us does not depend on the
/// case of its ASCII letters.
pub proof fn capitals_do_not_matter(message: Seq<char>, other: Seq<char>, sideband: Seq<char>)
    requires
        message.len() == other.len(),
        forall|i: int|
            0 <= i < message.len() ==> ascii_lower(#[trigger] message[i]) == ascii_lower(other[i]),
    ensures
        rejected(message, sideband).non_fast_forward == rejected(other, sideband).non_fast_forward,
{
    ascii_capitals_are_lost(message, other);
}

/// A rejection says the same with all its ASCII letters as capitals and with all
/// of them in lower case.
pub proof fn shouting_does_not_matter(message: Seq<char>, sideband: Seq<char>)
    ensures
        rejected(ascii_uppercase(message), sideband).non_fast_forward == rejected(
            message,
            sideband,
        ).non_fast_forward,
        rejected(ascii_lowercase(message), sideband).non_fast_forward == rejected(
            message,
            sideband,
        ).non_fast_forward,
{
    capitals_do_not_matter(ascii_uppercase(message), message, sideband);
    capitals_do_not_matter(ascii_lowercase(message), message, sideband);
}

/// The rejection in the log is that of the last reference that was rejected, if
/// there is one.
pub proof fn last_rejection_stays(events: Seq<PushEvent>, n: nat)
    requires
        n <= events.len(),
    ensures
        log_before(events, n).rejection is None <==> (forall|i: int|
            0 <= i < n ==> !#[trigger] rejects_at(events, i)),
        forall|i: int|
            0 <= i < n && #[trigger] rejects_at(events, i) && (forall|k: int|
                i < k < n ==> !#[trigger] rejects_at(events, k)) ==> events[i]
                == PushEvent::Status(log_before(events, n).rejection),
    decreases n,
{
    if n > 0 {
        let m = (n - 1) as nat;
        last_rejection_stays(events, m);
        assert(rejects_at(events, n - 1) ==> log_before(events, n).rejection is Some);
        assert forall|i: int|
            0 <= i < n && #[trigger] rejects_at(events, i) && (forall|k: int|
                i < k < n ==> !#[trigger] rejects_at(events, k)) implies events[i]
            == PushEvent::Status(log_before(events, n).rejection) by {
            if i < n - 1 {
                assert(!rejects_at(events, n - 1));
                assert(forall|k: int| i < k < m ==> !#[trigger] rejects_at(events, k));
            }
        }
    }
}

/// A push that did not fail is reported as made if and only if no reference was
/// rejected, and never as an error.
pub proof fn any_rejection_is_reported(events: Seq<PushEvent>)
    ensures
        outcome_of(None, events) matches Ok(outcome) && (outcome.pushed <==> forall|i: int|
            0 <= i < events.len() ==> !#[trigger] rejects_at(events, i)),
{
    last_rejection_stays(events, events.len());
}

/// A push with a rejected reference, that did not fail because the remote moved
/// past us, is a conflict exactly if the reason in lower case has one of three
/// phrases somewhere in it. This holds of pushes that did not fail at all and of
/// those that failed otherwise.
pub proof fn rejection_is_told_by_its_phrases(
    failure: Option<(GitCode, Seq<char>)>,
    reason: Seq<char>,
    sideband: Seq<char>,
)
    requires
        failure matches Some((code, _)) ==> code != GitCode::NotFastForward,
    ensures
        conclude(failure, Some(reason), sideband) is Ok,
        !conclude(failure, Some(reason), sideband)->Ok_0.pushed,
        conclude(failure, Some(reason), sideband)->Ok_0.non_fast_forward <==> {
            ||| exists|at: int| #[trigger] occurs_at("non-fast-forward"@, lowered(reason), at)
            ||| exists|at: int| #[trigger] occurs_at("fetch first"@, lowered(reason), at)
            ||| exists|at: int| #[trigger] occurs_at("cannot lock ref"@, lowered(reason), at)
        },
        rejected(reason, sideband).non_fast_forward <==> {
            ||| exists|at: int| #[trigger] occurs_at("non-fast-forward"@, lowered(reason), at)
            ||| exists|at: int| #[trigger] occurs_at("fetch first"@, lowered(reason), at)
            ||| exists|at: int| #[trigger] occurs_at("cannot lock ref"@, lowered(reason), at)
        },
{
}

/// The message of a rejected push is the reason alone if the sideband is blank, and
/// else the reason, a line end, and the sideband without the whitespace around it.
pub proof fn rejection_is_explained(
    failure: Option<(GitCode, Seq<char>)>,
    reason: Seq<char>,
    sideband: Seq<char>,
)
    requires
        failure matches Some((code, _)) ==> code != GitCode::NotFastForward,
    ensures
        conclude(failure, Some(reason), sideband) is Ok,
        conclude(failure, Some(reason), sideband)->Ok_0.rejection_message is Some,
        ({
            let message = conclude(failure, Some(reason), sideband)->Ok_0.rejection_message->0;
            &&& all_whitespace(sideband) ==> message == reason
            &&& !all_whitespace(sideband) ==> exists|
                before: Seq<char>,
                detail: Seq<char>,
                after: Seq<char>,
            |
                {
                    &&& #[trigger] (before + detail + after) == sideband
                    &&& all_whitespace(before) && all_whitespace(after)
                    &&& detail.len() > 0
                    &&& !is_whitespace(detail.first()) && !is_whitespace(detail.last())
                    &&& message == reason + "\n"@ + detail
                }
        }),
{
    trims_to_nothing(sideband);
    trimmed_is_the_middle(sideband);
    let detail = trimmed(sideband);
    let (before, after) = choose|before: Seq<char>, after: Seq<char>| #[trigger]
        (before + trimmed(sideband) + after) == sideband && all_whitespace(before)
            && all_whitespace(after);
    assert(before + detail + after == sideband);
}

/// A rejection with one of the three phrases in it, in any capitals and whatever
/// ASCII stands before and after the phrase, is a conflict.
pub proof fn phrase_anywhere_is_a_conflict(
    before: Seq<char>,
    phrase: Seq<char>,
    after: Seq<char>,
    sideband: Seq<char>,
)
    requires
        is_ascii_chars(before + phrase + after),
        ascii_lowercase(phrase) == "non-fast-forward"@ || ascii_lowercase(phrase)
            == "fetch first"@ || ascii_lowercase(phrase) == "cannot lock ref"@,
    ensures
        rejected(before + phrase + after, sideband).non_fast_forward,
{
    let low = lowered(before + phrase + after);
    let found = ascii_lowercase(phrase);
    assert(low.subrange(before.len() as int, (before.len() + phrase.len()) as int) =~= found);
    assert(occurs_at(found, low, before.len() as int));
}

/// A rejection in ASCII that has none of the three phrases at any position, its
/// capitals put in lower case, is no conflict.
pub proof fn no_phrase_is_no_conflict(message: Seq<char>, sideband: Seq<char>)
    requires
        is_ascii_chars(message),
        forall|at: int| !#[trigger]
            occurs_at("non-fast-forward"@, ascii_lowercase(message), at),
        forall|at: int| !#[trigger] occurs_at("fetch first"@, ascii_lowercase(message), at),
        forall|at: int| !#[trigger] occurs_at("cannot lock ref"@, ascii_lowercase(message), at),
    ensures
        !rejected(message, sideband).non_fast_forward,
{
}

/// More words never turn a conflict in ASCII into something else.
pub proof fn more_words_keep_a_conflict(
    before: Seq<char>,
    message: Seq<char>,
    after: Seq<char>,
    sideband: Seq<char>,
    other: Seq<char>,
)
    requires
        is_ascii_chars(before + message + after),
        rejected(message, sideband).non_fast_forward,
    ensures
        rejected(before + message + after, other).non_fast_forward,
{
    let whole = before + message + after;
    assert forall|i: int| 0 <= i < message.len() implies '\0' <= #[trigger] message[i]
        <= '\u{7f}' by {
        assert(whole[before.len() + i] == message[i]);
    }
    assert(is_ascii_chars(message));
    shifted_phrase(before, message, after, "non-fast-forward"@);
    shifted_phrase(before, message, after, "fetch first"@);
    shifted_phrase(before, message, after, "cannot lock ref"@);
}

/// What stands in a message stands further on in the message with more around it.
proof fn shifted_phrase(
    before: Seq<char>,
    message: Seq<char>,
    after: Seq<char>,
    phrase: Seq<char>,
)
    ensures
        forall|at: int| #[trigger]
            occurs_at(phrase, ascii_lowercase(message), at) ==> occurs_at(
                phrase,
                ascii_lowercase(before + message + after),
                before.len() + at,
            ),
{
    let small = ascii_lowercase(message);
    let large = ascii_lowercase(before + message + after);
    assert forall|at: int| #[trigger] occurs_at(phrase, small, at) implies occurs_at(
        phrase,
        large,
        before.len() + at,
    ) by {
        assert(large.subrange(before.len() + at, before.len() + at + phrase.len())
            =~= small.subrange(at, at + phrase.len()));
    }
}

/// The text that one message of the remote puts on the sideband.
pub open spec fn sideband_text(event: PushEvent) -> Seq<char> {
    match event {
        PushEvent::Status(_) => Seq::empty(),
        PushEvent::Sideband(bytes) => if valid_utf8(bytes) {
            decode_utf8(bytes)
        } else {
            utf8_lossy(bytes)
        },
    }
}

/// The sideband in the log is the text of all sideband messages, one after the
/// other, and of nothing else.
pub proof fn sideband_is_everything_said(events: Seq<PushEvent>, n: nat)
    requires
        n <= events.len(),
    ensures
        log_before(events, n).sideband == events.take(n as int).map_values(
            |event: PushEvent| sideband_text(event),
        ).flatten(),
    decreases n,
{
    let text = |event: PushEvent| sideband_text(event);
    let said = events.take(n as int).map_values(text);
    if n == 0 {
        assert(said =~= Seq::empty());
    } else {
        let m = (n - 1) as nat;
        sideband_is_everything_said(events, m);
        let earlier = events.take(m as int).map_values(text);
        assert(said =~= earlier.push(sideband_text(events[n - 1])));
        earlier.lemma_flatten_push(sideband_text(events[n - 1]));
        assert(log_before(events, n).sideband =~= log_before(events, m).sideband + sideband_text(
            events[n - 1],
        ));
    }
}

/// What has been captured of the sideband stays, at the front of what is captured
/// later.
pub proof fn captured_sideband_stays(events: Seq<PushEvent>, i: nat, j: nat)
    requires
        i <= j <= events.len(),
    ensures
        log_before(events, i).sideband.is_prefix_of(log_before(events, j).sideband),
    decreases j,
{
    if i < j {
        let m = (j - 1) as nat;
        captured_sideband_stays(events, i, m);
        let before = log_before(events, i).sideband;
        let later = log_before(events, m).sideband;
        let last = log_before(events, j).sideband;
        assert(last =~= later + sideband_text(events[j - 1]));
        assert(before =~= last.subrange(0, before.len() as int));
    }
}

/// Each message of the remote adds its own text to the sideband, whatever is in the
/// log, and rejections and the sideband do not touch one another.
pub proof fn events_add_up(log: Log, event: PushEvent)
    ensures
        log.after(event).sideband == log.sideband + sideband_text(event),
        event matches PushEvent::Status(Some(reason)) ==> log.after(event).rejection == Some(
            reason,
        ),
        !(event matches PushEvent::Status(Some(_))) ==> log.after(event).rejection
            == log.rejection,
        Log::empty().sideband.len() == 0,
        Log::empty().rejection is None,
{
    assert(log.sideband + Seq::<char>::empty() =~= log.sideband);
}

/// What a push comes to in the course of which the remote rejected a reference, the
/// last time for `reason`: no push and no error, a conflict exactly if the reason
/// has one of the three phrases in it, and a message that is the reason with all
/// that came on the sideband, trimmed, below it.
pub proof fn rejected_push_comes_to_this(
    failure: Option<(GitCode, Seq<char>)>,
    events: Seq<PushEvent>,
    i: int,
    reason: Seq<char>,
)
    requires
        failure matches Some((code, _)) ==> code != GitCode::NotFastForward,
        0 <= i < events.len(),
        events[i] == PushEvent::Status(Some(reason)),
        forall|k: int| i < k < events.len() ==> !#[trigger] rejects_at(events, k),
    ensures
        outcome_of(failure, events) is Ok,
        !outcome_of(failure, events)->Ok_0.pushed,
        outcome_of(failure, events)->Ok_0.non_fast_forward <==> {
            ||| exists|at: int| #[trigger] occurs_at("non-fast-forward"@, lowered(reason), at)
            ||| exists|at: int| #[trigger] occurs_at("fetch first"@, lowered(reason), at)
            ||| exists|at: int| #[trigger] occurs_at("cannot lock ref"@, lowered(reason), at)
        },
        ({
            let said = events.map_values(|event: PushEvent| sideband_text(event)).flatten();
            let message = outcome_of(failure, events)->Ok_0.rejection_message;
            message == Some(
                if all_whitespace(said) {
                    reason
                } else {
                    reason + "\n"@ + trimmed(said)
                },
            )
        }),
{
    let n = events.len();
    let log = log_before(events, n);
    last_rejection_stays(events, n);
    assert(rejects_at(events, i));
    assert(log.rejection == Some(reason));
    sideband_is_everything_said(events, n);
    assert(events.take(n as int) =~= events);
    trims_to_nothing(log.sideband);
    rejection_is_told_by_its_phrases(failure, reason, log.sideband);
}

/// What a push comes to in the course of which the remote rejected nothing: made if
/// it did not fail, a conflict if it failed because the remote moved past us, and
/// else the failure as an error, whatever came on the sideband.
pub proof fn unrejected_push_comes_to_this(
    failure: Option<(GitCode, Seq<char>)>,
    events: Seq<PushEvent>,
)
    requires
        forall|k: int| 0 <= k < events.len() ==> !#[trigger] rejects_at(events, k),
    ensures
        failure is None ==> outcome_of(failure, events) == Ok::<Outcome, Fault>(
            Outcome { pushed: true, non_fast_forward: false, rejection_message: None },
        ),
        forall|code: GitCode, message: Seq<char>|
            failure == Some((code, message)) ==> #[trigger] outcome_of(
                Some((code, message)),
                events,
            ) == (if code == GitCode::NotFastForward {
                Ok::<Outcome, Fault>(
                    Outcome {
                        pushed: false,
                        non_fast_forward: true,
                        rejection_message: Some(message),
                    },
                )
            } else if code == GitCode::Auth {
                Err(Fault::Auth(message))
            } else {
                Err(Fault::Git(message))
            }),
{
    last_rejection_stays(events, events.len());
}

/// The mathematical values of outcomes and failures leave nothing out.
pub proof fn push_views_leave_nothing_out(
    outcome: PushOutcome,
    error: AppError,
    failure: GitFailure,
    git_error: git2::Error,
)
    ensures
        outcome@.pushed == outcome.pushed,
        outcome@.non_fast_forward == outcome.non_fast_forward,
        outcome.rejection_message matches Some(message) ==> outcome@.rejection_message == Some(
            message@,
        ),
        outcome.rejection_message is None ==> outcome@.rejection_message is None,
        conclusion(Ok(outcome)) == Ok::<Outcome, Fault>(outcome@),
        conclusion(Err(error)) == Err::<Outcome, Fault>(error@),
        failure_in(Ok(())) is None,
        failure_in(Err(failure)) == Some((failure.code, failure.message@)),
        git_failure_in(Ok(())) is None,
        git_failure_in(Err(git_error)) == Some((error_code(git_error), error_message(git_error))),
{
}

} // verus!
