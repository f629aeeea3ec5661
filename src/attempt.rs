//! A whole relay attempt, from its event through the replies it is handed, and what
//! holds of every such attempt.
use vstd::prelude::*;

use crate::relay::{
    Phase, RelayError, Reply, StreamEvent, advance, bearer, header_safe, is_success, is_waiting,
    opening,
};
use crate::sanitize::{html_decoded, sanitized, tags_only, lemma_tags_only_vanish};

verus! {

/// The phase that an attempt in phase `p` reaches after `replies`, in order.
pub open spec fn final_phase(p: Phase, replies: Seq<Reply>) -> Phase
    decreases replies.len(),
{
    if replies.len() == 0 {
        p
    } else {
        final_phase(advance(p, replies[0]), replies.drop_first())
    }
}

/// The requests that an attempt in phase `p` makes while `replies` reach it: one each
/// time a reply leaves it waiting.
pub open spec fn requests_sent(p: Phase, replies: Seq<Reply>) -> nat
    decreases replies.len(),
{
    if replies.len() == 0 {
        0
    } else {
        let q = advance(p, replies[0]);
        (if is_waiting(q) { 1nat } else { 0nat }) + requests_sent(q, replies.drop_first())
    }
}

/// The session requests among `requests_sent(p, replies)`.
pub open spec fn session_requests_sent(p: Phase, replies: Seq<Reply>) -> nat
    decreases replies.len(),
{
    if replies.len() == 0 {
        0
    } else {
        let q = advance(p, replies[0]);
        (if q is AwaitingSession { 1nat } else { 0nat }) + session_requests_sent(
            q,
            replies.drop_first(),
        )
    }
}

/// 1 when `event` opens its attempt with a request, else 0.
pub open spec fn opening_requests(event: StreamEvent) -> nat {
    if opening(event) is AwaitingSession { 1 } else { 0 }
}

/// All requests of the attempt for `event` that is handed `replies`.
pub open spec fn attempt_requests(event: StreamEvent, replies: Seq<Reply>) -> nat {
    opening_requests(event) + requests_sent(opening(event), replies)
}

/// The session requests of the attempt for `event` that is handed `replies`.
pub open spec fn attempt_session_requests(event: StreamEvent, replies: Seq<Reply>) -> nat {
    opening_requests(event) + session_requests_sent(opening(event), replies)
}

/// How the attempt for `event` that is handed `replies` ends up.
pub open spec fn attempt_outcome(event: StreamEvent, replies: Seq<Reply>) -> Phase {
    final_phase(opening(event), replies)
}

/// An attempt that is over stays over and makes no request, whatever it is handed.
pub proof fn lemma_over_is_inert(p: Phase, replies: Seq<Reply>)
    requires
        !is_waiting(p),
    ensures
        final_phase(p, replies) == p,
        requests_sent(p, replies) == 0,
        session_requests_sent(p, replies) == 0,
    decreases replies.len(),
{
    if replies.len() > 0 {
        lemma_over_is_inert(p, replies.drop_first());
    }
}

/// Once an attempt has left its opening phase it never asks for a session again.
pub proof fn lemma_no_second_session(p: Phase, replies: Seq<Reply>)
    ensures
        session_requests_sent(p, replies) == 0,
    decreases replies.len(),
{
    if replies.len() > 0 {
        lemma_no_second_session(advance(p, replies[0]), replies.drop_first());
    }
}

/// An event other than an update makes no request and ends its attempt at once, with
/// success.
pub proof fn other_event_makes_no_request(replies: Seq<Reply>)
    ensures
        attempt_requests(StreamEvent::Other, replies) == 0,
        attempt_outcome(StreamEvent::Other, replies) == Phase::Done,
{
    lemma_over_is_inert(Phase::Done, replies);
}

/// An update whose content decodes to tags alone makes no request to the destination and
/// ends its attempt with success.
pub proof fn tag_only_update_makes_no_request(event: StreamEvent, replies: Seq<Reply>)
    requires
        event matches StreamEvent::Update { content } && html_decoded(content@) matches Some(
            d,
        ) && tags_only(d),
    ensures
        attempt_requests(event, replies) == 0,
        attempt_outcome(event, replies) == Phase::Done,
{
    let d = html_decoded(event->content@)->0;
    lemma_tags_only_vanish(d);
    lemma_over_is_inert(Phase::Done, replies);
}

/// Each of two updates with text to post opens a session of its own: whatever replies
/// each attempt is handed, it makes exactly one session request.
pub proof fn each_update_opens_one_session(
    first: StreamEvent,
    first_replies: Seq<Reply>,
    second: StreamEvent,
    second_replies: Seq<Reply>,
)
    requires
        first matches StreamEvent::Update { content } && sanitized(content@) matches Some(t)
            && t.len() > 0,
        second matches StreamEvent::Update { content } && sanitized(content@) matches Some(t)
            && t.len() > 0,
    ensures
        attempt_session_requests(first, first_replies) == 1,
        attempt_session_requests(second, second_replies) == 1,
{
    lemma_no_second_session(Phase::AwaitingSession, first_replies);
    lemma_no_second_session(Phase::AwaitingSession, second_replies);
}

/// An attempt that failed at submission leaves the next one alone: an update with text
/// to post, whose session and record requests succeed, is posted with two requests.
pub proof fn failed_submit_leaves_next_attempt_alone(
    first: StreamEvent,
    first_replies: Seq<Reply>,
    second: StreamEvent,
    second_replies: Seq<Reply>,
)
    requires
        attempt_outcome(first, first_replies) == Phase::Failed(RelayError::Submit),
        second matches StreamEvent::Update { content } && sanitized(content@) matches Some(t)
            && t.len() > 0,
        second_replies.len() == 2,
        second_replies[0] matches Reply::Response { status, session: Some(s) } && is_success(
            status,
        ) && header_safe(bearer(s.access_token@)),
        second_replies[1] matches Reply::Response { status, .. } && is_success(status),
    ensures
        attempt_outcome(second, second_replies) == Phase::Done,
        attempt_requests(second, second_replies) == 2,
{
    let rest = second_replies.drop_first();
    let empty = rest.drop_first();
    assert(opening(second) == Phase::AwaitingSession);
    assert(advance(Phase::AwaitingSession, second_replies[0]) == Phase::AwaitingRecord);
    assert(rest[0] == second_replies[1]);
    assert(advance(Phase::AwaitingRecord, rest[0]) == Phase::Done);
    assert(empty.len() == 0);
    assert(final_phase(Phase::Done, empty) == Phase::Done);
    assert(requests_sent(Phase::Done, empty) == 0);
    assert(final_phase(Phase::AwaitingRecord, rest) == Phase::Done);
    assert(requests_sent(Phase::AwaitingRecord, rest) == 0);
}

} // verus!
