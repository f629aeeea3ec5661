//! One relay attempt as a state machine: the event it opens with, the requests it asks
//! the caller to make, and how each reply moves it on.
use vstd::prelude::*;

use crate::sanitize::{sanitize, sanitized, tags_only, lemma_tags_only_vanish};

verus! {

/// Why a relay attempt stopped without posting.
#[derive(Clone, Copy, Debug, PartialEq, Eq, Structural)]
pub enum RelayError {
    /// The content holds an entity that cannot be decoded.
    Decode,
    /// The session could not be created.
    Auth,
    /// The post could not be submitted.
    Submit,
}

/// One event of the watched account's stream, as far as the relay reads it.
#[derive(Clone, Debug, PartialEq, Eq)]
pub enum StreamEvent {
    /// A new post, with its HTML content.
    Update { content: String },
    /// Any other event: a deletion, a notification, a heartbeat.
    Other,
}

/// Login of the destination account.
#[derive(Clone, Debug, PartialEq, Eq)]
pub struct Credentials {
    pub identifier: String,
    pub password: String,
}

/// What a session-creation call hands back: a token and the account's identifier.
#[derive(Clone, Debug, PartialEq, Eq)]
pub struct Session {
    pub access_token: String,
    pub account_id: String,
}

/// The record that is posted.
#[derive(Clone, Debug, PartialEq, Eq)]
pub struct OutboundPost {
    pub record_type: String,
    pub text: String,
    pub created_at: String,
}

/// A call to the destination network that the caller is to make.
#[derive(Clone, Debug, PartialEq, Eq)]
pub enum Request {
    /// Log in with these credentials.
    CreateSession { identifier: String, password: String },
    /// Create `record` in the collection `collection` of the repository `repo`,
    /// sending `authorization` as the Authorization header.
    CreateRecord { authorization: String, repo: String, collection: String, record: OutboundPost },
}

/// What came back from the last request.
#[derive(Clone, Debug, PartialEq, Eq)]
pub enum Reply {
    /// No answer: the connection or the transfer failed.
    NoResponse,
    /// An answer with an HTTP status; for a session request, the session that its
    /// body held, where it could be read as one.
    Response { status: u16, session: Option<Session> },
}

/// Where a relay attempt stands.
#[derive(Clone, Copy, Debug, PartialEq, Eq, Structural)]
pub enum Phase {
    /// A session request is out.
    AwaitingSession,
    /// A record request is out.
    AwaitingRecord,
    /// The attempt is over: the post was submitted, or there was nothing to post.
    Done,
    /// The attempt is over without posting.
    Failed(RelayError),
}

/// One relay attempt: the text it posts and where it stands.
#[derive(Clone, Debug)]
pub struct Relay {
    pub phase: Phase,
    pub text: String,
}

/// The type and collection of a post.
pub open spec fn post_collection() -> Seq<char> {
    "app.bsky.feed.post"@
}

/// The Authorization header value for `token`.
pub open spec fn bearer(token: Seq<char>) -> Seq<char> {
    "Bearer "@ + token
}

/// A character whose bytes may all stand in a header value: a tab, or no control byte.
pub open spec fn header_char(c: char) -> bool {
    c == '\t' || (c as u32 >= 32 && c as u32 != 127)
}

pub open spec fn header_safe(s: Seq<char>) -> bool {
    forall|i: int| 0 <= i < s.len() ==> header_char(#[trigger] s[i])
}

pub open spec fn is_success(status: u16) -> bool {
    200 <= status < 300
}

/// Relies on `reqwest::header::HeaderValue::from_str`: it accepts a string exactly when
/// each byte is a tab or lies from 32 to 255 without being 127; a character outside
/// ASCII is made of bytes from 128 on.
#[verifier::external_body]
fn header_value_accepts(s: &str) -> (r: bool)
    ensures
        r == header_safe(s@),
{
    reqwest::header::HeaderValue::from_str(s).is_ok()
}

/// Relies on `chrono::Utc::now` and `DateTime::to_rfc3339`: the current UTC time as an
/// RFC 3339 timestamp. It depends on the clock, so nothing is stated of it.
#[verifier::external_body]
fn utc_now_rfc3339() -> (r: String) {
    chrono::Utc::now().to_rfc3339()
}

/// The phase that an event opens an attempt in.
pub open spec fn opening(event: StreamEvent) -> Phase {
    match event {
        StreamEvent::Update { content } => match sanitized(content@) {
            Some(t) => if t.len() == 0 { Phase::Done } else { Phase::AwaitingSession },
            None => Phase::Failed(RelayError::Decode),
        },
        StreamEvent::Other => Phase::Done,
    }
}

/// The phase after the reply to a session request.
pub open spec fn after_session(reply: Reply) -> Phase {
    match reply {
        Reply::Response { status, session: Some(s) } => if !is_success(status) {
            Phase::Failed(RelayError::Auth)
        } else if header_safe(bearer(s.access_token@)) {
            Phase::AwaitingRecord
        } else {
            Phase::Failed(RelayError::Submit)
        },
        _ => Phase::Failed(RelayError::Auth),
    }
}

/// The phase after the reply to a record request.
pub open spec fn after_record(reply: Reply) -> Phase {
    match reply {
        Reply::Response { status, .. } => if is_success(status) {
            Phase::Done
        } else {
            Phase::Failed(RelayError::Submit)
        },
        Reply::NoResponse => Phase::Failed(RelayError::Submit),
    }
}

/// The phase after `reply` reaches an attempt in phase `p`; an attempt that is over
/// stays as it is.
pub open spec fn advance(p: Phase, reply: Reply) -> Phase {
    match p {
        Phase::AwaitingSession => after_session(reply),
        Phase::AwaitingRecord => after_record(reply),
        _ => p,
    }
}

pub open spec fn is_waiting(p: Phase) -> bool {
    p is AwaitingSession || p is AwaitingRecord
}

/// `q` asks for a session with `credentials`.
pub open spec fn is_session_request(q: Request, credentials: Credentials) -> bool {
    q matches Request::CreateSession { identifier, password } && identifier@
        == credentials.identifier@ && password@ == credentials.password@
}

/// `q` posts `text` with the token and account of `s`, stamped `created_at`.
pub open spec fn is_record_request(
    q: Request,
    s: Session,
    text: Seq<char>,
    created_at: Seq<char>,
) -> bool {
    q matches Request::CreateRecord { authorization, repo, collection, record } && authorization@
        == bearer(s.access_token@) && repo@ == s.account_id@ && collection@ == post_collection()
        && record.record_type@ == post_collection() && record.text@ == text && record.created_at@
        == created_at
}

fn post_collection_string() -> (r: String)
    ensures
        r@ == post_collection(),
{
    String::from_str("app.bsky.feed.post")
}

impl Relay {
    /// An attempt that waits holds text to post.
    pub open spec fn wf(&self) -> bool {
        is_waiting(self.phase) ==> self.text@.len() > 0
    }

    /// Opens an attempt for `event`, with the first request to make, if any.
    pub fn start(event: &StreamEvent, credentials: &Credentials) -> (r: (Relay, Option<Request>))
        ensures
            r.0.phase == opening(*event),
            r.0.wf(),
            r.0.phase is AwaitingSession ==> (event matches StreamEvent::Update { content }
                && sanitized(content@) == Some(r.0.text@)),
            r.1 is Some <==> r.0.phase is AwaitingSession,
            r.1 matches Some(q) ==> is_session_request(q, *credentials),
            (event matches StreamEvent::Update { content } && !content@.contains('&')
                && tags_only(content@)) ==> (r.0.phase == Phase::Done && r.1 is None),
    {
        match event {
            StreamEvent::Update { content } => match sanitize(content.as_str()) {
                Ok(text) => {
                    proof {
                        if !content@.contains('&') && tags_only(content@) {
                            lemma_tags_only_vanish(content@);
                        }
                    }
                    if text.as_str().is_empty() {
                        (Relay { phase: Phase::Done, text }, None)
                    } else {
                        let q = Request::CreateSession {
                            identifier: credentials.identifier.clone(),
                            password: credentials.password.clone(),
                        };
                        (Relay { phase: Phase::AwaitingSession, text }, Some(q))
                    }
                },
                Err(e) => (Relay { phase: Phase::Failed(e), text: String::new() }, None),
            },
            StreamEvent::Other => (Relay { phase: Phase::Done, text: String::new() }, None),
        }
    }

    /// Hands the attempt the reply to its last request, with the time to stamp a post
    /// with; returns the next request to make, if any.
    pub fn resume(&mut self, reply: Reply, created_at: &str) -> (r: Option<Request>)
        ensures
            final(self).phase == advance(old(self).phase, reply),
            final(self).text@ == old(self).text@,
            old(self).wf() ==> final(self).wf(),
            r is Some <==> (old(self).phase is AwaitingSession && final(self).phase
                is AwaitingRecord),
            r matches Some(q) ==> (reply matches Reply::Response { session: Some(s), .. }
                && is_record_request(q, s, old(self).text@, created_at@)),
    {
        match self.phase {
            Phase::AwaitingSession => match reply {
                Reply::Response { status, session: Some(s) } => {
                    if status < 200 || status >= 300 {
                        self.phase = Phase::Failed(RelayError::Auth);
                        return None;
                    }
                    let authorization = String::from_str("Bearer ").concat(
                        s.access_token.as_str(),
                    );
                    if !header_value_accepts(authorization.as_str()) {
                        self.phase = Phase::Failed(RelayError::Submit);
                        return None;
                    }
                    self.phase = Phase::AwaitingRecord;
                    let record = OutboundPost {
                        record_type: post_collection_string(),
                        text: self.text.clone(),
                        created_at: String::from_str(created_at),
                    };
                    Some(
                        Request::CreateRecord {
                            authorization,
                            repo: s.account_id,
                            collection: post_collection_string(),
                            record,
                        },
                    )
                },
                _ => {
                    self.phase = Phase::Failed(RelayError::Auth);
                    None
                },
            },
            Phase::AwaitingRecord => {
                self.phase = match reply {
                    Reply::Response { status, .. } => if 200 <= status && status < 300 {
                        Phase::Done
                    } else {
                        Phase::Failed(RelayError::Submit)
                    },
                    Reply::NoResponse => Phase::Failed(RelayError::Submit),
                };
                None
            },
            _ => None,
        }
    }

    /// As `resume`, stamping a post with the current UTC time.
    pub fn resume_now(&mut self, reply: Reply) -> (r: Option<Request>)
        ensures
            final(self).phase == advance(old(self).phase, reply),
            final(self).text@ == old(self).text@,
            old(self).wf() ==> final(self).wf(),
            r is Some <==> (old(self).phase is AwaitingSession && final(self).phase
                is AwaitingRecord),
            r matches Some(q) ==> (reply matches Reply::Response { session: Some(s), .. }
                && q matches Request::CreateRecord { record, .. } && is_record_request(
                q,
                s,
                old(self).text@,
                record.created_at@,
            )),
    {
        let now = utc_now_rfc3339();
        self.resume(reply, now.as_str())
    }
}

} // verus!
