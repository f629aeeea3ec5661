use toot_relay::relay::{
    Credentials, OutboundPost, Phase, Relay, RelayError, Reply, Request, Session, StreamEvent,
};

fn credentials() -> Credentials {
    Credentials { identifier: String::from("me.bsky.social"), password: String::from("hunter2") }
}

fn update(content: &str) -> StreamEvent {
    StreamEvent::Update { content: String::from(content) }
}

fn session_reply(status: u16, token: &str, did: &str) -> Reply {
    Reply::Response {
        status,
        session: Some(Session { access_token: String::from(token), account_id: String::from(did) }),
    }
}

fn ok_reply() -> Reply {
    Reply::Response { status: 200, session: None }
}

fn started(content: &str) -> Relay {
    let (relay, request) = Relay::start(&update(content), &credentials());
    assert!(request.is_some());
    relay
}

#[test]
fn update_asks_for_a_session() {
    let (relay, request) = Relay::start(&update("<p>Hello <b>world</b></p>"), &credentials());
    assert_eq!(relay.phase, Phase::AwaitingSession);
    assert_eq!(relay.text, "Hello world");
    assert_eq!(
        request,
        Some(Request::CreateSession {
            identifier: String::from("me.bsky.social"),
            password: String::from("hunter2"),
        })
    );
}

#[test]
fn other_event_is_a_no_op() {
    let (mut relay, request) = Relay::start(&StreamEvent::Other, &credentials());
    assert_eq!(relay.phase, Phase::Done);
    assert_eq!(request, None);
    assert_eq!(relay.resume(ok_reply(), "2024-01-01T00:00:00+00:00"), None);
    assert_eq!(relay.phase, Phase::Done);
}

#[test]
fn tag_only_update_makes_no_request() {
    let (relay, request) = Relay::start(&update("<img src=\"x\"/>"), &credentials());
    assert_eq!(relay.phase, Phase::Done);
    assert_eq!(request, None);
}

#[test]
fn undecodable_update_fails() {
    let (relay, request) = Relay::start(&update("&nosuchthing; hi"), &credentials());
    assert_eq!(relay.phase, Phase::Failed(RelayError::Decode));
    assert_eq!(request, None);
}

#[test]
fn session_leads_to_record_request() {
    let mut relay = started("Hello &amp; welcome");
    let request = relay.resume(session_reply(200, "tok", "did:plc:abc"), "2024-05-06T07:08:09+00:00");
    assert_eq!(relay.phase, Phase::AwaitingRecord);
    assert_eq!(
        request,
        Some(Request::CreateRecord {
            authorization: String::from("Bearer tok"),
            repo: String::from("did:plc:abc"),
            collection: String::from("app.bsky.feed.post"),
            record: OutboundPost {
                record_type: String::from("app.bsky.feed.post"),
                text: String::from("Hello & welcome"),
                created_at: String::from("2024-05-06T07:08:09+00:00"),
            },
        })
    );
    assert_eq!(relay.resume(ok_reply(), "ignored"), None);
    assert_eq!(relay.phase, Phase::Done);
}

#[test]
fn resume_now_stamps_the_post() {
    let mut relay = started("hi");
    match relay.resume_now(session_reply(201, "t", "did:x")) {
        Some(Request::CreateRecord { authorization, repo, record, .. }) => {
            assert_eq!(authorization, "Bearer t");
            assert_eq!(repo, "did:x");
            assert_eq!(record.text, "hi");
            assert!(!record.created_at.is_empty());
        }
        other => panic!("unexpected request {:?}", other),
    }
    assert_eq!(relay.phase, Phase::AwaitingRecord);
}

#[test]
fn unreachable_session_is_an_auth_error() {
    let mut relay = started("hi");
    assert_eq!(relay.resume(Reply::NoResponse, "now"), None);
    assert_eq!(relay.phase, Phase::Failed(RelayError::Auth));
}

#[test]
fn refused_session_is_an_auth_error() {
    let mut relay = started("hi");
    assert_eq!(relay.resume(session_reply(401, "tok", "did"), "now"), None);
    assert_eq!(relay.phase, Phase::Failed(RelayError::Auth));
}

#[test]
fn unreadable_session_is_an_auth_error() {
    let mut relay = started("hi");
    assert_eq!(relay.resume(ok_reply(), "now"), None);
    assert_eq!(relay.phase, Phase::Failed(RelayError::Auth));
}

#[test]
fn token_with_control_character_is_a_submit_error() {
    let mut relay = started("hi");
    assert_eq!(relay.resume(session_reply(200, "to\nk", "did"), "now"), None);
    assert_eq!(relay.phase, Phase::Failed(RelayError::Submit));
    let mut relay = started("hi");
    assert_eq!(relay.resume(session_reply(200, "tok\u{7f}", "did"), "now"), None);
    assert_eq!(relay.phase, Phase::Failed(RelayError::Submit));
}

#[test]
fn token_with_tab_or_non_ascii_is_accepted() {
    let mut relay = started("hi");
    assert!(relay.resume(session_reply(200, "a\tb", "did"), "now").is_some());
    let mut relay = started("hi");
    assert!(relay.resume(session_reply(200, "jéton", "did"), "now").is_some());
    assert_eq!(relay.phase, Phase::AwaitingRecord);
}

#[test]
fn failed_record_is_a_submit_error() {
    let mut relay = started("hi");
    relay.resume(session_reply(200, "tok", "did"), "now");
    assert_eq!(relay.resume(Reply::Response { status: 500, session: None }, "now"), None);
    assert_eq!(relay.phase, Phase::Failed(RelayError::Submit));
    let mut relay = started("hi");
    relay.resume(session_reply(200, "tok", "did"), "now");
    relay.resume(Reply::NoResponse, "now");
    assert_eq!(relay.phase, Phase::Failed(RelayError::Submit));
}

#[test]
fn failed_submit_does_not_touch_the_next_attempt() {
    let mut first = started("first post");
    first.resume(session_reply(200, "tok-a", "did:a"), "now");
    first.resume(Reply::NoResponse, "now");
    assert_eq!(first.phase, Phase::Failed(RelayError::Submit));

    let mut second = started("second post");
    assert!(second.resume(session_reply(200, "tok-b", "did:b"), "now").is_some());
    assert_eq!(second.resume(ok_reply(), "now"), None);
    assert_eq!(second.phase, Phase::Done);
    assert_eq!(first.phase, Phase::Failed(RelayError::Submit));
}

#[test]
fn each_update_opens_its_own_session() {
    let (mut first, first_request) = Relay::start(&update("one"), &credentials());
    let (mut second, second_request) = Relay::start(&update("two"), &credentials());
    assert!(matches!(first_request, Some(Request::CreateSession { .. })));
    assert!(matches!(second_request, Some(Request::CreateSession { .. })));

    let first_record = first.resume(session_reply(200, "tok-1", "did:1"), "now");
    let second_record = second.resume(session_reply(200, "tok-2", "did:2"), "now");
    match (first_record, second_record) {
        (
            Some(Request::CreateRecord { authorization: a, record: ra, .. }),
            Some(Request::CreateRecord { authorization: b, record: rb, .. }),
        ) => {
            assert_eq!(a, "Bearer tok-1");
            assert_eq!(ra.text, "one");
            assert_eq!(b, "Bearer tok-2");
            assert_eq!(rb.text, "two");
        }
        other => panic!("unexpected requests {:?}", other),
    }
    assert_eq!(first.resume(ok_reply(), "now"), None);
    assert_eq!(second.resume(ok_reply(), "now"), None);
}
