use planning_poker::error::ErrorKind;
use planning_poker::json::Json;
use planning_poker::models::game_room::StoryDraft;
use planning_poker::session::{
    decode_event, ClientEvent, CloseReason, Directive, Frame, Phase, WebSocketSession,
};
use planning_poker::websocket::WebSocketMessage;

fn session() -> WebSocketSession {
    WebSocketSession::new("r1".to_string(), "b".to_string(), "Bo".to_string(), None)
}

fn envelope(kind: &str, content: &str) -> String {
    format!(
        "{{\"message_type\":\"{}\",\"content\":{},\"room_id\":\"r1\",\"user_id\":\"b\"}}",
        kind, content
    )
}

fn read(kind: &str, content: &str) -> Directive {
    session().handle(Frame::Text(envelope(kind, content)))
}

#[test]
fn new_session_is_fresh() {
    let s = session();
    assert_eq!(s.room_id, "r1");
    assert_eq!(s.user_id, "b");
    assert_eq!(s.username, "Bo");
    assert_eq!(s.profile_image, None);
    assert_eq!(s.phase, Phase::Fresh);
}

#[test]
fn started_announces_the_participant() {
    let mut s = WebSocketSession::new(
        "r1".to_string(),
        "b".to_string(),
        "Bo".to_string(),
        Some("/p.jpg".to_string()),
    );
    let connect = s.started(7u32);
    assert_eq!(connect.addr, 7);
    assert_eq!(connect.room_id, "r1");
    assert_eq!(connect.user_id, "b");
    assert_eq!(connect.username, "Bo");
    assert_eq!(connect.profile_image, Some("/p.jpg".to_string()));
    assert_eq!(s.phase, Phase::Open);
}

#[test]
fn stopping_takes_leave_once() {
    let mut s = session();
    s.started(1u32);
    let leave = s.stopping().unwrap();
    assert_eq!(leave.room_id, "r1");
    assert_eq!(leave.user_id, "b");
    assert_eq!(s.phase, Phase::Closed);
    assert_eq!(s.stopping(), None);
    assert_eq!(s.stopping(), None);
    assert_eq!(s.phase, Phase::Closed);
}

#[test]
fn stopping_before_starting_takes_no_leave() {
    let mut s = session();
    assert_eq!(s.stopping(), None);
    assert_eq!(s.phase, Phase::Closed);
}

#[test]
fn ping_is_answered_and_close_is_followed() {
    let s = session();
    assert_eq!(s.handle(Frame::Ping(vec![1, 2, 3])), Directive::Pong(vec![1, 2, 3]));
    assert_eq!(s.handle(Frame::Close(None)), Directive::Close(None));
    let handled = s.handle(Frame::Close(Some(CloseReason {
        code: 1000,
        description: Some("bye".to_string()),
    })));
    assert_eq!(
        handled,
        Directive::Close(Some(CloseReason { code: 1000, description: Some("bye".to_string()) }))
    );
    assert_eq!(s.handle(Frame::Other), Directive::Ignore);
}

#[test]
fn new_story_is_read() {
    assert_eq!(
        read("new_story", "{\"title\":\"Login page\"}"),
        Directive::Event(ClientEvent::NewStory {
            draft: StoryDraft { title: "Login page".to_string(), description: None }
        })
    );
    assert_eq!(
        read(
            "new_story",
            "{\"id\":\"mine\",\"title\":\"t\",\"description\":\"d\",\"votes\":7,\"final_score\":\"x\"}"
        ),
        Directive::Event(ClientEvent::NewStory {
            draft: StoryDraft { title: "t".to_string(), description: Some("d".to_string()) }
        })
    );
    assert_eq!(
        read("new_story", "{\"title\":\"t\",\"description\":null}"),
        Directive::Event(ClientEvent::NewStory {
            draft: StoryDraft { title: "t".to_string(), description: None }
        })
    );
    assert_eq!(read("new_story", "{\"description\":\"d\"}"), Directive::Reject(ErrorKind::MalformedEvent));
    assert_eq!(read("new_story", "{\"title\":5}"), Directive::Reject(ErrorKind::MalformedEvent));
    assert_eq!(
        read("new_story", "{\"title\":\"t\",\"description\":5}"),
        Directive::Reject(ErrorKind::MalformedEvent)
    );
    assert_eq!(read("new_story", "null"), Directive::Reject(ErrorKind::MalformedEvent));
}

#[test]
fn vote_is_read() {
    assert_eq!(
        read("vote", "{\"story_id\":\"s1\",\"value\":5}"),
        Directive::Event(ClientEvent::Vote { story_id: "s1".to_string(), value: 5 })
    );
    assert_eq!(
        read("vote", "{\"story_id\":\"s1\",\"value\":4294967301}"),
        Directive::Event(ClientEvent::Vote { story_id: "s1".to_string(), value: 5 })
    );
    assert_eq!(read("vote", "{\"story_id\":\"s1\"}"), Directive::Reject(ErrorKind::MalformedEvent));
    assert_eq!(read("vote", "{\"value\":5}"), Directive::Reject(ErrorKind::MalformedEvent));
    assert_eq!(
        read("vote", "{\"story_id\":\"s1\",\"value\":\"5\"}"),
        Directive::Reject(ErrorKind::MalformedEvent)
    );
    assert_eq!(
        read("vote", "{\"story_id\":\"s1\",\"value\":5.5}"),
        Directive::Reject(ErrorKind::MalformedEvent)
    );
    assert_eq!(
        read("vote", "{\"story_id\":7,\"value\":5}"),
        Directive::Reject(ErrorKind::MalformedEvent)
    );
}

#[test]
fn end_voting_is_read() {
    assert_eq!(
        read("end_voting", "{\"story_id\":\"s1\",\"final_score\":8}"),
        Directive::Event(ClientEvent::EndVoting { story_id: "s1".to_string(), final_score: 8 })
    );
    assert_eq!(
        read("end_voting", "{\"story_id\":\"s1\"}"),
        Directive::Reject(ErrorKind::MalformedEvent)
    );
    assert_eq!(
        read("end_voting", "{\"final_score\":8}"),
        Directive::Reject(ErrorKind::MalformedEvent)
    );
}

#[test]
fn save_final_score_is_read() {
    assert_eq!(
        read("save_final_score", "{\"story\":{\"title\":\"t\",\"x\":[1,2.5]}}"),
        Directive::Event(ClientEvent::SaveFinalScore {
            story: Json::parse("{\"title\":\"t\",\"x\":[1,2.5]}").unwrap()
        })
    );
    assert_eq!(read("save_final_score", "{}"), Directive::Reject(ErrorKind::MalformedEvent));
}

#[test]
fn unknown_types_are_dropped() {
    assert_eq!(read("start_voting", "{\"story_id\":\"s1\"}"), Directive::Ignore);
    assert_eq!(read("user_connected", "{\"user_id\":\"x\"}"), Directive::Ignore);
    assert_eq!(read("", "null"), Directive::Ignore);
    assert_eq!(read("NEW_STORY", "null"), Directive::Ignore);
}

#[test]
fn text_without_an_envelope_is_malformed() {
    let s = session();
    for text in ["", "hello", "{}", "[]", "{\"message_type\":\"vote\"}"] {
        assert_eq!(
            s.handle(Frame::Text(text.to_string())),
            Directive::Reject(ErrorKind::MalformedEvent)
        );
    }
}

#[test]
fn decode_event_reads_an_envelope() {
    let message = WebSocketMessage::from_text(&envelope("vote", "{\"story_id\":\"s\",\"value\":-2}"))
        .unwrap();
    assert_eq!(
        decode_event(&message),
        Directive::Event(ClientEvent::Vote { story_id: "s".to_string(), value: -2 })
    );
}
