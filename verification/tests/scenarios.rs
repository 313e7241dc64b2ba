use planning_poker::error::ErrorKind;
use planning_poker::handlers::game_room::{coordinate, Action};
use planning_poker::handlers::lobby::{join_room, open_room};
use planning_poker::json::Json;
use planning_poker::models::game_room::{CreateRoomDto, GameRoom};
use planning_poker::models::user::User;
use planning_poker::oid::is_valid_id;
use planning_poker::server::{GameServer, Notice};
use planning_poker::session::{Directive, Frame, WebSocketSession};
use planning_poker::websocket::WebSocketMessage;

const R1: &str = "65a1b2c3d4e5f60718293a4d";
const A: &str = "65a1b2c3d4e5f60718293a41";
const B: &str = "65a1b2c3d4e5f60718293a42";

fn account(id: &str, name: &str) -> User {
    User {
        id: Some(id.to_string()),
        email: format!("{}@example.com", name),
        username: name.to_string(),
        password_hash: "hash".to_string(),
        profile_image: None,
    }
}

struct World {
    server: GameServer<usize>,
    room: GameRoom,
    inboxes: Vec<Vec<String>>,
}

impl World {
    fn send(&mut self, notices: Vec<Notice>) {
        for notice in notices {
            if let Some(channel) = self.server.channel(R1, &notice.to) {
                self.inboxes[*channel].push(notice.message.to_text());
            }
        }
    }

    fn join(&mut self, session: &mut WebSocketSession) {
        self.inboxes.push(Vec::new());
        let connect = session.started(self.inboxes.len() - 1);
        let told = self.server.handle_connect(connect);
        self.send(told.greetings);
        self.send(told.announcements);
    }

    fn leave(&mut self, session: &mut WebSocketSession) {
        if let Some(disconnect) = session.stopping() {
            let notices = self.server.handle_disconnect(disconnect);
            self.send(notices);
        }
    }

    fn receive(&mut self, session: &WebSocketSession, voter: &User, text: &str, now: i64) -> Option<ErrorKind> {
        match session.handle(Frame::Text(text.to_string())) {
            Directive::Event(event) => {
                match coordinate(&mut self.room, R1, &session.user_id, Some(voter), event, now) {
                    Ok(Action::Broadcast(message)) => {
                        let notices = self.server.handle_game_message(R1, &message);
                        self.send(notices);
                        None
                    }
                    Ok(Action::Archive(_)) => None,
                    Err(kind) => Some(kind),
                }
            }
            Directive::Reject(kind) => Some(kind),
            _ => None,
        }
    }
}

fn world() -> World {
    let room = open_room(A.to_string(), CreateRoomDto { name: "R1".to_string() }, "AB12CD".to_string(), 1);
    let mut room = room;
    room.id = Some(R1.to_string());
    let (room, _) = join_room(Some(room), B, 2).unwrap();
    World { server: GameServer::new(), room, inboxes: Vec::new() }
}

fn frame(kind: &str, content: &str, user: &str) -> String {
    format!(
        "{{\"message_type\":\"{}\",\"content\":{},\"room_id\":\"{}\",\"user_id\":\"{}\"}}",
        kind, content, R1, user
    )
}

fn last(inbox: &[String]) -> WebSocketMessage {
    WebSocketMessage::from_text(inbox.last().unwrap()).unwrap()
}

#[test]
fn a_story_is_put_up_voted_on_and_scored() {
    let mut w = world();
    let ann = account(A, "Ann");
    let bob = account(B, "Bob");
    let mut sa = WebSocketSession::new(R1.to_string(), A.to_string(), "Ann".to_string(), None);
    let mut sb = WebSocketSession::new(R1.to_string(), B.to_string(), "Bob".to_string(), None);
    w.join(&mut sa);
    w.join(&mut sb);
    let seen_a = w.inboxes[0].len();
    let seen_b = w.inboxes[1].len();

    let put_up = frame("new_story", "{\"title\":\"Login page\"}", A);
    assert_eq!(w.receive(&sa, &ann, &put_up, 10), None);
    assert_eq!(w.inboxes[0].len(), seen_a + 1);
    assert_eq!(w.inboxes[1].len(), seen_b + 1);
    assert_eq!(w.inboxes[0].last(), w.inboxes[1].last());
    let told = last(&w.inboxes[1]);
    assert_eq!(told.message_type, "new_story");
    assert_eq!(told.room_id, R1);
    let story_id = told.content.text_at("id").unwrap();
    assert!(is_valid_id(&story_id));
    assert_eq!(told.content.text_at("title"), Some("Login page".to_string()));
    assert_eq!(told.content.text_at("room_id"), Some(R1.to_string()));
    assert_eq!(told.content.get("votes"), Some(&Json::Array(vec![])));
    assert_eq!(told.content.get("final_score"), Some(&Json::Null));

    let vote = frame("vote", &format!("{{\"story_id\":\"{}\",\"value\":5}}", story_id), B);
    assert_eq!(w.receive(&sb, &bob, &vote, 11), None);
    assert_eq!(w.inboxes[0].len(), seen_a + 2);
    assert_eq!(w.inboxes[1].len(), seen_b + 2);
    for inbox in &w.inboxes {
        let told = last(inbox);
        assert_eq!(told.message_type, "vote");
        assert_eq!(told.user_id, B);
        assert_eq!(told.content.i64_at("value"), Some(5));
        assert_eq!(told.content.text_at("username"), Some("Bob".to_string()));
        assert_eq!(told.content.text_at("story_id"), Some(story_id.clone()));
    }

    let end = frame("end_voting", &format!("{{\"story_id\":\"{}\",\"final_score\":5}}", story_id), A);
    assert_eq!(w.receive(&sa, &ann, &end, 12), None);
    for inbox in &w.inboxes {
        let told = last(inbox);
        assert_eq!(told.message_type, "end_voting");
        assert_eq!(told.content.i64_at("final_score"), Some(5));
        assert_eq!(told.content.text_at("story_id"), Some(story_id.clone()));
    }
    assert_eq!(w.inboxes[0].len(), seen_a + 3);
    assert_eq!(w.inboxes[1].len(), seen_b + 3);
    assert_eq!(w.room.current_story, None);
    assert_eq!(w.room.completed_stories.len(), 1);
    assert_eq!(w.room.completed_stories[0].id, story_id);
    assert_eq!(w.room.completed_stories[0].final_score, Some(5));
    assert_eq!(w.room.completed_stories[0].votes.len(), 1);
    assert_eq!(w.room.completed_stories[0].votes[0].user_id, B);
    assert_eq!(w.room.completed_stories[0].votes[0].value, 5);
}

#[test]
fn a_participant_that_comes_back_is_held_once() {
    let mut w = world();
    let mut sa = WebSocketSession::new(R1.to_string(), A.to_string(), "Ann".to_string(), None);
    let mut sb = WebSocketSession::new(R1.to_string(), B.to_string(), "Bob".to_string(), None);
    w.join(&mut sa);
    w.join(&mut sb);
    w.leave(&mut sb);
    w.leave(&mut sb);
    let mut again = WebSocketSession::new(R1.to_string(), B.to_string(), "Bob".to_string(), None);
    w.join(&mut again);
    let sessions = w.server.get_room_sessions(R1).unwrap();
    let entries: Vec<&(String, &usize)> = sessions.iter().filter(|(id, _)| id == B).collect();
    assert_eq!(entries.len(), 1);
    assert_eq!(*entries[0].1, 2);
    assert_eq!(sessions.len(), 2);
    let kinds: Vec<String> = w.inboxes[0]
        .iter()
        .map(|t| WebSocketMessage::from_text(t).unwrap().message_type)
        .collect();
    assert_eq!(kinds, vec!["user_connected", "user_disconnected", "user_connected"]);
    assert_eq!(w.inboxes[1].len(), 1);
    assert_eq!(w.inboxes[2].len(), 1);
    assert_eq!(last(&w.inboxes[2]).user_id, A);
}

#[test]
fn a_vote_for_another_story_is_met_with_silence() {
    let mut w = world();
    let ann = account(A, "Ann");
    let bob = account(B, "Bob");
    let mut sa = WebSocketSession::new(R1.to_string(), A.to_string(), "Ann".to_string(), None);
    let mut sb = WebSocketSession::new(R1.to_string(), B.to_string(), "Bob".to_string(), None);
    w.join(&mut sa);
    w.join(&mut sb);
    let put_up = frame("new_story", "{\"title\":\"Login page\"}", A);
    assert_eq!(w.receive(&sa, &ann, &put_up, 10), None);
    let room_before = format!("{:?}", w.room);
    let inboxes_before = w.inboxes.clone();
    let vote = frame("vote", "{\"story_id\":\"000000000000000000000000\",\"value\":5}", B);
    assert_eq!(w.receive(&sb, &bob, &vote, 11), Some(ErrorKind::UnknownStory));
    assert_eq!(w.inboxes, inboxes_before);
    assert_eq!(format!("{:?}", w.room).as_bytes(), room_before.as_bytes());
    assert_eq!(w.room.current_story.as_ref().unwrap().votes.len(), 0);
}
