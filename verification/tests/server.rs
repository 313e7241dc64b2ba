use planning_poker::json::Json;
use planning_poker::server::{Connect, Disconnect, GameServer, Notice};
use planning_poker::websocket::{GameMessage, WebSocketMessage};

fn connect(room: &str, user: &str, addr: u32) -> Connect<u32> {
    Connect {
        addr,
        room_id: room.to_string(),
        user_id: user.to_string(),
        username: format!("name of {}", user),
        profile_image: None,
    }
}

fn recipients(notices: &[Notice]) -> Vec<String> {
    notices.iter().map(|n| n.to.clone()).collect()
}

#[test]
fn first_participant_is_told_nothing() {
    let mut server: GameServer<u32> = GameServer::new();
    let told = server.handle_connect(connect("r1", "a", 1));
    assert_eq!(told.greetings, vec![]);
    assert_eq!(told.announcements, vec![]);
    assert_eq!(server.channel("r1", "a"), Some(&1));
}

#[test]
fn newcomer_learns_of_the_others_and_the_others_of_the_newcomer() {
    let mut server: GameServer<u32> = GameServer::new();
    server.handle_connect(connect("r1", "a", 1));
    server.handle_connect(connect("r1", "b", 2));
    server.handle_connect(connect("r2", "z", 7));
    let told = server.handle_connect(connect("r1", "c", 3));
    assert_eq!(recipients(&told.greetings), vec!["c".to_string(), "c".to_string()]);
    let subjects: Vec<String> = told.greetings.iter().map(|n| n.message.user_id.clone()).collect();
    assert_eq!(subjects, vec!["a".to_string(), "b".to_string()]);
    for greeting in &told.greetings {
        assert_eq!(greeting.message.message_type, "user_connected");
        assert_eq!(greeting.message.room_id, "r1");
        assert_eq!(
            greeting.message.content.render(),
            format!("{{\"user_id\":\"{}\"}}", greeting.message.user_id)
        );
    }
    assert_eq!(recipients(&told.announcements), vec!["a".to_string(), "b".to_string()]);
    for announcement in &told.announcements {
        assert_eq!(announcement.message.message_type, "user_connected");
        assert_eq!(announcement.message.room_id, "r1");
        assert_eq!(announcement.message.user_id, "c");
        assert_eq!(
            announcement.message.content.render(),
            "{\"user_id\":\"c\",\"username\":\"name of c\",\"profile_image\":null}"
        );
    }
}

#[test]
fn reconnecting_participant_is_not_told_of_itself() {
    let mut server: GameServer<u32> = GameServer::new();
    server.handle_connect(connect("r1", "a", 1));
    server.handle_connect(connect("r1", "b", 2));
    let told = server.handle_connect(connect("r1", "b", 5));
    assert_eq!(recipients(&told.greetings), vec!["b".to_string()]);
    assert_eq!(told.greetings[0].message.user_id, "a");
    assert_eq!(recipients(&told.announcements), vec!["a".to_string()]);
    assert_eq!(server.channel("r1", "b"), Some(&5));
    assert_eq!(server.get_room_sessions("r1").unwrap().len(), 2);
}

#[test]
fn disconnect_tells_those_who_stay() {
    let mut server: GameServer<u32> = GameServer::new();
    server.handle_connect(connect("r1", "a", 1));
    server.handle_connect(connect("r1", "b", 2));
    server.handle_connect(connect("r1", "c", 3));
    let notices =
        server.handle_disconnect(Disconnect { room_id: "r1".to_string(), user_id: "b".to_string() });
    assert_eq!(recipients(&notices), vec!["a".to_string(), "c".to_string()]);
    for notice in &notices {
        assert_eq!(notice.message.message_type, "user_disconnected");
        assert_eq!(notice.message.content.render(), "{\"user_id\":\"b\"}");
        assert_eq!(notice.message.user_id, "b");
        assert_eq!(notice.message.room_id, "r1");
    }
    assert_eq!(server.channel("r1", "b"), None);
}

#[test]
fn last_disconnect_empties_the_room() {
    let mut server: GameServer<u32> = GameServer::new();
    server.handle_connect(connect("r1", "a", 1));
    let notices =
        server.handle_disconnect(Disconnect { room_id: "r1".to_string(), user_id: "a".to_string() });
    assert_eq!(notices, vec![]);
    assert_eq!(server.get_room_sessions("r1"), None);
    let again =
        server.handle_disconnect(Disconnect { room_id: "r1".to_string(), user_id: "a".to_string() });
    assert_eq!(again, vec![]);
}

#[test]
fn game_message_reaches_every_member_of_the_room() {
    let mut server: GameServer<u32> = GameServer::new();
    server.handle_connect(connect("r1", "a", 1));
    server.handle_connect(connect("r1", "b", 2));
    server.handle_connect(connect("r2", "c", 3));
    let message = GameMessage::EndVoting { story_id: "s".to_string(), final_score: 5 };
    let notices = server.handle_game_message("r1", &message);
    assert_eq!(recipients(&notices), vec!["a".to_string(), "b".to_string()]);
    for notice in &notices {
        assert_eq!(notice.message, message.to_message("r1"));
    }
    assert_eq!(server.handle_game_message("r3", &message), vec![]);
}

#[test]
fn message_is_passed_on_to_its_room() {
    let mut server: GameServer<u32> = GameServer::new();
    server.handle_connect(connect("r1", "a", 1));
    server.handle_connect(connect("r2", "b", 2));
    let message = WebSocketMessage {
        message_type: "anything".to_string(),
        content: Json::Null,
        room_id: "r2".to_string(),
        user_id: "b".to_string(),
    };
    let notices = server.handle_message(&message);
    assert_eq!(notices, vec![Notice { to: "b".to_string(), message: message.clone() }]);
    assert_eq!(server.send_message(&message, "r1").len(), 1);
    assert_eq!(server.send_message(&message, "r1")[0].to, "a");
}

#[test]
fn room_sessions_list_the_channels() {
    let mut server: GameServer<u32> = GameServer::new();
    assert_eq!(server.get_room_sessions("r1"), None);
    server.handle_connect(connect("r1", "a", 1));
    server.handle_connect(connect("r1", "b", 2));
    assert_eq!(
        server.get_room_sessions("r1"),
        Some(vec![("a".to_string(), &1), ("b".to_string(), &2)])
    );
}
