use planning_poker::error::ErrorKind;
use planning_poker::handlers::game_room::{
    archive_story, completed_story_message, coordinate, handle_end_voting, handle_new_story,
    handle_save_final_score, handle_vote, locate_room, locate_user, start_story, Action,
};
use planning_poker::json::Json;
use planning_poker::models::game_room::{find_counting_vote, GameRoom, Story, StoryDraft, Vote};
use planning_poker::models::user::User;
use planning_poker::oid::is_valid_id;
use planning_poker::session::ClientEvent;
use planning_poker::websocket::GameMessage;

const ROOM: &str = "65a1b2c3d4e5f60718293a4d";

fn room() -> GameRoom {
    GameRoom {
        id: Some(ROOM.to_string()),
        name: "Sprint 12".to_string(),
        invite_code: "AB12CD".to_string(),
        admin_id: "a".to_string(),
        participants: vec!["a".to_string(), "b".to_string()],
        current_story: None,
        completed_stories: vec![],
        stories: vec![],
        created_at: 100,
        updated_at: 100,
    }
}

fn draft(title: &str) -> StoryDraft {
    StoryDraft { title: title.to_string(), description: Some("d".to_string()) }
}

fn account(name: &str) -> User {
    User {
        id: Some("65a1b2c3d4e5f60718293a40".to_string()),
        email: format!("{}@example.com", name),
        username: name.to_string(),
        password_hash: "hash".to_string(),
        profile_image: Some(format!("/uploads/{}.jpg", name)),
    }
}

fn well_formed(room: &GameRoom) -> bool {
    let admin = room.participants.contains(&room.admin_id);
    let mut unique = true;
    for (i, p) in room.participants.iter().enumerate() {
        if room.participants[..i].contains(p) {
            unique = false;
        }
    }
    let current = match &room.current_story {
        Some(s) => room.stories.iter().any(|t| t.id == s.id),
        None => true,
    };
    admin && unique && current
}

#[test]
fn start_story_puts_the_story_up() {
    let mut r = room();
    let message = start_story(&mut r, ROOM, draft("Login page"), "s1".to_string(), 200);
    let expected = Story {
        id: "s1".to_string(),
        room_id: ROOM.to_string(),
        title: "Login page".to_string(),
        description: Some("d".to_string()),
        votes: vec![],
        final_score: None,
    };
    assert_eq!(message, GameMessage::NewStory { story: expected.clone() });
    assert_eq!(r.current_story, Some(expected.clone()));
    assert_eq!(r.stories, vec![expected]);
    assert_eq!(r.completed_stories, vec![]);
    assert_eq!(r.updated_at, 200);
    assert_eq!(r.created_at, 100);
    assert!(well_formed(&r));
}

#[test]
fn new_story_replaces_the_one_being_estimated() {
    let mut r = room();
    start_story(&mut r, ROOM, draft("one"), "s1".to_string(), 200);
    start_story(&mut r, ROOM, draft("two"), "s2".to_string(), 300);
    assert_eq!(r.current_story.as_ref().unwrap().id, "s2");
    assert_eq!(r.stories.len(), 2);
    assert_eq!(r.stories[0].id, "s1");
    assert_eq!(r.stories[1].id, "s2");
    assert!(well_formed(&r));
}

#[test]
fn handle_new_story_assigns_a_new_id() {
    let mut r = room();
    let first = handle_new_story(&mut r, ROOM, draft("one"), 200);
    let second = handle_new_story(&mut r, ROOM, draft("two"), 201);
    let (a, b) = match (first, second) {
        (GameMessage::NewStory { story: a }, GameMessage::NewStory { story: b }) => (a, b),
        _ => panic!("a story that is put up is announced as a new story"),
    };
    assert!(is_valid_id(&a.id));
    assert!(is_valid_id(&b.id));
    assert_ne!(a.id, b.id);
    assert_eq!(a.room_id, ROOM);
    assert_eq!(a.title, "one");
    assert_eq!(a.votes, vec![]);
    assert_eq!(a.final_score, None);
    assert_eq!(r.current_story, Some(b));
}

#[test]
fn vote_is_added_with_the_identity_of_the_account() {
    let mut r = room();
    start_story(&mut r, ROOM, draft("Login page"), "s1".to_string(), 200);
    let outcome = handle_vote(&mut r, &account("Bo"), "b", "s1", 5, 300);
    assert_eq!(
        outcome,
        Ok(GameMessage::Vote {
            user_id: "b".to_string(),
            story_id: "s1".to_string(),
            value: 5,
            username: "Bo".to_string(),
            profile_image: Some("/uploads/Bo.jpg".to_string()),
        })
    );
    let expected = Vote {
        user_id: "b".to_string(),
        username: "Bo".to_string(),
        profile_image: Some("/uploads/Bo.jpg".to_string()),
        value: 5,
        timestamp: 300,
    };
    assert_eq!(r.current_story.as_ref().unwrap().votes, vec![expected]);
    assert_eq!(r.stories[0].votes, vec![]);
    assert_eq!(r.updated_at, 300);
    assert!(well_formed(&r));
}

#[test]
fn votes_are_kept_in_arrival_order_and_never_replaced() {
    let mut r = room();
    start_story(&mut r, ROOM, draft("Login page"), "s1".to_string(), 200);
    handle_vote(&mut r, &account("Bo"), "b", "s1", 5, 300).unwrap();
    handle_vote(&mut r, &account("Al"), "a", "s1", 8, 301).unwrap();
    handle_vote(&mut r, &account("Bo"), "b", "s1", 3, 302).unwrap();
    let values: Vec<(String, i32)> = r
        .current_story
        .as_ref()
        .unwrap()
        .votes
        .iter()
        .map(|v| (v.user_id.clone(), v.value))
        .collect();
    assert_eq!(
        values,
        vec![("b".to_string(), 5), ("a".to_string(), 8), ("b".to_string(), 3)]
    );
}

#[test]
fn vote_for_another_story_changes_nothing() {
    let mut r = room();
    start_story(&mut r, ROOM, draft("Login page"), "s1".to_string(), 200);
    handle_vote(&mut r, &account("Bo"), "b", "s1", 5, 300).unwrap();
    let before = r.clone();
    let before_text = format!("{:?}", before);
    assert_eq!(handle_vote(&mut r, &account("Bo"), "b", "s2", 8, 400), Err(ErrorKind::UnknownStory));
    assert_eq!(r, before);
    assert_eq!(format!("{:?}", r), before_text);
    assert_eq!(r.current_story.as_ref().unwrap().votes.len(), 1);
    assert_eq!(r.updated_at, 300);
}

#[test]
fn vote_without_a_story_changes_nothing() {
    let mut r = room();
    let before = r.clone();
    assert_eq!(handle_vote(&mut r, &account("Bo"), "b", "s1", 5, 300), Err(ErrorKind::UnknownStory));
    assert_eq!(r, before);
}

#[test]
fn end_voting_moves_the_story_with_its_votes() {
    let mut r = room();
    start_story(&mut r, ROOM, draft("old"), "s0".to_string(), 150);
    handle_end_voting(&mut r, "s0", 1, 160).unwrap();
    start_story(&mut r, ROOM, draft("Login page"), "s1".to_string(), 200);
    handle_vote(&mut r, &account("Bo"), "b", "s1", 5, 300).unwrap();
    handle_vote(&mut r, &account("Al"), "a", "s1", 8, 301).unwrap();
    let votes_before = r.current_story.as_ref().unwrap().votes.clone();
    let stories_before = r.stories.clone();
    let outcome = handle_end_voting(&mut r, "s1", 5, 400);
    assert_eq!(
        outcome,
        Ok(GameMessage::EndVoting { story_id: "s1".to_string(), final_score: 5 })
    );
    assert_eq!(r.current_story, None);
    assert_eq!(r.completed_stories.len(), 2);
    assert_eq!(r.completed_stories[0].id, "s0");
    assert_eq!(r.completed_stories[1].id, "s1");
    assert_eq!(r.completed_stories[1].votes, votes_before);
    assert_eq!(r.completed_stories[1].final_score, Some(5));
    assert_eq!(r.completed_stories[1].title, "Login page");
    assert_eq!(r.stories, stories_before);
    assert_eq!(r.updated_at, 400);
    assert!(well_formed(&r));
}

#[test]
fn end_voting_for_another_story_changes_nothing() {
    let mut r = room();
    start_story(&mut r, ROOM, draft("Login page"), "s1".to_string(), 200);
    let before = r.clone();
    assert_eq!(handle_end_voting(&mut r, "s2", 5, 400), Err(ErrorKind::UnknownStory));
    assert_eq!(r, before);
    let mut idle = room();
    let idle_before = idle.clone();
    assert_eq!(handle_end_voting(&mut idle, "s1", 5, 400), Err(ErrorKind::UnknownStory));
    assert_eq!(idle, idle_before);
}

#[test]
fn the_invariant_holds_along_a_sequence_of_events() {
    let mut r = room();
    assert!(well_formed(&r));
    let bo = account("Bo");
    let steps: Vec<(&str, &str, i32)> = vec![
        ("vote", "s1", 1),
        ("new", "s1", 0),
        ("vote", "s1", 3),
        ("vote", "s9", 3),
        ("end", "s9", 3),
        ("new", "s2", 0),
        ("vote", "s1", 5),
        ("vote", "s2", 5),
        ("end", "s2", 5),
        ("end", "s2", 5),
        ("vote", "s2", 8),
    ];
    let mut now = 200;
    for (kind, story, value) in steps {
        now += 1;
        match kind {
            "new" => {
                start_story(&mut r, ROOM, draft(story), story.to_string(), now);
            }
            "vote" => {
                let _ = handle_vote(&mut r, &bo, "b", story, value, now);
            }
            _ => {
                let _ = handle_end_voting(&mut r, story, value, now);
            }
        }
        assert!(well_formed(&r));
    }
    assert_eq!(r.current_story, None);
    assert_eq!(r.stories.len(), 2);
    assert_eq!(r.completed_stories.len(), 1);
    assert_eq!(r.completed_stories[0].id, "s2");
    assert_eq!(r.completed_stories[0].votes.len(), 1);
}

#[test]
fn archive_story_reads_a_free_form_story() {
    let story = Json::parse(
        "{\"title\":\"Login page\",\"description\":\"d\",\"votes\":[{\"userId\":\"b\",\"username\":\"B\",\"value\":5,\"timestamp\":7}],\"final_score\":5,\"extra\":true}",
    )
    .unwrap();
    let record = archive_story(ROOM, &story, "s1".to_string(), 900).unwrap();
    assert_eq!(record.id, None);
    assert_eq!(record.story_id, "s1");
    assert_eq!(record.room_id, ROOM);
    assert_eq!(record.title, "Login page");
    assert_eq!(record.description, Some("d".to_string()));
    assert_eq!(record.votes.len(), 1);
    assert_eq!(record.votes[0].user_id, "b");
    assert_eq!(record.final_score, 5);
    assert_eq!(record.completed_at, 900);
}

#[test]
fn archive_story_is_lenient_about_votes_and_score() {
    let read = |text: &str| archive_story(ROOM, &Json::parse(text).unwrap(), "s".to_string(), 1);
    let plain = read("{\"title\":\"t\",\"description\":\"d\"}").unwrap();
    assert_eq!(plain.votes, vec![]);
    assert_eq!(plain.final_score, 0);
    let broken = read("{\"title\":\"t\",\"description\":\"d\",\"votes\":[{}],\"final_score\":\"5\"}")
        .unwrap();
    assert_eq!(broken.votes, vec![]);
    assert_eq!(broken.final_score, 0);
    let odd = read("{\"title\":\"t\",\"description\":\"d\",\"votes\":7,\"final_score\":2.5}").unwrap();
    assert_eq!(odd.votes, vec![]);
    assert_eq!(odd.final_score, 0);
    let cut = read("{\"title\":\"t\",\"description\":\"d\",\"final_score\":4294967301}").unwrap();
    assert_eq!(cut.final_score, 5);
    let low = read("{\"title\":\"t\",\"description\":\"d\",\"final_score\":2147483648}").unwrap();
    assert_eq!(low.final_score, i32::MIN);
}

#[test]
fn archive_story_needs_title_and_description() {
    let read = |text: &str| archive_story(ROOM, &Json::parse(text).unwrap(), "s".to_string(), 1);
    assert_eq!(read("{\"description\":\"d\"}"), Err(ErrorKind::MalformedEvent));
    assert_eq!(read("{\"title\":\"t\"}"), Err(ErrorKind::MalformedEvent));
    assert_eq!(read("{\"title\":\"t\",\"description\":null}"), Err(ErrorKind::MalformedEvent));
    assert_eq!(read("{\"title\":5,\"description\":\"d\"}"), Err(ErrorKind::MalformedEvent));
    assert_eq!(read("[\"t\",\"d\"]"), Err(ErrorKind::MalformedEvent));
    assert_eq!(read("\"story\""), Err(ErrorKind::MalformedEvent));
}

#[test]
fn save_final_score_needs_a_room_identity() {
    let story = Json::parse("{\"title\":\"t\",\"description\":\"d\",\"final_score\":3}").unwrap();
    assert_eq!(handle_save_final_score("R1", &story, 5), Err(ErrorKind::UnknownRoom));
    assert_eq!(
        handle_save_final_score(ROOM, &Json::Null, 5),
        Err(ErrorKind::MalformedEvent)
    );
    let record = handle_save_final_score(ROOM, &story, 5).unwrap();
    assert!(is_valid_id(&record.story_id));
    assert_eq!(record.room_id, ROOM);
    assert_eq!(record.final_score, 3);
    assert_eq!(record.completed_at, 5);
    assert_eq!(record.id, None);
}

#[test]
fn completed_story_message_carries_the_stored_identity() {
    let story = Json::parse("{\"title\":\"t\",\"description\":\"d\",\"final_score\":3}").unwrap();
    let record = archive_story(ROOM, &story, "s1".to_string(), 5).unwrap();
    let message = completed_story_message(record.clone(), "65a1b2c3d4e5f60718293a4b".to_string());
    match message {
        GameMessage::CompletedStory { story } => {
            assert_eq!(story.id, Some("65a1b2c3d4e5f60718293a4b".to_string()));
            assert_eq!(story.story_id, record.story_id);
            assert_eq!(story.title, record.title);
            assert_eq!(story.votes, record.votes);
            assert_eq!(story.final_score, record.final_score);
            assert_eq!(story.completed_at, record.completed_at);
        }
        _ => panic!("a stored record is announced as a completed story"),
    }
}

#[test]
fn locate_tells_unknown_rooms_and_users() {
    assert_eq!(locate_room("nonsense", Some(room())), Err(ErrorKind::UnknownRoom));
    assert_eq!(locate_room(ROOM, None), Err(ErrorKind::UnknownRoom));
    assert_eq!(locate_room(ROOM, Some(room())), Ok(room()));
    assert_eq!(locate_user("nonsense", Some(account("Bo"))), Err(ErrorKind::UnknownUser));
    assert_eq!(locate_user(ROOM, None), Err(ErrorKind::UnknownUser));
    assert_eq!(locate_user(ROOM, Some(account("Bo"))), Ok(account("Bo")));
}

#[test]
fn coordinate_applies_each_kind_of_event() {
    let mut r = room();
    let bo = account("Bo");
    let put_up = coordinate(&mut r, ROOM, "a", None, ClientEvent::NewStory { draft: draft("t") }, 10);
    let story_id = match put_up {
        Ok(Action::Broadcast(GameMessage::NewStory { story })) => story.id,
        _ => panic!("a new story is broadcast"),
    };
    let vote = ClientEvent::Vote { story_id: story_id.clone(), value: 5 };
    assert_eq!(coordinate(&mut r, ROOM, "b", None, vote, 11), Err(ErrorKind::UnknownUser));
    assert_eq!(r.current_story.as_ref().unwrap().votes.len(), 0);
    let vote = ClientEvent::Vote { story_id: story_id.clone(), value: 5 };
    assert!(matches!(
        coordinate(&mut r, ROOM, "b", Some(&bo), vote, 12),
        Ok(Action::Broadcast(GameMessage::Vote { value: 5, .. }))
    ));
    let stray = ClientEvent::Vote { story_id: "other".to_string(), value: 5 };
    assert_eq!(coordinate(&mut r, ROOM, "b", Some(&bo), stray, 13), Err(ErrorKind::UnknownStory));
    let save = ClientEvent::SaveFinalScore {
        story: Json::parse("{\"title\":\"t\",\"description\":\"d\"}").unwrap(),
    };
    let before = r.clone();
    assert!(matches!(coordinate(&mut r, ROOM, "a", None, save, 14), Ok(Action::Archive(_))));
    assert_eq!(r, before);
    let end = ClientEvent::EndVoting { story_id: story_id.clone(), final_score: 5 };
    assert!(matches!(
        coordinate(&mut r, ROOM, "a", None, end, 15),
        Ok(Action::Broadcast(GameMessage::EndVoting { final_score: 5, .. }))
    ));
    assert_eq!(r.current_story, None);
    assert_eq!(r.completed_stories.len(), 1);
}

#[test]
fn the_last_vote_of_a_participant_counts() {
    let mut r = room();
    start_story(&mut r, ROOM, draft("Login page"), "s1".to_string(), 200);
    assert_eq!(find_counting_vote(&r.current_story.as_ref().unwrap().votes, "b"), None);
    handle_vote(&mut r, &account("Bo"), "b", "s1", 5, 300).unwrap();
    handle_vote(&mut r, &account("Al"), "a", "s1", 8, 301).unwrap();
    handle_vote(&mut r, &account("Bo"), "b", "s1", 3, 302).unwrap();
    let votes = &r.current_story.as_ref().unwrap().votes;
    assert_eq!(find_counting_vote(votes, "b").map(|v| (v.value, v.timestamp)), Some((3, 302)));
    assert_eq!(find_counting_vote(votes, "a").map(|v| (v.value, v.timestamp)), Some((8, 301)));
    assert_eq!(find_counting_vote(votes, "c"), None);
}
