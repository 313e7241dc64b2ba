//! The messages that travel between participants and the room server.

use crate::json::{
    json_of_text, lemma_lookup_at, no_members, object, put, text_of_json, text_or_null,
    view_members, Json, JsonView,
};
use crate::models::game_room::{
    lemma_completed_story_round_trip, opt_text, text_or_null_view, CompletedStory,
    CompletedStoryView, Story, StoryView,
};
use vstd::prelude::*;

verus! {

/// The sender named in a message that no participant caused.
pub open spec fn system_sender() -> Seq<char> {
    "system"@
}

/// One frame on the wire: a type tag, the content that the tag announces,
/// the room and the participant that it concerns.
#[derive(Debug, PartialEq)]
pub struct WebSocketMessage {
    pub message_type: String,
    pub content: Json,
    pub room_id: String,
    pub user_id: String,
}

pub struct WebSocketMessageView {
    pub message_type: Seq<char>,
    pub content: JsonView,
    pub room_id: Seq<char>,
    pub user_id: Seq<char>,
}

impl View for WebSocketMessage {
    type V = WebSocketMessageView;

    open spec fn view(&self) -> WebSocketMessageView {
        WebSocketMessageView {
            message_type: self.message_type@,
            content: self.content@,
            room_id: self.room_id@,
            user_id: self.user_id@,
        }
    }
}

impl Clone for WebSocketMessage {
    fn clone(&self) -> (copy: Self)
        ensures
            copy@ == self@,
    {
        WebSocketMessage {
            message_type: self.message_type.clone(),
            content: self.content.clone(),
            room_id: self.room_id.clone(),
            user_id: self.user_id.clone(),
        }
    }
}

impl WebSocketMessageView {
    /// The envelope on the wire: an object with the members `message_type`,
    /// `content`, `room_id` and `user_id`.
    pub open spec fn to_json(self) -> JsonView {
        JsonView::Object(
            seq![
                ("message_type"@, JsonView::Str(self.message_type)),
                ("content"@, self.content),
                ("room_id"@, JsonView::Str(self.room_id)),
                ("user_id"@, JsonView::Str(self.user_id)),
            ],
        )
    }

    /// The envelope that a document holds: `message_type`, `room_id` and
    /// `user_id` must be strings and `content` must be present.
    pub open spec fn from_json(doc: JsonView) -> Option<WebSocketMessageView> {
        match (
            doc.text_at("message_type"@),
            doc.member("content"@),
            doc.text_at("room_id"@),
            doc.text_at("user_id"@),
        ) {
            (Some(message_type), Some(content), Some(room_id), Some(user_id)) => Some(
                WebSocketMessageView { message_type, content, room_id, user_id },
            ),
            _ => None,
        }
    }
}

impl WebSocketMessage {
    /// Writes the envelope as a document.
    pub fn to_json(&self) -> (doc: Json)
        ensures
            doc@ == self@.to_json(),
    {
        let mut members = no_members();
        put(&mut members, "message_type", Json::Str(self.message_type.clone()));
        put(&mut members, "content", self.content.clone());
        put(&mut members, "room_id", Json::Str(self.room_id.clone()));
        put(&mut members, "user_id", Json::Str(self.user_id.clone()));
        assert(view_members(members@) =~= self@.to_json()->Object_0);
        object(members)
    }

    /// Reads an envelope from a document, or `None` where it holds none.
    pub fn from_json(doc: &Json) -> (message: Option<WebSocketMessage>)
        ensures
            match message {
                Some(m) => WebSocketMessageView::from_json(doc@) == Some(m@),
                None => WebSocketMessageView::from_json(doc@).is_none(),
            },
    {
        let message_type = doc.text_at("message_type");
        let content = doc.get("content");
        let room_id = doc.text_at("room_id");
        let user_id = doc.text_at("user_id");
        match (message_type, content, room_id, user_id) {
            (Some(message_type), Some(content), Some(room_id), Some(user_id)) => Some(
                WebSocketMessage { message_type, content: content.clone(), room_id, user_id },
            ),
            _ => None,
        }
    }

    /// The text of the envelope, as it is written to the transport.
    pub fn to_text(&self) -> (text: String)
        ensures
            text@ == text_of_json(self@.to_json()),
    {
        self.to_json().render()
    }

    /// Reads an envelope from the text of a frame, or `None` where the text
    /// is no JSON or holds no envelope.
    pub fn from_text(text: &str) -> (message: Option<WebSocketMessage>)
        ensures
            match message {
                Some(m) => envelope_of_text(text@) == Some(m@),
                None => envelope_of_text(text@).is_none(),
            },
    {
        match Json::parse(text) {
            Some(doc) => WebSocketMessage::from_json(&doc),
            None => None,
        }
    }
}

/// The envelope that the text of a frame holds.
pub open spec fn envelope_of_text(text: Seq<char>) -> Option<WebSocketMessageView> {
    match json_of_text(text) {
        Some(doc) => WebSocketMessageView::from_json(doc),
        None => None,
    }
}

/// An envelope that is written to the wire and read back is the same
/// envelope.
pub proof fn lemma_message_round_trip(message: WebSocketMessageView)
    ensures
        WebSocketMessageView::from_json(message.to_json()) == Some(message),
{
    reveal_strlit("message_type");
    reveal_strlit("content");
    reveal_strlit("room_id");
    reveal_strlit("user_id");
    let members = message.to_json()->Object_0;
    assert(members.len() == 4);
    assert(members[0].0 == "message_type"@ && members[1].0 == "content"@ && members[2].0
        == "room_id"@ && members[3].0 == "user_id"@);
    assert("content"@[0] != "room_id"@[0]);
    assert("content"@[0] != "user_id"@[0]);
    assert("room_id"@[0] != "user_id"@[0]);
    lemma_lookup_at(members, 0);
    lemma_lookup_at(members, 1);
    lemma_lookup_at(members, 2);
    lemma_lookup_at(members, 3);
}

/// A completed story that travels as a `completed_story` message reaches
/// the client as the same record, field for field, whatever room it is
/// for.
pub proof fn lemma_completed_story_message_round_trip(story: CompletedStoryView, room_id: Seq<char>)
    ensures
        ({
            let sent = (GameMessageView::CompletedStory { story }).envelope(room_id);
            &&& sent.message_type == "completed_story"@
            &&& WebSocketMessageView::from_json(sent.to_json()) == Some(sent)
            &&& CompletedStoryView::from_json(sent.content) == Some(story)
        }),
{
    let sent = (GameMessageView::CompletedStory { story }).envelope(room_id);
    lemma_message_round_trip(sent);
    lemma_completed_story_round_trip(story);
}

/// What the server tells the members of a room.
#[derive(Debug, PartialEq)]
#[allow(inconsistent_fields)]
pub enum GameMessage {
    NewStory { story: Story },
    StartVoting { story_id: String },
    Vote {
        user_id: String,
        story_id: String,
        value: i32,
        username: String,
        profile_image: Option<String>,
    },
    EndVoting { story_id: String, final_score: i32 },
    SaveFinalScore { story_id: String, final_score: i32 },
    CompletedStory { story: CompletedStory },
    UserConnected { user_id: String, username: String, profile_image: Option<String> },
    UserDisconnected { user_id: String },
}

#[allow(inconsistent_fields)]
pub enum GameMessageView {
    NewStory { story: StoryView },
    StartVoting { story_id: Seq<char> },
    Vote {
        user_id: Seq<char>,
        story_id: Seq<char>,
        value: i32,
        username: Seq<char>,
        profile_image: Option<Seq<char>>,
    },
    EndVoting { story_id: Seq<char>, final_score: i32 },
    SaveFinalScore { story_id: Seq<char>, final_score: i32 },
    CompletedStory { story: CompletedStoryView },
    UserConnected { user_id: Seq<char>, username: Seq<char>, profile_image: Option<Seq<char>> },
    UserDisconnected { user_id: Seq<char> },
}

impl View for GameMessage {
    type V = GameMessageView;

    open spec fn view(&self) -> GameMessageView {
        match self {
            GameMessage::NewStory { story } => GameMessageView::NewStory { story: story@ },
            GameMessage::StartVoting { story_id } => GameMessageView::StartVoting {
                story_id: story_id@,
            },
            GameMessage::Vote { user_id, story_id, value, username, profile_image } => GameMessageView::Vote {
                user_id: user_id@,
                story_id: story_id@,
                value: *value,
                username: username@,
                profile_image: opt_text(*profile_image),
            },
            GameMessage::EndVoting { story_id, final_score } => GameMessageView::EndVoting {
                story_id: story_id@,
                final_score: *final_score,
            },
            GameMessage::SaveFinalScore { story_id, final_score } => GameMessageView::SaveFinalScore {
                story_id: story_id@,
                final_score: *final_score,
            },
            GameMessage::CompletedStory { story } => GameMessageView::CompletedStory {
                story: story@,
            },
            GameMessage::UserConnected { user_id, username, profile_image } => GameMessageView::UserConnected {
                user_id: user_id@,
                username: username@,
                profile_image: opt_text(*profile_image),
            },
            GameMessage::UserDisconnected { user_id } => GameMessageView::UserDisconnected {
                user_id: user_id@,
            },
        }
    }
}

/// The content `{story_id, final_score}`.
pub open spec fn score_content(story_id: Seq<char>, final_score: i32) -> JsonView {
    JsonView::Object(
        seq![
            ("story_id"@, JsonView::Str(story_id)),
            ("final_score"@, JsonView::Int(final_score as int)),
        ],
    )
}

/// The content `{user_id}`.
pub open spec fn user_content(user_id: Seq<char>) -> JsonView {
    JsonView::Object(seq![("user_id"@, JsonView::Str(user_id))])
}

impl GameMessageView {
    /// The type tag under which the message travels.
    pub open spec fn message_type(self) -> Seq<char> {
        match self {
            GameMessageView::NewStory { .. } => "new_story"@,
            GameMessageView::StartVoting { .. } => "start_voting"@,
            GameMessageView::Vote { .. } => "vote"@,
            GameMessageView::EndVoting { .. } => "end_voting"@,
            GameMessageView::SaveFinalScore { .. } => "save_final_score"@,
            GameMessageView::CompletedStory { .. } => "completed_story"@,
            GameMessageView::UserConnected { .. } => "user_connected"@,
            GameMessageView::UserDisconnected { .. } => "user_disconnected"@,
        }
    }

    /// The content that goes with the type tag.
    pub open spec fn content(self) -> JsonView {
        match self {
            GameMessageView::NewStory { story } => story.to_json(),
            GameMessageView::StartVoting { story_id } => JsonView::Object(
                seq![("story_id"@, JsonView::Str(story_id))],
            ),
            GameMessageView::Vote { user_id, story_id, value, username, profile_image } => JsonView::Object(
                seq![
                    ("story_id"@, JsonView::Str(story_id)),
                    ("value"@, JsonView::Int(value as int)),
                    ("username"@, JsonView::Str(username)),
                    ("profile_image"@, text_or_null_view(profile_image)),
                ],
            ),
            GameMessageView::EndVoting { story_id, final_score } => score_content(
                story_id,
                final_score,
            ),
            GameMessageView::SaveFinalScore { story_id, final_score } => score_content(
                story_id,
                final_score,
            ),
            GameMessageView::CompletedStory { story } => story.to_json(),
            GameMessageView::UserConnected { user_id, username, profile_image } => JsonView::Object(
                seq![
                    ("user_id"@, JsonView::Str(user_id)),
                    ("username"@, JsonView::Str(username)),
                    ("profile_image"@, text_or_null_view(profile_image)),
                ],
            ),
            GameMessageView::UserDisconnected { user_id } => user_content(user_id),
        }
    }

    /// The participant that the message is about: the voter, the one who
    /// came or left, and the system for every other message.
    pub open spec fn sender(self) -> Seq<char> {
        match self {
            GameMessageView::Vote { user_id, .. } => user_id,
            GameMessageView::UserConnected { user_id, .. } => user_id,
            GameMessageView::UserDisconnected { user_id } => user_id,
            _ => system_sender(),
        }
    }

    /// The envelope in which the message reaches the members of a room.
    pub open spec fn envelope(self, room_id: Seq<char>) -> WebSocketMessageView {
        WebSocketMessageView {
            message_type: self.message_type(),
            content: self.content(),
            room_id,
            user_id: self.sender(),
        }
    }
}

/// Builds the content `{story_id, final_score}`.
fn encode_score(story_id: &String, final_score: i32) -> (doc: Json)
    ensures
        doc@ == score_content(story_id@, final_score),
{
    let mut members = no_members();
    put(&mut members, "story_id", Json::Str(story_id.clone()));
    put(&mut members, "final_score", Json::Int(final_score as i64));
    assert(view_members(members@) =~= score_content(story_id@, final_score)->Object_0);
    object(members)
}

/// Builds the content `{user_id}`.
pub fn encode_user(user_id: &String) -> (doc: Json)
    ensures
        doc@ == user_content(user_id@),
{
    let mut members = no_members();
    put(&mut members, "user_id", Json::Str(user_id.clone()));
    assert(view_members(members@) =~= user_content(user_id@)->Object_0);
    object(members)
}

impl GameMessage {
    /// The type tag under which the message travels.
    pub fn message_type(&self) -> (tag: &'static str)
        ensures
            tag@ == self@.message_type(),
    {
        match self {
            GameMessage::NewStory { .. } => "new_story",
            GameMessage::StartVoting { .. } => "start_voting",
            GameMessage::Vote { .. } => "vote",
            GameMessage::EndVoting { .. } => "end_voting",
            GameMessage::SaveFinalScore { .. } => "save_final_score",
            GameMessage::CompletedStory { .. } => "completed_story",
            GameMessage::UserConnected { .. } => "user_connected",
            GameMessage::UserDisconnected { .. } => "user_disconnected",
        }
    }

    /// The content that goes with the type tag.
    pub fn content(&self) -> (doc: Json)
        ensures
            doc@ == self@.content(),
    {
        match self {
            GameMessage::NewStory { story } => story.to_json(),
            GameMessage::StartVoting { story_id } => {
                let mut members = no_members();
                put(&mut members, "story_id", Json::Str(story_id.clone()));
                assert(view_members(members@) =~= self@.content()->Object_0);
                object(members)
            },
            GameMessage::Vote { user_id, story_id, value, username, profile_image } => {
                let mut members = no_members();
                put(&mut members, "story_id", Json::Str(story_id.clone()));
                put(&mut members, "value", Json::Int(*value as i64));
                put(&mut members, "username", Json::Str(username.clone()));
                put(&mut members, "profile_image", text_or_null(profile_image));
                assert(view_members(members@) =~= self@.content()->Object_0);
                object(members)
            },
            GameMessage::EndVoting { story_id, final_score } => encode_score(story_id, *final_score),
            GameMessage::SaveFinalScore { story_id, final_score } => encode_score(
                story_id,
                *final_score,
            ),
            GameMessage::CompletedStory { story } => story.to_json(),
            GameMessage::UserConnected { user_id, username, profile_image } => {
                let mut members = no_members();
                put(&mut members, "user_id", Json::Str(user_id.clone()));
                put(&mut members, "username", Json::Str(username.clone()));
                put(&mut members, "profile_image", text_or_null(profile_image));
                assert(view_members(members@) =~= self@.content()->Object_0);
                object(members)
            },
            GameMessage::UserDisconnected { user_id } => encode_user(user_id),
        }
    }

    /// The envelope in which the message reaches the members of a room.
    pub fn to_message(&self, room_id: &str) -> (message: WebSocketMessage)
        ensures
            message@ == self@.envelope(room_id@),
    {
        let user_id = match self {
            GameMessage::Vote { user_id, .. } => user_id.clone(),
            GameMessage::UserConnected { user_id, .. } => user_id.clone(),
            GameMessage::UserDisconnected { user_id } => user_id.clone(),
            _ => "system".to_owned(),
        };
        WebSocketMessage {
            message_type: self.message_type().to_owned(),
            content: self.content(),
            room_id: room_id.to_owned(),
            user_id,
        }
    }
}

} // verus!
