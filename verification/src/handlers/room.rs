//! The kinds of message and the reactions that participants send each
//! other.

use crate::error::ErrorKind;
use crate::json::{lemma_lookup_at, no_members, object, put, view_members, Json, JsonView};
use crate::text::same_text;
use crate::websocket::{envelope_of_text, WebSocketMessage, WebSocketMessageView};
use vstd::prelude::*;

verus! {

/// The kinds of message.
#[derive(Debug, Clone, Copy, PartialEq, Eq, Structural)]
pub enum MessageType {
    UserConnected,
    UserDisconnected,
    NewStory,
    StartVoting,
    Vote,
    EndVoting,
    SaveFinalScore,
    CompletedStory,
    EmojiReaction,
}

impl MessageType {
    /// The type tag of the kind.
    pub open spec fn tag(self) -> Seq<char> {
        match self {
            MessageType::UserConnected => "user_connected"@,
            MessageType::UserDisconnected => "user_disconnected"@,
            MessageType::NewStory => "new_story"@,
            MessageType::StartVoting => "start_voting"@,
            MessageType::Vote => "vote"@,
            MessageType::EndVoting => "end_voting"@,
            MessageType::SaveFinalScore => "save_final_score"@,
            MessageType::CompletedStory => "completed_story"@,
            MessageType::EmojiReaction => "emoji_reaction"@,
        }
    }

    /// The kind with the given type tag.
    pub open spec fn of_tag(tag: Seq<char>) -> Option<MessageType> {
        if tag == "user_connected"@ {
            Some(MessageType::UserConnected)
        } else if tag == "user_disconnected"@ {
            Some(MessageType::UserDisconnected)
        } else if tag == "new_story"@ {
            Some(MessageType::NewStory)
        } else if tag == "start_voting"@ {
            Some(MessageType::StartVoting)
        } else if tag == "vote"@ {
            Some(MessageType::Vote)
        } else if tag == "end_voting"@ {
            Some(MessageType::EndVoting)
        } else if tag == "save_final_score"@ {
            Some(MessageType::SaveFinalScore)
        } else if tag == "completed_story"@ {
            Some(MessageType::CompletedStory)
        } else if tag == "emoji_reaction"@ {
            Some(MessageType::EmojiReaction)
        } else {
            None
        }
    }

    /// The type tag of the kind.
    pub fn as_str(&self) -> (tag: &'static str)
        ensures
            tag@ == self.tag(),
    {
        match self {
            MessageType::UserConnected => "user_connected",
            MessageType::UserDisconnected => "user_disconnected",
            MessageType::NewStory => "new_story",
            MessageType::StartVoting => "start_voting",
            MessageType::Vote => "vote",
            MessageType::EndVoting => "end_voting",
            MessageType::SaveFinalScore => "save_final_score",
            MessageType::CompletedStory => "completed_story",
            MessageType::EmojiReaction => "emoji_reaction",
        }
    }

    /// The kind with the given type tag, or `None` where no kind has it.
    pub fn parse(tag: &str) -> (kind: Option<MessageType>)
        ensures
            kind == MessageType::of_tag(tag@),
    {
        if same_text(tag, "user_connected") {
            Some(MessageType::UserConnected)
        } else if same_text(tag, "user_disconnected") {
            Some(MessageType::UserDisconnected)
        } else if same_text(tag, "new_story") {
            Some(MessageType::NewStory)
        } else if same_text(tag, "start_voting") {
            Some(MessageType::StartVoting)
        } else if same_text(tag, "vote") {
            Some(MessageType::Vote)
        } else if same_text(tag, "end_voting") {
            Some(MessageType::EndVoting)
        } else if same_text(tag, "save_final_score") {
            Some(MessageType::SaveFinalScore)
        } else if same_text(tag, "completed_story") {
            Some(MessageType::CompletedStory)
        } else if same_text(tag, "emoji_reaction") {
            Some(MessageType::EmojiReaction)
        } else {
            None
        }
    }
}

/// Every kind is the kind with its own type tag.
pub proof fn lemma_tag_names_its_kind(kind: MessageType)
    ensures
        MessageType::of_tag(kind.tag()) == Some(kind),
{
    reveal_strlit("user_connected");
    reveal_strlit("user_disconnected");
    reveal_strlit("new_story");
    reveal_strlit("start_voting");
    reveal_strlit("vote");
    reveal_strlit("end_voting");
    reveal_strlit("save_final_score");
    reveal_strlit("completed_story");
    reveal_strlit("emoji_reaction");
    assert("user_connected"@[0] != "emoji_reaction"@[0]);
    assert("user_connected"@ != "emoji_reaction"@);
    assert("user_connected"@.len() == 14 && "user_disconnected"@.len() == 17 && "new_story"@.len()
        == 9 && "start_voting"@.len() == 12 && "vote"@.len() == 4 && "end_voting"@.len() == 10
        && "save_final_score"@.len() == 16 && "completed_story"@.len() == 15
        && "emoji_reaction"@.len() == 14);
}

/// A reaction that one participant sends another.
#[derive(Debug, PartialEq)]
pub struct EmojiReaction {
    emoji: String,
    from_user_id: String,
    to_user_id: String,
    timestamp: i64,
}

pub struct EmojiReactionView {
    pub emoji: Seq<char>,
    pub from_user_id: Seq<char>,
    pub to_user_id: Seq<char>,
    pub timestamp: i64,
}

impl View for EmojiReaction {
    type V = EmojiReactionView;

    closed spec fn view(&self) -> EmojiReactionView {
        EmojiReactionView {
            emoji: self.emoji@,
            from_user_id: self.from_user_id@,
            to_user_id: self.to_user_id@,
            timestamp: self.timestamp,
        }
    }
}

impl EmojiReactionView {
    /// A reaction on the wire: an object with the members `emoji`,
    /// `from_user_id`, `to_user_id` and `timestamp`.
    pub open spec fn to_json(self) -> JsonView {
        JsonView::Object(
            seq![
                ("emoji"@, JsonView::Str(self.emoji)),
                ("from_user_id"@, JsonView::Str(self.from_user_id)),
                ("to_user_id"@, JsonView::Str(self.to_user_id)),
                ("timestamp"@, JsonView::Int(self.timestamp as int)),
            ],
        )
    }

    /// The reaction that a document holds: `emoji`, `from_user_id` and
    /// `to_user_id` must be strings and `timestamp` a 64-bit integer.
    pub open spec fn from_json(doc: JsonView) -> Option<EmojiReactionView> {
        match (
            doc.text_at("emoji"@),
            doc.text_at("from_user_id"@),
            doc.text_at("to_user_id"@),
            doc.i64_at("timestamp"@),
        ) {
            (Some(emoji), Some(from_user_id), Some(to_user_id), Some(timestamp)) => Some(
                EmojiReactionView { emoji, from_user_id, to_user_id, timestamp },
            ),
            _ => None,
        }
    }
}

/// A reaction that is written to the wire and read back is the same
/// reaction.
pub proof fn lemma_reaction_round_trip(reaction: EmojiReactionView)
    ensures
        EmojiReactionView::from_json(reaction.to_json()) == Some(reaction),
{
    reveal_strlit("emoji");
    reveal_strlit("from_user_id");
    reveal_strlit("to_user_id");
    reveal_strlit("timestamp");
    let members = reaction.to_json()->Object_0;
    assert(members.len() == 4);
    assert(members[0].0 == "emoji"@ && members[1].0 == "from_user_id"@ && members[2].0
        == "to_user_id"@ && members[3].0 == "timestamp"@);
    lemma_lookup_at(members, 0);
    lemma_lookup_at(members, 1);
    lemma_lookup_at(members, 2);
    lemma_lookup_at(members, 3);
}

impl EmojiReaction {
    /// A reaction of `from_user_id` to `to_user_id` at `timestamp`.
    pub fn new(emoji: String, from_user_id: String, to_user_id: String, timestamp: i64) -> (reaction:
        Self)
        ensures
            reaction@ == (EmojiReactionView {
                emoji: emoji@,
                from_user_id: from_user_id@,
                to_user_id: to_user_id@,
                timestamp,
            }),
    {
        EmojiReaction { emoji, from_user_id, to_user_id, timestamp }
    }

    /// Writes the reaction as a document.
    pub fn to_json(&self) -> (doc: Json)
        ensures
            doc@ == self@.to_json(),
    {
        let mut members = no_members();
        put(&mut members, "emoji", Json::Str(self.emoji.clone()));
        put(&mut members, "from_user_id", Json::Str(self.from_user_id.clone()));
        put(&mut members, "to_user_id", Json::Str(self.to_user_id.clone()));
        put(&mut members, "timestamp", Json::Int(self.timestamp));
        assert(view_members(members@) =~= self@.to_json()->Object_0);
        object(members)
    }

    /// Reads a reaction from a document, or `None` where it holds none.
    pub fn from_json(doc: &Json) -> (reaction: Option<EmojiReaction>)
        ensures
            match reaction {
                Some(r) => EmojiReactionView::from_json(doc@) == Some(r@),
                None => EmojiReactionView::from_json(doc@).is_none(),
            },
    {
        match (
            doc.text_at("emoji"),
            doc.text_at("from_user_id"),
            doc.text_at("to_user_id"),
            doc.i64_at("timestamp"),
        ) {
            (Some(emoji), Some(from_user_id), Some(to_user_id), Some(timestamp)) => Some(
                EmojiReaction { emoji, from_user_id, to_user_id, timestamp },
            ),
            _ => None,
        }
    }
}

/// What the room is told for the message of a participant: a reaction is
/// passed on under the room and the participant of the connection, and
/// every other kind of message is left to others.
pub open spec fn relayed(message: WebSocketMessageView, room_id: Seq<char>, user_id: Seq<char>) -> Result<
    Option<WebSocketMessageView>,
    ErrorKind,
> {
    if message.message_type == "emoji_reaction"@ {
        match EmojiReactionView::from_json(message.content) {
            Some(reaction) => Ok(
                Some(
                    WebSocketMessageView {
                        message_type: "emoji_reaction"@,
                        content: reaction.to_json(),
                        room_id,
                        user_id,
                    },
                ),
            ),
            None => Err(ErrorKind::MalformedEvent),
        }
    } else {
        Ok(None)
    }
}

/// What an optional message stands for.
pub open spec fn opt_message(message: Option<WebSocketMessage>) -> Option<WebSocketMessageView> {
    match message {
        Some(m) => Some(m@),
        None => None,
    }
}

/// Reads the text of a frame that came over the connection of `user_id`
/// to `room_id`, and hands back what the room is told for it. A text that
/// holds no envelope is malformed.
pub fn handle_ws_message(text: &str, room_id: &str, user_id: &str) -> (outcome: Result<
    Option<WebSocketMessage>,
    ErrorKind,
>)
    ensures
        match outcome {
            Ok(message) => envelope_of_text(text@) matches Some(envelope) && relayed(
                envelope,
                room_id@,
                user_id@,
            ) == Ok::<Option<WebSocketMessageView>, ErrorKind>(opt_message(message)),
            Err(error) => error == ErrorKind::MalformedEvent && match envelope_of_text(text@) {
                Some(envelope) => relayed(envelope, room_id@, user_id@).is_err(),
                None => true,
            },
        },
{
    let envelope = match WebSocketMessage::from_text(text) {
        Some(envelope) => envelope,
        None => {
            return Err(ErrorKind::MalformedEvent);
        },
    };
    if !same_text(envelope.message_type.as_str(), "emoji_reaction") {
        return Ok(None);
    }
    match EmojiReaction::from_json(&envelope.content) {
        Some(reaction) => Ok(
            Some(
                WebSocketMessage {
                    message_type: "emoji_reaction".to_owned(),
                    content: reaction.to_json(),
                    room_id: room_id.to_owned(),
                    user_id: user_id.to_owned(),
                },
            ),
        ),
        None => Err(ErrorKind::MalformedEvent),
    }
}

} // verus!
