//! One participant's connection: what it announces when it opens and
//! closes, and what it makes of the frames that arrive.

use crate::error::ErrorKind;
use crate::json::{Json, JsonView};
use crate::models::game_room::{opt_text, StoryDraft, StoryDraftView};
use crate::server::{Connect, Disconnect};
use crate::text::same_text;
use crate::websocket::{envelope_of_text, WebSocketMessage, WebSocketMessageView};
use vstd::prelude::*;

verus! {

/// Why a connection is closed.
#[derive(Debug, PartialEq)]
pub struct CloseReason {
    pub code: u16,
    pub description: Option<String>,
}

/// A frame from the transport.
#[derive(Debug, PartialEq)]
pub enum Frame {
    Text(String),
    Ping(Vec<u8>),
    Close(Option<CloseReason>),
    Other,
}

/// What a participant asks of the room.
#[derive(Debug, PartialEq)]
#[allow(inconsistent_fields)]
pub enum ClientEvent {
    /// Put up a story.
    NewStory { draft: StoryDraft },
    Vote { story_id: String, value: i32 },
    EndVoting { story_id: String, final_score: i32 },
    /// Commit a free-form story to history.
    SaveFinalScore { story: Json },
}

#[allow(inconsistent_fields)]
pub enum ClientEventView {
    NewStory { draft: StoryDraftView },
    Vote { story_id: Seq<char>, value: i32 },
    EndVoting { story_id: Seq<char>, final_score: i32 },
    SaveFinalScore { story: JsonView },
}

impl View for ClientEvent {
    type V = ClientEventView;

    open spec fn view(&self) -> ClientEventView {
        match self {
            ClientEvent::NewStory { draft } => ClientEventView::NewStory { draft: draft@ },
            ClientEvent::Vote { story_id, value } => ClientEventView::Vote {
                story_id: story_id@,
                value: *value,
            },
            ClientEvent::EndVoting { story_id, final_score } => ClientEventView::EndVoting {
                story_id: story_id@,
                final_score: *final_score,
            },
            ClientEvent::SaveFinalScore { story } => ClientEventView::SaveFinalScore {
                story: story@,
            },
        }
    }
}

/// What a message asks for.
pub enum Reading {
    /// The message is an event of the room.
    Event(ClientEventView),
    /// The type is known and the content is not what the type announces.
    Malformed,
    /// The type is not one that a participant may send.
    Unknown,
}

/// What an envelope asks for. Integers that do not fit 32 bits are cut to
/// their low 32 bits.
pub open spec fn read_message(message: WebSocketMessageView) -> Reading {
    let content = message.content;
    if message.message_type == "new_story"@ {
        match StoryDraftView::from_json(content) {
            Some(draft) => Reading::Event(ClientEventView::NewStory { draft }),
            None => Reading::Malformed,
        }
    } else if message.message_type == "vote"@ {
        match (content.text_at("story_id"@), content.i64_at("value"@)) {
            (Some(story_id), Some(value)) => Reading::Event(
                ClientEventView::Vote { story_id, value: value as i32 },
            ),
            _ => Reading::Malformed,
        }
    } else if message.message_type == "end_voting"@ {
        match (content.text_at("story_id"@), content.i64_at("final_score"@)) {
            (Some(story_id), Some(final_score)) => Reading::Event(
                ClientEventView::EndVoting { story_id, final_score: final_score as i32 },
            ),
            _ => Reading::Malformed,
        }
    } else if message.message_type == "save_final_score"@ {
        match content.member("story"@) {
            Some(story) => Reading::Event(ClientEventView::SaveFinalScore { story }),
            None => Reading::Malformed,
        }
    } else {
        Reading::Unknown
    }
}

/// What the text of a frame asks for. A text that holds no envelope is
/// malformed.
pub open spec fn read_text(text: Seq<char>) -> Reading {
    match envelope_of_text(text) {
        Some(message) => read_message(message),
        None => Reading::Malformed,
    }
}

/// What the connection does about a frame.
#[derive(Debug, PartialEq)]
pub enum Directive {
    /// Hand the event to the room.
    Event(ClientEvent),
    /// Answer a ping with its payload.
    Pong(Vec<u8>),
    /// Close the connection.
    Close(Option<CloseReason>),
    /// Drop the frame: its payload cannot be read.
    Reject(ErrorKind),
    /// Drop the frame: it asks for nothing.
    Ignore,
}

/// Reads the event that an envelope holds.
pub fn decode_event(message: &WebSocketMessage) -> (directive: Directive)
    ensures
        match read_message(message@) {
            Reading::Event(event) => directive matches Directive::Event(e) && e@ == event,
            Reading::Malformed => directive matches Directive::Reject(ErrorKind::MalformedEvent),
            Reading::Unknown => directive is Ignore,
        },
{
    let kind = message.message_type.as_str();
    if same_text(kind, "new_story") {
        match StoryDraft::from_json(&message.content) {
            Some(draft) => Directive::Event(ClientEvent::NewStory { draft }),
            None => Directive::Reject(ErrorKind::MalformedEvent),
        }
    } else if same_text(kind, "vote") {
        match (message.content.text_at("story_id"), message.content.i64_at("value")) {
            (Some(story_id), Some(value)) => Directive::Event(
                ClientEvent::Vote {
                    story_id,
                    value: #[verifier::truncate]
                    (value as i32),
                },
            ),
            _ => Directive::Reject(ErrorKind::MalformedEvent),
        }
    } else if same_text(kind, "end_voting") {
        match (message.content.text_at("story_id"), message.content.i64_at("final_score")) {
            (Some(story_id), Some(final_score)) => Directive::Event(
                ClientEvent::EndVoting {
                    story_id,
                    final_score: #[verifier::truncate]
                    (final_score as i32),
                },
            ),
            _ => Directive::Reject(ErrorKind::MalformedEvent),
        }
    } else if same_text(kind, "save_final_score") {
        match message.content.get("story") {
            Some(story) => Directive::Event(ClientEvent::SaveFinalScore { story: story.clone() }),
            None => Directive::Reject(ErrorKind::MalformedEvent),
        }
    } else {
        Directive::Ignore
    }
}

/// Where a connection is in its life.
#[derive(Debug, Clone, Copy, PartialEq, Eq, Structural)]
pub enum Phase {
    /// Made and not yet announced to the room.
    Fresh,
    /// Announced to the room.
    Open,
    /// Taken leave of the room.
    Closed,
}

/// The connection of one participant to one room.
#[derive(Debug, PartialEq)]
pub struct WebSocketSession {
    pub room_id: String,
    pub user_id: String,
    pub username: String,
    pub profile_image: Option<String>,
    pub phase: Phase,
}

impl WebSocketSession {
    /// A connection of the participant `user_id` to the room `room_id`,
    /// not yet announced.
    pub fn new(room_id: String, user_id: String, username: String, profile_image: Option<String>) -> (session:
        Self)
        ensures
            session.room_id == room_id,
            session.user_id == user_id,
            session.username == username,
            session.profile_image == profile_image,
            session.phase == Phase::Fresh,
    {
        WebSocketSession { room_id, user_id, username, profile_image, phase: Phase::Fresh }
    }

    /// Opens the connection: the announcement for the room, with `addr` as
    /// the channel that reaches the participant.
    pub fn started<C>(&mut self, addr: C) -> (connect: Connect<C>)
        ensures
            final(self).phase == Phase::Open,
            final(self).room_id == old(self).room_id,
            final(self).user_id == old(self).user_id,
            final(self).username == old(self).username,
            final(self).profile_image == old(self).profile_image,
            connect.addr == addr,
            connect.room_id@ == old(self).room_id@,
            connect.user_id@ == old(self).user_id@,
            connect.username@ == old(self).username@,
            opt_text(connect.profile_image) == opt_text(old(self).profile_image),
    {
        self.phase = Phase::Open;
        Connect {
            addr,
            room_id: self.room_id.clone(),
            user_id: self.user_id.clone(),
            username: self.username.clone(),
            profile_image: self.profile_image.clone(),
        }
    }

    /// Closes the connection. The leave for the room is handed out once:
    /// by the first call on an open connection, and by no call after it.
    pub fn stopping(&mut self) -> (disconnect: Option<Disconnect>)
        ensures
            final(self).phase == Phase::Closed,
            final(self).room_id == old(self).room_id,
            final(self).user_id == old(self).user_id,
            final(self).username == old(self).username,
            final(self).profile_image == old(self).profile_image,
            match disconnect {
                Some(leave) => old(self).phase == Phase::Open && leave.room_id@ == old(
                    self,
                ).room_id@ && leave.user_id@ == old(self).user_id@,
                None => old(self).phase != Phase::Open,
            },
    {
        let was_open = match self.phase {
            Phase::Open => true,
            _ => false,
        };
        self.phase = Phase::Closed;
        if was_open {
            Some(Disconnect { room_id: self.room_id.clone(), user_id: self.user_id.clone() })
        } else {
            None
        }
    }

    /// What to do about a frame: a ping is answered with its payload, a
    /// close is followed, a text is read as an event, and any other frame
    /// is ignored.
    pub fn handle(&self, frame: Frame) -> (directive: Directive)
        ensures
            match frame {
                Frame::Text(text) => match read_text(text@) {
                    Reading::Event(event) => directive matches Directive::Event(e) && e@ == event,
                    Reading::Malformed => directive matches Directive::Reject(
                        ErrorKind::MalformedEvent,
                    ),
                    Reading::Unknown => directive is Ignore,
                },
                Frame::Ping(payload) => directive matches Directive::Pong(p) && p == payload,
                Frame::Close(reason) => directive matches Directive::Close(r) && r == reason,
                Frame::Other => directive is Ignore,
            },
    {
        match frame {
            Frame::Text(text) => match WebSocketMessage::from_text(text.as_str()) {
                Some(message) => decode_event(&message),
                None => Directive::Reject(ErrorKind::MalformedEvent),
            },
            Frame::Ping(payload) => Directive::Pong(payload),
            Frame::Close(reason) => Directive::Close(reason),
            Frame::Other => Directive::Ignore,
        }
    }
}

} // verus!
