//! The voting cycle of a room: a story is put up, votes come in, the
//! voting ends, and a scored story is committed to history.

use crate::error::ErrorKind;
use crate::json::{Json, JsonView};
use crate::models::game_room::{
    decode_votes, stories_view, votes_from_items, votes_view, CompletedStory,
    CompletedStoryView, GameRoom, GameRoomView, Story, StoryDraft, StoryDraftView, StoryView, Vote,
    VoteView,
};
use crate::models::user::User;
use crate::oid::{is_object_id, new_object_id, parses_as_object_id};
use crate::session::{ClientEvent, ClientEventView};
use crate::text::same_text;
use crate::websocket::{GameMessage, GameMessageView};
use vstd::prelude::*;

verus! {

impl StoryView {
    /// The story that is put up in a room for a draft: it has the given
    /// id, the draft's title and description, no votes and no score.
    pub open spec fn started(draft: StoryDraftView, id: Seq<char>, room_id: Seq<char>) -> StoryView {
        StoryView {
            id,
            room_id,
            title: draft.title,
            description: draft.description,
            votes: Seq::empty(),
            final_score: None,
        }
    }
}

impl GameRoomView {
    /// The room is estimating the story with this id.
    pub open spec fn is_voting_on(self, story_id: Seq<char>) -> bool {
        match self.current_story {
            Some(story) => story.id == story_id,
            None => false,
        }
    }

    /// The room after `story` was put up at `now`: it is the story being
    /// estimated and the last of the history.
    pub open spec fn with_story(self, story: StoryView, now: i64) -> GameRoomView {
        GameRoomView {
            current_story: Some(story),
            stories: self.stories.push(story),
            updated_at: now,
            ..self
        }
    }

    /// The room after `vote` was added, at `now`, to the story being
    /// estimated.
    pub open spec fn with_vote(self, vote: VoteView, now: i64) -> GameRoomView
        recommends
            self.current_story is Some,
    {
        let story = self.current_story->0;
        GameRoomView {
            current_story: Some(StoryView { votes: story.votes.push(vote), ..story }),
            updated_at: now,
            ..self
        }
    }

    /// The room after the voting ended at `now`: the story that was being
    /// estimated is the last of the completed ones, with its votes and
    /// the score, and no story is being estimated.
    pub open spec fn with_voting_ended(self, final_score: i32, now: i64) -> GameRoomView
        recommends
            self.current_story is Some,
    {
        let story = self.current_story->0;
        GameRoomView {
            current_story: None,
            completed_stories: self.completed_stories.push(
                StoryView { final_score: Some(final_score), ..story },
            ),
            updated_at: now,
            ..self
        }
    }
}

/// An event of the voting cycle, as the room sees it.
pub enum RoomEvent {
    /// A story is put up.
    NewStory { story: StoryView, now: i64 },
    /// A vote arrives for the story `story_id`.
    Vote { story_id: Seq<char>, vote: VoteView, now: i64 },
    /// The voting on the story `story_id` is ended with a score.
    EndVoting { story_id: Seq<char>, final_score: i32, now: i64 },
}

/// The room after one event. A vote or an end of voting for a story that
/// the room is not estimating leaves the room as it is.
pub open spec fn step(room: GameRoomView, event: RoomEvent) -> GameRoomView {
    match event {
        RoomEvent::NewStory { story, now } => room.with_story(story, now),
        RoomEvent::Vote { story_id, vote, now } => if room.is_voting_on(story_id) {
            room.with_vote(vote, now)
        } else {
            room
        },
        RoomEvent::EndVoting { story_id, final_score, now } => if room.is_voting_on(story_id) {
            room.with_voting_ended(final_score, now)
        } else {
            room
        },
    }
}

/// The room after a sequence of events, applied in order.
pub open spec fn replay(room: GameRoomView, events: Seq<RoomEvent>) -> GameRoomView
    decreases events.len(),
{
    if events.len() == 0 {
        room
    } else {
        step(replay(room, events.drop_last()), events.last())
    }
}

/// No event breaks the invariant of a room: whatever arrives, the story
/// being estimated, if there is one, is part of the room's history.
pub proof fn lemma_step_keeps_room_well_formed(room: GameRoomView, event: RoomEvent)
    requires
        room.well_formed(),
    ensures
        step(room, event).well_formed(),
{
    let after = step(room, event);
    match event {
        RoomEvent::NewStory { story, now } => {
            assert(after.stories[room.stories.len() as int].id == story.id);
        },
        RoomEvent::Vote { story_id, vote, now } => {
            if room.is_voting_on(story_id) {
                let i = choose|i: int|
                    0 <= i < room.stories.len() && (#[trigger] room.stories[i]).id == story_id;
                assert(after.stories[i].id == after.current_story->0.id);
            }
        },
        RoomEvent::EndVoting { .. } => {},
    }
}

/// The invariant of a room holds after every sequence of events.
pub proof fn lemma_replay_keeps_room_well_formed(room: GameRoomView, events: Seq<RoomEvent>)
    requires
        room.well_formed(),
    ensures
        replay(room, events).well_formed(),
    decreases events.len(),
{
    if events.len() > 0 {
        lemma_replay_keeps_room_well_formed(room, events.drop_last());
        lemma_step_keeps_room_well_formed(replay(room, events.drop_last()), events.last());
    }
}

/// Ending the voting moves exactly one story: the completed stories grow
/// by the story that was being estimated, with the votes it had and the
/// score, no story is being estimated afterwards, and the history stays.
pub proof fn lemma_end_voting_moves_one_story(room: GameRoomView, final_score: i32, now: i64)
    requires
        room.current_story is Some,
    ensures
        ({
            let after = room.with_voting_ended(final_score, now);
            &&& after.current_story is None
            &&& after.completed_stories.len() == room.completed_stories.len() + 1
            &&& after.completed_stories.drop_last() == room.completed_stories
            &&& after.completed_stories.last().id == room.current_story->0.id
            &&& after.completed_stories.last().votes == room.current_story->0.votes
            &&& after.completed_stories.last().final_score == Some(final_score)
            &&& after.stories == room.stories
        }),
{
    let after = room.with_voting_ended(final_score, now);
    assert(after.completed_stories.drop_last() =~= room.completed_stories);
}

/// Puts up a story for `draft` in the room named `room_id`, under the id
/// `story_id`, whatever state the room is in. Returns what the members of
/// the room are told.
pub fn start_story(room: &mut GameRoom, room_id: &str, draft: StoryDraft, story_id: String, now: i64) -> (message:
    GameMessage)
    ensures
        final(room)@ == old(room)@.with_story(
            StoryView::started(draft@, story_id@, room_id@),
            now,
        ),
        message@ == (GameMessageView::NewStory {
            story: StoryView::started(draft@, story_id@, room_id@),
        }),
        old(room)@.well_formed() ==> final(room)@.well_formed(),
{
    let ghost before = room@;
    let ghost started = StoryView::started(draft@, story_id@, room_id@);
    let fresh = Story {
        id: story_id,
        room_id: room_id.to_owned(),
        title: draft.title,
        description: draft.description,
        votes: Vec::new(),
        final_score: None,
    };
    assert(fresh@.votes =~= Seq::<VoteView>::empty());
    let kept = fresh.clone();
    let told = fresh.clone();
    room.stories.push(kept);
    room.current_story = Some(fresh);
    room.updated_at = now;
    proof {
        assert(stories_view(room.stories@) =~= before.stories.push(started));
        assert(room@.stories[before.stories.len() as int].id == started.id);
    }
    GameMessage::NewStory { story: told }
}

/// Puts up a story for `draft` in the room named `room_id`, under a new
/// id. The id is the one in the message that is returned.
pub fn handle_new_story(room: &mut GameRoom, room_id: &str, draft: StoryDraft, now: i64) -> (message:
    GameMessage)
    ensures
        match message@ {
            GameMessageView::NewStory { story: started } => {
                &&& is_object_id(started.id)
                &&& started == StoryView::started(draft@, started.id, room_id@)
                &&& final(room)@ == old(room)@.with_story(started, now)
            },
            _ => false,
        },
        old(room)@.well_formed() ==> final(room)@.well_formed(),
{
    let story_id = new_object_id();
    start_story(room, room_id, draft, story_id, now)
}

/// Adds the vote of `voter`, cast as participant `user_id`, to the story
/// being estimated. The name and the picture on the vote are those of the
/// account. Where the room is not estimating `story_id`, nothing changes
/// and nobody is told.
pub fn handle_vote(
    room: &mut GameRoom,
    voter: &User,
    user_id: &str,
    story_id: &str,
    value: i32,
    now: i64,
) -> (outcome: Result<GameMessage, ErrorKind>)
    ensures
        match outcome {
            Ok(message) => {
                &&& old(room)@.is_voting_on(story_id@)
                &&& message@ == (GameMessageView::Vote {
                    user_id: user_id@,
                    story_id: story_id@,
                    value,
                    username: voter@.username,
                    profile_image: voter@.profile_image,
                })
                &&& final(room)@ == old(room)@.with_vote(
                    VoteView {
                        user_id: user_id@,
                        username: voter@.username,
                        profile_image: voter@.profile_image,
                        value,
                        timestamp: now,
                    },
                    now,
                )
            },
            Err(kind) => {
                &&& !old(room)@.is_voting_on(story_id@)
                &&& kind == ErrorKind::UnknownStory
                &&& *final(room) == *old(room)
            },
        },
        old(room)@.well_formed() ==> final(room)@.well_formed(),
{
    let ghost before = room@;
    let matches_current = match &room.current_story {
        Some(story) => same_text(story.id.as_str(), story_id),
        None => false,
    };
    if !matches_current {
        return Err(ErrorKind::UnknownStory);
    }
    let vote = Vote {
        user_id: user_id.to_owned(),
        username: voter.username.clone(),
        profile_image: voter.profile_image.clone(),
        value,
        timestamp: now,
    };
    let mut story = room.current_story.take().unwrap();
    let ghost votes_before = story.votes@;
    story.votes.push(vote);
    assert(votes_view(story.votes@) =~= votes_view(votes_before).push(vote@));
    room.current_story = Some(story);
    room.updated_at = now;
    proof {
        if before.well_formed() {
            let i = choose|i: int|
                0 <= i < before.stories.len() && (#[trigger] before.stories[i]).id
                    == before.current_story->0.id;
            assert(room@.stories[i].id == room@.current_story->0.id);
        }
    }
    Ok(
        GameMessage::Vote {
            user_id: user_id.to_owned(),
            story_id: story_id.to_owned(),
            value,
            username: voter.username.clone(),
            profile_image: voter.profile_image.clone(),
        },
    )
}

/// Ends the voting on the story being estimated: the story moves, with
/// its votes and the score, to the completed ones. Where the room is not
/// estimating `story_id`, nothing changes and nobody is told.
pub fn handle_end_voting(room: &mut GameRoom, story_id: &str, final_score: i32, now: i64) -> (outcome:
    Result<GameMessage, ErrorKind>)
    ensures
        match outcome {
            Ok(message) => {
                &&& old(room)@.is_voting_on(story_id@)
                &&& message@ == (GameMessageView::EndVoting { story_id: story_id@, final_score })
                &&& final(room)@ == old(room)@.with_voting_ended(final_score, now)
            },
            Err(kind) => {
                &&& !old(room)@.is_voting_on(story_id@)
                &&& kind == ErrorKind::UnknownStory
                &&& *final(room) == *old(room)
            },
        },
        old(room)@.well_formed() ==> final(room)@.well_formed(),
{
    let ghost before = room@;
    let matches_current = match &room.current_story {
        Some(story) => same_text(story.id.as_str(), story_id),
        None => false,
    };
    if !matches_current {
        return Err(ErrorKind::UnknownStory);
    }
    let mut story = room.current_story.take().unwrap();
    story.final_score = Some(final_score);
    let ghost moved = story@;
    room.completed_stories.push(story);
    room.updated_at = now;
    assert(stories_view(room.completed_stories@) =~= before.completed_stories.push(moved));
    Ok(GameMessage::EndVoting { story_id: story_id.to_owned(), final_score })
}

/// The votes of a free-form story: those under `votes` where that is an
/// array of votes, and none otherwise.
pub open spec fn lenient_votes(story: JsonView) -> Seq<VoteView> {
    match story.member("votes"@) {
        Some(JsonView::Array(items)) => match votes_from_items(items) {
            Some(votes) => votes,
            None => Seq::empty(),
        },
        _ => Seq::empty(),
    }
}

/// The score of a free-form story: the integer under `final_score`, cut
/// to its low 32 bits, and 0 where there is none.
pub open spec fn lenient_score(story: JsonView) -> i32 {
    match story.i64_at("final_score"@) {
        Some(score) => score as i32,
        None => 0,
    }
}

/// The record that commits a free-form story to history, or `None` where
/// the story has no text under `title` or none under `description`.
pub open spec fn archived(
    room_id: Seq<char>,
    story: JsonView,
    story_id: Seq<char>,
    now: i64,
) -> Option<CompletedStoryView> {
    match (story.text_at("title"@), story.text_at("description"@)) {
        (Some(title), Some(description)) => Some(
            CompletedStoryView {
                id: None,
                story_id,
                room_id,
                title,
                description: Some(description),
                votes: lenient_votes(story),
                final_score: lenient_score(story),
                completed_at: now,
            },
        ),
        _ => None,
    }
}

/// Reads the votes of a free-form story.
fn read_lenient_votes(story: &Json) -> (votes: Vec<Vote>)
    ensures
        votes_view(votes@) == lenient_votes(story@),
{
    let found = match story.get("votes") {
        Some(member) => match member.as_array() {
            Some(items) => decode_votes(items),
            None => None,
        },
        None => None,
    };
    match found {
        Some(votes) => votes,
        None => {
            let votes: Vec<Vote> = Vec::new();
            assert(votes_view(votes@) =~= Seq::<VoteView>::empty());
            votes
        },
    }
}

/// Builds the record that commits a free-form story of the room `room_id`
/// to history under the story id `story_id`. The store has not seen the
/// record yet, so it has no identity.
pub fn archive_story(room_id: &str, story: &Json, story_id: String, now: i64) -> (outcome: Result<
    CompletedStory,
    ErrorKind,
>)
    ensures
        match outcome {
            Ok(record) => archived(room_id@, story@, story_id@, now) == Some(record@),
            Err(kind) => kind == ErrorKind::MalformedEvent && archived(
                room_id@,
                story@,
                story_id@,
                now,
            ).is_none(),
        },
{
    let title = story.text_at("title");
    let description = story.text_at("description");
    match (title, description) {
        (Some(title), Some(description)) => {
            let votes = read_lenient_votes(story);
            let final_score = match story.i64_at("final_score") {
                Some(score) => #[verifier::truncate]
                (score as i32),
                None => 0,
            };
            Ok(
                CompletedStory {
                    id: None,
                    story_id,
                    room_id: room_id.to_owned(),
                    title,
                    description: Some(description),
                    votes,
                    final_score,
                    completed_at: now,
                },
            )
        },
        _ => Err(ErrorKind::MalformedEvent),
    }
}

/// Builds the record that commits a free-form story to history, under a
/// new story id. The room must be named by the text of an identity.
pub fn handle_save_final_score(room_id: &str, story: &Json, now: i64) -> (outcome: Result<
    CompletedStory,
    ErrorKind,
>)
    ensures
        match outcome {
            Ok(record) => {
                &&& is_object_id(room_id@)
                &&& is_object_id(record@.story_id)
                &&& archived(room_id@, story@, record@.story_id, now) == Some(record@)
            },
            Err(kind) => if !is_object_id(room_id@) {
                kind == ErrorKind::UnknownRoom
            } else {
                kind == ErrorKind::MalformedEvent && forall|id: Seq<char>|
                    archived(room_id@, story@, id, now).is_none()
            },
        },
{
    if !parses_as_object_id(room_id) {
        return Err(ErrorKind::UnknownRoom);
    }
    let story_id = new_object_id();
    archive_story(room_id, story, story_id, now)
}

/// What the members of a room are told once the store holds `record`
/// under the identity `stored_id`.
pub fn completed_story_message(record: CompletedStory, stored_id: String) -> (message: GameMessage)
    ensures
        message@ == (GameMessageView::CompletedStory {
            story: CompletedStoryView { id: Some(stored_id@), ..record@ },
        }),
{
    GameMessage::CompletedStory { story: CompletedStory { id: Some(stored_id), ..record } }
}

/// The room that an event is for: `found` is what the store holds under
/// `room_id`.
pub fn locate_room(room_id: &str, found: Option<GameRoom>) -> (outcome: Result<GameRoom, ErrorKind>)
    ensures
        match outcome {
            Ok(room) => is_object_id(room_id@) && found == Some(room),
            Err(kind) => kind == ErrorKind::UnknownRoom && (!is_object_id(room_id@)
                || found.is_none()),
        },
{
    if !parses_as_object_id(room_id) {
        return Err(ErrorKind::UnknownRoom);
    }
    match found {
        Some(room) => Ok(room),
        None => Err(ErrorKind::UnknownRoom),
    }
}

/// The account behind a participant: `found` is what the store holds under
/// `user_id`.
pub fn locate_user(user_id: &str, found: Option<User>) -> (outcome: Result<User, ErrorKind>)
    ensures
        match outcome {
            Ok(user) => is_object_id(user_id@) && found == Some(user),
            Err(kind) => kind == ErrorKind::UnknownUser && (!is_object_id(user_id@)
                || found.is_none()),
        },
{
    if !parses_as_object_id(user_id) {
        return Err(ErrorKind::UnknownUser);
    }
    match found {
        Some(user) => Ok(user),
        None => Err(ErrorKind::UnknownUser),
    }
}

/// What follows from an event that the room took.
#[derive(Debug, PartialEq)]
pub enum Action {
    /// Store the room as it is now, and tell its members.
    Broadcast(GameMessage),
    /// Store the record. The members are told once the store has given
    /// it an identity.
    Archive(CompletedStory),
}

/// Applies one event of the participant `user_id` to the room named
/// `room_id`, at `now`. `voter` is the account that the store holds for
/// the participant; only a vote needs it, and a vote without it fails
/// before the room is looked at. An event that fails leaves the room as
/// it is.
pub fn coordinate(
    room: &mut GameRoom,
    room_id: &str,
    user_id: &str,
    voter: Option<&User>,
    event: ClientEvent,
    now: i64,
) -> (outcome: Result<Action, ErrorKind>)
    ensures
        outcome is Err ==> *final(room) == *old(room),
        old(room)@.well_formed() ==> final(room)@.well_formed(),
        match event@ {
            ClientEventView::NewStory { draft } => outcome matches Ok(
                Action::Broadcast(GameMessage::NewStory { story: started }),
            ) && is_object_id(started@.id) && started@ == StoryView::started(
                draft,
                started@.id,
                room_id@,
            ) && final(room)@ == old(room)@.with_story(started@, now),
            ClientEventView::Vote { story_id, value } => match outcome {
                Ok(action) => {
                    &&& voter is Some
                    &&& old(room)@.is_voting_on(story_id)
                    &&& action matches Action::Broadcast(message)
                    &&& message@ == (GameMessageView::Vote {
                        user_id: user_id@,
                        story_id,
                        value,
                        username: voter->0@.username,
                        profile_image: voter->0@.profile_image,
                    })
                    &&& final(room)@ == old(room)@.with_vote(
                        VoteView {
                            user_id: user_id@,
                            username: voter->0@.username,
                            profile_image: voter->0@.profile_image,
                            value,
                            timestamp: now,
                        },
                        now,
                    )
                },
                Err(kind) => if voter is None {
                    kind == ErrorKind::UnknownUser
                } else {
                    kind == ErrorKind::UnknownStory && !old(room)@.is_voting_on(story_id)
                },
            },
            ClientEventView::EndVoting { story_id, final_score } => match outcome {
                Ok(action) => {
                    &&& old(room)@.is_voting_on(story_id)
                    &&& action matches Action::Broadcast(message)
                    &&& message@ == (GameMessageView::EndVoting { story_id, final_score })
                    &&& final(room)@ == old(room)@.with_voting_ended(final_score, now)
                },
                Err(kind) => kind == ErrorKind::UnknownStory && !old(room)@.is_voting_on(story_id),
            },
            ClientEventView::SaveFinalScore { story } => *final(room) == *old(room) && match outcome {
                Ok(action) => {
                    &&& is_object_id(room_id@)
                    &&& action matches Action::Archive(record)
                    &&& is_object_id(record@.story_id)
                    &&& archived(room_id@, story, record@.story_id, now) == Some(record@)
                },
                Err(kind) => if !is_object_id(room_id@) {
                    kind == ErrorKind::UnknownRoom
                } else {
                    kind == ErrorKind::MalformedEvent && forall|id: Seq<char>|
                        archived(room_id@, story, id, now).is_none()
                },
            },
        },
{
    match event {
        ClientEvent::NewStory { draft } => Ok(
            Action::Broadcast(handle_new_story(room, room_id, draft, now)),
        ),
        ClientEvent::Vote { story_id, value } => match voter {
            Some(account) => match handle_vote(room, account, user_id, story_id.as_str(), value, now) {
                Ok(message) => Ok(Action::Broadcast(message)),
                Err(kind) => Err(kind),
            },
            None => Err(ErrorKind::UnknownUser),
        },
        ClientEvent::EndVoting { story_id, final_score } => match handle_end_voting(
            room,
            story_id.as_str(),
            final_score,
            now,
        ) {
            Ok(message) => Ok(Action::Broadcast(message)),
            Err(kind) => Err(kind),
        },
        ClientEvent::SaveFinalScore { story } => match handle_save_final_score(room_id, &story, now) {
            Ok(record) => Ok(Action::Archive(record)),
            Err(kind) => Err(kind),
        },
    }
}

} // verus!
