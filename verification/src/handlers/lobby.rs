//! Rooms before the voting: opening one, entering one, looking at one,
//! and opening a connection to one.

use crate::api::ApiError;
use crate::models::game_room::{
    opt_story, opt_text, stories_view, texts, GameRoom, GameRoomView, Story, StoryView,
};
use crate::models::game_room::CreateRoomDto;
use crate::models::user::{User, UserView};
use crate::oid::{is_object_id, parses_as_object_id};
use crate::session::{Phase, WebSocketSession};
use vstd::prelude::*;

verus! {

/// How many symbols an invite code has.
pub const CODE_LENGTH: usize = 6;

/// A symbol of an invite code: an upper-case letter or a digit.
pub open spec fn is_code_symbol(c: char) -> bool {
    ('A' <= c && c <= 'Z') || ('0' <= c && c <= '9')
}

/// An invite code: six symbols.
pub open spec fn is_invite_code(code: Seq<char>) -> bool {
    code.len() == CODE_LENGTH && forall|i: int| 0 <= i < code.len() ==> is_code_symbol(#[trigger] code[i])
}

/// Calls `gen_range` of rand on the thread's generator, which draws from
/// the half-open range and panics where the range is empty.
#[verifier::external_body]
fn random_below(bound: usize) -> (index: usize)
    requires
        bound > 0,
    ensures
        index < bound,
{
    rand::Rng::gen_range(&mut rand::thread_rng(), 0..bound)
}

/// The symbol with the given index among the 36 symbols of invite codes:
/// the letters first, then the digits.
pub fn code_symbol(index: usize) -> (symbol: &'static str)
    requires
        index < 36,
    ensures
        symbol@.len() == 1,
        is_code_symbol(symbol@[0]),
        symbol@[0] == "ABCDEFGHIJKLMNOPQRSTUVWXYZ0123456789"@[index as int],
{
    proof {
        reveal_strlit("ABCDEFGHIJKLMNOPQRSTUVWXYZ0123456789");
    }
    let symbols: &'static str = "ABCDEFGHIJKLMNOPQRSTUVWXYZ0123456789";
    symbols.substring_char(index, index + 1)
}

/// Draws an invite code.
pub fn generate_invite_code() -> (code: String)
    ensures
        is_invite_code(code@),
{
    let mut code = String::new();
    let mut i: usize = 0;
    while i < CODE_LENGTH
        invariant
            i <= CODE_LENGTH,
            code@.len() == i,
            forall|k: int| 0 <= k < i ==> is_code_symbol(#[trigger] code@[k]),
        decreases CODE_LENGTH - i,
    {
        let symbol = code_symbol(random_below(36));
        code.append(symbol);
        i = i + 1;
    }
    code
}

/// Opens a room for `user_id` at `now` under the given invite code: the
/// opener is its admin and its only participant, and nothing has been
/// estimated in it.
pub fn open_room(user_id: String, room_data: CreateRoomDto, invite_code: String, now: i64) -> (room:
    GameRoom)
    ensures
        room@ == (GameRoomView {
            id: None,
            name: room_data.name@,
            invite_code: invite_code@,
            admin_id: user_id@,
            participants: seq![user_id@],
            current_story: None,
            completed_stories: Seq::empty(),
            stories: Seq::empty(),
            created_at: now,
            updated_at: now,
        }),
        room@.well_formed(),
{
    let mut participants: Vec<String> = Vec::new();
    participants.push(user_id.clone());
    let room = GameRoom {
        id: None,
        name: room_data.name,
        invite_code,
        admin_id: user_id,
        participants,
        current_story: None,
        completed_stories: Vec::new(),
        stories: Vec::new(),
        created_at: now,
        updated_at: now,
    };
    proof {
        assert(room@.participants =~= seq![user_id@]);
        assert(room@.completed_stories =~= Seq::<StoryView>::empty());
        assert(room@.stories =~= Seq::<StoryView>::empty());
        assert(room@.participants[0] == user_id@);
    }
    room
}

/// Opens a room for `user_id` at `now` under a code drawn for it.
pub fn create_room(user_id: String, room_data: CreateRoomDto, now: i64) -> (room: GameRoom)
    ensures
        is_invite_code(room@.invite_code),
        room@ == (GameRoomView {
            id: None,
            name: room_data.name@,
            invite_code: room@.invite_code,
            admin_id: user_id@,
            participants: seq![user_id@],
            current_story: None,
            completed_stories: Seq::empty(),
            stories: Seq::empty(),
            created_at: now,
            updated_at: now,
        }),
        room@.well_formed(),
{
    open_room(user_id, room_data, generate_invite_code(), now)
}

/// A participant as a room's report names it.
#[derive(Debug, PartialEq)]
pub struct ParticipantInfo {
    pub id: String,
    pub username: String,
    pub profile_image: Option<String>,
}

pub struct ParticipantInfoView {
    pub id: Seq<char>,
    pub username: Seq<char>,
    pub profile_image: Option<Seq<char>>,
}

impl View for ParticipantInfo {
    type V = ParticipantInfoView;

    open spec fn view(&self) -> ParticipantInfoView {
        ParticipantInfoView {
            id: self.id@,
            username: self.username@,
            profile_image: opt_text(self.profile_image),
        }
    }
}

/// What a list of participants stands for.
pub open spec fn infos_view(infos: Seq<ParticipantInfo>) -> Seq<ParticipantInfoView> {
    infos.map_values(|p: ParticipantInfo| p@)
}

/// A room as it is reported to a client, participants by name.
#[derive(Debug, PartialEq)]
pub struct GameRoomResponse {
    pub id: String,
    pub name: String,
    pub invite_code: String,
    pub admin_id: String,
    pub participants: Vec<ParticipantInfo>,
    pub current_story: Option<Story>,
    pub completed_stories: Vec<Story>,
    pub stories: Vec<Story>,
    pub created_at: i64,
    pub updated_at: i64,
}

pub struct GameRoomResponseView {
    pub id: Seq<char>,
    pub name: Seq<char>,
    pub invite_code: Seq<char>,
    pub admin_id: Seq<char>,
    pub participants: Seq<ParticipantInfoView>,
    pub current_story: Option<StoryView>,
    pub completed_stories: Seq<StoryView>,
    pub stories: Seq<StoryView>,
    pub created_at: i64,
    pub updated_at: i64,
}

impl View for GameRoomResponse {
    type V = GameRoomResponseView;

    open spec fn view(&self) -> GameRoomResponseView {
        GameRoomResponseView {
            id: self.id@,
            name: self.name@,
            invite_code: self.invite_code@,
            admin_id: self.admin_id@,
            participants: infos_view(self.participants@),
            current_story: opt_story(self.current_story),
            completed_stories: stories_view(self.completed_stories@),
            stories: stories_view(self.stories@),
            created_at: self.created_at,
            updated_at: self.updated_at,
        }
    }
}

impl GameRoomView {
    /// The report of the room under the identity `id`, with the given
    /// participants.
    pub open spec fn response(self, id: Seq<char>, participants: Seq<ParticipantInfoView>) -> GameRoomResponseView {
        GameRoomResponseView {
            id,
            name: self.name,
            invite_code: self.invite_code,
            admin_id: self.admin_id,
            participants,
            current_story: self.current_story,
            completed_stories: self.completed_stories,
            stories: self.stories,
            created_at: self.created_at,
            updated_at: self.updated_at,
        }
    }

    /// The room after `user_id` entered it at `now`.
    pub open spec fn with_participant(self, user_id: Seq<char>, now: i64) -> GameRoomView {
        GameRoomView { participants: self.participants.push(user_id), updated_at: now, ..self }
    }
}

/// A participant of whom only the id is known.
pub open spec fn nameless(id: Seq<char>) -> ParticipantInfoView {
    ParticipantInfoView { id, username: Seq::empty(), profile_image: None }
}

/// Names the participants by their ids alone.
pub fn nameless_participants(ids: &Vec<String>) -> (infos: Vec<ParticipantInfo>)
    ensures
        infos_view(infos@) == texts(ids@).map_values(|id: Seq<char>| nameless(id)),
{
    let mut infos: Vec<ParticipantInfo> = Vec::new();
    let mut i: usize = 0;
    while i < ids.len()
        invariant
            i <= ids.len(),
            infos.len() == i,
            forall|k: int| 0 <= k < i ==> (#[trigger] infos@[k])@ == nameless(ids@[k]@),
        decreases ids.len() - i,
    {
        infos.push(ParticipantInfo { id: ids[i].clone(), username: String::new(), profile_image: None });
        i = i + 1;
    }
    assert(infos_view(infos@) =~= texts(ids@).map_values(|id: Seq<char>| nameless(id)));
    infos
}

/// Reports a room under the identity `id`, with the given participants.
pub fn room_response(room: GameRoom, id: String, participants: Vec<ParticipantInfo>) -> (response:
    GameRoomResponse)
    ensures
        response@ == room@.response(id@, infos_view(participants@)),
{
    GameRoomResponse {
        id,
        name: room.name,
        invite_code: room.invite_code,
        admin_id: room.admin_id,
        participants,
        current_story: room.current_story,
        completed_stories: room.completed_stories,
        stories: room.stories,
        created_at: room.created_at,
        updated_at: room.updated_at,
    }
}

/// Whether `id` is among `ids`.
pub fn is_listed(ids: &Vec<String>, id: &str) -> (listed: bool)
    ensures
        listed == texts(ids@).contains(id@),
{
    let wanted = id.to_owned();
    let mut i: usize = 0;
    while i < ids.len()
        invariant
            i <= ids.len(),
            wanted@ == id@,
            forall|k: int| 0 <= k < i ==> texts(ids@)[k] != id@,
        decreases ids.len() - i,
    {
        if ids[i] == wanted {
            assert(texts(ids@)[i as int] == id@);
            return true;
        }
        i = i + 1;
    }
    false
}

/// Entering a room keeps its invariant, where the one who enters was no
/// participant before.
pub proof fn lemma_join_keeps_room_well_formed(room: GameRoomView, user_id: Seq<char>, now: i64)
    requires
        room.well_formed(),
        !room.participants.contains(user_id),
    ensures
        room.with_participant(user_id, now).well_formed(),
{
    let after = room.with_participant(user_id, now);
    let i = choose|i: int| 0 <= i < room.participants.len() && room.participants[i] == room.admin_id;
    assert(after.participants[i] == room.admin_id);
    assert forall|a: int, b: int|
        0 <= a < after.participants.len() && 0 <= b < after.participants.len() && a
            != b implies after.participants[a] != after.participants[b] by {
        if a < room.participants.len() && b < room.participants.len() {
            assert(room.participants[a] != room.participants[b]);
        } else if a < room.participants.len() {
            assert(room.participants.contains(room.participants[a]));
        } else {
            assert(room.participants.contains(room.participants[b]));
        }
    }
    match room.current_story {
        Some(story) => {
            let s = choose|s: int| 0 <= s < room.stories.len() && (#[trigger] room.stories[s]).id == story.id;
            assert(after.stories[s].id == story.id);
        },
        None => {},
    }
}

/// Lets `user_id` into the room that the store holds under an invite
/// code, at `now`. What comes back is the room as it has to be stored,
/// with the newcomer as its last participant, and the report for the
/// newcomer, which names the participants that were there before.
pub fn join_room(found: Option<GameRoom>, user_id: &str, now: i64) -> (outcome: Result<
    (GameRoom, GameRoomResponse),
    ApiError,
>)
    requires
        found matches Some(room) ==> room.id is Some,
    ensures
        match outcome {
            Ok((room, response)) => {
                &&& found is Some
                &&& !found->0@.participants.contains(user_id@)
                &&& room@ == found->0@.with_participant(user_id@, now)
                &&& response@ == (GameRoomView { updated_at: now, ..found->0@ }).response(
                    found->0@.id->0,
                    found->0@.participants.map_values(|id: Seq<char>| nameless(id)),
                )
                &&& found->0@.well_formed() ==> room@.well_formed()
            },
            Err(error) => match found {
                None => error == ApiError::RoomNotFound,
                Some(room) => error == ApiError::AlreadyInRoom && room@.participants.contains(
                    user_id@,
                ),
            },
        },
{
    let mut room = match found {
        Some(room) => room,
        None => {
            return Err(ApiError::RoomNotFound);
        },
    };
    if is_listed(&room.participants, user_id) {
        return Err(ApiError::AlreadyInRoom);
    }
    let ghost before = room@;
    let id = match &room.id {
        Some(id) => id.clone(),
        None => String::new(),
    };
    let current_story = match &room.current_story {
        Some(story) => Some(story.clone()),
        None => None,
    };
    let completed_stories = room.completed_stories.clone();
    let stories = room.stories.clone();
    proof {
        assert(stories_view(completed_stories@) =~= before.completed_stories);
        assert(stories_view(stories@) =~= before.stories);
    }
    let response = GameRoomResponse {
        id,
        name: room.name.clone(),
        invite_code: room.invite_code.clone(),
        admin_id: room.admin_id.clone(),
        participants: nameless_participants(&room.participants),
        current_story,
        completed_stories,
        stories,
        created_at: room.created_at,
        updated_at: now,
    };
    room.participants.push(user_id.to_owned());
    room.updated_at = now;
    proof {
        assert(room@.participants =~= before.participants.push(user_id@));
        if before.well_formed() {
            lemma_join_keeps_room_well_formed(before, user_id@, now);
        }
    }
    Ok((room, response))
}

/// Whether the store took the newcomer in: it did where it changed a
/// room.
pub fn confirm_join(modified_count: u64, response: GameRoomResponse) -> (outcome: Result<
    GameRoomResponse,
    ApiError,
>)
    ensures
        match outcome {
            Ok(confirmed) => modified_count > 0 && confirmed == response,
            Err(error) => modified_count == 0 && error == ApiError::JoinFailed,
        },
{
    if modified_count == 0 {
        Err(ApiError::JoinFailed)
    } else {
        Ok(response)
    }
}

/// Whether `user_id` may look at the room named `room_id`: `found` is what
/// the store holds under that identity.
pub open spec fn access(room_id: Seq<char>, found: Option<GameRoomView>, user_id: Seq<char>) -> Result<
    (),
    ApiError,
> {
    if !is_object_id(room_id) {
        Err(ApiError::InvalidRoomId)
    } else {
        match found {
            None => Err(ApiError::RoomNotFound),
            Some(room) => if room.participants.contains(user_id) {
                Ok(())
            } else {
                Err(ApiError::NotAMember)
            },
        }
    }
}

/// What an optional room stands for.
pub open spec fn opt_room(room: Option<&GameRoom>) -> Option<GameRoomView> {
    match room {
        Some(r) => Some(r@),
        None => None,
    }
}

/// Decides whether `user_id` may look at the room named `room_id`.
pub fn check_access(room_id: &str, found: Option<&GameRoom>, user_id: &str) -> (outcome: Result<
    (),
    ApiError,
>)
    ensures
        outcome == access(room_id@, opt_room(found), user_id@),
{
    if !parses_as_object_id(room_id) {
        return Err(ApiError::InvalidRoomId);
    }
    match found {
        None => Err(ApiError::RoomNotFound),
        Some(room) => if is_listed(&room.participants, user_id) {
            Ok(())
        } else {
            Err(ApiError::NotAMember)
        },
    }
}

/// Hands out the room named `room_id` to a participant of it.
pub fn get_room(room_id: &str, found: Option<GameRoom>, user_id: &str) -> (outcome: Result<
    GameRoom,
    ApiError,
>)
    ensures
        match outcome {
            Ok(room) => found == Some(room) && access(room_id@, Some(room@), user_id@).is_ok(),
            Err(error) => match found {
                Some(room) => access(room_id@, Some(room@), user_id@) == Err::<(), ApiError>(error),
                None => access(room_id@, None, user_id@) == Err::<(), ApiError>(error),
            },
        },
{
    match check_access(room_id, found.as_ref(), user_id) {
        Ok(_) => Ok(found.unwrap()),
        Err(error) => Err(error),
    }
}

/// Decides whether `user_id` may read the completed stories of the room
/// named `room_id`.
pub fn get_completed_stories(room_id: &str, found: Option<&GameRoom>, user_id: &str) -> (outcome:
    Result<(), ApiError>)
    ensures
        outcome == access(room_id@, opt_room(found), user_id@),
{
    check_access(room_id, found, user_id)
}

/// The participants of a room's report: of the ids, in order, those that
/// are the text of an identity under which the store holds an account,
/// each with the name and the picture of that account.
pub open spec fn known_participants(ids: Seq<Seq<char>>, accounts: Seq<Option<UserView>>) -> Seq<
    ParticipantInfoView,
>
    decreases ids.len(),
{
    if ids.len() == 0 || accounts.len() == 0 {
        Seq::empty()
    } else {
        let earlier = known_participants(ids.drop_last(), accounts.drop_last());
        match accounts.last() {
            Some(account) if is_object_id(ids.last()) => earlier.push(
                ParticipantInfoView {
                    id: ids.last(),
                    username: account.username,
                    profile_image: account.profile_image,
                },
            ),
            _ => earlier,
        }
    }
}

/// What a list of optional accounts stands for.
pub open spec fn accounts_view(accounts: Seq<Option<User>>) -> Seq<Option<UserView>> {
    accounts.map_values(
        |a: Option<User>|
            match a {
                Some(u) => Some(u@),
                None => None,
            },
    )
}

/// Names the participants of a room: `accounts` holds, for each id, the
/// account that the store holds under it.
pub fn get_participants_info(participant_ids: &Vec<String>, accounts: &Vec<Option<User>>) -> (infos:
    Vec<ParticipantInfo>)
    requires
        accounts.len() == participant_ids.len(),
    ensures
        infos_view(infos@) == known_participants(texts(participant_ids@), accounts_view(accounts@)),
{
    let ghost ids = texts(participant_ids@);
    let ghost held = accounts_view(accounts@);
    let mut infos: Vec<ParticipantInfo> = Vec::new();
    let mut i: usize = 0;
    assert(ids.take(0).len() == 0);
    assert(infos_view(infos@) =~= Seq::<ParticipantInfoView>::empty());
    while i < participant_ids.len()
        invariant
            i <= participant_ids.len(),
            accounts.len() == participant_ids.len(),
            ids == texts(participant_ids@),
            held == accounts_view(accounts@),
            infos_view(infos@) == known_participants(ids.take(i as int), held.take(i as int)),
        decreases participant_ids.len() - i,
    {
        let ghost before = infos_view(infos@);
        proof {
            assert(ids.take(i + 1).drop_last() =~= ids.take(i as int));
            assert(held.take(i + 1).drop_last() =~= held.take(i as int));
            assert(ids.take(i + 1).last() == participant_ids@[i as int]@);
            assert(held.take(i + 1).last() == held[i as int]);
        }
        match &accounts[i] {
            Some(account) => {
                if parses_as_object_id(participant_ids[i].as_str()) {
                    infos.push(
                        ParticipantInfo {
                            id: participant_ids[i].clone(),
                            username: account.username.clone(),
                            profile_image: account.profile_image.clone(),
                        },
                    );
                    assert(infos_view(infos@) =~= before.push(infos@[infos.len() - 1]@));
                }
            },
            None => {},
        }
        i = i + 1;
    }
    proof {
        assert(ids.take(i as int) =~= ids);
        assert(held.take(i as int) =~= held);
    }
    infos
}

/// Makes the connection of `user_id` to the room `room_id`: `found` is the
/// account that the store holds under that identity, and the connection
/// carries its name and picture.
pub fn room_ws(room_id: String, user_id: String, found: Option<&User>) -> (outcome: Result<
    WebSocketSession,
    ApiError,
>)
    ensures
        match outcome {
            Ok(session) => {
                &&& is_object_id(user_id@)
                &&& found is Some
                &&& session.room_id == room_id
                &&& session.user_id == user_id
                &&& session.username@ == found->0@.username
                &&& opt_text(session.profile_image) == found->0@.profile_image
                &&& session.phase == Phase::Fresh
            },
            Err(error) => if !is_object_id(user_id@) {
                error == ApiError::InvalidUserId
            } else {
                error == ApiError::UserNotFound && found.is_none()
            },
        },
{
    if !parses_as_object_id(user_id.as_str()) {
        return Err(ApiError::InvalidUserId);
    }
    match found {
        Some(user) => Ok(
            WebSocketSession::new(
                room_id,
                user_id,
                user.username.clone(),
                user.profile_image.clone(),
            ),
        ),
        None => Err(ApiError::UserNotFound),
    }
}

} // verus!
