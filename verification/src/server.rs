//! The room server: it keeps the registry of connections and works out
//! who is told what when a participant comes, goes or acts.

use crate::registry::{lists_room, members, names, targets_view, Registry, SessionKey};
use crate::websocket::{
    encode_user, user_content, GameMessage, GameMessageView, WebSocketMessage, WebSocketMessageView,
};
use vstd::prelude::*;

verus! {

/// A participant has connected to a room through the channel `addr`.
pub struct Connect<C> {
    pub addr: C,
    pub room_id: String,
    pub user_id: String,
    pub username: String,
    pub profile_image: Option<String>,
}

/// A participant has left a room.
#[derive(Debug, PartialEq)]
pub struct Disconnect {
    pub room_id: String,
    pub user_id: String,
}

/// One message for one participant.
#[derive(Debug, PartialEq)]
pub struct Notice {
    pub to: String,
    pub message: WebSocketMessage,
}

pub struct NoticeView {
    pub to: Seq<char>,
    pub message: WebSocketMessageView,
}

impl View for Notice {
    type V = NoticeView;

    open spec fn view(&self) -> NoticeView {
        NoticeView { to: self.to@, message: self.message@ }
    }
}

/// What a list of notices stands for.
pub open spec fn notices_view(notices: Seq<Notice>) -> Seq<NoticeView> {
    notices.map_values(|n: Notice| n@)
}

/// What a list of texts stands for.
pub open spec fn ids_view(ids: Seq<String>) -> Seq<Seq<char>> {
    ids.map_values(|id: String| id@)
}

/// `notices` tells every participant of `audience` the `message`, once,
/// and tells nobody else anything.
pub open spec fn tells(
    notices: Seq<NoticeView>,
    audience: Set<Seq<char>>,
    message: WebSocketMessageView,
) -> bool {
    &&& forall|i: int|
        0 <= i < notices.len() ==> audience.contains((#[trigger] notices[i]).to) && notices[i].message
            == message
    &&& forall|participant: Seq<char>| #[trigger]
        audience.contains(participant) ==> exists|i: int|
            0 <= i < notices.len() && (#[trigger] notices[i]).to == participant
    &&& forall|i: int, j: int|
        0 <= i < j < notices.len() ==> (#[trigger] notices[i]).to != (#[trigger] notices[j]).to
}

/// The message that tells a newcomer that `member` is in the room already:
/// a `user_connected` that carries the member's id and nothing else.
pub open spec fn presence(room: Seq<char>, member: Seq<char>) -> WebSocketMessageView {
    WebSocketMessageView {
        message_type: "user_connected"@,
        content: user_content(member),
        room_id: room,
        user_id: member,
    }
}

/// `notices` tells `newcomer` of every participant of `present`, once
/// each, and tells nobody else anything.
pub open spec fn greets(
    notices: Seq<NoticeView>,
    newcomer: Seq<char>,
    present: Set<Seq<char>>,
    room: Seq<char>,
) -> bool {
    &&& forall|i: int|
        0 <= i < notices.len() ==> (#[trigger] notices[i]).to == newcomer && present.contains(
            notices[i].message.user_id,
        ) && notices[i].message == presence(room, notices[i].message.user_id)
    &&& forall|participant: Seq<char>| #[trigger]
        present.contains(participant) ==> exists|i: int|
            0 <= i < notices.len() && (#[trigger] notices[i]).message.user_id == participant
    &&& forall|i: int, j: int|
        0 <= i < j < notices.len() ==> (#[trigger] notices[i]).message.user_id != (
        #[trigger] notices[j]).message.user_id
}

/// The participants of `ids` other than `except`.
fn others(ids: Vec<String>, except: &String) -> (rest: Vec<String>)
    requires
        ids_view(ids@).no_duplicates(),
    ensures
        names(ids_view(rest@), ids_view(ids@).to_set().remove(except@)),
{
    let ghost all = ids_view(ids@);
    let mut rest: Vec<String> = Vec::new();
    let ghost mut origin: Seq<int> = Seq::empty();
    let mut i: usize = 0;
    while i < ids.len()
        invariant
            i <= ids.len(),
            all == ids_view(ids@),
            origin.len() == rest.len(),
            forall|t: int|
                0 <= t < origin.len() ==> 0 <= #[trigger] origin[t] < i && rest@[t]@ == all[origin[t]]
                    && rest@[t]@ != except@,
            forall|s: int, t: int| 0 <= s < t < origin.len() ==> origin[s] < origin[t],
            forall|k: int|
                0 <= k < i && #[trigger] all[k] != except@ ==> exists|t: int|
                    0 <= t < origin.len() && origin[t] == k,
        decreases ids.len() - i,
    {
        if ids[i] != *except {
            rest.push(ids[i].clone());
            proof {
                let ghost grown = origin.push(i as int);
                assert forall|k: int| 0 <= k < i + 1 && #[trigger] all[k] != except@ implies exists|
                    t: int,
                |
                    0 <= t < grown.len() && grown[t] == k by {
                    if k < i {
                        let t = choose|t: int| 0 <= t < origin.len() && origin[t] == k;
                        assert(grown[t] == k);
                    } else {
                        assert(grown[origin.len() as int] == k);
                    }
                }
                origin = grown;
            }
        }
        i = i + 1;
    }
    proof {
        let named = ids_view(rest@);
        let group = all.to_set().remove(except@);
        assert forall|t: int| 0 <= t < named.len() implies group.contains(#[trigger] named[t]) by {
            assert(named[t] == all[origin[t]]);
        }
        assert forall|participant: Seq<char>| #[trigger]
            group.contains(participant) implies exists|t: int|
            0 <= t < named.len() && #[trigger] named[t] == participant by {
            let k = choose|k: int| 0 <= k < all.len() && all[k] == participant;
            let t = choose|t: int| 0 <= t < origin.len() && origin[t] == k;
            assert(named[t] == participant);
        }
        assert forall|a: int, b: int| 0 <= a < b < named.len() implies #[trigger] named[a]
            != #[trigger] named[b] by {
            assert(origin[a] < origin[b]);
            assert(all[origin[a]] != all[origin[b]]);
        }
    }
    rest
}

/// One copy of `message` for each of `ids`.
fn tell(ids: &Vec<String>, message: &WebSocketMessage) -> (notices: Vec<Notice>)
    ensures
        notices.len() == ids.len(),
        forall|i: int|
            0 <= i < ids.len() ==> (#[trigger] notices@[i])@ == (NoticeView {
                to: ids@[i]@,
                message: message@,
            }),
{
    let mut notices: Vec<Notice> = Vec::new();
    let mut i: usize = 0;
    while i < ids.len()
        invariant
            i <= ids.len(),
            notices.len() == i,
            forall|k: int|
                0 <= k < i ==> (#[trigger] notices@[k])@ == (NoticeView {
                    to: ids@[k]@,
                    message: message@,
                }),
        decreases ids.len() - i,
    {
        notices.push(Notice { to: ids[i].clone(), message: message.clone() });
        i = i + 1;
    }
    notices
}

/// Copies of one message for a group are notices that tell the group.
proof fn lemma_tell_tells(
    notices: Seq<Notice>,
    ids: Seq<String>,
    group: Set<Seq<char>>,
    message: WebSocketMessageView,
)
    requires
        names(ids_view(ids), group),
        notices.len() == ids.len(),
        forall|i: int|
            0 <= i < ids.len() ==> (#[trigger] notices[i])@ == (NoticeView { to: ids[i]@, message }),
    ensures
        tells(notices_view(notices), group, message),
{
    let told = notices_view(notices);
    let named = ids_view(ids);
    assert forall|i: int| 0 <= i < told.len() implies group.contains((#[trigger] told[i]).to)
        && told[i].message == message by {
        assert(told[i] == notices[i]@);
        assert(group.contains(named[i]));
    }
    assert forall|participant: Seq<char>| #[trigger]
        group.contains(participant) implies exists|i: int|
        0 <= i < told.len() && (#[trigger] told[i]).to == participant by {
        let i = choose|i: int| 0 <= i < named.len() && #[trigger] named[i] == participant;
        assert(told[i] == notices[i]@);
    }
    assert forall|i: int, j: int| 0 <= i < j < told.len() implies (#[trigger] told[i]).to != (
    #[trigger] told[j]).to by {
        assert(told[i] == notices[i]@ && told[j] == notices[j]@);
        assert(named[i] != named[j]);
    }
}

/// The names of a group, as a set: the group itself.
proof fn lemma_names_to_set(ids: Seq<Seq<char>>, group: Set<Seq<char>>)
    requires
        names(ids, group),
    ensures
        ids.to_set() == group,
        ids.no_duplicates(),
{
    assert forall|p: Seq<char>| ids.to_set().contains(p) <==> group.contains(p) by {
        if ids.to_set().contains(p) {
            let i = choose|i: int| 0 <= i < ids.len() && ids[i] == p;
            assert(group.contains(ids[i]));
        }
        if group.contains(p) {
            let i = choose|i: int| 0 <= i < ids.len() && #[trigger] ids[i] == p;
            assert(ids.contains(p));
        }
    }
    assert(ids.to_set() =~= group);
    assert forall|i: int, j: int| 0 <= i < ids.len() && 0 <= j < ids.len() && i != j implies ids[i]
        != ids[j] by {
        if i < j {
            assert(ids[i] != ids[j]);
        } else {
            assert(ids[j] != ids[i]);
        }
    }
}

/// What a newcomer and the others are told when the newcomer connects.
#[derive(Debug, PartialEq)]
pub struct ConnectNotices {
    /// For the newcomer: who is in the room already.
    pub greetings: Vec<Notice>,
    /// For the others: who has come.
    pub announcements: Vec<Notice>,
}

/// The room server. `C` is the handle of an outbound channel.
pub struct GameServer<C> {
    sessions: Registry<C>,
}

impl<C> View for GameServer<C> {
    type V = Map<SessionKey, C>;

    /// The channel of each connected participant of each room.
    closed spec fn view(&self) -> Map<SessionKey, C> {
        self.sessions@
    }
}

impl<C> GameServer<C> {
    /// The invariant of the server: that of its registry.
    pub closed spec fn wf(&self) -> bool {
        self.sessions.wf()
    }

    /// A server to which nobody is connected.
    pub fn new() -> (server: Self)
        ensures
            server.wf(),
            server@ == Map::<SessionKey, C>::empty(),
    {
        GameServer { sessions: Registry::new() }
    }

    /// The connected participants of a room with their channels, or `None`
    /// where nobody is connected to it.
    pub fn get_room_sessions<'a>(&'a self, room_id: &str) -> (sessions: Option<Vec<(String, &'a C)>>)
        requires
            self.wf(),
        ensures
            match sessions {
                Some(targets) => targets.len() > 0 && lists_room(
                    targets_view(targets@),
                    self@,
                    room_id@,
                ),
                None => members(self@, room_id@) == Set::<Seq<char>>::empty(),
            },
    {
        let targets = self.sessions.snapshot(room_id);
        if targets.len() == 0 {
            assert(members(self@, room_id@) =~= Set::<Seq<char>>::empty());
            None
        } else {
            Some(targets)
        }
    }

    /// The channel through which a participant of a room is reached.
    pub fn channel(&self, room_id: &str, participant_id: &str) -> (channel: Option<&C>)
        requires
            self.wf(),
        ensures
            match channel {
                Some(c) => self@.contains_pair((room_id@, participant_id@), *c),
                None => !self@.contains_key((room_id@, participant_id@)),
            },
    {
        self.sessions.channel(room_id, participant_id)
    }

    /// One copy of `message` for every connected participant of the room.
    pub fn send_message(&self, message: &WebSocketMessage, room_id: &str) -> (notices: Vec<Notice>)
        requires
            self.wf(),
        ensures
            tells(notices_view(notices@), members(self@, room_id@), message@),
    {
        let ids = self.sessions.participants(room_id);
        let notices = tell(&ids, message);
        proof {
            lemma_tell_tells(notices@, ids@, members(self@, room_id@), message@);
        }
        notices
    }

    /// Takes in a newcomer. The newcomer is told of every other participant
    /// that is connected to the room, and each of those is told of the
    /// newcomer; the newcomer is not told of itself. A connection that the
    /// newcomer had to the room before gives way to the new one.
    pub fn handle_connect(&mut self, msg: Connect<C>) -> (told: ConnectNotices)
        requires
            old(self).wf(),
        ensures
            final(self).wf(),
            final(self)@ == old(self)@.insert((msg.room_id@, msg.user_id@), msg.addr),
            greets(
                notices_view(told.greetings@),
                msg.user_id@,
                members(old(self)@, msg.room_id@).remove(msg.user_id@),
                msg.room_id@,
            ),
            tells(
                notices_view(told.announcements@),
                members(old(self)@, msg.room_id@).remove(msg.user_id@),
                (GameMessageView::UserConnected {
                    user_id: msg.user_id@,
                    username: msg.username@,
                    profile_image: crate::models::game_room::opt_text(msg.profile_image),
                }).envelope(msg.room_id@),
            ),
    {
        let ghost present = members(self@, msg.room_id@).remove(msg.user_id@);
        let ids = self.sessions.participants(msg.room_id.as_str());
        proof {
            lemma_names_to_set(ids_view(ids@), members(self@, msg.room_id@));
        }
        let rest = others(ids, &msg.user_id);
        let mut greetings: Vec<Notice> = Vec::new();
        let mut i: usize = 0;
        while i < rest.len()
            invariant
                i <= rest.len(),
                greetings.len() == i,
                forall|k: int|
                    0 <= k < i ==> (#[trigger] greetings@[k])@ == (NoticeView {
                        to: msg.user_id@,
                        message: presence(msg.room_id@, rest@[k]@),
                    }),
            decreases rest.len() - i,
        {
            let message = WebSocketMessage {
                message_type: "user_connected".to_owned(),
                content: encode_user(&rest[i]),
                room_id: msg.room_id.clone(),
                user_id: rest[i].clone(),
            };
            greetings.push(Notice { to: msg.user_id.clone(), message });
            i = i + 1;
        }
        let announcement = (GameMessage::UserConnected {
            user_id: msg.user_id.clone(),
            username: msg.username,
            profile_image: msg.profile_image,
        }).to_message(msg.room_id.as_str());
        let announcements = tell(&rest, &announcement);
        proof {
            lemma_tell_tells(announcements@, rest@, present, announcement@);
            let greeted = notices_view(greetings@);
            let named = ids_view(rest@);
            assert forall|k: int| 0 <= k < greeted.len() implies (#[trigger] greeted[k]).to
                == msg.user_id@ && present.contains(greeted[k].message.user_id)
                && greeted[k].message == presence(msg.room_id@, greeted[k].message.user_id) by {
                assert(greeted[k] == greetings@[k]@);
                assert(present.contains(named[k]));
            }
            assert forall|participant: Seq<char>| #[trigger]
                present.contains(participant) implies exists|k: int|
                0 <= k < greeted.len() && (#[trigger] greeted[k]).message.user_id == participant by {
                let k = choose|k: int| 0 <= k < named.len() && #[trigger] named[k] == participant;
                assert(greeted[k] == greetings@[k]@);
            }
            assert forall|a: int, b: int| 0 <= a < b < greeted.len() implies (
            #[trigger] greeted[a]).message.user_id != (#[trigger] greeted[b]).message.user_id by {
                assert(greeted[a] == greetings@[a]@ && greeted[b] == greetings@[b]@);
                assert(named[a] != named[b]);
            }
        }
        self.sessions.register(msg.room_id, msg.user_id, msg.addr);
        ConnectNotices { greetings, announcements }
    }

    /// Lets a participant go. Every participant that stays connected to
    /// the room is told.
    pub fn handle_disconnect(&mut self, msg: Disconnect) -> (notices: Vec<Notice>)
        requires
            old(self).wf(),
        ensures
            final(self).wf(),
            final(self)@ == old(self)@.remove((msg.room_id@, msg.user_id@)),
            tells(
                notices_view(notices@),
                members(old(self)@, msg.room_id@).remove(msg.user_id@),
                (GameMessageView::UserDisconnected { user_id: msg.user_id@ }).envelope(msg.room_id@),
            ),
    {
        let ghost before = self@;
        let _ = self.sessions.unregister(msg.room_id.as_str(), msg.user_id.as_str());
        assert(members(self@, msg.room_id@) =~= members(before, msg.room_id@).remove(msg.user_id@));
        let message = (GameMessage::UserDisconnected { user_id: msg.user_id }).to_message(
            msg.room_id.as_str(),
        );
        self.send_message(&message, msg.room_id.as_str())
    }

    /// What every connected participant of a room is told for `msg`.
    pub fn handle_game_message(&self, room_id: &str, msg: &GameMessage) -> (notices: Vec<Notice>)
        requires
            self.wf(),
        ensures
            tells(notices_view(notices@), members(self@, room_id@), msg@.envelope(room_id@)),
    {
        let message = msg.to_message(room_id);
        self.send_message(&message, room_id)
    }

    /// Passes a message on to every connected participant of its room.
    pub fn handle_message(&self, msg: &WebSocketMessage) -> (notices: Vec<Notice>)
        requires
            self.wf(),
        ensures
            tells(notices_view(notices@), members(self@, msg@.room_id), msg@),
    {
        self.send_message(msg, msg.room_id.as_str())
    }
}

} // verus!
