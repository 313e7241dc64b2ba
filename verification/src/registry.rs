//! The registry of live connections: which participant of which room is
//! reached through which channel.

use vstd::prelude::*;

verus! {

/// A room and a participant of it.
pub type SessionKey = (Seq<char>, Seq<char>);

/// One live connection.
struct Session<C> {
    room_id: String,
    participant_id: String,
    channel: C,
}

/// The live connections of all rooms. A participant has at most one
/// connection to a room, and a room without connections takes no space.
/// `C` is the handle of an outbound channel.
pub struct Registry<C> {
    sessions: Vec<Session<C>>,
    model: Ghost<Map<SessionKey, C>>,
}

impl<C> View for Registry<C> {
    type V = Map<SessionKey, C>;

    /// The channel of each connected participant of each room.
    closed spec fn view(&self) -> Map<SessionKey, C> {
        self.model@
    }
}

/// The participants of `room` that are connected.
pub open spec fn members<C>(registry: Map<SessionKey, C>, room: Seq<char>) -> Set<Seq<char>> {
    Set::new(|participant: Seq<char>| registry.contains_key((room, participant)))
}

/// `targets` names every connected participant of `room` once, each with
/// its channel, and nobody else.
pub open spec fn lists_room<C>(
    targets: Seq<(Seq<char>, C)>,
    registry: Map<SessionKey, C>,
    room: Seq<char>,
) -> bool {
    &&& forall|i: int|
        0 <= i < targets.len() ==> registry.contains_pair(
            (room, (#[trigger] targets[i]).0),
            targets[i].1,
        )
    &&& forall|participant: Seq<char>| #[trigger]
        registry.contains_key((room, participant)) ==> exists|i: int|
            0 <= i < targets.len() && (#[trigger] targets[i]).0 == participant
    &&& forall|i: int, j: int|
        0 <= i < j < targets.len() ==> (#[trigger] targets[i]).0 != (#[trigger] targets[j]).0
}

/// `ids` names every element of `group` once, and nobody else.
pub open spec fn names(ids: Seq<Seq<char>>, group: Set<Seq<char>>) -> bool {
    &&& forall|i: int| 0 <= i < ids.len() ==> group.contains(#[trigger] ids[i])
    &&& forall|participant: Seq<char>| #[trigger]
        group.contains(participant) ==> exists|i: int|
            0 <= i < ids.len() && #[trigger] ids[i] == participant
    &&& forall|i: int, j: int| 0 <= i < j < ids.len() ==> #[trigger] ids[i] != #[trigger] ids[j]
}

/// What a list of participants and borrowed channels stands for.
pub open spec fn targets_view<C>(targets: Seq<(String, &C)>) -> Seq<(Seq<char>, C)> {
    targets.map_values(|t: (String, &C)| (t.0@, *t.1))
}

impl<C> Registry<C> {
    spec fn key_at(&self, i: int) -> SessionKey {
        (self.sessions[i].room_id@, self.sessions[i].participant_id@)
    }

    /// The invariant of the registry: its connections are exactly those of
    /// its view, each held once.
    pub closed spec fn wf(&self) -> bool {
        &&& forall|i: int|
            0 <= i < self.sessions.len() ==> self.model@.contains_pair(
                #[trigger] self.key_at(i),
                self.sessions[i].channel,
            )
        &&& forall|k: SessionKey| #[trigger]
            self.model@.contains_key(k) ==> exists|i: int|
                0 <= i < self.sessions.len() && self.key_at(i) == k
        &&& forall|i: int, j: int|
            0 <= i < j < self.sessions.len() ==> #[trigger] self.key_at(i) != #[trigger] self.key_at(j)
    }

    /// A registry without connections.
    pub fn new() -> (registry: Self)
        ensures
            registry.wf(),
            registry@ == Map::<SessionKey, C>::empty(),
    {
        Registry { sessions: Vec::new(), model: Ghost(Map::empty()) }
    }

    /// Where the connection of a participant to a room is held.
    fn position(&self, room_id: &String, participant_id: &String) -> (found: Option<usize>)
        requires
            self.wf(),
        ensures
            match found {
                Some(i) => i < self.sessions.len() && self.key_at(i as int) == (
                    room_id@,
                    participant_id@,
                ),
                None => !self@.contains_key((room_id@, participant_id@)),
            },
    {
        let mut i: usize = 0;
        while i < self.sessions.len()
            invariant
                i <= self.sessions.len(),
                forall|k: int| 0 <= k < i ==> self.key_at(k) != (room_id@, participant_id@),
            decreases self.sessions.len() - i,
        {
            if self.sessions[i].room_id == *room_id && self.sessions[i].participant_id
                == *participant_id {
                return Some(i);
            }
            i = i + 1;
        }
        None
    }

    /// Records that `participant_id` is connected to `room_id` through
    /// `channel`. A connection of the same participant to the same room
    /// that was there before gives way to the new one.
    pub fn register(&mut self, room_id: String, participant_id: String, channel: C)
        requires
            old(self).wf(),
        ensures
            final(self).wf(),
            final(self)@ == old(self)@.insert((room_id@, participant_id@), channel),
    {
        let ghost key = (room_id@, participant_id@);
        let ghost before = *self;
        let found = self.position(&room_id, &participant_id);
        let session = Session { room_id, participant_id, channel };
        match found {
            Some(i) => {
                self.sessions.set(i, session);
                self.model = Ghost(self.model@.insert(key, channel));
                proof {
                    assert forall|j: int| 0 <= j < self.sessions.len() implies self.key_at(j)
                        == before.key_at(j) by {}
                    assert forall|j: int|
                        0 <= j < self.sessions.len() implies self.model@.contains_pair(
                        #[trigger] self.key_at(j),
                        self.sessions[j].channel,
                    ) by {
                        if j != i {
                            assert(before.model@.contains_pair(
                                before.key_at(j),
                                before.sessions[j].channel,
                            ));
                            if j < i {
                                assert(before.key_at(j) != before.key_at(i as int));
                            } else {
                                assert(before.key_at(i as int) != before.key_at(j));
                            }
                        }
                    }
                    assert forall|a: int, b: int|
                        0 <= a < b < self.sessions.len() implies #[trigger] self.key_at(a)
                        != #[trigger] self.key_at(b) by {
                        assert(before.key_at(a) != before.key_at(b));
                    }
                    assert forall|k: SessionKey| #[trigger]
                        self.model@.contains_key(k) implies exists|j: int|
                        0 <= j < self.sessions.len() && self.key_at(j) == k by {
                        if k == key {
                            assert(self.key_at(i as int) == k);
                        } else {
                            let j = choose|j: int|
                                0 <= j < before.sessions.len() && before.key_at(j) == k;
                            assert(self.key_at(j) == k);
                        }
                    }
                    assert(self.wf());
                }
            },
            None => {
                self.sessions.push(session);
                self.model = Ghost(self.model@.insert(key, channel));
                proof {
                    let last = before.sessions.len() as int;
                    assert forall|j: int| 0 <= j < last implies self.key_at(j) == before.key_at(
                        j,
                    ) by {}
                    assert(self.key_at(last) == key);
                    assert forall|k: SessionKey| #[trigger]
                        self.model@.contains_key(k) implies exists|j: int|
                        0 <= j < self.sessions.len() && self.key_at(j) == k by {
                        if k == key {
                            assert(self.key_at(last) == k);
                        } else {
                            let j = choose|j: int|
                                0 <= j < before.sessions.len() && before.key_at(j) == k;
                            assert(self.key_at(j) == k);
                        }
                    }
                    assert forall|a: int, b: int|
                        0 <= a < b < self.sessions.len() implies #[trigger] self.key_at(a)
                        != #[trigger] self.key_at(b) by {
                        if b == last {
                            assert(before.model@.contains_key(before.key_at(a)));
                        } else {
                            assert(before.key_at(a) != before.key_at(b));
                        }
                    }
                    assert forall|j: int|
                        0 <= j < self.sessions.len() implies self.model@.contains_pair(
                        #[trigger] self.key_at(j),
                        self.sessions[j].channel,
                    ) by {
                        if j < last {
                            assert(before.model@.contains_pair(
                                before.key_at(j),
                                before.sessions[j].channel,
                            ));
                        }
                    }
                    assert(self.wf());
                }
            },
        }
    }

    /// Forgets the connection of `participant_id` to `room_id` and hands back
    /// its channel, if there was one.
    pub fn unregister(&mut self, room_id: &str, participant_id: &str) -> (channel: Option<C>)
        requires
            old(self).wf(),
        ensures
            final(self).wf(),
            final(self)@ == old(self)@.remove((room_id@, participant_id@)),
            channel == if old(self)@.contains_key((room_id@, participant_id@)) {
                Some(old(self)@[(room_id@, participant_id@)])
            } else {
                None
            },
    {
        let ghost key = (room_id@, participant_id@);
        let ghost before = *self;
        let found = self.position(&room_id.to_owned(), &participant_id.to_owned());
        match found {
            Some(i) => {
                let session = self.sessions.remove(i);
                self.model = Ghost(self.model@.remove(key));
                proof {
                    assert(before.model@.contains_pair(
                        before.key_at(i as int),
                        before.sessions[i as int].channel,
                    ));
                    assert forall|j: int| 0 <= j < self.sessions.len() implies #[trigger]
                        self.key_at(j) == before.key_at(if j < i { j } else { j + 1 })
                        && self.sessions[j].channel == before.sessions[if j < i {
                            j
                        } else {
                            j + 1
                        }].channel by {}
                    assert forall|j: int|
                        0 <= j < self.sessions.len() implies self.model@.contains_pair(
                        #[trigger] self.key_at(j),
                        self.sessions[j].channel,
                    ) by {
                        let b = if j < i { j } else { j + 1 };
                        assert(before.model@.contains_pair(
                            before.key_at(b),
                            before.sessions[b].channel,
                        ));
                        if b < i {
                            assert(before.key_at(b) != before.key_at(i as int));
                        } else {
                            assert(before.key_at(i as int) != before.key_at(b));
                        }
                    }
                    assert forall|k: SessionKey| #[trigger]
                        self.model@.contains_key(k) implies exists|j: int|
                        0 <= j < self.sessions.len() && self.key_at(j) == k by {
                        let b = choose|b: int|
                            0 <= b < before.sessions.len() && before.key_at(b) == k;
                        let j = if b < i { b } else { b - 1 };
                        assert(self.key_at(j) == k);
                    }
                    assert forall|a: int, b: int|
                        0 <= a < b < self.sessions.len() implies #[trigger] self.key_at(a)
                        != #[trigger] self.key_at(b) by {
                        let a0 = if a < i { a } else { a + 1 };
                        let b0 = if b < i { b } else { b + 1 };
                        assert(before.key_at(a0) != before.key_at(b0));
                    }
                    assert(self.wf());
                }
                Some(session.channel)
            },
            None => {
                assert(self.model@.remove(key) =~= self.model@);
                None
            },
        }
    }

    /// The channel through which a participant of a room is reached.
    pub fn channel(&self, room_id: &str, participant_id: &str) -> (channel: Option<&C>)
        requires
            self.wf(),
        ensures
            match channel {
                Some(c) => self@.contains_pair((room_id@, participant_id@), *c),
                None => !self@.contains_key((room_id@, participant_id@)),
            },
    {
        match self.position(&room_id.to_owned(), &participant_id.to_owned()) {
            Some(i) => {
                assert(self.model@.contains_pair(self.key_at(i as int), self.sessions[i as int].channel));
                Some(&self.sessions[i].channel)
            },
            None => None,
        }
    }

    /// The connected participants of a room, each once.
    pub fn participants(&self, room_id: &str) -> (ids: Vec<String>)
        requires
            self.wf(),
        ensures
            names(ids@.map_values(|id: String| id@), members(self@, room_id@)),
    {
        let targets = self.snapshot(room_id);
        let ghost listed = targets_view(targets@);
        let mut ids: Vec<String> = Vec::new();
        let mut i: usize = 0;
        while i < targets.len()
            invariant
                i <= targets.len(),
                ids.len() == i,
                listed == targets_view(targets@),
                forall|k: int| 0 <= k < i ==> (#[trigger] ids@[k])@ == listed[k].0,
            decreases targets.len() - i,
        {
            ids.push(targets[i].0.clone());
            i = i + 1;
        }
        proof {
            let named = ids@.map_values(|id: String| id@);
            let group = members(self@, room_id@);
            assert forall|k: int| 0 <= k < named.len() implies group.contains(#[trigger] named[k]) by {
                assert(self@.contains_pair((room_id@, listed[k].0), listed[k].1));
            }
            assert forall|participant: Seq<char>| #[trigger]
                group.contains(participant) implies exists|k: int|
                0 <= k < named.len() && #[trigger] named[k] == participant by {
                assert(self@.contains_key((room_id@, participant)));
                let k = choose|k: int|
                    0 <= k < listed.len() && (#[trigger] listed[k]).0 == participant;
                assert(named[k] == participant);
            }
            assert forall|a: int, b: int| 0 <= a < b < named.len() implies #[trigger] named[a]
                != #[trigger] named[b] by {
                assert(listed[a].0 != listed[b].0);
            }
        }
        ids
    }

    /// The connected participants of a room at this moment, each once and
    /// with its channel.
    pub fn snapshot<'a>(&'a self, room_id: &str) -> (targets: Vec<(String, &'a C)>)
        requires
            self.wf(),
        ensures
            lists_room(targets_view(targets@), self@, room_id@),
    {
        let wanted = room_id.to_owned();
        let mut targets: Vec<(String, &'a C)> = Vec::new();
        let ghost mut origin: Seq<int> = Seq::empty();
        let mut i: usize = 0;
        while i < self.sessions.len()
            invariant
                self.wf(),
                wanted@ == room_id@,
                i <= self.sessions.len(),
                origin.len() == targets.len(),
                forall|t: int|
                    0 <= t < origin.len() ==> 0 <= #[trigger] origin[t] < i && self.key_at(
                        origin[t],
                    ) == (room_id@, targets@[t].0@) && *targets@[t].1
                        == self.sessions[origin[t]].channel,
                forall|s: int, t: int| 0 <= s < t < origin.len() ==> origin[s] < origin[t],
                forall|k: int|
                    0 <= k < i && (#[trigger] self.key_at(k)).0 == room_id@ ==> exists|t: int|
                        0 <= t < origin.len() && origin[t] == k,
            decreases self.sessions.len() - i,
        {
            if self.sessions[i].room_id == wanted {
                targets.push((self.sessions[i].participant_id.clone(), &self.sessions[i].channel));
                proof {
                    let ghost grown = origin.push(i as int);
                    assert forall|k: int|
                        0 <= k < i + 1 && (#[trigger] self.key_at(k)).0 == room_id@ implies exists|
                        t: int,
                    |
                        0 <= t < grown.len() && grown[t] == k by {
                        if k < i {
                            let t = choose|t: int| 0 <= t < origin.len() && origin[t] == k;
                            assert(grown[t] == k);
                        } else {
                            assert(grown[origin.len() as int] == k);
                        }
                    }
                    origin = grown;
                }
            }
            i = i + 1;
        }
        proof {
            let listed = targets_view(targets@);
            assert forall|t: int| 0 <= t < listed.len() implies self@.contains_pair(
                (room_id@, (#[trigger] listed[t]).0),
                listed[t].1,
            ) by {
                assert(self.model@.contains_pair(
                    self.key_at(origin[t]),
                    self.sessions[origin[t]].channel,
                ));
            }
            assert forall|participant: Seq<char>| #[trigger]
                self@.contains_key((room_id@, participant)) implies exists|t: int|
                0 <= t < listed.len() && (#[trigger] listed[t]).0 == participant by {
                let k = choose|k: int|
                    0 <= k < self.sessions.len() && self.key_at(k) == (room_id@, participant);
                assert(self.key_at(k).0 == room_id@);
                let t = choose|t: int| 0 <= t < origin.len() && origin[t] == k;
                assert(listed[t].0 == participant);
            }
            assert forall|s: int, t: int| 0 <= s < t < listed.len() implies (#[trigger] listed[s]).0
                != (#[trigger] listed[t]).0 by {
                assert(origin[s] < origin[t]);
                assert(self.key_at(origin[s]) != self.key_at(origin[t]));
            }
        }
        targets
    }
}

/// A participant of one room comes or goes.
pub enum Lifecycle<C> {
    Connect { participant: Seq<char>, channel: C },
    Disconnect { participant: Seq<char> },
}

impl<C> Lifecycle<C> {
    /// The event is a connect of `participant`.
    pub open spec fn connects(self, participant: Seq<char>) -> bool {
        match self {
            Lifecycle::Connect { participant: p, .. } => p == participant,
            Lifecycle::Disconnect { .. } => false,
        }
    }

    /// The event is a disconnect of `participant`.
    pub open spec fn disconnects(self, participant: Seq<char>) -> bool {
        match self {
            Lifecycle::Connect { .. } => false,
            Lifecycle::Disconnect { participant: p } => p == participant,
        }
    }
}

/// The registry after one event of `room`: what `register` and
/// `unregister` make of it.
pub open spec fn apply<C>(registry: Map<SessionKey, C>, room: Seq<char>, event: Lifecycle<C>) -> Map<
    SessionKey,
    C,
> {
    match event {
        Lifecycle::Connect { participant, channel } => registry.insert((room, participant), channel),
        Lifecycle::Disconnect { participant } => registry.remove((room, participant)),
    }
}

/// The registry after a sequence of events of `room`, applied in order.
pub open spec fn replay<C>(
    registry: Map<SessionKey, C>,
    room: Seq<char>,
    events: Seq<Lifecycle<C>>,
) -> Map<SessionKey, C>
    decreases events.len(),
{
    if events.len() == 0 {
        registry
    } else {
        apply(replay(registry, room, events.drop_last()), room, events.last())
    }
}

/// `participant` has a connect in `events` that no disconnect of the same
/// participant follows.
pub open spec fn still_connected<C>(events: Seq<Lifecycle<C>>, participant: Seq<char>) -> bool {
    exists|i: int|
        0 <= i < events.len() && (#[trigger] events[i]).connects(participant) && forall|j: int|
            i < j < events.len() ==> !(#[trigger] events[j]).disconnects(participant)
}

/// After any sequence of connects and disconnects on one room, starting
/// from nobody, the members of the room are exactly the participants
/// with a connect that no disconnect of theirs follows.
pub proof fn lemma_replay_membership<C>(room: Seq<char>, events: Seq<Lifecycle<C>>)
    ensures
        forall|participant: Seq<char>|
            members(replay(Map::<SessionKey, C>::empty(), room, events), room).contains(participant)
                <==> still_connected(events, participant),
    decreases events.len(),
{
    let start = Map::<SessionKey, C>::empty();
    if events.len() > 0 {
        let earlier = events.drop_last();
        let last = events.last();
        let n = earlier.len() as int;
        lemma_replay_membership(room, earlier);
        assert forall|participant: Seq<char>|
            members(replay(start, room, events), room).contains(participant) <==> still_connected(
                events,
                participant,
            ) by {
            let was = members(replay(start, room, earlier), room).contains(participant);
            assert(was <==> still_connected(earlier, participant));
            if still_connected(earlier, participant) && !last.disconnects(participant) {
                let i = choose|i: int|
                    0 <= i < earlier.len() && (#[trigger] earlier[i]).connects(participant)
                        && forall|j: int|
                        i < j < earlier.len() ==> !(#[trigger] earlier[j]).disconnects(participant);
                assert(events[i] == earlier[i]);
                assert forall|j: int| i < j < events.len() implies !(#[trigger] events[j]).disconnects(
                    participant,
                ) by {
                    if j < n {
                        assert(events[j] == earlier[j]);
                    }
                }
            }
            if last.connects(participant) {
                assert(events[n].connects(participant));
            }
            if still_connected(events, participant) {
                let i = choose|i: int|
                    0 <= i < events.len() && (#[trigger] events[i]).connects(participant)
                        && forall|j: int|
                        i < j < events.len() ==> !(#[trigger] events[j]).disconnects(participant);
                if i < n {
                    assert(earlier[i] == events[i]);
                    assert forall|j: int| i < j < earlier.len() implies !(
                    #[trigger] earlier[j]).disconnects(participant) by {
                        assert(earlier[j] == events[j]);
                    }
                    assert(!events[n].disconnects(participant));
                }
            }
        }
    }
}

} // verus!
