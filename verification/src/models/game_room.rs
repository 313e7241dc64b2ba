//! Rooms, stories and votes.

use crate::json::{
    array, i32_or_null, lemma_lookup_at, no_members, object, put, text_or_null,
    view_items, view_members, Json, JsonView,
};
use vstd::prelude::*;

verus! {

/// The characters of an optional text.
pub open spec fn opt_text(text: Option<String>) -> Option<Seq<char>> {
    match text {
        Some(s) => Some(s@),
        None => None,
    }
}

/// What a list of participant ids stands for.
pub open spec fn texts(list: Seq<String>) -> Seq<Seq<char>> {
    list.map_values(|s: String| s@)
}

/// One participant's estimate, with the voter's name and picture as they
/// were when the vote was cast.
#[derive(Debug, PartialEq)]
pub struct Vote {
    pub user_id: String,
    pub username: String,
    pub profile_image: Option<String>,
    pub value: i32,
    pub timestamp: i64,
}

pub struct VoteView {
    pub user_id: Seq<char>,
    pub username: Seq<char>,
    pub profile_image: Option<Seq<char>>,
    pub value: i32,
    pub timestamp: i64,
}

impl View for Vote {
    type V = VoteView;

    open spec fn view(&self) -> VoteView {
        VoteView {
            user_id: self.user_id@,
            username: self.username@,
            profile_image: opt_text(self.profile_image),
            value: self.value,
            timestamp: self.timestamp,
        }
    }
}

impl Clone for Vote {
    fn clone(&self) -> (copy: Self)
        ensures
            copy == *self,
    {
        Vote {
            user_id: self.user_id.clone(),
            username: self.username.clone(),
            profile_image: self.profile_image.clone(),
            value: self.value,
            timestamp: self.timestamp,
        }
    }
}

/// A string document, or `null` for no text.
pub open spec fn text_or_null_view(text: Option<Seq<char>>) -> JsonView {
    match text {
        Some(s) => JsonView::Str(s),
        None => JsonView::Null,
    }
}

impl VoteView {
    /// A vote on the wire: an object with the members `userId`, `username`,
    /// `profileImage` (`null` for none), `value` and `timestamp`.
    pub open spec fn to_json(self) -> JsonView {
        JsonView::Object(
            seq![
                ("userId"@, JsonView::Str(self.user_id)),
                ("username"@, JsonView::Str(self.username)),
                ("profileImage"@, text_or_null_view(self.profile_image)),
                ("value"@, JsonView::Int(self.value as int)),
                ("timestamp"@, JsonView::Int(self.timestamp as int)),
            ],
        )
    }

    /// The vote that a document holds. `userId` and `username` must be
    /// strings, `value` a 32-bit and `timestamp` a 64-bit integer;
    /// `profileImage` may be absent or `null`. Other members are ignored.
    pub open spec fn from_json(doc: JsonView) -> Option<VoteView> {
        match (
            doc.text_at("userId"@),
            doc.text_at("username"@),
            doc.opt_text_at("profileImage"@),
            doc.i32_at("value"@),
            doc.i64_at("timestamp"@),
        ) {
            (Some(user_id), Some(username), Some(profile_image), Some(value), Some(timestamp)) => Some(
                VoteView { user_id, username, profile_image, value, timestamp },
            ),
            _ => None,
        }
    }
}

/// A vote that is written to the wire and read back is the same vote.
pub proof fn lemma_vote_round_trip(vote: VoteView)
    ensures
        VoteView::from_json(vote.to_json()) == Some(vote),
{
    reveal_strlit("userId");
    reveal_strlit("username");
    reveal_strlit("profileImage");
    reveal_strlit("value");
    reveal_strlit("timestamp");
    let members = vote.to_json()->Object_0;
    assert(members.len() == 5);
    assert(members[0].0 == "userId"@ && members[1].0 == "username"@ && members[2].0
        == "profileImage"@ && members[3].0 == "value"@ && members[4].0 == "timestamp"@);
    lemma_lookup_at(members, 0);
    lemma_lookup_at(members, 1);
    lemma_lookup_at(members, 2);
    lemma_lookup_at(members, 3);
    lemma_lookup_at(members, 4);
}

impl Vote {
    /// Writes the vote as a document.
    pub fn to_json(&self) -> (doc: Json)
        ensures
            doc@ == self@.to_json(),
    {
        let mut members = no_members();
        put(&mut members, "userId", Json::Str(self.user_id.clone()));
        put(&mut members, "username", Json::Str(self.username.clone()));
        put(&mut members, "profileImage", text_or_null(&self.profile_image));
        put(&mut members, "value", Json::Int(self.value as i64));
        put(&mut members, "timestamp", Json::Int(self.timestamp));
        assert(view_members(members@) =~= self@.to_json()->Object_0);
        object(members)
    }

    /// Reads a vote from a document, or `None` where it holds none.
    pub fn from_json(doc: &Json) -> (vote: Option<Vote>)
        ensures
            match vote {
                Some(v) => VoteView::from_json(doc@) == Some(v@),
                None => VoteView::from_json(doc@).is_none(),
            },
    {
        let user_id = doc.text_at("userId");
        let username = doc.text_at("username");
        let profile_image = doc.opt_text_at("profileImage");
        let value = doc.i32_at("value");
        let timestamp = doc.i64_at("timestamp");
        match (user_id, username, profile_image, value, timestamp) {
            (Some(user_id), Some(username), Some(profile_image), Some(value), Some(timestamp)) => Some(
                Vote { user_id, username, profile_image, value, timestamp },
            ),
            _ => None,
        }
    }
}

/// What a list of votes stands for.
pub open spec fn votes_view(votes: Seq<Vote>) -> Seq<VoteView> {
    votes.map_values(|v: Vote| v@)
}

/// A list of votes on the wire: the array of the votes, in order.
pub open spec fn votes_to_json(votes: Seq<VoteView>) -> JsonView {
    JsonView::Array(votes.map_values(|v: VoteView| v.to_json()))
}

/// The votes that a list of documents holds: every one of them must hold a
/// vote.
pub open spec fn votes_from_items(items: Seq<JsonView>) -> Option<Seq<VoteView>> {
    if forall|i: int| 0 <= i < items.len() ==> VoteView::from_json(#[trigger] items[i]).is_some() {
        Some(items.map_values(|d: JsonView| VoteView::from_json(d).unwrap()))
    } else {
        None
    }
}

/// The votes under `key`: none where the member is absent, else the
/// member must be an array of votes.
pub open spec fn votes_at(doc: JsonView, key: Seq<char>) -> Option<Seq<VoteView>> {
    match doc.member(key) {
        None => Some(Seq::empty()),
        Some(JsonView::Array(items)) => votes_from_items(items),
        _ => None,
    }
}

/// A list of votes that is written to the wire and read back is the same
/// list.
pub proof fn lemma_votes_round_trip(votes: Seq<VoteView>)
    ensures
        votes_from_items(votes_to_json(votes)->Array_0) == Some(votes),
{
    let items = votes_to_json(votes)->Array_0;
    assert forall|i: int| 0 <= i < items.len() implies VoteView::from_json(#[trigger] items[i])
        == Some(votes[i]) by {
        lemma_vote_round_trip(votes[i]);
    }
    assert(items.map_values(|d: JsonView| VoteView::from_json(d).unwrap()) =~= votes);
}

/// Writes a list of votes as an array document.
pub fn encode_votes(votes: &Vec<Vote>) -> (doc: Json)
    ensures
        doc@ == votes_to_json(votes_view(votes@)),
{
    let mut items: Vec<Json> = Vec::new();
    let mut i: usize = 0;
    while i < votes.len()
        invariant
            i <= votes.len(),
            items.len() == i,
            forall|k: int| 0 <= k < i ==> (#[trigger] items@[k])@ == votes@[k]@.to_json(),
        decreases votes.len() - i,
    {
        items.push(votes[i].to_json());
        i = i + 1;
    }
    assert(view_items(items@) =~= votes_view(votes@).map_values(|v: VoteView| v.to_json()));
    array(items)
}

/// Reads a list of votes from a list of documents, or `None` where one of
/// them holds no vote.
pub fn decode_votes(items: &Vec<Json>) -> (votes: Option<Vec<Vote>>)
    ensures
        match votes {
            Some(v) => votes_from_items(view_items(items@)) == Some(votes_view(v@)),
            None => votes_from_items(view_items(items@)).is_none(),
        },
{
    let ghost docs = view_items(items@);
    let mut votes: Vec<Vote> = Vec::new();
    let mut i: usize = 0;
    while i < items.len()
        invariant
            i <= items.len(),
            votes.len() == i,
            docs == view_items(items@),
            forall|k: int| 0 <= k < i ==> VoteView::from_json(#[trigger] docs[k]) == Some(votes@[k]@),
        decreases items.len() - i,
    {
        match Vote::from_json(&items[i]) {
            Some(vote) => {
                votes.push(vote);
            },
            None => {
                assert(VoteView::from_json(docs[i as int]).is_none());
                return None;
            },
        }
        i = i + 1;
    }
    assert(votes_view(votes@) =~= docs.map_values(|d: JsonView| VoteView::from_json(d).unwrap()));
    Some(votes)
}

/// Reads the votes under `key`: none where the member is absent.
pub fn decode_votes_at(doc: &Json, key: &str) -> (votes: Option<Vec<Vote>>)
    ensures
        match votes {
            Some(v) => votes_at(doc@, key@) == Some(votes_view(v@)),
            None => votes_at(doc@, key@).is_none(),
        },
{
    match doc.get(key) {
        None => {
            let votes: Vec<Vote> = Vec::new();
            assert(votes_view(votes@) =~= Seq::<VoteView>::empty());
            Some(votes)
        },
        Some(member) => match member.as_array() {
            Some(items) => decode_votes(items),
            None => None,
        },
    }
}

/// The vote of a participant that counts among the votes of a story: the
/// last one that the participant cast.
pub open spec fn counting_vote(votes: Seq<VoteView>, user_id: Seq<char>) -> Option<VoteView>
    decreases votes.len(),
{
    if votes.len() == 0 {
        None
    } else if votes.last().user_id == user_id {
        Some(votes.last())
    } else {
        counting_vote(votes.drop_last(), user_id)
    }
}

/// A vote that has just been added is the one that counts for its voter,
/// and it changes nothing for anybody else.
pub proof fn lemma_latest_vote_counts(votes: Seq<VoteView>, vote: VoteView, user_id: Seq<char>)
    ensures
        counting_vote(votes.push(vote), user_id) == if vote.user_id == user_id {
            Some(vote)
        } else {
            counting_vote(votes, user_id)
        },
{
    assert(votes.push(vote).drop_last() =~= votes);
}

/// Finds the vote of a participant that counts among `votes`.
pub fn find_counting_vote<'a>(votes: &'a Vec<Vote>, user_id: &str) -> (found: Option<&'a Vote>)
    ensures
        match found {
            Some(v) => counting_vote(votes_view(votes@), user_id@) == Some(v@),
            None => counting_vote(votes_view(votes@), user_id@).is_none(),
        },
{
    let wanted = user_id.to_owned();
    let ghost all = votes_view(votes@);
    let mut i: usize = votes.len();
    assert(all.subrange(0, i as int) =~= all);
    while i > 0
        invariant
            i <= votes.len(),
            wanted@ == user_id@,
            all == votes_view(votes@),
            counting_vote(all, user_id@) == counting_vote(all.subrange(0, i as int), user_id@),
        decreases i,
    {
        i = i - 1;
        let ghost part = all.subrange(0, i + 1);
        assert(part.drop_last() =~= all.subrange(0, i as int));
        assert(part.last() == votes@[i as int]@);
        if votes[i].user_id == wanted {
            return Some(&votes[i]);
        }
    }
    assert(all.subrange(0, 0).len() == 0);
    None
}

/// A work item to estimate.
#[derive(Debug, PartialEq)]
pub struct Story {
    pub id: String,
    pub room_id: String,
    pub title: String,
    pub description: Option<String>,
    pub votes: Vec<Vote>,
    pub final_score: Option<i32>,
}

pub struct StoryView {
    pub id: Seq<char>,
    pub room_id: Seq<char>,
    pub title: Seq<char>,
    pub description: Option<Seq<char>>,
    pub votes: Seq<VoteView>,
    pub final_score: Option<i32>,
}

impl View for Story {
    type V = StoryView;

    open spec fn view(&self) -> StoryView {
        StoryView {
            id: self.id@,
            room_id: self.room_id@,
            title: self.title@,
            description: opt_text(self.description),
            votes: votes_view(self.votes@),
            final_score: self.final_score,
        }
    }
}

impl Clone for Story {
    fn clone(&self) -> (copy: Self)
        ensures
            copy@ == self@,
    {
        let votes = self.votes.clone();
        assert(votes_view(votes@) =~= votes_view(self.votes@));
        Story {
            id: self.id.clone(),
            room_id: self.room_id.clone(),
            title: self.title.clone(),
            description: self.description.clone(),
            votes,
            final_score: self.final_score,
        }
    }
}

/// The number document of a 32-bit integer, or `null` for none.
pub open spec fn i32_or_null_view(value: Option<i32>) -> JsonView {
    match value {
        Some(i) => JsonView::Int(i as int),
        None => JsonView::Null,
    }
}

impl StoryView {
    /// A story on the wire: an object with the members `id`, `room_id`,
    /// `title`, `description` (`null` for none), `votes` and `final_score`
    /// (`null` for none).
    pub open spec fn to_json(self) -> JsonView {
        JsonView::Object(
            seq![
                ("id"@, JsonView::Str(self.id)),
                ("room_id"@, JsonView::Str(self.room_id)),
                ("title"@, JsonView::Str(self.title)),
                ("description"@, text_or_null_view(self.description)),
                ("votes"@, votes_to_json(self.votes)),
                ("final_score"@, i32_or_null_view(self.final_score)),
            ],
        )
    }

    /// The story that a document holds. `id`, `room_id` and `title` must
    /// be strings; `description` and `final_score` may be absent or `null`;
    /// `votes` may be absent. Other members are ignored.
    pub open spec fn from_json(doc: JsonView) -> Option<StoryView> {
        match (
            doc.text_at("id"@),
            doc.text_at("room_id"@),
            doc.text_at("title"@),
            doc.opt_text_at("description"@),
            votes_at(doc, "votes"@),
            doc.opt_i32_at("final_score"@),
        ) {
            (Some(id), Some(room_id), Some(title), Some(description), Some(votes), Some(final_score)) => Some(
                StoryView { id, room_id, title, description, votes, final_score },
            ),
            _ => None,
        }
    }
}

/// A story that is written to the wire and read back is the same story.
pub proof fn lemma_story_round_trip(story: StoryView)
    ensures
        StoryView::from_json(story.to_json()) == Some(story),
{
    reveal_strlit("id");
    reveal_strlit("room_id");
    reveal_strlit("title");
    reveal_strlit("description");
    reveal_strlit("votes");
    reveal_strlit("final_score");
    let members = story.to_json()->Object_0;
    assert(members.len() == 6);
    assert(members[0].0 == "id"@ && members[1].0 == "room_id"@ && members[2].0 == "title"@
        && members[3].0 == "description"@ && members[4].0 == "votes"@ && members[5].0
        == "final_score"@);
    assert("title"@[0] != "votes"@[0]);
    assert("description"@[0] != "final_score"@[0]);
    lemma_lookup_at(members, 0);
    lemma_lookup_at(members, 1);
    lemma_lookup_at(members, 2);
    lemma_lookup_at(members, 3);
    lemma_lookup_at(members, 4);
    lemma_lookup_at(members, 5);
    lemma_votes_round_trip(story.votes);
}

impl Story {
    /// Writes the story as a document.
    pub fn to_json(&self) -> (doc: Json)
        ensures
            doc@ == self@.to_json(),
    {
        let mut members = no_members();
        put(&mut members, "id", Json::Str(self.id.clone()));
        put(&mut members, "room_id", Json::Str(self.room_id.clone()));
        put(&mut members, "title", Json::Str(self.title.clone()));
        put(&mut members, "description", text_or_null(&self.description));
        put(&mut members, "votes", encode_votes(&self.votes));
        put(&mut members, "final_score", i32_or_null(self.final_score));
        assert(view_members(members@) =~= self@.to_json()->Object_0);
        object(members)
    }

    /// Reads a story from a document, or `None` where it holds none.
    pub fn from_json(doc: &Json) -> (story: Option<Story>)
        ensures
            match story {
                Some(s) => StoryView::from_json(doc@) == Some(s@),
                None => StoryView::from_json(doc@).is_none(),
            },
    {
        let id = doc.text_at("id");
        let room_id = doc.text_at("room_id");
        let title = doc.text_at("title");
        let description = doc.opt_text_at("description");
        let votes = decode_votes_at(doc, "votes");
        let final_score = doc.opt_i32_at("final_score");
        match (id, room_id, title, description, votes, final_score) {
            (Some(id), Some(room_id), Some(title), Some(description), Some(votes), Some(final_score)) => Some(
                Story { id, room_id, title, description, votes, final_score },
            ),
            _ => None,
        }
    }
}

/// What a participant says of a story that it puts up.
#[derive(Debug, PartialEq)]
pub struct StoryDraft {
    pub title: String,
    pub description: Option<String>,
}

pub struct StoryDraftView {
    pub title: Seq<char>,
    pub description: Option<Seq<char>>,
}

impl View for StoryDraft {
    type V = StoryDraftView;

    open spec fn view(&self) -> StoryDraftView {
        StoryDraftView { title: self.title@, description: opt_text(self.description) }
    }
}

impl StoryDraftView {
    /// The draft that a document holds: `title` must be a string, and
    /// `description` may be absent or `null`. Other members, an id, votes
    /// and a score among them, are ignored.
    pub open spec fn from_json(doc: JsonView) -> Option<StoryDraftView> {
        match (doc.text_at("title"@), doc.opt_text_at("description"@)) {
            (Some(title), Some(description)) => Some(StoryDraftView { title, description }),
            _ => None,
        }
    }
}

impl StoryDraft {
    /// Reads a draft from a document, or `None` where it holds none.
    pub fn from_json(doc: &Json) -> (draft: Option<StoryDraft>)
        ensures
            match draft {
                Some(d) => StoryDraftView::from_json(doc@) == Some(d@),
                None => StoryDraftView::from_json(doc@).is_none(),
            },
    {
        match (doc.text_at("title"), doc.opt_text_at("description")) {
            (Some(title), Some(description)) => Some(StoryDraft { title, description }),
            _ => None,
        }
    }
}

/// What a list of stories stands for.
pub open spec fn stories_view(stories: Seq<Story>) -> Seq<StoryView> {
    stories.map_values(|s: Story| s@)
}

/// The durable record of a story whose score was committed to history. The
/// store assigns `id`; it is `None` until then.
#[derive(Debug, PartialEq)]
pub struct CompletedStory {
    pub id: Option<String>,
    pub story_id: String,
    pub room_id: String,
    pub title: String,
    pub description: Option<String>,
    pub votes: Vec<Vote>,
    pub final_score: i32,
    pub completed_at: i64,
}

pub struct CompletedStoryView {
    pub id: Option<Seq<char>>,
    pub story_id: Seq<char>,
    pub room_id: Seq<char>,
    pub title: Seq<char>,
    pub description: Option<Seq<char>>,
    pub votes: Seq<VoteView>,
    pub final_score: i32,
    pub completed_at: i64,
}

impl View for CompletedStory {
    type V = CompletedStoryView;

    open spec fn view(&self) -> CompletedStoryView {
        CompletedStoryView {
            id: opt_text(self.id),
            story_id: self.story_id@,
            room_id: self.room_id@,
            title: self.title@,
            description: opt_text(self.description),
            votes: votes_view(self.votes@),
            final_score: self.final_score,
            completed_at: self.completed_at,
        }
    }
}

impl Clone for CompletedStory {
    fn clone(&self) -> (copy: Self)
        ensures
            copy@ == self@,
    {
        let votes = self.votes.clone();
        assert(votes_view(votes@) =~= votes_view(self.votes@));
        CompletedStory {
            id: self.id.clone(),
            story_id: self.story_id.clone(),
            room_id: self.room_id.clone(),
            title: self.title.clone(),
            description: self.description.clone(),
            votes,
            final_score: self.final_score,
            completed_at: self.completed_at,
        }
    }
}

impl CompletedStoryView {
    /// A completed story on the wire: an object with the members `id` (the
    /// text of the identity that the store assigned, `null` before that),
    /// `story_id`, `room_id`, `title`, `description` (`null` for none),
    /// `votes`, `final_score` and `completed_at`.
    pub open spec fn to_json(self) -> JsonView {
        JsonView::Object(
            seq![
                ("id"@, text_or_null_view(self.id)),
                ("story_id"@, JsonView::Str(self.story_id)),
                ("room_id"@, JsonView::Str(self.room_id)),
                ("title"@, JsonView::Str(self.title)),
                ("description"@, text_or_null_view(self.description)),
                ("votes"@, votes_to_json(self.votes)),
                ("final_score"@, JsonView::Int(self.final_score as int)),
                ("completed_at"@, JsonView::Int(self.completed_at as int)),
            ],
        )
    }

    /// The completed story that a document holds. `story_id`, `room_id`
    /// and `title` must be strings, `final_score` a 32-bit and
    /// `completed_at` a 64-bit integer; `id` and `description` may be
    /// absent or `null`; `votes` may be absent. Other members are ignored.
    pub open spec fn from_json(doc: JsonView) -> Option<CompletedStoryView> {
        match (
            doc.opt_text_at("id"@),
            doc.text_at("story_id"@),
            doc.text_at("room_id"@),
            doc.text_at("title"@),
            doc.opt_text_at("description"@),
            votes_at(doc, "votes"@),
            doc.i32_at("final_score"@),
            doc.i64_at("completed_at"@),
        ) {
            (
                Some(id),
                Some(story_id),
                Some(room_id),
                Some(title),
                Some(description),
                Some(votes),
                Some(final_score),
                Some(completed_at),
            ) => Some(
                CompletedStoryView {
                    id,
                    story_id,
                    room_id,
                    title,
                    description,
                    votes,
                    final_score,
                    completed_at,
                },
            ),
            _ => None,
        }
    }
}

/// A completed story that is written to the wire and read back is the same
/// record, field for field; its identity travels as text.
pub proof fn lemma_completed_story_round_trip(story: CompletedStoryView)
    ensures
        CompletedStoryView::from_json(story.to_json()) == Some(story),
{
    reveal_strlit("id");
    reveal_strlit("story_id");
    reveal_strlit("room_id");
    reveal_strlit("title");
    reveal_strlit("description");
    reveal_strlit("votes");
    reveal_strlit("final_score");
    reveal_strlit("completed_at");
    let members = story.to_json()->Object_0;
    assert(members.len() == 8);
    assert(members[0].0 == "id"@ && members[1].0 == "story_id"@ && members[2].0 == "room_id"@
        && members[3].0 == "title"@ && members[4].0 == "description"@ && members[5].0
        == "votes"@ && members[6].0 == "final_score"@ && members[7].0 == "completed_at"@);
    assert("title"@[0] != "votes"@[0]);
    assert("description"@[0] != "final_score"@[0]);
    lemma_lookup_at(members, 0);
    lemma_lookup_at(members, 1);
    lemma_lookup_at(members, 2);
    lemma_lookup_at(members, 3);
    lemma_lookup_at(members, 4);
    lemma_lookup_at(members, 5);
    lemma_lookup_at(members, 6);
    lemma_lookup_at(members, 7);
    lemma_votes_round_trip(story.votes);
}

impl CompletedStory {
    /// Writes the record as a document.
    pub fn to_json(&self) -> (doc: Json)
        ensures
            doc@ == self@.to_json(),
    {
        let mut members = no_members();
        put(&mut members, "id", text_or_null(&self.id));
        put(&mut members, "story_id", Json::Str(self.story_id.clone()));
        put(&mut members, "room_id", Json::Str(self.room_id.clone()));
        put(&mut members, "title", Json::Str(self.title.clone()));
        put(&mut members, "description", text_or_null(&self.description));
        put(&mut members, "votes", encode_votes(&self.votes));
        put(&mut members, "final_score", Json::Int(self.final_score as i64));
        put(&mut members, "completed_at", Json::Int(self.completed_at));
        assert(view_members(members@) =~= self@.to_json()->Object_0);
        object(members)
    }

    /// Reads a record from a document, or `None` where it holds none.
    pub fn from_json(doc: &Json) -> (story: Option<CompletedStory>)
        ensures
            match story {
                Some(s) => CompletedStoryView::from_json(doc@) == Some(s@),
                None => CompletedStoryView::from_json(doc@).is_none(),
            },
    {
        let id = doc.opt_text_at("id");
        let story_id = doc.text_at("story_id");
        let room_id = doc.text_at("room_id");
        let title = doc.text_at("title");
        let description = doc.opt_text_at("description");
        let votes = decode_votes_at(doc, "votes");
        let final_score = doc.i32_at("final_score");
        let completed_at = doc.i64_at("completed_at");
        match (id, story_id, room_id, title, description, votes, final_score, completed_at) {
            (
                Some(id),
                Some(story_id),
                Some(room_id),
                Some(title),
                Some(description),
                Some(votes),
                Some(final_score),
                Some(completed_at),
            ) => Some(
                CompletedStory {
                    id,
                    story_id,
                    room_id,
                    title,
                    description,
                    votes,
                    final_score,
                    completed_at,
                },
            ),
            _ => None,
        }
    }
}

/// A room: its members, the story being estimated and the stories behind it.
/// Times are seconds since the epoch.
#[derive(Debug, PartialEq)]
pub struct GameRoom {
    pub id: Option<String>,
    pub name: String,
    pub invite_code: String,
    pub admin_id: String,
    pub participants: Vec<String>,
    pub current_story: Option<Story>,
    pub completed_stories: Vec<Story>,
    pub stories: Vec<Story>,
    pub created_at: i64,
    pub updated_at: i64,
}

pub struct GameRoomView {
    pub id: Option<Seq<char>>,
    pub name: Seq<char>,
    pub invite_code: Seq<char>,
    pub admin_id: Seq<char>,
    pub participants: Seq<Seq<char>>,
    pub current_story: Option<StoryView>,
    pub completed_stories: Seq<StoryView>,
    pub stories: Seq<StoryView>,
    pub created_at: i64,
    pub updated_at: i64,
}

/// What an optional story stands for.
pub open spec fn opt_story(story: Option<Story>) -> Option<StoryView> {
    match story {
        Some(s) => Some(s@),
        None => None,
    }
}

impl View for GameRoom {
    type V = GameRoomView;

    open spec fn view(&self) -> GameRoomView {
        GameRoomView {
            id: opt_text(self.id),
            name: self.name@,
            invite_code: self.invite_code@,
            admin_id: self.admin_id@,
            participants: texts(self.participants@),
            current_story: opt_story(self.current_story),
            completed_stories: stories_view(self.completed_stories@),
            stories: stories_view(self.stories@),
            created_at: self.created_at,
            updated_at: self.updated_at,
        }
    }
}

impl Clone for GameRoom {
    fn clone(&self) -> (copy: Self)
        ensures
            copy@ == self@,
    {
        let participants = self.participants.clone();
        let completed_stories = self.completed_stories.clone();
        let stories = self.stories.clone();
        let current_story = match &self.current_story {
            Some(story) => Some(story.clone()),
            None => None,
        };
        proof {
            assert(texts(participants@) =~= texts(self.participants@));
            assert(stories_view(completed_stories@) =~= stories_view(self.completed_stories@));
            assert(stories_view(stories@) =~= stories_view(self.stories@));
        }
        GameRoom {
            id: self.id.clone(),
            name: self.name.clone(),
            invite_code: self.invite_code.clone(),
            admin_id: self.admin_id.clone(),
            participants,
            current_story,
            completed_stories,
            stories,
            created_at: self.created_at,
            updated_at: self.updated_at,
        }
    }
}

impl GameRoomView {
    /// Some story of the room's history has this id.
    pub open spec fn has_story(self, id: Seq<char>) -> bool {
        exists|i: int| 0 <= i < self.stories.len() && (#[trigger] self.stories[i]).id == id
    }

    /// The invariant of a room: the admin is a participant, nobody is a
    /// participant twice, and the story being estimated is part of the
    /// room's history.
    pub open spec fn well_formed(self) -> bool {
        &&& self.participants.contains(self.admin_id)
        &&& self.participants.no_duplicates()
        &&& match self.current_story {
            Some(story) => self.has_story(story.id),
            None => true,
        }
    }
}

/// The request to open a room.
#[derive(Debug, PartialEq)]
pub struct CreateRoomDto {
    pub name: String,
}

/// The request to enter a room by its invite code.
#[derive(Debug, PartialEq)]
pub struct JoinRoomDto {
    pub invite_code: String,
}

/// A room as it is reported to a client, participants by id.
#[derive(Debug, PartialEq)]
pub struct GameRoomResponse {
    pub id: String,
    pub name: String,
    pub invite_code: String,
    pub admin_id: String,
    pub participants: Vec<String>,
    pub current_story: Option<Story>,
    pub completed_stories: Vec<Story>,
    pub stories: Vec<Story>,
    pub created_at: i64,
    pub updated_at: i64,
}

} // verus!
