//! A model of JSON documents and the bridge to their text form.

use vstd::prelude::*;

verus! {

/// A JSON document as a mathematical value.
pub enum JsonView {
    Null,
    Bool(bool),
    Int(int),
    Number(Seq<char>),
    Str(Seq<char>),
    Array(Seq<JsonView>),
    Object(Seq<(Seq<char>, JsonView)>),
}

/// A JSON document. A number that fits a 64-bit signed integer is `Int`;
/// any other number is `Number`, in its decimal text.
#[derive(Debug, PartialEq)]
pub enum Json {
    Null,
    Bool(bool),
    Int(i64),
    Number(String),
    Str(String),
    Array(Vec<Json>),
    Object(Vec<(String, Json)>),
}

/// The documents that a list of documents stands for.
pub open spec fn view_items(items: Seq<Json>) -> Seq<JsonView>
    decreases items,
{
    Seq::new(
        items.len(),
        |i: int|
            if 0 <= i < items.len() {
                view_json(items[i])
            } else {
                JsonView::Null
            },
    )
}

/// The members that a list of named documents stands for.
pub open spec fn view_members(members: Seq<(String, Json)>) -> Seq<(Seq<char>, JsonView)>
    decreases members,
{
    Seq::new(
        members.len(),
        |i: int|
            if 0 <= i < members.len() {
                (members[i].0@, view_json(members[i].1))
            } else {
                (Seq::empty(), JsonView::Null)
            },
    )
}

/// The document that a `Json` stands for.
pub open spec fn view_json(j: Json) -> JsonView
    decreases j,
{
    match j {
        Json::Null => JsonView::Null,
        Json::Bool(b) => JsonView::Bool(b),
        Json::Int(i) => JsonView::Int(i as int),
        Json::Number(t) => JsonView::Number(t@),
        Json::Str(s) => JsonView::Str(s@),
        Json::Array(items) => JsonView::Array(view_items(items@)),
        Json::Object(members) => JsonView::Object(view_members(members@)),
    }
}

impl Clone for Json {
    fn clone(&self) -> (copy: Self)
        ensures
            copy@ == self@,
        decreases self,
    {
        match self {
            Json::Null => Json::Null,
            Json::Bool(b) => Json::Bool(*b),
            Json::Int(i) => Json::Int(*i),
            Json::Number(t) => Json::Number(t.clone()),
            Json::Str(s) => Json::Str(s.clone()),
            Json::Array(items) => {
                let mut copies: Vec<Json> = Vec::new();
                let mut i: usize = 0;
                while i < items.len()
                    invariant
                        i <= items.len(),
                        copies.len() == i,
                        *self == Json::Array(*items),
                        forall|k: int| 0 <= k < i ==> view_json(#[trigger] copies@[k]) == view_json(items@[k]),
                    decreases items.len() - i,
                {
                    proof {
                        vstd::std_specs::vec::axiom_vec_index_decreases(*items, i as int);
                        assert(*items == self->Array_0);
                    }
                    copies.push(items[i].clone());
                    i = i + 1;
                }
                assert(view_items(copies@) =~= view_items(items@));
                Json::Array(copies)
            },
            Json::Object(members) => {
                let mut copies: Vec<(String, Json)> = Vec::new();
                let mut i: usize = 0;
                while i < members.len()
                    invariant
                        i <= members.len(),
                        copies.len() == i,
                        *self == Json::Object(*members),
                        forall|k: int|
                            0 <= k < i ==> (#[trigger] copies@[k]).0@ == members@[k].0@ && view_json(
                                copies@[k].1,
                            ) == view_json(members@[k].1),
                    decreases members.len() - i,
                {
                    proof {
                        vstd::std_specs::vec::axiom_vec_index_decreases(*members, i as int);
                        assert(*members == self->Object_0);
                    }
                    copies.push((members[i].0.clone(), members[i].1.clone()));
                    i = i + 1;
                }
                assert(view_members(copies@) =~= view_members(members@));
                Json::Object(copies)
            },
        }
    }
}

impl View for Json {
    type V = JsonView;

    open spec fn view(&self) -> JsonView {
        view_json(*self)
    }
}

/// The value of the last member named `key`, if there is one.
pub open spec fn lookup(members: Seq<(Seq<char>, JsonView)>, key: Seq<char>) -> Option<JsonView>
    decreases members.len(),
{
    if members.len() == 0 {
        None
    } else if members.last().0 == key {
        Some(members.last().1)
    } else {
        lookup(members.drop_last(), key)
    }
}

impl JsonView {
    /// The member of an object under `key`; `None` for any other document.
    pub open spec fn member(self, key: Seq<char>) -> Option<JsonView> {
        match self {
            JsonView::Object(members) => lookup(members, key),
            _ => None,
        }
    }

    /// The characters of a string document.
    pub open spec fn text(self) -> Option<Seq<char>> {
        match self {
            JsonView::Str(s) => Some(s),
            _ => None,
        }
    }

    /// The value of a number that is a 64-bit signed integer.
    pub open spec fn integer(self) -> Option<int> {
        match self {
            JsonView::Int(i) => Some(i),
            _ => None,
        }
    }

    /// The items of an array document.
    pub open spec fn items(self) -> Option<Seq<JsonView>> {
        match self {
            JsonView::Array(items) => Some(items),
            _ => None,
        }
    }
}

impl JsonView {
    /// A required text field: the member under `key`, which is a string.
    pub open spec fn text_at(self, key: Seq<char>) -> Option<Seq<char>> {
        match self.member(key) {
            Some(JsonView::Str(s)) => Some(s),
            _ => None,
        }
    }

    /// An optional text field. Absent and `null` both read as no text; a
    /// member of any other kind but a string is an error, the outer `None`.
    pub open spec fn opt_text_at(self, key: Seq<char>) -> Option<Option<Seq<char>>> {
        match self.member(key) {
            None => Some(None),
            Some(JsonView::Null) => Some(None),
            Some(JsonView::Str(s)) => Some(Some(s)),
            _ => None,
        }
    }

    /// A required integer field that fits 64 bits.
    pub open spec fn i64_at(self, key: Seq<char>) -> Option<i64> {
        match self.member(key) {
            Some(JsonView::Int(i)) if i64::MIN <= i <= i64::MAX => Some(i as i64),
            _ => None,
        }
    }

    /// A required integer field that fits 32 bits.
    pub open spec fn i32_at(self, key: Seq<char>) -> Option<i32> {
        match self.member(key) {
            Some(JsonView::Int(i)) if i32::MIN <= i <= i32::MAX => Some(i as i32),
            _ => None,
        }
    }

    /// An optional integer field that fits 32 bits. Absent and `null` both
    /// read as no number; any other member but such an integer is an error,
    /// the outer `None`.
    pub open spec fn opt_i32_at(self, key: Seq<char>) -> Option<Option<i32>> {
        match self.member(key) {
            None => Some(None),
            Some(JsonView::Null) => Some(None),
            Some(JsonView::Int(i)) if i32::MIN <= i <= i32::MAX => Some(Some(i as i32)),
            _ => None,
        }
    }
}

/// A member that no later member shares its name with is the one found
/// under that name.
pub proof fn lemma_lookup_at(members: Seq<(Seq<char>, JsonView)>, i: int)
    requires
        0 <= i < members.len(),
        forall|j: int| i < j < members.len() ==> (#[trigger] members[j]).0 != members[i].0,
    ensures
        lookup(members, members[i].0) == Some(members[i].1),
    decreases members.len(),
{
    if i < members.len() - 1 {
        assert(members.last() == members[members.len() - 1]);
        let rest = members.drop_last();
        assert(rest[i] == members[i]);
        assert forall|j: int| i < j < rest.len() implies (#[trigger] rest[j]).0 != rest[i].0 by {
            assert(rest[j] == members[j]);
        }
        lemma_lookup_at(rest, i);
    }
}

/// The document that `serde_json::from_str` reads from a text, as a `Json`
/// holds it, or `None` where it reports an error.
pub uninterp spec fn json_of_text(text: Seq<char>) -> Option<JsonView>;

/// The text that `serde_json::to_string` writes for a document that a
/// `Json` holds.
pub uninterp spec fn text_of_json(doc: JsonView) -> Seq<char>;

/// `serde_json::Value`, which only passes between the two conversions below
/// and the calls that read and write text.
#[verifier::external_type_specification]
#[verifier::external_body]
pub struct ExValue(serde_json::Value);

/// Moves a `serde_json::Value` into a `Json`, variant by variant. A number
/// becomes `Int` where `Number::as_i64` gives one and keeps its decimal text
/// otherwise.
#[verifier::external_body]
pub(crate) fn lift(value: serde_json::Value) -> Json {
    match value {
        serde_json::Value::Null => Json::Null,
        serde_json::Value::Bool(b) => Json::Bool(b),
        serde_json::Value::Number(n) => match n.as_i64() {
            Some(i) => Json::Int(i),
            None => Json::Number(n.to_string()),
        },
        serde_json::Value::String(s) => Json::Str(s),
        serde_json::Value::Array(items) => Json::Array(items.into_iter().map(lift).collect()),
        serde_json::Value::Object(m) => Json::Object(m.into_iter().map(|(k, v)| (k, lift(v))).collect()),
    }
}

/// Calls `serde_json::from_str` for a `serde_json::Value`. The contract
/// claims only that the outcome is a function of the text.
#[verifier::external_body]
fn read_text(text: &str) -> (doc: Option<Json>)
    ensures
        match doc {
            Some(d) => json_of_text(text@) == Some(d@),
            None => json_of_text(text@).is_none(),
        },
{
    match serde_json::from_str::<serde_json::Value>(text) {
        Ok(value) => Some(lift(value)),
        Err(_) => None,
    }
}

/// Moves a `Json` into a `serde_json::Value`, variant by variant. The text
/// of a `Number` is read by `Number::from_str`; where that refuses it, the
/// value is `null`.
#[verifier::external_body]
pub(crate) fn lower(doc: &Json) -> serde_json::Value {
    match doc {
        Json::Null => serde_json::Value::Null,
        Json::Bool(b) => serde_json::Value::Bool(*b),
        Json::Int(i) => serde_json::Value::from(*i),
        Json::Number(t) => match t.parse() {
            Ok(n) => serde_json::Value::Number(n),
            Err(_) => serde_json::Value::Null,
        },
        Json::Str(s) => serde_json::Value::String(s.clone()),
        Json::Array(items) => serde_json::Value::Array(items.iter().map(lower).collect()),
        Json::Object(m) => serde_json::Value::Object(m.iter().map(|(k, v)| (k.clone(), lower(v))).collect()),
    }
}

/// Calls `serde_json::to_string` on the document as a `serde_json::Value`.
/// The contract claims only that the text is a function of the document.
#[verifier::external_body]
fn write_text(doc: &Json) -> (text: String)
    ensures
        text@ == text_of_json(doc@),
{
    serde_json::to_string(&lower(doc)).unwrap_or_default()
}

/// The members of an object without members.
pub fn no_members() -> (members: Vec<(String, Json)>)
    ensures
        view_members(members@) == Seq::<(Seq<char>, JsonView)>::empty(),
{
    let members: Vec<(String, Json)> = Vec::new();
    assert(view_members(members@) =~= Seq::<(Seq<char>, JsonView)>::empty());
    members
}

/// Appends the member `name: value` to the members of an object.
pub fn put(members: &mut Vec<(String, Json)>, name: &str, value: Json)
    ensures
        view_members(final(members)@) == view_members(old(members)@).push((name@, value@)),
{
    let ghost before = view_members(members@);
    members.push((name.to_owned(), value));
    assert(view_members(members@) =~= before.push((name@, value@)));
}

/// The object with the given members.
pub fn object(members: Vec<(String, Json)>) -> (doc: Json)
    ensures
        doc@ == JsonView::Object(view_members(members@)),
{
    Json::Object(members)
}

/// The array with the given items.
pub fn array(items: Vec<Json>) -> (doc: Json)
    ensures
        doc@ == JsonView::Array(view_items(items@)),
{
    Json::Array(items)
}

/// The number document of a 32-bit integer, or `null` for none.
pub fn i32_or_null(value: Option<i32>) -> (doc: Json)
    ensures
        doc@ == match value {
            Some(i) => JsonView::Int(i as int),
            None => JsonView::Null,
        },
{
    match value {
        Some(i) => Json::Int(i as i64),
        None => Json::Null,
    }
}

/// A string document, or `null` for no text.
pub fn text_or_null(text: &Option<String>) -> (doc: Json)
    ensures
        doc@ == match text {
            Some(s) => JsonView::Str(s@),
            None => JsonView::Null,
        },
{
    match text {
        Some(s) => Json::Str(s.clone()),
        None => Json::Null,
    }
}

impl Json {
    /// The member of an object under `key`.
    pub fn get(&self, key: &str) -> (found: Option<&Json>)
        ensures
            match found {
                Some(j) => self@.member(key@) == Some(j@),
                None => self@.member(key@).is_none(),
            },
    {
        match self {
            Json::Object(members) => {
                let wanted = key.to_owned();
                let mut i: usize = members.len();
                let ghost all = view_members(members@);
                assert(all.subrange(0, i as int) =~= all);
                while i > 0
                    invariant
                        i <= members.len(),
                        wanted@ == key@,
                        all == view_members(members@),
                        self@ == JsonView::Object(all),
                        lookup(all, key@) == lookup(all.subrange(0, i as int), key@),
                    decreases i,
                {
                    i = i - 1;
                    let ghost part = all.subrange(0, i + 1);
                    assert(part.drop_last() =~= all.subrange(0, i as int));
                    assert(part.last() == (members@[i as int].0@, view_json(members@[i as int].1)));
                    if members[i].0 == wanted {
                        return Some(&members[i].1);
                    }
                }
                assert(all.subrange(0, 0).len() == 0);
                None
            },
            _ => None,
        }
    }

    /// The characters of a string document.
    pub fn as_str(&self) -> (text: Option<&str>)
        ensures
            match text {
                Some(s) => self@.text() == Some(s@),
                None => self@.text().is_none(),
            },
    {
        match self {
            Json::Str(s) => Some(s.as_str()),
            _ => None,
        }
    }

    /// The value of a number that is a 64-bit signed integer.
    pub fn as_i64(&self) -> (value: Option<i64>)
        ensures
            match value {
                Some(i) => self@.integer() == Some(i as int),
                None => self@.integer().is_none(),
            },
    {
        match self {
            Json::Int(i) => Some(*i),
            _ => None,
        }
    }

    /// The items of an array document.
    pub fn as_array(&self) -> (items: Option<&Vec<Json>>)
        ensures
            match items {
                Some(v) => self@.items() == Some(view_items(v@)),
                None => self@.items().is_none(),
            },
    {
        match self {
            Json::Array(items) => Some(items),
            _ => None,
        }
    }

    /// A required text field.
    pub fn text_at(&self, key: &str) -> (text: Option<String>)
        ensures
            match text {
                Some(s) => self@.text_at(key@) == Some(s@),
                None => self@.text_at(key@).is_none(),
            },
    {
        match self.get(key) {
            Some(Json::Str(s)) => Some(s.clone()),
            _ => None,
        }
    }

    /// An optional text field; the outer `None` is an error.
    pub fn opt_text_at(&self, key: &str) -> (text: Option<Option<String>>)
        ensures
            match text {
                Some(Some(s)) => self@.opt_text_at(key@) == Some(Some(s@)),
                Some(None) => self@.opt_text_at(key@) == Some(None::<Seq<char>>),
                None => self@.opt_text_at(key@).is_none(),
            },
    {
        match self.get(key) {
            None => Some(None),
            Some(Json::Null) => Some(None),
            Some(Json::Str(s)) => Some(Some(s.clone())),
            _ => None,
        }
    }

    /// A required integer field that fits 64 bits.
    pub fn i64_at(&self, key: &str) -> (value: Option<i64>)
        ensures
            value == self@.i64_at(key@),
    {
        match self.get(key) {
            Some(Json::Int(i)) => Some(*i),
            _ => None,
        }
    }

    /// A required integer field that fits 32 bits.
    pub fn i32_at(&self, key: &str) -> (value: Option<i32>)
        ensures
            value == self@.i32_at(key@),
    {
        match self.get(key) {
            Some(Json::Int(i)) => {
                if -2147483648 <= *i && *i <= 2147483647 {
                    Some(*i as i32)
                } else {
                    None
                }
            },
            _ => None,
        }
    }

    /// An optional integer field that fits 32 bits; the outer `None` is an
    /// error.
    pub fn opt_i32_at(&self, key: &str) -> (value: Option<Option<i32>>)
        ensures
            value == self@.opt_i32_at(key@),
    {
        match self.get(key) {
            None => Some(None),
            Some(Json::Null) => Some(None),
            Some(Json::Int(i)) => {
                if -2147483648 <= *i && *i <= 2147483647 {
                    Some(Some(*i as i32))
                } else {
                    None
                }
            },
            _ => None,
        }
    }

    /// Whether the document is `null`.
    pub fn is_null(&self) -> (null: bool)
        ensures
            null == (self@ == JsonView::Null),
    {
        match self {
            Json::Null => true,
            _ => false,
        }
    }

    /// Writes the document as JSON text.
    pub fn render(&self) -> (text: String)
        ensures
            text@ == text_of_json(self@),
    {
        write_text(self)
    }

    /// Reads a JSON text.
    pub fn parse(text: &str) -> (doc: Option<Json>)
        ensures
            match doc {
                Some(d) => json_of_text(text@) == Some(d@),
                None => json_of_text(text@).is_none(),
            },
    {
        read_text(text)
    }
}

} // verus!
