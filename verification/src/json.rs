//! The JSON tree that the controller's bodies are read from and written to.
//!
//! A caller parses a body into a [`Json`] value and hands it to the decoders
//! of this crate; requests that carry a body hold one. The mathematical
//! model of a tree is its deep view, a [`JsonValue`]; every contract that
//! speaks of JSON speaks of that model.

use vstd::prelude::*;

verus! {

/// One named member of a JSON object.
#[derive(Debug, PartialEq)]
pub struct Member {
    pub name: String,
    pub value: Json,
}

/// A JSON value. Integers from 0 to 2^64 - 1 are held as `Unsigned`; every
/// other number is held by its text, as it stood in the document.
#[derive(Debug, PartialEq)]
pub enum Json {
    Null,
    Bool(bool),
    Unsigned(u64),
    Number(String),
    Text(String),
    Array(Vec<Json>),
    Object(Vec<Member>),
}

/// Model of a [`Member`].
pub struct MemberValue {
    pub name: Seq<char>,
    pub value: JsonValue,
}

/// Model of a [`Json`] tree: strings are character sequences, arrays and
/// objects are sequences.
pub enum JsonValue {
    Null,
    Bool(bool),
    Unsigned(u64),
    Number(Seq<char>),
    Text(Seq<char>),
    Array(Seq<JsonValue>),
    Object(Seq<MemberValue>),
}

/// The value of the first member of `members` whose name is `key`.
pub open spec fn first_named(members: Seq<MemberValue>, key: Seq<char>) -> Option<JsonValue>
    decreases members.len(),
{
    if members.len() == 0 {
        None
    } else if members[0].name == key {
        Some(members[0].value)
    } else {
        first_named(members.drop_first(), key)
    }
}

/// The texts of `items`, where each of them is a JSON string.
pub open spec fn all_texts(items: Seq<JsonValue>) -> Option<Seq<Seq<char>>>
    decreases items.len(),
{
    if items.len() == 0 {
        Some(Seq::empty())
    } else {
        match (all_texts(items.drop_last()), items.last()) {
            (Some(head), JsonValue::Text(t)) => Some(head.push(t)),
            _ => None,
        }
    }
}

/// The array whose items are the strings `texts`.
pub open spec fn texts_value(texts: Seq<Seq<char>>) -> JsonValue {
    JsonValue::Array(Seq::new(texts.len(), |i: int| JsonValue::Text(texts[i])))
}

impl JsonValue {
    /// The member `key` of an object; `None` for a value that is no object
    /// or has no such member. Of two members with one name the first counts.
    pub open spec fn member(self, key: Seq<char>) -> Option<JsonValue> {
        match self {
            JsonValue::Object(members) => first_named(members, key),
            _ => None,
        }
    }

    /// The characters of a string value.
    pub open spec fn text(self) -> Option<Seq<char>> {
        match self {
            JsonValue::Text(t) => Some(t),
            _ => None,
        }
    }

    /// The number of a value that is an integer from 0 to 2^64 - 1.
    pub open spec fn unsigned(self) -> Option<u64> {
        match self {
            JsonValue::Unsigned(n) => Some(n),
            _ => None,
        }
    }

    /// The truth value of a boolean value.
    pub open spec fn boolean(self) -> Option<bool> {
        match self {
            JsonValue::Bool(b) => Some(b),
            _ => None,
        }
    }

    /// The items of an array.
    pub open spec fn elements(self) -> Option<Seq<JsonValue>> {
        match self {
            JsonValue::Array(items) => Some(items),
            _ => None,
        }
    }

    /// Whether the member `key` is missing or `null`: the two ways in which
    /// an optional field is left out.
    pub open spec fn absent(self, key: Seq<char>) -> bool {
        self.member(key) is None || self.member(key) == Some(JsonValue::Null)
    }

    /// A mandatory string member.
    pub open spec fn required_text(self, key: Seq<char>) -> Option<Seq<char>> {
        match self.member(key) {
            Some(JsonValue::Text(t)) => Some(t),
            _ => None,
        }
    }

    /// An optional string member: `Some(None)` where it is absent, `None`
    /// where it is present and no string.
    pub open spec fn optional_text(self, key: Seq<char>) -> Option<Option<Seq<char>>> {
        match self.member(key) {
            None => Some(None),
            Some(JsonValue::Null) => Some(None),
            Some(JsonValue::Text(t)) => Some(Some(t)),
            _ => None,
        }
    }

    /// A mandatory member that is an integer in the range of `u64`.
    pub open spec fn required_unsigned(self, key: Seq<char>) -> Option<u64> {
        match self.member(key) {
            Some(JsonValue::Unsigned(n)) => Some(n),
            _ => None,
        }
    }

    /// An optional integer member, as [`Self::optional_text`].
    pub open spec fn optional_unsigned(self, key: Seq<char>) -> Option<Option<u64>> {
        match self.member(key) {
            None => Some(None),
            Some(JsonValue::Null) => Some(None),
            Some(JsonValue::Unsigned(n)) => Some(Some(n)),
            _ => None,
        }
    }

    /// An optional member of any shape: `None` where it is absent.
    pub open spec fn optional_value(self, key: Seq<char>) -> Option<JsonValue> {
        match self.member(key) {
            None => None,
            Some(JsonValue::Null) => None,
            Some(v) => Some(v),
        }
    }

    /// A mandatory boolean member.
    pub open spec fn required_bool(self, key: Seq<char>) -> Option<bool> {
        match self.member(key) {
            Some(JsonValue::Bool(b)) => Some(b),
            _ => None,
        }
    }

    /// A mandatory member that is an array of strings.
    pub open spec fn required_texts(self, key: Seq<char>) -> Option<Seq<Seq<char>>> {
        match self.member(key) {
            Some(JsonValue::Array(items)) => all_texts(items),
            _ => None,
        }
    }
}

impl DeepView for Member {
    type V = MemberValue;

    open spec fn deep_view(&self) -> MemberValue {
        MemberValue { name: self.name@, value: self.value.deep_view() }
    }
}

/// The model of a tree, by recursion over it.
pub open spec fn json_value(j: Json) -> JsonValue
    decreases j,
{
    match j {
        Json::Null => JsonValue::Null,
        Json::Bool(b) => JsonValue::Bool(b),
        Json::Unsigned(n) => JsonValue::Unsigned(n),
        Json::Number(t) => JsonValue::Number(t@),
        Json::Text(t) => JsonValue::Text(t@),
        Json::Array(items) => JsonValue::Array(
            Seq::new(
                items@.len(),
                |i: int|
                    if 0 <= i < items@.len() {
                        json_value(items@[i])
                    } else {
                        JsonValue::Null
                    },
            ),
        ),
        Json::Object(members) => JsonValue::Object(
            Seq::new(
                members@.len(),
                |i: int|
                    if 0 <= i < members@.len() {
                        MemberValue {
                            name: members@[i].name@,
                            value: json_value(members@[i].value),
                        }
                    } else {
                        MemberValue { name: Seq::empty(), value: JsonValue::Null }
                    },
            ),
        ),
    }
}

impl DeepView for Json {
    type V = JsonValue;

    open spec fn deep_view(&self) -> JsonValue {
        json_value(*self)
    }
}

/// The model of an array is the sequence of its items' models.
pub proof fn lemma_array_view(items: Vec<Json>)
    ensures
        Json::Array(items).deep_view() == JsonValue::Array(items.deep_view()),
{
    let a = Json::Array(items).deep_view();
    assert(a is Array);
    assert(a->Array_0.len() == items@.len());
    assert forall|i: int| 0 <= i < items@.len() implies a->Array_0[i] == items.deep_view()[i] by {
        assert(a->Array_0[i] == items@[i].deep_view());
    }
    assert(a->Array_0 =~= items.deep_view());
}

/// The model of an object is the sequence of its members' models.
pub proof fn lemma_object_view(members: Vec<Member>)
    ensures
        Json::Object(members).deep_view() == JsonValue::Object(members.deep_view()),
{
    let o = Json::Object(members).deep_view();
    assert(o is Object);
    assert(o->Object_0.len() == members@.len());
    assert forall|i: int| 0 <= i < members@.len() implies o->Object_0[i]
        == members.deep_view()[i] by {
        assert(o->Object_0[i] == members@[i].deep_view());
    }
    assert(o->Object_0 =~= members.deep_view());
}

/// The first member of `members` named `key`, by reference.
fn find_member<'a>(members: &'a Vec<Member>, key: &str) -> (r: Option<&'a Json>)
    ensures
        r.deep_view() == first_named(members.deep_view(), key@),
{
    let wanted = key.to_owned();
    let mut i: usize = 0;
    assert(members.deep_view().skip(0) =~= members.deep_view());
    while i < members.len()
        invariant
            wanted@ == key@,
            i <= members.len(),
            first_named(members.deep_view(), key@) == first_named(
                members.deep_view().skip(i as int),
                key@,
            ),
        decreases members.len() - i,
    {
        proof {
            let rest = members.deep_view().skip(i as int);
            assert(rest[0] == members@[i as int].deep_view());
            assert(rest.drop_first() =~= members.deep_view().skip(i + 1));
        }
        if members[i].name == wanted {
            return Some(&members[i].value);
        }
        i += 1;
    }
    None
}

impl Json {
    /// The member `key` of an object.
    pub fn get(&self, key: &str) -> (r: Option<&Json>)
        ensures
            r.deep_view() == self.deep_view().member(key@),
    {
        match self {
            Json::Object(members) => {
                proof {
                    lemma_object_view(*members);
                }
                find_member(members, key)
            },
            _ => None,
        }
    }

    /// The string, where the value is one.
    pub fn as_text(&self) -> (r: Option<&String>)
        ensures
            r.deep_view() == self.deep_view().text(),
    {
        match self {
            Json::Text(t) => Some(t),
            _ => None,
        }
    }

    /// The number, where the value is an integer from 0 to 2^64 - 1.
    pub fn as_unsigned(&self) -> (r: Option<u64>)
        ensures
            r == self.deep_view().unsigned(),
    {
        match self {
            Json::Unsigned(n) => Some(*n),
            _ => None,
        }
    }

    /// The truth value, where the value is a boolean.
    pub fn as_bool(&self) -> (r: Option<bool>)
        ensures
            r == self.deep_view().boolean(),
    {
        match self {
            Json::Bool(b) => Some(*b),
            _ => None,
        }
    }

    /// The items, where the value is an array.
    pub fn as_array(&self) -> (r: Option<&Vec<Json>>)
        ensures
            r.deep_view() == self.deep_view().elements(),
    {
        match self {
            Json::Array(items) => {
                proof {
                    lemma_array_view(*items);
                }
                Some(items)
            },
            _ => None,
        }
    }

    /// Whether the value is `null`.
    pub fn is_null(&self) -> (r: bool)
        ensures
            r == (self.deep_view() == JsonValue::Null),
    {
        match self {
            Json::Null => true,
            _ => false,
        }
    }

    /// A copy of the whole tree.
    #[verifier::loop_isolation(false)]
    pub fn duplicate(&self) -> (r: Json)
        ensures
            r.deep_view() == self.deep_view(),
        decreases self,
    {
        match self {
            Json::Null => Json::Null,
            Json::Bool(b) => Json::Bool(*b),
            Json::Unsigned(n) => Json::Unsigned(*n),
            Json::Number(t) => Json::Number(t.clone()),
            Json::Text(t) => Json::Text(t.clone()),
            Json::Array(items) => {
                let mut out: Vec<Json> = Vec::new();
                let mut i: usize = 0;
                while i < items.len()
                    invariant
                        i <= items.len(),
                        out.len() == i,
                        forall|k: int| 0 <= k < i ==> out@[k].deep_view() == items@[k].deep_view(),
                    decreases items.len() - i,
                {
                    out.push(items[i].duplicate());
                    i += 1;
                }
                proof {
                    lemma_array_view(*items);
                    lemma_array_view(out);
                    assert(out.deep_view() =~= items.deep_view());
                }
                Json::Array(out)
            },
            Json::Object(members) => {
                let mut out: Vec<Member> = Vec::new();
                let mut i: usize = 0;
                while i < members.len()
                    invariant
                        i <= members.len(),
                        out.len() == i,
                        forall|k: int|
                            0 <= k < i ==> out@[k].deep_view() == members@[k].deep_view(),
                    decreases members.len() - i,
                {
                    let m = &members[i];
                    out.push(Member { name: m.name.clone(), value: m.value.duplicate() });
                    i += 1;
                }
                proof {
                    lemma_object_view(*members);
                    lemma_object_view(out);
                    assert(out.deep_view() =~= members.deep_view());
                }
                Json::Object(out)
            },
        }
    }

    /// Reads a mandatory string member.
    pub fn required_text(&self, key: &str) -> (r: Option<String>)
        ensures
            r.deep_view() == self.deep_view().required_text(key@),
    {
        match self.get(key) {
            Some(Json::Text(t)) => Some(t.clone()),
            _ => None,
        }
    }

    /// Reads an optional string member.
    pub fn optional_text(&self, key: &str) -> (r: Option<Option<String>>)
        ensures
            r.deep_view() == self.deep_view().optional_text(key@),
    {
        match self.get(key) {
            None => Some(None),
            Some(Json::Null) => Some(None),
            Some(Json::Text(t)) => Some(Some(t.clone())),
            _ => None,
        }
    }

    /// Reads a mandatory integer member.
    pub fn required_unsigned(&self, key: &str) -> (r: Option<u64>)
        ensures
            r == self.deep_view().required_unsigned(key@),
    {
        match self.get(key) {
            Some(Json::Unsigned(n)) => Some(*n),
            _ => None,
        }
    }

    /// Reads an optional integer member.
    pub fn optional_unsigned(&self, key: &str) -> (r: Option<Option<u64>>)
        ensures
            r == self.deep_view().optional_unsigned(key@),
    {
        match self.get(key) {
            None => Some(None),
            Some(Json::Null) => Some(None),
            Some(Json::Unsigned(n)) => Some(Some(*n)),
            _ => None,
        }
    }

    /// Reads an optional member of any shape, as a copy.
    pub fn optional_value(&self, key: &str) -> (r: Option<Json>)
        ensures
            r.deep_view() == self.deep_view().optional_value(key@),
    {
        match self.get(key) {
            None => None,
            Some(Json::Null) => None,
            Some(v) => Some(v.duplicate()),
        }
    }

    /// Reads a mandatory boolean member.
    pub fn required_bool(&self, key: &str) -> (r: Option<bool>)
        ensures
            r == self.deep_view().required_bool(key@),
    {
        match self.get(key) {
            Some(Json::Bool(b)) => Some(*b),
            _ => None,
        }
    }

    /// Reads a mandatory member that is an array of strings.
    #[verifier::loop_isolation(false)]
    pub fn required_texts(&self, key: &str) -> (r: Option<Vec<String>>)
        ensures
            r.deep_view() == self.deep_view().required_texts(key@),
    {
        match self.get(key) {
            Some(Json::Array(items)) => {
                proof {
                    lemma_array_view(*items);
                }
                let mut out: Vec<String> = Vec::new();
                let mut i: usize = 0;
                while i < items.len()
                    invariant
                        i <= items.len(),
                        all_texts(items.deep_view().take(i as int)) == Some(out.deep_view()),
                    decreases items.len() - i,
                {
                    proof {
                        let next = items.deep_view().take(i + 1);
                        assert(next.drop_last() =~= items.deep_view().take(i as int));
                        assert(next.last() == items@[i as int].deep_view());
                    }
                    match &items[i] {
                        Json::Text(t) => {
                            let ghost before = out.deep_view();
                            out.push(t.clone());
                            assert(out.deep_view() =~= before.push(t@));
                        },
                        _ => {
                            proof {
                                let next = items.deep_view().take(i + 1);
                                assert(!(next.last() is Text));
                                assert(all_texts(next) is None);
                                lemma_texts_prefix(items.deep_view(), i + 1);
                            }
                            return None;
                        },
                    }
                    i += 1;
                }
                assert(items.deep_view().take(items.len() as int) =~= items.deep_view());
                Some(out)
            },
            _ => None,
        }
    }

    /// A string value holding the characters of `s`.
    pub fn text(s: &str) -> (r: Json)
        ensures
            r.deep_view() == JsonValue::Text(s@),
    {
        Json::Text(s.to_owned())
    }

    /// An array of strings.
    pub fn texts(items: &Vec<String>) -> (r: Json)
        ensures
            r.deep_view() == texts_value(items.deep_view()),
    {
        let mut out: Vec<Json> = Vec::new();
        let mut i: usize = 0;
        while i < items.len()
            invariant
                i <= items.len(),
                out.len() == i,
                forall|k: int| 0 <= k < i ==> out@[k].deep_view() == JsonValue::Text(items@[k]@),
            decreases items.len() - i,
        {
            out.push(Json::Text(items[i].clone()));
            i += 1;
        }
        proof {
            lemma_array_view(out);
            assert(out.deep_view() =~= texts_value(items.deep_view())->Array_0);
        }
        Json::Array(out)
    }

    /// An object with the given members, in their order.
    pub fn object(members: Vec<Member>) -> (r: Json)
        ensures
            r.deep_view() == JsonValue::Object(members.deep_view()),
    {
        proof {
            lemma_object_view(members);
        }
        Json::Object(members)
    }

    /// An array with the given items, in their order.
    pub fn array(items: Vec<Json>) -> (r: Json)
        ensures
            r.deep_view() == JsonValue::Array(items.deep_view()),
    {
        proof {
            lemma_array_view(items);
        }
        Json::Array(items)
    }
}

impl Clone for Json {
    fn clone(&self) -> (r: Self)
        ensures
            r.deep_view() == self.deep_view(),
    {
        self.duplicate()
    }
}

impl Clone for Member {
    fn clone(&self) -> (r: Self)
        ensures
            r.deep_view() == self.deep_view(),
    {
        Member { name: self.name.clone(), value: self.value.duplicate() }
    }
}

impl Member {
    /// The member `name: value`.
    pub fn new(name: &str, value: Json) -> (m: Member)
        ensures
            m.deep_view() == (MemberValue { name: name@, value: value.deep_view() }),
    {
        Member { name: name.to_owned(), value }
    }
}

/// Where a prefix of `items` holds something that is no string, so does
/// `items`.
pub proof fn lemma_texts_prefix(items: Seq<JsonValue>, n: int)
    requires
        0 <= n <= items.len(),
        all_texts(items.take(n)) is None,
    ensures
        all_texts(items) is None,
    decreases items.len() - n,
{
    if n < items.len() {
        assert(items.take(n + 1).drop_last() =~= items.take(n));
        lemma_texts_prefix(items, n + 1);
    } else {
        assert(items.take(n) =~= items);
    }
}

} // verus!
