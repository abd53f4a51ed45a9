//! The controller's response envelope, `{ "response": <value> }`, whose
//! value is one item or an array of items. Decoding takes an array for many
//! items and anything else for a single one, so that callers that want a
//! sequence always get one.

use vstd::prelude::*;
use crate::json::Json;
use crate::json::JsonValue;
use crate::json::Member;
use crate::json::MemberValue;
use crate::json::lemma_array_view;

verus! {

/// A type that is read from a JSON tree. `decoded` says, over the models,
/// what each tree decodes to; `from_json` computes it.
pub trait FromJson: Sized + DeepView {
    spec fn decoded(j: JsonValue) -> Option<<Self as DeepView>::V>;

    fn from_json(j: &Json) -> (r: Option<Self>)
        ensures
            r.deep_view() == Self::decoded(j.deep_view()),
    ;
}

/// A type that is written as a JSON tree.
pub trait ToJson: Sized + DeepView {
    spec fn encoded(v: <Self as DeepView>::V) -> JsonValue;

    fn to_json(&self) -> (r: Json)
        ensures
            r.deep_view() == Self::encoded(self.deep_view()),
    ;
}

impl FromJson for Json {
    open spec fn decoded(j: JsonValue) -> Option<JsonValue> {
        Some(j)
    }

    fn from_json(j: &Json) -> (r: Option<Json>) {
        Some(j.duplicate())
    }
}

impl ToJson for Json {
    open spec fn encoded(v: JsonValue) -> JsonValue {
        v
    }

    fn to_json(&self) -> (r: Json) {
        self.duplicate()
    }
}

/// The payload of an envelope: many items, or one.
#[derive(Debug, PartialEq)]
pub enum ResponseType<T> {
    Array(Vec<T>),
    Item(T),
}

/// The envelope itself.
#[derive(Debug, PartialEq)]
pub struct Response<T> {
    pub response: ResponseType<T>,
}

/// Model of a [`ResponseType`].
pub enum ResponseTypeValue<V> {
    Array(Seq<V>),
    Item(V),
}

/// Model of a [`Response`].
pub struct ResponseValue<V> {
    pub response: ResponseTypeValue<V>,
}

impl<V> ResponseTypeValue<V> {
    /// The payload as a sequence: the array itself, or the single item
    /// alone.
    pub open spec fn items(self) -> Seq<V> {
        match self {
            ResponseTypeValue::Array(items) => items,
            ResponseTypeValue::Item(item) => seq![item],
        }
    }
}

impl<T: DeepView> DeepView for ResponseType<T> {
    type V = ResponseTypeValue<T::V>;

    open spec fn deep_view(&self) -> ResponseTypeValue<T::V> {
        match self {
            ResponseType::Array(items) => ResponseTypeValue::Array(items.deep_view()),
            ResponseType::Item(item) => ResponseTypeValue::Item(item.deep_view()),
        }
    }
}

impl<T: DeepView> DeepView for Response<T> {
    type V = ResponseValue<T::V>;

    open spec fn deep_view(&self) -> ResponseValue<T::V> {
        ResponseValue { response: self.response.deep_view() }
    }
}

impl<T> ResponseType<T> {
    /// The items of the payload, in order.
    pub open spec fn spec_items(self) -> Seq<T> {
        match self {
            ResponseType::Array(items) => items@,
            ResponseType::Item(item) => seq![item],
        }
    }

    /// Turns the payload into a sequence: a single item becomes a sequence
    /// of one, an array stays as it is.
    pub fn into_vec(self) -> (r: Vec<T>)
        ensures
            r@ == self.spec_items(),
    {
        match self {
            ResponseType::Array(items) => items,
            ResponseType::Item(item) => {
                let mut r: Vec<T> = Vec::new();
                r.push(item);
                assert(r@ =~= seq![item]);
                r
            },
        }
    }
}

/// The models of the items of a payload are the items of its model.
pub proof fn lemma_items_view<T: DeepView>(payload: ResponseType<T>)
    ensures
        payload.spec_items().len() == payload.deep_view().items().len(),
        forall|i: int|
            0 <= i < payload.spec_items().len() ==> (#[trigger] payload.spec_items()[i]).deep_view()
                == payload.deep_view().items()[i],
{
}

/// What the items of an array decode to, if each of them decodes.
pub open spec fn all_decoded<T: FromJson>(items: Seq<JsonValue>) -> Option<Seq<<T as DeepView>::V>>
    decreases items.len(),
{
    if items.len() == 0 {
        Some(Seq::empty())
    } else {
        match (all_decoded::<T>(items.drop_last()), T::decoded(items.last())) {
            (Some(head), Some(last)) => Some(head.push(last)),
            _ => None,
        }
    }
}

/// The encodings of a sequence of items.
pub open spec fn all_encoded<T: ToJson>(items: Seq<<T as DeepView>::V>) -> Seq<JsonValue> {
    Seq::new(items.len(), |i: int| T::encoded(items[i]))
}

/// What the value under `"response"` decodes to: an array gives many items,
/// anything else a single one.
pub open spec fn decoded_payload<T: FromJson>(value: JsonValue) -> Option<
    ResponseTypeValue<<T as DeepView>::V>,
> {
    match value {
        JsonValue::Array(items) => match all_decoded::<T>(items) {
            Some(decoded) => Some(ResponseTypeValue::Array(decoded)),
            None => None,
        },
        single => match T::decoded(single) {
            Some(item) => Some(ResponseTypeValue::Item(item)),
            None => None,
        },
    }
}

/// The JSON value that stands for a payload.
pub open spec fn encoded_payload<T: ToJson>(payload: ResponseTypeValue<<T as DeepView>::V>) -> JsonValue {
    match payload {
        ResponseTypeValue::Array(items) => JsonValue::Array(all_encoded::<T>(items)),
        ResponseTypeValue::Item(item) => T::encoded(item),
    }
}

/// Where a prefix of `items` holds an item that does not decode, `items` as
/// a whole does not.
pub proof fn lemma_decoded_prefix<T: FromJson>(items: Seq<JsonValue>, n: int)
    requires
        0 <= n <= items.len(),
        all_decoded::<T>(items.take(n)) is None,
    ensures
        all_decoded::<T>(items) is None,
    decreases items.len() - n,
{
    if n < items.len() {
        assert(items.take(n + 1).drop_last() =~= items.take(n));
        lemma_decoded_prefix::<T>(items, n + 1);
    } else {
        assert(items.take(n) =~= items);
    }
}

/// Decodes every item of an array, or none where one of them fails.
pub fn decode_all<T: FromJson>(items: &Vec<Json>) -> (r: Option<Vec<T>>)
    ensures
        r.deep_view() == all_decoded::<T>(items.deep_view()),
{
    let mut out: Vec<T> = Vec::new();
    let mut i: usize = 0;
    while i < items.len()
        invariant
            i <= items.len(),
            all_decoded::<T>(items.deep_view().take(i as int)) == Some(out.deep_view()),
        decreases items.len() - i,
    {
        proof {
            let next = items.deep_view().take(i + 1);
            assert(next.drop_last() =~= items.deep_view().take(i as int));
            assert(next.last() == items@[i as int].deep_view());
        }
        match T::from_json(&items[i]) {
            Some(item) => {
                let ghost before = out.deep_view();
                out.push(item);
                assert(out.deep_view() =~= before.push(item.deep_view()));
            },
            None => {
                proof {
                    lemma_decoded_prefix::<T>(items.deep_view(), i + 1);
                }
                return None;
            },
        }
        i += 1;
    }
    assert(items.deep_view().take(items.len() as int) =~= items.deep_view());
    Some(out)
}

/// Encodes every item of a sequence.
pub fn encode_all<T: ToJson>(items: &Vec<T>) -> (r: Vec<Json>)
    ensures
        r.deep_view() == all_encoded::<T>(items.deep_view()),
{
    let mut out: Vec<Json> = Vec::new();
    let mut i: usize = 0;
    while i < items.len()
        invariant
            i <= items.len(),
            out.len() == i,
            forall|k: int| 0 <= k < i ==> out@[k].deep_view() == T::encoded(items@[k].deep_view()),
        decreases items.len() - i,
    {
        out.push(items[i].to_json());
        i += 1;
    }
    assert(out.deep_view() =~= all_encoded::<T>(items.deep_view()));
    out
}

impl<T: FromJson> ResponseType<T> {
    /// Decodes the value of an envelope: first as an array of items, and as
    /// a single item where it is no array.
    pub fn decode(value: &Json) -> (r: Option<ResponseType<T>>)
        ensures
            r.deep_view() == decoded_payload::<T>(value.deep_view()),
    {
        match value {
            Json::Array(items) => {
                proof {
                    lemma_array_view(*items);
                }
                match decode_all::<T>(items) {
                    Some(decoded) => Some(ResponseType::Array(decoded)),
                    None => None,
                }
            },
            single => match T::from_json(single) {
                Some(item) => Some(ResponseType::Item(item)),
                None => None,
            },
        }
    }
}

impl<T: FromJson> FromJson for Response<T> {
    open spec fn decoded(j: JsonValue) -> Option<ResponseValue<T::V>> {
        match j.member("response"@) {
            Some(value) => match decoded_payload::<T>(value) {
                Some(payload) => Some(ResponseValue { response: payload }),
                None => None,
            },
            None => None,
        }
    }

    fn from_json(j: &Json) -> (r: Option<Response<T>>) {
        match j.get("response") {
            Some(value) => match ResponseType::<T>::decode(value) {
                Some(payload) => Some(Response { response: payload }),
                None => None,
            },
            None => None,
        }
    }
}

impl<T: ToJson> ToJson for Response<T> {
    open spec fn encoded(v: ResponseValue<T::V>) -> JsonValue {
        JsonValue::Object(
            seq![MemberValue { name: "response"@, value: encoded_payload::<T>(v.response) }],
        )
    }

    fn to_json(&self) -> (r: Json) {
        let value = match &self.response {
            ResponseType::Array(items) => Json::array(encode_all::<T>(items)),
            ResponseType::Item(item) => item.to_json(),
        };
        let mut members: Vec<Member> = Vec::new();
        members.push(Member::new("response", value));
        assert(members.deep_view() =~= seq![
            MemberValue { name: "response"@, value: encoded_payload::<T>(self.response.deep_view()) },
        ]);
        Json::object(members)
    }
}

/// Decoding the encodings of a sequence of items gives the items back,
/// where each single item comes back from its own encoding.
pub proof fn lemma_all_round_trip<T: FromJson + ToJson>(items: Seq<<T as DeepView>::V>)
    requires
        forall|v: <T as DeepView>::V| #[trigger] T::decoded(T::encoded(v)) == Some(v),
    ensures
        all_decoded::<T>(all_encoded::<T>(items)) == Some(items),
    decreases items.len(),
{
    let encoded = all_encoded::<T>(items);
    if items.len() == 0 {
        assert(items =~= Seq::empty());
    } else {
        lemma_all_round_trip::<T>(items.drop_last());
        assert(encoded.drop_last() =~= all_encoded::<T>(items.drop_last()));
        assert(encoded.last() == T::encoded(items.last()));
        assert(items.drop_last().push(items.last()) =~= items);
    }
}

/// Envelope round trip. An envelope that is encoded and decoded again comes
/// back unchanged: an array of any length as that array, a single item as
/// that item, so that its sequence form is the one-element sequence of the
/// item. It holds for item types that come back from their own encoding,
/// and for a single item whose encoding is no JSON array (an array would be
/// read as many items).
pub proof fn lemma_envelope_round_trip<T: FromJson + ToJson>(envelope: ResponseValue<<T as DeepView>::V>)
    requires
        forall|v: <T as DeepView>::V| #[trigger] T::decoded(T::encoded(v)) == Some(v),
        envelope.response matches ResponseTypeValue::Item(item) ==> !(T::encoded(item) is Array),
    ensures
        Response::<T>::decoded(Response::<T>::encoded(envelope)) == Some(envelope),
        envelope.response matches ResponseTypeValue::Item(item) ==> Response::<T>::decoded(
            Response::<T>::encoded(envelope),
        )->0.response.items() == seq![item],
        envelope.response matches ResponseTypeValue::Array(items) ==> Response::<T>::decoded(
            Response::<T>::encoded(envelope),
        )->0.response.items() == items,
{
    let wire = Response::<T>::encoded(envelope);
    let members = wire->Object_0;
    assert(members[0].name == "response"@);
    assert(wire.member("response"@) == Some(encoded_payload::<T>(envelope.response)));
    match envelope.response {
        ResponseTypeValue::Array(items) => {
            lemma_all_round_trip::<T>(items);
        },
        ResponseTypeValue::Item(item) => {
            assert(T::decoded(T::encoded(item)) == Some(item));
        },
    }
}

/// The round trip for items that are JSON values themselves: an array of
/// any length comes back as it was, and a single value that is no array
/// comes back as the one-element sequence of itself.
pub proof fn lemma_json_envelope_round_trip(envelope: ResponseValue<JsonValue>)
    requires
        envelope.response matches ResponseTypeValue::Item(item) ==> !(item is Array),
    ensures
        Response::<Json>::decoded(Response::<Json>::encoded(envelope)) == Some(envelope),
        envelope.response matches ResponseTypeValue::Item(item) ==> Response::<Json>::decoded(
            Response::<Json>::encoded(envelope),
        )->0.response.items() == seq![item],
        envelope.response matches ResponseTypeValue::Array(items) ==> Response::<Json>::decoded(
            Response::<Json>::encoded(envelope),
        )->0.response.items() == items,
{
    lemma_envelope_round_trip::<Json>(envelope);
}

} // verus!
