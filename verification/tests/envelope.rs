use dnac_client::envelope::decode_all;
use dnac_client::envelope::encode_all;
use dnac_client::envelope::FromJson;
use dnac_client::envelope::Response;
use dnac_client::envelope::ResponseType;
use dnac_client::envelope::ToJson;
use dnac_client::json::Json;
use dnac_client::json::Member;
use dnac_client::task::TaskInfo;

fn tree(v: &serde_json::Value) -> Json {
    match v {
        serde_json::Value::Null => Json::Null,
        serde_json::Value::Bool(b) => Json::Bool(*b),
        serde_json::Value::Number(n) => match n.as_u64() {
            Some(u) => Json::Unsigned(u),
            None => Json::Number(n.to_string()),
        },
        serde_json::Value::String(s) => Json::Text(s.clone()),
        serde_json::Value::Array(a) => Json::Array(a.iter().map(tree).collect()),
        serde_json::Value::Object(o) => Json::Object(
            o.iter().map(|(k, v)| Member { name: k.clone(), value: tree(v) }).collect(),
        ),
    }
}

fn json(text: &str) -> Json {
    tree(&serde_json::from_str(text).unwrap())
}

#[test]
fn a_single_item_becomes_a_sequence_of_one() {
    let envelope = Response::<Json>::from_json(&json(r#"{"response": {"id": "a"}}"#)).unwrap();
    assert_eq!(envelope.response, ResponseType::Item(json(r#"{"id": "a"}"#)));
    assert_eq!(envelope.response.into_vec(), vec![json(r#"{"id": "a"}"#)]);
}

#[test]
fn an_array_stays_as_it_is() {
    let envelope =
        Response::<Json>::from_json(&json(r#"{"response": [{"id": "a"}, {"id": "b"}]}"#)).unwrap();
    assert_eq!(
        envelope.response.into_vec(),
        vec![json(r#"{"id": "a"}"#), json(r#"{"id": "b"}"#)]
    );
}

#[test]
fn an_empty_array_is_an_empty_sequence() {
    let envelope = Response::<Json>::from_json(&json(r#"{"response": []}"#)).unwrap();
    assert_eq!(envelope.response, ResponseType::Array(Vec::new()));
    assert_eq!(envelope.response.into_vec(), Vec::<Json>::new());
}

#[test]
fn an_array_of_one_is_not_a_single_item() {
    let envelope = Response::<Json>::from_json(&json(r#"{"response": [7]}"#)).unwrap();
    assert_eq!(envelope.response, ResponseType::Array(vec![Json::Unsigned(7)]));
}

#[test]
fn without_the_response_member_nothing_is_decoded() {
    assert_eq!(Response::<Json>::from_json(&json(r#"{"other": 1}"#)), None);
    assert_eq!(Response::<Json>::from_json(&json("[1]")), None);
}

#[test]
fn a_single_item_round_trips() {
    let item = json(r#"{"id": "a", "n": 1}"#);
    let wire = Response { response: ResponseType::Item(item.duplicate()) }.to_json();
    assert_eq!(wire, json(r#"{"response": {"id": "a", "n": 1}}"#));
    let back = Response::<Json>::from_json(&wire).unwrap();
    assert_eq!(back.response.into_vec(), vec![item]);
}

#[test]
fn sequences_of_every_length_round_trip() {
    for n in 0..5u64 {
        let items: Vec<Json> = (0..n).map(Json::Unsigned).collect();
        let copy: Vec<Json> = (0..n).map(Json::Unsigned).collect();
        let wire = Response { response: ResponseType::Array(items) }.to_json();
        let back = Response::<Json>::from_json(&wire).unwrap();
        assert_eq!(back.response, ResponseType::Array(copy));
    }
}

#[test]
fn a_single_item_that_is_an_array_comes_back_as_many() {
    let wire = Response { response: ResponseType::Item(json("[1, 2]")) }.to_json();
    let back = Response::<Json>::from_json(&wire).unwrap();
    assert_eq!(back.response, ResponseType::Array(vec![Json::Unsigned(1), Json::Unsigned(2)]));
}

#[test]
fn decode_all_fails_where_one_item_fails() {
    let good = json(r#"[{"taskId": "t", "url": "/u"}]"#);
    let bad = json(r#"[{"taskId": "t", "url": "/u"}, {"taskId": 1}]"#);
    let decoded = decode_all::<TaskInfo>(good.as_array().unwrap()).unwrap();
    assert_eq!(decoded, vec![TaskInfo { task_id: "t".to_string(), url: "/u".to_string() }]);
    assert_eq!(decode_all::<TaskInfo>(bad.as_array().unwrap()), None);
}

#[test]
fn encode_all_keeps_the_order() {
    let items = vec![Json::Unsigned(3), Json::Null, Json::Bool(false)];
    assert_eq!(encode_all::<Json>(&items), items);
}
