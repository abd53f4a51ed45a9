use dnac_client::devices::Device;
use dnac_client::dnac::IncompatibleVersionError;
use dnac_client::envelope::FromJson;
use dnac_client::json::Json;
use dnac_client::json::Member;
use dnac_client::paging::FetchableType;
use dnac_client::session::AuthError;
use dnac_client::session::Phase;
use dnac_client::session::SessionSetup;
use dnac_client::session::SetupAction;
use dnac_client::session::SetupError;
use dnac_client::token::Token;
use dnac_client::token::TokenError;
use dnac_client::transport::Method;
use dnac_client::transport::Reply;
use dnac_client::transport::Request;
use dnac_client::transport::TransportError;

const EXPIRES_2100: &str = "eyJhbGciOiJIUzI1NiIsInR5cCI6IkpXVCJ9.eyJleHAiOjQxMDI0NDQ4MDB9.c2ln";
const EXPIRED_LONG_AGO: &str = "eyJhbGciOiJIUzI1NiIsInR5cCI6IkpXVCJ9.eyJleHAiOjEwMDB9.c2ln";
const NO_EXPIRY: &str = "eyJhbGciOiJIUzI1NiIsInR5cCI6IkpXVCJ9.eyJzdWIiOiJhZG1pbiJ9.c2ln";
const NOW: u64 = 1_700_000_000;

fn tree(v: &serde_json::Value) -> Json {
    match v {
        serde_json::Value::Null => Json::Null,
        serde_json::Value::Bool(b) => Json::Bool(*b),
        serde_json::Value::Number(n) => match n.as_u64() {
            Some(u) => Json::Unsigned(u),
            None => Json::Number(n.to_string()),
        },
        serde_json::Value::String(s) => Json::Text(s.clone()),
        serde_json::Value::Array(a) => Json::Array(a.iter().map(tree).collect()),
        serde_json::Value::Object(o) => Json::Object(
            o.iter().map(|(k, v)| Member { name: k.clone(), value: tree(v) }).collect(),
        ),
    }
}

fn json(text: &str) -> Json {
    tree(&serde_json::from_str(text).unwrap())
}

fn reply(status: u16, body: &str) -> Reply {
    Reply { status, body: Some(json(body)) }
}

fn setup() -> SessionSetup {
    SessionSetup::begin(
        "token.json".to_string(),
        "https://controller.example/".to_string(),
        "admin".to_string(),
        "secret".to_string(),
    )
}

fn auth_request() -> Request {
    Request {
        method: Method::Post,
        url: "https://controller.example/dna/system/api/v1/auth/token".to_string(),
        headers: vec![],
            basic_auth: Some(("admin".to_string(), "secret".to_string())),
        query: vec![],
        body: None,
    }
}

fn release_request(token: &str) -> Request {
    Request {
        method: Method::Get,
        url: "https://controller.example/dna/intent/api/v1/dnac-release".to_string(),
        headers: vec![("X-Auth-Token".to_string(), token.to_string())],
            basic_auth: None,
        query: vec![],
        body: None,
    }
}

fn auth_reply(token: &str) -> Reply {
    Reply { status: 200, body: Some(Json::object(vec![Member::new("Token", Json::text(token))])) }
}

fn release_reply(installed: &str) -> Reply {
    let body = format!(
        r#"{{"response": {{"name": "dnac", "corePackages": ["a"], "displayName": "DNA Center",
        "displayVersion": "{0}", "packages": [], "supportedDirectUpdates": [],
        "systemPackages": ["s1", "s2"], "systemVersion": "1.0", "tenantId": "t",
        "installedVersion": "{0}"}}}}"#,
        installed
    );
    reply(200, &body)
}

fn stored(secret: &str, exp: Option<u64>) -> Token {
    let exp = match exp {
        Some(e) => Json::Unsigned(e),
        None => Json::Null,
    };
    let document =
        Json::object(vec![Member::new("Token", Json::text(secret)), Member::new("exp", exp)]);
    Token::from_json(&document).unwrap()
}

fn device_document(i: u64) -> String {
    format!(
        r#"{{"id": "00000000-0000-0000-0000-{:012x}", "collectionStatus": "Managed",
        "managementIpAddress": "10.0.0.1", "family": "Routers"}}"#,
        i
    )
}

fn offset_of(request: &Request) -> u64 {
    assert_eq!(request.query[0].0, "offset");
    request.query[0].1.parse().unwrap()
}

fn limit_of(request: &Request) -> u64 {
    assert_eq!(request.query[1].0, "limit");
    request.query[1].1.parse().unwrap()
}

fn list_reply(n: u64, request: &Request) -> Reply {
    let first = offset_of(request);
    let last = n.min(first + limit_of(request) - 1);
    let items: Vec<String> = (first..=last).map(device_document).collect();
    reply(200, &format!(r#"{{"response": [{}]}}"#, items.join(",")))
}

fn established() -> SessionSetup {
    let mut s = setup();
    s.stored_token_at(None, NOW);
    s.authenticated(Ok(auth_reply(EXPIRES_2100)));
    s.persisted(true);
    s.release(Ok(release_reply("2.3.7.5.1234")));
    assert_eq!(s.phase(), Phase::Ready);
    s
}

fn fetch_all_devices(n: u64) -> (Vec<Device>, Vec<u64>) {
    let dnac = established().into_session().unwrap();
    let mut fetch = Device::get_all_devices(None);
    let mut sizes = Vec::new();
    while let Some(request) = fetch.next_request(&dnac) {
        assert_eq!(request.headers, vec![("X-Auth-Token".to_string(), EXPIRES_2100.to_string())]);
    assert_eq!(request.basic_auth, None);
        assert_eq!(request.url, "https://controller.example/dna/intent/api/v1/network-device");
        let page = Device::read_list(&list_reply(n, &request)).unwrap();
        sizes.push(page.len() as u64);
        fetch.accept(page);
    }
    assert!(fetch.finished());
    (fetch.into_items(), sizes)
}

#[test]
fn a_setup_begins_by_loading_the_token() {
    let s = setup();
    assert_eq!(s.phase(), Phase::Loading);
    assert_eq!(s.session().dnac, "https://controller.example");
    assert_eq!(s.session().token.secret(), "");
    assert!(s.into_session().is_none());
}

#[test]
fn without_a_stored_token_the_session_is_established_through_authentication() {
    let mut s = setup();
    assert_eq!(s.stored_token_at(None, NOW), SetupAction::Send(auth_request()));
    assert_eq!(s.phase(), Phase::Authenticating);

    let expected_document = Json::object(vec![
        Member::new("Token", Json::text(EXPIRES_2100)),
        Member::new("exp", Json::Unsigned(4102444800)),
    ]);
    assert_eq!(
        s.authenticated(Ok(auth_reply(EXPIRES_2100))),
        SetupAction::Persist(expected_document)
    );
    assert_eq!(s.phase(), Phase::Persisting);
    assert_eq!(s.session().token.secret(), EXPIRES_2100);
    assert_eq!(s.session().token.expiry(), Some(4102444800));

    assert_eq!(s.persisted(true), SetupAction::Send(release_request(EXPIRES_2100)));
    assert_eq!(s.phase(), Phase::Gating);

    assert_eq!(
        s.release(Ok(release_reply("2.3.7.5.1234"))),
        SetupAction::Ready("2.3.7.5".to_string())
    );
    assert_eq!(s.phase(), Phase::Ready);
    let dnac = s.into_session().unwrap();
    assert_eq!(dnac.token.secret(), EXPIRES_2100);
}

#[test]
fn an_established_session_lists_1200_devices_in_pages_of_500() {
    let (devices, sizes) = fetch_all_devices(1200);
    assert_eq!(sizes, vec![500, 500, 200, 0]);
    assert_eq!(devices.len(), 1200);
    let mut ids: Vec<u128> = devices.iter().map(|d| d.id).collect();
    assert_eq!(ids, (1..=1200u128).collect::<Vec<u128>>());
    ids.dedup();
    assert_eq!(ids.len(), 1200);
}

#[test]
fn a_collection_that_ends_one_item_after_a_full_page_takes_three_requests() {
    let (devices, sizes) = fetch_all_devices(1001);
    assert_eq!(sizes, vec![500, 500, 1]);
    assert_eq!(devices.len(), 1001);
}

#[test]
fn a_usable_stored_token_goes_straight_to_the_version_gate() {
    let mut s = setup();
    let action = s.stored_token_at(Some(stored(EXPIRES_2100, None)), NOW);
    assert_eq!(action, SetupAction::Send(release_request(EXPIRES_2100)));
    assert_eq!(s.phase(), Phase::Gating);
    assert_eq!(s.session().token.expiry(), Some(4102444800));
    assert_eq!(s.release(Ok(release_reply("2.3.7.6"))), SetupAction::Ready("2.3.7.6".to_string()));
}

#[test]
fn a_stored_token_is_judged_by_its_claims_not_by_the_stored_expiry() {
    let mut s = setup();
    let action = s.stored_token_at(Some(stored(EXPIRED_LONG_AGO, Some(4102444800))), NOW);
    assert_eq!(action, SetupAction::Send(auth_request()));
    assert_eq!(s.phase(), Phase::Authenticating);
    assert_eq!(s.session().token.secret(), "");
}

#[test]
fn a_stored_token_within_the_margin_is_replaced() {
    let mut s = setup();
    let action = s.stored_token_at(Some(stored(EXPIRES_2100, None)), 4102444800 - 600);
    assert_eq!(action, SetupAction::Send(auth_request()));
    let mut t = setup();
    let action = t.stored_token_at(Some(stored(EXPIRES_2100, None)), 4102444800 - 601);
    assert_eq!(action, SetupAction::Send(release_request(EXPIRES_2100)));
}

#[test]
fn a_stored_token_that_cannot_be_read_is_replaced() {
    for secret in ["garbage", NO_EXPIRY, ""] {
        let mut s = setup();
        let action = s.stored_token_at(Some(stored(secret, Some(4102444800))), NOW);
        assert_eq!(action, SetupAction::Send(auth_request()));
        assert_eq!(s.phase(), Phase::Authenticating);
    }
}

#[test]
fn a_stored_token_is_judged_by_the_clock() {
    let mut s = setup();
    assert_eq!(
        s.stored_token(Some(stored(EXPIRES_2100, None))),
        SetupAction::Send(release_request(EXPIRES_2100))
    );
    let mut t = setup();
    assert_eq!(
        t.stored_token(Some(stored(EXPIRED_LONG_AGO, None))),
        SetupAction::Send(auth_request())
    );
    let mut u = setup();
    assert_eq!(u.stored_token(None), SetupAction::Send(auth_request()));
}

#[test]
fn a_rejected_authentication_is_fatal() {
    let mut s = setup();
    s.stored_token_at(None, NOW);
    assert_eq!(
        s.authenticated(Ok(reply(401, r#"{"error": "denied"}"#))),
        SetupAction::Abort(SetupError::Auth(AuthError::Rejected(TransportError::Status(401))))
    );
    assert_eq!(s.phase(), Phase::Failed);
    assert!(s.into_session().is_none());
}

#[test]
fn an_authentication_call_that_fails_is_fatal() {
    let mut s = setup();
    s.stored_token_at(None, NOW);
    let failure = TransportError::Network("connection refused".to_string());
    assert_eq!(
        s.authenticated(Err(failure)),
        SetupAction::Abort(SetupError::Auth(AuthError::Rejected(TransportError::Network(
            "connection refused".to_string()
        ))))
    );
    assert_eq!(s.phase(), Phase::Failed);
}

#[test]
fn an_authentication_reply_without_a_token_is_fatal() {
    let mut s = setup();
    s.stored_token_at(None, NOW);
    assert_eq!(
        s.authenticated(Ok(reply(200, r#"{"token": "x"}"#))),
        SetupAction::Abort(SetupError::Auth(AuthError::Rejected(TransportError::Decode)))
    );
}

#[test]
fn a_fresh_token_without_a_readable_expiry_is_fatal() {
    let mut s = setup();
    s.stored_token_at(None, NOW);
    assert_eq!(
        s.authenticated(Ok(auth_reply(NO_EXPIRY))),
        SetupAction::Abort(SetupError::Auth(AuthError::Unreadable(TokenError::MissingExpiry)))
    );
    let mut t = setup();
    t.stored_token_at(None, NOW);
    assert_eq!(
        t.authenticated(Ok(auth_reply("garbage"))),
        SetupAction::Abort(SetupError::Auth(AuthError::Unreadable(TokenError::Malformed)))
    );
    assert_eq!(t.phase(), Phase::Failed);
}

#[test]
fn a_fresh_token_that_cannot_be_stored_is_fatal() {
    let mut s = setup();
    s.stored_token_at(None, NOW);
    s.authenticated(Ok(auth_reply(EXPIRES_2100)));
    assert_eq!(s.persisted(false), SetupAction::Abort(SetupError::Auth(AuthError::NotPersisted)));
    assert_eq!(s.phase(), Phase::Failed);
    assert!(s.into_session().is_none());
}

#[test]
fn an_unsupported_release_is_fatal() {
    let mut s = setup();
    s.stored_token_at(Some(stored(EXPIRES_2100, None)), NOW);
    assert_eq!(
        s.release(Ok(release_reply("2.3.5.3"))),
        SetupAction::Abort(SetupError::IncompatibleVersion(IncompatibleVersionError {
            installed_version: "2.3.5.3".to_string()
        }))
    );
    assert_eq!(s.phase(), Phase::Failed);
    assert!(s.into_session().is_none());
}

#[test]
fn a_release_summary_that_cannot_be_had_is_fatal() {
    let mut s = setup();
    s.stored_token_at(Some(stored(EXPIRES_2100, None)), NOW);
    assert_eq!(
        s.release(Ok(reply(503, "{}"))),
        SetupAction::Abort(SetupError::Transport(TransportError::Status(503)))
    );
    let mut t = setup();
    t.stored_token_at(Some(stored(EXPIRES_2100, None)), NOW);
    assert_eq!(
        t.release(Ok(reply(200, r#"{"response": []}"#))),
        SetupAction::Abort(SetupError::Transport(TransportError::Unexpected))
    );
    let mut u = setup();
    u.stored_token_at(Some(stored(EXPIRES_2100, None)), NOW);
    assert_eq!(
        u.release(Err(TransportError::Network("timed out".to_string()))),
        SetupAction::Abort(SetupError::Transport(TransportError::Network("timed out".to_string())))
    );
}

#[test]
fn a_report_out_of_turn_changes_nothing() {
    let mut s = setup();
    assert_eq!(s.authenticated(Ok(auth_reply(EXPIRES_2100))), SetupAction::Ignored);
    assert_eq!(s.persisted(true), SetupAction::Ignored);
    assert_eq!(s.release(Ok(release_reply("2.3.7.5"))), SetupAction::Ignored);
    assert_eq!(s.phase(), Phase::Loading);
    s.stored_token_at(None, NOW);
    assert_eq!(s.stored_token_at(None, NOW), SetupAction::Ignored);
    assert_eq!(s.release(Ok(release_reply("2.3.7.5"))), SetupAction::Ignored);
    assert_eq!(s.phase(), Phase::Authenticating);
}

#[test]
fn a_setup_that_has_ended_takes_no_further_step() {
    let mut s = established();
    assert_eq!(s.stored_token_at(None, NOW), SetupAction::Ignored);
    assert_eq!(s.authenticated(Ok(auth_reply(EXPIRES_2100))), SetupAction::Ignored);
    assert_eq!(s.persisted(false), SetupAction::Ignored);
    assert_eq!(s.release(Ok(release_reply("1.0"))), SetupAction::Ignored);
    assert_eq!(s.phase(), Phase::Ready);
}

fn read(secret: &str, expiry: u64) -> Token {
    let mut token = Token::new(secret.to_string());
    token.adopt_claim(Some(Some(expiry))).unwrap();
    token
}

#[test]
fn a_stored_token_that_was_read_is_judged_by_its_expiry() {
    let mut s = setup();
    assert_eq!(
        s.stored_token_read_at(Some(Ok(read("abc", 2000))), 1399),
        SetupAction::Send(release_request("abc"))
    );
    assert_eq!(s.phase(), Phase::Gating);
    assert_eq!(s.session().token.expiry(), Some(2000));
    let mut t = setup();
    assert_eq!(
        t.stored_token_read_at(Some(Ok(read("abc", 2000))), 1400),
        SetupAction::Send(auth_request())
    );
    assert_eq!(t.phase(), Phase::Authenticating);
    assert_eq!(t.session().token.secret(), "");
    let mut u = setup();
    assert_eq!(
        u.stored_token_read_at(Some(Err(TokenError::Malformed)), 0),
        SetupAction::Send(auth_request())
    );
    let mut v = setup();
    assert_eq!(v.stored_token_read_at(None, 0), SetupAction::Send(auth_request()));
    assert_eq!(v.stored_token_read_at(None, 0), SetupAction::Ignored);
}

#[test]
fn a_fresh_token_that_was_read_is_to_be_stored() {
    let mut s = setup();
    assert_eq!(s.fresh_token(Ok(read("abc", 2000))), SetupAction::Ignored);
    s.stored_token_at(None, NOW);
    let document = Json::object(vec![
        Member::new("Token", Json::text("abc")),
        Member::new("exp", Json::Unsigned(2000)),
    ]);
    assert_eq!(s.fresh_token(Ok(read("abc", 2000))), SetupAction::Persist(document));
    assert_eq!(s.phase(), Phase::Persisting);
    assert_eq!(s.session().token.secret(), "abc");
    let mut t = setup();
    t.stored_token_at(None, NOW);
    assert_eq!(
        t.fresh_token(Err(TokenError::MissingExpiry)),
        SetupAction::Abort(SetupError::Auth(AuthError::Unreadable(TokenError::MissingExpiry)))
    );
    assert_eq!(t.phase(), Phase::Failed);
}
