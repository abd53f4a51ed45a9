use dnac_client::dnac::DNAC;
use dnac_client::envelope::FromJson;
use dnac_client::json::Json;
use dnac_client::json::Member;
use dnac_client::platform::ReleaseSummary;
use dnac_client::platform::RELEASE_PATH;
use dnac_client::token::Token;
use dnac_client::transport::Method;
use dnac_client::transport::Reply;
use dnac_client::transport::TransportError;

fn tree(v: &serde_json::Value) -> Json {
    match v {
        serde_json::Value::Null => Json::Null,
        serde_json::Value::Bool(b) => Json::Bool(*b),
        serde_json::Value::Number(n) => match n.as_u64() {
            Some(u) => Json::Unsigned(u),
            None => Json::Number(n.to_string()),
        },
        serde_json::Value::String(s) => Json::Text(s.clone()),
        serde_json::Value::Array(a) => Json::Array(a.iter().map(tree).collect()),
        serde_json::Value::Object(o) => Json::Object(
            o.iter().map(|(k, v)| Member { name: k.clone(), value: tree(v) }).collect(),
        ),
    }
}

fn json(text: &str) -> Json {
    tree(&serde_json::from_str(text).unwrap())
}

const SUMMARY: &str = r#"{"name": "dnac", "corePackages": ["core-a", "core-b"],
    "displayName": "DNA Center", "displayVersion": "2.3.7.5", "packages": ["p"],
    "previous_version": "2.3.5.0", "supportedDirectUpdates": [],
    "systemPackages": ["s1", "s2"], "systemVersion": "1.8.1", "tenantId": "t1",
    "installedVersion": "2.3.7.5.70434"}"#;

fn summary() -> ReleaseSummary {
    ReleaseSummary {
        name: "dnac".to_string(),
        core_packages: vec!["core-a".to_string(), "core-b".to_string()],
        display_name: "DNA Center".to_string(),
        display_version: "2.3.7.5".to_string(),
        packages: vec!["p".to_string()],
        previous_version: Some("2.3.5.0".to_string()),
        supported_direct_updates: vec![],
        system_packages: vec!["s1".to_string(), "s2".to_string()],
        system_version: "1.8.1".to_string(),
        tenant_id: "t1".to_string(),
        installed_version: "2.3.7.5.70434".to_string(),
    }
}

#[test]
fn a_release_summary_is_read_from_its_document() {
    assert_eq!(ReleaseSummary::from_json(&json(SUMMARY)), Some(summary()));
}

#[test]
fn a_release_summary_without_a_previous_version() {
    let mut value: serde_json::Value = serde_json::from_str(SUMMARY).unwrap();
    value.as_object_mut().unwrap().remove("previous_version");
    let read = ReleaseSummary::from_json(&tree(&value)).unwrap();
    assert_eq!(read.previous_version, None);
    assert_eq!(read.installed_version, "2.3.7.5.70434");
}

#[test]
fn a_release_summary_without_a_mandatory_member_is_refused() {
    for missing in [
        "name",
        "corePackages",
        "displayName",
        "displayVersion",
        "packages",
        "supportedDirectUpdates",
        "systemPackages",
        "systemVersion",
        "tenantId",
        "installedVersion",
    ] {
        let mut value: serde_json::Value = serde_json::from_str(SUMMARY).unwrap();
        value.as_object_mut().unwrap().remove(missing);
        assert_eq!(ReleaseSummary::from_json(&tree(&value)), None, "{missing}");
    }
}

#[test]
fn the_request_for_the_release_summary() {
    let mut dnac = DNAC::new(
        String::new(),
        "https://controller.example/".to_string(),
        String::new(),
        String::new(),
    );
    dnac.token = Token::new("tok".to_string());
    let request = ReleaseSummary::get_release_summary(&dnac);
    assert_eq!(RELEASE_PATH, "/dna/intent/api/v1/dnac-release");
    assert_eq!(request.method, Method::Get);
    assert_eq!(request.url, "https://controller.example/dna/intent/api/v1/dnac-release");
    assert_eq!(request.headers, vec![("X-Auth-Token".to_string(), "tok".to_string())]);
    assert_eq!(request.basic_auth, None);
    assert_eq!(request.query, vec![]);
    assert_eq!(request.body, None);
}

#[test]
fn the_release_summary_must_come_as_a_single_item() {
    let single = Reply { status: 200, body: Some(json(&format!(r#"{{"response": {}}}"#, SUMMARY))) };
    assert_eq!(ReleaseSummary::read(&single), Ok(summary()));
    let many = Reply { status: 200, body: Some(json(&format!(r#"{{"response": [{}]}}"#, SUMMARY))) };
    assert_eq!(ReleaseSummary::read(&many), Err(TransportError::Unexpected));
    let failed = Reply { status: 502, body: None };
    assert_eq!(ReleaseSummary::read(&failed), Err(TransportError::Status(502)));
    let odd = Reply { status: 200, body: Some(json(r#"{"response": {"name": "x"}}"#)) };
    assert_eq!(ReleaseSummary::read(&odd), Err(TransportError::Decode));
}
