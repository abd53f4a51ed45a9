use dnac_client::dnac::DNAC;
use dnac_client::envelope::FromJson;
use dnac_client::json::Json;
use dnac_client::json::Member;
use dnac_client::pagination::Pagination;
use dnac_client::paging::FetchableType;
use dnac_client::paging::Identified;
use dnac_client::sites::Location;
use dnac_client::sites::Site;
use dnac_client::sites::SiteError;
use dnac_client::sites::SiteFilter;
use dnac_client::sites::SiteType;
use dnac_client::sites::Sites;
use dnac_client::sites::NO_SUCH_SITE;
use dnac_client::sites::SITE_PATH;
use dnac_client::token::Token;
use dnac_client::transport::Reply;

fn tree(v: &serde_json::Value) -> Json {
    match v {
        serde_json::Value::Null => Json::Null,
        serde_json::Value::Bool(b) => Json::Bool(*b),
        serde_json::Value::Number(n) => match n.as_u64() {
            Some(u) => Json::Unsigned(u),
            None => Json::Number(n.to_string()),
        },
        serde_json::Value::String(s) => Json::Text(s.clone()),
        serde_json::Value::Array(a) => Json::Array(a.iter().map(tree).collect()),
        serde_json::Value::Object(o) => Json::Object(
            o.iter().map(|(k, v)| Member { name: k.clone(), value: tree(v) }).collect(),
        ),
    }
}

fn json(text: &str) -> Json {
    tree(&serde_json::from_str(text).unwrap())
}

fn reply(status: u16, body: &str) -> Reply {
    Reply { status, body: Some(json(body)) }
}

fn session() -> DNAC {
    let mut dnac = DNAC::new(
        String::new(),
        "https://controller.example".to_string(),
        "admin".to_string(),
        "secret".to_string(),
    );
    dnac.token = Token::new("tok".to_string());
    dnac
}

const BUILDING: &str = r#"{"id": "67e55044-10b1-426f-9247-bb680e5fe0c8",
    "groupNameHierarchy": "Global/Berlin/HQ", "groupHierarchy": "g/b/h", "name": "HQ",
    "additionalInfo": [
        {"nameSpace": "System Settings", "attributes": {"group.count.total": "0"}},
        {"nameSpace": "Location", "attributes": {"country": "Germany",
            "address": "Unter den Linden 1", "latitude": "52.5", "addressInheritedFrom": "x1",
            "type": "building", "longitude": "13.4"}}
    ]}"#;
const AREA: &str = r#"{"id": "00000000-0000-0000-0000-000000000002",
    "groupNameHierarchy": "Global/Berlin", "groupHierarchy": "g/b", "name": "Berlin",
    "additionalInfo": [{"nameSpace": "Location",
        "attributes": {"addressInheritedFrom": "x2", "type": "area"}}]}"#;
const PLAIN: &str = r#"{"id": "00000000-0000-0000-0000-000000000003",
    "groupNameHierarchy": "Global", "groupHierarchy": "g", "name": "Global"}"#;

fn site(text: &str) -> Site {
    Site::from_json(&json(text)).unwrap()
}

#[test]
fn the_kinds_of_site_have_the_names_of_the_controller() {
    assert_eq!(SiteType::Area.to_string(), "area");
    assert_eq!(SiteType::Building.to_string(), "building");
    assert_eq!(SiteType::Floor.to_string(), "floor");
}

#[test]
fn the_site_errors_say_what_they_are() {
    assert_eq!(SiteError::GeneralError.to_string(), "General Site Error");
    assert_eq!(SiteError::InvalidSite.to_string(), "Invalid Site");
}

#[test]
fn a_site_is_read_from_its_document() {
    let s = site(BUILDING);
    assert_eq!(s.id, 0x67e5504410b1426f9247bb680e5fe0c8);
    assert_eq!(s.id(), 0x67e5504410b1426f9247bb680e5fe0c8);
    assert_eq!(s.group_name_hierarchy, "Global/Berlin/HQ");
    assert_eq!(s.group_hierarchy, "g/b/h");
    assert_eq!(s.name, "HQ");
    assert_eq!(s.location, None);
    assert_eq!(s.additional_info.as_ref().unwrap().len(), 2);
    let p = site(PLAIN);
    assert_eq!(p.additional_info, None);
    assert_eq!(p.location, None);
}

#[test]
fn a_site_of_another_shape_is_refused() {
    let cases = [
        r#"{"groupNameHierarchy": "a", "groupHierarchy": "b", "name": "c"}"#,
        r#"{"id": "zz", "groupNameHierarchy": "a", "groupHierarchy": "b", "name": "c"}"#,
        r#"{"id": "00000000-0000-0000-0000-000000000003", "groupHierarchy": "b", "name": "c"}"#,
        r#"{"id": "00000000-0000-0000-0000-000000000003", "groupNameHierarchy": "a", "groupHierarchy": "b", "name": "c", "additionalInfo": {}}"#,
        r#"{"id": "00000000-0000-0000-0000-000000000003", "groupNameHierarchy": "a", "groupHierarchy": "b", "name": "c", "location": {"type": "x"}}"#,
    ];
    for case in cases {
        assert_eq!(Site::from_json(&json(case)), None, "{case}");
    }
}

#[test]
fn a_location_is_read_from_its_document() {
    let document = r#"{"id": "00000000-0000-0000-0000-000000000003",
        "groupNameHierarchy": "a", "groupHierarchy": "b", "name": "c",
        "location": {"country": "France", "addressInheritedFrom": "x", "type": "floor"}}"#;
    let s = site(document);
    assert_eq!(s.get_country(), "France");
    assert_eq!(s.get_address(), "");
    assert_eq!(s.get_location_type(), "floor");
    assert!(Location::from_json(&json(r#"{"addressInheritedFrom": "x", "type": "floor"}"#)).is_some());
    assert!(Location::from_json(&json(r#"{"addressInheritedFrom": "x"}"#)).is_none());
    assert!(Location::from_json(&json(r#"{"type": "floor"}"#)).is_none());
    assert!(
        Location::from_json(&json(r#"{"addressInheritedFrom": "x", "type": "floor", "country": 1}"#))
            .is_none()
    );
}

#[test]
fn parse_takes_the_location_from_the_attribute_groups() {
    let s = site(BUILDING);
    assert!(s.parseable());
    let s = s.parse();
    assert_eq!(s.get_country(), "Germany");
    assert_eq!(s.get_address(), "Unter den Linden 1");
    assert_eq!(s.get_latitude(), "52.5");
    assert_eq!(s.get_longitude(), "13.4");
    assert_eq!(s.get_location_type(), "building");
    assert_eq!(s.name, "HQ");
    assert_eq!(s.additional_info.as_ref().unwrap().len(), 2);
}

#[test]
fn the_getters_give_the_empty_text_for_what_is_missing() {
    let s = site(AREA).parse();
    assert_eq!(s.get_country(), "");
    assert_eq!(s.get_address(), "");
    assert_eq!(s.get_latitude(), "");
    assert_eq!(s.get_longitude(), "");
    assert_eq!(s.get_location_type(), "area");
    let p = site(PLAIN).parse();
    assert_eq!(p.location, None);
    assert_eq!(p.get_country(), "");
    assert_eq!(p.get_location_type(), "");
}

#[test]
fn the_last_location_group_wins() {
    let document = r#"{"id": "00000000-0000-0000-0000-000000000003",
        "groupNameHierarchy": "a", "groupHierarchy": "b", "name": "c",
        "location": {"country": "Spain", "addressInheritedFrom": "x", "type": "area"},
        "additionalInfo": [
            {"nameSpace": "Location", "attributes": {"country": "Italy", "addressInheritedFrom": "x", "type": "area"}},
            {"nameSpace": "Other", "attributes": 7},
            {"nameSpace": "Location", "attributes": {"country": "Norway", "addressInheritedFrom": "x", "type": "floor"}},
            {"nameSpace": "Other"}
        ]}"#;
    let s = site(document);
    assert_eq!(s.get_country(), "Spain");
    assert!(s.parseable());
    let s = s.parse();
    assert_eq!(s.get_country(), "Norway");
    assert_eq!(s.get_location_type(), "floor");
}

#[test]
fn a_site_without_location_groups_keeps_its_location() {
    let document = r#"{"id": "00000000-0000-0000-0000-000000000003",
        "groupNameHierarchy": "a", "groupHierarchy": "b", "name": "c",
        "location": {"country": "Spain", "addressInheritedFrom": "x", "type": "area"},
        "additionalInfo": [{"nameSpace": "Other", "attributes": {}}]}"#;
    assert_eq!(site(document).parse().get_country(), "Spain");
}

#[test]
fn attribute_groups_that_cannot_be_read_are_told() {
    let head = r#"{"id": "00000000-0000-0000-0000-000000000003", "groupNameHierarchy": "a", "groupHierarchy": "b", "name": "c", "additionalInfo": "#;
    let cases = [
        r#"[{"attributes": {}}]"#,
        r#"[{"nameSpace": 7}]"#,
        r#"["Location"]"#,
        r#"[{"nameSpace": "Location"}]"#,
        r#"[{"nameSpace": "Location", "attributes": {"type": "area"}}]"#,
        r#"[{"nameSpace": "Other"}, {"nameSpace": "Location", "attributes": null}]"#,
    ];
    for case in cases {
        assert!(!site(&format!("{head}{case}}}")).parseable(), "{case}");
    }
    assert!(site(&format!("{head}[]}}")).parseable());
    assert!(site(&format!("{head}[{{\"nameSpace\": \"location\"}}]}}")).parseable());
}

#[test]
fn the_list_request_for_each_filter() {
    assert_eq!(SITE_PATH, "/dna/intent/api/v2/site");
    let dnac = session();
    let request = Sites::get_site(&dnac, None, None);
    assert_eq!(request.url, "https://controller.example/dna/intent/api/v2/site");
    assert_eq!(request.query, vec![]);
    let by_name = SiteFilter::Name("Global/Berlin".to_string());
    assert_eq!(
        Sites::get_site(&dnac, Some(&by_name), None).query,
        vec![("name".to_string(), "Global/Berlin".to_string())]
    );
    let by_type = SiteFilter::Type(SiteType::Floor);
    let page = Pagination::builder().with_limit(10).build();
    assert_eq!(
        Site::fetch_list(&dnac, Some(&by_type), Some(page)).query,
        vec![
            ("offset".to_string(), "1".to_string()),
            ("limit".to_string(), "10".to_string()),
            ("type".to_string(), "floor".to_string()),
        ]
    );
}

#[test]
fn an_identifier_is_written_hyphenated_in_lower_case() {
    let dnac = session();
    let by_id = SiteFilter::SiteID(0x67E5504410B1426F9247BB680E5FE0C8);
    assert_eq!(
        Sites::get_site(&dnac, Some(&by_id), None).query,
        vec![("siteId".to_string(), "67e55044-10b1-426f-9247-bb680e5fe0c8".to_string())]
    );
    let small = SiteFilter::SiteID(0x1f);
    assert_eq!(
        Sites::get_site(&dnac, Some(&small), None).query,
        vec![("siteId".to_string(), "00000000-0000-0000-0000-00000000001f".to_string())]
    );
    let large = SiteFilter::SiteID(u128::MAX);
    assert_eq!(
        Sites::get_site(&dnac, Some(&large), None).query,
        vec![("siteId".to_string(), "ffffffff-ffff-ffff-ffff-ffffffffffff".to_string())]
    );
    let mixed = SiteFilter::SiteID(0xa1a2a3a4b1b2c1c2d1d2d3d4d5d6d7d8);
    assert_eq!(
        Sites::get_site(&dnac, Some(&mixed), None).query,
        vec![("siteId".to_string(), "a1a2a3a4-b1b2-c1c2-d1d2-d3d4d5d6d7d8".to_string())]
    );
}

#[test]
fn the_sites_of_a_reply_come_back_parsed() {
    let body = format!(r#"{{"response": [{}, {}, {}]}}"#, BUILDING, AREA, PLAIN);
    let sites = Sites::read_sites(&reply(200, &body)).unwrap();
    assert_eq!(sites.len(), 3);
    assert_eq!(sites[0].name, "HQ");
    assert_eq!(sites[0].get_country(), "Germany");
    assert_eq!(sites[1].name, "Berlin");
    assert_eq!(sites[1].get_location_type(), "area");
    assert_eq!(sites[2].name, "Global");
    assert_eq!(sites[2].get_location_type(), "");
    let single = format!(r#"{{"response": {}}}"#, BUILDING);
    let sites = Site::read_list(&reply(200, &single)).unwrap();
    assert_eq!(sites.len(), 1);
    assert_eq!(sites[0].get_longitude(), "13.4");
    assert_eq!(Sites::read_sites(&reply(200, r#"{"response": []}"#)), Ok(vec![]));
}

#[test]
fn the_error_for_an_unknown_site_is_told_apart() {
    assert_eq!(NO_SUCH_SITE, "NCGR10008");
    let unknown = r#"{"message": ["m"], "response": {"errorCode": "NCGR10008", "message": "m", "href": "h"}}"#;
    assert_eq!(Sites::read_sites(&reply(500, unknown)), Err(SiteError::InvalidSite));
    let other = r#"{"message": ["m"], "response": {"errorCode": "NCGR10009", "message": "m", "href": "h"}}"#;
    assert_eq!(Sites::read_sites(&reply(500, other)), Err(SiteError::GeneralError));
}

#[test]
fn every_other_failure_of_a_list_is_the_general_error() {
    assert_eq!(Sites::read_sites(&reply(500, "{}")), Err(SiteError::GeneralError));
    assert_eq!(Sites::read_sites(&reply(404, "{}")), Err(SiteError::GeneralError));
    assert_eq!(Sites::read_sites(&reply(200, "{}")), Err(SiteError::GeneralError));
    assert_eq!(Sites::read_sites(&Reply { status: 200, body: None }), Err(SiteError::GeneralError));
    let unreadable = format!(
        r#"{{"response": [{}, {{"id": "00000000-0000-0000-0000-000000000004",
        "groupNameHierarchy": "a", "groupHierarchy": "b", "name": "c",
        "additionalInfo": [{{"nameSpace": "Location"}}]}}]}}"#,
        BUILDING
    );
    assert_eq!(Sites::read_sites(&reply(200, &unreadable)), Err(SiteError::GeneralError));
}

#[test]
fn the_fetch_of_all_sites_asks_with_the_kind() {
    let dnac = session();
    let mut fetch = Sites::get_all_sites(Some(SiteType::Building));
    assert_eq!(
        fetch.next_request(&dnac).unwrap().query,
        vec![
            ("offset".to_string(), "1".to_string()),
            ("limit".to_string(), "500".to_string()),
            ("type".to_string(), "building".to_string()),
        ]
    );
    assert!(fetch.accept(vec![site(BUILDING), site(AREA)]));
    assert!(!fetch.accept(vec![site(AREA)]));
    assert_eq!(fetch.into_items().len(), 2);
    let any = Sites::get_all_sites(None);
    assert_eq!(
        any.next_request(&dnac).unwrap().query,
        vec![("offset".to_string(), "1".to_string()), ("limit".to_string(), "500".to_string())]
    );
}

#[test]
fn a_site_is_assembled_around_its_identifier() {
    let s = Site::assemble(Some(42), &json(PLAIN)).unwrap();
    assert_eq!(s.id, 42);
    assert_eq!(s.name, "Global");
    assert_eq!(Site::assemble(None, &json(PLAIN)), None);
    assert_eq!(Site::assemble(Some(42), &json(r#"{"name": "x"}"#)), None);
}
