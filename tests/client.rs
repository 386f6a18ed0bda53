use destiny_api::client::{encode_url, parse_response, ApiClient, ApiError, HttpMethod, TransportError};
use destiny_api::user::ProfileEnvelope;

const PROFILE_BODY: &str = r#"{
  "Response": {
    "profile": {
      "data": {
        "userInfo": {
          "crossSaveOverride": 0,
          "applicableMembershipTypes": [3],
          "isPublic": true,
          "membershipType": 3,
          "membershipId": "4611686018468620320",
          "displayName": "dec4234",
          "bungieGlobalDisplayName": "dec4234",
          "bungieGlobalDisplayNameCode": 9904
        },
        "dateLastPlayed": "2022-02-06T21:12:49Z",
        "characterIds": ["2305843009301086414", "2305843009301086415"]
      },
      "privacy": 1
    }
  },
  "ErrorCode": 1,
  "ThrottleSeconds": 0,
  "ErrorStatus": "Success",
  "Message": "Ok",
  "MessageData": {}
}"#;

#[test]
fn new_client_has_debug_off() {
    let c = ApiClient::new("KEY");
    assert!(!c.is_debug_enabled());
    assert_eq!(c.api_key(), "KEY");
    let c = c.enable_debug_mode();
    assert!(c.is_debug_enabled());
    let c = c.with_debug_logging(false);
    assert!(!c.is_debug_enabled());
    let d = c.clone();
    assert_eq!(d.api_key(), "KEY");
    assert!(!d.is_debug_enabled());
}

#[test]
fn get_carries_one_key_header() {
    let c = ApiClient::new("secret-key");
    let r = c.get(String::from("https://example.org/a"));
    assert_eq!(r.method, HttpMethod::Get);
    assert_eq!(r.url, "https://example.org/a");
    let named: Vec<&(String, String)> = r.headers.iter().filter(|h| h.0 == "X-API-KEY").collect();
    assert_eq!(named.len(), 1);
    assert_eq!(named[0].1, "secret-key");
    assert!(r.query.is_empty());
    assert!(r.body.is_none());
}

#[test]
fn query_pairs_each_appear_once() {
    let c = ApiClient::new("k");
    let params = vec![
        (String::from("components"), String::from("100")),
        (String::from("page"), String::from("2")),
        (String::from("mode"), String::from("84")),
    ];
    let r = c.get_params(String::from("https://example.org/p"), params.clone());
    for p in &params {
        assert_eq!(r.query.iter().filter(|q| *q == p).count(), 1);
    }
    assert_eq!(r.query.len(), 3);
}

#[test]
fn post_sends_body_unchanged() {
    let c = ApiClient::new("k");
    let body = String::from("{\"displayNamePrefix\":\"Gho st\",\"n\": 1}");
    let r = c.post(String::from("https://example.org/s"), body.clone());
    assert_eq!(r.method, HttpMethod::Post);
    assert_eq!(r.body.as_deref(), Some(body.as_str()));
    let r = c.post_params(
        String::from("https://example.org/s"),
        body.clone(),
        vec![(String::from("a"), String::from("b"))],
    );
    assert_eq!(r.body, Some(body));
    assert_eq!(r.query, vec![(String::from("a"), String::from("b"))]);
    assert_eq!(r.headers, vec![(String::from("X-API-KEY"), String::from("k"))]);
}

#[test]
fn debug_setting_changes_only_logs() {
    let quiet = ApiClient::new("k");
    let loud = ApiClient::new("k").enable_debug_mode();
    let rq = quiet.post(String::from("https://example.org/x"), String::from("{}"));
    let rl = loud.post(String::from("https://example.org/x"), String::from("{}"));
    assert_eq!(rq.url, rl.url);
    assert_eq!(rq.headers, rl.headers);
    assert_eq!(rq.body, rl.body);
    let a = quiet.receive(&rq, Ok(String::from("answer")));
    let b = loud.receive(&rl, Ok(String::from("answer")));
    assert!(matches!(a.result, Ok(ref t) if t == "answer"));
    assert!(matches!(b.result, Ok(ref t) if t == "answer"));
    assert!(a.log.is_empty());
    assert_eq!(
        b.log,
        vec![
            String::from("POST https://example.org/x"),
            String::from("Body - {}"),
            String::from("answer"),
        ]
    );
    let g = loud.get(String::from("https://example.org/g"));
    let c = loud.receive(&g, Ok(String::from("text")));
    assert_eq!(c.log, vec![String::from("GET https://example.org/g"), String::from("text")]);
}

#[test]
fn transport_failure_passes_through() {
    let c = ApiClient::new("k").enable_debug_mode();
    let r = c.get(String::from("https://example.org/x"));
    let done = c.receive(&r, Err(TransportError { message: String::from("connection refused") }));
    assert!(matches!(done.result, Err(ApiError::Transport(ref m)) if m == "connection refused"));
    assert!(done.log.is_empty());
    let parsed = parse_response::<ProfileEnvelope>(done.result);
    assert!(matches!(parsed, Err(ApiError::Transport(_))));
}

#[test]
fn profile_scenario_reads_membership_id() {
    let c = ApiClient::new("k");
    let r = ProfileEnvelope::get_profile(
        &c,
        destiny_api::user::DestinyPlatform::Steam,
        "4611686018468620320",
        "100",
    );
    assert_eq!(r.url, "https://www.bungie.net/Platform/Destiny2/3/Profile/4611686018468620320/");
    assert_eq!(r.query, vec![(String::from("components"), String::from("100"))]);
    let done = c.receive(&r, Ok(String::from(PROFILE_BODY)));
    let text = done.result.as_ref().ok().unwrap();
    assert!(text.contains("\"Response\""));
    let env = parse_response::<ProfileEnvelope>(done.result).ok().unwrap();
    let data = env.response.profile.data;
    assert_eq!(data.user_info.id, "4611686018468620320");
    assert_eq!(data.user_info.platform, 3);
    assert_eq!(data.user_info.discriminator, 9904);
    assert_eq!(data.user_info.membership_types, vec![3]);
    assert_eq!(data.character_ids.len(), 2);
    assert_eq!(data.date_last_played.unwrap().to_string(), "2022-02-06 21:12:49");
}

#[test]
fn malformed_post_response_is_deserialization_error() {
    let c = ApiClient::new("k");
    let r = c.post(String::from("https://example.org/x"), String::from("{}"));
    let done = c.receive(&r, Ok(String::from("not json")));
    let parsed = parse_response::<ProfileEnvelope>(done.result);
    assert!(matches!(parsed, Err(ApiError::Deserialization)));
}

#[test]
fn json_missing_required_field_is_deserialization_error() {
    let body = String::from(r#"{"Response": {"profile": {"data": {"userInfo": {"membershipId": "1"}}}}}"#);
    let parsed = parse_response::<ProfileEnvelope>(Ok(body));
    assert!(matches!(parsed, Err(ApiError::Deserialization)));
    let wrong_type = String::from(
        r#"{"Response": {"profile": {"data": {"userInfo": {"membershipId": 1, "membershipType": 3, "crossSaveOverride": 0, "isPublic": true}}}}}"#,
    );
    assert!(matches!(parse_response::<ProfileEnvelope>(Ok(wrong_type)), Err(ApiError::Deserialization)));
}

#[test]
fn spaces_in_urls_are_encoded() {
    assert_eq!(encode_url(String::from("a b  c")), "a%20b%20%20c");
    assert_eq!(encode_url(String::from("")), "");
    assert_eq!(encode_url(String::from("Heavenly Mayhem")), "Heavenly%20Mayhem");
}
