use destiny_api::client::ApiClient;
use destiny_api::user::{
    bungie_name_search_body, first_name_match, get_primary_partial_profile, get_primary_profile, name_prefix_search_body,
    search_page, split_bungie_name, user_of_match, ApiInterface, BungieUser, DestinyPlatform,
    DestinyProfile, LookupError, PartialProfile, SearchPage,
};

const LINKED_PROFILES: &str = r#"{
   "Response":{
      "profiles":[
         {
            "dateLastPlayed":"2022-02-06T21:12:49Z",
            "isOverridden":false,
            "isCrossSavePrimary":false,
            "crossSaveOverride":0,
            "applicableMembershipTypes":[3],
            "isPublic":false,
            "membershipType":3,
            "membershipId":"4611686018468620320",
            "displayName":"dec4234",
            "bungieGlobalDisplayName":"dec4234",
            "bungieGlobalDisplayNameCode":9904
         }
      ],
      "bnetMembership":{
         "supplementalDisplayName":"dec4234#9904",
         "iconPath":"/img/profile/avatars/cc14.jpg",
         "crossSaveOverride":0,
         "isPublic":false,
         "membershipType":254,
         "membershipId":"17506516",
         "displayName":"dec4234",
         "bungieGlobalDisplayName":"dec4234",
         "bungieGlobalDisplayNameCode":9904
      },
      "profilesWithErrors":[]
   },
   "ErrorCode":1,
   "ThrottleSeconds":0,
   "ErrorStatus":"Success",
   "Message":"Ok",
   "MessageData":{}
}"#;

fn profile(id: &str, platform: i16, cross_save_override: i16) -> DestinyProfile {
    let mut p = DestinyProfile::default();
    p.id = String::from(id);
    p.platform = platform;
    p.cross_save_override = cross_save_override;
    p
}

#[test]
fn platform_codes_round_trip() {
    let all = [
        DestinyPlatform::NoPlatform,
        DestinyPlatform::Xbox,
        DestinyPlatform::PSN,
        DestinyPlatform::Steam,
        DestinyPlatform::Blizzard,
        DestinyPlatform::Stadia,
        DestinyPlatform::Demon,
        DestinyPlatform::BungieNext,
        DestinyPlatform::All,
    ];
    let codes = [0, 1, 2, 3, 4, 5, 10, 254, -1];
    for (p, c) in all.iter().zip(codes.iter()) {
        assert_eq!(p.get_code(), *c);
        assert_eq!(DestinyPlatform::from_code(*c), Some(*p));
    }
    assert_eq!(DestinyPlatform::from_code(6), None);
    assert_eq!(DestinyPlatform::from_code(-2), None);
}

#[test]
fn linked_profiles_response_reads_as_user() {
    let user = BungieUser::new(LINKED_PROFILES).ok().unwrap();
    assert_eq!(user.memberships.len(), 1);
    assert_eq!(user.primary.id, "4611686018468620320");
    assert_eq!(user.primary.platform, 3);
    assert_eq!(user.primary.platform_display_name, "dec4234");
    assert_eq!(user.primary.discriminator, 9904);
    assert_eq!(user.primary.is_overridden, Some(false));
    assert_eq!(user.primary.last_seen_display_name, None);
    assert_eq!(user.primary.date_last_played.unwrap().to_string(), "2022-02-06 21:12:49");
    assert_eq!(user.primary.get_platform(), Some(DestinyPlatform::Steam));
    assert_eq!(user.bnet_membership.combined_name, "dec4234#9904");
    assert_eq!(user.bnet_membership.bnet_membership_id, "17506516");
}

#[test]
fn user_without_primary_profile_is_refused() {
    let text = LINKED_PROFILES.replace("\"crossSaveOverride\":0,\n            \"applicableMembershipTypes\"", "\"crossSaveOverride\":2,\n            \"applicableMembershipTypes\"");
    assert!(matches!(BungieUser::new(&text), Err(LookupError::NoPrimaryProfile)));
    assert!(matches!(BungieUser::new("not json"), Err(LookupError::Api(_))));
    assert!(matches!(BungieUser::new("{\"Response\":{}}"), Err(LookupError::Api(_))));
}

#[test]
fn primary_profile_is_first_with_matching_override() {
    let list = vec![profile("a", 1, 3), profile("b", 3, 3), profile("c", 2, 0)];
    assert_eq!(get_primary_profile(list).unwrap().id, "b");
    let list = vec![profile("a", 1, 3), profile("c", 2, 0)];
    assert_eq!(get_primary_profile(list).unwrap().id, "c");
    let list = vec![profile("a", 1, 3), profile("b", 2, 3)];
    assert!(get_primary_profile(list).is_none());
    assert!(get_primary_profile(Vec::new()).is_none());
}

#[test]
fn test_name_splitting() {
    assert!(matches!(split_bungie_name("dec4234"), Err(LookupError::MalformedName(ref n)) if n == "dec4234"));
    assert!(matches!(split_bungie_name("a#b#c"), Err(LookupError::MalformedName(ref n)) if n == "a#b#c"));
    let (name, code) = split_bungie_name("dec4234#9904").ok().unwrap();
    assert_eq!(name, "dec4234");
    assert_eq!(code, "9904");
    let (name, code) = split_bungie_name("#").ok().unwrap();
    assert_eq!(name, "");
    assert_eq!(code, "");
    let c = ApiClient::new("k");
    assert!(matches!(
        BungieUser::get_user_by_name_and_discrim_with_platform(&c, "dec4234", DestinyPlatform::All),
        Err(LookupError::MalformedName(ref n)) if n == "dec4234"
    ));
}

#[test]
fn get_user_by_name_and_discriminator_and_characters() {
    let c = ApiClient::new("k");
    let r = BungieUser::get_user_by_name_and_discrim_with_platform(&c, "dec4234#9904", DestinyPlatform::All)
        .ok()
        .unwrap();
    assert_eq!(r.url, "https://www.bungie.net/Platform/Destiny2/SearchDestinyPlayerByBungieName/-1/");
    assert_eq!(r.body.unwrap(), "{\"displayName\":\"dec4234\",\"displayNameCode\":\"9904\"}");
    let found = first_name_match(
        r#"{"Response":[{"membershipId":"4611686018468620320","membershipType":3,"crossSaveOverride":0}],"ErrorCode":1}"#,
    )
    .ok()
    .unwrap();
    assert_eq!(found.membership_id, "4611686018468620320");
    let next = user_of_match(&c, found).ok().unwrap();
    assert_eq!(
        next.url,
        "https://www.bungie.net/Platform/Destiny2/3/Profile/4611686018468620320/LinkedProfiles/"
    );
    let user = BungieUser::new(LINKED_PROFILES).ok().unwrap();
    let chars = user.get_characters(&c);
    assert_eq!(
        chars.url,
        "https://www.bungie.net/Platform/Destiny2/3/Profile/4611686018468620320/?components=Characters"
    );
}

#[test]
fn name_search_errors() {
    assert!(matches!(first_name_match(r#"{"Response":[]}"#), Err(LookupError::NoMatch)));
    assert!(matches!(first_name_match("[]"), Err(LookupError::Api(_))));
    let c = ApiClient::new("k");
    let found = first_name_match(
        r#"{"Response":[{"membershipId":"1","membershipType":7,"crossSaveOverride":0}]}"#,
    )
    .ok()
    .unwrap();
    assert!(matches!(user_of_match(&c, found), Err(LookupError::UnknownPlatform(7))));
}

#[test]
fn bodies_are_quoted_json() {
    assert_eq!(name_prefix_search_body("Ghost"), "{\"displayNamePrefix\":\"Ghost\"}");
    assert_eq!(name_prefix_search_body("a\"b"), "{\"displayNamePrefix\":\"a\\\"b\"}");
    assert_eq!(bungie_name_search_body("x", "1"), "{\"displayName\":\"x\",\"displayNameCode\":\"1\"}");
}

#[test]
fn get_users_by_name() {
    let c = ApiClient::new("k");
    let r = BungieUser::get_users_with_name(&c, "Ghost", 2);
    assert_eq!(r.url, "https://www.bungie.net/Platform/User/Search/GlobalName/2/");
    assert_eq!(r.body.unwrap(), "{\"displayNamePrefix\":\"Ghost\"}");
    let page = r#"{"Response":{"searchResults":[
        {"destinyMemberships":[
            {"membershipId":"1","membershipType":1,"crossSaveOverride":3,"isPublic":true},
            {"membershipId":"2","membershipType":3,"crossSaveOverride":3,"isPublic":true}]},
        {"destinyMemberships":[]},
        {"destinyMemberships":[
            {"membershipId":"3","membershipType":2,"crossSaveOverride":0,"isPublic":false}]}
    ],"page":0,"hasMore":false}}"#;
    match search_page(page) {
        Ok(SearchPage::Results(found)) => {
            let ids: Vec<&str> = found.iter().map(|p| p.id.as_str()).collect();
            assert_eq!(ids, vec!["2", "3"]);
        }
        _ => panic!("page not read"),
    }
    assert!(matches!(search_page(r#"{"Response":{"page":4}}"#), Ok(SearchPage::End)));
    assert!(matches!(search_page(r#"{"Response":5}"#), Ok(SearchPage::End)));
    assert!(matches!(search_page("<html>"), Err(LookupError::Api(_))));
    assert!(matches!(
        search_page(r#"{"Response":{"searchResults":[{"destinyMemberships":[{"membershipId":1}]}]}}"#),
        Err(LookupError::Api(_))
    ));
}

#[test]
fn get_user() {
    let api = ApiInterface::new("k", true);
    assert!(api.client.is_debug_enabled());
    let r = api.get_user_by_id(String::from("4611686018468620320"), DestinyPlatform::Steam);
    assert_eq!(
        r.url,
        "https://www.bungie.net/Platform/Destiny2/3/Profile/4611686018468620320/LinkedProfiles/"
    );
    assert_eq!(r.headers, vec![(String::from("X-API-KEY"), String::from("k"))]);
}

#[test]
fn primary_partial_profile_and_user_of_profile() {
    let p = |id: &str, t: i16, o: i16| PartialProfile {
        membership_id: String::from(id),
        membership_type: t,
        cross_save_override: o,
    };
    let found = get_primary_partial_profile(vec![p("a", 1, 2), p("b", 2, 2), p("c", 3, 0)]).unwrap();
    assert_eq!(found.membership_id, "b");
    assert!(get_primary_partial_profile(vec![p("a", 1, 2)]).is_none());
    let c = ApiClient::new("k");
    let user = BungieUser::new(LINKED_PROFILES).ok().unwrap();
    let r = user.primary.get_bungie_user(&c).unwrap();
    assert_eq!(
        r.url,
        "https://www.bungie.net/Platform/Destiny2/3/Profile/4611686018468620320/LinkedProfiles/"
    );
    assert!(profile("x", 9, 0).get_bungie_user(&c).is_none());
}

#[test]
fn optional_and_defaulted_fields() {
    let text = r#"{"Response":{"profiles":[{"membershipId":"7","membershipType":2,"crossSaveOverride":0,
        "isPublic":true,"isOverridden":null,"LastSeenDisplayNameType":null}],
        "bnetMembership":{"supplementalDisplayName":"a#1","displayName":"a","iconPath":"/i.jpg","membershipId":"1"}}}"#;
    let user = BungieUser::new(text).ok().unwrap();
    assert_eq!(user.primary.is_overridden, None);
    assert_eq!(user.primary.last_seen_display_name_type, None);
    assert_eq!(user.primary.global_display_name, "");
    assert_eq!(user.primary.discriminator, 0);
    assert!(user.primary.membership_types.is_empty());
    assert!(user.primary.date_last_played.is_none());
    let null_default = text.replace("\"isOverridden\":null", "\"bungieGlobalDisplayName\":null");
    assert!(matches!(BungieUser::new(&null_default), Err(LookupError::Api(_))));
    let bad_date = text.replace("\"isOverridden\":null", "\"dateLastPlayed\":\"yesterday\"");
    assert!(matches!(BungieUser::new(&bad_date), Err(LookupError::Api(_))));
    let out_of_range = text.replace("\"membershipType\":2", "\"membershipType\":70000");
    assert!(matches!(BungieUser::new(&out_of_range), Err(LookupError::Api(_))));
    let empty = text.replace(
        r#"[{"membershipId":"7","membershipType":2,"crossSaveOverride":0,
        "isPublic":true,"isOverridden":null,"LastSeenDisplayNameType":null}]"#,
        "[]",
    );
    assert!(matches!(BungieUser::new(&empty), Err(LookupError::NoPrimaryProfile)));
}
