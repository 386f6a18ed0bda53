use destiny_api::activity::{ActivityIdentifier, ActivityMode, PgcrScraper};
use destiny_api::client::ApiClient;
use destiny_api::user::BungieUser;

#[test]
fn identifiers_found_by_hash() {
    assert_eq!(
        ActivityIdentifier::from_identifier(String::from("2318521576")),
        Some(ActivityIdentifier::LakeOfShadows)
    );
    assert_eq!(
        ActivityIdentifier::from_identifier(String::from("1666283939")),
        Some(ActivityIdentifier::Broodhold)
    );
    assert_eq!(
        ActivityIdentifier::from_identifier(String::from("442671778")),
        Some(ActivityIdentifier::ArmsDealer)
    );
    assert_eq!(ActivityIdentifier::from_identifier(String::from("3849697856")), None);
    assert_eq!(ActivityIdentifier::from_identifier(String::new()), None);
    let (mode, ids) = ActivityIdentifier::DevilsLair.get();
    assert_eq!(mode, ActivityMode::Strike);
    assert_eq!(ids, vec![String::from("969982762")]);
    assert_eq!(ActivityIdentifier::get_all().len(), 19);
}

#[test]
fn modes_map_to_codes() {
    assert_eq!(ActivityMode::Raid.get(), 4);
    assert_eq!(ActivityMode::TrialsOfOsiris.get(), 84);
    assert_eq!(ActivityMode::NoMode.get(), 0);
    assert_eq!(ActivityMode::from(82), Some(ActivityMode::Dungeon));
    assert_eq!(ActivityMode::from(86), Some(ActivityMode::Offensive));
    assert_eq!(ActivityMode::from(1), None);
    assert_eq!(ActivityMode::from(87), None);
}

#[test]
fn test_pgcr_trials() {
    let scraper = PgcrScraper::new(&ApiClient::new("k"));
    let r = scraper.get_pgcr_raw(9496960718);
    assert_eq!(
        r.url,
        "https://stats.bungie.net/Platform/Destiny2/Stats/PostGameCarnageReport/9496960718/"
    );
    let r = scraper.clone().get_pgcr_raw(10405562745);
    assert_eq!(
        r.url,
        "https://stats.bungie.net/Platform/Destiny2/Stats/PostGameCarnageReport/10405562745/"
    );
}

#[test]
fn activity_history_pages() {
    let text = r#"{"Response":{"profiles":[{"membershipId":"4611686018468620320","membershipType":3,"crossSaveOverride":0,"isPublic":true}],
        "bnetMembership":{"supplementalDisplayName":"a#1","displayName":"a","iconPath":"/i.jpg","membershipId":"1"}}}"#;
    let user = BungieUser::new(text).ok().unwrap();
    let scraper = PgcrScraper::new(&ApiClient::new("k"));
    let r = scraper.get_activity_history(&user, "2305843009301086414", ActivityMode::ScoredNightfall, 3);
    assert_eq!(
        r.url,
        "https://www.bungie.net/Platform/Destiny2/3/Account/4611686018468620320/Character/2305843009301086414/Stats/Activities/?count=250&mode=46&page=3"
    );
}
