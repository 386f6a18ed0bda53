use destiny_api::client::{ApiClient, ApiError};
use destiny_api::manifest::{
    reward_from_definition, Manifest, ManifestEntityType, ManifestError, ManifestLanguage,
};

fn group(id: &str, entries: &str) -> String {
    format!(
        r#""{id}": {{"categoryHash": {id}, "categoryIdentifier": "c{id}",
           "displayProperties": {{"description": "", "name": "Week", "hasIcon": false}},
           "rewardEntries": {{ {entries} }} }}"#
    )
}

fn reward(hash: &str, name: &str) -> String {
    format!(
        r#""{hash}": {{"rewardEntryHash": {hash}, "rewardEntryIdentifier": "{name}",
           "items": [{{"itemHash": 1, "quantity": 2, "hasConditionalVisibility": false}}],
           "vendorHash": 3, "order": 0, "earnedUnlockHash": 4, "redeemedUnlockHash": 5,
           "displayProperties": {{"description": "d", "name": "{name}", "icon": "/i.png", "hasIcon": true}} }}"#
    )
}

fn milestone() -> String {
    let current = group("1064137897", &format!("{}, {}", reward("3789021730", "Nightfall"), reward("2043403989", "Raid")));
    let previous = group("4258746474", &reward("1478801436", "Crucible"));
    format!(r#"{{"Response": {{"hash": 4253138191, "rewards": {{ {current}, {previous} }} }}, "ErrorCode": 1}}"#)
}

#[test]
fn weekly_reward_read_by_entry_hash() {
    let text = milestone();
    let info = reward_from_definition(&text, 3789021730).ok().unwrap();
    assert_eq!(info.display_properties.name, "Nightfall");
    assert_eq!(info.items.len(), 1);
    assert_eq!(info.items[0].quantity, 2);
    assert_eq!(info.display_properties.icon.as_deref(), Some("/i.png"));
    let info = reward_from_definition(&text, 1478801436).ok().unwrap();
    assert_eq!(info.reward_entry_identifier, "Crucible");
    assert!(matches!(reward_from_definition(&text, 248695599), Err(ManifestError::RewardMissing)));
    assert!(matches!(reward_from_definition(&text, 42), Err(ManifestError::UnknownRewardEntry)));
    assert!(matches!(
        reward_from_definition("{}", 3789021730),
        Err(ManifestError::Api(ApiError::Deserialization))
    ));
}

#[test]
fn manifest_test() {
    let man = Manifest::new(ApiClient::new("k"));
    for s in ["2318521576", "3711627564", "3725993747", "2630091891", "4134816102"] {
        let r = man.manifest_get(ManifestEntityType::ACTIVITY, String::from(s));
        assert_eq!(
            r.url,
            format!("https://www.bungie.net/Platform/Destiny2/Manifest/DestinyActivityDefinition/{}/", s)
        );
    }
    let r = man.manifest(ManifestEntityType::MILESTONE, 4253138191);
    assert_eq!(
        r.url,
        "https://www.bungie.net/Platform/Destiny2/Manifest/DestinyMilestoneDefinition/4253138191/"
    );
    let r = man.manifest_reward(4253138191);
    assert_eq!(r.url, "https://www.bungie.net/Platform/Destiny2/Manifest/DestinyMilestoneDefinition/4253138191/");
    assert_eq!(man.get_manifest_info().url, "https://www.bungie.net/Platform/Destiny2/Manifest/");
}

#[test]
fn kinds_and_languages_have_api_names() {
    assert_eq!(ManifestEntityType::INVENTORYITEM.get(), "DestinyInventoryItemDefinition");
    assert_eq!(ManifestEntityType::TAGMETADATA.get(), "TagMetadataDefinition");
    assert_eq!(ManifestEntityType::UNLOCK.get(), "DestinyUnlockDefinition");
    assert_eq!(ManifestLanguage::EspanolMexico.get(), "es-mx");
    assert_eq!(ManifestLanguage::ChineseSimplified.get(), "zh-chs");
}
