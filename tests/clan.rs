use destiny_api::clan::{members_from_response, weekly_rewards_from_response, Clan};
use destiny_api::client::{ApiClient, ApiError};
use destiny_api::item::Item;

const MEMBER: &str = r#"{
  "memberType": 5, "isOnline": false, "lastOnlineStatusChange": "1652118342",
  "groupId": "3074427",
  "destinyUserInfo": {"LastSeenDisplayName": "dec4234", "LastSeenDisplayNameType": 3,
     "isPublic": true, "membershipType": 3, "membershipId": "4611686018468620320",
     "displayName": "dec4234", "bungieGlobalDisplayName": "dec4234",
     "bungieGlobalDisplayNameCode": 9904, "crossSaveOverride": 0},
  "bungieNetUserInfo": {"supplementalDisplayName": "dec4234#9904", "iconPath": "/img.jpg",
     "membershipId": "17506516", "displayName": "dec4234"},
  "joinDate": "2018-04-05T18:10:58Z"
}"#;

fn clan_text() -> String {
    format!(
        r#"{{"Response": {{
  "detail": {{
    "groupId": "3074427", "name": "Heavenly Mayhem", "groupType": 1,
    "membershipIdCreated": "17506516",
    "creationDate": "2018-04-05T18:10:58.836Z", "modificationDate": "2021-05-13T11:40:48.856Z",
    "about": "About", "tags": [], "memberCount": 78, "isPublic": true,
    "isPublicTopicAdminOnly": false, "motto": "Agents of the Last Safe City on Earth",
    "allowChat": true, "isDefaultPostPublic": false, "chatSecurity": 0, "locale": "en",
    "avatarImageIndex": 0, "homepage": 0, "membershipOption": 0, "defaultPublicity": 2,
    "theme": "Group_Community1", "bannerPath": "/b.jpg", "avatarPath": "/a.png",
    "conversationId": "6138548", "enableInvitationMessagingForAdmins": false,
    "banExpireDate": "2001-01-01T00:00:00Z",
    "features": {{"maximumMembers": 100, "maximumMembershipsOfGroupType": 1, "capabilities": 31,
       "membershipTypes": [1, 2, 3, 5], "invitePermissionOverride": true,
       "updateCulturePermissionOverride": false, "hostGuidedGamePermissionOverride": 1,
       "updateBannerPermissionOverride": false, "joinLevel": 1}},
    "clanInfo": {{"d2ClanProgressions": {{}}, "clanCallsign": "HeM", "clanBannerData": {{}}}}
  }},
  "founder": {MEMBER},
  "alliedIds": [], "allianceStatus": 0, "groupJoinInviteCount": 0,
  "currentUserMembershipsInactiveForDestiny": false
}}, "ErrorCode": 1}}"#
    )
}

#[test]
fn get_clan_by_id() {
    let c = ApiClient::new("k");
    let r = Clan::get_by_id(&c, 3074427);
    assert_eq!(r.url, "https://www.bungie.net/Platform/GroupV2/3074427/");
    let clan = Clan::from_string_response(&clan_text()).ok().unwrap();
    assert_eq!(clan.detail.name, "Heavenly Mayhem");
    assert_eq!(clan.detail.member_count, 78);
    assert_eq!(clan.detail.creation_date.to_string(), "2018-04-05 18:10:58");
    assert_eq!(clan.detail.features.membership_types, vec![1, 2, 3, 5]);
    assert_eq!(clan.detail.clan_info.clan_callsign, "HeM");
    assert_eq!(clan.founder.destiny_user_info.last_seen_display_name.as_deref(), Some("dec4234"));
    assert_eq!(clan.founder.join_date.to_string(), "2018-04-05 18:10:58");
    assert!(matches!(Clan::from_string_response("{}"), Err(ApiError::Deserialization)));
    let too_many = clan_text().replace("\"memberCount\": 78", "\"memberCount\": 300");
    assert!(matches!(Clan::from_string_response(&too_many), Err(ApiError::Deserialization)));
}

#[test]
fn get_clan_by_name() {
    let c = ApiClient::new("k");
    let r = Clan::get_by_name(&c, "Heavenly Mayhem");
    assert_eq!(r.url, "https://www.bungie.net/Platform/GroupV2/Name/Heavenly%20Mayhem/1/");
}

#[test]
fn clan_members() {
    let c = ApiClient::new("k");
    let clan = Clan::from_string_response(&clan_text()).ok().unwrap();
    assert_eq!(clan.get_members(&c).url, "https://www.bungie.net/Platform/GroupV2/3074427/Members/");
    let text = format!(r#"{{"Response": {{"results": [{MEMBER}, {MEMBER}], "totalResults": 2}}}}"#);
    let members = members_from_response(&text).ok().unwrap();
    assert_eq!(members.len(), 2);
    assert_eq!(members[1].is_online, Some(false));
    assert_eq!(members[0].bungie_net_user_info.bnet_membership_id, "17506516");
}

#[test]
fn clan_weekly_rewards() {
    let c = ApiClient::new("k");
    let clan = Clan::from_string_response(&clan_text()).ok().unwrap();
    assert_eq!(
        clan.get_weekly_rewards(&c).url,
        "https://www.bungie.net/Platform/Destiny2/Clan/3074427/WeeklyRewardState/"
    );
    let text = r#"{"Response": {"milestoneHash": 4253138191, "rewards": [{"rewardCategoryHash": 1064137897,
        "entries": [{"rewardEntryHash": 3789021730, "earned": true, "redeemed": false}]}]}}"#;
    let w = weekly_rewards_from_response(text).ok().unwrap();
    assert_eq!(w.milestone_hash, 4253138191);
    assert_eq!(w.rewards[0].entries[0].reward_entry_hash, 3789021730);
    assert!(w.rewards[0].entries[0].earned);
}

#[test]
fn items_are_known_by_hash() {
    let item = Item::new(1363886209);
    assert_eq!(item.hash, 1363886209);
    let r = Item::search(&ApiClient::new("k"), "Gjallarhorn");
    assert_eq!(
        r.url,
        "https://www.bungie.net/Platform/Destiny2/Armory/Search/DestinyInventoryItemDefinition/Gjallarhorn/"
    );
}
