//! Clans: their details, members and weekly rewards.
use vstd::prelude::*;
use crate::client::{
    ApiClient, ApiError, HttpMethod, HttpRequest, api_base, encode_url, encoded_url, request_for,
    url_base,
};
use crate::json::{JsonDecode, decode_document_at, member, member_ptr, readable_at};
use crate::text::{signed_decimal, signed_text};
use crate::time::Timestamp;
use crate::user::{BnetMembership, DestinyProfile};

verus! {

/// A clan: its details, its alliances and its founder.
#[derive(Clone, Debug)]
pub struct Clan {
    pub detail: ClanDetail,
    pub allied_ids: Vec<i32>,
    pub alliance_status: i32,
    pub group_join_invite_count: i32,
    pub current_user_memberships_inactive_for_destiny: bool,
    pub founder: ClanMember,
}

impl JsonDecode for Clan {
    open spec fn decodable(text: Seq<char>, at: Seq<char>) -> bool {
        &&& <ClanDetail as JsonDecode>::decodable(text, member(at, "/detail"@))
        &&& <Vec<i32> as JsonDecode>::decodable(text, member(at, "/alliedIds"@))
        &&& <i32 as JsonDecode>::decodable(text, member(at, "/allianceStatus"@))
        &&& <i32 as JsonDecode>::decodable(text, member(at, "/groupJoinInviteCount"@))
        &&& <bool as JsonDecode>::decodable(
            text,
            member(at, "/currentUserMembershipsInactiveForDestiny"@),
        )
        &&& <ClanMember as JsonDecode>::decodable(text, member(at, "/founder"@))
    }

    open spec fn decodes_to(text: Seq<char>, at: Seq<char>, v: Clan) -> bool {
        &&& <ClanDetail as JsonDecode>::decodes_to(text, member(at, "/detail"@), v.detail)
        &&& <Vec<i32> as JsonDecode>::decodes_to(text, member(at, "/alliedIds"@), v.allied_ids)
        &&& <i32 as JsonDecode>::decodes_to(text, member(at, "/allianceStatus"@), v.alliance_status)
        &&& <i32 as JsonDecode>::decodes_to(
            text,
            member(at, "/groupJoinInviteCount"@),
            v.group_join_invite_count,
        )
        &&& <bool as JsonDecode>::decodes_to(
            text,
            member(at, "/currentUserMembershipsInactiveForDestiny"@),
            v.current_user_memberships_inactive_for_destiny,
        )
        &&& <ClanMember as JsonDecode>::decodes_to(text, member(at, "/founder"@), v.founder)
    }

    fn decode_at(text: &str, at: &str) -> (r: Option<Clan>) {
        let ptr = member_ptr(at, "/detail");
        let detail = match <ClanDetail as JsonDecode>::decode_at(text, ptr.as_str()) {
            Some(x) => x,
            None => return None,
        };
        let ptr = member_ptr(at, "/alliedIds");
        let allied_ids = match <Vec<i32> as JsonDecode>::decode_at(text, ptr.as_str()) {
            Some(x) => x,
            None => return None,
        };
        let ptr = member_ptr(at, "/allianceStatus");
        let alliance_status = match <i32 as JsonDecode>::decode_at(text, ptr.as_str()) {
            Some(x) => x,
            None => return None,
        };
        let ptr = member_ptr(at, "/groupJoinInviteCount");
        let group_join_invite_count = match <i32 as JsonDecode>::decode_at(text, ptr.as_str()) {
            Some(x) => x,
            None => return None,
        };
        let ptr = member_ptr(at, "/currentUserMembershipsInactiveForDestiny");
        let current_user_memberships_inactive_for_destiny = match <bool as JsonDecode>::decode_at(
            text,
            ptr.as_str(),
        ) {
            Some(x) => x,
            None => return None,
        };
        let ptr = member_ptr(at, "/founder");
        let founder = match <ClanMember as JsonDecode>::decode_at(text, ptr.as_str()) {
            Some(x) => x,
            None => return None,
        };
        Some(
            Clan {
                detail,
                allied_ids,
                alliance_status,
                group_join_invite_count,
                current_user_memberships_inactive_for_destiny,
                founder,
            },
        )
    }
}
/// The details of a clan.
#[derive(Clone, Debug)]
pub struct ClanDetail {
    pub id: String,
    pub name: String,
    pub group_type: u8,
    pub founder_id: String,
    pub creation_date: Timestamp,
    pub modification_date: Timestamp,
    pub description: String,
    pub tags: Vec<String>,
    pub member_count: u8,
    pub is_public: bool,
    pub is_public_topic_admin_only: bool,
    pub motto: String,
    pub allow_chat: bool,
    pub is_default_post_public: bool,
    pub chat_security: u8,
    pub locale: String,
    pub avatar_image_index: u8,
    pub homepage: u8,
    pub membership_option: u8,
    pub default_publicity: u8,
    pub theme: String,
    pub avatar_path: String,
    pub banner_path: String,
    pub conversation_id: String,
    pub enable_invitation_messaging_for_admins: bool,
    pub ban_expire_date: Timestamp,
    pub features: ClanFeatures,
    pub clan_info: ClanInfo,
}

impl JsonDecode for ClanDetail {
    open spec fn decodable(text: Seq<char>, at: Seq<char>) -> bool {
        &&& <String as JsonDecode>::decodable(text, member(at, "/groupId"@))
        &&& <String as JsonDecode>::decodable(text, member(at, "/name"@))
        &&& <u8 as JsonDecode>::decodable(text, member(at, "/groupType"@))
        &&& <String as JsonDecode>::decodable(text, member(at, "/membershipIdCreated"@))
        &&& <Timestamp as JsonDecode>::decodable(text, member(at, "/creationDate"@))
        &&& <Timestamp as JsonDecode>::decodable(text, member(at, "/modificationDate"@))
        &&& <String as JsonDecode>::decodable(text, member(at, "/about"@))
        &&& <Vec<String> as JsonDecode>::decodable(text, member(at, "/tags"@))
        &&& <u8 as JsonDecode>::decodable(text, member(at, "/memberCount"@))
        &&& <bool as JsonDecode>::decodable(text, member(at, "/isPublic"@))
        &&& <bool as JsonDecode>::decodable(text, member(at, "/isPublicTopicAdminOnly"@))
        &&& <String as JsonDecode>::decodable(text, member(at, "/motto"@))
        &&& <bool as JsonDecode>::decodable(text, member(at, "/allowChat"@))
        &&& <bool as JsonDecode>::decodable(text, member(at, "/isDefaultPostPublic"@))
        &&& <u8 as JsonDecode>::decodable(text, member(at, "/chatSecurity"@))
        &&& <String as JsonDecode>::decodable(text, member(at, "/locale"@))
        &&& <u8 as JsonDecode>::decodable(text, member(at, "/avatarImageIndex"@))
        &&& <u8 as JsonDecode>::decodable(text, member(at, "/homepage"@))
        &&& <u8 as JsonDecode>::decodable(text, member(at, "/membershipOption"@))
        &&& <u8 as JsonDecode>::decodable(text, member(at, "/defaultPublicity"@))
        &&& <String as JsonDecode>::decodable(text, member(at, "/theme"@))
        &&& <String as JsonDecode>::decodable(text, member(at, "/avatarPath"@))
        &&& <String as JsonDecode>::decodable(text, member(at, "/bannerPath"@))
        &&& <String as JsonDecode>::decodable(text, member(at, "/conversationId"@))
        &&& <bool as JsonDecode>::decodable(
            text,
            member(at, "/enableInvitationMessagingForAdmins"@),
        )
        &&& <Timestamp as JsonDecode>::decodable(text, member(at, "/banExpireDate"@))
        &&& <ClanFeatures as JsonDecode>::decodable(text, member(at, "/features"@))
        &&& <ClanInfo as JsonDecode>::decodable(text, member(at, "/clanInfo"@))
    }

    open spec fn decodes_to(text: Seq<char>, at: Seq<char>, v: ClanDetail) -> bool {
        &&& <String as JsonDecode>::decodes_to(text, member(at, "/groupId"@), v.id)
        &&& <String as JsonDecode>::decodes_to(text, member(at, "/name"@), v.name)
        &&& <u8 as JsonDecode>::decodes_to(text, member(at, "/groupType"@), v.group_type)
        &&& <String as JsonDecode>::decodes_to(
            text,
            member(at, "/membershipIdCreated"@),
            v.founder_id,
        )
        &&& <Timestamp as JsonDecode>::decodes_to(
            text,
            member(at, "/creationDate"@),
            v.creation_date,
        )
        &&& <Timestamp as JsonDecode>::decodes_to(
            text,
            member(at, "/modificationDate"@),
            v.modification_date,
        )
        &&& <String as JsonDecode>::decodes_to(text, member(at, "/about"@), v.description)
        &&& <Vec<String> as JsonDecode>::decodes_to(text, member(at, "/tags"@), v.tags)
        &&& <u8 as JsonDecode>::decodes_to(text, member(at, "/memberCount"@), v.member_count)
        &&& <bool as JsonDecode>::decodes_to(text, member(at, "/isPublic"@), v.is_public)
        &&& <bool as JsonDecode>::decodes_to(
            text,
            member(at, "/isPublicTopicAdminOnly"@),
            v.is_public_topic_admin_only,
        )
        &&& <String as JsonDecode>::decodes_to(text, member(at, "/motto"@), v.motto)
        &&& <bool as JsonDecode>::decodes_to(text, member(at, "/allowChat"@), v.allow_chat)
        &&& <bool as JsonDecode>::decodes_to(
            text,
            member(at, "/isDefaultPostPublic"@),
            v.is_default_post_public,
        )
        &&& <u8 as JsonDecode>::decodes_to(text, member(at, "/chatSecurity"@), v.chat_security)
        &&& <String as JsonDecode>::decodes_to(text, member(at, "/locale"@), v.locale)
        &&& <u8 as JsonDecode>::decodes_to(
            text,
            member(at, "/avatarImageIndex"@),
            v.avatar_image_index,
        )
        &&& <u8 as JsonDecode>::decodes_to(text, member(at, "/homepage"@), v.homepage)
        &&& <u8 as JsonDecode>::decodes_to(
            text,
            member(at, "/membershipOption"@),
            v.membership_option,
        )
        &&& <u8 as JsonDecode>::decodes_to(
            text,
            member(at, "/defaultPublicity"@),
            v.default_publicity,
        )
        &&& <String as JsonDecode>::decodes_to(text, member(at, "/theme"@), v.theme)
        &&& <String as JsonDecode>::decodes_to(text, member(at, "/avatarPath"@), v.avatar_path)
        &&& <String as JsonDecode>::decodes_to(text, member(at, "/bannerPath"@), v.banner_path)
        &&& <String as JsonDecode>::decodes_to(
            text,
            member(at, "/conversationId"@),
            v.conversation_id,
        )
        &&& <bool as JsonDecode>::decodes_to(
            text,
            member(at, "/enableInvitationMessagingForAdmins"@),
            v.enable_invitation_messaging_for_admins,
        )
        &&& <Timestamp as JsonDecode>::decodes_to(
            text,
            member(at, "/banExpireDate"@),
            v.ban_expire_date,
        )
        &&& <ClanFeatures as JsonDecode>::decodes_to(text, member(at, "/features"@), v.features)
        &&& <ClanInfo as JsonDecode>::decodes_to(text, member(at, "/clanInfo"@), v.clan_info)
    }

    fn decode_at(text: &str, at: &str) -> (r: Option<ClanDetail>) {
        let ptr = member_ptr(at, "/groupId");
        let id = match <String as JsonDecode>::decode_at(text, ptr.as_str()) {
            Some(x) => x,
            None => return None,
        };
        let ptr = member_ptr(at, "/name");
        let name = match <String as JsonDecode>::decode_at(text, ptr.as_str()) {
            Some(x) => x,
            None => return None,
        };
        let ptr = member_ptr(at, "/groupType");
        let group_type = match <u8 as JsonDecode>::decode_at(text, ptr.as_str()) {
            Some(x) => x,
            None => return None,
        };
        let ptr = member_ptr(at, "/membershipIdCreated");
        let founder_id = match <String as JsonDecode>::decode_at(text, ptr.as_str()) {
            Some(x) => x,
            None => return None,
        };
        let ptr = member_ptr(at, "/creationDate");
        let creation_date = match <Timestamp as JsonDecode>::decode_at(text, ptr.as_str()) {
            Some(x) => x,
            None => return None,
        };
        let ptr = member_ptr(at, "/modificationDate");
        let modification_date = match <Timestamp as JsonDecode>::decode_at(text, ptr.as_str()) {
            Some(x) => x,
            None => return None,
        };
        let ptr = member_ptr(at, "/about");
        let description = match <String as JsonDecode>::decode_at(text, ptr.as_str()) {
            Some(x) => x,
            None => return None,
        };
        let ptr = member_ptr(at, "/tags");
        let tags = match <Vec<String> as JsonDecode>::decode_at(text, ptr.as_str()) {
            Some(x) => x,
            None => return None,
        };
        let ptr = member_ptr(at, "/memberCount");
        let member_count = match <u8 as JsonDecode>::decode_at(text, ptr.as_str()) {
            Some(x) => x,
            None => return None,
        };
        let ptr = member_ptr(at, "/isPublic");
        let is_public = match <bool as JsonDecode>::decode_at(text, ptr.as_str()) {
            Some(x) => x,
            None => return None,
        };
        let ptr = member_ptr(at, "/isPublicTopicAdminOnly");
        let is_public_topic_admin_only = match <bool as JsonDecode>::decode_at(text, ptr.as_str()) {
            Some(x) => x,
            None => return None,
        };
        let ptr = member_ptr(at, "/motto");
        let motto = match <String as JsonDecode>::decode_at(text, ptr.as_str()) {
            Some(x) => x,
            None => return None,
        };
        let ptr = member_ptr(at, "/allowChat");
        let allow_chat = match <bool as JsonDecode>::decode_at(text, ptr.as_str()) {
            Some(x) => x,
            None => return None,
        };
        let ptr = member_ptr(at, "/isDefaultPostPublic");
        let is_default_post_public = match <bool as JsonDecode>::decode_at(text, ptr.as_str()) {
            Some(x) => x,
            None => return None,
        };
        let ptr = member_ptr(at, "/chatSecurity");
        let chat_security = match <u8 as JsonDecode>::decode_at(text, ptr.as_str()) {
            Some(x) => x,
            None => return None,
        };
        let ptr = member_ptr(at, "/locale");
        let locale = match <String as JsonDecode>::decode_at(text, ptr.as_str()) {
            Some(x) => x,
            None => return None,
        };
        let ptr = member_ptr(at, "/avatarImageIndex");
        let avatar_image_index = match <u8 as JsonDecode>::decode_at(text, ptr.as_str()) {
            Some(x) => x,
            None => return None,
        };
        let ptr = member_ptr(at, "/homepage");
        let homepage = match <u8 as JsonDecode>::decode_at(text, ptr.as_str()) {
            Some(x) => x,
            None => return None,
        };
        let ptr = member_ptr(at, "/membershipOption");
        let membership_option = match <u8 as JsonDecode>::decode_at(text, ptr.as_str()) {
            Some(x) => x,
            None => return None,
        };
        let ptr = member_ptr(at, "/defaultPublicity");
        let default_publicity = match <u8 as JsonDecode>::decode_at(text, ptr.as_str()) {
            Some(x) => x,
            None => return None,
        };
        let ptr = member_ptr(at, "/theme");
        let theme = match <String as JsonDecode>::decode_at(text, ptr.as_str()) {
            Some(x) => x,
            None => return None,
        };
        let ptr = member_ptr(at, "/avatarPath");
        let avatar_path = match <String as JsonDecode>::decode_at(text, ptr.as_str()) {
            Some(x) => x,
            None => return None,
        };
        let ptr = member_ptr(at, "/bannerPath");
        let banner_path = match <String as JsonDecode>::decode_at(text, ptr.as_str()) {
            Some(x) => x,
            None => return None,
        };
        let ptr = member_ptr(at, "/conversationId");
        let conversation_id = match <String as JsonDecode>::decode_at(text, ptr.as_str()) {
            Some(x) => x,
            None => return None,
        };
        let ptr = member_ptr(at, "/enableInvitationMessagingForAdmins");
        let enable_invitation_messaging_for_admins = match <bool as JsonDecode>::decode_at(
            text,
            ptr.as_str(),
        ) {
            Some(x) => x,
            None => return None,
        };
        let ptr = member_ptr(at, "/banExpireDate");
        let ban_expire_date = match <Timestamp as JsonDecode>::decode_at(text, ptr.as_str()) {
            Some(x) => x,
            None => return None,
        };
        let ptr = member_ptr(at, "/features");
        let features = match <ClanFeatures as JsonDecode>::decode_at(text, ptr.as_str()) {
            Some(x) => x,
            None => return None,
        };
        let ptr = member_ptr(at, "/clanInfo");
        let clan_info = match <ClanInfo as JsonDecode>::decode_at(text, ptr.as_str()) {
            Some(x) => x,
            None => return None,
        };
        Some(
            ClanDetail {
                id,
                name,
                group_type,
                founder_id,
                creation_date,
                modification_date,
                description,
                tags,
                member_count,
                is_public,
                is_public_topic_admin_only,
                motto,
                allow_chat,
                is_default_post_public,
                chat_security,
                locale,
                avatar_image_index,
                homepage,
                membership_option,
                default_publicity,
                theme,
                avatar_path,
                banner_path,
                conversation_id,
                enable_invitation_messaging_for_admins,
                ban_expire_date,
                features,
                clan_info,
            },
        )
    }
}
/// What a clan allows.
#[derive(Clone, Debug)]
pub struct ClanFeatures {
    pub maximum_members: i32,
    pub maximum_memberships_of_group_type: i32,
    pub capabilities: i32,
    pub membership_types: Vec<i32>,
    pub invite_permission_override: bool,
    pub update_culture_permission_override: bool,
    pub host_guided_game_permission_override: i32,
    pub update_banner_permission_override: bool,
    pub join_level: i32,
}

impl JsonDecode for ClanFeatures {
    open spec fn decodable(text: Seq<char>, at: Seq<char>) -> bool {
        &&& <i32 as JsonDecode>::decodable(text, member(at, "/maximumMembers"@))
        &&& <i32 as JsonDecode>::decodable(text, member(at, "/maximumMembershipsOfGroupType"@))
        &&& <i32 as JsonDecode>::decodable(text, member(at, "/capabilities"@))
        &&& <Vec<i32> as JsonDecode>::decodable(text, member(at, "/membershipTypes"@))
        &&& <bool as JsonDecode>::decodable(text, member(at, "/invitePermissionOverride"@))
        &&& <bool as JsonDecode>::decodable(text, member(at, "/updateCulturePermissionOverride"@))
        &&& <i32 as JsonDecode>::decodable(text, member(at, "/hostGuidedGamePermissionOverride"@))
        &&& <bool as JsonDecode>::decodable(text, member(at, "/updateBannerPermissionOverride"@))
        &&& <i32 as JsonDecode>::decodable(text, member(at, "/joinLevel"@))
    }

    open spec fn decodes_to(text: Seq<char>, at: Seq<char>, v: ClanFeatures) -> bool {
        &&& <i32 as JsonDecode>::decodes_to(text, member(at, "/maximumMembers"@), v.maximum_members)
        &&& <i32 as JsonDecode>::decodes_to(
            text,
            member(at, "/maximumMembershipsOfGroupType"@),
            v.maximum_memberships_of_group_type,
        )
        &&& <i32 as JsonDecode>::decodes_to(text, member(at, "/capabilities"@), v.capabilities)
        &&& <Vec<i32> as JsonDecode>::decodes_to(
            text,
            member(at, "/membershipTypes"@),
            v.membership_types,
        )
        &&& <bool as JsonDecode>::decodes_to(
            text,
            member(at, "/invitePermissionOverride"@),
            v.invite_permission_override,
        )
        &&& <bool as JsonDecode>::decodes_to(
            text,
            member(at, "/updateCulturePermissionOverride"@),
            v.update_culture_permission_override,
        )
        &&& <i32 as JsonDecode>::decodes_to(
            text,
            member(at, "/hostGuidedGamePermissionOverride"@),
            v.host_guided_game_permission_override,
        )
        &&& <bool as JsonDecode>::decodes_to(
            text,
            member(at, "/updateBannerPermissionOverride"@),
            v.update_banner_permission_override,
        )
        &&& <i32 as JsonDecode>::decodes_to(text, member(at, "/joinLevel"@), v.join_level)
    }

    fn decode_at(text: &str, at: &str) -> (r: Option<ClanFeatures>) {
        let ptr = member_ptr(at, "/maximumMembers");
        let maximum_members = match <i32 as JsonDecode>::decode_at(text, ptr.as_str()) {
            Some(x) => x,
            None => return None,
        };
        let ptr = member_ptr(at, "/maximumMembershipsOfGroupType");
        let maximum_memberships_of_group_type = match <i32 as JsonDecode>::decode_at(
            text,
            ptr.as_str(),
        ) {
            Some(x) => x,
            None => return None,
        };
        let ptr = member_ptr(at, "/capabilities");
        let capabilities = match <i32 as JsonDecode>::decode_at(text, ptr.as_str()) {
            Some(x) => x,
            None => return None,
        };
        let ptr = member_ptr(at, "/membershipTypes");
        let membership_types = match <Vec<i32> as JsonDecode>::decode_at(text, ptr.as_str()) {
            Some(x) => x,
            None => return None,
        };
        let ptr = member_ptr(at, "/invitePermissionOverride");
        let invite_permission_override = match <bool as JsonDecode>::decode_at(text, ptr.as_str()) {
            Some(x) => x,
            None => return None,
        };
        let ptr = member_ptr(at, "/updateCulturePermissionOverride");
        let update_culture_permission_override = match <bool as JsonDecode>::decode_at(
            text,
            ptr.as_str(),
        ) {
            Some(x) => x,
            None => return None,
        };
        let ptr = member_ptr(at, "/hostGuidedGamePermissionOverride");
        let host_guided_game_permission_override = match <i32 as JsonDecode>::decode_at(
            text,
            ptr.as_str(),
        ) {
            Some(x) => x,
            None => return None,
        };
        let ptr = member_ptr(at, "/updateBannerPermissionOverride");
        let update_banner_permission_override = match <bool as JsonDecode>::decode_at(
            text,
            ptr.as_str(),
        ) {
            Some(x) => x,
            None => return None,
        };
        let ptr = member_ptr(at, "/joinLevel");
        let join_level = match <i32 as JsonDecode>::decode_at(text, ptr.as_str()) {
            Some(x) => x,
            None => return None,
        };
        Some(
            ClanFeatures {
                maximum_members,
                maximum_memberships_of_group_type,
                capabilities,
                membership_types,
                invite_permission_override,
                update_culture_permission_override,
                host_guided_game_permission_override,
                update_banner_permission_override,
                join_level,
            },
        )
    }
}
/// The clan-specific information of a group.
#[derive(Clone, Debug)]
pub struct ClanInfo {
    pub clan_callsign: String,
}

impl JsonDecode for ClanInfo {
    open spec fn decodable(text: Seq<char>, at: Seq<char>) -> bool {
        &&& <String as JsonDecode>::decodable(text, member(at, "/clanCallsign"@))
    }

    open spec fn decodes_to(text: Seq<char>, at: Seq<char>, v: ClanInfo) -> bool {
        &&& <String as JsonDecode>::decodes_to(text, member(at, "/clanCallsign"@), v.clan_callsign)
    }

    fn decode_at(text: &str, at: &str) -> (r: Option<ClanInfo>) {
        let ptr = member_ptr(at, "/clanCallsign");
        let clan_callsign = match <String as JsonDecode>::decode_at(text, ptr.as_str()) {
            Some(x) => x,
            None => return None,
        };
        Some(ClanInfo { clan_callsign })
    }
}
/// A member of a clan.
#[derive(Clone, Debug)]
pub struct ClanMember {
    pub member_type: i16,
    pub is_online: Option<bool>,
    pub last_online_status_change: String,
    pub group_id: String,
    pub destiny_user_info: DestinyProfile,
    pub bungie_net_user_info: BnetMembership,
    pub join_date: Timestamp,
}

impl JsonDecode for ClanMember {
    open spec fn decodable(text: Seq<char>, at: Seq<char>) -> bool {
        &&& <i16 as JsonDecode>::decodable(text, member(at, "/memberType"@))
        &&& <Option<bool> as JsonDecode>::decodable(text, member(at, "/isOnline"@))
        &&& <String as JsonDecode>::decodable(text, member(at, "/lastOnlineStatusChange"@))
        &&& <String as JsonDecode>::decodable(text, member(at, "/groupId"@))
        &&& <DestinyProfile as JsonDecode>::decodable(text, member(at, "/destinyUserInfo"@))
        &&& <BnetMembership as JsonDecode>::decodable(text, member(at, "/bungieNetUserInfo"@))
        &&& <Timestamp as JsonDecode>::decodable(text, member(at, "/joinDate"@))
    }

    open spec fn decodes_to(text: Seq<char>, at: Seq<char>, v: ClanMember) -> bool {
        &&& <i16 as JsonDecode>::decodes_to(text, member(at, "/memberType"@), v.member_type)
        &&& <Option<bool> as JsonDecode>::decodes_to(text, member(at, "/isOnline"@), v.is_online)
        &&& <String as JsonDecode>::decodes_to(
            text,
            member(at, "/lastOnlineStatusChange"@),
            v.last_online_status_change,
        )
        &&& <String as JsonDecode>::decodes_to(text, member(at, "/groupId"@), v.group_id)
        &&& <DestinyProfile as JsonDecode>::decodes_to(
            text,
            member(at, "/destinyUserInfo"@),
            v.destiny_user_info,
        )
        &&& <BnetMembership as JsonDecode>::decodes_to(
            text,
            member(at, "/bungieNetUserInfo"@),
            v.bungie_net_user_info,
        )
        &&& <Timestamp as JsonDecode>::decodes_to(text, member(at, "/joinDate"@), v.join_date)
    }

    fn decode_at(text: &str, at: &str) -> (r: Option<ClanMember>) {
        let ptr = member_ptr(at, "/memberType");
        let member_type = match <i16 as JsonDecode>::decode_at(text, ptr.as_str()) {
            Some(x) => x,
            None => return None,
        };
        let ptr = member_ptr(at, "/isOnline");
        let is_online = match <Option<bool> as JsonDecode>::decode_at(text, ptr.as_str()) {
            Some(x) => x,
            None => return None,
        };
        let ptr = member_ptr(at, "/lastOnlineStatusChange");
        let last_online_status_change = match <String as JsonDecode>::decode_at(
            text,
            ptr.as_str(),
        ) {
            Some(x) => x,
            None => return None,
        };
        let ptr = member_ptr(at, "/groupId");
        let group_id = match <String as JsonDecode>::decode_at(text, ptr.as_str()) {
            Some(x) => x,
            None => return None,
        };
        let ptr = member_ptr(at, "/destinyUserInfo");
        let destiny_user_info = match <DestinyProfile as JsonDecode>::decode_at(
            text,
            ptr.as_str(),
        ) {
            Some(x) => x,
            None => return None,
        };
        let ptr = member_ptr(at, "/bungieNetUserInfo");
        let bungie_net_user_info = match <BnetMembership as JsonDecode>::decode_at(
            text,
            ptr.as_str(),
        ) {
            Some(x) => x,
            None => return None,
        };
        let ptr = member_ptr(at, "/joinDate");
        let join_date = match <Timestamp as JsonDecode>::decode_at(text, ptr.as_str()) {
            Some(x) => x,
            None => return None,
        };
        Some(
            ClanMember {
                member_type,
                is_online,
                last_online_status_change,
                group_id,
                destiny_user_info,
                bungie_net_user_info,
                join_date,
            },
        )
    }
}
/// The state of a clan's weekly rewards.
#[derive(Clone, Debug)]
pub struct WeeklyRewardResponse {
    pub milestone_hash: i64,
    pub rewards: Vec<Rewards>,
}

impl JsonDecode for WeeklyRewardResponse {
    open spec fn decodable(text: Seq<char>, at: Seq<char>) -> bool {
        &&& <i64 as JsonDecode>::decodable(text, member(at, "/milestoneHash"@))
        &&& <Vec<Rewards> as JsonDecode>::decodable(text, member(at, "/rewards"@))
    }

    open spec fn decodes_to(text: Seq<char>, at: Seq<char>, v: WeeklyRewardResponse) -> bool {
        &&& <i64 as JsonDecode>::decodes_to(text, member(at, "/milestoneHash"@), v.milestone_hash)
        &&& <Vec<Rewards> as JsonDecode>::decodes_to(text, member(at, "/rewards"@), v.rewards)
    }

    fn decode_at(text: &str, at: &str) -> (r: Option<WeeklyRewardResponse>) {
        let ptr = member_ptr(at, "/milestoneHash");
        let milestone_hash = match <i64 as JsonDecode>::decode_at(text, ptr.as_str()) {
            Some(x) => x,
            None => return None,
        };
        let ptr = member_ptr(at, "/rewards");
        let rewards = match <Vec<Rewards> as JsonDecode>::decode_at(text, ptr.as_str()) {
            Some(x) => x,
            None => return None,
        };
        Some(WeeklyRewardResponse { milestone_hash, rewards })
    }
}
/// The weekly rewards of one category.
#[derive(Clone, Debug)]
pub struct Rewards {
    pub reward_category_hash: i64,
    pub entries: Vec<WeeklyReward>,
}

impl JsonDecode for Rewards {
    open spec fn decodable(text: Seq<char>, at: Seq<char>) -> bool {
        &&& <i64 as JsonDecode>::decodable(text, member(at, "/rewardCategoryHash"@))
        &&& <Vec<WeeklyReward> as JsonDecode>::decodable(text, member(at, "/entries"@))
    }

    open spec fn decodes_to(text: Seq<char>, at: Seq<char>, v: Rewards) -> bool {
        &&& <i64 as JsonDecode>::decodes_to(
            text,
            member(at, "/rewardCategoryHash"@),
            v.reward_category_hash,
        )
        &&& <Vec<WeeklyReward> as JsonDecode>::decodes_to(text, member(at, "/entries"@), v.entries)
    }

    fn decode_at(text: &str, at: &str) -> (r: Option<Rewards>) {
        let ptr = member_ptr(at, "/rewardCategoryHash");
        let reward_category_hash = match <i64 as JsonDecode>::decode_at(text, ptr.as_str()) {
            Some(x) => x,
            None => return None,
        };
        let ptr = member_ptr(at, "/entries");
        let entries = match <Vec<WeeklyReward> as JsonDecode>::decode_at(text, ptr.as_str()) {
            Some(x) => x,
            None => return None,
        };
        Some(Rewards { reward_category_hash, entries })
    }
}
/// Whether one weekly reward is earned and redeemed.
#[derive(Clone, Debug)]
pub struct WeeklyReward {
    pub reward_entry_hash: i64,
    pub earned: bool,
    pub redeemed: bool,
}

impl JsonDecode for WeeklyReward {
    open spec fn decodable(text: Seq<char>, at: Seq<char>) -> bool {
        &&& <i64 as JsonDecode>::decodable(text, member(at, "/rewardEntryHash"@))
        &&& <bool as JsonDecode>::decodable(text, member(at, "/earned"@))
        &&& <bool as JsonDecode>::decodable(text, member(at, "/redeemed"@))
    }

    open spec fn decodes_to(text: Seq<char>, at: Seq<char>, v: WeeklyReward) -> bool {
        &&& <i64 as JsonDecode>::decodes_to(
            text,
            member(at, "/rewardEntryHash"@),
            v.reward_entry_hash,
        )
        &&& <bool as JsonDecode>::decodes_to(text, member(at, "/earned"@), v.earned)
        &&& <bool as JsonDecode>::decodes_to(text, member(at, "/redeemed"@), v.redeemed)
    }

    fn decode_at(text: &str, at: &str) -> (r: Option<WeeklyReward>) {
        let ptr = member_ptr(at, "/rewardEntryHash");
        let reward_entry_hash = match <i64 as JsonDecode>::decode_at(text, ptr.as_str()) {
            Some(x) => x,
            None => return None,
        };
        let ptr = member_ptr(at, "/earned");
        let earned = match <bool as JsonDecode>::decode_at(text, ptr.as_str()) {
            Some(x) => x,
            None => return None,
        };
        let ptr = member_ptr(at, "/redeemed");
        let redeemed = match <bool as JsonDecode>::decode_at(text, ptr.as_str()) {
            Some(x) => x,
            None => return None,
        };
        Some(WeeklyReward { reward_entry_hash, earned, redeemed })
    }
}
/// The endpoint of a clan, by id.
pub open spec fn clan_url(id: int) -> Seq<char> {
    api_base() + "/GroupV2/"@ + signed_decimal(id) + "/"@
}

/// The endpoint of a clan, by name; the name's spaces are written `%20`.
pub open spec fn clan_by_name_url(name: Seq<char>) -> Seq<char> {
    api_base() + "/GroupV2/Name/"@ + encoded_url(name) + "/1/"@
}

/// The endpoint of the members of a clan.
pub open spec fn members_url(id: Seq<char>) -> Seq<char> {
    api_base() + "/GroupV2/"@ + id + "/Members/"@
}

/// The endpoint of the weekly reward state of a clan.
pub open spec fn weekly_rewards_url(id: Seq<char>) -> Seq<char> {
    api_base() + "/Destiny2/Clan/"@ + id + "/WeeklyRewardState/"@
}

impl Clan {
    /// The request for the clan with the given id; `from_string_response`
    /// reads its response.
    pub fn get_by_id(client: &ApiClient, id: i32) -> (r: HttpRequest)
        ensures
            r@ == request_for(HttpMethod::Get, client@.key, clan_url(id as int), seq![], None),
    {
        let url = String::from_str(url_base());
        let url = url.concat("/GroupV2/");
        let url = url.concat(signed_text(id as i64).as_str());
        let url = url.concat("/");
        assert(url@ =~= clan_url(id as int));
        client.get(url)
    }

    /// The request for the clan with the given name; `from_string_response`
    /// reads its response.
    pub fn get_by_name(client: &ApiClient, name: &str) -> (r: HttpRequest)
        ensures
            r@ == request_for(HttpMethod::Get, client@.key, clan_by_name_url(name@), seq![], None),
    {
        let url = String::from_str(url_base());
        let url = url.concat("/GroupV2/Name/");
        let url = url.concat(encode_url(String::from_str(name)).as_str());
        let url = url.concat("/1/");
        assert(url@ =~= clan_by_name_url(name@));
        client.get(url)
    }

    /// Reads a clan from the response of its endpoint.
    pub fn from_string_response(response: &str) -> (r: Result<Clan, ApiError>)
        ensures
            r is Ok <==> readable_at::<Clan>(response@, "/Response"@),
            r matches Ok(c) ==> Clan::decodes_to(response@, "/Response"@, c),
            r matches Err(e) ==> e is Deserialization,
    {
        match decode_document_at::<Clan>(response, "/Response") {
            Some(c) => Ok(c),
            None => Err(ApiError::Deserialization),
        }
    }

    /// The request for the members of the clan; `members_from_response`
    /// reads its response.
    pub fn get_members(&self, client: &ApiClient) -> (r: HttpRequest)
        ensures
            r@ == request_for(
                HttpMethod::Get,
                client@.key,
                members_url(self.detail.id@),
                seq![],
                None,
            ),
    {
        let url = String::from_str(url_base());
        let url = url.concat("/GroupV2/");
        let url = url.concat(self.detail.id.as_str());
        let url = url.concat("/Members/");
        assert(url@ =~= members_url(self.detail.id@));
        client.get(url)
    }

    /// The request for the weekly reward state of the clan;
    /// `weekly_rewards_from_response` reads its response.
    pub fn get_weekly_rewards(&self, client: &ApiClient) -> (r: HttpRequest)
        ensures
            r@ == request_for(
                HttpMethod::Get,
                client@.key,
                weekly_rewards_url(self.detail.id@),
                seq![],
                None,
            ),
    {
        let url = String::from_str(url_base());
        let url = url.concat("/Destiny2/Clan/");
        let url = url.concat(self.detail.id.as_str());
        let url = url.concat("/WeeklyRewardState/");
        assert(url@ =~= weekly_rewards_url(self.detail.id@));
        client.get(url)
    }
}

/// Reads the members of a clan from the response of its members endpoint.
pub fn members_from_response(response: &str) -> (r: Result<Vec<ClanMember>, ApiError>)
    ensures
        r is Ok <==> readable_at::<Vec<ClanMember>>(response@, "/Response/results"@),
        r matches Ok(v) ==> <Vec<ClanMember> as JsonDecode>::decodes_to(
            response@,
            "/Response/results"@,
            v,
        ),
        r matches Err(e) ==> e is Deserialization,
{
    match decode_document_at::<Vec<ClanMember>>(response, "/Response/results") {
        Some(v) => Ok(v),
        None => Err(ApiError::Deserialization),
    }
}

/// Reads the weekly reward state of a clan from the response of its endpoint.
pub fn weekly_rewards_from_response(response: &str) -> (r: Result<WeeklyRewardResponse, ApiError>)
    ensures
        r is Ok <==> readable_at::<WeeklyRewardResponse>(response@, "/Response"@),
        r matches Ok(w) ==> WeeklyRewardResponse::decodes_to(response@, "/Response"@, w),
        r matches Err(e) ==> e is Deserialization,
{
    match decode_document_at::<WeeklyRewardResponse>(response, "/Response") {
        Some(w) => Ok(w),
        None => Err(ApiError::Deserialization),
    }
}

} // verus!
