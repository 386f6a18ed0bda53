//! Users: their profiles on each platform, their Bungie.net account, and the
//! lookups by id and by name.
use vstd::prelude::*;
use crate::client::{ApiClient, ApiError, HttpMethod, HttpRequest, api_base, request_for, url_base};
use crate::json::{
    JsonDecode, document_decodable, element, element_ptr, is_json, is_missing, json_int_at, json_len_at, json_quoted,
    json_string_at, json_valid, len_at, member, member_ptr, missing, quote_json_string,
};
use crate::text::{decimal, signed_decimal, signed_text, unsigned_text};
use crate::time::Timestamp;

verus! {

/// The platform of a profile.
#[derive(PartialEq, Eq, Structural, Clone, Copy, Debug)]
pub enum DestinyPlatform {
    NoPlatform,
    Xbox,
    PSN,
    Steam,
    Blizzard,
    Stadia,
    Demon,
    BungieNext,
    All,
}

impl DestinyPlatform {
    /// The code of the platform in the API.
    pub open spec fn code(self) -> i16 {
        match self {
            DestinyPlatform::NoPlatform => 0i16,
            DestinyPlatform::Xbox => 1i16,
            DestinyPlatform::PSN => 2i16,
            DestinyPlatform::Steam => 3i16,
            DestinyPlatform::Blizzard => 4i16,
            DestinyPlatform::Stadia => 5i16,
            DestinyPlatform::Demon => 10i16,
            DestinyPlatform::BungieNext => 254i16,
            DestinyPlatform::All => -1i16,
        }
    }

    /// The platform with the given code, if there is one.
    pub fn from_code(code: i16) -> (r: Option<DestinyPlatform>)
        ensures
            r == platform_of(code),
    {
        match code {
            0 => Some(DestinyPlatform::NoPlatform),
            1 => Some(DestinyPlatform::Xbox),
            2 => Some(DestinyPlatform::PSN),
            3 => Some(DestinyPlatform::Steam),
            4 => Some(DestinyPlatform::Blizzard),
            5 => Some(DestinyPlatform::Stadia),
            10 => Some(DestinyPlatform::Demon),
            254 => Some(DestinyPlatform::BungieNext),
            -1 => Some(DestinyPlatform::All),
            _ => None,
        }
    }

    /// The code of the platform in the API.
    pub fn get_code(&self) -> (r: i16)
        ensures
            r == self.code(),
    {
        match self {
            DestinyPlatform::NoPlatform => 0,
            DestinyPlatform::Xbox => 1,
            DestinyPlatform::PSN => 2,
            DestinyPlatform::Steam => 3,
            DestinyPlatform::Blizzard => 4,
            DestinyPlatform::Stadia => 5,
            DestinyPlatform::Demon => 10,
            DestinyPlatform::BungieNext => 254,
            DestinyPlatform::All => -1,
        }
    }
}

/// The platform whose code is `code`.
pub open spec fn platform_of(code: i16) -> Option<DestinyPlatform> {
    if code == 0 {
        Some(DestinyPlatform::NoPlatform)
    } else if code == 1 {
        Some(DestinyPlatform::Xbox)
    } else if code == 2 {
        Some(DestinyPlatform::PSN)
    } else if code == 3 {
        Some(DestinyPlatform::Steam)
    } else if code == 4 {
        Some(DestinyPlatform::Blizzard)
    } else if code == 5 {
        Some(DestinyPlatform::Stadia)
    } else if code == 10 {
        Some(DestinyPlatform::Demon)
    } else if code == 254 {
        Some(DestinyPlatform::BungieNext)
    } else if code == -1 {
        Some(DestinyPlatform::All)
    } else {
        None
    }
}

/// Reading a platform's code back gives the platform.
pub proof fn lemma_platform_code_round_trip(p: DestinyPlatform)
    ensures
        platform_of(p.code()) == Some(p),
{
}

/// A code that names a platform is that platform's code.
pub proof fn lemma_platform_of_code(code: i16)
    ensures
        platform_of(code) matches Some(p) ==> p.code() == code,
{
}

/// A Destiny profile: an account on one platform. Through cross-save, one
/// user can hold several profiles.
#[derive(Clone, Debug)]
pub struct DestinyProfile {
    pub id: String,
    pub platform: i16,
    pub platform_display_name: String,
    pub cross_save_override: i16,
    pub global_display_name: String,
    pub discriminator: i32,
    pub is_public: bool,
    pub is_overridden: Option<bool>,
    pub is_cross_save_primary: Option<bool>,
    pub membership_types: Vec<i8>,
    pub date_last_played: Option<Timestamp>,
    pub last_seen_display_name: Option<String>,
    pub last_seen_display_name_type: Option<i16>,
}

impl JsonDecode for DestinyProfile {
    open spec fn decodable(text: Seq<char>, at: Seq<char>) -> bool {
        &&& <String as JsonDecode>::decodable(text, member(at, "/membershipId"@))
        &&& <i16 as JsonDecode>::decodable(text, member(at, "/membershipType"@))
        &&& (missing(text, member(at, "/displayName"@))
            || <String as JsonDecode>::decodable(text, member(at, "/displayName"@)))
        &&& <i16 as JsonDecode>::decodable(text, member(at, "/crossSaveOverride"@))
        &&& (missing(text, member(at, "/bungieGlobalDisplayName"@))
            || <String as JsonDecode>::decodable(text, member(at, "/bungieGlobalDisplayName"@)))
        &&& (missing(text, member(at, "/bungieGlobalDisplayNameCode"@))
            || <i32 as JsonDecode>::decodable(text, member(at, "/bungieGlobalDisplayNameCode"@)))
        &&& <bool as JsonDecode>::decodable(text, member(at, "/isPublic"@))
        &&& <Option<bool> as JsonDecode>::decodable(text, member(at, "/isOverridden"@))
        &&& <Option<bool> as JsonDecode>::decodable(text, member(at, "/isCrossSavePrimary"@))
        &&& (missing(text, member(at, "/applicableMembershipTypes"@))
            || <Vec<i8> as JsonDecode>::decodable(text, member(at, "/applicableMembershipTypes"@)))
        &&& (missing(text, member(at, "/dateLastPlayed"@))
            || Timestamp::decodable(text, member(at, "/dateLastPlayed"@)))
        &&& <Option<String> as JsonDecode>::decodable(text, member(at, "/LastSeenDisplayName"@))
        &&& <Option<i16> as JsonDecode>::decodable(text, member(at, "/LastSeenDisplayNameType"@))
    }

    open spec fn decodes_to(text: Seq<char>, at: Seq<char>, v: DestinyProfile) -> bool {
        &&& <String as JsonDecode>::decodes_to(text, member(at, "/membershipId"@), v.id)
        &&& <i16 as JsonDecode>::decodes_to(text, member(at, "/membershipType"@), v.platform)
        &&& if missing(text, member(at, "/displayName"@)) {
            v.platform_display_name@ == Seq::<char>::empty()
        } else {
            String::decodes_to(text, member(at, "/displayName"@), v.platform_display_name)
        }
        &&& <i16 as JsonDecode>::decodes_to(
            text,
            member(at, "/crossSaveOverride"@),
            v.cross_save_override,
        )
        &&& if missing(text, member(at, "/bungieGlobalDisplayName"@)) {
            v.global_display_name@ == Seq::<char>::empty()
        } else {
            String::decodes_to(text, member(at, "/bungieGlobalDisplayName"@), v.global_display_name)
        }
        &&& if missing(text, member(at, "/bungieGlobalDisplayNameCode"@)) {
            v.discriminator == 0
        } else {
            <i32 as JsonDecode>::decodes_to(
                text,
                member(at, "/bungieGlobalDisplayNameCode"@),
                v.discriminator,
            )
        }
        &&& <bool as JsonDecode>::decodes_to(text, member(at, "/isPublic"@), v.is_public)
        &&& <Option<bool> as JsonDecode>::decodes_to(
            text,
            member(at, "/isOverridden"@),
            v.is_overridden,
        )
        &&& <Option<bool> as JsonDecode>::decodes_to(
            text,
            member(at, "/isCrossSavePrimary"@),
            v.is_cross_save_primary,
        )
        &&& if missing(text, member(at, "/applicableMembershipTypes"@)) {
            v.membership_types.len() == 0
        } else {
            <Vec<i8> as JsonDecode>::decodes_to(
                text,
                member(at, "/applicableMembershipTypes"@),
                v.membership_types,
            )
        }
        &&& if missing(text, member(at, "/dateLastPlayed"@)) {
            v.date_last_played is None
        } else {
            v.date_last_played matches Some(t) && Timestamp::decodes_to(
                text,
                member(at, "/dateLastPlayed"@),
                t,
            )
        }
        &&& <Option<String> as JsonDecode>::decodes_to(
            text,
            member(at, "/LastSeenDisplayName"@),
            v.last_seen_display_name,
        )
        &&& <Option<i16> as JsonDecode>::decodes_to(
            text,
            member(at, "/LastSeenDisplayNameType"@),
            v.last_seen_display_name_type,
        )
    }

    fn decode_at(text: &str, at: &str) -> (r: Option<DestinyProfile>) {
        let ptr = member_ptr(at, "/membershipId");
        let id = match <String as JsonDecode>::decode_at(text, ptr.as_str()) {
            Some(x) => x,
            None => return None,
        };
        let ptr = member_ptr(at, "/membershipType");
        let platform = match <i16 as JsonDecode>::decode_at(text, ptr.as_str()) {
            Some(x) => x,
            None => return None,
        };
        let ptr = member_ptr(at, "/displayName");
        let platform_display_name = if is_missing(text, ptr.as_str()) {
            Some(String::new())
        } else {
            String::decode_at(text, ptr.as_str())
        };
        let platform_display_name = match platform_display_name {
            Some(x) => x,
            None => return None,
        };
        let ptr = member_ptr(at, "/crossSaveOverride");
        let cross_save_override = match <i16 as JsonDecode>::decode_at(text, ptr.as_str()) {
            Some(x) => x,
            None => return None,
        };
        let ptr = member_ptr(at, "/bungieGlobalDisplayName");
        let global_display_name = if is_missing(text, ptr.as_str()) {
            Some(String::new())
        } else {
            String::decode_at(text, ptr.as_str())
        };
        let global_display_name = match global_display_name {
            Some(x) => x,
            None => return None,
        };
        let ptr = member_ptr(at, "/bungieGlobalDisplayNameCode");
        let discriminator = if is_missing(text, ptr.as_str()) {
            Some(0)
        } else {
            <i32 as JsonDecode>::decode_at(text, ptr.as_str())
        };
        let discriminator = match discriminator {
            Some(x) => x,
            None => return None,
        };
        let ptr = member_ptr(at, "/isPublic");
        let is_public = match <bool as JsonDecode>::decode_at(text, ptr.as_str()) {
            Some(x) => x,
            None => return None,
        };
        let ptr = member_ptr(at, "/isOverridden");
        let is_overridden = match <Option<bool> as JsonDecode>::decode_at(text, ptr.as_str()) {
            Some(x) => x,
            None => return None,
        };
        let ptr = member_ptr(at, "/isCrossSavePrimary");
        let is_cross_save_primary = match <Option<bool> as JsonDecode>::decode_at(
            text,
            ptr.as_str(),
        ) {
            Some(x) => x,
            None => return None,
        };
        let ptr = member_ptr(at, "/applicableMembershipTypes");
        let membership_types = if is_missing(text, ptr.as_str()) {
            Some(Vec::new())
        } else {
            <Vec<i8> as JsonDecode>::decode_at(text, ptr.as_str())
        };
        let membership_types = match membership_types {
            Some(x) => x,
            None => return None,
        };
        let ptr = member_ptr(at, "/dateLastPlayed");
        let date_last_played = if is_missing(text, ptr.as_str()) {
            Some(None)
        } else {
            match Timestamp::decode_at(text, ptr.as_str()) {
                Some(t) => Some(Some(t)),
                None => None,
            }
        };
        let date_last_played = match date_last_played {
            Some(x) => x,
            None => return None,
        };
        let ptr = member_ptr(at, "/LastSeenDisplayName");
        let last_seen_display_name = match <Option<String> as JsonDecode>::decode_at(
            text,
            ptr.as_str(),
        ) {
            Some(x) => x,
            None => return None,
        };
        let ptr = member_ptr(at, "/LastSeenDisplayNameType");
        let last_seen_display_name_type = match <Option<i16> as JsonDecode>::decode_at(
            text,
            ptr.as_str(),
        ) {
            Some(x) => x,
            None => return None,
        };
        Some(
            DestinyProfile {
                id,
                platform,
                platform_display_name,
                cross_save_override,
                global_display_name,
                discriminator,
                is_public,
                is_overridden,
                is_cross_save_primary,
                membership_types,
                date_last_played,
                last_seen_display_name,
                last_seen_display_name_type,
            },
        )
    }
}
/// The Bungie.net account of a user.
#[derive(Clone, Debug)]
pub struct BnetMembership {
    pub combined_name: String,
    pub display_name: String,
    pub icon_path: String,
    pub bnet_membership_id: String,
}

impl JsonDecode for BnetMembership {
    open spec fn decodable(text: Seq<char>, at: Seq<char>) -> bool {
        &&& <String as JsonDecode>::decodable(text, member(at, "/supplementalDisplayName"@))
        &&& <String as JsonDecode>::decodable(text, member(at, "/displayName"@))
        &&& <String as JsonDecode>::decodable(text, member(at, "/iconPath"@))
        &&& <String as JsonDecode>::decodable(text, member(at, "/membershipId"@))
    }

    open spec fn decodes_to(text: Seq<char>, at: Seq<char>, v: BnetMembership) -> bool {
        &&& <String as JsonDecode>::decodes_to(
            text,
            member(at, "/supplementalDisplayName"@),
            v.combined_name,
        )
        &&& <String as JsonDecode>::decodes_to(text, member(at, "/displayName"@), v.display_name)
        &&& <String as JsonDecode>::decodes_to(text, member(at, "/iconPath"@), v.icon_path)
        &&& <String as JsonDecode>::decodes_to(
            text,
            member(at, "/membershipId"@),
            v.bnet_membership_id,
        )
    }

    fn decode_at(text: &str, at: &str) -> (r: Option<BnetMembership>) {
        let ptr = member_ptr(at, "/supplementalDisplayName");
        let combined_name = match <String as JsonDecode>::decode_at(text, ptr.as_str()) {
            Some(x) => x,
            None => return None,
        };
        let ptr = member_ptr(at, "/displayName");
        let display_name = match <String as JsonDecode>::decode_at(text, ptr.as_str()) {
            Some(x) => x,
            None => return None,
        };
        let ptr = member_ptr(at, "/iconPath");
        let icon_path = match <String as JsonDecode>::decode_at(text, ptr.as_str()) {
            Some(x) => x,
            None => return None,
        };
        let ptr = member_ptr(at, "/membershipId");
        let bnet_membership_id = match <String as JsonDecode>::decode_at(text, ptr.as_str()) {
            Some(x) => x,
            None => return None,
        };
        Some(BnetMembership { combined_name, display_name, icon_path, bnet_membership_id })
    }
}
/// The profile that a search by Bungie name finds.
#[derive(Clone, Debug)]
pub struct PartialProfile {
    pub membership_id: String,
    pub membership_type: i16,
    pub cross_save_override: i16,
}

impl JsonDecode for PartialProfile {
    open spec fn decodable(text: Seq<char>, at: Seq<char>) -> bool {
        &&& <String as JsonDecode>::decodable(text, member(at, "/membershipId"@))
        &&& <i16 as JsonDecode>::decodable(text, member(at, "/membershipType"@))
        &&& <i16 as JsonDecode>::decodable(text, member(at, "/crossSaveOverride"@))
    }

    open spec fn decodes_to(text: Seq<char>, at: Seq<char>, v: PartialProfile) -> bool {
        &&& <String as JsonDecode>::decodes_to(text, member(at, "/membershipId"@), v.membership_id)
        &&& <i16 as JsonDecode>::decodes_to(text, member(at, "/membershipType"@), v.membership_type)
        &&& <i16 as JsonDecode>::decodes_to(
            text,
            member(at, "/crossSaveOverride"@),
            v.cross_save_override,
        )
    }

    fn decode_at(text: &str, at: &str) -> (r: Option<PartialProfile>) {
        let ptr = member_ptr(at, "/membershipId");
        let membership_id = match <String as JsonDecode>::decode_at(text, ptr.as_str()) {
            Some(x) => x,
            None => return None,
        };
        let ptr = member_ptr(at, "/membershipType");
        let membership_type = match <i16 as JsonDecode>::decode_at(text, ptr.as_str()) {
            Some(x) => x,
            None => return None,
        };
        let ptr = member_ptr(at, "/crossSaveOverride");
        let cross_save_override = match <i16 as JsonDecode>::decode_at(text, ptr.as_str()) {
            Some(x) => x,
            None => return None,
        };
        Some(PartialProfile { membership_id, membership_type, cross_save_override })
    }
}
impl DestinyProfile {
    /// The platform of the profile, if its code names one.
    pub fn get_platform(&self) -> (r: Option<DestinyPlatform>)
        ensures
            r == platform_of(self.platform),
    {
        DestinyPlatform::from_code(self.platform)
    }
}

impl DestinyProfile {
    /// The request for the user that owns this profile; none when the
    /// profile's platform code is unknown.
    pub fn get_bungie_user(&self, client: &ApiClient) -> (r: Option<HttpRequest>)
        ensures
            r is Some <==> platform_of(self.platform) is Some,
            r matches Some(req) ==> req@ == request_for(
                HttpMethod::Get,
                client@.key,
                linked_profiles_url(self.id@, platform_of(self.platform)->Some_0),
                seq![],
                None,
            ),
    {
        match DestinyPlatform::from_code(self.platform) {
            Some(p) => Some(BungieUser::get_user_by_id(client, self.id.clone(), p)),
            None => None,
        }
    }
}

impl Default for DestinyProfile {
    /// A profile with empty texts, zero codes and nothing optional.
    fn default() -> (r: DestinyProfile)
        ensures
            r.id@ == Seq::<char>::empty(),
            r.platform == 0,
            r.platform_display_name@ == Seq::<char>::empty(),
            r.cross_save_override == 0,
            r.global_display_name@ == Seq::<char>::empty(),
            r.discriminator == 0,
            !r.is_public,
            r.is_overridden is None,
            r.is_cross_save_primary is None,
            r.membership_types.len() == 0,
            r.date_last_played is None,
            r.last_seen_display_name is None,
            r.last_seen_display_name_type is None,
    {
        DestinyProfile {
            id: String::new(),
            platform: 0,
            platform_display_name: String::new(),
            cross_save_override: 0,
            global_display_name: String::new(),
            discriminator: 0,
            is_public: false,
            is_overridden: None,
            is_cross_save_primary: None,
            membership_types: Vec::new(),
            date_last_played: None,
            last_seen_display_name: None,
            last_seen_display_name_type: None,
        }
    }
}

/// Whether a profile takes precedence over the others of its account: its
/// cross-save override is its own platform, or there is none.
pub open spec fn is_primary(p: DestinyProfile) -> bool {
    p.cross_save_override == p.platform || p.cross_save_override == 0
}

/// Whether `i` is the first primary profile of the list.
pub open spec fn first_primary(s: Seq<DestinyProfile>, i: int) -> bool {
    &&& 0 <= i < s.len()
    &&& is_primary(s[i])
    &&& forall|j: int| 0 <= j < i ==> !is_primary(#[trigger] s[j])
}

/// Whether the list holds no primary profile.
pub open spec fn no_primary(s: Seq<DestinyProfile>) -> bool {
    forall|j: int| 0 <= j < s.len() ==> !is_primary(#[trigger] s[j])
}

/// The position of the first primary profile of the list.
pub fn primary_index(list: &Vec<DestinyProfile>) -> (r: Option<usize>)
    ensures
        r matches Some(i) ==> first_primary(list@, i as int),
        r is None <==> no_primary(list@),
{
    let mut i: usize = 0;
    while i < list.len()
        invariant
            i <= list.len(),
            forall|j: int| 0 <= j < i ==> !is_primary(#[trigger] list@[j]),
        decreases list.len() - i,
    {
        let p = &list[i];
        if p.cross_save_override == p.platform || p.cross_save_override == 0 {
            return Some(i);
        }
        i = i + 1;
    }
    None
}

/// The primary profile of an account: the first of its profiles whose
/// cross-save override is its own platform or is unset.
pub fn get_primary_profile(list: Vec<DestinyProfile>) -> (r: Option<DestinyProfile>)
    ensures
        r is None <==> no_primary(list@),
        r matches Some(p) ==> exists|i: int| first_primary(list@, i) && list@[i] == p,
{
    let mut list = list;
    match primary_index(&list) {
        Some(i) => {
            let ghost before = list@;
            let p = list.remove(i);
            assert(first_primary(before, i as int) && before[i as int] == p);
            Some(p)
        },
        None => None,
    }
}

/// Whether a found profile takes precedence over the others of its account.
pub open spec fn is_primary_partial(p: PartialProfile) -> bool {
    p.cross_save_override == p.membership_type || p.cross_save_override == 0
}

/// The primary one of the profiles that a search found: the first whose
/// cross-save override is its own platform or is unset.
pub fn get_primary_partial_profile(list: Vec<PartialProfile>) -> (r: Option<PartialProfile>)
    ensures
        r is None <==> forall|j: int|
            0 <= j < list.len() ==> !is_primary_partial(#[trigger] list@[j]),
        r matches Some(p) ==> exists|i: int|
            {
                &&& 0 <= i < list.len()
                &&& list@[i] == p
                &&& is_primary_partial(p)
                &&& forall|j: int| 0 <= j < i ==> !is_primary_partial(#[trigger] list@[j])
            },
{
    match partial_primary_index(&list) {
        Some(k) => {
            let mut rest = list;
            let p = rest.remove(k);
            Some(p)
        },
        None => None,
    }
}

fn partial_primary_index(list: &Vec<PartialProfile>) -> (r: Option<usize>)
    ensures
        r matches Some(i) ==> {
            &&& i < list.len()
            &&& is_primary_partial(list@[i as int])
            &&& forall|j: int| 0 <= j < i ==> !is_primary_partial(#[trigger] list@[j])
        },
        r is None ==> forall|j: int|
            0 <= j < list.len() ==> !is_primary_partial(#[trigger] list@[j]),
{
    let mut i: usize = 0;
    while i < list.len()
        invariant
            i <= list.len(),
            forall|j: int| 0 <= j < i ==> !is_primary_partial(#[trigger] list@[j]),
        decreases list.len() - i,
    {
        let p = &list[i];
        if p.cross_save_override == p.membership_type || p.cross_save_override == 0 {
            return Some(i);
        }
        i = i + 1;
    }
    None
}

/// A user: the profiles of the account, the primary one among them, and the
/// Bungie.net account.
pub struct BungieUser {
    pub memberships: Vec<DestinyProfile>,
    pub primary: DestinyProfile,
    pub bnet_membership: BnetMembership,
}

/// Why a lookup of a user failed.
#[derive(Debug)]
pub enum LookupError {
    /// The call failed, or its response could not be read.
    Api(ApiError),
    /// The account holds no primary profile.
    NoPrimaryProfile,
    /// The name does not have the form `name#code`; it holds the name given.
    MalformedName(String),
    /// The search found nobody.
    NoMatch,
    /// A profile names a platform code that is unknown.
    UnknownPlatform(i16),
}

/// Where the profiles of a linked-profiles response stand.
pub open spec fn profiles_ptr() -> Seq<char> {
    "/Response/profiles"@
}

/// Where the Bungie.net account of a linked-profiles response stands.
pub open spec fn bnet_ptr() -> Seq<char> {
    "/Response/bnetMembership"@
}

/// Whether `u` is the user that the linked-profiles response `text` describes.
pub open spec fn user_from_response(text: Seq<char>, u: BungieUser) -> bool {
    &&& <Vec<DestinyProfile> as JsonDecode>::decodes_to(text, profiles_ptr(), u.memberships)
    &&& BnetMembership::decodes_to(text, bnet_ptr(), u.bnet_membership)
    &&& exists|i: int|
        first_primary(u.memberships@, i) && DestinyProfile::decodes_to(
            text,
            element(profiles_ptr(), i as nat),
            u.primary,
        )
}

/// Whether the linked-profiles response can be read: a JSON document with
/// a list of profiles and a Bungie.net account.
pub open spec fn user_response_readable(text: Seq<char>) -> bool {
    &&& json_valid(text)
    &&& <Vec<DestinyProfile> as JsonDecode>::decodable(text, profiles_ptr())
    &&& BnetMembership::decodable(text, bnet_ptr())
}

impl BungieUser {
    /// Reads a user from the response of the linked-profiles endpoint; the
    /// primary profile is the first primary one of the list.
    pub fn new(text: &str) -> (r: Result<BungieUser, LookupError>)
        ensures
            r matches Ok(u) ==> user_response_readable(text@) && user_from_response(text@, u),
            r matches Err(e) ==> match e {
                LookupError::Api(ApiError::Deserialization) => !user_response_readable(text@),
                LookupError::NoPrimaryProfile => user_response_readable(text@) && !has_primary_at(
                    text@,
                    profiles_ptr(),
                ),
                _ => false,
            },
            !user_response_readable(text@) ==> r is Err,
    {
        if !is_json(text) {
            return Err(LookupError::Api(ApiError::Deserialization));
        }
        let list_ptr = "/Response/profiles";
        let memberships = match <Vec<DestinyProfile> as JsonDecode>::decode_at(text, list_ptr) {
            Some(v) => v,
            None => return Err(LookupError::Api(ApiError::Deserialization)),
        };
        let bnet_membership = match BnetMembership::decode_at(text, "/Response/bnetMembership") {
            Some(b) => b,
            None => return Err(LookupError::Api(ApiError::Deserialization)),
        };
        let ghost decoded = memberships;
        let i = match primary_index(&memberships) {
            Some(i) => i,
            None => {
                assert(!has_primary_at(text@, profiles_ptr())) by {
                    assert forall|k: nat| !first_primary_at(text@, profiles_ptr(), k) by {
                        if k < decoded.len() {
                            lemma_primary_matches_text(text@, profiles_ptr(), decoded, k as int);
                            assert(!is_primary(decoded@[k as int]));
                        }
                    }
                }
                return Err(LookupError::NoPrimaryProfile);
            },
        };
        let ptr = element_ptr(list_ptr, i);
        assert(DestinyProfile::decodable(text@, element(profiles_ptr(), i as nat)));
        match DestinyProfile::decode_at(text, ptr.as_str()) {
            Some(primary) => Ok(BungieUser { memberships, primary, bnet_membership }),
            None => Err(LookupError::Api(ApiError::Deserialization)),
        }
    }
}

/// Whether the text holds no `#`.
pub open spec fn hash_free(s: Seq<char>) -> bool {
    forall|i: int| 0 <= i < s.len() ==> s[i] != '#'
}

/// Whether the text holds exactly one `#`, at position `k`.
pub open spec fn single_hash_at(s: Seq<char>, k: int) -> bool {
    &&& 0 <= k < s.len()
    &&& s[k] == '#'
    &&& hash_free(s.subrange(0, k))
    &&& hash_free(s.subrange(k + 1, s.len() as int))
}

/// Whether the text has the form `name#code`: exactly one `#`.
pub open spec fn is_bungie_name(s: Seq<char>) -> bool {
    exists|k: int| single_hash_at(s, k)
}

/// Splits `name#code` at its `#`; a text with no `#`, or with more than one,
/// is not a Bungie name.
pub fn split_bungie_name(name_and_discrim: &str) -> (r: Result<(String, String), LookupError>)
    ensures
        r is Ok <==> is_bungie_name(name_and_discrim@),
        r matches Ok((name, code)) ==> {
            &&& name_and_discrim@ == name@ + seq!['#'] + code@
            &&& hash_free(name@)
            &&& hash_free(code@)
        },
        r matches Err(e) ==> e matches LookupError::MalformedName(given) && given@
            == name_and_discrim@,
{
    let s = name_and_discrim;
    let n = s.unicode_len();
    let mut first: Option<usize> = None;
    let mut second: Option<usize> = None;
    let mut i: usize = 0;
    while i < n
        invariant
            i <= n,
            n == s@.len(),
            first is None ==> forall|j: int| 0 <= j < i ==> s@[j] != '#',
            first matches Some(k) ==> {
                &&& k < i
                &&& s@[k as int] == '#'
                &&& forall|j: int| 0 <= j < k ==> s@[j] != '#'
            },
            second is None ==> (first matches Some(k) ==> forall|j: int|
                k < j < i ==> s@[j] != '#'),
            second matches Some(k2) ==> (first matches Some(k) && k < k2 < i && s@[k2 as int]
                == '#'),
        decreases n - i,
    {
        let c = s.get_char(i);
        if c == '#' {
            if first.is_none() {
                first = Some(i);
            } else if second.is_none() {
                second = Some(i);
            }
        }
        i = i + 1;
    }
    match (first, second) {
        (Some(k), None) => {
            let name = String::from_str(s.substring_char(0, k));
            let code = String::from_str(s.substring_char(k + 1, n));
            assert(s@ =~= name@ + seq!['#'] + code@);
            assert(single_hash_at(s@, k as int));
            Ok((name, code))
        },
        (Some(k), Some(k2)) => {
            assert forall|m: int| !single_hash_at(s@, m) by {
                if 0 <= m < s@.len() && s@[m] == '#' {
                    if m == k {
                        assert(s@.subrange(m + 1, s@.len() as int)[k2 - m - 1] == '#');
                    } else {
                        assert(s@.subrange(0, m)[k as int] == '#');
                    }
                }
            }
            Err(LookupError::MalformedName(String::from_str(s)))
        },
        (None, _) => Err(LookupError::MalformedName(String::from_str(s))),
    }
}

/// The body of a search by Bungie name: `{"displayName":…,"displayNameCode":…}`.
pub open spec fn bungie_name_body(name: Seq<char>, code: Seq<char>) -> Seq<char> {
    "{\"displayName\":"@ + json_quoted(name) + ",\"displayNameCode\":"@ + json_quoted(code)
        + "}"@
}

/// Writes the body of a search by Bungie name.
pub fn bungie_name_search_body(name: &str, code: &str) -> (r: String)
    ensures
        r@ == bungie_name_body(name@, code@),
{
    let s = String::from_str("{\"displayName\":");
    let s = s.concat(quote_json_string(name).as_str());
    let s = s.concat(",\"displayNameCode\":");
    let s = s.concat(quote_json_string(code).as_str());
    let s = s.concat("}");
    assert(s@ =~= bungie_name_body(name@, code@));
    s
}

/// The body of a search by the start of a global name:
/// `{"displayNamePrefix":…}`.
pub open spec fn name_prefix_body(prefix: Seq<char>) -> Seq<char> {
    "{\"displayNamePrefix\":"@ + json_quoted(prefix) + "}"@
}

/// Writes the body of a search by the start of a global name.
pub fn name_prefix_search_body(prefix: &str) -> (r: String)
    ensures
        r@ == name_prefix_body(prefix@),
{
    let s = String::from_str("{\"displayNamePrefix\":");
    let s = s.concat(quote_json_string(prefix).as_str());
    let s = s.concat("}");
    assert(s@ =~= name_prefix_body(prefix@));
    s
}

/// The endpoint of the profiles linked to a profile.
pub open spec fn linked_profiles_url(id: Seq<char>, platform: DestinyPlatform) -> Seq<char> {
    api_base() + "/Destiny2/"@ + signed_decimal(platform.code() as int) + "/Profile/"@ + id
        + "/LinkedProfiles/"@
}

/// The endpoint of the search by Bungie name on a platform.
pub open spec fn bungie_name_search_url(platform: DestinyPlatform) -> Seq<char> {
    api_base() + "/Destiny2/SearchDestinyPlayerByBungieName/"@ + signed_decimal(
        platform.code() as int,
    ) + "/"@
}

/// The endpoint of one page of the search by global name.
pub open spec fn global_name_search_url(page: nat) -> Seq<char> {
    api_base() + "/User/Search/GlobalName/"@ + decimal(page) + "/"@
}

/// The endpoint of the characters of a profile.
pub open spec fn characters_url(platform: i16, id: Seq<char>) -> Seq<char> {
    api_base() + "/Destiny2/"@ + signed_decimal(platform as int) + "/Profile/"@ + id
        + "/?components=Characters"@
}

/// Where the matches of a search by Bungie name stand.
pub open spec fn name_matches_ptr() -> Seq<char> {
    "/Response"@
}

/// Where the results of a page of the search by global name stand.
pub open spec fn search_results_ptr() -> Seq<char> {
    "/Response/searchResults"@
}

/// Where the profiles of the `i`-th result of a page stand.
pub open spec fn result_profiles_ptr(i: nat) -> Seq<char> {
    member(element(search_results_ptr(), i), "/destinyMemberships"@)
}

/// Whether the profile at `at` is primary, as its codes are written.
pub open spec fn primary_at(text: Seq<char>, at: Seq<char>) -> bool {
    json_int_at(text, member(at, "/crossSaveOverride"@)) matches Some(c) && (c == 0
        || json_int_at(text, member(at, "/membershipType"@)) == Some(c))
}

/// Whether `k` is the first primary profile of the list at `at`.
pub open spec fn first_primary_at(text: Seq<char>, at: Seq<char>, k: nat) -> bool {
    &&& json_len_at(text, at) matches Some(n) && k < n
    &&& primary_at(text, element(at, k))
    &&& forall|j: nat| j < k ==> !primary_at(text, #[trigger] element(at, j))
}

/// Whether the list at `at` holds a primary profile.
pub open spec fn has_primary_at(text: Seq<char>, at: Seq<char>) -> bool {
    exists|k: nat| first_primary_at(text, at, k)
}

/// The results, among the first `n` of a page, whose profiles hold a
/// primary one, in order.
pub open spec fn results_with_primary(text: Seq<char>, n: nat) -> Seq<nat>
    decreases n,
{
    if n == 0 {
        seq![]
    } else {
        results_with_primary(text, (n - 1) as nat) + if has_primary_at(
            text,
            result_profiles_ptr((n - 1) as nat),
        ) {
            seq![(n - 1) as nat]
        } else {
            seq![]
        }
    }
}

/// Whether `p` is the primary profile of the `i`-th result of a page.
pub open spec fn found_entry(text: Seq<char>, i: nat, p: DestinyProfile) -> bool {
    exists|k: nat|
        #[trigger] first_primary_at(text, result_profiles_ptr(i), k) && DestinyProfile::decodes_to(
            text,
            element(result_profiles_ptr(i), k),
            p,
        )
}

/// What one page of the search by global name brings.
pub enum SearchPage {
    /// There are no more results: the search is over.
    End,
    /// The primary profile of each result that has one, in order.
    Results(Vec<DestinyProfile>),
}

/// Whether a page can be read: a JSON document, and if it holds results, each
/// with a list of profiles.
pub open spec fn search_page_readable(text: Seq<char>) -> bool {
    &&& json_valid(text)
    &&& json_len_at(text, search_results_ptr()) matches Some(n) ==> forall|i: nat|
        i < n ==> #[trigger] <Vec<DestinyProfile> as JsonDecode>::decodable(
            text,
            result_profiles_ptr(i),
        )
}

/// Whether a page ends the search: its results are not a list.
pub open spec fn search_page_ends(text: Seq<char>) -> bool {
    json_len_at(text, search_results_ptr()) is None
}

proof fn lemma_primary_matches_text(
    text: Seq<char>,
    at: Seq<char>,
    v: Vec<DestinyProfile>,
    k: int,
)
    requires
        <Vec<DestinyProfile> as JsonDecode>::decodes_to(text, at, v),
        0 <= k < v.len(),
    ensures
        is_primary(v@[k]) <==> primary_at(text, element(at, k as nat)),
{
    assert(DestinyProfile::decodes_to(text, element(at, k as nat), v@[k]));
}

impl BungieUser {
    /// The request for the user that owns the profile `id` on `platform`;
    /// `BungieUser::new` reads its response.
    pub fn get_user_by_id(client: &ApiClient, id: String, platform: DestinyPlatform) -> (r:
        HttpRequest)
        ensures
            r@ == request_for(
                HttpMethod::Get,
                client@.key,
                linked_profiles_url(id@, platform),
                seq![],
                None,
            ),
    {
        let url = String::from_str(url_base());
        let url = url.concat("/Destiny2/");
        let url = url.concat(signed_text(platform.get_code() as i64).as_str());
        let url = url.concat("/Profile/");
        let url = url.concat(id.as_str());
        let url = url.concat("/LinkedProfiles/");
        assert(url@ =~= linked_profiles_url(id@, platform));
        client.get(url)
    }

    /// The request for one page of the search by the start of a global name;
    /// `search_page` reads its response.
    pub fn get_users_with_name(client: &ApiClient, name: &str, page: u64) -> (r: HttpRequest)
        ensures
            r@ == request_for(
                HttpMethod::Post,
                client@.key,
                global_name_search_url(page as nat),
                seq![],
                Some(name_prefix_body(name@)),
            ),
    {
        let url = String::from_str(url_base());
        let url = url.concat("/User/Search/GlobalName/");
        let url = url.concat(unsigned_text(page).as_str());
        let url = url.concat("/");
        assert(url@ =~= global_name_search_url(page as nat));
        client.post(url, name_prefix_search_body(name))
    }

    /// The request of the search for a user by Bungie name (`name#code`) on a
    /// platform; `first_name_match` reads its response. A name without
    /// exactly one `#` is refused.
    pub fn get_user_by_name_and_discrim_with_platform(
        client: &ApiClient,
        name_and_discrim: &str,
        platform: DestinyPlatform,
    ) -> (r: Result<HttpRequest, LookupError>)
        ensures
            r is Ok <==> is_bungie_name(name_and_discrim@),
            r matches Err(e) ==> e matches LookupError::MalformedName(given) && given@
                == name_and_discrim@,
            r matches Ok(req) ==> exists|name: Seq<char>, code: Seq<char>|
                {
                    &&& name_and_discrim@ == name + seq!['#'] + code
                    &&& hash_free(name)
                    &&& hash_free(code)
                    &&& req@ == request_for(
                        HttpMethod::Post,
                        client@.key,
                        bungie_name_search_url(platform),
                        seq![],
                        Some(bungie_name_body(name, code)),
                    )
                },
    {
        let (name, code) = match split_bungie_name(name_and_discrim) {
            Ok(parts) => parts,
            Err(e) => return Err(e),
        };
        let url = String::from_str(url_base());
        let url = url.concat("/Destiny2/SearchDestinyPlayerByBungieName/");
        let url = url.concat(signed_text(platform.get_code() as i64).as_str());
        let url = url.concat("/");
        assert(url@ =~= bungie_name_search_url(platform));
        let body = bungie_name_search_body(name.as_str(), code.as_str());
        Ok(client.post(url, body))
    }

    /// The request for the characters of the user's primary profile.
    pub fn get_characters(&self, client: &ApiClient) -> (r: HttpRequest)
        ensures
            r@ == request_for(
                HttpMethod::Get,
                client@.key,
                characters_url(self.primary.platform, self.primary.id@),
                seq![],
                None,
            ),
    {
        let url = String::from_str(url_base());
        let url = url.concat("/Destiny2/");
        let url = url.concat(signed_text(self.primary.platform as i64).as_str());
        let url = url.concat("/Profile/");
        let url = url.concat(self.primary.id.as_str());
        let url = url.concat("/?components=Characters");
        assert(url@ =~= characters_url(self.primary.platform, self.primary.id@));
        client.get(url)
    }
}

/// Reads the first match of a search by Bungie name.
pub fn first_name_match(text: &str) -> (r: Result<PartialProfile, LookupError>)
    ensures
        r matches Ok(p) ==> {
            &&& json_valid(text@)
            &&& <Vec<PartialProfile> as JsonDecode>::decodable(text@, name_matches_ptr())
            &&& json_len_at(text@, name_matches_ptr()) matches Some(n) && n > 0
            &&& PartialProfile::decodes_to(text@, element(name_matches_ptr(), 0), p)
        },
        r matches Err(e) ==> match e {
            LookupError::Api(ApiError::Deserialization) => !(json_valid(text@)
                && <Vec<PartialProfile> as JsonDecode>::decodable(text@, name_matches_ptr())),
            LookupError::NoMatch => json_valid(text@) && json_len_at(text@, name_matches_ptr())
                == Some(0usize),
            _ => false,
        },
        json_valid(text@) && json_len_at(text@, name_matches_ptr()) == Some(0usize) ==> r matches Err(
            LookupError::NoMatch,
        ),
{
    if !is_json(text) {
        return Err(LookupError::Api(ApiError::Deserialization));
    }
    let mut found = match <Vec<PartialProfile> as JsonDecode>::decode_at(text, "/Response") {
        Some(v) => v,
        None => return Err(LookupError::Api(ApiError::Deserialization)),
    };
    if found.len() == 0 {
        return Err(LookupError::NoMatch);
    }
    let ghost all = found;
    let first = found.remove(0);
    assert(PartialProfile::decodes_to(text@, element(name_matches_ptr(), 0), all@[0]));
    Ok(first)
}

/// The request for the user that a search by Bungie name found; a match
/// whose platform code is unknown is refused.
pub fn user_of_match(client: &ApiClient, found: PartialProfile) -> (r: Result<
    HttpRequest,
    LookupError,
>)
    ensures
        r matches Ok(req) ==> platform_of(found.membership_type) matches Some(p) && req@
            == request_for(
            HttpMethod::Get,
            client@.key,
            linked_profiles_url(found.membership_id@, p),
            seq![],
            None,
        ),
        r matches Err(e) ==> platform_of(found.membership_type) is None && e
            == LookupError::UnknownPlatform(found.membership_type),
{
    match DestinyPlatform::from_code(found.membership_type) {
        Some(p) => Ok(BungieUser::get_user_by_id(client, found.membership_id, p)),
        None => Err(LookupError::UnknownPlatform(found.membership_type)),
    }
}

/// Reads one page of the search by global name: the page ends the search when
/// it holds no list of results, and otherwise yields the primary profile of
/// each result that has one.
pub fn search_page(text: &str) -> (r: Result<SearchPage, LookupError>)
    ensures
        r is Err <==> !search_page_readable(text@),
        r matches Err(e) ==> e is Api && e->Api_0 is Deserialization,
        r matches Ok(SearchPage::End) ==> search_page_ends(text@),
        r matches Ok(SearchPage::Results(found)) ==> {
            &&& json_len_at(text@, search_results_ptr()) matches Some(n)
            &&& results_with_primary(text@, n as nat).len() == found.len()
            &&& forall|t: int|
                0 <= t < found.len() ==> found_entry(
                    text@,
                    results_with_primary(text@, n as nat)[t],
                    #[trigger] found@[t],
                )
        },
{
    if !is_json(text) {
        return Err(LookupError::Api(ApiError::Deserialization));
    }
    let results_ptr = "/Response/searchResults";
    let n = match len_at(text, results_ptr) {
        Some(n) => n,
        None => return Ok(SearchPage::End),
    };
    let mut found: Vec<DestinyProfile> = Vec::new();
    let mut i: usize = 0;
    while i < n
        invariant
            i <= n,
            json_valid(text@),
            results_ptr@ == search_results_ptr(),
            json_len_at(text@, search_results_ptr()) == Some(n),
            forall|j: nat|
                j < i ==> #[trigger] <Vec<DestinyProfile> as JsonDecode>::decodable(
                    text@,
                    result_profiles_ptr(j),
                ),
            found.len() == results_with_primary(text@, i as nat).len(),
            forall|t: int|
                0 <= t < found.len() ==> found_entry(
                    text@,
                    results_with_primary(text@, i as nat)[t],
                    #[trigger] found@[t],
                ),
        decreases n - i,
    {
        let item = element_ptr(results_ptr, i);
        let profiles = member_ptr(item.as_str(), "/destinyMemberships");
        let ghost at = result_profiles_ptr(i as nat);
        assert(item@ == element(search_results_ptr(), i as nat));
        assert(profiles@ == at);
        let mut list = match <Vec<DestinyProfile> as JsonDecode>::decode_at(
            text,
            profiles.as_str(),
        ) {
            Some(v) => v,
            None => return Err(LookupError::Api(ApiError::Deserialization)),
        };
        let ghost decoded = list;
        assert forall|k: int| 0 <= k < decoded.len() implies (is_primary(decoded@[k])
            <==> primary_at(text@, element(at, k as nat))) by {
            lemma_primary_matches_text(text@, at, decoded, k);
        }
        let ghost before = results_with_primary(text@, i as nat);
        match primary_index(&list) {
            Some(k) => {
                assert(first_primary_at(text@, at, k as nat)) by {
                    assert forall|j: nat| j < k implies !primary_at(
                        text@,
                        #[trigger] element(at, j),
                    ) by {
                        assert(!is_primary(decoded@[j as int]));
                    }
                }
                assert(has_primary_at(text@, at));
                assert(results_with_primary(text@, (i + 1) as nat) == before + seq![i as nat]);
                let p = list.remove(k);
                assert(DestinyProfile::decodes_to(text@, element(at, k as nat), p));
                assert(found_entry(text@, i as nat, p));
                found.push(p);
            },
            None => {
                assert(!has_primary_at(text@, at)) by {
                    assert forall|k: nat| !first_primary_at(text@, at, k) by {
                        if k < decoded.len() {
                            assert(!is_primary(decoded@[k as int]));
                        }
                    }
                }
                assert(results_with_primary(text@, (i + 1) as nat) =~= before);
            },
        }
        i = i + 1;
    }
    Ok(SearchPage::Results(found))
}

/// A response of the profile endpoint: the envelope, with its `Response`.
#[derive(Clone, Debug)]
pub struct ProfileEnvelope {
    pub response: ProfileResponse,
}

impl JsonDecode for ProfileEnvelope {
    open spec fn decodable(text: Seq<char>, at: Seq<char>) -> bool {
        &&& <ProfileResponse as JsonDecode>::decodable(text, member(at, "/Response"@))
    }

    open spec fn decodes_to(text: Seq<char>, at: Seq<char>, v: ProfileEnvelope) -> bool {
        &&& <ProfileResponse as JsonDecode>::decodes_to(text, member(at, "/Response"@), v.response)
    }

    fn decode_at(text: &str, at: &str) -> (r: Option<ProfileEnvelope>) {
        let ptr = member_ptr(at, "/Response");
        let response = match <ProfileResponse as JsonDecode>::decode_at(text, ptr.as_str()) {
            Some(x) => x,
            None => return None,
        };
        Some(ProfileEnvelope { response })
    }
}
/// The components of a profile that a request asked for.
#[derive(Clone, Debug)]
pub struct ProfileResponse {
    pub profile: ProfileComponent,
}

impl JsonDecode for ProfileResponse {
    open spec fn decodable(text: Seq<char>, at: Seq<char>) -> bool {
        &&& <ProfileComponent as JsonDecode>::decodable(text, member(at, "/profile"@))
    }

    open spec fn decodes_to(text: Seq<char>, at: Seq<char>, v: ProfileResponse) -> bool {
        &&& <ProfileComponent as JsonDecode>::decodes_to(text, member(at, "/profile"@), v.profile)
    }

    fn decode_at(text: &str, at: &str) -> (r: Option<ProfileResponse>) {
        let ptr = member_ptr(at, "/profile");
        let profile = match <ProfileComponent as JsonDecode>::decode_at(text, ptr.as_str()) {
            Some(x) => x,
            None => return None,
        };
        Some(ProfileResponse { profile })
    }
}
/// The profile component of a profile response.
#[derive(Clone, Debug)]
pub struct ProfileComponent {
    pub data: ProfileData,
}

impl JsonDecode for ProfileComponent {
    open spec fn decodable(text: Seq<char>, at: Seq<char>) -> bool {
        &&& <ProfileData as JsonDecode>::decodable(text, member(at, "/data"@))
    }

    open spec fn decodes_to(text: Seq<char>, at: Seq<char>, v: ProfileComponent) -> bool {
        &&& <ProfileData as JsonDecode>::decodes_to(text, member(at, "/data"@), v.data)
    }

    fn decode_at(text: &str, at: &str) -> (r: Option<ProfileComponent>) {
        let ptr = member_ptr(at, "/data");
        let data = match <ProfileData as JsonDecode>::decode_at(text, ptr.as_str()) {
            Some(x) => x,
            None => return None,
        };
        Some(ProfileComponent { data })
    }
}
/// What the profile component holds: who the profile is and its characters.
#[derive(Clone, Debug)]
pub struct ProfileData {
    pub user_info: DestinyProfile,
    pub date_last_played: Option<Timestamp>,
    pub character_ids: Vec<String>,
}

impl JsonDecode for ProfileData {
    open spec fn decodable(text: Seq<char>, at: Seq<char>) -> bool {
        &&& <DestinyProfile as JsonDecode>::decodable(text, member(at, "/userInfo"@))
        &&& (missing(text, member(at, "/dateLastPlayed"@))
            || Timestamp::decodable(text, member(at, "/dateLastPlayed"@)))
        &&& (missing(text, member(at, "/characterIds"@))
            || <Vec<String> as JsonDecode>::decodable(text, member(at, "/characterIds"@)))
    }

    open spec fn decodes_to(text: Seq<char>, at: Seq<char>, v: ProfileData) -> bool {
        &&& <DestinyProfile as JsonDecode>::decodes_to(text, member(at, "/userInfo"@), v.user_info)
        &&& if missing(text, member(at, "/dateLastPlayed"@)) {
            v.date_last_played is None
        } else {
            v.date_last_played matches Some(t) && Timestamp::decodes_to(
                text,
                member(at, "/dateLastPlayed"@),
                t,
            )
        }
        &&& if missing(text, member(at, "/characterIds"@)) {
            v.character_ids.len() == 0
        } else {
            <Vec<String> as JsonDecode>::decodes_to(
                text,
                member(at, "/characterIds"@),
                v.character_ids,
            )
        }
    }

    fn decode_at(text: &str, at: &str) -> (r: Option<ProfileData>) {
        let ptr = member_ptr(at, "/userInfo");
        let user_info = match <DestinyProfile as JsonDecode>::decode_at(text, ptr.as_str()) {
            Some(x) => x,
            None => return None,
        };
        let ptr = member_ptr(at, "/dateLastPlayed");
        let date_last_played = if is_missing(text, ptr.as_str()) {
            Some(None)
        } else {
            match Timestamp::decode_at(text, ptr.as_str()) {
                Some(t) => Some(Some(t)),
                None => None,
            }
        };
        let date_last_played = match date_last_played {
            Some(x) => x,
            None => return None,
        };
        let ptr = member_ptr(at, "/characterIds");
        let character_ids = if is_missing(text, ptr.as_str()) {
            Some(Vec::new())
        } else {
            <Vec<String> as JsonDecode>::decode_at(text, ptr.as_str())
        };
        let character_ids = match character_ids {
            Some(x) => x,
            None => return None,
        };
        Some(ProfileData { user_info, date_last_played, character_ids })
    }
}
/// Where the membership id of a profile response stands.
pub open spec fn profile_membership_id_ptr() -> Seq<char> {
    member(
        member(member(member(member(""@, "/Response"@), "/profile"@), "/data"@), "/userInfo"@),
        "/membershipId"@,
    )
}

/// A profile response whose membership id is missing, or is not a string, is
/// not read as a profile: reading it fails rather than yielding an empty id.
pub proof fn lemma_profile_requires_membership_id(text: Seq<char>)
    requires
        json_string_at(text, profile_membership_id_ptr()) is None,
    ensures
        !document_decodable::<ProfileEnvelope>(text),
{
}

/// The endpoint of a profile.
pub open spec fn profile_url(platform: DestinyPlatform, id: Seq<char>) -> Seq<char> {
    api_base() + "/Destiny2/"@ + signed_decimal(platform.code() as int) + "/Profile/"@ + id + "/"@
}

impl ProfileEnvelope {
    /// The request for the given components of the profile `id` on
    /// `platform`; `components` is sent as the query pair `components`.
    pub fn get_profile(
        client: &ApiClient,
        platform: DestinyPlatform,
        id: &str,
        components: &str,
    ) -> (r: HttpRequest)
        ensures
            r@ == request_for(
                HttpMethod::Get,
                client@.key,
                profile_url(platform, id@),
                seq![("components"@, components@)],
                None,
            ),
    {
        let url = String::from_str(url_base());
        let url = url.concat("/Destiny2/");
        let url = url.concat(signed_text(platform.get_code() as i64).as_str());
        let url = url.concat("/Profile/");
        let url = url.concat(id);
        let url = url.concat("/");
        assert(url@ =~= profile_url(platform, id@));
        let params = vec![(String::from_str("components"), String::from_str(components))];
        let r = client.get_params(url, params);
        assert(r@.query =~= seq![("components"@, components@)]);
        r
    }
}

/// A client together with the lookups that most programs start from.
pub struct ApiInterface {
    pub client: ApiClient,
}

impl ApiInterface {
    /// An interface whose client has the given key, with debug logging on or
    /// off.
    pub fn new(apikey: &str, debug: bool) -> (r: ApiInterface)
        ensures
            r.client@.key == apikey@,
            r.client@.debug == debug,
    {
        let mut client = ApiClient::new(apikey);
        if debug {
            client = client.enable_debug_mode();
        }
        ApiInterface { client }
    }

    /// The request for the user that owns the profile `id` on `platform`;
    /// `BungieUser::new` reads its response.
    pub fn get_user_by_id(&self, id: String, platform: DestinyPlatform) -> (r: HttpRequest)
        ensures
            r@ == request_for(
                HttpMethod::Get,
                self.client@.key,
                linked_profiles_url(id@, platform),
                seq![],
                None,
            ),
    {
        BungieUser::get_user_by_id(&self.client, id, platform)
    }
}

} // verus!
