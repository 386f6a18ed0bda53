//! The manifest: the published definitions of the game's content, looked up
//! by kind and hash, and the weekly clan rewards described there.
use vstd::prelude::*;
use crate::client::{ApiClient, ApiError, HttpMethod, HttpRequest, api_base, request_for, url_base};
use crate::json::{JsonDecode, absent, is_json, json_valid, member, member_ptr};
use crate::text::{signed_decimal, signed_text};

verus! {

/// A kind of definition in the manifest.
#[derive(PartialEq, Eq, Structural, Clone, Copy, Debug)]
pub enum ManifestEntityType {
    ARTIFACT,
    BREAKERTYPE,
    COLLECTIBLE,
    EQUIPMENTSLOT,
    INVENTORYBUCKET,
    INVENTORYITEM,
    ITEMCATEGORY,
    ITEMSTAT,
    ITEMSTATGROUP,
    ITEMTIER,
    MATERIALREQUIREMENTSET,
    POWERCAP,
    RECORD,
    REWARDSOURCE,
    SANDBOXPERK,
    TALENTGRID,
    REWARDENTRY,
    CLASS,
    GENDER,
    MILESTONE,
    PROGRESSION,
    RACE,
    ACTIVITY,
    ACTIVITYGRAPH,
    ACTIVITYMODE,
    ACTIVITYMODIFIER,
    ACTIVITYTYPE,
    DAMAGETYPE,
    DESTINATION,
    FACTION,
    LOCATION,
    OBJECTIVE,
    PLACE,
    VENDOR,
    VENDORGROUP,
    CHECKLIST,
    ENERGYTYPE,
    HISTORICALSTATS,
    PRESENTATIONNODE,
    LORE,
    METRIC,
    PLUGSET,
    REPORTREASONCATEGORY,
    SEASON,
    SEASONPASS,
    SOCKETCATEGORY,
    SOCKETTYPE,
    TAGMETADATA,
    TRAIT,
    TRAITCATEGORY,
    UNLOCK,
}

impl ManifestEntityType {
    /// The name of the kind in the API.
    pub open spec fn name(self) -> Seq<char> {
        match self {
            ManifestEntityType::ARTIFACT => "DestinyArtifactDefinition"@,
            ManifestEntityType::BREAKERTYPE => "DestinyBreakerTypeDefinition"@,
            ManifestEntityType::COLLECTIBLE => "DestinyCollectibleDefinition"@,
            ManifestEntityType::EQUIPMENTSLOT => "DestinyEquipmentSlotDefinition"@,
            ManifestEntityType::INVENTORYBUCKET => "DestinyInventoryBucketDefinition"@,
            ManifestEntityType::INVENTORYITEM => "DestinyInventoryItemDefinition"@,
            ManifestEntityType::ITEMCATEGORY => "DestinyItemCategoryDefinition"@,
            ManifestEntityType::ITEMSTAT => "DestinyStatDefinition"@,
            ManifestEntityType::ITEMSTATGROUP => "DestinyStatGroupDefinition"@,
            ManifestEntityType::ITEMTIER => "DestinyItemTierTypeDefinition"@,
            ManifestEntityType::MATERIALREQUIREMENTSET => "DestinyMaterialRequirementSetDefinition"@,
            ManifestEntityType::POWERCAP => "DestinyPowerCapDefinition"@,
            ManifestEntityType::RECORD => "DestinyRecordDefinition"@,
            ManifestEntityType::REWARDSOURCE => "DestinyRewardSourceDefinition"@,
            ManifestEntityType::SANDBOXPERK => "DestinySandboxPerkDefinition"@,
            ManifestEntityType::TALENTGRID => "DestinyTalentGridDefinition"@,
            ManifestEntityType::REWARDENTRY => "DestinyMilestoneRewardEntryDefinition"@,
            ManifestEntityType::CLASS => "DestinyClassDefinition"@,
            ManifestEntityType::GENDER => "DestinyGenderDefinition"@,
            ManifestEntityType::MILESTONE => "DestinyMilestoneDefinition"@,
            ManifestEntityType::PROGRESSION => "DestinyProgressionDefinition"@,
            ManifestEntityType::RACE => "DestinyRaceDefinition"@,
            ManifestEntityType::ACTIVITY => "DestinyActivityDefinition"@,
            ManifestEntityType::ACTIVITYGRAPH => "DestinyActivityGraphDefinition"@,
            ManifestEntityType::ACTIVITYMODE => "DestinyActivityModeDefinition"@,
            ManifestEntityType::ACTIVITYMODIFIER => "DestinyActivityModifierDefinition"@,
            ManifestEntityType::ACTIVITYTYPE => "DestinyActivityTypeDefinition"@,
            ManifestEntityType::DAMAGETYPE => "DestinyDamageTypeDefinition"@,
            ManifestEntityType::DESTINATION => "DestinyDestinationDefinition"@,
            ManifestEntityType::FACTION => "DestinyFactionDefinition"@,
            ManifestEntityType::LOCATION => "DestinyLocationDefinition"@,
            ManifestEntityType::OBJECTIVE => "DestinyObjectiveDefinition"@,
            ManifestEntityType::PLACE => "DestinyPlaceDefinition"@,
            ManifestEntityType::VENDOR => "DestinyVendorDefinition"@,
            ManifestEntityType::VENDORGROUP => "DestinyVendorGroupDefinition"@,
            ManifestEntityType::CHECKLIST => "DestinyChecklistDefinition"@,
            ManifestEntityType::ENERGYTYPE => "DestinyEnergyTypeDefinition"@,
            ManifestEntityType::HISTORICALSTATS => "DestinyHistoricalStatsDefinition"@,
            ManifestEntityType::PRESENTATIONNODE => "DestinyPresentationNodeDefinition"@,
            ManifestEntityType::LORE => "DestinyLoreDefinition"@,
            ManifestEntityType::METRIC => "DestinyMetricDefinition"@,
            ManifestEntityType::PLUGSET => "DestinyPlugSetDefinition"@,
            ManifestEntityType::REPORTREASONCATEGORY => "DestinyReportReasonCategoryDefinition"@,
            ManifestEntityType::SEASON => "DestinySeasonDefinition"@,
            ManifestEntityType::SEASONPASS => "DestinySeasonPassDefinition"@,
            ManifestEntityType::SOCKETCATEGORY => "DestinySocketCategoryDefinition"@,
            ManifestEntityType::SOCKETTYPE => "DestinySocketTypeDefinition"@,
            ManifestEntityType::TAGMETADATA => "TagMetadataDefinition"@,
            ManifestEntityType::TRAIT => "DestinyTraitDefinition"@,
            ManifestEntityType::TRAITCATEGORY => "DestinyTraitCategoryDefinition"@,
            ManifestEntityType::UNLOCK => "DestinyUnlockDefinition"@,
        }
    }

    /// The name of the kind in the API.
    pub fn get(&self) -> (r: String)
        ensures
            r@ == self.name(),
    {
        let s = match self {
            ManifestEntityType::ARTIFACT => "DestinyArtifactDefinition",
            ManifestEntityType::BREAKERTYPE => "DestinyBreakerTypeDefinition",
            ManifestEntityType::COLLECTIBLE => "DestinyCollectibleDefinition",
            ManifestEntityType::EQUIPMENTSLOT => "DestinyEquipmentSlotDefinition",
            ManifestEntityType::INVENTORYBUCKET => "DestinyInventoryBucketDefinition",
            ManifestEntityType::INVENTORYITEM => "DestinyInventoryItemDefinition",
            ManifestEntityType::ITEMCATEGORY => "DestinyItemCategoryDefinition",
            ManifestEntityType::ITEMSTAT => "DestinyStatDefinition",
            ManifestEntityType::ITEMSTATGROUP => "DestinyStatGroupDefinition",
            ManifestEntityType::ITEMTIER => "DestinyItemTierTypeDefinition",
            ManifestEntityType::MATERIALREQUIREMENTSET => "DestinyMaterialRequirementSetDefinition",
            ManifestEntityType::POWERCAP => "DestinyPowerCapDefinition",
            ManifestEntityType::RECORD => "DestinyRecordDefinition",
            ManifestEntityType::REWARDSOURCE => "DestinyRewardSourceDefinition",
            ManifestEntityType::SANDBOXPERK => "DestinySandboxPerkDefinition",
            ManifestEntityType::TALENTGRID => "DestinyTalentGridDefinition",
            ManifestEntityType::REWARDENTRY => "DestinyMilestoneRewardEntryDefinition",
            ManifestEntityType::CLASS => "DestinyClassDefinition",
            ManifestEntityType::GENDER => "DestinyGenderDefinition",
            ManifestEntityType::MILESTONE => "DestinyMilestoneDefinition",
            ManifestEntityType::PROGRESSION => "DestinyProgressionDefinition",
            ManifestEntityType::RACE => "DestinyRaceDefinition",
            ManifestEntityType::ACTIVITY => "DestinyActivityDefinition",
            ManifestEntityType::ACTIVITYGRAPH => "DestinyActivityGraphDefinition",
            ManifestEntityType::ACTIVITYMODE => "DestinyActivityModeDefinition",
            ManifestEntityType::ACTIVITYMODIFIER => "DestinyActivityModifierDefinition",
            ManifestEntityType::ACTIVITYTYPE => "DestinyActivityTypeDefinition",
            ManifestEntityType::DAMAGETYPE => "DestinyDamageTypeDefinition",
            ManifestEntityType::DESTINATION => "DestinyDestinationDefinition",
            ManifestEntityType::FACTION => "DestinyFactionDefinition",
            ManifestEntityType::LOCATION => "DestinyLocationDefinition",
            ManifestEntityType::OBJECTIVE => "DestinyObjectiveDefinition",
            ManifestEntityType::PLACE => "DestinyPlaceDefinition",
            ManifestEntityType::VENDOR => "DestinyVendorDefinition",
            ManifestEntityType::VENDORGROUP => "DestinyVendorGroupDefinition",
            ManifestEntityType::CHECKLIST => "DestinyChecklistDefinition",
            ManifestEntityType::ENERGYTYPE => "DestinyEnergyTypeDefinition",
            ManifestEntityType::HISTORICALSTATS => "DestinyHistoricalStatsDefinition",
            ManifestEntityType::PRESENTATIONNODE => "DestinyPresentationNodeDefinition",
            ManifestEntityType::LORE => "DestinyLoreDefinition",
            ManifestEntityType::METRIC => "DestinyMetricDefinition",
            ManifestEntityType::PLUGSET => "DestinyPlugSetDefinition",
            ManifestEntityType::REPORTREASONCATEGORY => "DestinyReportReasonCategoryDefinition",
            ManifestEntityType::SEASON => "DestinySeasonDefinition",
            ManifestEntityType::SEASONPASS => "DestinySeasonPassDefinition",
            ManifestEntityType::SOCKETCATEGORY => "DestinySocketCategoryDefinition",
            ManifestEntityType::SOCKETTYPE => "DestinySocketTypeDefinition",
            ManifestEntityType::TAGMETADATA => "TagMetadataDefinition",
            ManifestEntityType::TRAIT => "DestinyTraitDefinition",
            ManifestEntityType::TRAITCATEGORY => "DestinyTraitCategoryDefinition",
            ManifestEntityType::UNLOCK => "DestinyUnlockDefinition",
        };
        String::from_str(s)
    }
}
/// A language in which the manifest is published.
#[derive(PartialEq, Eq, Structural, Clone, Copy, Debug)]
pub enum ManifestLanguage {
    English,
    French,
    Espanol,
    EspanolMexico,
    Deutsch,
    Italian,
    Japanese,
    PortugueseBrazil,
    Russian,
    Polish,
    Korean,
    ChineseTraditional,
    ChineseSimplified,
}

impl ManifestLanguage {
    /// The code of the language in the API.
    pub open spec fn code(self) -> Seq<char> {
        match self {
            ManifestLanguage::English => "en"@,
            ManifestLanguage::French => "fr"@,
            ManifestLanguage::Espanol => "es"@,
            ManifestLanguage::EspanolMexico => "es-mx"@,
            ManifestLanguage::Deutsch => "de"@,
            ManifestLanguage::Italian => "it"@,
            ManifestLanguage::Japanese => "ja"@,
            ManifestLanguage::PortugueseBrazil => "pt-br"@,
            ManifestLanguage::Russian => "ru"@,
            ManifestLanguage::Polish => "pl"@,
            ManifestLanguage::Korean => "ko"@,
            ManifestLanguage::ChineseTraditional => "zh-cht"@,
            ManifestLanguage::ChineseSimplified => "zh-chs"@,
        }
    }

    /// The code of the language in the API.
    pub fn get(&self) -> (r: String)
        ensures
            r@ == self.code(),
    {
        let s = match self {
            ManifestLanguage::English => "en",
            ManifestLanguage::French => "fr",
            ManifestLanguage::Espanol => "es",
            ManifestLanguage::EspanolMexico => "es-mx",
            ManifestLanguage::Deutsch => "de",
            ManifestLanguage::Italian => "it",
            ManifestLanguage::Japanese => "ja",
            ManifestLanguage::PortugueseBrazil => "pt-br",
            ManifestLanguage::Russian => "ru",
            ManifestLanguage::Polish => "pl",
            ManifestLanguage::Korean => "ko",
            ManifestLanguage::ChineseTraditional => "zh-cht",
            ManifestLanguage::ChineseSimplified => "zh-chs",
        };
        String::from_str(s)
    }
}
/// Where the manifest of the current version is published.
#[derive(Clone, Debug)]
pub struct ManifestInfoResponse {
    pub version: String,
    pub mobile_asset_content_path: String,
    pub mobile_world_content_paths: MobileWorldContentPaths,
}

impl JsonDecode for ManifestInfoResponse {
    open spec fn decodable(text: Seq<char>, at: Seq<char>) -> bool {
        &&& <String as JsonDecode>::decodable(text, member(at, "/version"@))
        &&& <String as JsonDecode>::decodable(text, member(at, "/mobileAssetContentPath"@))
        &&& <MobileWorldContentPaths as JsonDecode>::decodable(
            text,
            member(at, "/mobileWorldContentPaths"@),
        )
    }

    open spec fn decodes_to(text: Seq<char>, at: Seq<char>, v: ManifestInfoResponse) -> bool {
        &&& <String as JsonDecode>::decodes_to(text, member(at, "/version"@), v.version)
        &&& <String as JsonDecode>::decodes_to(
            text,
            member(at, "/mobileAssetContentPath"@),
            v.mobile_asset_content_path,
        )
        &&& <MobileWorldContentPaths as JsonDecode>::decodes_to(
            text,
            member(at, "/mobileWorldContentPaths"@),
            v.mobile_world_content_paths,
        )
    }

    fn decode_at(text: &str, at: &str) -> (r: Option<ManifestInfoResponse>) {
        let ptr = member_ptr(at, "/version");
        let version = match <String as JsonDecode>::decode_at(text, ptr.as_str()) {
            Some(x) => x,
            None => return None,
        };
        let ptr = member_ptr(at, "/mobileAssetContentPath");
        let mobile_asset_content_path = match <String as JsonDecode>::decode_at(
            text,
            ptr.as_str(),
        ) {
            Some(x) => x,
            None => return None,
        };
        let ptr = member_ptr(at, "/mobileWorldContentPaths");
        let mobile_world_content_paths = match <MobileWorldContentPaths as JsonDecode>::decode_at(
            text,
            ptr.as_str(),
        ) {
            Some(x) => x,
            None => return None,
        };
        Some(
            ManifestInfoResponse { version, mobile_asset_content_path, mobile_world_content_paths },
        )
    }
}
/// The path of the manifest database in each language.
#[derive(Clone, Debug)]
pub struct MobileWorldContentPaths {
    pub en: String,
    pub fr: String,
    pub es: String,
    pub esmx: String,
    pub de: String,
    pub it: String,
    pub ja: String,
    pub ptbr: String,
    pub ru: String,
    pub pl: String,
    pub ko: String,
    pub zhcht: String,
    pub zhchs: String,
}

impl JsonDecode for MobileWorldContentPaths {
    open spec fn decodable(text: Seq<char>, at: Seq<char>) -> bool {
        &&& <String as JsonDecode>::decodable(text, member(at, "/en"@))
        &&& <String as JsonDecode>::decodable(text, member(at, "/fr"@))
        &&& <String as JsonDecode>::decodable(text, member(at, "/es"@))
        &&& <String as JsonDecode>::decodable(text, member(at, "/es-mx"@))
        &&& <String as JsonDecode>::decodable(text, member(at, "/de"@))
        &&& <String as JsonDecode>::decodable(text, member(at, "/it"@))
        &&& <String as JsonDecode>::decodable(text, member(at, "/ja"@))
        &&& <String as JsonDecode>::decodable(text, member(at, "/pt-br"@))
        &&& <String as JsonDecode>::decodable(text, member(at, "/ru"@))
        &&& <String as JsonDecode>::decodable(text, member(at, "/pl"@))
        &&& <String as JsonDecode>::decodable(text, member(at, "/ko"@))
        &&& <String as JsonDecode>::decodable(text, member(at, "/zh-cht"@))
        &&& <String as JsonDecode>::decodable(text, member(at, "/zh-chs"@))
    }

    open spec fn decodes_to(text: Seq<char>, at: Seq<char>, v: MobileWorldContentPaths) -> bool {
        &&& <String as JsonDecode>::decodes_to(text, member(at, "/en"@), v.en)
        &&& <String as JsonDecode>::decodes_to(text, member(at, "/fr"@), v.fr)
        &&& <String as JsonDecode>::decodes_to(text, member(at, "/es"@), v.es)
        &&& <String as JsonDecode>::decodes_to(text, member(at, "/es-mx"@), v.esmx)
        &&& <String as JsonDecode>::decodes_to(text, member(at, "/de"@), v.de)
        &&& <String as JsonDecode>::decodes_to(text, member(at, "/it"@), v.it)
        &&& <String as JsonDecode>::decodes_to(text, member(at, "/ja"@), v.ja)
        &&& <String as JsonDecode>::decodes_to(text, member(at, "/pt-br"@), v.ptbr)
        &&& <String as JsonDecode>::decodes_to(text, member(at, "/ru"@), v.ru)
        &&& <String as JsonDecode>::decodes_to(text, member(at, "/pl"@), v.pl)
        &&& <String as JsonDecode>::decodes_to(text, member(at, "/ko"@), v.ko)
        &&& <String as JsonDecode>::decodes_to(text, member(at, "/zh-cht"@), v.zhcht)
        &&& <String as JsonDecode>::decodes_to(text, member(at, "/zh-chs"@), v.zhchs)
    }

    fn decode_at(text: &str, at: &str) -> (r: Option<MobileWorldContentPaths>) {
        let ptr = member_ptr(at, "/en");
        let en = match <String as JsonDecode>::decode_at(text, ptr.as_str()) {
            Some(x) => x,
            None => return None,
        };
        let ptr = member_ptr(at, "/fr");
        let fr = match <String as JsonDecode>::decode_at(text, ptr.as_str()) {
            Some(x) => x,
            None => return None,
        };
        let ptr = member_ptr(at, "/es");
        let es = match <String as JsonDecode>::decode_at(text, ptr.as_str()) {
            Some(x) => x,
            None => return None,
        };
        let ptr = member_ptr(at, "/es-mx");
        let esmx = match <String as JsonDecode>::decode_at(text, ptr.as_str()) {
            Some(x) => x,
            None => return None,
        };
        let ptr = member_ptr(at, "/de");
        let de = match <String as JsonDecode>::decode_at(text, ptr.as_str()) {
            Some(x) => x,
            None => return None,
        };
        let ptr = member_ptr(at, "/it");
        let it = match <String as JsonDecode>::decode_at(text, ptr.as_str()) {
            Some(x) => x,
            None => return None,
        };
        let ptr = member_ptr(at, "/ja");
        let ja = match <String as JsonDecode>::decode_at(text, ptr.as_str()) {
            Some(x) => x,
            None => return None,
        };
        let ptr = member_ptr(at, "/pt-br");
        let ptbr = match <String as JsonDecode>::decode_at(text, ptr.as_str()) {
            Some(x) => x,
            None => return None,
        };
        let ptr = member_ptr(at, "/ru");
        let ru = match <String as JsonDecode>::decode_at(text, ptr.as_str()) {
            Some(x) => x,
            None => return None,
        };
        let ptr = member_ptr(at, "/pl");
        let pl = match <String as JsonDecode>::decode_at(text, ptr.as_str()) {
            Some(x) => x,
            None => return None,
        };
        let ptr = member_ptr(at, "/ko");
        let ko = match <String as JsonDecode>::decode_at(text, ptr.as_str()) {
            Some(x) => x,
            None => return None,
        };
        let ptr = member_ptr(at, "/zh-cht");
        let zhcht = match <String as JsonDecode>::decode_at(text, ptr.as_str()) {
            Some(x) => x,
            None => return None,
        };
        let ptr = member_ptr(at, "/zh-chs");
        let zhchs = match <String as JsonDecode>::decode_at(text, ptr.as_str()) {
            Some(x) => x,
            None => return None,
        };
        Some(
            MobileWorldContentPaths {
                en,
                fr,
                es,
                esmx,
                de,
                it,
                ja,
                ptbr,
                ru,
                pl,
                ko,
                zhcht,
                zhchs,
            },
        )
    }
}
/// The weekly clan rewards of a milestone: this week's and last week's.
#[derive(Clone, Debug)]
pub struct Rewards {
    pub current_week: RewardGroup,
    pub previous_week: RewardGroup,
}

impl JsonDecode for Rewards {
    open spec fn decodable(text: Seq<char>, at: Seq<char>) -> bool {
        &&& <RewardGroup as JsonDecode>::decodable(text, member(at, "/1064137897"@))
        &&& <RewardGroup as JsonDecode>::decodable(text, member(at, "/4258746474"@))
    }

    open spec fn decodes_to(text: Seq<char>, at: Seq<char>, v: Rewards) -> bool {
        &&& <RewardGroup as JsonDecode>::decodes_to(
            text,
            member(at, "/1064137897"@),
            v.current_week,
        )
        &&& <RewardGroup as JsonDecode>::decodes_to(
            text,
            member(at, "/4258746474"@),
            v.previous_week,
        )
    }

    fn decode_at(text: &str, at: &str) -> (r: Option<Rewards>) {
        let ptr = member_ptr(at, "/1064137897");
        let current_week = match <RewardGroup as JsonDecode>::decode_at(text, ptr.as_str()) {
            Some(x) => x,
            None => return None,
        };
        let ptr = member_ptr(at, "/4258746474");
        let previous_week = match <RewardGroup as JsonDecode>::decode_at(text, ptr.as_str()) {
            Some(x) => x,
            None => return None,
        };
        Some(Rewards { current_week, previous_week })
    }
}
/// A group of weekly rewards.
#[derive(Clone, Debug)]
pub struct RewardGroup {
    pub category_hash: i64,
    pub category_identifier: String,
    pub display_properties: DisplayProperties,
    pub reward_entries: RewardEntries,
}

impl JsonDecode for RewardGroup {
    open spec fn decodable(text: Seq<char>, at: Seq<char>) -> bool {
        &&& <i64 as JsonDecode>::decodable(text, member(at, "/categoryHash"@))
        &&& <String as JsonDecode>::decodable(text, member(at, "/categoryIdentifier"@))
        &&& <DisplayProperties as JsonDecode>::decodable(text, member(at, "/displayProperties"@))
        &&& <RewardEntries as JsonDecode>::decodable(text, member(at, "/rewardEntries"@))
    }

    open spec fn decodes_to(text: Seq<char>, at: Seq<char>, v: RewardGroup) -> bool {
        &&& <i64 as JsonDecode>::decodes_to(text, member(at, "/categoryHash"@), v.category_hash)
        &&& <String as JsonDecode>::decodes_to(
            text,
            member(at, "/categoryIdentifier"@),
            v.category_identifier,
        )
        &&& <DisplayProperties as JsonDecode>::decodes_to(
            text,
            member(at, "/displayProperties"@),
            v.display_properties,
        )
        &&& <RewardEntries as JsonDecode>::decodes_to(
            text,
            member(at, "/rewardEntries"@),
            v.reward_entries,
        )
    }

    fn decode_at(text: &str, at: &str) -> (r: Option<RewardGroup>) {
        let ptr = member_ptr(at, "/categoryHash");
        let category_hash = match <i64 as JsonDecode>::decode_at(text, ptr.as_str()) {
            Some(x) => x,
            None => return None,
        };
        let ptr = member_ptr(at, "/categoryIdentifier");
        let category_identifier = match <String as JsonDecode>::decode_at(text, ptr.as_str()) {
            Some(x) => x,
            None => return None,
        };
        let ptr = member_ptr(at, "/displayProperties");
        let display_properties = match <DisplayProperties as JsonDecode>::decode_at(
            text,
            ptr.as_str(),
        ) {
            Some(x) => x,
            None => return None,
        };
        let ptr = member_ptr(at, "/rewardEntries");
        let reward_entries = match <RewardEntries as JsonDecode>::decode_at(text, ptr.as_str()) {
            Some(x) => x,
            None => return None,
        };
        Some(RewardGroup { category_hash, category_identifier, display_properties, reward_entries })
    }
}
/// The entries of a group of weekly rewards, by activity.
#[derive(Clone, Debug)]
pub struct RewardEntries {
    pub nightfall: Option<RewardInfo>,
    pub gambit: Option<RewardInfo>,
    pub raid: Option<RewardInfo>,
    pub pvp: Option<RewardInfo>,
    pub previous_nightfall: Option<RewardInfo>,
    pub previous_gambit: Option<RewardInfo>,
    pub previous_raid: Option<RewardInfo>,
    pub previous_pvp: Option<RewardInfo>,
}

impl JsonDecode for RewardEntries {
    open spec fn decodable(text: Seq<char>, at: Seq<char>) -> bool {
        &&& <Option<RewardInfo> as JsonDecode>::decodable(text, member(at, "/3789021730"@))
        &&& <Option<RewardInfo> as JsonDecode>::decodable(text, member(at, "/248695599"@))
        &&& <Option<RewardInfo> as JsonDecode>::decodable(text, member(at, "/2043403989"@))
        &&& <Option<RewardInfo> as JsonDecode>::decodable(text, member(at, "/964120289"@))
        &&& <Option<RewardInfo> as JsonDecode>::decodable(text, member(at, "/305996677"@))
        &&& <Option<RewardInfo> as JsonDecode>::decodable(text, member(at, "/1514402550"@))
        &&& <Option<RewardInfo> as JsonDecode>::decodable(text, member(at, "/783563440"@))
        &&& <Option<RewardInfo> as JsonDecode>::decodable(text, member(at, "/1478801436"@))
    }

    open spec fn decodes_to(text: Seq<char>, at: Seq<char>, v: RewardEntries) -> bool {
        &&& <Option<RewardInfo> as JsonDecode>::decodes_to(
            text,
            member(at, "/3789021730"@),
            v.nightfall,
        )
        &&& <Option<RewardInfo> as JsonDecode>::decodes_to(
            text,
            member(at, "/248695599"@),
            v.gambit,
        )
        &&& <Option<RewardInfo> as JsonDecode>::decodes_to(text, member(at, "/2043403989"@), v.raid)
        &&& <Option<RewardInfo> as JsonDecode>::decodes_to(text, member(at, "/964120289"@), v.pvp)
        &&& <Option<RewardInfo> as JsonDecode>::decodes_to(
            text,
            member(at, "/305996677"@),
            v.previous_nightfall,
        )
        &&& <Option<RewardInfo> as JsonDecode>::decodes_to(
            text,
            member(at, "/1514402550"@),
            v.previous_gambit,
        )
        &&& <Option<RewardInfo> as JsonDecode>::decodes_to(
            text,
            member(at, "/783563440"@),
            v.previous_raid,
        )
        &&& <Option<RewardInfo> as JsonDecode>::decodes_to(
            text,
            member(at, "/1478801436"@),
            v.previous_pvp,
        )
    }

    fn decode_at(text: &str, at: &str) -> (r: Option<RewardEntries>) {
        let ptr = member_ptr(at, "/3789021730");
        let nightfall = match <Option<RewardInfo> as JsonDecode>::decode_at(text, ptr.as_str()) {
            Some(x) => x,
            None => return None,
        };
        let ptr = member_ptr(at, "/248695599");
        let gambit = match <Option<RewardInfo> as JsonDecode>::decode_at(text, ptr.as_str()) {
            Some(x) => x,
            None => return None,
        };
        let ptr = member_ptr(at, "/2043403989");
        let raid = match <Option<RewardInfo> as JsonDecode>::decode_at(text, ptr.as_str()) {
            Some(x) => x,
            None => return None,
        };
        let ptr = member_ptr(at, "/964120289");
        let pvp = match <Option<RewardInfo> as JsonDecode>::decode_at(text, ptr.as_str()) {
            Some(x) => x,
            None => return None,
        };
        let ptr = member_ptr(at, "/305996677");
        let previous_nightfall = match <Option<RewardInfo> as JsonDecode>::decode_at(
            text,
            ptr.as_str(),
        ) {
            Some(x) => x,
            None => return None,
        };
        let ptr = member_ptr(at, "/1514402550");
        let previous_gambit = match <Option<RewardInfo> as JsonDecode>::decode_at(
            text,
            ptr.as_str(),
        ) {
            Some(x) => x,
            None => return None,
        };
        let ptr = member_ptr(at, "/783563440");
        let previous_raid = match <Option<RewardInfo> as JsonDecode>::decode_at(
            text,
            ptr.as_str(),
        ) {
            Some(x) => x,
            None => return None,
        };
        let ptr = member_ptr(at, "/1478801436");
        let previous_pvp = match <Option<RewardInfo> as JsonDecode>::decode_at(text, ptr.as_str()) {
            Some(x) => x,
            None => return None,
        };
        Some(
            RewardEntries {
                nightfall,
                gambit,
                raid,
                pvp,
                previous_nightfall,
                previous_gambit,
                previous_raid,
                previous_pvp,
            },
        )
    }
}
/// One weekly reward.
#[derive(Clone, Debug)]
pub struct RewardInfo {
    pub reward_entry_hash: i64,
    pub reward_entry_identifier: String,
    pub items: Vec<RewardItem>,
    pub vendor_hash: i64,
    pub display_properties: DisplayProperties,
    pub order: i32,
    pub earned_unlock_hash: i64,
    pub redeemed_unlock_hash: i64,
}

impl JsonDecode for RewardInfo {
    open spec fn decodable(text: Seq<char>, at: Seq<char>) -> bool {
        &&& <i64 as JsonDecode>::decodable(text, member(at, "/rewardEntryHash"@))
        &&& <String as JsonDecode>::decodable(text, member(at, "/rewardEntryIdentifier"@))
        &&& <Vec<RewardItem> as JsonDecode>::decodable(text, member(at, "/items"@))
        &&& <i64 as JsonDecode>::decodable(text, member(at, "/vendorHash"@))
        &&& <DisplayProperties as JsonDecode>::decodable(text, member(at, "/displayProperties"@))
        &&& <i32 as JsonDecode>::decodable(text, member(at, "/order"@))
        &&& <i64 as JsonDecode>::decodable(text, member(at, "/earnedUnlockHash"@))
        &&& <i64 as JsonDecode>::decodable(text, member(at, "/redeemedUnlockHash"@))
    }

    open spec fn decodes_to(text: Seq<char>, at: Seq<char>, v: RewardInfo) -> bool {
        &&& <i64 as JsonDecode>::decodes_to(
            text,
            member(at, "/rewardEntryHash"@),
            v.reward_entry_hash,
        )
        &&& <String as JsonDecode>::decodes_to(
            text,
            member(at, "/rewardEntryIdentifier"@),
            v.reward_entry_identifier,
        )
        &&& <Vec<RewardItem> as JsonDecode>::decodes_to(text, member(at, "/items"@), v.items)
        &&& <i64 as JsonDecode>::decodes_to(text, member(at, "/vendorHash"@), v.vendor_hash)
        &&& <DisplayProperties as JsonDecode>::decodes_to(
            text,
            member(at, "/displayProperties"@),
            v.display_properties,
        )
        &&& <i32 as JsonDecode>::decodes_to(text, member(at, "/order"@), v.order)
        &&& <i64 as JsonDecode>::decodes_to(
            text,
            member(at, "/earnedUnlockHash"@),
            v.earned_unlock_hash,
        )
        &&& <i64 as JsonDecode>::decodes_to(
            text,
            member(at, "/redeemedUnlockHash"@),
            v.redeemed_unlock_hash,
        )
    }

    fn decode_at(text: &str, at: &str) -> (r: Option<RewardInfo>) {
        let ptr = member_ptr(at, "/rewardEntryHash");
        let reward_entry_hash = match <i64 as JsonDecode>::decode_at(text, ptr.as_str()) {
            Some(x) => x,
            None => return None,
        };
        let ptr = member_ptr(at, "/rewardEntryIdentifier");
        let reward_entry_identifier = match <String as JsonDecode>::decode_at(text, ptr.as_str()) {
            Some(x) => x,
            None => return None,
        };
        let ptr = member_ptr(at, "/items");
        let items = match <Vec<RewardItem> as JsonDecode>::decode_at(text, ptr.as_str()) {
            Some(x) => x,
            None => return None,
        };
        let ptr = member_ptr(at, "/vendorHash");
        let vendor_hash = match <i64 as JsonDecode>::decode_at(text, ptr.as_str()) {
            Some(x) => x,
            None => return None,
        };
        let ptr = member_ptr(at, "/displayProperties");
        let display_properties = match <DisplayProperties as JsonDecode>::decode_at(
            text,
            ptr.as_str(),
        ) {
            Some(x) => x,
            None => return None,
        };
        let ptr = member_ptr(at, "/order");
        let order = match <i32 as JsonDecode>::decode_at(text, ptr.as_str()) {
            Some(x) => x,
            None => return None,
        };
        let ptr = member_ptr(at, "/earnedUnlockHash");
        let earned_unlock_hash = match <i64 as JsonDecode>::decode_at(text, ptr.as_str()) {
            Some(x) => x,
            None => return None,
        };
        let ptr = member_ptr(at, "/redeemedUnlockHash");
        let redeemed_unlock_hash = match <i64 as JsonDecode>::decode_at(text, ptr.as_str()) {
            Some(x) => x,
            None => return None,
        };
        Some(
            RewardInfo {
                reward_entry_hash,
                reward_entry_identifier,
                items,
                vendor_hash,
                display_properties,
                order,
                earned_unlock_hash,
                redeemed_unlock_hash,
            },
        )
    }
}
/// An item that a reward grants.
#[derive(Clone, Debug)]
pub struct RewardItem {
    pub item_hash: i64,
    pub quantity: i32,
    pub has_conditional_visibility: bool,
}

impl JsonDecode for RewardItem {
    open spec fn decodable(text: Seq<char>, at: Seq<char>) -> bool {
        &&& <i64 as JsonDecode>::decodable(text, member(at, "/itemHash"@))
        &&& <i32 as JsonDecode>::decodable(text, member(at, "/quantity"@))
        &&& <bool as JsonDecode>::decodable(text, member(at, "/hasConditionalVisibility"@))
    }

    open spec fn decodes_to(text: Seq<char>, at: Seq<char>, v: RewardItem) -> bool {
        &&& <i64 as JsonDecode>::decodes_to(text, member(at, "/itemHash"@), v.item_hash)
        &&& <i32 as JsonDecode>::decodes_to(text, member(at, "/quantity"@), v.quantity)
        &&& <bool as JsonDecode>::decodes_to(
            text,
            member(at, "/hasConditionalVisibility"@),
            v.has_conditional_visibility,
        )
    }

    fn decode_at(text: &str, at: &str) -> (r: Option<RewardItem>) {
        let ptr = member_ptr(at, "/itemHash");
        let item_hash = match <i64 as JsonDecode>::decode_at(text, ptr.as_str()) {
            Some(x) => x,
            None => return None,
        };
        let ptr = member_ptr(at, "/quantity");
        let quantity = match <i32 as JsonDecode>::decode_at(text, ptr.as_str()) {
            Some(x) => x,
            None => return None,
        };
        let ptr = member_ptr(at, "/hasConditionalVisibility");
        let has_conditional_visibility = match <bool as JsonDecode>::decode_at(text, ptr.as_str()) {
            Some(x) => x,
            None => return None,
        };
        Some(RewardItem { item_hash, quantity, has_conditional_visibility })
    }
}
/// How a definition is shown.
#[derive(Clone, Debug)]
pub struct DisplayProperties {
    pub description: String,
    pub name: String,
    pub icon: Option<String>,
    pub has_icon: bool,
}

impl JsonDecode for DisplayProperties {
    open spec fn decodable(text: Seq<char>, at: Seq<char>) -> bool {
        &&& <String as JsonDecode>::decodable(text, member(at, "/description"@))
        &&& <String as JsonDecode>::decodable(text, member(at, "/name"@))
        &&& <Option<String> as JsonDecode>::decodable(text, member(at, "/icon"@))
        &&& <bool as JsonDecode>::decodable(text, member(at, "/hasIcon"@))
    }

    open spec fn decodes_to(text: Seq<char>, at: Seq<char>, v: DisplayProperties) -> bool {
        &&& <String as JsonDecode>::decodes_to(text, member(at, "/description"@), v.description)
        &&& <String as JsonDecode>::decodes_to(text, member(at, "/name"@), v.name)
        &&& <Option<String> as JsonDecode>::decodes_to(text, member(at, "/icon"@), v.icon)
        &&& <bool as JsonDecode>::decodes_to(text, member(at, "/hasIcon"@), v.has_icon)
    }

    fn decode_at(text: &str, at: &str) -> (r: Option<DisplayProperties>) {
        let ptr = member_ptr(at, "/description");
        let description = match <String as JsonDecode>::decode_at(text, ptr.as_str()) {
            Some(x) => x,
            None => return None,
        };
        let ptr = member_ptr(at, "/name");
        let name = match <String as JsonDecode>::decode_at(text, ptr.as_str()) {
            Some(x) => x,
            None => return None,
        };
        let ptr = member_ptr(at, "/icon");
        let icon = match <Option<String> as JsonDecode>::decode_at(text, ptr.as_str()) {
            Some(x) => x,
            None => return None,
        };
        let ptr = member_ptr(at, "/hasIcon");
        let has_icon = match <bool as JsonDecode>::decode_at(text, ptr.as_str()) {
            Some(x) => x,
            None => return None,
        };
        Some(DisplayProperties { description, name, icon, has_icon })
    }
}
/// Looks up definitions in the manifest.
pub struct Manifest {
    client: ApiClient,
}

/// The endpoint of one definition.
pub open spec fn definition_url(kind: ManifestEntityType, hash: Seq<char>) -> Seq<char> {
    api_base() + "/Destiny2/Manifest/"@ + kind.name() + "/"@ + hash + "/"@
}

/// The endpoint that says where the manifest is published.
pub open spec fn manifest_info_url() -> Seq<char> {
    api_base() + "/Destiny2/Manifest/"@
}

/// Why reading a weekly reward failed.
#[derive(Debug)]
pub enum ManifestError {
    /// The call failed, or its response could not be read.
    Api(ApiError),
    /// The hash names none of the weekly rewards.
    UnknownRewardEntry,
    /// The milestone does not describe this reward.
    RewardMissing,
}

/// Where the weekly rewards of a milestone definition stand.
pub open spec fn rewards_ptr() -> Seq<char> {
    "/Response/rewards"@
}

/// Where the reward with entry hash `hash` stands in a milestone definition:
/// four entries of this week's group and four of last week's.
pub open spec fn reward_entry_ptr(hash: i64) -> Option<Seq<char>> {
    let current = member(member(rewards_ptr(), "/1064137897"@), "/rewardEntries"@);
    let previous = member(member(rewards_ptr(), "/4258746474"@), "/rewardEntries"@);
    if hash == 3789021730 {
        Some(member(current, "/3789021730"@))
    } else if hash == 248695599 {
        Some(member(current, "/248695599"@))
    } else if hash == 2043403989 {
        Some(member(current, "/2043403989"@))
    } else if hash == 964120289 {
        Some(member(current, "/964120289"@))
    } else if hash == 305996677 {
        Some(member(previous, "/305996677"@))
    } else if hash == 1514402550 {
        Some(member(previous, "/1514402550"@))
    } else if hash == 783563440 {
        Some(member(previous, "/783563440"@))
    } else if hash == 1478801436 {
        Some(member(previous, "/1478801436"@))
    } else {
        None
    }
}

/// Whether a milestone definition can be read: a JSON document whose
/// rewards have the expected shape.
pub open spec fn rewards_readable(text: Seq<char>) -> bool {
    json_valid(text) && Rewards::decodable(text, rewards_ptr())
}

impl Manifest {
    pub fn new(client: ApiClient) -> (r: Manifest)
        ensures
            r.client()@ == client@,
    {
        Manifest { client }
    }

    pub closed spec fn client(&self) -> ApiClient {
        self.client
    }

    /// The request for the definition of kind `typ` with hash `hash`.
    pub fn manifest(&self, typ: ManifestEntityType, hash: i64) -> (r: HttpRequest)
        ensures
            r@ == request_for(
                HttpMethod::Get,
                self.client()@.key,
                definition_url(typ, signed_decimal(hash as int)),
                seq![],
                None,
            ),
    {
        self.manifest_get(typ, signed_text(hash))
    }

    /// The request for the definition of kind `typ` with hash `hash`, written
    /// as text.
    pub fn manifest_get(&self, typ: ManifestEntityType, hash: String) -> (r: HttpRequest)
        ensures
            r@ == request_for(
                HttpMethod::Get,
                self.client()@.key,
                definition_url(typ, hash@),
                seq![],
                None,
            ),
    {
        let url = String::from_str(url_base());
        let url = url.concat("/Destiny2/Manifest/");
        let url = url.concat(typ.get().as_str());
        let url = url.concat("/");
        let url = url.concat(hash.as_str());
        let url = url.concat("/");
        assert(url@ =~= definition_url(typ, hash@));
        self.client.get(url)
    }

    /// The request for where the manifest is published; its response reads as
    /// a `ManifestInfoResponse` at `/Response`.
    pub fn get_manifest_info(&self) -> (r: HttpRequest)
        ensures
            r@ == request_for(
                HttpMethod::Get,
                self.client()@.key,
                manifest_info_url(),
                seq![],
                None,
            ),
    {
        let url = String::from_str(url_base());
        let url = url.concat("/Destiny2/Manifest/");
        assert(url@ =~= manifest_info_url());
        self.client.get(url)
    }

    /// The request for the milestone definition that describes the weekly
    /// reward; `reward_from_definition` reads its response.
    pub fn manifest_reward(&self, milestone_hash: i64) -> (r: HttpRequest)
        ensures
            r@ == request_for(
                HttpMethod::Get,
                self.client()@.key,
                definition_url(
                    ManifestEntityType::MILESTONE,
                    signed_decimal(milestone_hash as int),
                ),
                seq![],
                None,
            ),
    {
        self.manifest(ManifestEntityType::MILESTONE, milestone_hash)
    }
}

/// Reads the weekly reward with entry hash `reward_entry_hash` from a
/// milestone definition.
pub fn reward_from_definition(text: &str, reward_entry_hash: i64) -> (r: Result<
    RewardInfo,
    ManifestError,
>)
    ensures
        !rewards_readable(text@) ==> r matches Err(ManifestError::Api(ApiError::Deserialization)),
        rewards_readable(text@) && reward_entry_ptr(reward_entry_hash) is None ==> r matches Err(
            ManifestError::UnknownRewardEntry,
        ),
        rewards_readable(text@) ==> (reward_entry_ptr(reward_entry_hash) matches Some(p) ==> {
            &&& (absent(text@, p) ==> r matches Err(ManifestError::RewardMissing))
            &&& (!absent(text@, p) ==> (r matches Ok(info) && RewardInfo::decodes_to(
                text@,
                p,
                info,
            )))
        }),
{
    if !is_json(text) {
        return Err(ManifestError::Api(ApiError::Deserialization));
    }
    let rewards = match Rewards::decode_at(text, "/Response/rewards") {
        Some(r) => r,
        None => return Err(ManifestError::Api(ApiError::Deserialization)),
    };
    let current = rewards.current_week.reward_entries;
    let previous = rewards.previous_week.reward_entries;
    let entry = if reward_entry_hash == 3789021730 {
        current.nightfall
    } else if reward_entry_hash == 248695599 {
        current.gambit
    } else if reward_entry_hash == 2043403989 {
        current.raid
    } else if reward_entry_hash == 964120289 {
        current.pvp
    } else if reward_entry_hash == 305996677 {
        previous.previous_nightfall
    } else if reward_entry_hash == 1514402550 {
        previous.previous_gambit
    } else if reward_entry_hash == 783563440 {
        previous.previous_raid
    } else if reward_entry_hash == 1478801436 {
        previous.previous_pvp
    } else {
        return Err(ManifestError::UnknownRewardEntry);
    };
    match entry {
        Some(info) => Ok(info),
        None => Err(ManifestError::RewardMissing),
    }
}

} // verus!
