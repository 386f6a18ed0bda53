//! Activities: the modes that the activity history filters by, the known
//! activities, and the requests for reports and histories.
use vstd::prelude::*;
use crate::client::{ApiClient, HttpMethod, HttpRequest, api_base, request_for, url_base};
use crate::json::{JsonDecode, member, member_ptr};
use crate::text::{decimal, signed_decimal, signed_text, unsigned_text};
use crate::user::BungieUser;

verus! {

/// A mode of activity, as the activity history filters by.
#[derive(PartialEq, Eq, Structural, Clone, Copy, Debug)]
pub enum ActivityMode {
    NoMode,
    Story,
    Strike,
    Raid,
    AllPvP,
    Patrol,
    AllPvE,
    Control,
    Clash,
    CrimsonDoubles,
    Nightfall,
    HeroicNightfall,
    AllStrikes,
    IronBanner,
    AllMayhem,
    Supremacy,
    PrivateMatchesAll,
    Survival,
    Countdown,
    TrialsOfTheNine,
    Social,
    TrialsCountdown,
    TrialsSurvival,
    IronBannerControl,
    IronBannerClash,
    IronBannerSupremacy,
    ScoredNightfall,
    ScoredHeroicNightfall,
    Rumble,
    AllDoubles,
    Doubles,
    PrivateMatchesClash,
    APrivateMatchesControl,
    PrivateMatchesSupremacy,
    PrivateMatchesCountdown,
    PrivateMatchesSurvival,
    PrivateMatchesMayhem,
    PrivateMatchesRumble,
    HeroicAdventure,
    Showdown,
    Lockdown,
    Scorched,
    ScorchedTeam,
    Gambit,
    AllPvECompetitve,
    Breakthrough,
    BlackArmoryRun,
    Salvage,
    IronBannerSalvage,
    PvPCompetitve,
    PvPQuickplay,
    ClashQuickplay,
    ClashCompetitve,
    ControlQuickplay,
    ControlCompetitve,
    GambitPrime,
    Reckoning,
    Menagerie,
    VexOffensive,
    NightmareHunt,
    Elimination,
    Momentum,
    Dungeon,
    Sundial,
    TrialsOfOsiris,
    Dares,
    Offensive,
}

impl ActivityMode {
    /// The code of the mode in the API.
    pub open spec fn code(self) -> i16 {
        match self {
            ActivityMode::NoMode => 0i16,
            ActivityMode::Story => 2i16,
            ActivityMode::Strike => 3i16,
            ActivityMode::Raid => 4i16,
            ActivityMode::AllPvP => 5i16,
            ActivityMode::Patrol => 6i16,
            ActivityMode::AllPvE => 7i16,
            ActivityMode::Control => 10i16,
            ActivityMode::Clash => 12i16,
            ActivityMode::CrimsonDoubles => 15i16,
            ActivityMode::Nightfall => 16i16,
            ActivityMode::HeroicNightfall => 17i16,
            ActivityMode::AllStrikes => 18i16,
            ActivityMode::IronBanner => 19i16,
            ActivityMode::AllMayhem => 25i16,
            ActivityMode::Supremacy => 31i16,
            ActivityMode::PrivateMatchesAll => 32i16,
            ActivityMode::Survival => 37i16,
            ActivityMode::Countdown => 38i16,
            ActivityMode::TrialsOfTheNine => 39i16,
            ActivityMode::Social => 40i16,
            ActivityMode::TrialsCountdown => 41i16,
            ActivityMode::TrialsSurvival => 42i16,
            ActivityMode::IronBannerControl => 43i16,
            ActivityMode::IronBannerClash => 44i16,
            ActivityMode::IronBannerSupremacy => 45i16,
            ActivityMode::ScoredNightfall => 46i16,
            ActivityMode::ScoredHeroicNightfall => 47i16,
            ActivityMode::Rumble => 48i16,
            ActivityMode::AllDoubles => 49i16,
            ActivityMode::Doubles => 50i16,
            ActivityMode::PrivateMatchesClash => 51i16,
            ActivityMode::APrivateMatchesControl => 52i16,
            ActivityMode::PrivateMatchesSupremacy => 53i16,
            ActivityMode::PrivateMatchesCountdown => 54i16,
            ActivityMode::PrivateMatchesSurvival => 55i16,
            ActivityMode::PrivateMatchesMayhem => 56i16,
            ActivityMode::PrivateMatchesRumble => 57i16,
            ActivityMode::HeroicAdventure => 58i16,
            ActivityMode::Showdown => 59i16,
            ActivityMode::Lockdown => 60i16,
            ActivityMode::Scorched => 61i16,
            ActivityMode::ScorchedTeam => 62i16,
            ActivityMode::Gambit => 63i16,
            ActivityMode::AllPvECompetitve => 64i16,
            ActivityMode::Breakthrough => 65i16,
            ActivityMode::BlackArmoryRun => 66i16,
            ActivityMode::Salvage => 67i16,
            ActivityMode::IronBannerSalvage => 68i16,
            ActivityMode::PvPCompetitve => 69i16,
            ActivityMode::PvPQuickplay => 70i16,
            ActivityMode::ClashQuickplay => 71i16,
            ActivityMode::ClashCompetitve => 72i16,
            ActivityMode::ControlQuickplay => 73i16,
            ActivityMode::ControlCompetitve => 74i16,
            ActivityMode::GambitPrime => 75i16,
            ActivityMode::Reckoning => 76i16,
            ActivityMode::Menagerie => 77i16,
            ActivityMode::VexOffensive => 78i16,
            ActivityMode::NightmareHunt => 79i16,
            ActivityMode::Elimination => 80i16,
            ActivityMode::Momentum => 81i16,
            ActivityMode::Dungeon => 82i16,
            ActivityMode::Sundial => 83i16,
            ActivityMode::TrialsOfOsiris => 84i16,
            ActivityMode::Dares => 85i16,
            ActivityMode::Offensive => 86i16,
        }
    }

    /// The code of the mode in the API.
    pub fn get(&self) -> (r: i16)
        ensures
            r == self.code(),
    {
        match self {
            ActivityMode::NoMode => 0,
            ActivityMode::Story => 2,
            ActivityMode::Strike => 3,
            ActivityMode::Raid => 4,
            ActivityMode::AllPvP => 5,
            ActivityMode::Patrol => 6,
            ActivityMode::AllPvE => 7,
            ActivityMode::Control => 10,
            ActivityMode::Clash => 12,
            ActivityMode::CrimsonDoubles => 15,
            ActivityMode::Nightfall => 16,
            ActivityMode::HeroicNightfall => 17,
            ActivityMode::AllStrikes => 18,
            ActivityMode::IronBanner => 19,
            ActivityMode::AllMayhem => 25,
            ActivityMode::Supremacy => 31,
            ActivityMode::PrivateMatchesAll => 32,
            ActivityMode::Survival => 37,
            ActivityMode::Countdown => 38,
            ActivityMode::TrialsOfTheNine => 39,
            ActivityMode::Social => 40,
            ActivityMode::TrialsCountdown => 41,
            ActivityMode::TrialsSurvival => 42,
            ActivityMode::IronBannerControl => 43,
            ActivityMode::IronBannerClash => 44,
            ActivityMode::IronBannerSupremacy => 45,
            ActivityMode::ScoredNightfall => 46,
            ActivityMode::ScoredHeroicNightfall => 47,
            ActivityMode::Rumble => 48,
            ActivityMode::AllDoubles => 49,
            ActivityMode::Doubles => 50,
            ActivityMode::PrivateMatchesClash => 51,
            ActivityMode::APrivateMatchesControl => 52,
            ActivityMode::PrivateMatchesSupremacy => 53,
            ActivityMode::PrivateMatchesCountdown => 54,
            ActivityMode::PrivateMatchesSurvival => 55,
            ActivityMode::PrivateMatchesMayhem => 56,
            ActivityMode::PrivateMatchesRumble => 57,
            ActivityMode::HeroicAdventure => 58,
            ActivityMode::Showdown => 59,
            ActivityMode::Lockdown => 60,
            ActivityMode::Scorched => 61,
            ActivityMode::ScorchedTeam => 62,
            ActivityMode::Gambit => 63,
            ActivityMode::AllPvECompetitve => 64,
            ActivityMode::Breakthrough => 65,
            ActivityMode::BlackArmoryRun => 66,
            ActivityMode::Salvage => 67,
            ActivityMode::IronBannerSalvage => 68,
            ActivityMode::PvPCompetitve => 69,
            ActivityMode::PvPQuickplay => 70,
            ActivityMode::ClashQuickplay => 71,
            ActivityMode::ClashCompetitve => 72,
            ActivityMode::ControlQuickplay => 73,
            ActivityMode::ControlCompetitve => 74,
            ActivityMode::GambitPrime => 75,
            ActivityMode::Reckoning => 76,
            ActivityMode::Menagerie => 77,
            ActivityMode::VexOffensive => 78,
            ActivityMode::NightmareHunt => 79,
            ActivityMode::Elimination => 80,
            ActivityMode::Momentum => 81,
            ActivityMode::Dungeon => 82,
            ActivityMode::Sundial => 83,
            ActivityMode::TrialsOfOsiris => 84,
            ActivityMode::Dares => 85,
            ActivityMode::Offensive => 86,
        }
    }

    /// The value whose code is `code`, if there is one.
    pub fn from(code: i16) -> (r: Option<ActivityMode>)
        ensures
            r == mode_of(code),
    {
        match code {
            0 => Some(ActivityMode::NoMode),
            2 => Some(ActivityMode::Story),
            3 => Some(ActivityMode::Strike),
            4 => Some(ActivityMode::Raid),
            5 => Some(ActivityMode::AllPvP),
            6 => Some(ActivityMode::Patrol),
            7 => Some(ActivityMode::AllPvE),
            10 => Some(ActivityMode::Control),
            12 => Some(ActivityMode::Clash),
            15 => Some(ActivityMode::CrimsonDoubles),
            16 => Some(ActivityMode::Nightfall),
            17 => Some(ActivityMode::HeroicNightfall),
            18 => Some(ActivityMode::AllStrikes),
            19 => Some(ActivityMode::IronBanner),
            25 => Some(ActivityMode::AllMayhem),
            31 => Some(ActivityMode::Supremacy),
            32 => Some(ActivityMode::PrivateMatchesAll),
            37 => Some(ActivityMode::Survival),
            38 => Some(ActivityMode::Countdown),
            39 => Some(ActivityMode::TrialsOfTheNine),
            40 => Some(ActivityMode::Social),
            41 => Some(ActivityMode::TrialsCountdown),
            42 => Some(ActivityMode::TrialsSurvival),
            43 => Some(ActivityMode::IronBannerControl),
            44 => Some(ActivityMode::IronBannerClash),
            45 => Some(ActivityMode::IronBannerSupremacy),
            46 => Some(ActivityMode::ScoredNightfall),
            47 => Some(ActivityMode::ScoredHeroicNightfall),
            48 => Some(ActivityMode::Rumble),
            49 => Some(ActivityMode::AllDoubles),
            50 => Some(ActivityMode::Doubles),
            51 => Some(ActivityMode::PrivateMatchesClash),
            52 => Some(ActivityMode::APrivateMatchesControl),
            53 => Some(ActivityMode::PrivateMatchesSupremacy),
            54 => Some(ActivityMode::PrivateMatchesCountdown),
            55 => Some(ActivityMode::PrivateMatchesSurvival),
            56 => Some(ActivityMode::PrivateMatchesMayhem),
            57 => Some(ActivityMode::PrivateMatchesRumble),
            58 => Some(ActivityMode::HeroicAdventure),
            59 => Some(ActivityMode::Showdown),
            60 => Some(ActivityMode::Lockdown),
            61 => Some(ActivityMode::Scorched),
            62 => Some(ActivityMode::ScorchedTeam),
            63 => Some(ActivityMode::Gambit),
            64 => Some(ActivityMode::AllPvECompetitve),
            65 => Some(ActivityMode::Breakthrough),
            66 => Some(ActivityMode::BlackArmoryRun),
            67 => Some(ActivityMode::Salvage),
            68 => Some(ActivityMode::IronBannerSalvage),
            69 => Some(ActivityMode::PvPCompetitve),
            70 => Some(ActivityMode::PvPQuickplay),
            71 => Some(ActivityMode::ClashQuickplay),
            72 => Some(ActivityMode::ClashCompetitve),
            73 => Some(ActivityMode::ControlQuickplay),
            74 => Some(ActivityMode::ControlCompetitve),
            75 => Some(ActivityMode::GambitPrime),
            76 => Some(ActivityMode::Reckoning),
            77 => Some(ActivityMode::Menagerie),
            78 => Some(ActivityMode::VexOffensive),
            79 => Some(ActivityMode::NightmareHunt),
            80 => Some(ActivityMode::Elimination),
            81 => Some(ActivityMode::Momentum),
            82 => Some(ActivityMode::Dungeon),
            83 => Some(ActivityMode::Sundial),
            84 => Some(ActivityMode::TrialsOfOsiris),
            85 => Some(ActivityMode::Dares),
            86 => Some(ActivityMode::Offensive),
            _ => None,
        }
    }
}
/// The mode whose code is `code`.
pub open spec fn mode_of(code: i16) -> Option<ActivityMode> {
    if code == 0 {
        Some(ActivityMode::NoMode)
    } else if code == 2 {
        Some(ActivityMode::Story)
    } else if code == 3 {
        Some(ActivityMode::Strike)
    } else if code == 4 {
        Some(ActivityMode::Raid)
    } else if code == 5 {
        Some(ActivityMode::AllPvP)
    } else if code == 6 {
        Some(ActivityMode::Patrol)
    } else if code == 7 {
        Some(ActivityMode::AllPvE)
    } else if code == 10 {
        Some(ActivityMode::Control)
    } else if code == 12 {
        Some(ActivityMode::Clash)
    } else if code == 15 {
        Some(ActivityMode::CrimsonDoubles)
    } else if code == 16 {
        Some(ActivityMode::Nightfall)
    } else if code == 17 {
        Some(ActivityMode::HeroicNightfall)
    } else if code == 18 {
        Some(ActivityMode::AllStrikes)
    } else if code == 19 {
        Some(ActivityMode::IronBanner)
    } else if code == 25 {
        Some(ActivityMode::AllMayhem)
    } else if code == 31 {
        Some(ActivityMode::Supremacy)
    } else if code == 32 {
        Some(ActivityMode::PrivateMatchesAll)
    } else if code == 37 {
        Some(ActivityMode::Survival)
    } else if code == 38 {
        Some(ActivityMode::Countdown)
    } else if code == 39 {
        Some(ActivityMode::TrialsOfTheNine)
    } else if code == 40 {
        Some(ActivityMode::Social)
    } else if code == 41 {
        Some(ActivityMode::TrialsCountdown)
    } else if code == 42 {
        Some(ActivityMode::TrialsSurvival)
    } else if code == 43 {
        Some(ActivityMode::IronBannerControl)
    } else if code == 44 {
        Some(ActivityMode::IronBannerClash)
    } else if code == 45 {
        Some(ActivityMode::IronBannerSupremacy)
    } else if code == 46 {
        Some(ActivityMode::ScoredNightfall)
    } else if code == 47 {
        Some(ActivityMode::ScoredHeroicNightfall)
    } else if code == 48 {
        Some(ActivityMode::Rumble)
    } else if code == 49 {
        Some(ActivityMode::AllDoubles)
    } else if code == 50 {
        Some(ActivityMode::Doubles)
    } else if code == 51 {
        Some(ActivityMode::PrivateMatchesClash)
    } else if code == 52 {
        Some(ActivityMode::APrivateMatchesControl)
    } else if code == 53 {
        Some(ActivityMode::PrivateMatchesSupremacy)
    } else if code == 54 {
        Some(ActivityMode::PrivateMatchesCountdown)
    } else if code == 55 {
        Some(ActivityMode::PrivateMatchesSurvival)
    } else if code == 56 {
        Some(ActivityMode::PrivateMatchesMayhem)
    } else if code == 57 {
        Some(ActivityMode::PrivateMatchesRumble)
    } else if code == 58 {
        Some(ActivityMode::HeroicAdventure)
    } else if code == 59 {
        Some(ActivityMode::Showdown)
    } else if code == 60 {
        Some(ActivityMode::Lockdown)
    } else if code == 61 {
        Some(ActivityMode::Scorched)
    } else if code == 62 {
        Some(ActivityMode::ScorchedTeam)
    } else if code == 63 {
        Some(ActivityMode::Gambit)
    } else if code == 64 {
        Some(ActivityMode::AllPvECompetitve)
    } else if code == 65 {
        Some(ActivityMode::Breakthrough)
    } else if code == 66 {
        Some(ActivityMode::BlackArmoryRun)
    } else if code == 67 {
        Some(ActivityMode::Salvage)
    } else if code == 68 {
        Some(ActivityMode::IronBannerSalvage)
    } else if code == 69 {
        Some(ActivityMode::PvPCompetitve)
    } else if code == 70 {
        Some(ActivityMode::PvPQuickplay)
    } else if code == 71 {
        Some(ActivityMode::ClashQuickplay)
    } else if code == 72 {
        Some(ActivityMode::ClashCompetitve)
    } else if code == 73 {
        Some(ActivityMode::ControlQuickplay)
    } else if code == 74 {
        Some(ActivityMode::ControlCompetitve)
    } else if code == 75 {
        Some(ActivityMode::GambitPrime)
    } else if code == 76 {
        Some(ActivityMode::Reckoning)
    } else if code == 77 {
        Some(ActivityMode::Menagerie)
    } else if code == 78 {
        Some(ActivityMode::VexOffensive)
    } else if code == 79 {
        Some(ActivityMode::NightmareHunt)
    } else if code == 80 {
        Some(ActivityMode::Elimination)
    } else if code == 81 {
        Some(ActivityMode::Momentum)
    } else if code == 82 {
        Some(ActivityMode::Dungeon)
    } else if code == 83 {
        Some(ActivityMode::Sundial)
    } else if code == 84 {
        Some(ActivityMode::TrialsOfOsiris)
    } else if code == 85 {
        Some(ActivityMode::Dares)
    } else if code == 86 {
        Some(ActivityMode::Offensive)
    } else {
        None
    }
}

/// Reading a mode's code back gives the mode.
pub proof fn lemma_mode_code_round_trip(m: ActivityMode)
    ensures
        mode_of(m.code()) == Some(m),
{
}

/// A code that names a mode is that mode's code.
pub proof fn lemma_mode_of_code(code: i16)
    ensures
        mode_of(code) matches Some(m) ==> m.code() == code,
{
}

/// An activity, known by the hashes under which reports name it.
#[derive(PartialEq, Eq, Structural, Clone, Copy, Debug)]
pub enum ActivityIdentifier {
    ArmsDealer,
    LakeOfShadows,
    TheDisgraced,
    FallenSaber,
    DevilsLair,
    SavathunsSong,
    InvertedSpire,
    ExodusCrash,
    InsightTerminus,
    ProvingGround,
    ThePyramidion,
    FesteringCore,
    TreeOfProbabilities,
    AGardenWorld,
    StrangeTerrain,
    WillOfTheThousands,
    WardenOfNothing,
    TheHollowedLair,
    Broodhold,
}

impl ActivityIdentifier {
    /// The mode of the activity.
    pub open spec fn mode(self) -> ActivityMode {
        match self {
            ActivityIdentifier::ArmsDealer => ActivityMode::Strike,
            ActivityIdentifier::LakeOfShadows => ActivityMode::Strike,
            ActivityIdentifier::TheDisgraced => ActivityMode::Strike,
            ActivityIdentifier::FallenSaber => ActivityMode::Strike,
            ActivityIdentifier::DevilsLair => ActivityMode::Strike,
            ActivityIdentifier::SavathunsSong => ActivityMode::Strike,
            ActivityIdentifier::InvertedSpire => ActivityMode::Strike,
            ActivityIdentifier::ExodusCrash => ActivityMode::Strike,
            ActivityIdentifier::InsightTerminus => ActivityMode::Strike,
            ActivityIdentifier::ProvingGround => ActivityMode::Strike,
            ActivityIdentifier::ThePyramidion => ActivityMode::Strike,
            ActivityIdentifier::FesteringCore => ActivityMode::Strike,
            ActivityIdentifier::TreeOfProbabilities => ActivityMode::Strike,
            ActivityIdentifier::AGardenWorld => ActivityMode::Strike,
            ActivityIdentifier::StrangeTerrain => ActivityMode::Strike,
            ActivityIdentifier::WillOfTheThousands => ActivityMode::Strike,
            ActivityIdentifier::WardenOfNothing => ActivityMode::Strike,
            ActivityIdentifier::TheHollowedLair => ActivityMode::Strike,
            ActivityIdentifier::Broodhold => ActivityMode::Strike,
        }
    }

    /// The hashes under which reports name the activity.
    pub open spec fn ids(self) -> Seq<Seq<char>> {
        match self {
            ActivityIdentifier::ArmsDealer => seq![
                "442671778"@,
                "2080275457"@,
                "2378719026"@,
                "2724706103"@,
                "2378719025"@,
                "770196931"@,
                "3240321863"@,
                "1258914202"@,
                "1679518121"@,
            ],
            ActivityIdentifier::LakeOfShadows => seq![
                "2318521576"@,
                "3711627564"@,
                "3725993747"@,
                "2630091891"@,
                "4134816102"@,
            ],
            ActivityIdentifier::TheDisgraced => seq!["1684420962"@, "174131855"@],
            ActivityIdentifier::FallenSaber => seq!["3597990372"@, "3777220691"@],
            ActivityIdentifier::DevilsLair => seq!["969982762"@],
            ActivityIdentifier::SavathunsSong => seq![
                "2359594803"@,
                "1101792305"@,
                "3191123858"@,
                "649648599"@,
                "1542611209"@,
            ],
            ActivityIdentifier::InvertedSpire => seq![
                "3704910925"@,
                "1563393783"@,
                "286562305"@,
                "1107473294"@,
                "1743518003"@,
                "338662534"@,
                "2753180142"@,
                "1743518000"@,
                "467266668"@,
            ],
            ActivityIdentifier::ExodusCrash => seq![
                "2459768558"@,
                "1549614516"@,
                "4260306233"@,
                "1930116823"@,
                "2479262829"@,
                "1930116820"@,
                "2971335647"@,
            ],
            ActivityIdentifier::InsightTerminus => seq![
                "3751421841"@,
                "291911094"@,
                "3735153516"@,
                "3735153519"@,
            ],
            ActivityIdentifier::ProvingGround => seq!["546528643"@, "1754609040"@],
            ActivityIdentifier::ThePyramidion => seq![
                "1035135049"@,
                "1603374112"@,
                "1332567112"@,
                "2704613535"@,
                "1332567115"@,
                "981383202"@,
                "2799837309"@,
                "4261351281"@,
            ],
            ActivityIdentifier::FesteringCore => seq!["1035850837"@, "3596828104"@],
            ActivityIdentifier::TreeOfProbabilities => seq![
                "2678510381"@,
                "1263901594"@,
                "561345572"@,
                "561345575"@,
                "840678113"@,
                "4085493024"@,
                "2684121894"@,
            ],
            ActivityIdentifier::AGardenWorld => seq![
                "656703508"@,
                "3676029623"@,
                "2230236215"@,
                "2230236212"@,
                "689927878"@,
                "117447065"@,
                "2579344189"@,
                "743963294"@,
            ],
            ActivityIdentifier::StrangeTerrain => seq![
                "2992505404"@,
                "861639649"@,
                "3801775390"@,
                "2248296964"@,
                "861639650"@,
            ],
            ActivityIdentifier::WillOfTheThousands => seq![
                "1198216109"@,
                "3944547192"@,
                "3510043585"@,
                "1317492847"@,
                "1891220709"@,
                "3944547195"@,
            ],
            ActivityIdentifier::WardenOfNothing => seq![
                "1360385764"@,
                "1360385767"@,
                "1134446996"@,
                "1493405720"@,
            ],
            ActivityIdentifier::TheHollowedLair => seq![
                "663301842"@,
                "1475539136"@,
                "1475539139"@,
                "955874134"@,
            ],
            ActivityIdentifier::Broodhold => seq!["1666283939"@, "3813623455"@],
        }
    }

    /// The mode of the activity and the hashes under which reports name it.
    pub fn get(&self) -> (r: (ActivityMode, Vec<String>))
        ensures
            r.0 == self.mode(),
            r.1@.map_values(|s: String| s@) == self.ids(),
    {
        match self {
            ActivityIdentifier::ArmsDealer => {
                let v = vec![
                    String::from_str("442671778"),
                    String::from_str("2080275457"),
                    String::from_str("2378719026"),
                    String::from_str("2724706103"),
                    String::from_str("2378719025"),
                    String::from_str("770196931"),
                    String::from_str("3240321863"),
                    String::from_str("1258914202"),
                    String::from_str("1679518121"),
                ];
                assert(v@.map_values(|s: String| s@) =~= self.ids());
                (ActivityMode::Strike, v)
            },
            ActivityIdentifier::LakeOfShadows => {
                let v = vec![
                    String::from_str("2318521576"),
                    String::from_str("3711627564"),
                    String::from_str("3725993747"),
                    String::from_str("2630091891"),
                    String::from_str("4134816102"),
                ];
                assert(v@.map_values(|s: String| s@) =~= self.ids());
                (ActivityMode::Strike, v)
            },
            ActivityIdentifier::TheDisgraced => {
                let v = vec![String::from_str("1684420962"), String::from_str("174131855")];
                assert(v@.map_values(|s: String| s@) =~= self.ids());
                (ActivityMode::Strike, v)
            },
            ActivityIdentifier::FallenSaber => {
                let v = vec![String::from_str("3597990372"), String::from_str("3777220691")];
                assert(v@.map_values(|s: String| s@) =~= self.ids());
                (ActivityMode::Strike, v)
            },
            ActivityIdentifier::DevilsLair => {
                let v = vec![String::from_str("969982762")];
                assert(v@.map_values(|s: String| s@) =~= self.ids());
                (ActivityMode::Strike, v)
            },
            ActivityIdentifier::SavathunsSong => {
                let v = vec![
                    String::from_str("2359594803"),
                    String::from_str("1101792305"),
                    String::from_str("3191123858"),
                    String::from_str("649648599"),
                    String::from_str("1542611209"),
                ];
                assert(v@.map_values(|s: String| s@) =~= self.ids());
                (ActivityMode::Strike, v)
            },
            ActivityIdentifier::InvertedSpire => {
                let v = vec![
                    String::from_str("3704910925"),
                    String::from_str("1563393783"),
                    String::from_str("286562305"),
                    String::from_str("1107473294"),
                    String::from_str("1743518003"),
                    String::from_str("338662534"),
                    String::from_str("2753180142"),
                    String::from_str("1743518000"),
                    String::from_str("467266668"),
                ];
                assert(v@.map_values(|s: String| s@) =~= self.ids());
                (ActivityMode::Strike, v)
            },
            ActivityIdentifier::ExodusCrash => {
                let v = vec![
                    String::from_str("2459768558"),
                    String::from_str("1549614516"),
                    String::from_str("4260306233"),
                    String::from_str("1930116823"),
                    String::from_str("2479262829"),
                    String::from_str("1930116820"),
                    String::from_str("2971335647"),
                ];
                assert(v@.map_values(|s: String| s@) =~= self.ids());
                (ActivityMode::Strike, v)
            },
            ActivityIdentifier::InsightTerminus => {
                let v = vec![
                    String::from_str("3751421841"),
                    String::from_str("291911094"),
                    String::from_str("3735153516"),
                    String::from_str("3735153519"),
                ];
                assert(v@.map_values(|s: String| s@) =~= self.ids());
                (ActivityMode::Strike, v)
            },
            ActivityIdentifier::ProvingGround => {
                let v = vec![String::from_str("546528643"), String::from_str("1754609040")];
                assert(v@.map_values(|s: String| s@) =~= self.ids());
                (ActivityMode::Strike, v)
            },
            ActivityIdentifier::ThePyramidion => {
                let v = vec![
                    String::from_str("1035135049"),
                    String::from_str("1603374112"),
                    String::from_str("1332567112"),
                    String::from_str("2704613535"),
                    String::from_str("1332567115"),
                    String::from_str("981383202"),
                    String::from_str("2799837309"),
                    String::from_str("4261351281"),
                ];
                assert(v@.map_values(|s: String| s@) =~= self.ids());
                (ActivityMode::Strike, v)
            },
            ActivityIdentifier::FesteringCore => {
                let v = vec![String::from_str("1035850837"), String::from_str("3596828104")];
                assert(v@.map_values(|s: String| s@) =~= self.ids());
                (ActivityMode::Strike, v)
            },
            ActivityIdentifier::TreeOfProbabilities => {
                let v = vec![
                    String::from_str("2678510381"),
                    String::from_str("1263901594"),
                    String::from_str("561345572"),
                    String::from_str("561345575"),
                    String::from_str("840678113"),
                    String::from_str("4085493024"),
                    String::from_str("2684121894"),
                ];
                assert(v@.map_values(|s: String| s@) =~= self.ids());
                (ActivityMode::Strike, v)
            },
            ActivityIdentifier::AGardenWorld => {
                let v = vec![
                    String::from_str("656703508"),
                    String::from_str("3676029623"),
                    String::from_str("2230236215"),
                    String::from_str("2230236212"),
                    String::from_str("689927878"),
                    String::from_str("117447065"),
                    String::from_str("2579344189"),
                    String::from_str("743963294"),
                ];
                assert(v@.map_values(|s: String| s@) =~= self.ids());
                (ActivityMode::Strike, v)
            },
            ActivityIdentifier::StrangeTerrain => {
                let v = vec![
                    String::from_str("2992505404"),
                    String::from_str("861639649"),
                    String::from_str("3801775390"),
                    String::from_str("2248296964"),
                    String::from_str("861639650"),
                ];
                assert(v@.map_values(|s: String| s@) =~= self.ids());
                (ActivityMode::Strike, v)
            },
            ActivityIdentifier::WillOfTheThousands => {
                let v = vec![
                    String::from_str("1198216109"),
                    String::from_str("3944547192"),
                    String::from_str("3510043585"),
                    String::from_str("1317492847"),
                    String::from_str("1891220709"),
                    String::from_str("3944547195"),
                ];
                assert(v@.map_values(|s: String| s@) =~= self.ids());
                (ActivityMode::Strike, v)
            },
            ActivityIdentifier::WardenOfNothing => {
                let v = vec![
                    String::from_str("1360385764"),
                    String::from_str("1360385767"),
                    String::from_str("1134446996"),
                    String::from_str("1493405720"),
                ];
                assert(v@.map_values(|s: String| s@) =~= self.ids());
                (ActivityMode::Strike, v)
            },
            ActivityIdentifier::TheHollowedLair => {
                let v = vec![
                    String::from_str("663301842"),
                    String::from_str("1475539136"),
                    String::from_str("1475539139"),
                    String::from_str("955874134"),
                ];
                assert(v@.map_values(|s: String| s@) =~= self.ids());
                (ActivityMode::Strike, v)
            },
            ActivityIdentifier::Broodhold => {
                let v = vec![String::from_str("1666283939"), String::from_str("3813623455")];
                assert(v@.map_values(|s: String| s@) =~= self.ids());
                (ActivityMode::Strike, v)
            },
        }
    }

    /// Every activity, in the order in which lookups try them.
    pub fn get_all() -> (r: Vec<ActivityIdentifier>)
        ensures
            r@ == all_identifiers(),
    {
        let v = vec![
            ActivityIdentifier::ArmsDealer,
            ActivityIdentifier::LakeOfShadows,
            ActivityIdentifier::TheDisgraced,
            ActivityIdentifier::FallenSaber,
            ActivityIdentifier::DevilsLair,
            ActivityIdentifier::SavathunsSong,
            ActivityIdentifier::InvertedSpire,
            ActivityIdentifier::ExodusCrash,
            ActivityIdentifier::InsightTerminus,
            ActivityIdentifier::ProvingGround,
            ActivityIdentifier::ThePyramidion,
            ActivityIdentifier::FesteringCore,
            ActivityIdentifier::TreeOfProbabilities,
            ActivityIdentifier::AGardenWorld,
            ActivityIdentifier::StrangeTerrain,
            ActivityIdentifier::WillOfTheThousands,
            ActivityIdentifier::WardenOfNothing,
            ActivityIdentifier::TheHollowedLair,
            ActivityIdentifier::Broodhold,
        ];
        assert(v@ =~= all_identifiers());
        v
    }
}

/// Every activity, in the order in which lookups try them.
pub open spec fn all_identifiers() -> Seq<ActivityIdentifier> {
    seq![
        ActivityIdentifier::ArmsDealer,
        ActivityIdentifier::LakeOfShadows,
        ActivityIdentifier::TheDisgraced,
        ActivityIdentifier::FallenSaber,
        ActivityIdentifier::DevilsLair,
        ActivityIdentifier::SavathunsSong,
        ActivityIdentifier::InvertedSpire,
        ActivityIdentifier::ExodusCrash,
        ActivityIdentifier::InsightTerminus,
        ActivityIdentifier::ProvingGround,
        ActivityIdentifier::ThePyramidion,
        ActivityIdentifier::FesteringCore,
        ActivityIdentifier::TreeOfProbabilities,
        ActivityIdentifier::AGardenWorld,
        ActivityIdentifier::StrangeTerrain,
        ActivityIdentifier::WillOfTheThousands,
        ActivityIdentifier::WardenOfNothing,
        ActivityIdentifier::TheHollowedLair,
        ActivityIdentifier::Broodhold,
    ]
}

/// The first activity of `s` that reports name under `id`.
pub open spec fn first_with_id(s: Seq<ActivityIdentifier>, id: Seq<char>) -> Option<
    ActivityIdentifier,
>
    decreases s.len(),
{
    if s.len() == 0 {
        None
    } else if s[0].ids().contains(id) {
        Some(s[0])
    } else {
        first_with_id(s.drop_first(), id)
    }
}

/// The activity that reports name under `id`.
pub open spec fn identifier_of(id: Seq<char>) -> Option<ActivityIdentifier> {
    first_with_id(all_identifiers(), id)
}

impl ActivityIdentifier {
    /// The activity that reports name under the hash `id`, if it is known.
    pub fn from_identifier(id: String) -> (r: Option<ActivityIdentifier>)
        ensures
            r == identifier_of(id@),
    {
        let all = ActivityIdentifier::get_all();
        assert(all@.subrange(0, all@.len() as int) =~= all@);
        let mut i: usize = 0;
        while i < all.len()
            invariant
                i <= all.len(),
                all@ == all_identifiers(),
                identifier_of(id@) == first_with_id(
                    all@.subrange(i as int, all@.len() as int),
                    id@,
                ),
            decreases all.len() - i,
        {
            let ai = all[i];
            let (_, ids) = ai.get();
            let ghost rest = all@.subrange(i as int, all@.len() as int);
            assert(rest[0] == ai);
            assert(rest.drop_first() =~= all@.subrange(i + 1, all@.len() as int));
            let ghost names = ids@.map_values(|s: String| s@);
            let mut j: usize = 0;
            while j < ids.len()
                invariant
                    j <= ids.len(),
                    names == ai.ids(),
                    names == ids@.map_values(|s: String| s@),
                    rest.len() > 0,
                    rest[0] == ai,
                    identifier_of(id@) == first_with_id(rest, id@),
                    forall|k: int| 0 <= k < j ==> names[k] != id@,
                decreases ids.len() - j,
            {
                if ids[j] == id {
                    assert(names[j as int] == id@);
                    assert(ai.ids().contains(id@));
                    return Some(ai);
                }
                j = j + 1;
            }
            assert(!ai.ids().contains(id@));
            i = i + 1;
        }
        None
    }
}

/// What a report or a history entry says of the activity played.
#[derive(Clone, Debug)]
pub struct ActivityDetails {
    pub reference_id: i64,
    pub director_activity_hash: i64,
    pub instance_id: String,
    pub mode: i8,
    pub modes: Vec<i16>,
    pub is_private: bool,
    pub membership_type: i8,
}

impl JsonDecode for ActivityDetails {
    open spec fn decodable(text: Seq<char>, at: Seq<char>) -> bool {
        &&& <i64 as JsonDecode>::decodable(text, member(at, "/referenceId"@))
        &&& <i64 as JsonDecode>::decodable(text, member(at, "/directorActivityHash"@))
        &&& <String as JsonDecode>::decodable(text, member(at, "/instanceId"@))
        &&& <i8 as JsonDecode>::decodable(text, member(at, "/mode"@))
        &&& <Vec<i16> as JsonDecode>::decodable(text, member(at, "/modes"@))
        &&& <bool as JsonDecode>::decodable(text, member(at, "/isPrivate"@))
        &&& <i8 as JsonDecode>::decodable(text, member(at, "/membershipType"@))
    }

    open spec fn decodes_to(text: Seq<char>, at: Seq<char>, v: ActivityDetails) -> bool {
        &&& <i64 as JsonDecode>::decodes_to(text, member(at, "/referenceId"@), v.reference_id)
        &&& <i64 as JsonDecode>::decodes_to(
            text,
            member(at, "/directorActivityHash"@),
            v.director_activity_hash,
        )
        &&& <String as JsonDecode>::decodes_to(text, member(at, "/instanceId"@), v.instance_id)
        &&& <i8 as JsonDecode>::decodes_to(text, member(at, "/mode"@), v.mode)
        &&& <Vec<i16> as JsonDecode>::decodes_to(text, member(at, "/modes"@), v.modes)
        &&& <bool as JsonDecode>::decodes_to(text, member(at, "/isPrivate"@), v.is_private)
        &&& <i8 as JsonDecode>::decodes_to(text, member(at, "/membershipType"@), v.membership_type)
    }

    fn decode_at(text: &str, at: &str) -> (r: Option<ActivityDetails>) {
        let ptr = member_ptr(at, "/referenceId");
        let reference_id = match <i64 as JsonDecode>::decode_at(text, ptr.as_str()) {
            Some(x) => x,
            None => return None,
        };
        let ptr = member_ptr(at, "/directorActivityHash");
        let director_activity_hash = match <i64 as JsonDecode>::decode_at(text, ptr.as_str()) {
            Some(x) => x,
            None => return None,
        };
        let ptr = member_ptr(at, "/instanceId");
        let instance_id = match <String as JsonDecode>::decode_at(text, ptr.as_str()) {
            Some(x) => x,
            None => return None,
        };
        let ptr = member_ptr(at, "/mode");
        let mode = match <i8 as JsonDecode>::decode_at(text, ptr.as_str()) {
            Some(x) => x,
            None => return None,
        };
        let ptr = member_ptr(at, "/modes");
        let modes = match <Vec<i16> as JsonDecode>::decode_at(text, ptr.as_str()) {
            Some(x) => x,
            None => return None,
        };
        let ptr = member_ptr(at, "/isPrivate");
        let is_private = match <bool as JsonDecode>::decode_at(text, ptr.as_str()) {
            Some(x) => x,
            None => return None,
        };
        let ptr = member_ptr(at, "/membershipType");
        let membership_type = match <i8 as JsonDecode>::decode_at(text, ptr.as_str()) {
            Some(x) => x,
            None => return None,
        };
        Some(
            ActivityDetails {
                reference_id,
                director_activity_hash,
                instance_id,
                mode,
                modes,
                is_private,
                membership_type,
            },
        )
    }
}
/// The endpoint of the report of one activity.
pub open spec fn report_url(id: int) -> Seq<char> {
    "https://stats.bungie.net/Platform/Destiny2/Stats/PostGameCarnageReport/"@ + signed_decimal(id)
        + "/"@
}

/// The endpoint of one page of the activity history of a character, in one
/// mode, 250 activities to a page.
pub open spec fn activity_history_url(
    platform: i16,
    membership_id: Seq<char>,
    character_id: Seq<char>,
    mode: ActivityMode,
    page: nat,
) -> Seq<char> {
    api_base() + "/Destiny2/"@ + signed_decimal(platform as int) + "/Account/"@ + membership_id
        + "/Character/"@ + character_id + "/Stats/Activities/?count=250&mode="@ + signed_decimal(
        mode.code() as int,
    ) + "&page="@ + decimal(page)
}

/// Requests the reports of activities and the activity histories of
/// characters.
pub struct PgcrScraper {
    client: ApiClient,
}

impl PgcrScraper {
    pub closed spec fn client(&self) -> ApiClient {
        self.client
    }

    /// A scraper with its own copy of the client.
    pub fn new(client: &ApiClient) -> (r: PgcrScraper)
        ensures
            r.client()@ == client@,
    {
        PgcrScraper { client: client.clone() }
    }

    /// A scraper with a copy of the same client.
    pub fn clone(&self) -> (r: PgcrScraper)
        ensures
            r.client()@ == self.client()@,
    {
        PgcrScraper { client: self.client.clone() }
    }

    /// The request for the report of the activity `id`.
    pub fn get_pgcr_raw(&self, id: i64) -> (r: HttpRequest)
        ensures
            r@ == request_for(
                HttpMethod::Get,
                self.client()@.key,
                report_url(id as int),
                seq![],
                None,
            ),
    {
        let url = String::from_str(
            "https://stats.bungie.net/Platform/Destiny2/Stats/PostGameCarnageReport/",
        );
        let url = url.concat(signed_text(id).as_str());
        let url = url.concat("/");
        assert(url@ =~= report_url(id as int));
        self.client.get(url)
    }

    /// The request for one page of the activity history, in one mode, of a
    /// character of the user's primary profile.
    pub fn get_activity_history(
        &self,
        user: &BungieUser,
        character_id: &str,
        mode: ActivityMode,
        page: u64,
    ) -> (r: HttpRequest)
        ensures
            r@ == request_for(
                HttpMethod::Get,
                self.client()@.key,
                activity_history_url(
                    user.primary.platform,
                    user.primary.id@,
                    character_id@,
                    mode,
                    page as nat,
                ),
                seq![],
                None,
            ),
    {
        let url = String::from_str(url_base());
        let url = url.concat("/Destiny2/");
        let url = url.concat(signed_text(user.primary.platform as i64).as_str());
        let url = url.concat("/Account/");
        let url = url.concat(user.primary.id.as_str());
        let url = url.concat("/Character/");
        let url = url.concat(character_id);
        let url = url.concat("/Stats/Activities/?count=250&mode=");
        let url = url.concat(signed_text(mode.get() as i64).as_str());
        let url = url.concat("&page=");
        let url = url.concat(unsigned_text(page).as_str());
        assert(url@ =~= activity_history_url(
            user.primary.platform,
            user.primary.id@,
            character_id@,
            mode,
            page as nat,
        ));
        self.client.get(url)
    }
}

} // verus!
