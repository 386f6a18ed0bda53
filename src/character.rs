//! The parts of a character that the API describes in plain values.
use vstd::prelude::*;
use crate::json::{JsonDecode, member, member_ptr};

verus! {

/// The color of a character's emblem.
#[derive(Clone, Debug)]
pub struct EmblemColor {
    pub alpha: i16,
    pub blue: i16,
    pub green: i16,
    pub red: i16,
}

impl JsonDecode for EmblemColor {
    open spec fn decodable(text: Seq<char>, at: Seq<char>) -> bool {
        &&& <i16 as JsonDecode>::decodable(text, member(at, "/alpha"@))
        &&& <i16 as JsonDecode>::decodable(text, member(at, "/blue"@))
        &&& <i16 as JsonDecode>::decodable(text, member(at, "/green"@))
        &&& <i16 as JsonDecode>::decodable(text, member(at, "/red"@))
    }

    open spec fn decodes_to(text: Seq<char>, at: Seq<char>, v: EmblemColor) -> bool {
        &&& <i16 as JsonDecode>::decodes_to(text, member(at, "/alpha"@), v.alpha)
        &&& <i16 as JsonDecode>::decodes_to(text, member(at, "/blue"@), v.blue)
        &&& <i16 as JsonDecode>::decodes_to(text, member(at, "/green"@), v.green)
        &&& <i16 as JsonDecode>::decodes_to(text, member(at, "/red"@), v.red)
    }

    fn decode_at(text: &str, at: &str) -> (r: Option<EmblemColor>) {
        let ptr = member_ptr(at, "/alpha");
        let alpha = match <i16 as JsonDecode>::decode_at(text, ptr.as_str()) {
            Some(x) => x,
            None => return None,
        };
        let ptr = member_ptr(at, "/blue");
        let blue = match <i16 as JsonDecode>::decode_at(text, ptr.as_str()) {
            Some(x) => x,
            None => return None,
        };
        let ptr = member_ptr(at, "/green");
        let green = match <i16 as JsonDecode>::decode_at(text, ptr.as_str()) {
            Some(x) => x,
            None => return None,
        };
        let ptr = member_ptr(at, "/red");
        let red = match <i16 as JsonDecode>::decode_at(text, ptr.as_str()) {
            Some(x) => x,
            None => return None,
        };
        Some(EmblemColor { alpha, blue, green, red })
    }
}
/// A character's progress through levels.
#[derive(Clone, Debug)]
pub struct LevelProgression {
    pub current_progress: i16,
    pub daily_limit: i16,
    pub daily_progress: i16,
    pub level: i16,
    pub level_cap: i16,
    pub next_level_at: i16,
    pub progress_to_next_level: i16,
    pub progression_hash: i64,
    pub step_index: i16,
    pub weekly_limit: i16,
    pub weekly_progress: i16,
}

impl JsonDecode for LevelProgression {
    open spec fn decodable(text: Seq<char>, at: Seq<char>) -> bool {
        &&& <i16 as JsonDecode>::decodable(text, member(at, "/currentProgress"@))
        &&& <i16 as JsonDecode>::decodable(text, member(at, "/dailyLimit"@))
        &&& <i16 as JsonDecode>::decodable(text, member(at, "/dailyProgress"@))
        &&& <i16 as JsonDecode>::decodable(text, member(at, "/level"@))
        &&& <i16 as JsonDecode>::decodable(text, member(at, "/levelCap"@))
        &&& <i16 as JsonDecode>::decodable(text, member(at, "/nextLevelAt"@))
        &&& <i16 as JsonDecode>::decodable(text, member(at, "/progressToNextLevel"@))
        &&& <i64 as JsonDecode>::decodable(text, member(at, "/progressionHash"@))
        &&& <i16 as JsonDecode>::decodable(text, member(at, "/stepIndex"@))
        &&& <i16 as JsonDecode>::decodable(text, member(at, "/weeklyLimit"@))
        &&& <i16 as JsonDecode>::decodable(text, member(at, "/weeklyProgress"@))
    }

    open spec fn decodes_to(text: Seq<char>, at: Seq<char>, v: LevelProgression) -> bool {
        &&& <i16 as JsonDecode>::decodes_to(
            text,
            member(at, "/currentProgress"@),
            v.current_progress,
        )
        &&& <i16 as JsonDecode>::decodes_to(text, member(at, "/dailyLimit"@), v.daily_limit)
        &&& <i16 as JsonDecode>::decodes_to(text, member(at, "/dailyProgress"@), v.daily_progress)
        &&& <i16 as JsonDecode>::decodes_to(text, member(at, "/level"@), v.level)
        &&& <i16 as JsonDecode>::decodes_to(text, member(at, "/levelCap"@), v.level_cap)
        &&& <i16 as JsonDecode>::decodes_to(text, member(at, "/nextLevelAt"@), v.next_level_at)
        &&& <i16 as JsonDecode>::decodes_to(
            text,
            member(at, "/progressToNextLevel"@),
            v.progress_to_next_level,
        )
        &&& <i64 as JsonDecode>::decodes_to(
            text,
            member(at, "/progressionHash"@),
            v.progression_hash,
        )
        &&& <i16 as JsonDecode>::decodes_to(text, member(at, "/stepIndex"@), v.step_index)
        &&& <i16 as JsonDecode>::decodes_to(text, member(at, "/weeklyLimit"@), v.weekly_limit)
        &&& <i16 as JsonDecode>::decodes_to(text, member(at, "/weeklyProgress"@), v.weekly_progress)
    }

    fn decode_at(text: &str, at: &str) -> (r: Option<LevelProgression>) {
        let ptr = member_ptr(at, "/currentProgress");
        let current_progress = match <i16 as JsonDecode>::decode_at(text, ptr.as_str()) {
            Some(x) => x,
            None => return None,
        };
        let ptr = member_ptr(at, "/dailyLimit");
        let daily_limit = match <i16 as JsonDecode>::decode_at(text, ptr.as_str()) {
            Some(x) => x,
            None => return None,
        };
        let ptr = member_ptr(at, "/dailyProgress");
        let daily_progress = match <i16 as JsonDecode>::decode_at(text, ptr.as_str()) {
            Some(x) => x,
            None => return None,
        };
        let ptr = member_ptr(at, "/level");
        let level = match <i16 as JsonDecode>::decode_at(text, ptr.as_str()) {
            Some(x) => x,
            None => return None,
        };
        let ptr = member_ptr(at, "/levelCap");
        let level_cap = match <i16 as JsonDecode>::decode_at(text, ptr.as_str()) {
            Some(x) => x,
            None => return None,
        };
        let ptr = member_ptr(at, "/nextLevelAt");
        let next_level_at = match <i16 as JsonDecode>::decode_at(text, ptr.as_str()) {
            Some(x) => x,
            None => return None,
        };
        let ptr = member_ptr(at, "/progressToNextLevel");
        let progress_to_next_level = match <i16 as JsonDecode>::decode_at(text, ptr.as_str()) {
            Some(x) => x,
            None => return None,
        };
        let ptr = member_ptr(at, "/progressionHash");
        let progression_hash = match <i64 as JsonDecode>::decode_at(text, ptr.as_str()) {
            Some(x) => x,
            None => return None,
        };
        let ptr = member_ptr(at, "/stepIndex");
        let step_index = match <i16 as JsonDecode>::decode_at(text, ptr.as_str()) {
            Some(x) => x,
            None => return None,
        };
        let ptr = member_ptr(at, "/weeklyLimit");
        let weekly_limit = match <i16 as JsonDecode>::decode_at(text, ptr.as_str()) {
            Some(x) => x,
            None => return None,
        };
        let ptr = member_ptr(at, "/weeklyProgress");
        let weekly_progress = match <i16 as JsonDecode>::decode_at(text, ptr.as_str()) {
            Some(x) => x,
            None => return None,
        };
        Some(
            LevelProgression {
                current_progress,
                daily_limit,
                daily_progress,
                level,
                level_cap,
                next_level_at,
                progress_to_next_level,
                progression_hash,
                step_index,
                weekly_limit,
                weekly_progress,
            },
        )
    }
}
/// A character's stats; the API keys them by hash.
#[derive(Clone, Debug)]
pub struct CharacterStats {
    pub intellect: i16,
    pub discipline: i16,
    pub power: i16,
    pub recovery: i16,
    pub mobility: i16,
    pub resilience: i16,
    pub strength: i16,
}

impl JsonDecode for CharacterStats {
    open spec fn decodable(text: Seq<char>, at: Seq<char>) -> bool {
        &&& <i16 as JsonDecode>::decodable(text, member(at, "/144602215"@))
        &&& <i16 as JsonDecode>::decodable(text, member(at, "/1735777505"@))
        &&& <i16 as JsonDecode>::decodable(text, member(at, "/1935470627"@))
        &&& <i16 as JsonDecode>::decodable(text, member(at, "/1943323491"@))
        &&& <i16 as JsonDecode>::decodable(text, member(at, "/2996146975"@))
        &&& <i16 as JsonDecode>::decodable(text, member(at, "/392767087"@))
        &&& <i16 as JsonDecode>::decodable(text, member(at, "/4244567218"@))
    }

    open spec fn decodes_to(text: Seq<char>, at: Seq<char>, v: CharacterStats) -> bool {
        &&& <i16 as JsonDecode>::decodes_to(text, member(at, "/144602215"@), v.intellect)
        &&& <i16 as JsonDecode>::decodes_to(text, member(at, "/1735777505"@), v.discipline)
        &&& <i16 as JsonDecode>::decodes_to(text, member(at, "/1935470627"@), v.power)
        &&& <i16 as JsonDecode>::decodes_to(text, member(at, "/1943323491"@), v.recovery)
        &&& <i16 as JsonDecode>::decodes_to(text, member(at, "/2996146975"@), v.mobility)
        &&& <i16 as JsonDecode>::decodes_to(text, member(at, "/392767087"@), v.resilience)
        &&& <i16 as JsonDecode>::decodes_to(text, member(at, "/4244567218"@), v.strength)
    }

    fn decode_at(text: &str, at: &str) -> (r: Option<CharacterStats>) {
        let ptr = member_ptr(at, "/144602215");
        let intellect = match <i16 as JsonDecode>::decode_at(text, ptr.as_str()) {
            Some(x) => x,
            None => return None,
        };
        let ptr = member_ptr(at, "/1735777505");
        let discipline = match <i16 as JsonDecode>::decode_at(text, ptr.as_str()) {
            Some(x) => x,
            None => return None,
        };
        let ptr = member_ptr(at, "/1935470627");
        let power = match <i16 as JsonDecode>::decode_at(text, ptr.as_str()) {
            Some(x) => x,
            None => return None,
        };
        let ptr = member_ptr(at, "/1943323491");
        let recovery = match <i16 as JsonDecode>::decode_at(text, ptr.as_str()) {
            Some(x) => x,
            None => return None,
        };
        let ptr = member_ptr(at, "/2996146975");
        let mobility = match <i16 as JsonDecode>::decode_at(text, ptr.as_str()) {
            Some(x) => x,
            None => return None,
        };
        let ptr = member_ptr(at, "/392767087");
        let resilience = match <i16 as JsonDecode>::decode_at(text, ptr.as_str()) {
            Some(x) => x,
            None => return None,
        };
        let ptr = member_ptr(at, "/4244567218");
        let strength = match <i16 as JsonDecode>::decode_at(text, ptr.as_str()) {
            Some(x) => x,
            None => return None,
        };
        Some(
            CharacterStats {
                intellect,
                discipline,
                power,
                recovery,
                mobility,
                resilience,
                strength,
            },
        )
    }
}
} // verus!
