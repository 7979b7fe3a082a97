use vstd::prelude::*;

use crate::error::JastorError;

verus! {

// Bit groups of the packed unit flag word, one mask per group.
pub const UNIT_AFFILIATION_MINE: u32 = 0x00000001;
pub const UNIT_AFFILIATION_PARTY: u32 = 0x00000002;
pub const UNIT_AFFILIATION_RAID: u32 = 0x00000004;
pub const UNIT_AFFILIATION_OUTSIDER: u32 = 0x00000008;
pub const UNIT_AFFILIATION_MASK: u32 = 0x0000000F;
pub const UNIT_REACTION_FRIENDLY: u32 = 0x00000010;
pub const UNIT_REACTION_NEUTRAL: u32 = 0x00000020;
pub const UNIT_REACTION_HOSTILE: u32 = 0x00000040;
pub const UNIT_REACTION_MASK: u32 = 0x000000F0;
pub const UNIT_CONTROL_PLAYER: u32 = 0x00000100;
pub const UNIT_CONTROL_NPC: u32 = 0x00000200;
pub const UNIT_CONTROL_MASK: u32 = 0x00000300;
pub const UNIT_TYPE_PLAYER: u32 = 0x00000400;
pub const UNIT_TYPE_NPC: u32 = 0x00000800;
pub const UNIT_TYPE_PET: u32 = 0x00001000;
pub const UNIT_TYPE_GUARDIAN: u32 = 0x00002000;
pub const UNIT_TYPE_OBJECT: u32 = 0x00004000;
pub const UNIT_TYPE_MASK: u32 = 0x0000FC00;
pub const UNIT_OBJECT_TARGET: u32 = 0x00010000;
pub const UNIT_OBJECT_FOCUS: u32 = 0x00020000;
pub const UNIT_OBJECT_MAINTANK: u32 = 0x00040000;
pub const UNIT_OBJECT_MAINASSIST: u32 = 0x00080000;
pub const UNIT_OBJECT_SPECIAL_MASK: u32 = 0xFFFF0000;
pub const RAID_TARGET_STAR: u32 = 0x00000001;
pub const RAID_TARGET_CIRCLE: u32 = 0x00000002;
pub const RAID_TARGET_DIAMOND: u32 = 0x00000004;
pub const RAID_TARGET_TRIANGLE: u32 = 0x00000008;
pub const RAID_TARGET_MOON: u32 = 0x00000010;
pub const RAID_TARGET_SQUARE: u32 = 0x00000020;
pub const RAID_TARGET_CROSS: u32 = 0x00000040;
pub const RAID_TARGET_SKULL: u32 = 0x00000080;
pub const RAID_TARGET_MASK: u32 = 0x000000FF;

/// How a unit relates to the recording player's group.
#[derive(Debug, Clone, Copy, PartialEq, Eq, Structural)]
pub enum UnitAffiliation {
    Mine,
    Party,
    Raid,
    Outsider,
}

/// Whether a unit is friendly, neutral or hostile.
#[derive(Debug, Clone, Copy, PartialEq, Eq, Structural)]
pub enum UnitReaction {
    Friendly,
    Neutral,
    Hostile,
}

/// Whether a player or the game controls the unit.
#[derive(Debug, Clone, Copy, PartialEq, Eq, Structural)]
pub enum UnitController {
    Player,
    Npc,
}

/// What kind of entity the unit is.
#[derive(Debug, Clone, Copy, PartialEq, Eq, Structural)]
pub enum UnitType {
    Player,
    Npc,
    Pet,
    Guardian,
    Object,
}

/// An optional special role overlay; absent bits mean none.
#[derive(Debug, Clone, Copy, PartialEq, Eq, Structural)]
pub enum UnitSpecial {
    Target,
    Focus,
    MainTank,
    MainAssist,
    NoRole,
}

/// The raid target icon on a unit, if any.
#[derive(Debug, Clone, Copy, PartialEq, Eq, Structural)]
pub enum RaidMarker {
    Star,
    Circle,
    Diamond,
    Triangle,
    Moon,
    Square,
    Cross,
    Skull,
    Unmarked,
}

/// The affiliation group of a packed flag word; `None` when the group's
/// bits match no known pattern, which the wire format does not allow.
pub open spec fn spec_affiliation(flag: u32) -> Option<UnitAffiliation> {
    let g = flag & UNIT_AFFILIATION_MASK;
    if g == UNIT_AFFILIATION_MINE {
        Some(UnitAffiliation::Mine)
    } else if g == UNIT_AFFILIATION_PARTY {
        Some(UnitAffiliation::Party)
    } else if g == UNIT_AFFILIATION_RAID {
        Some(UnitAffiliation::Raid)
    } else if g == UNIT_AFFILIATION_OUTSIDER {
        Some(UnitAffiliation::Outsider)
    } else {
        None
    }
}

/// The reaction group of a packed flag word; `None` when the group's
/// bits match no known pattern, which the wire format does not allow.
pub open spec fn spec_reaction(flag: u32) -> Option<UnitReaction> {
    let g = flag & UNIT_REACTION_MASK;
    if g == UNIT_REACTION_FRIENDLY {
        Some(UnitReaction::Friendly)
    } else if g == UNIT_REACTION_NEUTRAL {
        Some(UnitReaction::Neutral)
    } else if g == UNIT_REACTION_HOSTILE {
        Some(UnitReaction::Hostile)
    } else {
        None
    }
}

/// The controller group of a packed flag word; `None` when the group's
/// bits match no known pattern, which the wire format does not allow.
pub open spec fn spec_controller(flag: u32) -> Option<UnitController> {
    let g = flag & UNIT_CONTROL_MASK;
    if g == UNIT_CONTROL_PLAYER {
        Some(UnitController::Player)
    } else if g == UNIT_CONTROL_NPC {
        Some(UnitController::Npc)
    } else {
        None
    }
}

/// The unit_type group of a packed flag word; `None` when the group's
/// bits match no known pattern, which the wire format does not allow.
pub open spec fn spec_unit_type(flag: u32) -> Option<UnitType> {
    let g = flag & UNIT_TYPE_MASK;
    if g == UNIT_TYPE_PLAYER {
        Some(UnitType::Player)
    } else if g == UNIT_TYPE_NPC {
        Some(UnitType::Npc)
    } else if g == UNIT_TYPE_PET {
        Some(UnitType::Pet)
    } else if g == UNIT_TYPE_GUARDIAN {
        Some(UnitType::Guardian)
    } else if g == UNIT_TYPE_OBJECT {
        Some(UnitType::Object)
    } else {
        None
    }
}

/// The special-role group of a packed flag word; bits outside the known
/// patterns mean no special role.
pub open spec fn spec_special(flag: u32) -> UnitSpecial {
    let g = flag & UNIT_OBJECT_SPECIAL_MASK;
    if g == UNIT_OBJECT_TARGET {
        UnitSpecial::Target
    } else if g == UNIT_OBJECT_FOCUS {
        UnitSpecial::Focus
    } else if g == UNIT_OBJECT_MAINTANK {
        UnitSpecial::MainTank
    } else if g == UNIT_OBJECT_MAINASSIST {
        UnitSpecial::MainAssist
    } else {
        UnitSpecial::NoRole
    }
}

/// The fully decoded flag word of a unit, when every mandatory bit group
/// matches a known pattern.
pub open spec fn spec_unit_flag(flag: u32) -> Option<UnitFlag> {
    match (spec_affiliation(flag), spec_reaction(flag), spec_controller(flag), spec_unit_type(
        flag,
    )) {
        (Some(affiliation), Some(reaction), Some(controller), Some(unit_type)) => Some(
            UnitFlag {
                affiliation,
                reaction,
                controller,
                unit_type,
                special: spec_special(flag),
            },
        ),
        _ => None,
    }
}

/// The decoded bit groups of a unit's packed flag word.
#[derive(Debug, Clone, Copy, PartialEq, Eq, Structural)]
pub struct UnitFlag {
    pub affiliation: UnitAffiliation,
    pub reaction: UnitReaction,
    pub controller: UnitController,
    pub unit_type: UnitType,
    pub special: UnitSpecial,
}

impl UnitFlag {
    /// Decodes a packed flag word group by group.  The wire format
    /// guarantees that each mandatory group is valid; a word that breaks
    /// that guarantee is reported as an error, not a panic.
    pub fn parse(flag: u32) -> (r: Result<UnitFlag, JastorError>)
        ensures
            match r {
                Ok(f) => spec_unit_flag(flag) == Some(f),
                Err(e) => spec_unit_flag(flag) is None && (e matches JastorError::UnknownValue(
                    _,
                )),
            },
    {
        let g = flag & UNIT_AFFILIATION_MASK;
        let affiliation = if g == UNIT_AFFILIATION_MINE {
            UnitAffiliation::Mine
        } else if g == UNIT_AFFILIATION_PARTY {
            UnitAffiliation::Party
        } else if g == UNIT_AFFILIATION_RAID {
            UnitAffiliation::Raid
        } else if g == UNIT_AFFILIATION_OUTSIDER {
            UnitAffiliation::Outsider
        } else {
            return Err(JastorError::UnknownValue(String::from_str(
                "unit flag with no affiliation bits",
            )));
        };
        let g = flag & UNIT_REACTION_MASK;
        let reaction = if g == UNIT_REACTION_FRIENDLY {
            UnitReaction::Friendly
        } else if g == UNIT_REACTION_NEUTRAL {
            UnitReaction::Neutral
        } else if g == UNIT_REACTION_HOSTILE {
            UnitReaction::Hostile
        } else {
            return Err(JastorError::UnknownValue(String::from_str(
                "unit flag with no reaction bits",
            )));
        };
        let g = flag & UNIT_CONTROL_MASK;
        let controller = if g == UNIT_CONTROL_PLAYER {
            UnitController::Player
        } else if g == UNIT_CONTROL_NPC {
            UnitController::Npc
        } else {
            return Err(JastorError::UnknownValue(String::from_str(
                "unit flag with no controller bits",
            )));
        };
        let g = flag & UNIT_TYPE_MASK;
        let unit_type = if g == UNIT_TYPE_PLAYER {
            UnitType::Player
        } else if g == UNIT_TYPE_NPC {
            UnitType::Npc
        } else if g == UNIT_TYPE_PET {
            UnitType::Pet
        } else if g == UNIT_TYPE_GUARDIAN {
            UnitType::Guardian
        } else if g == UNIT_TYPE_OBJECT {
            UnitType::Object
        } else {
            return Err(JastorError::UnknownValue(String::from_str(
                "unit flag with no unit_type bits",
            )));
        };
        let g = flag & UNIT_OBJECT_SPECIAL_MASK;
        let special = if g == UNIT_OBJECT_TARGET {
            UnitSpecial::Target
        } else if g == UNIT_OBJECT_FOCUS {
            UnitSpecial::Focus
        } else if g == UNIT_OBJECT_MAINTANK {
            UnitSpecial::MainTank
        } else if g == UNIT_OBJECT_MAINASSIST {
            UnitSpecial::MainAssist
        } else {
            UnitSpecial::NoRole
        };
        Ok(UnitFlag { affiliation, reaction, controller, unit_type, special })
    }
}

/// The raid marker encoded in a flag word; bits matching no single marker
/// mean none.
pub open spec fn spec_raid_marker_flag(flag: u32) -> RaidMarker {
    let g = flag & RAID_TARGET_MASK;
    if g == RAID_TARGET_STAR {
        RaidMarker::Star
    } else if g == RAID_TARGET_CIRCLE {
        RaidMarker::Circle
    } else if g == RAID_TARGET_DIAMOND {
        RaidMarker::Diamond
    } else if g == RAID_TARGET_TRIANGLE {
        RaidMarker::Triangle
    } else if g == RAID_TARGET_MOON {
        RaidMarker::Moon
    } else if g == RAID_TARGET_SQUARE {
        RaidMarker::Square
    } else if g == RAID_TARGET_CROSS {
        RaidMarker::Cross
    } else if g == RAID_TARGET_SKULL {
        RaidMarker::Skull
    } else {
        RaidMarker::Unmarked
    }
}

/// The raid marker a small wire id names; ids outside one through eight
/// mean none.
pub open spec fn spec_raid_marker_id(value: u8) -> RaidMarker {
    if value == 1 {
        RaidMarker::Star
    } else if value == 2 {
        RaidMarker::Circle
    } else if value == 3 {
        RaidMarker::Diamond
    } else if value == 4 {
        RaidMarker::Triangle
    } else if value == 5 {
        RaidMarker::Moon
    } else if value == 6 {
        RaidMarker::Square
    } else if value == 7 {
        RaidMarker::Cross
    } else if value == 8 {
        RaidMarker::Skull
    } else {
        RaidMarker::Unmarked
    }
}

impl RaidMarker {
    /// Decodes the raid marker bits of a packed flag word.
    pub fn parse_flag(flag: u32) -> (r: RaidMarker)
        ensures
            r == spec_raid_marker_flag(flag),
    {
        let g = flag & RAID_TARGET_MASK;
        if g == RAID_TARGET_STAR {
            RaidMarker::Star
        } else if g == RAID_TARGET_CIRCLE {
            RaidMarker::Circle
        } else if g == RAID_TARGET_DIAMOND {
            RaidMarker::Diamond
        } else if g == RAID_TARGET_TRIANGLE {
            RaidMarker::Triangle
        } else if g == RAID_TARGET_MOON {
            RaidMarker::Moon
        } else if g == RAID_TARGET_SQUARE {
            RaidMarker::Square
        } else if g == RAID_TARGET_CROSS {
            RaidMarker::Cross
        } else if g == RAID_TARGET_SKULL {
            RaidMarker::Skull
        } else {
            RaidMarker::Unmarked
        }
    }

    /// Decodes a raid marker from its small wire id.
    pub fn from_u8(value: u8) -> (r: RaidMarker)
        ensures
            r == spec_raid_marker_id(value),
    {
        match value {
            1 => RaidMarker::Star,
            2 => RaidMarker::Circle,
            3 => RaidMarker::Diamond,
            4 => RaidMarker::Triangle,
            5 => RaidMarker::Moon,
            6 => RaidMarker::Square,
            7 => RaidMarker::Cross,
            8 => RaidMarker::Skull,
            _ => RaidMarker::Unmarked,
        }
    }
}

/// An instance difficulty, decoded from its wire id.  An id outside the
/// known set is kept in the fallback arm rather than discarded, so that
/// re-encoding always restores the original id.
#[derive(Debug, Clone, Copy, PartialEq, Eq, Structural)]
pub enum Difficulty {
    NormalParty,
    HeroicParty,
    NormalRaid10,
    NormalRaid25,
    HeroicRaid10,
    HeroicRaid25,
    LegacyLFR,
    MythicKeystone,
    LegacyRaid40,
    HeroicScenario,
    NormalScenario,
    NormalRaid,
    HeroicRaid,
    MythicRaid,
    LFR,
    EventRaid,
    EventParty,
    EventScenario,
    MythicParty,
    TimewalkingParty,
    WorldPvpScenario,
    PvevpScenario,
    EventScenario2,
    WorldPvpScenario2,
    TimewalkingRaid,
    Pvp,
    NormalScenario2,
    HeroicScenario2,
    MythicScenario,
    PvpScenario,
    NormalWarfront,
    HeroicWarfront,
    NormalParty2,
    TimewalkingLFR,
    NZothVision,
    TeemingIsland,
    Torghast,
    PathOfAscensionCourage,
    PathOfAscensionLoyalty,
    PathOfAscensionWisdom,
    PathOfAscensionHumility,
    WorldBoss,
    ChallengeLevel1,
    FollowerParty,
    Delve,
    Quest,
    StoryRaid,
    HeroicNone,
    Unknown(u16),
}

impl Difficulty {
    /// The difficulty a wire id names.
    pub open spec fn spec_from_u16(value: u16) -> Difficulty {
        if value == 1 {
            Difficulty::NormalParty
        } else if value == 2 {
            Difficulty::HeroicParty
        } else if value == 3 {
            Difficulty::NormalRaid10
        } else if value == 4 {
            Difficulty::NormalRaid25
        } else if value == 5 {
            Difficulty::HeroicRaid10
        } else if value == 6 {
            Difficulty::HeroicRaid25
        } else if value == 7 {
            Difficulty::LegacyLFR
        } else if value == 8 {
            Difficulty::MythicKeystone
        } else if value == 9 {
            Difficulty::LegacyRaid40
        } else if value == 11 {
            Difficulty::HeroicScenario
        } else if value == 12 {
            Difficulty::NormalScenario
        } else if value == 14 {
            Difficulty::NormalRaid
        } else if value == 15 {
            Difficulty::HeroicRaid
        } else if value == 16 {
            Difficulty::MythicRaid
        } else if value == 17 {
            Difficulty::LFR
        } else if value == 18 {
            Difficulty::EventRaid
        } else if value == 19 {
            Difficulty::EventParty
        } else if value == 20 {
            Difficulty::EventScenario
        } else if value == 23 {
            Difficulty::MythicParty
        } else if value == 24 {
            Difficulty::TimewalkingParty
        } else if value == 25 {
            Difficulty::WorldPvpScenario
        } else if value == 29 {
            Difficulty::PvevpScenario
        } else if value == 30 {
            Difficulty::EventScenario2
        } else if value == 32 {
            Difficulty::WorldPvpScenario2
        } else if value == 33 {
            Difficulty::TimewalkingRaid
        } else if value == 34 {
            Difficulty::Pvp
        } else if value == 38 {
            Difficulty::NormalScenario2
        } else if value == 39 {
            Difficulty::HeroicScenario2
        } else if value == 40 {
            Difficulty::MythicScenario
        } else if value == 45 {
            Difficulty::PvpScenario
        } else if value == 147 {
            Difficulty::NormalWarfront
        } else if value == 149 {
            Difficulty::HeroicWarfront
        } else if value == 150 {
            Difficulty::NormalParty2
        } else if value == 151 {
            Difficulty::TimewalkingLFR
        } else if value == 152 {
            Difficulty::NZothVision
        } else if value == 153 {
            Difficulty::TeemingIsland
        } else if value == 167 {
            Difficulty::Torghast
        } else if value == 168 {
            Difficulty::PathOfAscensionCourage
        } else if value == 169 {
            Difficulty::PathOfAscensionLoyalty
        } else if value == 170 {
            Difficulty::PathOfAscensionWisdom
        } else if value == 171 {
            Difficulty::PathOfAscensionHumility
        } else if value == 172 {
            Difficulty::WorldBoss
        } else if value == 192 {
            Difficulty::ChallengeLevel1
        } else if value == 205 {
            Difficulty::FollowerParty
        } else if value == 208 {
            Difficulty::Delve
        } else if value == 216 {
            Difficulty::Quest
        } else if value == 220 {
            Difficulty::StoryRaid
        } else if value == 230 {
            Difficulty::HeroicNone
        } else {
            Difficulty::Unknown(value)
        }
    }

    pub fn from_u16(value: u16) -> (r: Difficulty)
        ensures
            r == Difficulty::spec_from_u16(value),
    {
        match value {
            1 => Difficulty::NormalParty,
            2 => Difficulty::HeroicParty,
            3 => Difficulty::NormalRaid10,
            4 => Difficulty::NormalRaid25,
            5 => Difficulty::HeroicRaid10,
            6 => Difficulty::HeroicRaid25,
            7 => Difficulty::LegacyLFR,
            8 => Difficulty::MythicKeystone,
            9 => Difficulty::LegacyRaid40,
            11 => Difficulty::HeroicScenario,
            12 => Difficulty::NormalScenario,
            14 => Difficulty::NormalRaid,
            15 => Difficulty::HeroicRaid,
            16 => Difficulty::MythicRaid,
            17 => Difficulty::LFR,
            18 => Difficulty::EventRaid,
            19 => Difficulty::EventParty,
            20 => Difficulty::EventScenario,
            23 => Difficulty::MythicParty,
            24 => Difficulty::TimewalkingParty,
            25 => Difficulty::WorldPvpScenario,
            29 => Difficulty::PvevpScenario,
            30 => Difficulty::EventScenario2,
            32 => Difficulty::WorldPvpScenario2,
            33 => Difficulty::TimewalkingRaid,
            34 => Difficulty::Pvp,
            38 => Difficulty::NormalScenario2,
            39 => Difficulty::HeroicScenario2,
            40 => Difficulty::MythicScenario,
            45 => Difficulty::PvpScenario,
            147 => Difficulty::NormalWarfront,
            149 => Difficulty::HeroicWarfront,
            150 => Difficulty::NormalParty2,
            151 => Difficulty::TimewalkingLFR,
            152 => Difficulty::NZothVision,
            153 => Difficulty::TeemingIsland,
            167 => Difficulty::Torghast,
            168 => Difficulty::PathOfAscensionCourage,
            169 => Difficulty::PathOfAscensionLoyalty,
            170 => Difficulty::PathOfAscensionWisdom,
            171 => Difficulty::PathOfAscensionHumility,
            172 => Difficulty::WorldBoss,
            192 => Difficulty::ChallengeLevel1,
            205 => Difficulty::FollowerParty,
            208 => Difficulty::Delve,
            216 => Difficulty::Quest,
            220 => Difficulty::StoryRaid,
            230 => Difficulty::HeroicNone,
            _ => Difficulty::Unknown(value),
        }
    }

    /// The wire id of this difficulty.
    pub open spec fn spec_as_u16(self) -> u16 {
        match self {
            Difficulty::NormalParty => 1,
            Difficulty::HeroicParty => 2,
            Difficulty::NormalRaid10 => 3,
            Difficulty::NormalRaid25 => 4,
            Difficulty::HeroicRaid10 => 5,
            Difficulty::HeroicRaid25 => 6,
            Difficulty::LegacyLFR => 7,
            Difficulty::MythicKeystone => 8,
            Difficulty::LegacyRaid40 => 9,
            Difficulty::HeroicScenario => 11,
            Difficulty::NormalScenario => 12,
            Difficulty::NormalRaid => 14,
            Difficulty::HeroicRaid => 15,
            Difficulty::MythicRaid => 16,
            Difficulty::LFR => 17,
            Difficulty::EventRaid => 18,
            Difficulty::EventParty => 19,
            Difficulty::EventScenario => 20,
            Difficulty::MythicParty => 23,
            Difficulty::TimewalkingParty => 24,
            Difficulty::WorldPvpScenario => 25,
            Difficulty::PvevpScenario => 29,
            Difficulty::EventScenario2 => 30,
            Difficulty::WorldPvpScenario2 => 32,
            Difficulty::TimewalkingRaid => 33,
            Difficulty::Pvp => 34,
            Difficulty::NormalScenario2 => 38,
            Difficulty::HeroicScenario2 => 39,
            Difficulty::MythicScenario => 40,
            Difficulty::PvpScenario => 45,
            Difficulty::NormalWarfront => 147,
            Difficulty::HeroicWarfront => 149,
            Difficulty::NormalParty2 => 150,
            Difficulty::TimewalkingLFR => 151,
            Difficulty::NZothVision => 152,
            Difficulty::TeemingIsland => 153,
            Difficulty::Torghast => 167,
            Difficulty::PathOfAscensionCourage => 168,
            Difficulty::PathOfAscensionLoyalty => 169,
            Difficulty::PathOfAscensionWisdom => 170,
            Difficulty::PathOfAscensionHumility => 171,
            Difficulty::WorldBoss => 172,
            Difficulty::ChallengeLevel1 => 192,
            Difficulty::FollowerParty => 205,
            Difficulty::Delve => 208,
            Difficulty::Quest => 216,
            Difficulty::StoryRaid => 220,
            Difficulty::HeroicNone => 230,
            Difficulty::Unknown(value) => value,
        }
    }

    pub fn as_u16(&self) -> (r: u16)
        ensures
            r == self.spec_as_u16(),
    {
        match self {
            Difficulty::NormalParty => 1,
            Difficulty::HeroicParty => 2,
            Difficulty::NormalRaid10 => 3,
            Difficulty::NormalRaid25 => 4,
            Difficulty::HeroicRaid10 => 5,
            Difficulty::HeroicRaid25 => 6,
            Difficulty::LegacyLFR => 7,
            Difficulty::MythicKeystone => 8,
            Difficulty::LegacyRaid40 => 9,
            Difficulty::HeroicScenario => 11,
            Difficulty::NormalScenario => 12,
            Difficulty::NormalRaid => 14,
            Difficulty::HeroicRaid => 15,
            Difficulty::MythicRaid => 16,
            Difficulty::LFR => 17,
            Difficulty::EventRaid => 18,
            Difficulty::EventParty => 19,
            Difficulty::EventScenario => 20,
            Difficulty::MythicParty => 23,
            Difficulty::TimewalkingParty => 24,
            Difficulty::WorldPvpScenario => 25,
            Difficulty::PvevpScenario => 29,
            Difficulty::EventScenario2 => 30,
            Difficulty::WorldPvpScenario2 => 32,
            Difficulty::TimewalkingRaid => 33,
            Difficulty::Pvp => 34,
            Difficulty::NormalScenario2 => 38,
            Difficulty::HeroicScenario2 => 39,
            Difficulty::MythicScenario => 40,
            Difficulty::PvpScenario => 45,
            Difficulty::NormalWarfront => 147,
            Difficulty::HeroicWarfront => 149,
            Difficulty::NormalParty2 => 150,
            Difficulty::TimewalkingLFR => 151,
            Difficulty::NZothVision => 152,
            Difficulty::TeemingIsland => 153,
            Difficulty::Torghast => 167,
            Difficulty::PathOfAscensionCourage => 168,
            Difficulty::PathOfAscensionLoyalty => 169,
            Difficulty::PathOfAscensionWisdom => 170,
            Difficulty::PathOfAscensionHumility => 171,
            Difficulty::WorldBoss => 172,
            Difficulty::ChallengeLevel1 => 192,
            Difficulty::FollowerParty => 205,
            Difficulty::Delve => 208,
            Difficulty::Quest => 216,
            Difficulty::StoryRaid => 220,
            Difficulty::HeroicNone => 230,
            Difficulty::Unknown(value) => *value,
        }
    }

    /// The human-readable name of this difficulty.  The fallback arm's
    /// label carries the unrecognized id, rendered in decimal.
    pub open spec fn spec_label(self) -> Seq<char> {
        match self {
            Difficulty::NormalParty => "Normal (5)"@,
            Difficulty::HeroicParty => "Heroic (5)"@,
            Difficulty::NormalRaid10 => "Normal Raid (10)"@,
            Difficulty::NormalRaid25 => "Normal Raid (25)"@,
            Difficulty::HeroicRaid10 => "Heroic Raid (10)"@,
            Difficulty::HeroicRaid25 => "Heroic Raid (25)"@,
            Difficulty::LegacyLFR => "Legacy Looking For Raid"@,
            Difficulty::MythicKeystone => "Mythic Keystone"@,
            Difficulty::LegacyRaid40 => "Legacy Raid (40)"@,
            Difficulty::HeroicScenario => "Heroic Scenario"@,
            Difficulty::NormalScenario => "Normal Scenario"@,
            Difficulty::NormalRaid => "Normal Raid"@,
            Difficulty::HeroicRaid => "Heroic Raid"@,
            Difficulty::MythicRaid => "Mythic Raid"@,
            Difficulty::LFR => "Looking For Raid"@,
            Difficulty::EventRaid => "Event (Raid)"@,
            Difficulty::EventParty => "Event (5)"@,
            Difficulty::EventScenario => "Event (Scenario)"@,
            Difficulty::MythicParty => "Mythic (5)"@,
            Difficulty::TimewalkingParty => "Timewalking (5)"@,
            Difficulty::WorldPvpScenario => "World PvP (Scenario)"@,
            Difficulty::PvevpScenario => "PvEvP (Scenario)"@,
            Difficulty::EventScenario2 => "Event (Scenario)"@,
            Difficulty::WorldPvpScenario2 => "World PvP (Scenario)"@,
            Difficulty::TimewalkingRaid => "Timewalking (Raid)"@,
            Difficulty::Pvp => "PvP"@,
            Difficulty::NormalScenario2 => "Normal(Scenario)"@,
            Difficulty::HeroicScenario2 => "Heroic (Scenario)"@,
            Difficulty::MythicScenario => "Mythic (Scenario)"@,
            Difficulty::PvpScenario => "PvP (Scenario)"@,
            Difficulty::NormalWarfront => "Normal Warfront"@,
            Difficulty::HeroicWarfront => "Heroic Warfront"@,
            Difficulty::NormalParty2 => "Normal (5)"@,
            Difficulty::TimewalkingLFR => "Timewalking (Looking For Raid)"@,
            Difficulty::NZothVision => "Vision of N'Zoth"@,
            Difficulty::TeemingIsland => "Island (Teeming)"@,
            Difficulty::Torghast => "Torghast"@,
            Difficulty::PathOfAscensionCourage => "Path of Ascension: Courage"@,
            Difficulty::PathOfAscensionLoyalty => "Path of Ascension: Loyalty"@,
            Difficulty::PathOfAscensionWisdom => "Path of Ascension: Wisdom"@,
            Difficulty::PathOfAscensionHumility => "Path of Ascension: Humility"@,
            Difficulty::WorldBoss => "World Boss"@,
            Difficulty::ChallengeLevel1 => "Challenge Level 1"@,
            Difficulty::FollowerParty => "Follower (5)"@,
            Difficulty::Delve => "Delve"@,
            Difficulty::Quest => "Quest"@,
            Difficulty::StoryRaid => "Raid (Story Mode)"@,
            Difficulty::HeroicNone => "Heroic (?)"@,
            Difficulty::Unknown(value) => "unknown difficulty id: "@
                + crate::util::param_handler::spec_u64_dec(value as nat),
        }
    }

    pub fn label(&self) -> (r: String)
        ensures
            r@ == self.spec_label(),
    {
        match self {
            Difficulty::NormalParty => String::from_str("Normal (5)"),
            Difficulty::HeroicParty => String::from_str("Heroic (5)"),
            Difficulty::NormalRaid10 => String::from_str("Normal Raid (10)"),
            Difficulty::NormalRaid25 => String::from_str("Normal Raid (25)"),
            Difficulty::HeroicRaid10 => String::from_str("Heroic Raid (10)"),
            Difficulty::HeroicRaid25 => String::from_str("Heroic Raid (25)"),
            Difficulty::LegacyLFR => String::from_str("Legacy Looking For Raid"),
            Difficulty::MythicKeystone => String::from_str("Mythic Keystone"),
            Difficulty::LegacyRaid40 => String::from_str("Legacy Raid (40)"),
            Difficulty::HeroicScenario => String::from_str("Heroic Scenario"),
            Difficulty::NormalScenario => String::from_str("Normal Scenario"),
            Difficulty::NormalRaid => String::from_str("Normal Raid"),
            Difficulty::HeroicRaid => String::from_str("Heroic Raid"),
            Difficulty::MythicRaid => String::from_str("Mythic Raid"),
            Difficulty::LFR => String::from_str("Looking For Raid"),
            Difficulty::EventRaid => String::from_str("Event (Raid)"),
            Difficulty::EventParty => String::from_str("Event (5)"),
            Difficulty::EventScenario => String::from_str("Event (Scenario)"),
            Difficulty::MythicParty => String::from_str("Mythic (5)"),
            Difficulty::TimewalkingParty => String::from_str("Timewalking (5)"),
            Difficulty::WorldPvpScenario => String::from_str("World PvP (Scenario)"),
            Difficulty::PvevpScenario => String::from_str("PvEvP (Scenario)"),
            Difficulty::EventScenario2 => String::from_str("Event (Scenario)"),
            Difficulty::WorldPvpScenario2 => String::from_str("World PvP (Scenario)"),
            Difficulty::TimewalkingRaid => String::from_str("Timewalking (Raid)"),
            Difficulty::Pvp => String::from_str("PvP"),
            Difficulty::NormalScenario2 => String::from_str("Normal(Scenario)"),
            Difficulty::HeroicScenario2 => String::from_str("Heroic (Scenario)"),
            Difficulty::MythicScenario => String::from_str("Mythic (Scenario)"),
            Difficulty::PvpScenario => String::from_str("PvP (Scenario)"),
            Difficulty::NormalWarfront => String::from_str("Normal Warfront"),
            Difficulty::HeroicWarfront => String::from_str("Heroic Warfront"),
            Difficulty::NormalParty2 => String::from_str("Normal (5)"),
            Difficulty::TimewalkingLFR => String::from_str("Timewalking (Looking For Raid)"),
            Difficulty::NZothVision => String::from_str("Vision of N'Zoth"),
            Difficulty::TeemingIsland => String::from_str("Island (Teeming)"),
            Difficulty::Torghast => String::from_str("Torghast"),
            Difficulty::PathOfAscensionCourage => String::from_str("Path of Ascension: Courage"),
            Difficulty::PathOfAscensionLoyalty => String::from_str("Path of Ascension: Loyalty"),
            Difficulty::PathOfAscensionWisdom => String::from_str("Path of Ascension: Wisdom"),
            Difficulty::PathOfAscensionHumility => String::from_str("Path of Ascension: Humility"),
            Difficulty::WorldBoss => String::from_str("World Boss"),
            Difficulty::ChallengeLevel1 => String::from_str("Challenge Level 1"),
            Difficulty::FollowerParty => String::from_str("Follower (5)"),
            Difficulty::Delve => String::from_str("Delve"),
            Difficulty::Quest => String::from_str("Quest"),
            Difficulty::StoryRaid => String::from_str("Raid (Story Mode)"),
            Difficulty::HeroicNone => String::from_str("Heroic (?)"),
            Difficulty::Unknown(value) => {
                let mut m = String::from_str("unknown difficulty id: ");
                m.append(crate::util::param_handler::u64_to_dec(*value as u64).as_str());
                m
            },
        }
    }
}

/// Law: decoding a difficulty id and then re-encoding the result yields
/// the original id, for known and unknown ids alike.
pub proof fn lemma_difficulty_round_trip(v: u16)
    ensures
        Difficulty::spec_from_u16(v).spec_as_u16() == v,
{
}

} // verus!
