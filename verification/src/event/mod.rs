pub mod flags;
pub mod parser;
pub mod raw;
pub mod types;

use vstd::prelude::*;

use crate::error::JastorError;
use crate::event::flags::{Difficulty, RaidMarker, UnitFlag, spec_raid_marker_flag, spec_unit_flag};
use crate::event::raw::{Affix, AuraType, MissType, PowerType, SpellSchool};
use crate::util::param_handler::{
    ParameterHandler, SliceHander, spec_fractional, spec_strip_quotes, spec_token_multi_in,
    spec_token_nat_in, views_of,
};

verus! {

// ---------------------------------------------------------------------------
// Units
// ---------------------------------------------------------------------------

/// One side of a combat event: a globally unique id, a display name, and the
/// decoded flag word and raid marker.
#[derive(Debug, Clone)]
pub struct Unit {
    pub guid: String,
    pub name: String,
    pub flags: UnitFlag,
    pub raid_flags: RaidMarker,
}

/// Whether the four identity fields at the front of window `w` decode.
pub open spec fn spec_unit_ok(w: Seq<Seq<char>>) -> bool {
    &&& w.len() >= 4
    &&& match spec_token_nat_in(w[2], u32::MAX as nat) {
        Some(f) => spec_unit_flag(f as u32) is Some,
        None => false,
    }
    &&& spec_token_nat_in(w[3], u32::MAX as nat) is Some
}

/// Whether the four identity fields at the front of window `w` decode to
/// exactly `u`.
pub open spec fn spec_unit_matches(w: Seq<Seq<char>>, u: Unit) -> bool {
    &&& u.guid@ == spec_strip_quotes(w[0])
    &&& u.name@ == spec_strip_quotes(w[1])
    &&& match spec_token_nat_in(w[2], u32::MAX as nat) {
        Some(f) => spec_unit_flag(f as u32) == Some(u.flags),
        None => false,
    }
    &&& match spec_token_nat_in(w[3], u32::MAX as nat) {
        Some(f) => u.raid_flags == spec_raid_marker_flag(f as u32),
        None => false,
    }
}

impl Unit {
    /// Decodes the four identity fields at the front of `params`: id, name,
    /// flag word, raid marker word.
    pub fn parse(params: &[String]) -> (r: Result<Unit, JastorError>)
        ensures
            r is Ok <==> spec_unit_ok(views_of(params@)),
            r matches Ok(u) ==> spec_unit_matches(views_of(params@), u),
    {
        let handler = SliceHander::new(params);
        let guid = handler.as_string(0)?;
        let name = handler.as_string(1)?;
        let flags = UnitFlag::parse(handler.as_u32(2)?)?;
        let raid_flags = RaidMarker::parse_flag(handler.as_u32(3)?);
        Ok(Unit { guid, name, flags, raid_flags })
    }
}

// ---------------------------------------------------------------------------
// Spells
// ---------------------------------------------------------------------------

/// A spell reference: numeric id, display name, decoded school.
#[derive(Debug, Clone)]
pub struct SpellInfo {
    pub id: usize,
    pub name: String,
    pub school: SpellSchool,
}

/// Whether the three fields at the front of window `w` decode as a spell.
pub open spec fn spec_spell_info_ok(w: Seq<Seq<char>>) -> bool {
    &&& w.len() >= 3
    &&& spec_token_nat_in(w[0], usize::MAX as nat) is Some
    &&& spec_token_nat_in(w[2], u8::MAX as nat) is Some
}

/// Whether the three fields at the front of window `w` decode to exactly `s`.
pub open spec fn spec_spell_info_matches(w: Seq<Seq<char>>, s: SpellInfo) -> bool {
    &&& Some(s.id as nat) == spec_token_nat_in(w[0], usize::MAX as nat)
    &&& s.name@ == spec_strip_quotes(w[1])
    &&& match spec_token_nat_in(w[2], u8::MAX as nat) {
        Some(v) => s.school == SpellSchool::spec_from_u8(v as u8),
        None => false,
    }
}

impl SpellInfo {
    /// Decodes the three fields at the front of `input`: spell id, spell
    /// name, spell school id.
    pub fn parse(input: &[String]) -> (r: Result<SpellInfo, JastorError>)
        ensures
            r is Ok <==> spec_spell_info_ok(views_of(input@)),
            r matches Ok(s) ==> spec_spell_info_matches(views_of(input@), s),
    {
        let handler = SliceHander::new(input);
        let id = handler.as_usize(0)?;
        let name = handler.as_string(1)?;
        let school = SpellSchool::from_u8(handler.as_u8(2)?);
        Ok(SpellInfo { id, name, school })
    }
}

// ---------------------------------------------------------------------------
// The advanced block
// ---------------------------------------------------------------------------

/// The fixed nineteen-field unit-state snapshot that spell-style events
/// carry: identity, hit points, the power-resource triple, world position and
/// level.  World position and facing are fractional on the wire; their shape
/// is checked and their text kept.
#[derive(Debug, Clone)]
pub struct AdvancedParameters {
    pub guid: String,
    pub owner: String,
    pub current_hp: usize,
    pub max_hp: usize,
    pub current_power: usize,
    pub max_power: usize,
    pub power_cost: usize,
    pub x: String,
    pub y: String,
    pub map_id: usize,
    pub direction: String,
    pub level: usize,
}

/// Whether the fields of an advanced window `w` decode.
pub open spec fn spec_advanced_ok(w: Seq<Seq<char>>) -> bool {
    &&& w.len() >= 19
    &&& spec_token_nat_in(w[2], usize::MAX as nat) is Some
    &&& spec_token_nat_in(w[3], usize::MAX as nat) is Some
    &&& spec_token_multi_in(w[11], usize::MAX as nat) is Some
    &&& spec_token_multi_in(w[12], usize::MAX as nat) is Some
    &&& spec_token_multi_in(w[13], usize::MAX as nat) is Some
    &&& spec_fractional(w[14])
    &&& spec_fractional(w[15])
    &&& spec_token_nat_in(w[16], usize::MAX as nat) is Some
    &&& spec_fractional(w[17])
    &&& spec_token_nat_in(w[18], usize::MAX as nat) is Some
}

/// Whether the fields of an advanced window `w` decode to exactly `a`.  Each
/// of the three power figures carries the value part of its own
/// power-resource field.
pub open spec fn spec_advanced_matches(w: Seq<Seq<char>>, a: AdvancedParameters) -> bool {
    &&& a.guid@ == spec_strip_quotes(w[0])
    &&& a.owner@ == spec_strip_quotes(w[1])
    &&& Some(a.current_hp as nat) == spec_token_nat_in(w[2], usize::MAX as nat)
    &&& Some(a.max_hp as nat) == spec_token_nat_in(w[3], usize::MAX as nat)
    &&& match spec_token_multi_in(w[11], usize::MAX as nat) {
        Some(p) => a.current_power == p.1,
        None => false,
    }
    &&& match spec_token_multi_in(w[12], usize::MAX as nat) {
        Some(p) => a.max_power == p.1,
        None => false,
    }
    &&& match spec_token_multi_in(w[13], usize::MAX as nat) {
        Some(p) => a.power_cost == p.1,
        None => false,
    }
    &&& a.x@ == w[14]
    &&& a.y@ == w[15]
    &&& Some(a.map_id as nat) == spec_token_nat_in(w[16], usize::MAX as nat)
    &&& a.direction@ == w[17]
    &&& Some(a.level as nat) == spec_token_nat_in(w[18], usize::MAX as nat)
}

impl AdvancedParameters {
    /// Decodes an advanced window when one is present; `None` passes through.
    pub fn parse(params: Option<&[String]>) -> (r: Result<
        Option<AdvancedParameters>,
        JastorError,
    >)
        ensures
            match params {
                None => r matches Ok(o) && o is None,
                Some(p) => {
                    &&& (r is Ok <==> spec_advanced_ok(views_of(p@)))
                    &&& (r matches Ok(o) ==> o matches Some(a) && spec_advanced_matches(
                        views_of(p@),
                        a,
                    ))
                },
            },
    {
        let params = match params {
            Some(p) => p,
            None => {
                return Ok(None);
            },
        };
        let handler = SliceHander::new(params);
        let (_, current_power) = handler.as_multi_value_number(11)?;
        let (_, max_power) = handler.as_multi_value_number(12)?;
        let (_, power_cost) = handler.as_multi_value_number(13)?;
        Ok(
            Some(
                AdvancedParameters {
                    guid: handler.as_string(0)?,
                    owner: handler.as_string(1)?,
                    current_hp: handler.as_usize(2)?,
                    max_hp: handler.as_usize(3)?,
                    current_power,
                    max_power,
                    power_cost,
                    x: handler.as_fractional(14)?,
                    y: handler.as_fractional(15)?,
                    map_id: handler.as_usize(16)?,
                    direction: handler.as_fractional(17)?,
                    level: handler.as_usize(18)?,
                },
            ),
        )
    }
}

// ---------------------------------------------------------------------------
// Events
// ---------------------------------------------------------------------------

/// One decoded log line.  Combat-category variants carry the optional
/// source/target units, the optional spell prefix, the optional advanced
/// block and their tag-specific payload; short-form variants carry only
/// their own fields.  Fractional wire fields are kept as raw text.
#[derive(Debug)]
pub enum Event {
    Damage {
        source: Option<Unit>,
        target: Option<Unit>,
        advanced: Option<AdvancedParameters>,
        spell_info: Option<SpellInfo>,
        amount: isize,
        base_amount: isize,
        overkill: isize,
        school: SpellSchool,
        resisted: isize,
        blocked: isize,
        absorbed: isize,
        critical: bool,
        glancing: bool,
        is_offhand: bool,
        damage_type: Option<String>,
        support_guid: Option<String>,
    },
    Miss {
        source: Option<Unit>,
        target: Option<Unit>,
        spell_info: Option<SpellInfo>,
        advanced: Option<AdvancedParameters>,
        miss_type: MissType,
        is_offhand: bool,
        amount: isize,
        total_amount: isize,
        critical: bool,
    },
    Heal {
        source: Option<Unit>,
        target: Option<Unit>,
        spell_info: Option<SpellInfo>,
        advanced: Option<AdvancedParameters>,
        amount: isize,
        base_amount: isize,
        overhealing: isize,
        absorbed: isize,
        critical: bool,
        support_guid: Option<String>,
    },
    Absorb {
        source: Option<Unit>,
        target: Option<Unit>,
        spell_info: Option<SpellInfo>,
        advanced: Option<AdvancedParameters>,
        caster: Option<Unit>,
        absorbed_spell: Option<SpellInfo>,
        amount: isize,
        total_amount: isize,
        critical: bool,
    },
    HealAbsorb {
        source: Option<Unit>,
        target: Option<Unit>,
        spell_info: Option<SpellInfo>,
        advanced: Option<AdvancedParameters>,
        extra_unit: Option<Unit>,
        extra_spell_info: Option<SpellInfo>,
        absorbed_amount: isize,
        total_amount: isize,
    },
    ExtraAttacks {
        source: Option<Unit>,
        target: Option<Unit>,
        spell_info: Option<SpellInfo>,
        advanced: Option<AdvancedParameters>,
        amount: isize,
    },
    Energize {
        source: Option<Unit>,
        target: Option<Unit>,
        spell_info: Option<SpellInfo>,
        advanced: Option<AdvancedParameters>,
        amount: String,
        over_energize: String,
        power_type: PowerType,
        max_power: usize,
    },
    Drain {
        source: Option<Unit>,
        target: Option<Unit>,
        spell_info: Option<SpellInfo>,
        advanced: Option<AdvancedParameters>,
        amount: isize,
        power_type: PowerType,
        extra_amount: isize,
        max_power: usize,
    },
    Leech {
        source: Option<Unit>,
        target: Option<Unit>,
        spell_info: Option<SpellInfo>,
        advanced: Option<AdvancedParameters>,
        amount: isize,
        power_type: PowerType,
        extra_amount: isize,
    },
    Dispel {
        source: Option<Unit>,
        target: Option<Unit>,
        spell_info: Option<SpellInfo>,
        advanced: Option<AdvancedParameters>,
        extra_spell: Option<SpellInfo>,
        aura_type: Option<AuraType>,
        failed: bool,
    },
    Stolen {
        source: Option<Unit>,
        target: Option<Unit>,
        spell_info: Option<SpellInfo>,
        advanced: Option<AdvancedParameters>,
        extra_spell: Option<SpellInfo>,
        aura_type: AuraType,
    },
    Aura {
        source: Option<Unit>,
        target: Option<Unit>,
        spell_info: Option<SpellInfo>,
        advanced: Option<AdvancedParameters>,
        extra_spell: Option<SpellInfo>,
        aura_type: AuraType,
        amount: isize,
    },
    SpellCast {
        source: Unit,
        target: Option<Unit>,
        spell_info: SpellInfo,
        advanced: Option<AdvancedParameters>,
        failure_reason: Option<String>,
    },
    CombatLogVersion {
        version: u8,
        build: String,
    },
    ZoneChange {
        id: usize,
        name: String,
        difficulty: Difficulty,
    },
    MapChange {
        id: usize,
        name: String,
        x0: String,
        x1: String,
        y0: String,
        y1: String,
    },
    StaggerClear {
        guid: String,
        value: String,
    },
    EncounterStart {
        id: usize,
        name: String,
        difficulty: Difficulty,
        size: usize,
        instance: usize,
    },
    EncounterEnd {
        id: usize,
        name: String,
        difficulty: Difficulty,
        size: usize,
        success: bool,
        length: u64,
    },
    ArenaMatchStart {
        id: usize,
        unk: usize,
        match_type: String,
        team: usize,
    },
    ArenaMatchEnd {
        winner: usize,
        duration: u64,
        team_one_rating: usize,
        team_two_rating: usize,
    },
    ChallengeModeStart {
        name: String,
        id: usize,
        challenge_id: usize,
        keystone_level: usize,
        affixes: Vec<Affix>,
    },
    ChallengeModeEnd {
        id: usize,
        success: bool,
        keystone_level: usize,
        duration: u64,
    },
    WorldMarkerPlaced {
        instance: usize,
        marker: RaidMarker,
        x: String,
        y: String,
    },
    WorldMarkerRemoved {
        marker: RaidMarker,
    },
    /// A recognized combat tag whose payload has no assembly rule yet: an
    /// explicit gap, never a silent loss.
    Placeholder,
}

} // verus!
