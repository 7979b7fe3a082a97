use vstd::prelude::*;

use crate::error::JastorError;
use crate::util::param_handler::str_eq_str;

verus! {

/// The closed set of event tags the registry knows.
///
/// A tag outside this set is rejected at classification with an
/// `UnknownEvent` error carrying the tag text.
#[derive(Debug, Copy, Clone, PartialEq, Eq, Hash, Structural)]
pub enum EventType {
    SwingDamage,
    SwingDamageLanded,
    SwingMissed,
    RangeDamage,
    RangeMissed,
    SpellDamage,
    SpellDamageSupport,
    SpellMissed,
    SpellHeal,
    SpellHealSupport,
    SpellHealAbsorbed,
    SpellAbsorbed,
    SpellEnergize,
    SpellDrain,
    SpellLeech,
    SpellInterrupt,
    SpellDispel,
    SpellDispelFailed,
    SpellStolen,
    SpellExtraAttacks,
    SpellAuraApplied,
    SpellAuraRemoved,
    SpellAuraAppliedDose,
    SpellAuraRemovedDose,
    SpellAuraRefresh,
    SpellAuraBroken,
    SpellAuraBrokenSpell,
    SpellCastStart,
    SpellCastSuccess,
    SpellCastFailed,
    SpellInstaKill,
    SpellDurabilityDamage,
    SpellDurabilityDamageAll,
    SpellCreate,
    SpellSummon,
    SpellResurrect,
    SpellEmpowerStart,
    SpellEmpowerEnd,
    SpellEmpowerInterrupt,
    SpellPeriodicDamage,
    SpellPeriodicDamageSupport,
    SpellPeriodicMissed,
    SpellPeriodicHeal,
    SpellPeriodicHealSupport,
    SpellPeriodicHealAbsorbed,
    SpellPeriodicAbsorbed,
    SpellPeriodicEnergize,
    SpellPeriodicDrain,
    SpellPeriodicLeech,
    SpellPeriodicInterrupt,
    SpellPeriodicDispel,
    SpellPeriodicDispelFailed,
    SpellPeriodicStolen,
    SpellPeriodicExtraAttacks,
    SpellPeriodicAuraApplied,
    SpellPeriodicAuraRemoved,
    SpellPeriodicAuraAppliedDose,
    SpellPeriodicAuraRemovedDose,
    SpellPeriodicAuraRefresh,
    SpellPeriodicAuraBroken,
    SpellPeriodicAuraBrokenSpell,
    SpellPeriodicCastStart,
    SpellPeriodicCastSuccess,
    SpellPeriodicCastFailed,
    SpellPeriodicInstaKill,
    SpellPeriodicDurabilityDamage,
    SpellPeriodicDurabilityDamageAll,
    SpellPeriodicCreate,
    SpellPeriodicSummon,
    SpellPeriodicResurrect,
    SpellPeriodicEmpowerStart,
    SpellPeriodicEmpowerEnd,
    SpellPeriodicEmpowerInterrupt,
    SpellBuildingDamage,
    SpellBuildingMissed,
    SpellBuildingHeal,
    SpellBuildingHealAbsorbed,
    SpellBuildingAbsorbed,
    SpellBuildingEnergize,
    SpellBuildingDrain,
    SpellBuildingLeech,
    SpellBuildingInterrupt,
    SpellBuildingDispel,
    SpellBuildingDispelFailed,
    SpellBuildingStolen,
    SpellBuildingExtraAttacks,
    SpellBuildingAuraApplied,
    SpellBuildingAuraRemoved,
    SpellBuildingAuraAppliedDose,
    SpellBuildingAuraRemovedDose,
    SpellBuildingAuraRefresh,
    SpellBuildingAuraBroken,
    SpellBuildingAuraBrokenSpell,
    SpellBuildingCastStart,
    SpellBuildingCastSuccess,
    SpellBuildingCastFailed,
    SpellBuildingInstaKill,
    SpellBuildingDurabilityDamage,
    SpellBuildingDurabilityDamageAll,
    SpellBuildingCreate,
    SpellBuildingSummon,
    SpellBuildingResurrect,
    SpellBuildingEmpowerStart,
    SpellBuildingEmpowerEnd,
    SpellBuildingEmpowerInterrupt,
    EnvironmentalDamage,
    DamageSplit,
    DamageShield,
    DamageShieldMissed,
    EnchantApplied,
    EnchantRemoved,
    PartyKill,
    UnitDied,
    UnitDestroyed,
    UnitDissapates,
    CombatLogVersion,
    StaggerClear,
    ZoneChange,
    MapChange,
    EncounterStart,
    EncounterEnd,
    CombatantInfo,
    ArenaMatchStart,
    ArenaMatchEnd,
    ChallengeModeStart,
    ChallengeModeEnd,
    Emote,
    WorldMarkerPlaced,
    WorldMarkerRemoved,
}

impl EventType {
    /// The tag text of this event type, as it appears in a log line.
    pub open spec fn spec_label(self) -> Seq<char> {
        match self {
            EventType::SwingDamage => "SWING_DAMAGE"@,
            EventType::SwingDamageLanded => "SWING_DAMAGE_LANDED"@,
            EventType::SwingMissed => "SWING_MISSED"@,
            EventType::RangeDamage => "RANGE_DAMAGE"@,
            EventType::RangeMissed => "RANGE_MISSED"@,
            EventType::SpellDamage => "SPELL_DAMAGE"@,
            EventType::SpellDamageSupport => "SPELL_DAMAGE_SUPPORT"@,
            EventType::SpellMissed => "SPELL_MISSED"@,
            EventType::SpellHeal => "SPELL_HEAL"@,
            EventType::SpellHealSupport => "SPELL_HEAL_SUPPORT"@,
            EventType::SpellHealAbsorbed => "SPELL_HEAL_ABSORBED"@,
            EventType::SpellAbsorbed => "SPELL_ABSORBED"@,
            EventType::SpellEnergize => "SPELL_ENERGIZE"@,
            EventType::SpellDrain => "SPELL_DRAIN"@,
            EventType::SpellLeech => "SPELL_LEECH"@,
            EventType::SpellInterrupt => "SPELL_INTERRUPT"@,
            EventType::SpellDispel => "SPELL_DISPEL"@,
            EventType::SpellDispelFailed => "SPELL_DISPEL_FAILED"@,
            EventType::SpellStolen => "SPELL_STOLEN"@,
            EventType::SpellExtraAttacks => "SPELL_EXTRA_ATTACKS"@,
            EventType::SpellAuraApplied => "SPELL_AURA_APPLIED"@,
            EventType::SpellAuraRemoved => "SPELL_AURA_REMOVED"@,
            EventType::SpellAuraAppliedDose => "SPELL_AURA_APPLIED_DOSE"@,
            EventType::SpellAuraRemovedDose => "SPELL_AURA_REMOVED_DOSE"@,
            EventType::SpellAuraRefresh => "SPELL_AURA_REFRESH"@,
            EventType::SpellAuraBroken => "SPELL_AURA_BROKEN"@,
            EventType::SpellAuraBrokenSpell => "SPELL_AURA_BROKEN_SPELL"@,
            EventType::SpellCastStart => "SPELL_CAST_START"@,
            EventType::SpellCastSuccess => "SPELL_CAST_SUCCESS"@,
            EventType::SpellCastFailed => "SPELL_CAST_FAILED"@,
            EventType::SpellInstaKill => "SPELL_INSTAKILL"@,
            EventType::SpellDurabilityDamage => "SPELL_DURABILITY_DAMAGE"@,
            EventType::SpellDurabilityDamageAll => "SPELL_DURABILITY_DAMAGE_ALL"@,
            EventType::SpellCreate => "SPELL_CREATE"@,
            EventType::SpellSummon => "SPELL_SUMMON"@,
            EventType::SpellResurrect => "SPELL_RESURRECT"@,
            EventType::SpellEmpowerStart => "SPELL_EMPOWER_START"@,
            EventType::SpellEmpowerEnd => "SPELL_EMPOWER_END"@,
            EventType::SpellEmpowerInterrupt => "SPELL_EMPOWER_INTERRUPT"@,
            EventType::SpellPeriodicDamage => "SPELL_PERIODIC_DAMAGE"@,
            EventType::SpellPeriodicDamageSupport => "SPELL_PERIODIC_DAMAGE_SUPPORT"@,
            EventType::SpellPeriodicMissed => "SPELL_PERIODIC_MISSED"@,
            EventType::SpellPeriodicHeal => "SPELL_PERIODIC_HEAL"@,
            EventType::SpellPeriodicHealSupport => "SPELL_PERIODIC_HEAL_SUPPORT"@,
            EventType::SpellPeriodicHealAbsorbed => "SPELL_PERIODIC_HEAL_ABSORBED"@,
            EventType::SpellPeriodicAbsorbed => "SPELL_PERIODIC_ABSORBED"@,
            EventType::SpellPeriodicEnergize => "SPELL_PERIODIC_ENERGIZE"@,
            EventType::SpellPeriodicDrain => "SPELL_PERIODIC_DRAIN"@,
            EventType::SpellPeriodicLeech => "SPELL_PERIODIC_LEECH"@,
            EventType::SpellPeriodicInterrupt => "SPELL_PERIODIC_INTERRUPT"@,
            EventType::SpellPeriodicDispel => "SPELL_PERIODIC_DISPEL"@,
            EventType::SpellPeriodicDispelFailed => "SPELL_PERIODIC_DISPEL_FAILED"@,
            EventType::SpellPeriodicStolen => "SPELL_PERIODIC_STOLEN"@,
            EventType::SpellPeriodicExtraAttacks => "SPELL_PERIODIC_EXTRA_ATTACKS"@,
            EventType::SpellPeriodicAuraApplied => "SPELL_PERIODIC_AURA_APPLIED"@,
            EventType::SpellPeriodicAuraRemoved => "SPELL_PERIODIC_AURA_REMOVED"@,
            EventType::SpellPeriodicAuraAppliedDose => "SPELL_PERIODIC_AURA_APPLIED_DOSE"@,
            EventType::SpellPeriodicAuraRemovedDose => "SPELL_PERIODIC_AURA_REMOVED_DOSE"@,
            EventType::SpellPeriodicAuraRefresh => "SPELL_PERIODIC_AURA_REFRESH"@,
            EventType::SpellPeriodicAuraBroken => "SPELL_PERIODIC_AURA_BROKEN"@,
            EventType::SpellPeriodicAuraBrokenSpell => "SPELL_PERIODIC_AURA_BROKEN_SPELL"@,
            EventType::SpellPeriodicCastStart => "SPELL_PERIODIC_CAST_START"@,
            EventType::SpellPeriodicCastSuccess => "SPELL_PERIODIC_CAST_SUCCESS"@,
            EventType::SpellPeriodicCastFailed => "SPELL_PERIODIC_CAST_FAILED"@,
            EventType::SpellPeriodicInstaKill => "SPELL_PERIODIC_INSTA_KILL"@,
            EventType::SpellPeriodicDurabilityDamage => "SPELL_PERIODIC_DURABILITY_DAMAGE"@,
            EventType::SpellPeriodicDurabilityDamageAll => "SPELL_PERIODIC_DURABILITY_DAMAGE_ALL"@,
            EventType::SpellPeriodicCreate => "SPELL_PERIODIC_CREATE"@,
            EventType::SpellPeriodicSummon => "SPELL_PERIODIC_SUMMON"@,
            EventType::SpellPeriodicResurrect => "SPELL_PERIODIC_RESURRECT"@,
            EventType::SpellPeriodicEmpowerStart => "SPELL_PERIODIC_EMPOWER_START"@,
            EventType::SpellPeriodicEmpowerEnd => "SPELL_PERIODIC_EMPOWER_END"@,
            EventType::SpellPeriodicEmpowerInterrupt => "SPELL_PERIODIC_EMPOWER_INTERRUPT"@,
            EventType::SpellBuildingDamage => "SPELL_BUILDING_DAMAGE"@,
            EventType::SpellBuildingMissed => "SPELL_BUILDING_MISSED"@,
            EventType::SpellBuildingHeal => "SPELL_BUILDING_HEAL"@,
            EventType::SpellBuildingHealAbsorbed => "SPELL_BUILDING_HEAL_ABSORBED"@,
            EventType::SpellBuildingAbsorbed => "SPELL_BUILDING_ABSORBED"@,
            EventType::SpellBuildingEnergize => "SPELL_BUILDING_ENERGIZE"@,
            EventType::SpellBuildingDrain => "SPELL_BUILDING_DRAIN"@,
            EventType::SpellBuildingLeech => "SPELL_BUILDING_LEECH"@,
            EventType::SpellBuildingInterrupt => "SPELL_BUILDING_INTERRUPT"@,
            EventType::SpellBuildingDispel => "SPELL_BUILDING_DISPEL"@,
            EventType::SpellBuildingDispelFailed => "SPELL_BUILDING_DISPEL_FAILED"@,
            EventType::SpellBuildingStolen => "SPELL_BUILDING_STOLEN"@,
            EventType::SpellBuildingExtraAttacks => "SPELL_BUILDING_EXTRA_ATTACKS"@,
            EventType::SpellBuildingAuraApplied => "SPELL_BUILDING_AURA_APPLIED"@,
            EventType::SpellBuildingAuraRemoved => "SPELL_BUILDING_AURA_REMOVED"@,
            EventType::SpellBuildingAuraAppliedDose => "SPELL_BUILDING_AURA_APPLIED_DOSE"@,
            EventType::SpellBuildingAuraRemovedDose => "SPELL_BUILDING_AURA_REMOVED_DOSE"@,
            EventType::SpellBuildingAuraRefresh => "SPELL_BUILDING_AURA_REFRESH"@,
            EventType::SpellBuildingAuraBroken => "SPELL_BUILDING_AURA_BROKEN"@,
            EventType::SpellBuildingAuraBrokenSpell => "SPELL_BUILDING_AURA_BROKEN_SPELL"@,
            EventType::SpellBuildingCastStart => "SPELL_BUILDING_CAST_START"@,
            EventType::SpellBuildingCastSuccess => "SPELL_BUILDING_CAST_SUCCESS"@,
            EventType::SpellBuildingCastFailed => "SPELL_BUILDING_CAST_FAILED"@,
            EventType::SpellBuildingInstaKill => "SPELL_BUILDING_INSTA_KILL"@,
            EventType::SpellBuildingDurabilityDamage => "SPELL_BUILDING_DURABILITY_DAMAGE"@,
            EventType::SpellBuildingDurabilityDamageAll => "SPELL_BUILDING_DURABILITY_DAMAGE_ALL"@,
            EventType::SpellBuildingCreate => "SPELL_BUILDING_CREATE"@,
            EventType::SpellBuildingSummon => "SPELL_BUILDING_SUMMON"@,
            EventType::SpellBuildingResurrect => "SPELL_BUILDING_RESURRECT"@,
            EventType::SpellBuildingEmpowerStart => "SPELL_BUILDING_EMPOWER_START"@,
            EventType::SpellBuildingEmpowerEnd => "SPELL_BUILDING_EMPOWER_END"@,
            EventType::SpellBuildingEmpowerInterrupt => "SPELL_BUILDING_EMPOWER_INTERRUPT"@,
            EventType::EnvironmentalDamage => "ENVIRONMENTAL_DAMAGE"@,
            EventType::DamageSplit => "DAMAGE_SPLIT"@,
            EventType::DamageShield => "DAMAGE_SHIELD"@,
            EventType::DamageShieldMissed => "DAMAGE_SHIELD_MISSED"@,
            EventType::EnchantApplied => "ENCHANT_APPLIED"@,
            EventType::EnchantRemoved => "ENCHANT_REMOVED"@,
            EventType::PartyKill => "PARTY_KILL"@,
            EventType::UnitDied => "UNIT_DIED"@,
            EventType::UnitDestroyed => "UNIT_DESTROYED"@,
            EventType::UnitDissapates => "UNIT_DISSAPATES"@,
            EventType::CombatLogVersion => "COMBAT_LOG_VERSION"@,
            EventType::StaggerClear => "STAGGER_CLEAR"@,
            EventType::ZoneChange => "ZONE_CHANGE"@,
            EventType::MapChange => "MAP_CHANGE"@,
            EventType::EncounterStart => "ENCOUNTER_START"@,
            EventType::EncounterEnd => "ENCOUNTER_END"@,
            EventType::CombatantInfo => "COMBATANT_INFO"@,
            EventType::ArenaMatchStart => "ARENA_MATCH_START"@,
            EventType::ArenaMatchEnd => "ARENA_MATCH_END"@,
            EventType::ChallengeModeStart => "CHALLENGE_MODE_START"@,
            EventType::ChallengeModeEnd => "CHALLENGE_MODE_END"@,
            EventType::Emote => "EMOTE"@,
            EventType::WorldMarkerPlaced => "WORLD_MARKER_PLACED"@,
            EventType::WorldMarkerRemoved => "WORLD_MARKER_REMOVED"@,
        }
    }

    /// The event type a tag text names, if the registry knows it.
    pub open spec fn spec_of_tag(tag: Seq<char>) -> Option<EventType> {
        if tag == "SWING_DAMAGE"@ {
            Some(EventType::SwingDamage)
        } else if tag == "SWING_DAMAGE_LANDED"@ {
            Some(EventType::SwingDamageLanded)
        } else if tag == "SWING_MISSED"@ {
            Some(EventType::SwingMissed)
        } else if tag == "RANGE_DAMAGE"@ {
            Some(EventType::RangeDamage)
        } else if tag == "RANGE_MISSED"@ {
            Some(EventType::RangeMissed)
        } else if tag == "SPELL_DAMAGE"@ {
            Some(EventType::SpellDamage)
        } else if tag == "SPELL_DAMAGE_SUPPORT"@ {
            Some(EventType::SpellDamageSupport)
        } else if tag == "SPELL_MISSED"@ {
            Some(EventType::SpellMissed)
        } else if tag == "SPELL_HEAL"@ {
            Some(EventType::SpellHeal)
        } else if tag == "SPELL_HEAL_SUPPORT"@ {
            Some(EventType::SpellHealSupport)
        } else if tag == "SPELL_HEAL_ABSORBED"@ {
            Some(EventType::SpellHealAbsorbed)
        } else if tag == "SPELL_ABSORBED"@ {
            Some(EventType::SpellAbsorbed)
        } else if tag == "SPELL_ENERGIZE"@ {
            Some(EventType::SpellEnergize)
        } else if tag == "SPELL_DRAIN"@ {
            Some(EventType::SpellDrain)
        } else if tag == "SPELL_LEECH"@ {
            Some(EventType::SpellLeech)
        } else if tag == "SPELL_INTERRUPT"@ {
            Some(EventType::SpellInterrupt)
        } else if tag == "SPELL_DISPEL"@ {
            Some(EventType::SpellDispel)
        } else if tag == "SPELL_DISPEL_FAILED"@ {
            Some(EventType::SpellDispelFailed)
        } else if tag == "SPELL_STOLEN"@ {
            Some(EventType::SpellStolen)
        } else if tag == "SPELL_EXTRA_ATTACKS"@ {
            Some(EventType::SpellExtraAttacks)
        } else if tag == "SPELL_AURA_APPLIED"@ {
            Some(EventType::SpellAuraApplied)
        } else if tag == "SPELL_AURA_REMOVED"@ {
            Some(EventType::SpellAuraRemoved)
        } else if tag == "SPELL_AURA_APPLIED_DOSE"@ {
            Some(EventType::SpellAuraAppliedDose)
        } else if tag == "SPELL_AURA_REMOVED_DOSE"@ {
            Some(EventType::SpellAuraRemovedDose)
        } else if tag == "SPELL_AURA_REFRESH"@ {
            Some(EventType::SpellAuraRefresh)
        } else if tag == "SPELL_AURA_BROKEN"@ {
            Some(EventType::SpellAuraBroken)
        } else if tag == "SPELL_AURA_BROKEN_SPELL"@ {
            Some(EventType::SpellAuraBrokenSpell)
        } else if tag == "SPELL_CAST_START"@ {
            Some(EventType::SpellCastStart)
        } else if tag == "SPELL_CAST_SUCCESS"@ {
            Some(EventType::SpellCastSuccess)
        } else if tag == "SPELL_CAST_FAILED"@ {
            Some(EventType::SpellCastFailed)
        } else if tag == "SPELL_INSTAKILL"@ {
            Some(EventType::SpellInstaKill)
        } else if tag == "SPELL_DURABILITY_DAMAGE"@ {
            Some(EventType::SpellDurabilityDamage)
        } else if tag == "SPELL_DURABILITY_DAMAGE_ALL"@ {
            Some(EventType::SpellDurabilityDamageAll)
        } else if tag == "SPELL_CREATE"@ {
            Some(EventType::SpellCreate)
        } else if tag == "SPELL_SUMMON"@ {
            Some(EventType::SpellSummon)
        } else if tag == "SPELL_RESURRECT"@ {
            Some(EventType::SpellResurrect)
        } else if tag == "SPELL_EMPOWER_START"@ {
            Some(EventType::SpellEmpowerStart)
        } else if tag == "SPELL_EMPOWER_END"@ {
            Some(EventType::SpellEmpowerEnd)
        } else if tag == "SPELL_EMPOWER_INTERRUPT"@ {
            Some(EventType::SpellEmpowerInterrupt)
        } else if tag == "SPELL_PERIODIC_DAMAGE"@ {
            Some(EventType::SpellPeriodicDamage)
        } else if tag == "SPELL_PERIODIC_DAMAGE_SUPPORT"@ {
            Some(EventType::SpellPeriodicDamageSupport)
        } else if tag == "SPELL_PERIODIC_MISSED"@ {
            Some(EventType::SpellPeriodicMissed)
        } else if tag == "SPELL_PERIODIC_HEAL"@ {
            Some(EventType::SpellPeriodicHeal)
        } else if tag == "SPELL_PERIODIC_HEAL_SUPPORT"@ {
            Some(EventType::SpellPeriodicHealSupport)
        } else if tag == "SPELL_PERIODIC_HEAL_ABSORBED"@ {
            Some(EventType::SpellPeriodicHealAbsorbed)
        } else if tag == "SPELL_PERIODIC_ABSORBED"@ {
            Some(EventType::SpellPeriodicAbsorbed)
        } else if tag == "SPELL_PERIODIC_ENERGIZE"@ {
            Some(EventType::SpellPeriodicEnergize)
        } else if tag == "SPELL_PERIODIC_DRAIN"@ {
            Some(EventType::SpellPeriodicDrain)
        } else if tag == "SPELL_PERIODIC_LEECH"@ {
            Some(EventType::SpellPeriodicLeech)
        } else if tag == "SPELL_PERIODIC_INTERRUPT"@ {
            Some(EventType::SpellPeriodicInterrupt)
        } else if tag == "SPELL_PERIODIC_DISPEL"@ {
            Some(EventType::SpellPeriodicDispel)
        } else if tag == "SPELL_PERIODIC_DISPEL_FAILED"@ {
            Some(EventType::SpellPeriodicDispelFailed)
        } else if tag == "SPELL_PERIODIC_STOLEN"@ {
            Some(EventType::SpellPeriodicStolen)
        } else if tag == "SPELL_PERIODIC_EXTRA_ATTACKS"@ {
            Some(EventType::SpellPeriodicExtraAttacks)
        } else if tag == "SPELL_PERIODIC_AURA_APPLIED"@ {
            Some(EventType::SpellPeriodicAuraApplied)
        } else if tag == "SPELL_PERIODIC_AURA_REMOVED"@ {
            Some(EventType::SpellPeriodicAuraRemoved)
        } else if tag == "SPELL_PERIODIC_AURA_APPLIED_DOSE"@ {
            Some(EventType::SpellPeriodicAuraAppliedDose)
        } else if tag == "SPELL_PERIODIC_AURA_REMOVED_DOSE"@ {
            Some(EventType::SpellPeriodicAuraRemovedDose)
        } else if tag == "SPELL_PERIODIC_AURA_REFRESH"@ {
            Some(EventType::SpellPeriodicAuraRefresh)
        } else if tag == "SPELL_PERIODIC_AURA_BROKEN"@ {
            Some(EventType::SpellPeriodicAuraBroken)
        } else if tag == "SPELL_PERIODIC_AURA_BROKEN_SPELL"@ {
            Some(EventType::SpellPeriodicAuraBrokenSpell)
        } else if tag == "SPELL_PERIODIC_CAST_START"@ {
            Some(EventType::SpellPeriodicCastStart)
        } else if tag == "SPELL_PERIODIC_CAST_SUCCESS"@ {
            Some(EventType::SpellPeriodicCastSuccess)
        } else if tag == "SPELL_PERIODIC_CAST_FAILED"@ {
            Some(EventType::SpellPeriodicCastFailed)
        } else if tag == "SPELL_PERIODIC_INSTA_KILL"@ {
            Some(EventType::SpellPeriodicInstaKill)
        } else if tag == "SPELL_PERIODIC_DURABILITY_DAMAGE"@ {
            Some(EventType::SpellPeriodicDurabilityDamage)
        } else if tag == "SPELL_PERIODIC_DURABILITY_DAMAGE_ALL"@ {
            Some(EventType::SpellPeriodicDurabilityDamageAll)
        } else if tag == "SPELL_PERIODIC_CREATE"@ {
            Some(EventType::SpellPeriodicCreate)
        } else if tag == "SPELL_PERIODIC_SUMMON"@ {
            Some(EventType::SpellPeriodicSummon)
        } else if tag == "SPELL_PERIODIC_RESURRECT"@ {
            Some(EventType::SpellPeriodicResurrect)
        } else if tag == "SPELL_PERIODIC_EMPOWER_START"@ {
            Some(EventType::SpellPeriodicEmpowerStart)
        } else if tag == "SPELL_PERIODIC_EMPOWER_END"@ {
            Some(EventType::SpellPeriodicEmpowerEnd)
        } else if tag == "SPELL_PERIODIC_EMPOWER_INTERRUPT"@ {
            Some(EventType::SpellPeriodicEmpowerInterrupt)
        } else if tag == "SPELL_BUILDING_DAMAGE"@ {
            Some(EventType::SpellBuildingDamage)
        } else if tag == "SPELL_BUILDING_MISSED"@ {
            Some(EventType::SpellBuildingMissed)
        } else if tag == "SPELL_BUILDING_HEAL"@ {
            Some(EventType::SpellBuildingHeal)
        } else if tag == "SPELL_BUILDING_HEAL_ABSORBED"@ {
            Some(EventType::SpellBuildingHealAbsorbed)
        } else if tag == "SPELL_BUILDING_ABSORBED"@ {
            Some(EventType::SpellBuildingAbsorbed)
        } else if tag == "SPELL_BUILDING_ENERGIZE"@ {
            Some(EventType::SpellBuildingEnergize)
        } else if tag == "SPELL_BUILDING_DRAIN"@ {
            Some(EventType::SpellBuildingDrain)
        } else if tag == "SPELL_BUILDING_LEECH"@ {
            Some(EventType::SpellBuildingLeech)
        } else if tag == "SPELL_BUILDING_INTERRUPT"@ {
            Some(EventType::SpellBuildingInterrupt)
        } else if tag == "SPELL_BUILDING_DISPEL"@ {
            Some(EventType::SpellBuildingDispel)
        } else if tag == "SPELL_BUILDING_DISPEL_FAILED"@ {
            Some(EventType::SpellBuildingDispelFailed)
        } else if tag == "SPELL_BUILDING_STOLEN"@ {
            Some(EventType::SpellBuildingStolen)
        } else if tag == "SPELL_BUILDING_EXTRA_ATTACKS"@ {
            Some(EventType::SpellBuildingExtraAttacks)
        } else if tag == "SPELL_BUILDING_AURA_APPLIED"@ {
            Some(EventType::SpellBuildingAuraApplied)
        } else if tag == "SPELL_BUILDING_AURA_REMOVED"@ {
            Some(EventType::SpellBuildingAuraRemoved)
        } else if tag == "SPELL_BUILDING_AURA_APPLIED_DOSE"@ {
            Some(EventType::SpellBuildingAuraAppliedDose)
        } else if tag == "SPELL_BUILDING_AURA_REMOVED_DOSE"@ {
            Some(EventType::SpellBuildingAuraRemovedDose)
        } else if tag == "SPELL_BUILDING_AURA_REFRESH"@ {
            Some(EventType::SpellBuildingAuraRefresh)
        } else if tag == "SPELL_BUILDING_AURA_BROKEN"@ {
            Some(EventType::SpellBuildingAuraBroken)
        } else if tag == "SPELL_BUILDING_AURA_BROKEN_SPELL"@ {
            Some(EventType::SpellBuildingAuraBrokenSpell)
        } else if tag == "SPELL_BUILDING_CAST_START"@ {
            Some(EventType::SpellBuildingCastStart)
        } else if tag == "SPELL_BUILDING_CAST_SUCCESS"@ {
            Some(EventType::SpellBuildingCastSuccess)
        } else if tag == "SPELL_BUILDING_CAST_FAILED"@ {
            Some(EventType::SpellBuildingCastFailed)
        } else if tag == "SPELL_BUILDING_INSTA_KILL"@ {
            Some(EventType::SpellBuildingInstaKill)
        } else if tag == "SPELL_BUILDING_DURABILITY_DAMAGE"@ {
            Some(EventType::SpellBuildingDurabilityDamage)
        } else if tag == "SPELL_BUILDING_DURABILITY_DAMAGE_ALL"@ {
            Some(EventType::SpellBuildingDurabilityDamageAll)
        } else if tag == "SPELL_BUILDING_CREATE"@ {
            Some(EventType::SpellBuildingCreate)
        } else if tag == "SPELL_BUILDING_SUMMON"@ {
            Some(EventType::SpellBuildingSummon)
        } else if tag == "SPELL_BUILDING_RESURRECT"@ {
            Some(EventType::SpellBuildingResurrect)
        } else if tag == "SPELL_BUILDING_EMPOWER_START"@ {
            Some(EventType::SpellBuildingEmpowerStart)
        } else if tag == "SPELL_BUILDING_EMPOWER_END"@ {
            Some(EventType::SpellBuildingEmpowerEnd)
        } else if tag == "SPELL_BUILDING_EMPOWER_INTERRUPT"@ {
            Some(EventType::SpellBuildingEmpowerInterrupt)
        } else if tag == "ENVIRONMENTAL_DAMAGE"@ {
            Some(EventType::EnvironmentalDamage)
        } else if tag == "DAMAGE_SPLIT"@ {
            Some(EventType::DamageSplit)
        } else if tag == "DAMAGE_SHIELD"@ {
            Some(EventType::DamageShield)
        } else if tag == "DAMAGE_SHIELD_MISSED"@ {
            Some(EventType::DamageShieldMissed)
        } else if tag == "ENCHANT_APPLIED"@ {
            Some(EventType::EnchantApplied)
        } else if tag == "ENCHANT_REMOVED"@ {
            Some(EventType::EnchantRemoved)
        } else if tag == "PARTY_KILL"@ {
            Some(EventType::PartyKill)
        } else if tag == "UNIT_DIED"@ {
            Some(EventType::UnitDied)
        } else if tag == "UNIT_DESTROYED"@ {
            Some(EventType::UnitDestroyed)
        } else if tag == "UNIT_DISSAPATES"@ {
            Some(EventType::UnitDissapates)
        } else if tag == "COMBAT_LOG_VERSION"@ {
            Some(EventType::CombatLogVersion)
        } else if tag == "STAGGER_CLEAR"@ {
            Some(EventType::StaggerClear)
        } else if tag == "ZONE_CHANGE"@ {
            Some(EventType::ZoneChange)
        } else if tag == "MAP_CHANGE"@ {
            Some(EventType::MapChange)
        } else if tag == "ENCOUNTER_START"@ {
            Some(EventType::EncounterStart)
        } else if tag == "ENCOUNTER_END"@ {
            Some(EventType::EncounterEnd)
        } else if tag == "COMBATANT_INFO"@ {
            Some(EventType::CombatantInfo)
        } else if tag == "ARENA_MATCH_START"@ {
            Some(EventType::ArenaMatchStart)
        } else if tag == "ARENA_MATCH_END"@ {
            Some(EventType::ArenaMatchEnd)
        } else if tag == "CHALLENGE_MODE_START"@ {
            Some(EventType::ChallengeModeStart)
        } else if tag == "CHALLENGE_MODE_END"@ {
            Some(EventType::ChallengeModeEnd)
        } else if tag == "EMOTE"@ {
            Some(EventType::Emote)
        } else if tag == "WORLD_MARKER_PLACED"@ {
            Some(EventType::WorldMarkerPlaced)
        } else if tag == "WORLD_MARKER_REMOVED"@ {
            Some(EventType::WorldMarkerRemoved)
        } else {
            None
        }
    }

    /// Looks a tag text up in the registry.
    pub fn from_str(s: &str) -> (r: Result<EventType, JastorError>)
        ensures
            match r {
                Ok(et) => EventType::spec_of_tag(s@) == Some(et),
                Err(e) => EventType::spec_of_tag(s@) is None && (e matches
                    JastorError::UnknownEvent(t) && t@ == s@),
            },
    {
        if str_eq_str(s, "SWING_DAMAGE") {
            return Ok(EventType::SwingDamage);
        }
        if str_eq_str(s, "SWING_DAMAGE_LANDED") {
            return Ok(EventType::SwingDamageLanded);
        }
        if str_eq_str(s, "SWING_MISSED") {
            return Ok(EventType::SwingMissed);
        }
        if str_eq_str(s, "RANGE_DAMAGE") {
            return Ok(EventType::RangeDamage);
        }
        if str_eq_str(s, "RANGE_MISSED") {
            return Ok(EventType::RangeMissed);
        }
        if str_eq_str(s, "SPELL_DAMAGE") {
            return Ok(EventType::SpellDamage);
        }
        if str_eq_str(s, "SPELL_DAMAGE_SUPPORT") {
            return Ok(EventType::SpellDamageSupport);
        }
        if str_eq_str(s, "SPELL_MISSED") {
            return Ok(EventType::SpellMissed);
        }
        if str_eq_str(s, "SPELL_HEAL") {
            return Ok(EventType::SpellHeal);
        }
        if str_eq_str(s, "SPELL_HEAL_SUPPORT") {
            return Ok(EventType::SpellHealSupport);
        }
        if str_eq_str(s, "SPELL_HEAL_ABSORBED") {
            return Ok(EventType::SpellHealAbsorbed);
        }
        if str_eq_str(s, "SPELL_ABSORBED") {
            return Ok(EventType::SpellAbsorbed);
        }
        if str_eq_str(s, "SPELL_ENERGIZE") {
            return Ok(EventType::SpellEnergize);
        }
        if str_eq_str(s, "SPELL_DRAIN") {
            return Ok(EventType::SpellDrain);
        }
        if str_eq_str(s, "SPELL_LEECH") {
            return Ok(EventType::SpellLeech);
        }
        if str_eq_str(s, "SPELL_INTERRUPT") {
            return Ok(EventType::SpellInterrupt);
        }
        if str_eq_str(s, "SPELL_DISPEL") {
            return Ok(EventType::SpellDispel);
        }
        if str_eq_str(s, "SPELL_DISPEL_FAILED") {
            return Ok(EventType::SpellDispelFailed);
        }
        if str_eq_str(s, "SPELL_STOLEN") {
            return Ok(EventType::SpellStolen);
        }
        if str_eq_str(s, "SPELL_EXTRA_ATTACKS") {
            return Ok(EventType::SpellExtraAttacks);
        }
        if str_eq_str(s, "SPELL_AURA_APPLIED") {
            return Ok(EventType::SpellAuraApplied);
        }
        if str_eq_str(s, "SPELL_AURA_REMOVED") {
            return Ok(EventType::SpellAuraRemoved);
        }
        if str_eq_str(s, "SPELL_AURA_APPLIED_DOSE") {
            return Ok(EventType::SpellAuraAppliedDose);
        }
        if str_eq_str(s, "SPELL_AURA_REMOVED_DOSE") {
            return Ok(EventType::SpellAuraRemovedDose);
        }
        if str_eq_str(s, "SPELL_AURA_REFRESH") {
            return Ok(EventType::SpellAuraRefresh);
        }
        if str_eq_str(s, "SPELL_AURA_BROKEN") {
            return Ok(EventType::SpellAuraBroken);
        }
        if str_eq_str(s, "SPELL_AURA_BROKEN_SPELL") {
            return Ok(EventType::SpellAuraBrokenSpell);
        }
        if str_eq_str(s, "SPELL_CAST_START") {
            return Ok(EventType::SpellCastStart);
        }
        if str_eq_str(s, "SPELL_CAST_SUCCESS") {
            return Ok(EventType::SpellCastSuccess);
        }
        if str_eq_str(s, "SPELL_CAST_FAILED") {
            return Ok(EventType::SpellCastFailed);
        }
        if str_eq_str(s, "SPELL_INSTAKILL") {
            return Ok(EventType::SpellInstaKill);
        }
        if str_eq_str(s, "SPELL_DURABILITY_DAMAGE") {
            return Ok(EventType::SpellDurabilityDamage);
        }
        if str_eq_str(s, "SPELL_DURABILITY_DAMAGE_ALL") {
            return Ok(EventType::SpellDurabilityDamageAll);
        }
        if str_eq_str(s, "SPELL_CREATE") {
            return Ok(EventType::SpellCreate);
        }
        if str_eq_str(s, "SPELL_SUMMON") {
            return Ok(EventType::SpellSummon);
        }
        if str_eq_str(s, "SPELL_RESURRECT") {
            return Ok(EventType::SpellResurrect);
        }
        if str_eq_str(s, "SPELL_EMPOWER_START") {
            return Ok(EventType::SpellEmpowerStart);
        }
        if str_eq_str(s, "SPELL_EMPOWER_END") {
            return Ok(EventType::SpellEmpowerEnd);
        }
        if str_eq_str(s, "SPELL_EMPOWER_INTERRUPT") {
            return Ok(EventType::SpellEmpowerInterrupt);
        }
        if str_eq_str(s, "SPELL_PERIODIC_DAMAGE") {
            return Ok(EventType::SpellPeriodicDamage);
        }
        if str_eq_str(s, "SPELL_PERIODIC_DAMAGE_SUPPORT") {
            return Ok(EventType::SpellPeriodicDamageSupport);
        }
        if str_eq_str(s, "SPELL_PERIODIC_MISSED") {
            return Ok(EventType::SpellPeriodicMissed);
        }
        if str_eq_str(s, "SPELL_PERIODIC_HEAL") {
            return Ok(EventType::SpellPeriodicHeal);
        }
        if str_eq_str(s, "SPELL_PERIODIC_HEAL_SUPPORT") {
            return Ok(EventType::SpellPeriodicHealSupport);
        }
        if str_eq_str(s, "SPELL_PERIODIC_HEAL_ABSORBED") {
            return Ok(EventType::SpellPeriodicHealAbsorbed);
        }
        if str_eq_str(s, "SPELL_PERIODIC_ABSORBED") {
            return Ok(EventType::SpellPeriodicAbsorbed);
        }
        if str_eq_str(s, "SPELL_PERIODIC_ENERGIZE") {
            return Ok(EventType::SpellPeriodicEnergize);
        }
        if str_eq_str(s, "SPELL_PERIODIC_DRAIN") {
            return Ok(EventType::SpellPeriodicDrain);
        }
        if str_eq_str(s, "SPELL_PERIODIC_LEECH") {
            return Ok(EventType::SpellPeriodicLeech);
        }
        if str_eq_str(s, "SPELL_PERIODIC_INTERRUPT") {
            return Ok(EventType::SpellPeriodicInterrupt);
        }
        if str_eq_str(s, "SPELL_PERIODIC_DISPEL") {
            return Ok(EventType::SpellPeriodicDispel);
        }
        if str_eq_str(s, "SPELL_PERIODIC_DISPEL_FAILED") {
            return Ok(EventType::SpellPeriodicDispelFailed);
        }
        if str_eq_str(s, "SPELL_PERIODIC_STOLEN") {
            return Ok(EventType::SpellPeriodicStolen);
        }
        if str_eq_str(s, "SPELL_PERIODIC_EXTRA_ATTACKS") {
            return Ok(EventType::SpellPeriodicExtraAttacks);
        }
        if str_eq_str(s, "SPELL_PERIODIC_AURA_APPLIED") {
            return Ok(EventType::SpellPeriodicAuraApplied);
        }
        if str_eq_str(s, "SPELL_PERIODIC_AURA_REMOVED") {
            return Ok(EventType::SpellPeriodicAuraRemoved);
        }
        if str_eq_str(s, "SPELL_PERIODIC_AURA_APPLIED_DOSE") {
            return Ok(EventType::SpellPeriodicAuraAppliedDose);
        }
        if str_eq_str(s, "SPELL_PERIODIC_AURA_REMOVED_DOSE") {
            return Ok(EventType::SpellPeriodicAuraRemovedDose);
        }
        if str_eq_str(s, "SPELL_PERIODIC_AURA_REFRESH") {
            return Ok(EventType::SpellPeriodicAuraRefresh);
        }
        if str_eq_str(s, "SPELL_PERIODIC_AURA_BROKEN") {
            return Ok(EventType::SpellPeriodicAuraBroken);
        }
        if str_eq_str(s, "SPELL_PERIODIC_AURA_BROKEN_SPELL") {
            return Ok(EventType::SpellPeriodicAuraBrokenSpell);
        }
        if str_eq_str(s, "SPELL_PERIODIC_CAST_START") {
            return Ok(EventType::SpellPeriodicCastStart);
        }
        if str_eq_str(s, "SPELL_PERIODIC_CAST_SUCCESS") {
            return Ok(EventType::SpellPeriodicCastSuccess);
        }
        if str_eq_str(s, "SPELL_PERIODIC_CAST_FAILED") {
            return Ok(EventType::SpellPeriodicCastFailed);
        }
        if str_eq_str(s, "SPELL_PERIODIC_INSTA_KILL") {
            return Ok(EventType::SpellPeriodicInstaKill);
        }
        if str_eq_str(s, "SPELL_PERIODIC_DURABILITY_DAMAGE") {
            return Ok(EventType::SpellPeriodicDurabilityDamage);
        }
        if str_eq_str(s, "SPELL_PERIODIC_DURABILITY_DAMAGE_ALL") {
            return Ok(EventType::SpellPeriodicDurabilityDamageAll);
        }
        if str_eq_str(s, "SPELL_PERIODIC_CREATE") {
            return Ok(EventType::SpellPeriodicCreate);
        }
        if str_eq_str(s, "SPELL_PERIODIC_SUMMON") {
            return Ok(EventType::SpellPeriodicSummon);
        }
        if str_eq_str(s, "SPELL_PERIODIC_RESURRECT") {
            return Ok(EventType::SpellPeriodicResurrect);
        }
        if str_eq_str(s, "SPELL_PERIODIC_EMPOWER_START") {
            return Ok(EventType::SpellPeriodicEmpowerStart);
        }
        if str_eq_str(s, "SPELL_PERIODIC_EMPOWER_END") {
            return Ok(EventType::SpellPeriodicEmpowerEnd);
        }
        if str_eq_str(s, "SPELL_PERIODIC_EMPOWER_INTERRUPT") {
            return Ok(EventType::SpellPeriodicEmpowerInterrupt);
        }
        if str_eq_str(s, "SPELL_BUILDING_DAMAGE") {
            return Ok(EventType::SpellBuildingDamage);
        }
        if str_eq_str(s, "SPELL_BUILDING_MISSED") {
            return Ok(EventType::SpellBuildingMissed);
        }
        if str_eq_str(s, "SPELL_BUILDING_HEAL") {
            return Ok(EventType::SpellBuildingHeal);
        }
        if str_eq_str(s, "SPELL_BUILDING_HEAL_ABSORBED") {
            return Ok(EventType::SpellBuildingHealAbsorbed);
        }
        if str_eq_str(s, "SPELL_BUILDING_ABSORBED") {
            return Ok(EventType::SpellBuildingAbsorbed);
        }
        if str_eq_str(s, "SPELL_BUILDING_ENERGIZE") {
            return Ok(EventType::SpellBuildingEnergize);
        }
        if str_eq_str(s, "SPELL_BUILDING_DRAIN") {
            return Ok(EventType::SpellBuildingDrain);
        }
        if str_eq_str(s, "SPELL_BUILDING_LEECH") {
            return Ok(EventType::SpellBuildingLeech);
        }
        if str_eq_str(s, "SPELL_BUILDING_INTERRUPT") {
            return Ok(EventType::SpellBuildingInterrupt);
        }
        if str_eq_str(s, "SPELL_BUILDING_DISPEL") {
            return Ok(EventType::SpellBuildingDispel);
        }
        if str_eq_str(s, "SPELL_BUILDING_DISPEL_FAILED") {
            return Ok(EventType::SpellBuildingDispelFailed);
        }
        if str_eq_str(s, "SPELL_BUILDING_STOLEN") {
            return Ok(EventType::SpellBuildingStolen);
        }
        if str_eq_str(s, "SPELL_BUILDING_EXTRA_ATTACKS") {
            return Ok(EventType::SpellBuildingExtraAttacks);
        }
        if str_eq_str(s, "SPELL_BUILDING_AURA_APPLIED") {
            return Ok(EventType::SpellBuildingAuraApplied);
        }
        if str_eq_str(s, "SPELL_BUILDING_AURA_REMOVED") {
            return Ok(EventType::SpellBuildingAuraRemoved);
        }
        if str_eq_str(s, "SPELL_BUILDING_AURA_APPLIED_DOSE") {
            return Ok(EventType::SpellBuildingAuraAppliedDose);
        }
        if str_eq_str(s, "SPELL_BUILDING_AURA_REMOVED_DOSE") {
            return Ok(EventType::SpellBuildingAuraRemovedDose);
        }
        if str_eq_str(s, "SPELL_BUILDING_AURA_REFRESH") {
            return Ok(EventType::SpellBuildingAuraRefresh);
        }
        if str_eq_str(s, "SPELL_BUILDING_AURA_BROKEN") {
            return Ok(EventType::SpellBuildingAuraBroken);
        }
        if str_eq_str(s, "SPELL_BUILDING_AURA_BROKEN_SPELL") {
            return Ok(EventType::SpellBuildingAuraBrokenSpell);
        }
        if str_eq_str(s, "SPELL_BUILDING_CAST_START") {
            return Ok(EventType::SpellBuildingCastStart);
        }
        if str_eq_str(s, "SPELL_BUILDING_CAST_SUCCESS") {
            return Ok(EventType::SpellBuildingCastSuccess);
        }
        if str_eq_str(s, "SPELL_BUILDING_CAST_FAILED") {
            return Ok(EventType::SpellBuildingCastFailed);
        }
        if str_eq_str(s, "SPELL_BUILDING_INSTA_KILL") {
            return Ok(EventType::SpellBuildingInstaKill);
        }
        if str_eq_str(s, "SPELL_BUILDING_DURABILITY_DAMAGE") {
            return Ok(EventType::SpellBuildingDurabilityDamage);
        }
        if str_eq_str(s, "SPELL_BUILDING_DURABILITY_DAMAGE_ALL") {
            return Ok(EventType::SpellBuildingDurabilityDamageAll);
        }
        if str_eq_str(s, "SPELL_BUILDING_CREATE") {
            return Ok(EventType::SpellBuildingCreate);
        }
        if str_eq_str(s, "SPELL_BUILDING_SUMMON") {
            return Ok(EventType::SpellBuildingSummon);
        }
        if str_eq_str(s, "SPELL_BUILDING_RESURRECT") {
            return Ok(EventType::SpellBuildingResurrect);
        }
        if str_eq_str(s, "SPELL_BUILDING_EMPOWER_START") {
            return Ok(EventType::SpellBuildingEmpowerStart);
        }
        if str_eq_str(s, "SPELL_BUILDING_EMPOWER_END") {
            return Ok(EventType::SpellBuildingEmpowerEnd);
        }
        if str_eq_str(s, "SPELL_BUILDING_EMPOWER_INTERRUPT") {
            return Ok(EventType::SpellBuildingEmpowerInterrupt);
        }
        if str_eq_str(s, "ENVIRONMENTAL_DAMAGE") {
            return Ok(EventType::EnvironmentalDamage);
        }
        if str_eq_str(s, "DAMAGE_SPLIT") {
            return Ok(EventType::DamageSplit);
        }
        if str_eq_str(s, "DAMAGE_SHIELD") {
            return Ok(EventType::DamageShield);
        }
        if str_eq_str(s, "DAMAGE_SHIELD_MISSED") {
            return Ok(EventType::DamageShieldMissed);
        }
        if str_eq_str(s, "ENCHANT_APPLIED") {
            return Ok(EventType::EnchantApplied);
        }
        if str_eq_str(s, "ENCHANT_REMOVED") {
            return Ok(EventType::EnchantRemoved);
        }
        if str_eq_str(s, "PARTY_KILL") {
            return Ok(EventType::PartyKill);
        }
        if str_eq_str(s, "UNIT_DIED") {
            return Ok(EventType::UnitDied);
        }
        if str_eq_str(s, "UNIT_DESTROYED") {
            return Ok(EventType::UnitDestroyed);
        }
        if str_eq_str(s, "UNIT_DISSAPATES") {
            return Ok(EventType::UnitDissapates);
        }
        if str_eq_str(s, "COMBAT_LOG_VERSION") {
            return Ok(EventType::CombatLogVersion);
        }
        if str_eq_str(s, "STAGGER_CLEAR") {
            return Ok(EventType::StaggerClear);
        }
        if str_eq_str(s, "ZONE_CHANGE") {
            return Ok(EventType::ZoneChange);
        }
        if str_eq_str(s, "MAP_CHANGE") {
            return Ok(EventType::MapChange);
        }
        if str_eq_str(s, "ENCOUNTER_START") {
            return Ok(EventType::EncounterStart);
        }
        if str_eq_str(s, "ENCOUNTER_END") {
            return Ok(EventType::EncounterEnd);
        }
        if str_eq_str(s, "COMBATANT_INFO") {
            return Ok(EventType::CombatantInfo);
        }
        if str_eq_str(s, "ARENA_MATCH_START") {
            return Ok(EventType::ArenaMatchStart);
        }
        if str_eq_str(s, "ARENA_MATCH_END") {
            return Ok(EventType::ArenaMatchEnd);
        }
        if str_eq_str(s, "CHALLENGE_MODE_START") {
            return Ok(EventType::ChallengeModeStart);
        }
        if str_eq_str(s, "CHALLENGE_MODE_END") {
            return Ok(EventType::ChallengeModeEnd);
        }
        if str_eq_str(s, "EMOTE") {
            return Ok(EventType::Emote);
        }
        if str_eq_str(s, "WORLD_MARKER_PLACED") {
            return Ok(EventType::WorldMarkerPlaced);
        }
        if str_eq_str(s, "WORLD_MARKER_REMOVED") {
            return Ok(EventType::WorldMarkerRemoved);
        }
        Err(JastorError::UnknownEvent(String::from_str(s)))
    }

    /// The tag text of this event type.
    pub fn label(&self) -> (r: String)
        ensures
            r@ == self.spec_label(),
    {
        match self {
            EventType::SwingDamage => String::from_str("SWING_DAMAGE"),
            EventType::SwingDamageLanded => String::from_str("SWING_DAMAGE_LANDED"),
            EventType::SwingMissed => String::from_str("SWING_MISSED"),
            EventType::RangeDamage => String::from_str("RANGE_DAMAGE"),
            EventType::RangeMissed => String::from_str("RANGE_MISSED"),
            EventType::SpellDamage => String::from_str("SPELL_DAMAGE"),
            EventType::SpellDamageSupport => String::from_str("SPELL_DAMAGE_SUPPORT"),
            EventType::SpellMissed => String::from_str("SPELL_MISSED"),
            EventType::SpellHeal => String::from_str("SPELL_HEAL"),
            EventType::SpellHealSupport => String::from_str("SPELL_HEAL_SUPPORT"),
            EventType::SpellHealAbsorbed => String::from_str("SPELL_HEAL_ABSORBED"),
            EventType::SpellAbsorbed => String::from_str("SPELL_ABSORBED"),
            EventType::SpellEnergize => String::from_str("SPELL_ENERGIZE"),
            EventType::SpellDrain => String::from_str("SPELL_DRAIN"),
            EventType::SpellLeech => String::from_str("SPELL_LEECH"),
            EventType::SpellInterrupt => String::from_str("SPELL_INTERRUPT"),
            EventType::SpellDispel => String::from_str("SPELL_DISPEL"),
            EventType::SpellDispelFailed => String::from_str("SPELL_DISPEL_FAILED"),
            EventType::SpellStolen => String::from_str("SPELL_STOLEN"),
            EventType::SpellExtraAttacks => String::from_str("SPELL_EXTRA_ATTACKS"),
            EventType::SpellAuraApplied => String::from_str("SPELL_AURA_APPLIED"),
            EventType::SpellAuraRemoved => String::from_str("SPELL_AURA_REMOVED"),
            EventType::SpellAuraAppliedDose => String::from_str("SPELL_AURA_APPLIED_DOSE"),
            EventType::SpellAuraRemovedDose => String::from_str("SPELL_AURA_REMOVED_DOSE"),
            EventType::SpellAuraRefresh => String::from_str("SPELL_AURA_REFRESH"),
            EventType::SpellAuraBroken => String::from_str("SPELL_AURA_BROKEN"),
            EventType::SpellAuraBrokenSpell => String::from_str("SPELL_AURA_BROKEN_SPELL"),
            EventType::SpellCastStart => String::from_str("SPELL_CAST_START"),
            EventType::SpellCastSuccess => String::from_str("SPELL_CAST_SUCCESS"),
            EventType::SpellCastFailed => String::from_str("SPELL_CAST_FAILED"),
            EventType::SpellInstaKill => String::from_str("SPELL_INSTAKILL"),
            EventType::SpellDurabilityDamage => String::from_str("SPELL_DURABILITY_DAMAGE"),
            EventType::SpellDurabilityDamageAll => String::from_str("SPELL_DURABILITY_DAMAGE_ALL"),
            EventType::SpellCreate => String::from_str("SPELL_CREATE"),
            EventType::SpellSummon => String::from_str("SPELL_SUMMON"),
            EventType::SpellResurrect => String::from_str("SPELL_RESURRECT"),
            EventType::SpellEmpowerStart => String::from_str("SPELL_EMPOWER_START"),
            EventType::SpellEmpowerEnd => String::from_str("SPELL_EMPOWER_END"),
            EventType::SpellEmpowerInterrupt => String::from_str("SPELL_EMPOWER_INTERRUPT"),
            EventType::SpellPeriodicDamage => String::from_str("SPELL_PERIODIC_DAMAGE"),
            EventType::SpellPeriodicDamageSupport => String::from_str("SPELL_PERIODIC_DAMAGE_SUPPORT"),
            EventType::SpellPeriodicMissed => String::from_str("SPELL_PERIODIC_MISSED"),
            EventType::SpellPeriodicHeal => String::from_str("SPELL_PERIODIC_HEAL"),
            EventType::SpellPeriodicHealSupport => String::from_str("SPELL_PERIODIC_HEAL_SUPPORT"),
            EventType::SpellPeriodicHealAbsorbed => String::from_str("SPELL_PERIODIC_HEAL_ABSORBED"),
            EventType::SpellPeriodicAbsorbed => String::from_str("SPELL_PERIODIC_ABSORBED"),
            EventType::SpellPeriodicEnergize => String::from_str("SPELL_PERIODIC_ENERGIZE"),
            EventType::SpellPeriodicDrain => String::from_str("SPELL_PERIODIC_DRAIN"),
            EventType::SpellPeriodicLeech => String::from_str("SPELL_PERIODIC_LEECH"),
            EventType::SpellPeriodicInterrupt => String::from_str("SPELL_PERIODIC_INTERRUPT"),
            EventType::SpellPeriodicDispel => String::from_str("SPELL_PERIODIC_DISPEL"),
            EventType::SpellPeriodicDispelFailed => String::from_str("SPELL_PERIODIC_DISPEL_FAILED"),
            EventType::SpellPeriodicStolen => String::from_str("SPELL_PERIODIC_STOLEN"),
            EventType::SpellPeriodicExtraAttacks => String::from_str("SPELL_PERIODIC_EXTRA_ATTACKS"),
            EventType::SpellPeriodicAuraApplied => String::from_str("SPELL_PERIODIC_AURA_APPLIED"),
            EventType::SpellPeriodicAuraRemoved => String::from_str("SPELL_PERIODIC_AURA_REMOVED"),
            EventType::SpellPeriodicAuraAppliedDose => String::from_str("SPELL_PERIODIC_AURA_APPLIED_DOSE"),
            EventType::SpellPeriodicAuraRemovedDose => String::from_str("SPELL_PERIODIC_AURA_REMOVED_DOSE"),
            EventType::SpellPeriodicAuraRefresh => String::from_str("SPELL_PERIODIC_AURA_REFRESH"),
            EventType::SpellPeriodicAuraBroken => String::from_str("SPELL_PERIODIC_AURA_BROKEN"),
            EventType::SpellPeriodicAuraBrokenSpell => String::from_str("SPELL_PERIODIC_AURA_BROKEN_SPELL"),
            EventType::SpellPeriodicCastStart => String::from_str("SPELL_PERIODIC_CAST_START"),
            EventType::SpellPeriodicCastSuccess => String::from_str("SPELL_PERIODIC_CAST_SUCCESS"),
            EventType::SpellPeriodicCastFailed => String::from_str("SPELL_PERIODIC_CAST_FAILED"),
            EventType::SpellPeriodicInstaKill => String::from_str("SPELL_PERIODIC_INSTA_KILL"),
            EventType::SpellPeriodicDurabilityDamage => String::from_str("SPELL_PERIODIC_DURABILITY_DAMAGE"),
            EventType::SpellPeriodicDurabilityDamageAll => String::from_str("SPELL_PERIODIC_DURABILITY_DAMAGE_ALL"),
            EventType::SpellPeriodicCreate => String::from_str("SPELL_PERIODIC_CREATE"),
            EventType::SpellPeriodicSummon => String::from_str("SPELL_PERIODIC_SUMMON"),
            EventType::SpellPeriodicResurrect => String::from_str("SPELL_PERIODIC_RESURRECT"),
            EventType::SpellPeriodicEmpowerStart => String::from_str("SPELL_PERIODIC_EMPOWER_START"),
            EventType::SpellPeriodicEmpowerEnd => String::from_str("SPELL_PERIODIC_EMPOWER_END"),
            EventType::SpellPeriodicEmpowerInterrupt => String::from_str("SPELL_PERIODIC_EMPOWER_INTERRUPT"),
            EventType::SpellBuildingDamage => String::from_str("SPELL_BUILDING_DAMAGE"),
            EventType::SpellBuildingMissed => String::from_str("SPELL_BUILDING_MISSED"),
            EventType::SpellBuildingHeal => String::from_str("SPELL_BUILDING_HEAL"),
            EventType::SpellBuildingHealAbsorbed => String::from_str("SPELL_BUILDING_HEAL_ABSORBED"),
            EventType::SpellBuildingAbsorbed => String::from_str("SPELL_BUILDING_ABSORBED"),
            EventType::SpellBuildingEnergize => String::from_str("SPELL_BUILDING_ENERGIZE"),
            EventType::SpellBuildingDrain => String::from_str("SPELL_BUILDING_DRAIN"),
            EventType::SpellBuildingLeech => String::from_str("SPELL_BUILDING_LEECH"),
            EventType::SpellBuildingInterrupt => String::from_str("SPELL_BUILDING_INTERRUPT"),
            EventType::SpellBuildingDispel => String::from_str("SPELL_BUILDING_DISPEL"),
            EventType::SpellBuildingDispelFailed => String::from_str("SPELL_BUILDING_DISPEL_FAILED"),
            EventType::SpellBuildingStolen => String::from_str("SPELL_BUILDING_STOLEN"),
            EventType::SpellBuildingExtraAttacks => String::from_str("SPELL_BUILDING_EXTRA_ATTACKS"),
            EventType::SpellBuildingAuraApplied => String::from_str("SPELL_BUILDING_AURA_APPLIED"),
            EventType::SpellBuildingAuraRemoved => String::from_str("SPELL_BUILDING_AURA_REMOVED"),
            EventType::SpellBuildingAuraAppliedDose => String::from_str("SPELL_BUILDING_AURA_APPLIED_DOSE"),
            EventType::SpellBuildingAuraRemovedDose => String::from_str("SPELL_BUILDING_AURA_REMOVED_DOSE"),
            EventType::SpellBuildingAuraRefresh => String::from_str("SPELL_BUILDING_AURA_REFRESH"),
            EventType::SpellBuildingAuraBroken => String::from_str("SPELL_BUILDING_AURA_BROKEN"),
            EventType::SpellBuildingAuraBrokenSpell => String::from_str("SPELL_BUILDING_AURA_BROKEN_SPELL"),
            EventType::SpellBuildingCastStart => String::from_str("SPELL_BUILDING_CAST_START"),
            EventType::SpellBuildingCastSuccess => String::from_str("SPELL_BUILDING_CAST_SUCCESS"),
            EventType::SpellBuildingCastFailed => String::from_str("SPELL_BUILDING_CAST_FAILED"),
            EventType::SpellBuildingInstaKill => String::from_str("SPELL_BUILDING_INSTA_KILL"),
            EventType::SpellBuildingDurabilityDamage => String::from_str("SPELL_BUILDING_DURABILITY_DAMAGE"),
            EventType::SpellBuildingDurabilityDamageAll => String::from_str("SPELL_BUILDING_DURABILITY_DAMAGE_ALL"),
            EventType::SpellBuildingCreate => String::from_str("SPELL_BUILDING_CREATE"),
            EventType::SpellBuildingSummon => String::from_str("SPELL_BUILDING_SUMMON"),
            EventType::SpellBuildingResurrect => String::from_str("SPELL_BUILDING_RESURRECT"),
            EventType::SpellBuildingEmpowerStart => String::from_str("SPELL_BUILDING_EMPOWER_START"),
            EventType::SpellBuildingEmpowerEnd => String::from_str("SPELL_BUILDING_EMPOWER_END"),
            EventType::SpellBuildingEmpowerInterrupt => String::from_str("SPELL_BUILDING_EMPOWER_INTERRUPT"),
            EventType::EnvironmentalDamage => String::from_str("ENVIRONMENTAL_DAMAGE"),
            EventType::DamageSplit => String::from_str("DAMAGE_SPLIT"),
            EventType::DamageShield => String::from_str("DAMAGE_SHIELD"),
            EventType::DamageShieldMissed => String::from_str("DAMAGE_SHIELD_MISSED"),
            EventType::EnchantApplied => String::from_str("ENCHANT_APPLIED"),
            EventType::EnchantRemoved => String::from_str("ENCHANT_REMOVED"),
            EventType::PartyKill => String::from_str("PARTY_KILL"),
            EventType::UnitDied => String::from_str("UNIT_DIED"),
            EventType::UnitDestroyed => String::from_str("UNIT_DESTROYED"),
            EventType::UnitDissapates => String::from_str("UNIT_DISSAPATES"),
            EventType::CombatLogVersion => String::from_str("COMBAT_LOG_VERSION"),
            EventType::StaggerClear => String::from_str("STAGGER_CLEAR"),
            EventType::ZoneChange => String::from_str("ZONE_CHANGE"),
            EventType::MapChange => String::from_str("MAP_CHANGE"),
            EventType::EncounterStart => String::from_str("ENCOUNTER_START"),
            EventType::EncounterEnd => String::from_str("ENCOUNTER_END"),
            EventType::CombatantInfo => String::from_str("COMBATANT_INFO"),
            EventType::ArenaMatchStart => String::from_str("ARENA_MATCH_START"),
            EventType::ArenaMatchEnd => String::from_str("ARENA_MATCH_END"),
            EventType::ChallengeModeStart => String::from_str("CHALLENGE_MODE_START"),
            EventType::ChallengeModeEnd => String::from_str("CHALLENGE_MODE_END"),
            EventType::Emote => String::from_str("EMOTE"),
            EventType::WorldMarkerPlaced => String::from_str("WORLD_MARKER_PLACED"),
            EventType::WorldMarkerRemoved => String::from_str("WORLD_MARKER_REMOVED"),
        }
    }

    /// Whether this tag is recognized but deliberately left undecoded:
    /// callers are expected to skip such lines rather than treat them as
    /// failures.
    pub open spec fn spec_skip(self) -> bool {
        self is Emote || self is CombatantInfo
    }

    pub fn skip(&self) -> (r: bool)
        ensures
            r == self.spec_skip(),
    {
        matches!(self, EventType::Emote | EventType::CombatantInfo)
    }

    /// How many prefix fields follow the base window for this tag: three
    /// for spell-style tags (spell id, name, school), one for
    /// environmental damage (the environment name), none for melee-style
    /// and short-form tags.
    pub open spec fn spec_prefix_parameters(self) -> nat {
        match self {
            EventType::EnvironmentalDamage => 1,
            EventType::SwingDamage
            | EventType::SwingDamageLanded
            | EventType::SwingMissed
            | EventType::RangeDamage
            | EventType::RangeMissed
            | EventType::EnchantApplied
            | EventType::EnchantRemoved
            | EventType::PartyKill
            | EventType::UnitDied
            | EventType::UnitDestroyed
            | EventType::UnitDissapates
            | EventType::CombatLogVersion
            | EventType::StaggerClear
            | EventType::ZoneChange
            | EventType::MapChange
            | EventType::EncounterStart
            | EventType::EncounterEnd
            | EventType::CombatantInfo
            | EventType::ArenaMatchStart
            | EventType::ArenaMatchEnd
            | EventType::ChallengeModeStart
            | EventType::ChallengeModeEnd
            | EventType::Emote
            | EventType::WorldMarkerPlaced
            | EventType::WorldMarkerRemoved => 0,
            _ => 3,
        }
    }

    pub fn prefix_parameters(&self) -> (r: usize)
        ensures
            r as nat == self.spec_prefix_parameters(),
    {
        match self {
            EventType::EnvironmentalDamage => 1,
            EventType::SwingDamage
            | EventType::SwingDamageLanded
            | EventType::SwingMissed
            | EventType::RangeDamage
            | EventType::RangeMissed
            | EventType::EnchantApplied
            | EventType::EnchantRemoved
            | EventType::PartyKill
            | EventType::UnitDied
            | EventType::UnitDestroyed
            | EventType::UnitDissapates
            | EventType::CombatLogVersion
            | EventType::StaggerClear
            | EventType::ZoneChange
            | EventType::MapChange
            | EventType::EncounterStart
            | EventType::EncounterEnd
            | EventType::CombatantInfo
            | EventType::ArenaMatchStart
            | EventType::ArenaMatchEnd
            | EventType::ChallengeModeStart
            | EventType::ChallengeModeEnd
            | EventType::Emote
            | EventType::WorldMarkerPlaced
            | EventType::WorldMarkerRemoved => 0,
            _ => 3,
        }
    }

    /// Whether this tag bypasses the base/prefix/advanced/suffix layout
    /// and indexes its fields directly from the start of the token list.
    pub open spec fn spec_has_short_parameters(self) -> bool {
        match self {
            EventType::CombatLogVersion
            | EventType::StaggerClear
            | EventType::ArenaMatchStart
            | EventType::ArenaMatchEnd
            | EventType::EncounterStart
            | EventType::EncounterEnd
            | EventType::ChallengeModeStart
            | EventType::ChallengeModeEnd
            | EventType::WorldMarkerPlaced
            | EventType::WorldMarkerRemoved
            | EventType::MapChange
            | EventType::ZoneChange => true,
            _ => false,
        }
    }

    pub fn has_short_parameters(&self) -> (r: bool)
        ensures
            r == self.spec_has_short_parameters(),
    {
        match self {
            EventType::CombatLogVersion
            | EventType::StaggerClear
            | EventType::ArenaMatchStart
            | EventType::ArenaMatchEnd
            | EventType::EncounterStart
            | EventType::EncounterEnd
            | EventType::ChallengeModeStart
            | EventType::ChallengeModeEnd
            | EventType::WorldMarkerPlaced
            | EventType::WorldMarkerRemoved
            | EventType::MapChange
            | EventType::ZoneChange => true,
            _ => false,
        }
    }

    /// Whether this tag's layout carries the fixed unit-state snapshot
    /// block between the prefix and suffix windows: exactly the
    /// spell-style tags do.
    pub open spec fn spec_has_advanced_parameters(self) -> bool {
        self.spec_prefix_parameters() == 3
    }

    pub fn has_advanced_parameters(&self) -> (r: bool)
        ensures
            r == self.spec_has_advanced_parameters(),
    {
        self.prefix_parameters() == 3
    }
}

/// The school of a spell, decoded from its wire id.  An id outside the
/// known set is kept in the fallback arm rather than discarded.
#[derive(Debug, Copy, Clone, PartialEq, Eq, Structural)]
pub enum SpellSchool {
    Physical,
    Holy,
    Fire,
    Nature,
    Frost,
    Shadow,
    Arcane,
    Holystrike,
    Flamestrike,
    Radiant,
    Stormstrike,
    Holystorm,
    Volcanic,
    Froststrike,
    Holyfrost,
    Frostfire,
    Froststorm,
    Shadowstrike,
    Twilight,
    Shadowflame,
    Plague,
    Shadowfrost,
    Spellstrike,
    Divine,
    Spellfire,
    Astral,
    Spellfrost,
    Spellshadow,
    Elemental,
    Chromatic,
    Cosmic,
    LimitedChaos,
    Magic,
    Chaos,
    Unknown(u8),
}

impl SpellSchool {
    /// The school a wire id names.
    pub open spec fn spec_from_u8(value: u8) -> SpellSchool {
        if value == 1 {
            SpellSchool::Physical
        } else if value == 2 {
            SpellSchool::Holy
        } else if value == 4 {
            SpellSchool::Fire
        } else if value == 8 {
            SpellSchool::Nature
        } else if value == 16 {
            SpellSchool::Frost
        } else if value == 32 {
            SpellSchool::Shadow
        } else if value == 64 {
            SpellSchool::Arcane
        } else if value == 3 {
            SpellSchool::Holystrike
        } else if value == 5 {
            SpellSchool::Flamestrike
        } else if value == 6 {
            SpellSchool::Radiant
        } else if value == 9 {
            SpellSchool::Stormstrike
        } else if value == 10 {
            SpellSchool::Holystorm
        } else if value == 12 {
            SpellSchool::Volcanic
        } else if value == 17 {
            SpellSchool::Froststrike
        } else if value == 18 {
            SpellSchool::Holyfrost
        } else if value == 20 {
            SpellSchool::Frostfire
        } else if value == 24 {
            SpellSchool::Froststorm
        } else if value == 33 {
            SpellSchool::Shadowstrike
        } else if value == 34 {
            SpellSchool::Twilight
        } else if value == 36 {
            SpellSchool::Shadowflame
        } else if value == 40 {
            SpellSchool::Plague
        } else if value == 48 {
            SpellSchool::Shadowfrost
        } else if value == 65 {
            SpellSchool::Spellstrike
        } else if value == 66 {
            SpellSchool::Divine
        } else if value == 68 {
            SpellSchool::Spellfire
        } else if value == 72 {
            SpellSchool::Astral
        } else if value == 80 {
            SpellSchool::Spellfrost
        } else if value == 96 {
            SpellSchool::Spellshadow
        } else if value == 28 {
            SpellSchool::Elemental
        } else if value == 62 {
            SpellSchool::Chromatic
        } else if value == 106 {
            SpellSchool::Cosmic
        } else if value == 124 {
            SpellSchool::LimitedChaos
        } else if value == 126 {
            SpellSchool::Magic
        } else if value == 127 {
            SpellSchool::Chaos
        } else {
            SpellSchool::Unknown(value)
        }
    }

    pub fn from_u8(value: u8) -> (r: SpellSchool)
        ensures
            r == SpellSchool::spec_from_u8(value),
    {
        match value {
            1 => SpellSchool::Physical,
            2 => SpellSchool::Holy,
            4 => SpellSchool::Fire,
            8 => SpellSchool::Nature,
            16 => SpellSchool::Frost,
            32 => SpellSchool::Shadow,
            64 => SpellSchool::Arcane,
            3 => SpellSchool::Holystrike,
            5 => SpellSchool::Flamestrike,
            6 => SpellSchool::Radiant,
            9 => SpellSchool::Stormstrike,
            10 => SpellSchool::Holystorm,
            12 => SpellSchool::Volcanic,
            17 => SpellSchool::Froststrike,
            18 => SpellSchool::Holyfrost,
            20 => SpellSchool::Frostfire,
            24 => SpellSchool::Froststorm,
            33 => SpellSchool::Shadowstrike,
            34 => SpellSchool::Twilight,
            36 => SpellSchool::Shadowflame,
            40 => SpellSchool::Plague,
            48 => SpellSchool::Shadowfrost,
            65 => SpellSchool::Spellstrike,
            66 => SpellSchool::Divine,
            68 => SpellSchool::Spellfire,
            72 => SpellSchool::Astral,
            80 => SpellSchool::Spellfrost,
            96 => SpellSchool::Spellshadow,
            28 => SpellSchool::Elemental,
            62 => SpellSchool::Chromatic,
            106 => SpellSchool::Cosmic,
            124 => SpellSchool::LimitedChaos,
            126 => SpellSchool::Magic,
            127 => SpellSchool::Chaos,
            _ => SpellSchool::Unknown(value),
        }
    }

    /// The wire id of this school.
    pub open spec fn spec_as_u8(self) -> u8 {
        match self {
            SpellSchool::Physical => 1,
            SpellSchool::Holy => 2,
            SpellSchool::Fire => 4,
            SpellSchool::Nature => 8,
            SpellSchool::Frost => 16,
            SpellSchool::Shadow => 32,
            SpellSchool::Arcane => 64,
            SpellSchool::Holystrike => 3,
            SpellSchool::Flamestrike => 5,
            SpellSchool::Radiant => 6,
            SpellSchool::Stormstrike => 9,
            SpellSchool::Holystorm => 10,
            SpellSchool::Volcanic => 12,
            SpellSchool::Froststrike => 17,
            SpellSchool::Holyfrost => 18,
            SpellSchool::Frostfire => 20,
            SpellSchool::Froststorm => 24,
            SpellSchool::Shadowstrike => 33,
            SpellSchool::Twilight => 34,
            SpellSchool::Shadowflame => 36,
            SpellSchool::Plague => 40,
            SpellSchool::Shadowfrost => 48,
            SpellSchool::Spellstrike => 65,
            SpellSchool::Divine => 66,
            SpellSchool::Spellfire => 68,
            SpellSchool::Astral => 72,
            SpellSchool::Spellfrost => 80,
            SpellSchool::Spellshadow => 96,
            SpellSchool::Elemental => 28,
            SpellSchool::Chromatic => 62,
            SpellSchool::Cosmic => 106,
            SpellSchool::LimitedChaos => 124,
            SpellSchool::Magic => 126,
            SpellSchool::Chaos => 127,
            SpellSchool::Unknown(val) => val,
        }
    }

    pub fn as_u8(&self) -> (r: u8)
        ensures
            r == self.spec_as_u8(),
    {
        match self {
            SpellSchool::Physical => 1,
            SpellSchool::Holy => 2,
            SpellSchool::Fire => 4,
            SpellSchool::Nature => 8,
            SpellSchool::Frost => 16,
            SpellSchool::Shadow => 32,
            SpellSchool::Arcane => 64,
            SpellSchool::Holystrike => 3,
            SpellSchool::Flamestrike => 5,
            SpellSchool::Radiant => 6,
            SpellSchool::Stormstrike => 9,
            SpellSchool::Holystorm => 10,
            SpellSchool::Volcanic => 12,
            SpellSchool::Froststrike => 17,
            SpellSchool::Holyfrost => 18,
            SpellSchool::Frostfire => 20,
            SpellSchool::Froststorm => 24,
            SpellSchool::Shadowstrike => 33,
            SpellSchool::Twilight => 34,
            SpellSchool::Shadowflame => 36,
            SpellSchool::Plague => 40,
            SpellSchool::Shadowfrost => 48,
            SpellSchool::Spellstrike => 65,
            SpellSchool::Divine => 66,
            SpellSchool::Spellfire => 68,
            SpellSchool::Astral => 72,
            SpellSchool::Spellfrost => 80,
            SpellSchool::Spellshadow => 96,
            SpellSchool::Elemental => 28,
            SpellSchool::Chromatic => 62,
            SpellSchool::Cosmic => 106,
            SpellSchool::LimitedChaos => 124,
            SpellSchool::Magic => 126,
            SpellSchool::Chaos => 127,
            SpellSchool::Unknown(val) => *val,
        }
    }
}

/// The kind of power resource a unit spends or gains.  An unknown wire id
/// falls back to mana.
#[derive(Debug, Copy, Clone, PartialEq, Eq, Structural)]
pub enum PowerType {
    Mana,
    Rage,
    Focus,
    Energy,
    ComboPoints,
    Runes,
    RunicPower,
    SoulShards,
    LunarPower,
    HolyPower,
    Alternate,
    Maelstrom,
    Chi,
    Insanity,
    BurningEmbers,
    DemonicFury,
    ArcaneCharges,
    Fury,
    Pain,
    Essence,
    RuneBlood,
    RuneFrost,
    RuneUnholy,
    AlternateQuest,
    AlternateEncounter,
    AlternateMount,
    Balance,
    Happiness,
    ShadowOrbs,
    RuneChromatic,
}

impl PowerType {
    /// The power type a wire id names; ids outside the table mean mana.
    pub open spec fn spec_from_u8(value: u8) -> PowerType {
        if value == 0 {
            PowerType::Mana
        } else if value == 1 {
            PowerType::Rage
        } else if value == 2 {
            PowerType::Focus
        } else if value == 3 {
            PowerType::Energy
        } else if value == 4 {
            PowerType::ComboPoints
        } else if value == 5 {
            PowerType::Runes
        } else if value == 6 {
            PowerType::RunicPower
        } else if value == 7 {
            PowerType::SoulShards
        } else if value == 8 {
            PowerType::LunarPower
        } else if value == 9 {
            PowerType::HolyPower
        } else if value == 10 {
            PowerType::Alternate
        } else if value == 11 {
            PowerType::Maelstrom
        } else if value == 12 {
            PowerType::Chi
        } else if value == 13 {
            PowerType::Insanity
        } else if value == 14 {
            PowerType::BurningEmbers
        } else if value == 15 {
            PowerType::DemonicFury
        } else if value == 16 {
            PowerType::ArcaneCharges
        } else if value == 17 {
            PowerType::Fury
        } else if value == 18 {
            PowerType::Pain
        } else if value == 19 {
            PowerType::Essence
        } else if value == 20 {
            PowerType::RuneBlood
        } else if value == 21 {
            PowerType::RuneFrost
        } else if value == 22 {
            PowerType::RuneUnholy
        } else if value == 23 {
            PowerType::AlternateQuest
        } else if value == 24 {
            PowerType::AlternateEncounter
        } else if value == 25 {
            PowerType::AlternateMount
        } else if value == 26 {
            PowerType::Balance
        } else if value == 27 {
            PowerType::Happiness
        } else if value == 28 {
            PowerType::ShadowOrbs
        } else if value == 29 {
            PowerType::RuneChromatic
        } else {
            PowerType::Mana
        }
    }

    pub fn from_u8(value: u8) -> (r: PowerType)
        ensures
            r == PowerType::spec_from_u8(value),
    {
        match value {
            0 => PowerType::Mana,
            1 => PowerType::Rage,
            2 => PowerType::Focus,
            3 => PowerType::Energy,
            4 => PowerType::ComboPoints,
            5 => PowerType::Runes,
            6 => PowerType::RunicPower,
            7 => PowerType::SoulShards,
            8 => PowerType::LunarPower,
            9 => PowerType::HolyPower,
            10 => PowerType::Alternate,
            11 => PowerType::Maelstrom,
            12 => PowerType::Chi,
            13 => PowerType::Insanity,
            14 => PowerType::BurningEmbers,
            15 => PowerType::DemonicFury,
            16 => PowerType::ArcaneCharges,
            17 => PowerType::Fury,
            18 => PowerType::Pain,
            19 => PowerType::Essence,
            20 => PowerType::RuneBlood,
            21 => PowerType::RuneFrost,
            22 => PowerType::RuneUnholy,
            23 => PowerType::AlternateQuest,
            24 => PowerType::AlternateEncounter,
            25 => PowerType::AlternateMount,
            26 => PowerType::Balance,
            27 => PowerType::Happiness,
            28 => PowerType::ShadowOrbs,
            29 => PowerType::RuneChromatic,
            _ => PowerType::Mana,
        }
    }
}

/// Why an attack or spell failed to land.
#[derive(Debug, Copy, Clone, PartialEq, Eq, Structural)]
pub enum MissType {
    Absorb,
    Block,
    Deflect,
    Dodge,
    Evade,
    Immune,
    Miss,
    Parry,
    Reflect,
    Resist,
}

impl MissType {
    /// The MissType a wire text names, if it is a known one.
    pub open spec fn spec_of_str(s: Seq<char>) -> Option<MissType> {
        if s == "ABSORB"@ {
            Some(MissType::Absorb)
        } else if s == "BLOCK"@ {
            Some(MissType::Block)
        } else if s == "DEFLECT"@ {
            Some(MissType::Deflect)
        } else if s == "DODGE"@ {
            Some(MissType::Dodge)
        } else if s == "EVADE"@ {
            Some(MissType::Evade)
        } else if s == "IMMUNE"@ {
            Some(MissType::Immune)
        } else if s == "MISS"@ {
            Some(MissType::Miss)
        } else if s == "PARRY"@ {
            Some(MissType::Parry)
        } else if s == "REFLECT"@ {
            Some(MissType::Reflect)
        } else if s == "RESIST"@ {
            Some(MissType::Resist)
        } else {
            None
        }
    }

    pub fn from_str(s: &str) -> (r: Result<MissType, JastorError>)
        ensures
            match r {
                Ok(v) => MissType::spec_of_str(s@) == Some(v),
                Err(e) => MissType::spec_of_str(s@) is None && (e matches
                    JastorError::UnknownValue(m) && m@ == "MissType: "@ + s@),
            },
    {
        if str_eq_str(s, "ABSORB") {
            return Ok(MissType::Absorb);
        }
        if str_eq_str(s, "BLOCK") {
            return Ok(MissType::Block);
        }
        if str_eq_str(s, "DEFLECT") {
            return Ok(MissType::Deflect);
        }
        if str_eq_str(s, "DODGE") {
            return Ok(MissType::Dodge);
        }
        if str_eq_str(s, "EVADE") {
            return Ok(MissType::Evade);
        }
        if str_eq_str(s, "IMMUNE") {
            return Ok(MissType::Immune);
        }
        if str_eq_str(s, "MISS") {
            return Ok(MissType::Miss);
        }
        if str_eq_str(s, "PARRY") {
            return Ok(MissType::Parry);
        }
        if str_eq_str(s, "REFLECT") {
            return Ok(MissType::Reflect);
        }
        if str_eq_str(s, "RESIST") {
            return Ok(MissType::Resist);
        }
        let mut m = String::from_str("MissType: ");
        m.append(s);
        Err(JastorError::UnknownValue(m))
    }

    /// The wire text of this value.
    pub open spec fn spec_label(self) -> Seq<char> {
        match self {
            MissType::Absorb => "ABSORB"@,
            MissType::Block => "BLOCK"@,
            MissType::Deflect => "DEFLECT"@,
            MissType::Dodge => "DODGE"@,
            MissType::Evade => "EVADE"@,
            MissType::Immune => "IMMUNE"@,
            MissType::Miss => "MISS"@,
            MissType::Parry => "PARRY"@,
            MissType::Reflect => "REFLECT"@,
            MissType::Resist => "RESIST"@,
        }
    }

    pub fn label(&self) -> (r: String)
        ensures
            r@ == self.spec_label(),
    {
        match self {
            MissType::Absorb => String::from_str("ABSORB"),
            MissType::Block => String::from_str("BLOCK"),
            MissType::Deflect => String::from_str("DEFLECT"),
            MissType::Dodge => String::from_str("DODGE"),
            MissType::Evade => String::from_str("EVADE"),
            MissType::Immune => String::from_str("IMMUNE"),
            MissType::Miss => String::from_str("MISS"),
            MissType::Parry => String::from_str("PARRY"),
            MissType::Reflect => String::from_str("REFLECT"),
            MissType::Resist => String::from_str("RESIST"),
        }
    }
}

/// Whether an aura helps or harms its bearer.
#[derive(Debug, Copy, Clone, PartialEq, Eq, Structural)]
pub enum AuraType {
    Buff,
    Debuff,
}

impl AuraType {
    /// The AuraType a wire text names, if it is a known one.
    pub open spec fn spec_of_str(s: Seq<char>) -> Option<AuraType> {
        if s == "BUFF"@ {
            Some(AuraType::Buff)
        } else if s == "DEBUFF"@ {
            Some(AuraType::Debuff)
        } else {
            None
        }
    }

    pub fn from_str(s: &str) -> (r: Result<AuraType, JastorError>)
        ensures
            match r {
                Ok(v) => AuraType::spec_of_str(s@) == Some(v),
                Err(e) => AuraType::spec_of_str(s@) is None && (e matches
                    JastorError::UnknownValue(m) && m@ == "AuraType: "@ + s@),
            },
    {
        if str_eq_str(s, "BUFF") {
            return Ok(AuraType::Buff);
        }
        if str_eq_str(s, "DEBUFF") {
            return Ok(AuraType::Debuff);
        }
        let mut m = String::from_str("AuraType: ");
        m.append(s);
        Err(JastorError::UnknownValue(m))
    }

    /// The wire text of this value.
    pub open spec fn spec_label(self) -> Seq<char> {
        match self {
            AuraType::Buff => "BUFF"@,
            AuraType::Debuff => "DEBUFF"@,
        }
    }

    pub fn label(&self) -> (r: String)
        ensures
            r@ == self.spec_label(),
    {
        match self {
            AuraType::Buff => String::from_str("BUFF"),
            AuraType::Debuff => String::from_str("DEBUFF"),
        }
    }
}

/// The kind of environmental damage.
#[derive(Debug, Copy, Clone, PartialEq, Eq, Structural)]
pub enum EnvironmentalType {
    Drowning,
    Falling,
    Fatigue,
    Fire,
    Lava,
    Slime,
}

impl EnvironmentalType {
    /// The EnvironmentalType a wire text names, if it is a known one.
    pub open spec fn spec_of_str(s: Seq<char>) -> Option<EnvironmentalType> {
        if s == "Drowning"@ {
            Some(EnvironmentalType::Drowning)
        } else if s == "Falling"@ {
            Some(EnvironmentalType::Falling)
        } else if s == "Fatigue"@ {
            Some(EnvironmentalType::Fatigue)
        } else if s == "Fire"@ {
            Some(EnvironmentalType::Fire)
        } else if s == "Lava"@ {
            Some(EnvironmentalType::Lava)
        } else if s == "Slime"@ {
            Some(EnvironmentalType::Slime)
        } else {
            None
        }
    }

    pub fn from_str(s: &str) -> (r: Result<EnvironmentalType, JastorError>)
        ensures
            match r {
                Ok(v) => EnvironmentalType::spec_of_str(s@) == Some(v),
                Err(e) => EnvironmentalType::spec_of_str(s@) is None && (e matches
                    JastorError::UnknownValue(m) && m@ == "EnvironmentalType: "@ + s@),
            },
    {
        if str_eq_str(s, "Drowning") {
            return Ok(EnvironmentalType::Drowning);
        }
        if str_eq_str(s, "Falling") {
            return Ok(EnvironmentalType::Falling);
        }
        if str_eq_str(s, "Fatigue") {
            return Ok(EnvironmentalType::Fatigue);
        }
        if str_eq_str(s, "Fire") {
            return Ok(EnvironmentalType::Fire);
        }
        if str_eq_str(s, "Lava") {
            return Ok(EnvironmentalType::Lava);
        }
        if str_eq_str(s, "Slime") {
            return Ok(EnvironmentalType::Slime);
        }
        let mut m = String::from_str("EnvironmentalType: ");
        m.append(s);
        Err(JastorError::UnknownValue(m))
    }

    /// The wire text of this value.
    pub open spec fn spec_label(self) -> Seq<char> {
        match self {
            EnvironmentalType::Drowning => "Drowning"@,
            EnvironmentalType::Falling => "Falling"@,
            EnvironmentalType::Fatigue => "Fatigue"@,
            EnvironmentalType::Fire => "Fire"@,
            EnvironmentalType::Lava => "Lava"@,
            EnvironmentalType::Slime => "Slime"@,
        }
    }

    pub fn label(&self) -> (r: String)
        ensures
            r@ == self.spec_label(),
    {
        match self {
            EnvironmentalType::Drowning => String::from_str("Drowning"),
            EnvironmentalType::Falling => String::from_str("Falling"),
            EnvironmentalType::Fatigue => String::from_str("Fatigue"),
            EnvironmentalType::Fire => String::from_str("Fire"),
            EnvironmentalType::Lava => String::from_str("Lava"),
            EnvironmentalType::Slime => String::from_str("Slime"),
        }
    }
}

/// A keystone affix, decoded from its wire id.  An id outside the known
/// set is kept in the fallback arm rather than discarded.
#[derive(Debug, Copy, Clone, PartialEq, Eq, Structural)]
pub enum Affix {
    Overflowing,
    Skittish,
    Volcanic,
    Necrotic,
    Teeming,
    Raging,
    Bolstering,
    Sanguine,
    Tyrannical,
    Fortified,
    Bursting,
    Grievous,
    Explosive,
    Quaking,
    Infested,
    Reaping,
    Beguiling,
    Awakened,
    Prideful,
    Inspiring,
    Spiteful,
    Storming,
    Tormented,
    Infernal,
    Encrypted,
    Shrouded,
    Thundering,
    Focused,
    Entangling,
    Afflicted,
    Incorporeal,
    Shielding,
    Thorned,
    Reckless,
    Attuned,
    XalGuile,
    XalBargainAscendant,
    ChallengerPeril,
    XalBargainFrenzied,
    XalBargainVoidbound,
    XalBargainOblivion,
    XalBargainDevour,
    XalBargainPulsar,
    Unknown(u16),
}

impl Affix {
    /// The affix a wire id names.
    pub open spec fn spec_from_u16(value: u16) -> Affix {
        if value == 1 {
            Affix::Overflowing
        } else if value == 2 {
            Affix::Skittish
        } else if value == 3 {
            Affix::Volcanic
        } else if value == 4 {
            Affix::Necrotic
        } else if value == 5 {
            Affix::Teeming
        } else if value == 6 {
            Affix::Raging
        } else if value == 7 {
            Affix::Bolstering
        } else if value == 8 {
            Affix::Sanguine
        } else if value == 9 {
            Affix::Tyrannical
        } else if value == 10 {
            Affix::Fortified
        } else if value == 11 {
            Affix::Bursting
        } else if value == 12 {
            Affix::Grievous
        } else if value == 13 {
            Affix::Explosive
        } else if value == 14 {
            Affix::Quaking
        } else if value == 16 {
            Affix::Infested
        } else if value == 117 {
            Affix::Reaping
        } else if value == 119 {
            Affix::Beguiling
        } else if value == 120 {
            Affix::Awakened
        } else if value == 121 {
            Affix::Prideful
        } else if value == 122 {
            Affix::Inspiring
        } else if value == 123 {
            Affix::Spiteful
        } else if value == 124 {
            Affix::Storming
        } else if value == 128 {
            Affix::Tormented
        } else if value == 129 {
            Affix::Infernal
        } else if value == 130 {
            Affix::Encrypted
        } else if value == 131 {
            Affix::Shrouded
        } else if value == 132 {
            Affix::Thundering
        } else if value == 133 {
            Affix::Focused
        } else if value == 134 {
            Affix::Entangling
        } else if value == 135 {
            Affix::Afflicted
        } else if value == 136 {
            Affix::Incorporeal
        } else if value == 137 {
            Affix::Shielding
        } else if value == 144 {
            Affix::Thorned
        } else if value == 145 {
            Affix::Reckless
        } else if value == 146 {
            Affix::Attuned
        } else if value == 147 {
            Affix::XalGuile
        } else if value == 148 {
            Affix::XalBargainAscendant
        } else if value == 152 {
            Affix::ChallengerPeril
        } else if value == 153 {
            Affix::XalBargainFrenzied
        } else if value == 158 {
            Affix::XalBargainVoidbound
        } else if value == 159 {
            Affix::XalBargainOblivion
        } else if value == 160 {
            Affix::XalBargainDevour
        } else if value == 162 {
            Affix::XalBargainPulsar
        } else {
            Affix::Unknown(value)
        }
    }

    pub fn from_u16(value: u16) -> (r: Affix)
        ensures
            r == Affix::spec_from_u16(value),
    {
        match value {
            1 => Affix::Overflowing,
            2 => Affix::Skittish,
            3 => Affix::Volcanic,
            4 => Affix::Necrotic,
            5 => Affix::Teeming,
            6 => Affix::Raging,
            7 => Affix::Bolstering,
            8 => Affix::Sanguine,
            9 => Affix::Tyrannical,
            10 => Affix::Fortified,
            11 => Affix::Bursting,
            12 => Affix::Grievous,
            13 => Affix::Explosive,
            14 => Affix::Quaking,
            16 => Affix::Infested,
            117 => Affix::Reaping,
            119 => Affix::Beguiling,
            120 => Affix::Awakened,
            121 => Affix::Prideful,
            122 => Affix::Inspiring,
            123 => Affix::Spiteful,
            124 => Affix::Storming,
            128 => Affix::Tormented,
            129 => Affix::Infernal,
            130 => Affix::Encrypted,
            131 => Affix::Shrouded,
            132 => Affix::Thundering,
            133 => Affix::Focused,
            134 => Affix::Entangling,
            135 => Affix::Afflicted,
            136 => Affix::Incorporeal,
            137 => Affix::Shielding,
            144 => Affix::Thorned,
            145 => Affix::Reckless,
            146 => Affix::Attuned,
            147 => Affix::XalGuile,
            148 => Affix::XalBargainAscendant,
            152 => Affix::ChallengerPeril,
            153 => Affix::XalBargainFrenzied,
            158 => Affix::XalBargainVoidbound,
            159 => Affix::XalBargainOblivion,
            160 => Affix::XalBargainDevour,
            162 => Affix::XalBargainPulsar,
            _ => Affix::Unknown(value),
        }
    }
}

} // verus!

verus! {

impl Affix {
    /// The human-readable name of this affix.  The fallback arm's label
    /// carries the unrecognized id, rendered in decimal.
    pub open spec fn spec_label(self) -> Seq<char> {
        match self {
            Affix::Overflowing => "Affix: \"Overflowing\""@,
            Affix::Skittish => "Affix: \"Skittish\""@,
            Affix::Volcanic => "Affix: \"Volcanic\""@,
            Affix::Necrotic => "Affix: \"Necrotic\""@,
            Affix::Teeming => "Affix: \"Teeming\""@,
            Affix::Raging => "Affix: \"Raging\""@,
            Affix::Bolstering => "Affix: \"Bolstering\""@,
            Affix::Sanguine => "Affix: \"Sanguine\""@,
            Affix::Tyrannical => "Affix: \"Tyrannical\""@,
            Affix::Fortified => "Affix: \"Fortified\""@,
            Affix::Bursting => "Affix: \"Bursting\""@,
            Affix::Grievous => "Affix: \"Grievous\""@,
            Affix::Explosive => "Affix: \"Explosive\""@,
            Affix::Quaking => "Affix: \"Quaking\""@,
            Affix::Infested => "Affix: \"Infested\""@,
            Affix::Reaping => "Affix: \"Reaping\""@,
            Affix::Beguiling => "Affix: \"Beguiling\""@,
            Affix::Awakened => "Affix: \"Awakened\""@,
            Affix::Prideful => "Affix: \"Prideful\""@,
            Affix::Inspiring => "Affix: \"Inspiring\""@,
            Affix::Spiteful => "Affix: \"Spiteful\""@,
            Affix::Storming => "Affix: \"Storming\""@,
            Affix::Tormented => "Affix: \"Tormented\""@,
            Affix::Infernal => "Affix: \"Infernal\""@,
            Affix::Encrypted => "Affix: \"Encrypted\""@,
            Affix::Shrouded => "Affix: \"Shrouded\""@,
            Affix::Thundering => "Affix: \"Thundering\""@,
            Affix::Focused => "Affix: \"Focused\""@,
            Affix::Entangling => "Affix: \"Entangling\""@,
            Affix::Afflicted => "Affix: \"Afflicted\""@,
            Affix::Incorporeal => "Affix: \"Incorporeal\""@,
            Affix::Shielding => "Affix: \"Shielding\""@,
            Affix::Thorned => "Affix: \"Thorned\""@,
            Affix::Reckless => "Affix: \"Reckless\""@,
            Affix::Attuned => "Affix: \"Attuned\""@,
            Affix::XalGuile => "Affix: \"Xal'atath's Guile\""@,
            Affix::XalBargainAscendant => "Affix: \"Xal'atath's Bargain: Ascendant\""@,
            Affix::ChallengerPeril => "Affix: \"Challenger's Peril\""@,
            Affix::XalBargainFrenzied => "Affix: \"Xal'atath's Bargain: Frenzied\""@,
            Affix::XalBargainVoidbound => "Affix: \"Xal'atath's Bargain: Voidbound\""@,
            Affix::XalBargainOblivion => "Affix: \"Xal'atath's Bargain: Oblivion\""@,
            Affix::XalBargainDevour => "Affix: \"Xal'atath's Bargain: Devour\""@,
            Affix::XalBargainPulsar => "Affix: \"Xal'atath's Bargain: Pulser\""@,
            Affix::Unknown(value) => "Unknown affix id: "@
                + crate::util::param_handler::spec_u64_dec(value as nat),
        }
    }

    pub fn label(&self) -> (r: String)
        ensures
            r@ == self.spec_label(),
    {
        match self {
            Affix::Overflowing => String::from_str("Affix: \"Overflowing\""),
            Affix::Skittish => String::from_str("Affix: \"Skittish\""),
            Affix::Volcanic => String::from_str("Affix: \"Volcanic\""),
            Affix::Necrotic => String::from_str("Affix: \"Necrotic\""),
            Affix::Teeming => String::from_str("Affix: \"Teeming\""),
            Affix::Raging => String::from_str("Affix: \"Raging\""),
            Affix::Bolstering => String::from_str("Affix: \"Bolstering\""),
            Affix::Sanguine => String::from_str("Affix: \"Sanguine\""),
            Affix::Tyrannical => String::from_str("Affix: \"Tyrannical\""),
            Affix::Fortified => String::from_str("Affix: \"Fortified\""),
            Affix::Bursting => String::from_str("Affix: \"Bursting\""),
            Affix::Grievous => String::from_str("Affix: \"Grievous\""),
            Affix::Explosive => String::from_str("Affix: \"Explosive\""),
            Affix::Quaking => String::from_str("Affix: \"Quaking\""),
            Affix::Infested => String::from_str("Affix: \"Infested\""),
            Affix::Reaping => String::from_str("Affix: \"Reaping\""),
            Affix::Beguiling => String::from_str("Affix: \"Beguiling\""),
            Affix::Awakened => String::from_str("Affix: \"Awakened\""),
            Affix::Prideful => String::from_str("Affix: \"Prideful\""),
            Affix::Inspiring => String::from_str("Affix: \"Inspiring\""),
            Affix::Spiteful => String::from_str("Affix: \"Spiteful\""),
            Affix::Storming => String::from_str("Affix: \"Storming\""),
            Affix::Tormented => String::from_str("Affix: \"Tormented\""),
            Affix::Infernal => String::from_str("Affix: \"Infernal\""),
            Affix::Encrypted => String::from_str("Affix: \"Encrypted\""),
            Affix::Shrouded => String::from_str("Affix: \"Shrouded\""),
            Affix::Thundering => String::from_str("Affix: \"Thundering\""),
            Affix::Focused => String::from_str("Affix: \"Focused\""),
            Affix::Entangling => String::from_str("Affix: \"Entangling\""),
            Affix::Afflicted => String::from_str("Affix: \"Afflicted\""),
            Affix::Incorporeal => String::from_str("Affix: \"Incorporeal\""),
            Affix::Shielding => String::from_str("Affix: \"Shielding\""),
            Affix::Thorned => String::from_str("Affix: \"Thorned\""),
            Affix::Reckless => String::from_str("Affix: \"Reckless\""),
            Affix::Attuned => String::from_str("Affix: \"Attuned\""),
            Affix::XalGuile => String::from_str("Affix: \"Xal'atath's Guile\""),
            Affix::XalBargainAscendant => String::from_str("Affix: \"Xal'atath's Bargain: Ascendant\""),
            Affix::ChallengerPeril => String::from_str("Affix: \"Challenger's Peril\""),
            Affix::XalBargainFrenzied => String::from_str("Affix: \"Xal'atath's Bargain: Frenzied\""),
            Affix::XalBargainVoidbound => String::from_str("Affix: \"Xal'atath's Bargain: Voidbound\""),
            Affix::XalBargainOblivion => String::from_str("Affix: \"Xal'atath's Bargain: Oblivion\""),
            Affix::XalBargainDevour => String::from_str("Affix: \"Xal'atath's Bargain: Devour\""),
            Affix::XalBargainPulsar => String::from_str("Affix: \"Xal'atath's Bargain: Pulser\""),
            Affix::Unknown(value) => {
                let mut m = String::from_str("Unknown affix id: ");
                m.append(crate::util::param_handler::u64_to_dec(*value as u64).as_str());
                m
            },
        }
    }
}

} // verus!
