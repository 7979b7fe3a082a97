//! Open-ended classification of wire values: every decoder in this module
//! is total, preserving unrecognized input in a fallback arm that carries
//! the original text instead of rejecting it.

use vstd::prelude::*;

use crate::util::param_handler::str_eq_str;

verus! {

/// An event tag, with unknown tag text preserved rather than rejected.
#[derive(Debug, Clone, PartialEq, Eq)]
pub enum EventType {
    SwingDamage,
    SwingDamageLanded,
    SwingMissed,
    RangeDamage,
    RangeMissed,
    StaggerClear,
    SpellDamage,
    SpellDamageSupport,
    SpellMissed,
    SpellHeal,
    SpellHealAbsorbed,
    SpellAbsorbed,
    SpellEnergize,
    SpellDrain,
    SpellLeech,
    SpellInterrupt,
    SpellDispel,
    SpellDispelFailed,
    SpellStolen,
    SpellExtraAttacks,
    SpellAuraApplied,
    SpellAuraRemoved,
    SpellAuraAppliedDose,
    SpellAuraRemovedDose,
    SpellAuraRefresh,
    SpellAuraBroken,
    SpellAuraBrokenSpell,
    SpellCastStart,
    SpellCastSuccess,
    SpellCastFailed,
    SpellInstaKill,
    SpellDurabilityDamage,
    SpellDurabilityDamageAll,
    SpellCreate,
    SpellSummon,
    SpellResurrect,
    SpellEmpowerStart,
    SpellEmpowerEnd,
    SpellEmpowerInterrupt,
    SpellPeriodicDamage,
    SpellPeriodicDamageSupport,
    SpellPeriodicMissed,
    SpellPeriodicHeal,
    SpellPeriodicHealAbsorbed,
    SpellPeriodicAbsorbed,
    SpellPeriodicEnergize,
    SpellPeriodicDrain,
    SpellPeriodicLeech,
    SpellPeriodicInterrupt,
    SpellPeriodicDispel,
    SpellPeriodicDispelFailed,
    SpellPeriodicStolen,
    SpellPeriodicExtraAttacks,
    SpellPeriodicAuraApplied,
    SpellPeriodicAuraRemoved,
    SpellPeriodicAuraAppliedDose,
    SpellPeriodicAuraRemovedDose,
    SpellPeriodicAuraRefresh,
    SpellPeriodicAuraBroken,
    SpellPeriodicAuraBrokenSpell,
    SpellPeriodicCastStart,
    SpellPeriodicCastSuccess,
    SpellPeriodicCastFailed,
    SpellPeriodicInstaKill,
    SpellPeriodicDurabilityDamage,
    SpellPeriodicDurabilityDamageAll,
    SpellPeriodicCreate,
    SpellPeriodicSummon,
    SpellPeriodicResurrect,
    SpellPeriodicEmpowerStart,
    SpellPeriodicEmpowerEnd,
    SpellPeriodicEmpowerInterrupt,
    SpellBuildingDamage,
    SpellBuildingMissed,
    SpellBuildingHeal,
    SpellBuildingHealAbsorbed,
    SpellBuildingAbsorbed,
    SpellBuildingEnergize,
    SpellBuildingDrain,
    SpellBuildingLeech,
    SpellBuildingInterrupt,
    SpellBuildingDispel,
    SpellBuildingDispelFailed,
    SpellBuildingStolen,
    SpellBuildingExtraAttacks,
    SpellBuildingAuraApplied,
    SpellBuildingAuraRemoved,
    SpellBuildingAuraAppliedDose,
    SpellBuildingAuraRemovedDose,
    SpellBuildingAuraRefresh,
    SpellBuildingAuraBroken,
    SpellBuildingAuraBrokenSpell,
    SpellBuildingCastStart,
    SpellBuildingCastSuccess,
    SpellBuildingCastFailed,
    SpellBuildingInstaKill,
    SpellBuildingDurabilityDamage,
    SpellBuildingDurabilityDamageAll,
    SpellBuildingCreate,
    SpellBuildingSummon,
    SpellBuildingResurrect,
    SpellBuildingEmpowerStart,
    SpellBuildingEmpowerEnd,
    SpellBuildingEmpowerInterrupt,
    EnvironmentalDamage,
    DamageSplit,
    DamageShield,
    DamageShieldMissed,
    EnchantApplied,
    EnchantRemoved,
    PartyKill,
    UnitDied,
    UnitDestroyed,
    UnitDissapates,
    CombatLogVersion,
    ZoneChange,
    MapChange,
    EncounterStart,
    EncounterEnd,
    CombatantInfo,
    ArenaMatchStart,
    ArenaMatchEnd,
    ChallengeModeStart,
    ChallengeModeEnd,
    Emote,
    WorldMarkerPlaced,
    WorldMarkerRemoved,
    UnknownEvent(String),
}

impl EventType {
    /// The known event type a tag text names, if any.
    pub open spec fn spec_of_tag(tag: Seq<char>) -> Option<EventType> {
        if tag == "SWING_DAMAGE"@ {
            Some(EventType::SwingDamage)
        } else if tag == "SWING_DAMAGE_LANDED"@ {
            Some(EventType::SwingDamageLanded)
        } else if tag == "SWING_MISSED"@ {
            Some(EventType::SwingMissed)
        } else if tag == "RANGE_DAMAGE"@ {
            Some(EventType::RangeDamage)
        } else if tag == "RANGE_MISSED"@ {
            Some(EventType::RangeMissed)
        } else if tag == "STAGGER_CLEAR"@ {
            Some(EventType::StaggerClear)
        } else if tag == "SPELL_DAMAGE"@ {
            Some(EventType::SpellDamage)
        } else if tag == "SPELL_DAMAGE_SUPPORT"@ {
            Some(EventType::SpellDamageSupport)
        } else if tag == "SPELL_MISSED"@ {
            Some(EventType::SpellMissed)
        } else if tag == "SPELL_HEAL"@ {
            Some(EventType::SpellHeal)
        } else if tag == "SPELL_HEAL_ABSORBED"@ {
            Some(EventType::SpellHealAbsorbed)
        } else if tag == "SPELL_ABSORBED"@ {
            Some(EventType::SpellAbsorbed)
        } else if tag == "SPELL_ENERGIZE"@ {
            Some(EventType::SpellEnergize)
        } else if tag == "SPELL_DRAIN"@ {
            Some(EventType::SpellDrain)
        } else if tag == "SPELL_LEECH"@ {
            Some(EventType::SpellLeech)
        } else if tag == "SPELL_INTERRUPT"@ {
            Some(EventType::SpellInterrupt)
        } else if tag == "SPELL_DISPEL"@ {
            Some(EventType::SpellDispel)
        } else if tag == "SPELL_DISPEL_FAILED"@ {
            Some(EventType::SpellDispelFailed)
        } else if tag == "SPELL_STOLEN"@ {
            Some(EventType::SpellStolen)
        } else if tag == "SPELL_EXTRA_ATTACKS"@ {
            Some(EventType::SpellExtraAttacks)
        } else if tag == "SPELL_AURA_APPLIED"@ {
            Some(EventType::SpellAuraApplied)
        } else if tag == "SPELL_AURA_REMOVED"@ {
            Some(EventType::SpellAuraRemoved)
        } else if tag == "SPELL_AURA_APPLIED_DOSE"@ {
            Some(EventType::SpellAuraAppliedDose)
        } else if tag == "SPELL_AURA_REMOVED_DOSE"@ {
            Some(EventType::SpellAuraRemovedDose)
        } else if tag == "SPELL_AURA_REFRESH"@ {
            Some(EventType::SpellAuraRefresh)
        } else if tag == "SPELL_AURA_BROKEN"@ {
            Some(EventType::SpellAuraBroken)
        } else if tag == "SPELL_AURA_BROKEN_SPELL"@ {
            Some(EventType::SpellAuraBrokenSpell)
        } else if tag == "SPELL_CAST_START"@ {
            Some(EventType::SpellCastStart)
        } else if tag == "SPELL_CAST_SUCCESS"@ {
            Some(EventType::SpellCastSuccess)
        } else if tag == "SPELL_CAST_FAILED"@ {
            Some(EventType::SpellCastFailed)
        } else if tag == "SPELL_INSTAKILL"@ {
            Some(EventType::SpellInstaKill)
        } else if tag == "SPELL_DURABILITY_DAMAGE"@ {
            Some(EventType::SpellDurabilityDamage)
        } else if tag == "SPELL_DURABILITY_DAMAGE_ALL"@ {
            Some(EventType::SpellDurabilityDamageAll)
        } else if tag == "SPELL_CREATE"@ {
            Some(EventType::SpellCreate)
        } else if tag == "SPELL_SUMMON"@ {
            Some(EventType::SpellSummon)
        } else if tag == "SPELL_RESURRECT"@ {
            Some(EventType::SpellResurrect)
        } else if tag == "SPELL_EMPOWER_START"@ {
            Some(EventType::SpellEmpowerStart)
        } else if tag == "SPELL_EMPOWER_END"@ {
            Some(EventType::SpellEmpowerEnd)
        } else if tag == "SPELL_EMPOWER_INTERRUPT"@ {
            Some(EventType::SpellEmpowerInterrupt)
        } else if tag == "SPELL_PERIODIC_DAMAGE"@ {
            Some(EventType::SpellPeriodicDamage)
        } else if tag == "SPELL_PERIODIC_DAMAGE_SUPPORT"@ {
            Some(EventType::SpellPeriodicDamageSupport)
        } else if tag == "SPELL_PERIODIC_MISSED"@ {
            Some(EventType::SpellPeriodicMissed)
        } else if tag == "SPELL_PERIODIC_HEAL"@ {
            Some(EventType::SpellPeriodicHeal)
        } else if tag == "SPELL_PERIODIC_HEAL_ABSORBED"@ {
            Some(EventType::SpellPeriodicHealAbsorbed)
        } else if tag == "SPELL_PERIODIC_ABSORBED"@ {
            Some(EventType::SpellPeriodicAbsorbed)
        } else if tag == "SPELL_PERIODIC_ENERGIZE"@ {
            Some(EventType::SpellPeriodicEnergize)
        } else if tag == "SPELL_PERIODIC_DRAIN"@ {
            Some(EventType::SpellPeriodicDrain)
        } else if tag == "SPELL_PERIODIC_LEECH"@ {
            Some(EventType::SpellPeriodicLeech)
        } else if tag == "SPELL_PERIODIC_INTERRUPT"@ {
            Some(EventType::SpellPeriodicInterrupt)
        } else if tag == "SPELL_PERIODIC_DISPEL"@ {
            Some(EventType::SpellPeriodicDispel)
        } else if tag == "SPELL_PERIODIC_DISPEL_FAILED"@ {
            Some(EventType::SpellPeriodicDispelFailed)
        } else if tag == "SPELL_PERIODIC_STOLEN"@ {
            Some(EventType::SpellPeriodicStolen)
        } else if tag == "SPELL_PERIODIC_EXTRA_ATTACKS"@ {
            Some(EventType::SpellPeriodicExtraAttacks)
        } else if tag == "SPELL_PERIODIC_AURA_APPLIED"@ {
            Some(EventType::SpellPeriodicAuraApplied)
        } else if tag == "SPELL_PERIODIC_AURA_REMOVED"@ {
            Some(EventType::SpellPeriodicAuraRemoved)
        } else if tag == "SPELL_PERIODIC_AURA_APPLIED_DOSE"@ {
            Some(EventType::SpellPeriodicAuraAppliedDose)
        } else if tag == "SPELL_PERIODIC_AURA_REMOVED_DOSE"@ {
            Some(EventType::SpellPeriodicAuraRemovedDose)
        } else if tag == "SPELL_PERIODIC_AURA_REFRESH"@ {
            Some(EventType::SpellPeriodicAuraRefresh)
        } else if tag == "SPELL_PERIODIC_AURA_BROKEN"@ {
            Some(EventType::SpellPeriodicAuraBroken)
        } else if tag == "SPELL_PERIODIC_AURA_BROKEN_SPELL"@ {
            Some(EventType::SpellPeriodicAuraBrokenSpell)
        } else if tag == "SPELL_PERIODIC_CAST_START"@ {
            Some(EventType::SpellPeriodicCastStart)
        } else if tag == "SPELL_PERIODIC_CAST_SUCCESS"@ {
            Some(EventType::SpellPeriodicCastSuccess)
        } else if tag == "SPELL_PERIODIC_CAST_FAILED"@ {
            Some(EventType::SpellPeriodicCastFailed)
        } else if tag == "SPELL_PERIODIC_INSTA_KILL"@ {
            Some(EventType::SpellPeriodicInstaKill)
        } else if tag == "SPELL_PERIODIC_DURABILITY_DAMAGE"@ {
            Some(EventType::SpellPeriodicDurabilityDamage)
        } else if tag == "SPELL_PERIODIC_DURABILITY_DAMAGE_ALL"@ {
            Some(EventType::SpellPeriodicDurabilityDamageAll)
        } else if tag == "SPELL_PERIODIC_CREATE"@ {
            Some(EventType::SpellPeriodicCreate)
        } else if tag == "SPELL_PERIODIC_SUMMON"@ {
            Some(EventType::SpellPeriodicSummon)
        } else if tag == "SPELL_PERIODIC_RESURRECT"@ {
            Some(EventType::SpellPeriodicResurrect)
        } else if tag == "SPELL_PERIODIC_EMPOWER_START"@ {
            Some(EventType::SpellPeriodicEmpowerStart)
        } else if tag == "SPELL_PERIODIC_EMPOWER_END"@ {
            Some(EventType::SpellPeriodicEmpowerEnd)
        } else if tag == "SPELL_PERIODIC_EMPOWER_INTERRUPT"@ {
            Some(EventType::SpellPeriodicEmpowerInterrupt)
        } else if tag == "SPELL_BUILDING_DAMAGE"@ {
            Some(EventType::SpellBuildingDamage)
        } else if tag == "SPELL_BUILDING_MISSED"@ {
            Some(EventType::SpellBuildingMissed)
        } else if tag == "SPELL_BUILDING_HEAL"@ {
            Some(EventType::SpellBuildingHeal)
        } else if tag == "SPELL_BUILDING_HEAL_ABSORBED"@ {
            Some(EventType::SpellBuildingHealAbsorbed)
        } else if tag == "SPELL_BUILDING_ABSORBED"@ {
            Some(EventType::SpellBuildingAbsorbed)
        } else if tag == "SPELL_BUILDING_ENERGIZE"@ {
            Some(EventType::SpellBuildingEnergize)
        } else if tag == "SPELL_BUILDING_DRAIN"@ {
            Some(EventType::SpellBuildingDrain)
        } else if tag == "SPELL_BUILDING_LEECH"@ {
            Some(EventType::SpellBuildingLeech)
        } else if tag == "SPELL_BUILDING_INTERRUPT"@ {
            Some(EventType::SpellBuildingInterrupt)
        } else if tag == "SPELL_BUILDING_DISPEL"@ {
            Some(EventType::SpellBuildingDispel)
        } else if tag == "SPELL_BUILDING_DISPEL_FAILED"@ {
            Some(EventType::SpellBuildingDispelFailed)
        } else if tag == "SPELL_BUILDING_STOLEN"@ {
            Some(EventType::SpellBuildingStolen)
        } else if tag == "SPELL_BUILDING_EXTRA_ATTACKS"@ {
            Some(EventType::SpellBuildingExtraAttacks)
        } else if tag == "SPELL_BUILDING_AURA_APPLIED"@ {
            Some(EventType::SpellBuildingAuraApplied)
        } else if tag == "SPELL_BUILDING_AURA_REMOVED"@ {
            Some(EventType::SpellBuildingAuraRemoved)
        } else if tag == "SPELL_BUILDING_AURA_APPLIED_DOSE"@ {
            Some(EventType::SpellBuildingAuraAppliedDose)
        } else if tag == "SPELL_BUILDING_AURA_REMOVED_DOSE"@ {
            Some(EventType::SpellBuildingAuraRemovedDose)
        } else if tag == "SPELL_BUILDING_AURA_REFRESH"@ {
            Some(EventType::SpellBuildingAuraRefresh)
        } else if tag == "SPELL_BUILDING_AURA_BROKEN"@ {
            Some(EventType::SpellBuildingAuraBroken)
        } else if tag == "SPELL_BUILDING_AURA_BROKEN_SPELL"@ {
            Some(EventType::SpellBuildingAuraBrokenSpell)
        } else if tag == "SPELL_BUILDING_CAST_START"@ {
            Some(EventType::SpellBuildingCastStart)
        } else if tag == "SPELL_BUILDING_CAST_SUCCESS"@ {
            Some(EventType::SpellBuildingCastSuccess)
        } else if tag == "SPELL_BUILDING_CAST_FAILED"@ {
            Some(EventType::SpellBuildingCastFailed)
        } else if tag == "SPELL_BUILDING_INSTA_KILL"@ {
            Some(EventType::SpellBuildingInstaKill)
        } else if tag == "SPELL_BUILDING_DURABILITY_DAMAGE"@ {
            Some(EventType::SpellBuildingDurabilityDamage)
        } else if tag == "SPELL_BUILDING_DURABILITY_DAMAGE_ALL"@ {
            Some(EventType::SpellBuildingDurabilityDamageAll)
        } else if tag == "SPELL_BUILDING_CREATE"@ {
            Some(EventType::SpellBuildingCreate)
        } else if tag == "SPELL_BUILDING_SUMMON"@ {
            Some(EventType::SpellBuildingSummon)
        } else if tag == "SPELL_BUILDING_RESURRECT"@ {
            Some(EventType::SpellBuildingResurrect)
        } else if tag == "SPELL_BUILDING_EMPOWER_START"@ {
            Some(EventType::SpellBuildingEmpowerStart)
        } else if tag == "SPELL_BUILDING_EMPOWER_END"@ {
            Some(EventType::SpellBuildingEmpowerEnd)
        } else if tag == "SPELL_BUILDING_EMPOWER_INTERRUPT"@ {
            Some(EventType::SpellBuildingEmpowerInterrupt)
        } else if tag == "ENVIRONMENTAL_DAMAGE"@ {
            Some(EventType::EnvironmentalDamage)
        } else if tag == "DAMAGE_SPLIT"@ {
            Some(EventType::DamageSplit)
        } else if tag == "DAMAGE_SHIELD"@ {
            Some(EventType::DamageShield)
        } else if tag == "DAMAGE_SHIELD_MISSED"@ {
            Some(EventType::DamageShieldMissed)
        } else if tag == "ENCHANT_APPLIED"@ {
            Some(EventType::EnchantApplied)
        } else if tag == "ENCHANT_REMOVED"@ {
            Some(EventType::EnchantRemoved)
        } else if tag == "PARTY_KILL"@ {
            Some(EventType::PartyKill)
        } else if tag == "UNIT_DIED"@ {
            Some(EventType::UnitDied)
        } else if tag == "UNIT_DESTROYED"@ {
            Some(EventType::UnitDestroyed)
        } else if tag == "UNIT_DISSAPATES"@ {
            Some(EventType::UnitDissapates)
        } else if tag == "COMBAT_LOG_VERSION"@ {
            Some(EventType::CombatLogVersion)
        } else if tag == "ZONE_CHANGE"@ {
            Some(EventType::ZoneChange)
        } else if tag == "MAP_CHANGE"@ {
            Some(EventType::MapChange)
        } else if tag == "ENCOUNTER_START"@ {
            Some(EventType::EncounterStart)
        } else if tag == "ENCOUNTER_END"@ {
            Some(EventType::EncounterEnd)
        } else if tag == "COMBATANT_INFO"@ {
            Some(EventType::CombatantInfo)
        } else if tag == "ARENA_MATCH_START"@ {
            Some(EventType::ArenaMatchStart)
        } else if tag == "ARENA_MATCH_END"@ {
            Some(EventType::ArenaMatchEnd)
        } else if tag == "CHALLENGE_MODE_START"@ {
            Some(EventType::ChallengeModeStart)
        } else if tag == "CHALLENGE_MODE_END"@ {
            Some(EventType::ChallengeModeEnd)
        } else if tag == "EMOTE"@ {
            Some(EventType::Emote)
        } else if tag == "WORLD_MARKER_PLACED"@ {
            Some(EventType::WorldMarkerPlaced)
        } else if tag == "WORLD_MARKER_REMOVED"@ {
            Some(EventType::WorldMarkerRemoved)
        } else {
            None
        }
    }

    /// Classifies a tag text; text outside the known set lands in the
    /// fallback arm, carrying the original text.
    pub fn from_str(value: &str) -> (r: EventType)
        ensures
            match EventType::spec_of_tag(value@) {
                Some(et) => r == et,
                None => r matches EventType::UnknownEvent(t) && t@ == value@,
            },
    {
        if str_eq_str(value, "SWING_DAMAGE") {
            return EventType::SwingDamage;
        }
        if str_eq_str(value, "SWING_DAMAGE_LANDED") {
            return EventType::SwingDamageLanded;
        }
        if str_eq_str(value, "SWING_MISSED") {
            return EventType::SwingMissed;
        }
        if str_eq_str(value, "RANGE_DAMAGE") {
            return EventType::RangeDamage;
        }
        if str_eq_str(value, "RANGE_MISSED") {
            return EventType::RangeMissed;
        }
        if str_eq_str(value, "STAGGER_CLEAR") {
            return EventType::StaggerClear;
        }
        if str_eq_str(value, "SPELL_DAMAGE") {
            return EventType::SpellDamage;
        }
        if str_eq_str(value, "SPELL_DAMAGE_SUPPORT") {
            return EventType::SpellDamageSupport;
        }
        if str_eq_str(value, "SPELL_MISSED") {
            return EventType::SpellMissed;
        }
        if str_eq_str(value, "SPELL_HEAL") {
            return EventType::SpellHeal;
        }
        if str_eq_str(value, "SPELL_HEAL_ABSORBED") {
            return EventType::SpellHealAbsorbed;
        }
        if str_eq_str(value, "SPELL_ABSORBED") {
            return EventType::SpellAbsorbed;
        }
        if str_eq_str(value, "SPELL_ENERGIZE") {
            return EventType::SpellEnergize;
        }
        if str_eq_str(value, "SPELL_DRAIN") {
            return EventType::SpellDrain;
        }
        if str_eq_str(value, "SPELL_LEECH") {
            return EventType::SpellLeech;
        }
        if str_eq_str(value, "SPELL_INTERRUPT") {
            return EventType::SpellInterrupt;
        }
        if str_eq_str(value, "SPELL_DISPEL") {
            return EventType::SpellDispel;
        }
        if str_eq_str(value, "SPELL_DISPEL_FAILED") {
            return EventType::SpellDispelFailed;
        }
        if str_eq_str(value, "SPELL_STOLEN") {
            return EventType::SpellStolen;
        }
        if str_eq_str(value, "SPELL_EXTRA_ATTACKS") {
            return EventType::SpellExtraAttacks;
        }
        if str_eq_str(value, "SPELL_AURA_APPLIED") {
            return EventType::SpellAuraApplied;
        }
        if str_eq_str(value, "SPELL_AURA_REMOVED") {
            return EventType::SpellAuraRemoved;
        }
        if str_eq_str(value, "SPELL_AURA_APPLIED_DOSE") {
            return EventType::SpellAuraAppliedDose;
        }
        if str_eq_str(value, "SPELL_AURA_REMOVED_DOSE") {
            return EventType::SpellAuraRemovedDose;
        }
        if str_eq_str(value, "SPELL_AURA_REFRESH") {
            return EventType::SpellAuraRefresh;
        }
        if str_eq_str(value, "SPELL_AURA_BROKEN") {
            return EventType::SpellAuraBroken;
        }
        if str_eq_str(value, "SPELL_AURA_BROKEN_SPELL") {
            return EventType::SpellAuraBrokenSpell;
        }
        if str_eq_str(value, "SPELL_CAST_START") {
            return EventType::SpellCastStart;
        }
        if str_eq_str(value, "SPELL_CAST_SUCCESS") {
            return EventType::SpellCastSuccess;
        }
        if str_eq_str(value, "SPELL_CAST_FAILED") {
            return EventType::SpellCastFailed;
        }
        if str_eq_str(value, "SPELL_INSTAKILL") {
            return EventType::SpellInstaKill;
        }
        if str_eq_str(value, "SPELL_DURABILITY_DAMAGE") {
            return EventType::SpellDurabilityDamage;
        }
        if str_eq_str(value, "SPELL_DURABILITY_DAMAGE_ALL") {
            return EventType::SpellDurabilityDamageAll;
        }
        if str_eq_str(value, "SPELL_CREATE") {
            return EventType::SpellCreate;
        }
        if str_eq_str(value, "SPELL_SUMMON") {
            return EventType::SpellSummon;
        }
        if str_eq_str(value, "SPELL_RESURRECT") {
            return EventType::SpellResurrect;
        }
        if str_eq_str(value, "SPELL_EMPOWER_START") {
            return EventType::SpellEmpowerStart;
        }
        if str_eq_str(value, "SPELL_EMPOWER_END") {
            return EventType::SpellEmpowerEnd;
        }
        if str_eq_str(value, "SPELL_EMPOWER_INTERRUPT") {
            return EventType::SpellEmpowerInterrupt;
        }
        if str_eq_str(value, "SPELL_PERIODIC_DAMAGE") {
            return EventType::SpellPeriodicDamage;
        }
        if str_eq_str(value, "SPELL_PERIODIC_DAMAGE_SUPPORT") {
            return EventType::SpellPeriodicDamageSupport;
        }
        if str_eq_str(value, "SPELL_PERIODIC_MISSED") {
            return EventType::SpellPeriodicMissed;
        }
        if str_eq_str(value, "SPELL_PERIODIC_HEAL") {
            return EventType::SpellPeriodicHeal;
        }
        if str_eq_str(value, "SPELL_PERIODIC_HEAL_ABSORBED") {
            return EventType::SpellPeriodicHealAbsorbed;
        }
        if str_eq_str(value, "SPELL_PERIODIC_ABSORBED") {
            return EventType::SpellPeriodicAbsorbed;
        }
        if str_eq_str(value, "SPELL_PERIODIC_ENERGIZE") {
            return EventType::SpellPeriodicEnergize;
        }
        if str_eq_str(value, "SPELL_PERIODIC_DRAIN") {
            return EventType::SpellPeriodicDrain;
        }
        if str_eq_str(value, "SPELL_PERIODIC_LEECH") {
            return EventType::SpellPeriodicLeech;
        }
        if str_eq_str(value, "SPELL_PERIODIC_INTERRUPT") {
            return EventType::SpellPeriodicInterrupt;
        }
        if str_eq_str(value, "SPELL_PERIODIC_DISPEL") {
            return EventType::SpellPeriodicDispel;
        }
        if str_eq_str(value, "SPELL_PERIODIC_DISPEL_FAILED") {
            return EventType::SpellPeriodicDispelFailed;
        }
        if str_eq_str(value, "SPELL_PERIODIC_STOLEN") {
            return EventType::SpellPeriodicStolen;
        }
        if str_eq_str(value, "SPELL_PERIODIC_EXTRA_ATTACKS") {
            return EventType::SpellPeriodicExtraAttacks;
        }
        if str_eq_str(value, "SPELL_PERIODIC_AURA_APPLIED") {
            return EventType::SpellPeriodicAuraApplied;
        }
        if str_eq_str(value, "SPELL_PERIODIC_AURA_REMOVED") {
            return EventType::SpellPeriodicAuraRemoved;
        }
        if str_eq_str(value, "SPELL_PERIODIC_AURA_APPLIED_DOSE") {
            return EventType::SpellPeriodicAuraAppliedDose;
        }
        if str_eq_str(value, "SPELL_PERIODIC_AURA_REMOVED_DOSE") {
            return EventType::SpellPeriodicAuraRemovedDose;
        }
        if str_eq_str(value, "SPELL_PERIODIC_AURA_REFRESH") {
            return EventType::SpellPeriodicAuraRefresh;
        }
        if str_eq_str(value, "SPELL_PERIODIC_AURA_BROKEN") {
            return EventType::SpellPeriodicAuraBroken;
        }
        if str_eq_str(value, "SPELL_PERIODIC_AURA_BROKEN_SPELL") {
            return EventType::SpellPeriodicAuraBrokenSpell;
        }
        if str_eq_str(value, "SPELL_PERIODIC_CAST_START") {
            return EventType::SpellPeriodicCastStart;
        }
        if str_eq_str(value, "SPELL_PERIODIC_CAST_SUCCESS") {
            return EventType::SpellPeriodicCastSuccess;
        }
        if str_eq_str(value, "SPELL_PERIODIC_CAST_FAILED") {
            return EventType::SpellPeriodicCastFailed;
        }
        if str_eq_str(value, "SPELL_PERIODIC_INSTA_KILL") {
            return EventType::SpellPeriodicInstaKill;
        }
        if str_eq_str(value, "SPELL_PERIODIC_DURABILITY_DAMAGE") {
            return EventType::SpellPeriodicDurabilityDamage;
        }
        if str_eq_str(value, "SPELL_PERIODIC_DURABILITY_DAMAGE_ALL") {
            return EventType::SpellPeriodicDurabilityDamageAll;
        }
        if str_eq_str(value, "SPELL_PERIODIC_CREATE") {
            return EventType::SpellPeriodicCreate;
        }
        if str_eq_str(value, "SPELL_PERIODIC_SUMMON") {
            return EventType::SpellPeriodicSummon;
        }
        if str_eq_str(value, "SPELL_PERIODIC_RESURRECT") {
            return EventType::SpellPeriodicResurrect;
        }
        if str_eq_str(value, "SPELL_PERIODIC_EMPOWER_START") {
            return EventType::SpellPeriodicEmpowerStart;
        }
        if str_eq_str(value, "SPELL_PERIODIC_EMPOWER_END") {
            return EventType::SpellPeriodicEmpowerEnd;
        }
        if str_eq_str(value, "SPELL_PERIODIC_EMPOWER_INTERRUPT") {
            return EventType::SpellPeriodicEmpowerInterrupt;
        }
        if str_eq_str(value, "SPELL_BUILDING_DAMAGE") {
            return EventType::SpellBuildingDamage;
        }
        if str_eq_str(value, "SPELL_BUILDING_MISSED") {
            return EventType::SpellBuildingMissed;
        }
        if str_eq_str(value, "SPELL_BUILDING_HEAL") {
            return EventType::SpellBuildingHeal;
        }
        if str_eq_str(value, "SPELL_BUILDING_HEAL_ABSORBED") {
            return EventType::SpellBuildingHealAbsorbed;
        }
        if str_eq_str(value, "SPELL_BUILDING_ABSORBED") {
            return EventType::SpellBuildingAbsorbed;
        }
        if str_eq_str(value, "SPELL_BUILDING_ENERGIZE") {
            return EventType::SpellBuildingEnergize;
        }
        if str_eq_str(value, "SPELL_BUILDING_DRAIN") {
            return EventType::SpellBuildingDrain;
        }
        if str_eq_str(value, "SPELL_BUILDING_LEECH") {
            return EventType::SpellBuildingLeech;
        }
        if str_eq_str(value, "SPELL_BUILDING_INTERRUPT") {
            return EventType::SpellBuildingInterrupt;
        }
        if str_eq_str(value, "SPELL_BUILDING_DISPEL") {
            return EventType::SpellBuildingDispel;
        }
        if str_eq_str(value, "SPELL_BUILDING_DISPEL_FAILED") {
            return EventType::SpellBuildingDispelFailed;
        }
        if str_eq_str(value, "SPELL_BUILDING_STOLEN") {
            return EventType::SpellBuildingStolen;
        }
        if str_eq_str(value, "SPELL_BUILDING_EXTRA_ATTACKS") {
            return EventType::SpellBuildingExtraAttacks;
        }
        if str_eq_str(value, "SPELL_BUILDING_AURA_APPLIED") {
            return EventType::SpellBuildingAuraApplied;
        }
        if str_eq_str(value, "SPELL_BUILDING_AURA_REMOVED") {
            return EventType::SpellBuildingAuraRemoved;
        }
        if str_eq_str(value, "SPELL_BUILDING_AURA_APPLIED_DOSE") {
            return EventType::SpellBuildingAuraAppliedDose;
        }
        if str_eq_str(value, "SPELL_BUILDING_AURA_REMOVED_DOSE") {
            return EventType::SpellBuildingAuraRemovedDose;
        }
        if str_eq_str(value, "SPELL_BUILDING_AURA_REFRESH") {
            return EventType::SpellBuildingAuraRefresh;
        }
        if str_eq_str(value, "SPELL_BUILDING_AURA_BROKEN") {
            return EventType::SpellBuildingAuraBroken;
        }
        if str_eq_str(value, "SPELL_BUILDING_AURA_BROKEN_SPELL") {
            return EventType::SpellBuildingAuraBrokenSpell;
        }
        if str_eq_str(value, "SPELL_BUILDING_CAST_START") {
            return EventType::SpellBuildingCastStart;
        }
        if str_eq_str(value, "SPELL_BUILDING_CAST_SUCCESS") {
            return EventType::SpellBuildingCastSuccess;
        }
        if str_eq_str(value, "SPELL_BUILDING_CAST_FAILED") {
            return EventType::SpellBuildingCastFailed;
        }
        if str_eq_str(value, "SPELL_BUILDING_INSTA_KILL") {
            return EventType::SpellBuildingInstaKill;
        }
        if str_eq_str(value, "SPELL_BUILDING_DURABILITY_DAMAGE") {
            return EventType::SpellBuildingDurabilityDamage;
        }
        if str_eq_str(value, "SPELL_BUILDING_DURABILITY_DAMAGE_ALL") {
            return EventType::SpellBuildingDurabilityDamageAll;
        }
        if str_eq_str(value, "SPELL_BUILDING_CREATE") {
            return EventType::SpellBuildingCreate;
        }
        if str_eq_str(value, "SPELL_BUILDING_SUMMON") {
            return EventType::SpellBuildingSummon;
        }
        if str_eq_str(value, "SPELL_BUILDING_RESURRECT") {
            return EventType::SpellBuildingResurrect;
        }
        if str_eq_str(value, "SPELL_BUILDING_EMPOWER_START") {
            return EventType::SpellBuildingEmpowerStart;
        }
        if str_eq_str(value, "SPELL_BUILDING_EMPOWER_END") {
            return EventType::SpellBuildingEmpowerEnd;
        }
        if str_eq_str(value, "SPELL_BUILDING_EMPOWER_INTERRUPT") {
            return EventType::SpellBuildingEmpowerInterrupt;
        }
        if str_eq_str(value, "ENVIRONMENTAL_DAMAGE") {
            return EventType::EnvironmentalDamage;
        }
        if str_eq_str(value, "DAMAGE_SPLIT") {
            return EventType::DamageSplit;
        }
        if str_eq_str(value, "DAMAGE_SHIELD") {
            return EventType::DamageShield;
        }
        if str_eq_str(value, "DAMAGE_SHIELD_MISSED") {
            return EventType::DamageShieldMissed;
        }
        if str_eq_str(value, "ENCHANT_APPLIED") {
            return EventType::EnchantApplied;
        }
        if str_eq_str(value, "ENCHANT_REMOVED") {
            return EventType::EnchantRemoved;
        }
        if str_eq_str(value, "PARTY_KILL") {
            return EventType::PartyKill;
        }
        if str_eq_str(value, "UNIT_DIED") {
            return EventType::UnitDied;
        }
        if str_eq_str(value, "UNIT_DESTROYED") {
            return EventType::UnitDestroyed;
        }
        if str_eq_str(value, "UNIT_DISSAPATES") {
            return EventType::UnitDissapates;
        }
        if str_eq_str(value, "COMBAT_LOG_VERSION") {
            return EventType::CombatLogVersion;
        }
        if str_eq_str(value, "ZONE_CHANGE") {
            return EventType::ZoneChange;
        }
        if str_eq_str(value, "MAP_CHANGE") {
            return EventType::MapChange;
        }
        if str_eq_str(value, "ENCOUNTER_START") {
            return EventType::EncounterStart;
        }
        if str_eq_str(value, "ENCOUNTER_END") {
            return EventType::EncounterEnd;
        }
        if str_eq_str(value, "COMBATANT_INFO") {
            return EventType::CombatantInfo;
        }
        if str_eq_str(value, "ARENA_MATCH_START") {
            return EventType::ArenaMatchStart;
        }
        if str_eq_str(value, "ARENA_MATCH_END") {
            return EventType::ArenaMatchEnd;
        }
        if str_eq_str(value, "CHALLENGE_MODE_START") {
            return EventType::ChallengeModeStart;
        }
        if str_eq_str(value, "CHALLENGE_MODE_END") {
            return EventType::ChallengeModeEnd;
        }
        if str_eq_str(value, "EMOTE") {
            return EventType::Emote;
        }
        if str_eq_str(value, "WORLD_MARKER_PLACED") {
            return EventType::WorldMarkerPlaced;
        }
        if str_eq_str(value, "WORLD_MARKER_REMOVED") {
            return EventType::WorldMarkerRemoved;
        }
        EventType::UnknownEvent(String::from_str(value))
    }
}

/// The school of a spell, decoded from its wire id; unknown ids are kept.
#[derive(Debug, Clone, Copy, PartialEq, Eq, Structural)]
pub enum SpellSchool {
    Physical,
    Holy,
    Fire,
    Nature,
    Frost,
    Shadow,
    Arcane,
    Holystrike,
    Flamestrike,
    Radiant,
    Stormstrike,
    Holystorm,
    Volcanic,
    Froststrike,
    Holyfrost,
    Frostfire,
    Froststorm,
    Shadowstrike,
    Twilight,
    Shadowflame,
    Plague,
    Shadowfrost,
    Spellstrike,
    Divine,
    Spellfire,
    Astral,
    Spellfrost,
    Spellshadow,
    Elemental,
    Chromatic,
    Cosmic,
    LimitedChaos,
    Magic,
    Chaos,
    Unknown(u8),
}

impl SpellSchool {
    /// The school a wire id names.
    pub open spec fn spec_from_u8(value: u8) -> SpellSchool {
        if value == 1 {
            SpellSchool::Physical
        } else if value == 2 {
            SpellSchool::Holy
        } else if value == 4 {
            SpellSchool::Fire
        } else if value == 8 {
            SpellSchool::Nature
        } else if value == 16 {
            SpellSchool::Frost
        } else if value == 32 {
            SpellSchool::Shadow
        } else if value == 64 {
            SpellSchool::Arcane
        } else if value == 3 {
            SpellSchool::Holystrike
        } else if value == 5 {
            SpellSchool::Flamestrike
        } else if value == 6 {
            SpellSchool::Radiant
        } else if value == 9 {
            SpellSchool::Stormstrike
        } else if value == 10 {
            SpellSchool::Holystorm
        } else if value == 12 {
            SpellSchool::Volcanic
        } else if value == 17 {
            SpellSchool::Froststrike
        } else if value == 18 {
            SpellSchool::Holyfrost
        } else if value == 20 {
            SpellSchool::Frostfire
        } else if value == 24 {
            SpellSchool::Froststorm
        } else if value == 33 {
            SpellSchool::Shadowstrike
        } else if value == 34 {
            SpellSchool::Twilight
        } else if value == 36 {
            SpellSchool::Shadowflame
        } else if value == 40 {
            SpellSchool::Plague
        } else if value == 48 {
            SpellSchool::Shadowfrost
        } else if value == 65 {
            SpellSchool::Spellstrike
        } else if value == 66 {
            SpellSchool::Divine
        } else if value == 68 {
            SpellSchool::Spellfire
        } else if value == 72 {
            SpellSchool::Astral
        } else if value == 80 {
            SpellSchool::Spellfrost
        } else if value == 96 {
            SpellSchool::Spellshadow
        } else if value == 28 {
            SpellSchool::Elemental
        } else if value == 62 {
            SpellSchool::Chromatic
        } else if value == 106 {
            SpellSchool::Cosmic
        } else if value == 124 {
            SpellSchool::LimitedChaos
        } else if value == 126 {
            SpellSchool::Magic
        } else if value == 127 {
            SpellSchool::Chaos
        } else {
            SpellSchool::Unknown(value)
        }
    }

    pub fn from_u8(value: u8) -> (r: SpellSchool)
        ensures
            r == SpellSchool::spec_from_u8(value),
    {
        match value {
            1 => SpellSchool::Physical,
            2 => SpellSchool::Holy,
            4 => SpellSchool::Fire,
            8 => SpellSchool::Nature,
            16 => SpellSchool::Frost,
            32 => SpellSchool::Shadow,
            64 => SpellSchool::Arcane,
            3 => SpellSchool::Holystrike,
            5 => SpellSchool::Flamestrike,
            6 => SpellSchool::Radiant,
            9 => SpellSchool::Stormstrike,
            10 => SpellSchool::Holystorm,
            12 => SpellSchool::Volcanic,
            17 => SpellSchool::Froststrike,
            18 => SpellSchool::Holyfrost,
            20 => SpellSchool::Frostfire,
            24 => SpellSchool::Froststorm,
            33 => SpellSchool::Shadowstrike,
            34 => SpellSchool::Twilight,
            36 => SpellSchool::Shadowflame,
            40 => SpellSchool::Plague,
            48 => SpellSchool::Shadowfrost,
            65 => SpellSchool::Spellstrike,
            66 => SpellSchool::Divine,
            68 => SpellSchool::Spellfire,
            72 => SpellSchool::Astral,
            80 => SpellSchool::Spellfrost,
            96 => SpellSchool::Spellshadow,
            28 => SpellSchool::Elemental,
            62 => SpellSchool::Chromatic,
            106 => SpellSchool::Cosmic,
            124 => SpellSchool::LimitedChaos,
            126 => SpellSchool::Magic,
            127 => SpellSchool::Chaos,
            _ => SpellSchool::Unknown(value),
        }
    }

    /// The wire id of this school.
    pub open spec fn spec_as_u8(self) -> u8 {
        match self {
            SpellSchool::Physical => 1,
            SpellSchool::Holy => 2,
            SpellSchool::Fire => 4,
            SpellSchool::Nature => 8,
            SpellSchool::Frost => 16,
            SpellSchool::Shadow => 32,
            SpellSchool::Arcane => 64,
            SpellSchool::Holystrike => 3,
            SpellSchool::Flamestrike => 5,
            SpellSchool::Radiant => 6,
            SpellSchool::Stormstrike => 9,
            SpellSchool::Holystorm => 10,
            SpellSchool::Volcanic => 12,
            SpellSchool::Froststrike => 17,
            SpellSchool::Holyfrost => 18,
            SpellSchool::Frostfire => 20,
            SpellSchool::Froststorm => 24,
            SpellSchool::Shadowstrike => 33,
            SpellSchool::Twilight => 34,
            SpellSchool::Shadowflame => 36,
            SpellSchool::Plague => 40,
            SpellSchool::Shadowfrost => 48,
            SpellSchool::Spellstrike => 65,
            SpellSchool::Divine => 66,
            SpellSchool::Spellfire => 68,
            SpellSchool::Astral => 72,
            SpellSchool::Spellfrost => 80,
            SpellSchool::Spellshadow => 96,
            SpellSchool::Elemental => 28,
            SpellSchool::Chromatic => 62,
            SpellSchool::Cosmic => 106,
            SpellSchool::LimitedChaos => 124,
            SpellSchool::Magic => 126,
            SpellSchool::Chaos => 127,
            SpellSchool::Unknown(val) => val,
        }
    }

    pub fn as_u8(&self) -> (r: u8)
        ensures
            r == self.spec_as_u8(),
    {
        match self {
            SpellSchool::Physical => 1,
            SpellSchool::Holy => 2,
            SpellSchool::Fire => 4,
            SpellSchool::Nature => 8,
            SpellSchool::Frost => 16,
            SpellSchool::Shadow => 32,
            SpellSchool::Arcane => 64,
            SpellSchool::Holystrike => 3,
            SpellSchool::Flamestrike => 5,
            SpellSchool::Radiant => 6,
            SpellSchool::Stormstrike => 9,
            SpellSchool::Holystorm => 10,
            SpellSchool::Volcanic => 12,
            SpellSchool::Froststrike => 17,
            SpellSchool::Holyfrost => 18,
            SpellSchool::Frostfire => 20,
            SpellSchool::Froststorm => 24,
            SpellSchool::Shadowstrike => 33,
            SpellSchool::Twilight => 34,
            SpellSchool::Shadowflame => 36,
            SpellSchool::Plague => 40,
            SpellSchool::Shadowfrost => 48,
            SpellSchool::Spellstrike => 65,
            SpellSchool::Divine => 66,
            SpellSchool::Spellfire => 68,
            SpellSchool::Astral => 72,
            SpellSchool::Spellfrost => 80,
            SpellSchool::Spellshadow => 96,
            SpellSchool::Elemental => 28,
            SpellSchool::Chromatic => 62,
            SpellSchool::Cosmic => 106,
            SpellSchool::LimitedChaos => 124,
            SpellSchool::Magic => 126,
            SpellSchool::Chaos => 127,
            SpellSchool::Unknown(val) => *val,
        }
    }
}

/// The kind of power resource; ids outside the table mean mana.
#[derive(Debug, Clone, Copy, PartialEq, Eq, Structural)]
pub enum PowerType {
    Mana,
    Rage,
    Focus,
    Energy,
    ComboPoints,
    Runes,
    RunicPower,
    SoulShards,
    LunarPower,
    HolyPower,
    Alternate,
    Maelstrom,
    Chi,
    Insanity,
    BurningEmbers,
    DemonicFury,
    ArcaneCharges,
    Fury,
    Pain,
    Essence,
    RuneBlood,
    RuneFrost,
    RuneUnholy,
    AlternateQuest,
    AlternateEncounter,
    AlternateMount,
    Balance,
    Happiness,
    ShadowOrbs,
    RuneChromatic,
}

impl PowerType {
    /// The power type a wire id names; unknown ids mean mana.
    pub open spec fn spec_from_u8(value: u8) -> PowerType {
        if value == 0 {
            PowerType::Mana
        } else if value == 1 {
            PowerType::Rage
        } else if value == 2 {
            PowerType::Focus
        } else if value == 3 {
            PowerType::Energy
        } else if value == 4 {
            PowerType::ComboPoints
        } else if value == 5 {
            PowerType::Runes
        } else if value == 6 {
            PowerType::RunicPower
        } else if value == 7 {
            PowerType::SoulShards
        } else if value == 8 {
            PowerType::LunarPower
        } else if value == 9 {
            PowerType::HolyPower
        } else if value == 10 {
            PowerType::Alternate
        } else if value == 11 {
            PowerType::Maelstrom
        } else if value == 12 {
            PowerType::Chi
        } else if value == 13 {
            PowerType::Insanity
        } else if value == 14 {
            PowerType::BurningEmbers
        } else if value == 15 {
            PowerType::DemonicFury
        } else if value == 16 {
            PowerType::ArcaneCharges
        } else if value == 17 {
            PowerType::Fury
        } else if value == 18 {
            PowerType::Pain
        } else if value == 19 {
            PowerType::Essence
        } else if value == 20 {
            PowerType::RuneBlood
        } else if value == 21 {
            PowerType::RuneFrost
        } else if value == 22 {
            PowerType::RuneUnholy
        } else if value == 23 {
            PowerType::AlternateQuest
        } else if value == 24 {
            PowerType::AlternateEncounter
        } else if value == 25 {
            PowerType::AlternateMount
        } else if value == 26 {
            PowerType::Balance
        } else if value == 27 {
            PowerType::Happiness
        } else if value == 28 {
            PowerType::ShadowOrbs
        } else if value == 29 {
            PowerType::RuneChromatic
        } else {
            PowerType::Mana
        }
    }

    pub fn from_u8(value: u8) -> (r: PowerType)
        ensures
            r == PowerType::spec_from_u8(value),
    {
        match value {
            0 => PowerType::Mana,
            1 => PowerType::Rage,
            2 => PowerType::Focus,
            3 => PowerType::Energy,
            4 => PowerType::ComboPoints,
            5 => PowerType::Runes,
            6 => PowerType::RunicPower,
            7 => PowerType::SoulShards,
            8 => PowerType::LunarPower,
            9 => PowerType::HolyPower,
            10 => PowerType::Alternate,
            11 => PowerType::Maelstrom,
            12 => PowerType::Chi,
            13 => PowerType::Insanity,
            14 => PowerType::BurningEmbers,
            15 => PowerType::DemonicFury,
            16 => PowerType::ArcaneCharges,
            17 => PowerType::Fury,
            18 => PowerType::Pain,
            19 => PowerType::Essence,
            20 => PowerType::RuneBlood,
            21 => PowerType::RuneFrost,
            22 => PowerType::RuneUnholy,
            23 => PowerType::AlternateQuest,
            24 => PowerType::AlternateEncounter,
            25 => PowerType::AlternateMount,
            26 => PowerType::Balance,
            27 => PowerType::Happiness,
            28 => PowerType::ShadowOrbs,
            29 => PowerType::RuneChromatic,
            _ => PowerType::Mana,
        }
    }
}

/// Why an attack or spell failed to land.
#[derive(Debug, Clone, PartialEq, Eq)]
pub enum MissType {
    Absorb,
    Block,
    Deflect,
    Dodge,
    Evade,
    Immune,
    Miss,
    Parry,
    Reflect,
    Resist,
    Unknown(String),
}

impl MissType {
    /// The known value a wire text names, if any.
    pub open spec fn spec_of_str(s: Seq<char>) -> Option<MissType> {
        if s == "ABSORB"@ {
            Some(MissType::Absorb)
        } else if s == "BLOCK"@ {
            Some(MissType::Block)
        } else if s == "DEFLECT"@ {
            Some(MissType::Deflect)
        } else if s == "DODGE"@ {
            Some(MissType::Dodge)
        } else if s == "EVADE"@ {
            Some(MissType::Evade)
        } else if s == "IMMUNE"@ {
            Some(MissType::Immune)
        } else if s == "MISS"@ {
            Some(MissType::Miss)
        } else if s == "PARRY"@ {
            Some(MissType::Parry)
        } else if s == "REFLECT"@ {
            Some(MissType::Reflect)
        } else if s == "RESIST"@ {
            Some(MissType::Resist)
        } else {
            None
        }
    }

    /// Classifies a wire text; text outside the known set lands in the
    /// fallback arm, carrying the original text.
    pub fn from_str(value: &str) -> (r: MissType)
        ensures
            match MissType::spec_of_str(value@) {
                Some(v) => r == v,
                None => r matches MissType::Unknown(t) && t@ == value@,
            },
    {
        if str_eq_str(value, "ABSORB") {
            return MissType::Absorb;
        }
        if str_eq_str(value, "BLOCK") {
            return MissType::Block;
        }
        if str_eq_str(value, "DEFLECT") {
            return MissType::Deflect;
        }
        if str_eq_str(value, "DODGE") {
            return MissType::Dodge;
        }
        if str_eq_str(value, "EVADE") {
            return MissType::Evade;
        }
        if str_eq_str(value, "IMMUNE") {
            return MissType::Immune;
        }
        if str_eq_str(value, "MISS") {
            return MissType::Miss;
        }
        if str_eq_str(value, "PARRY") {
            return MissType::Parry;
        }
        if str_eq_str(value, "REFLECT") {
            return MissType::Reflect;
        }
        if str_eq_str(value, "RESIST") {
            return MissType::Resist;
        }
        MissType::Unknown(String::from_str(value))
    }
}

/// Whether an aura helps or harms its bearer.
#[derive(Debug, Clone, PartialEq, Eq)]
pub enum AuraType {
    Buff,
    Debuff,
    Unknown(String),
}

impl AuraType {
    /// The known value a wire text names, if any.
    pub open spec fn spec_of_str(s: Seq<char>) -> Option<AuraType> {
        if s == "BUFF"@ {
            Some(AuraType::Buff)
        } else if s == "DEBUFF"@ {
            Some(AuraType::Debuff)
        } else {
            None
        }
    }

    /// Classifies a wire text; text outside the known set lands in the
    /// fallback arm, carrying the original text.
    pub fn from_str(value: &str) -> (r: AuraType)
        ensures
            match AuraType::spec_of_str(value@) {
                Some(v) => r == v,
                None => r matches AuraType::Unknown(t) && t@ == value@,
            },
    {
        if str_eq_str(value, "BUFF") {
            return AuraType::Buff;
        }
        if str_eq_str(value, "DEBUFF") {
            return AuraType::Debuff;
        }
        AuraType::Unknown(String::from_str(value))
    }
}

/// The kind of environmental damage.
#[derive(Debug, Clone, PartialEq, Eq)]
pub enum EnvironmentalType {
    Drowning,
    Falling,
    Fatigue,
    Fire,
    Lava,
    Slime,
    Unknown(String),
}

impl EnvironmentalType {
    /// The known value a wire text names, if any.
    pub open spec fn spec_of_str(s: Seq<char>) -> Option<EnvironmentalType> {
        if s == "Drowning"@ {
            Some(EnvironmentalType::Drowning)
        } else if s == "Falling"@ {
            Some(EnvironmentalType::Falling)
        } else if s == "Fatigue"@ {
            Some(EnvironmentalType::Fatigue)
        } else if s == "Fire"@ {
            Some(EnvironmentalType::Fire)
        } else if s == "Lava"@ {
            Some(EnvironmentalType::Lava)
        } else if s == "Slime"@ {
            Some(EnvironmentalType::Slime)
        } else {
            None
        }
    }

    /// Classifies a wire text; text outside the known set lands in the
    /// fallback arm, carrying the original text.
    pub fn from_str(value: &str) -> (r: EnvironmentalType)
        ensures
            match EnvironmentalType::spec_of_str(value@) {
                Some(v) => r == v,
                None => r matches EnvironmentalType::Unknown(t) && t@ == value@,
            },
    {
        if str_eq_str(value, "Drowning") {
            return EnvironmentalType::Drowning;
        }
        if str_eq_str(value, "Falling") {
            return EnvironmentalType::Falling;
        }
        if str_eq_str(value, "Fatigue") {
            return EnvironmentalType::Fatigue;
        }
        if str_eq_str(value, "Fire") {
            return EnvironmentalType::Fire;
        }
        if str_eq_str(value, "Lava") {
            return EnvironmentalType::Lava;
        }
        if str_eq_str(value, "Slime") {
            return EnvironmentalType::Slime;
        }
        EnvironmentalType::Unknown(String::from_str(value))
    }
}

} // verus!
