use jastor::event::flags::{
    Difficulty, RaidMarker, UnitAffiliation, UnitController, UnitFlag, UnitReaction, UnitSpecial,
    UnitType,
};
use jastor::event::raw::{
    Affix, AuraType, EnvironmentalType, EventType, MissType, PowerType, SpellSchool,
};
use jastor::error::JastorError;
use jastor::event::types;
use jastor::util::param_handler::u64_to_dec;

#[test]
fn difficulty_round_trip_known_ids() {
    for id in [1u16, 2, 8, 17, 16, 23, 151, 208, 230] {
        let d = Difficulty::from_u16(id);
        assert!(!matches!(d, Difficulty::Unknown(_)));
        assert_eq!(d.as_u16(), id);
    }
}

#[test]
fn difficulty_round_trip_unknown_id() {
    let d = Difficulty::from_u16(9999);
    assert_eq!(d, Difficulty::Unknown(9999));
    assert_eq!(d.as_u16(), 9999);
}

#[test]
fn difficulty_labels() {
    assert_eq!(Difficulty::from_u16(17).label(), "Looking For Raid");
    assert_eq!(Difficulty::from_u16(16).label(), "Mythic Raid");
    assert_eq!(Difficulty::from_u16(8).label(), "Mythic Keystone");
}

#[test]
fn unit_flag_decodes_groups() {
    let f = UnitFlag::parse(0x511).unwrap();
    assert_eq!(f.affiliation, UnitAffiliation::Mine);
    assert_eq!(f.reaction, UnitReaction::Friendly);
    assert_eq!(f.controller, UnitController::Player);
    assert_eq!(f.unit_type, UnitType::Player);
    assert_eq!(f.special, UnitSpecial::NoRole);

    let hostile_npc = UnitFlag::parse(0x0a48).unwrap();
    assert_eq!(hostile_npc.affiliation, UnitAffiliation::Outsider);
    assert_eq!(hostile_npc.reaction, UnitReaction::Hostile);
    assert_eq!(hostile_npc.controller, UnitController::Npc);
    assert_eq!(hostile_npc.unit_type, UnitType::Npc);

    let focused = UnitFlag::parse(0x20511).unwrap();
    assert_eq!(focused.special, UnitSpecial::Focus);
}

#[test]
fn unit_flag_rejects_empty_groups() {
    assert!(matches!(
        UnitFlag::parse(0),
        Err(JastorError::UnknownValue(_))
    ));
}

#[test]
fn raid_markers() {
    assert_eq!(RaidMarker::parse_flag(0x1), RaidMarker::Star);
    assert_eq!(RaidMarker::parse_flag(0x80), RaidMarker::Skull);
    assert_eq!(RaidMarker::parse_flag(0x3), RaidMarker::Unmarked);
    assert_eq!(RaidMarker::from_u8(4), RaidMarker::Triangle);
    assert_eq!(RaidMarker::from_u8(9), RaidMarker::Unmarked);
}

#[test]
fn spell_school_round_trip() {
    for id in [1u8, 2, 4, 32, 124, 127] {
        let s = SpellSchool::from_u8(id);
        assert!(!matches!(s, SpellSchool::Unknown(_)));
        assert_eq!(s.as_u8(), id);
    }
    assert_eq!(SpellSchool::from_u8(99), SpellSchool::Unknown(99));
    assert_eq!(SpellSchool::from_u8(99).as_u8(), 99);
}

#[test]
fn power_types() {
    assert_eq!(PowerType::from_u8(0), PowerType::Mana);
    assert_eq!(PowerType::from_u8(12), PowerType::Chi);
    assert_eq!(PowerType::from_u8(200), PowerType::Mana);
}

#[test]
fn miss_aura_environment_names() {
    assert_eq!(MissType::from_str("DODGE").unwrap(), MissType::Dodge);
    assert_eq!(MissType::from_str("ABSORB").unwrap(), MissType::Absorb);
    assert!(matches!(
        MissType::from_str("TRIP"),
        Err(JastorError::UnknownValue(_))
    ));
    assert_eq!(AuraType::from_str("BUFF").unwrap(), AuraType::Buff);
    assert!(AuraType::from_str("buff").is_err());
    assert_eq!(
        EnvironmentalType::from_str("Lava").unwrap(),
        EnvironmentalType::Lava
    );
    assert!(EnvironmentalType::from_str("Meteor").is_err());
    assert_eq!(MissType::Deflect.label(), "DEFLECT");
    assert_eq!(AuraType::Debuff.label(), "DEBUFF");
    assert_eq!(EnvironmentalType::Fatigue.label(), "Fatigue");
}

#[test]
fn affixes() {
    assert_eq!(Affix::from_u16(9), Affix::Tyrannical);
    assert_eq!(Affix::from_u16(122), Affix::Inspiring);
    assert_eq!(Affix::from_u16(4), Affix::Necrotic);
    assert_eq!(Affix::from_u16(121), Affix::Prideful);
    assert_eq!(Affix::from_u16(500), Affix::Unknown(500));
}

#[test]
fn registry_tags_and_labels() {
    assert_eq!(
        EventType::from_str("SWING_DAMAGE").unwrap(),
        EventType::SwingDamage
    );
    assert_eq!(
        EventType::from_str("SPELL_PERIODIC_AURA_BROKEN_SPELL").unwrap(),
        EventType::SpellPeriodicAuraBrokenSpell
    );
    assert_eq!(EventType::SpellInstaKill.label(), "SPELL_INSTAKILL");
    match EventType::from_str("SOME_FUTURE_EVENT") {
        Err(JastorError::UnknownEvent(t)) => assert_eq!(t, "SOME_FUTURE_EVENT"),
        other => panic!("expected an unknown-event error, got {other:?}"),
    }
}

#[test]
fn registry_layouts() {
    assert_eq!(EventType::SwingDamage.prefix_parameters(), 0);
    assert_eq!(EventType::RangeDamage.prefix_parameters(), 0);
    assert_eq!(EventType::SpellDamage.prefix_parameters(), 3);
    assert_eq!(EventType::EnvironmentalDamage.prefix_parameters(), 1);
    assert!(EventType::SpellDamage.has_advanced_parameters());
    assert!(!EventType::SwingDamage.has_advanced_parameters());
    assert!(EventType::EncounterStart.has_short_parameters());
    assert!(!EventType::SpellHeal.has_short_parameters());
    assert!(EventType::Emote.skip());
    assert!(EventType::CombatantInfo.skip());
    assert!(!EventType::SpellHeal.skip());
}

#[test]
fn open_classification_preserves_unknown_text() {
    assert_eq!(
        types::EventType::from_str("ZONE_CHANGE"),
        types::EventType::ZoneChange
    );
    match types::EventType::from_str("SOME_FUTURE_EVENT") {
        types::EventType::UnknownEvent(t) => assert_eq!(t, "SOME_FUTURE_EVENT"),
        other => panic!("expected the fallback arm, got {other:?}"),
    }
    assert_eq!(
        types::MissType::from_str("PARRY"),
        types::MissType::Parry
    );
    match types::MissType::from_str("TRIP") {
        types::MissType::Unknown(t) => assert_eq!(t, "TRIP"),
        other => panic!("expected the fallback arm, got {other:?}"),
    }
    assert_eq!(types::SpellSchool::from_u8(64), types::SpellSchool::Arcane);
    assert_eq!(types::SpellSchool::from_u8(64).as_u8(), 64);
    assert_eq!(types::PowerType::from_u8(6), types::PowerType::RunicPower);
    assert_eq!(types::AuraType::from_str("DEBUFF"), types::AuraType::Debuff);
    assert_eq!(
        types::EnvironmentalType::from_str("Falling"),
        types::EnvironmentalType::Falling
    );
}

#[test]
fn unknown_labels_carry_the_id() {
    assert_eq!(
        Difficulty::from_u16(9999).label(),
        "unknown difficulty id: 9999"
    );
    assert_eq!(Affix::from_u16(500).label(), "Unknown affix id: 500");
    assert_eq!(Affix::Tyrannical.label(), "Affix: \"Tyrannical\"");
    assert_eq!(
        Affix::from_u16(147).label(),
        "Affix: \"Xal'atath's Guile\""
    );
}

#[test]
fn decimal_rendering() {
    assert_eq!(u64_to_dec(0), "0");
    assert_eq!(u64_to_dec(7), "7");
    assert_eq!(u64_to_dec(9999), "9999");
    assert_eq!(u64_to_dec(u64::MAX), "18446744073709551615");
}
