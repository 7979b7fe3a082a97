use jastor::error::JastorError;
use jastor::event::Event;
use jastor::event::flags::{Difficulty, RaidMarker, UnitAffiliation, UnitReaction};
use jastor::event::parser::EventParser;
use jastor::event::raw::{Affix, AuraType, MissType, SpellSchool};

const TS: &str = "4/22/2025 10:15:30.500";

fn advanced_block() -> String {
    [
        "Player-1-1",
        "0000000000000000",
        "53163",
        "319844",
        "12360",
        "0",
        "0",
        "0",
        "11559",
        "11559",
        "11559",
        "3|100",
        "200",
        "1|50",
        "1052.34",
        "-2300.95",
        "2769",
        "3.1415",
        "80",
    ]
    .join(",")
}

fn combat_line(tag: &str, suffix: &str) -> String {
    format!(
        "{TS}  {tag},Player-1-1,\"Alice\",0x511,0x0,Creature-2-2,\"Boss\",0xa48,0x0,12345,\"Frostbolt\",16,{},{suffix}",
        advanced_block()
    )
}

#[test]
fn encounter_start_line() {
    let line = "3/10/2025 20:01:02.123  ENCOUNTER_START,3015,\"Mug'Zee, Heads of Security\",17,25,2769";
    let parser = EventParser::new(line).unwrap();
    assert!(!parser.skip());
    assert_eq!(parser.timestamp(), 1741636862);
    match parser.parse().unwrap() {
        Event::EncounterStart { id, name, difficulty, size, instance } => {
            assert_eq!(id, 3015);
            assert_eq!(name, "Mug'Zee, Heads of Security");
            assert_eq!(difficulty, Difficulty::LFR);
            assert_eq!(size, 25);
            assert_eq!(instance, 2769);
        },
        other => panic!("expected an encounter start, got {other:?}"),
    }
}

#[test]
fn encounter_end_line() {
    let line = format!("{TS}  ENCOUNTER_END,3015,\"Mug'Zee, Heads of Security\",16,20,1,305000");
    match EventParser::new(&line).unwrap().parse().unwrap() {
        Event::EncounterEnd { id, difficulty, size, success, length, .. } => {
            assert_eq!(id, 3015);
            assert_eq!(difficulty, Difficulty::MythicRaid);
            assert_eq!(size, 20);
            assert!(success);
            assert_eq!(length, 305000);
        },
        other => panic!("expected an encounter end, got {other:?}"),
    }
}

#[test]
fn arena_match_end_line() {
    let line = "5/1/2025 12:00:00.000  ARENA_MATCH_END,1,185,1542,1498";
    let parser = EventParser::new(line).unwrap();
    assert_eq!(parser.timestamp(), 1746100800);
    match parser.parse().unwrap() {
        Event::ArenaMatchEnd { winner, duration, team_one_rating, team_two_rating } => {
            assert_eq!(winner, 1);
            assert_eq!(duration, 185);
            assert_eq!(team_one_rating, 1542);
            assert_eq!(team_two_rating, 1498);
        },
        other => panic!("expected an arena match end, got {other:?}"),
    }
}

#[test]
fn spell_missed_absorb_reads_amounts() {
    let line = combat_line("SPELL_MISSED", "ABSORB,0,150,200,0");
    match EventParser::new(&line).unwrap().parse().unwrap() {
        Event::Miss {
            source,
            target,
            spell_info,
            advanced,
            miss_type,
            is_offhand,
            amount,
            total_amount,
            critical,
        } => {
            assert_eq!(miss_type, MissType::Absorb);
            assert!(!is_offhand);
            assert_eq!(amount, 150);
            assert_eq!(total_amount, 200);
            assert!(!critical);
            let src = source.unwrap();
            assert_eq!(src.name, "Alice");
            assert_eq!(src.flags.affiliation, UnitAffiliation::Mine);
            let tgt = target.unwrap();
            assert_eq!(tgt.name, "Boss");
            assert_eq!(tgt.flags.reaction, UnitReaction::Hostile);
            let spell = spell_info.unwrap();
            assert_eq!(spell.id, 12345);
            assert_eq!(spell.name, "Frostbolt");
            assert_eq!(spell.school, SpellSchool::Frost);
            let adv = advanced.unwrap();
            assert_eq!(adv.current_hp, 53163);
            assert_eq!(adv.max_hp, 319844);
            assert_eq!(adv.current_power, 100);
            assert_eq!(adv.max_power, 200);
            assert_eq!(adv.power_cost, 50);
            assert_eq!(adv.x, "1052.34");
            assert_eq!(adv.y, "-2300.95");
            assert_eq!(adv.map_id, 2769);
            assert_eq!(adv.level, 80);
        },
        other => panic!("expected a miss, got {other:?}"),
    }
}

#[test]
fn spell_missed_dodge_defaults_amounts() {
    let line = combat_line("SPELL_MISSED", "DODGE,0");
    match EventParser::new(&line).unwrap().parse().unwrap() {
        Event::Miss { miss_type, is_offhand, amount, total_amount, critical, .. } => {
            assert_eq!(miss_type, MissType::Dodge);
            assert!(!is_offhand);
            assert_eq!(amount, 0);
            assert_eq!(total_amount, 0);
            assert!(!critical);
        },
        other => panic!("expected a miss, got {other:?}"),
    }
}

#[test]
fn spell_damage_line() {
    let line = combat_line("SPELL_DAMAGE", "5000,4800,0,16,0,0,200,1,nil,nil,ST");
    match EventParser::new(&line).unwrap().parse().unwrap() {
        Event::Damage {
            amount,
            base_amount,
            overkill,
            school,
            resisted,
            blocked,
            absorbed,
            critical,
            glancing,
            is_offhand,
            damage_type,
            support_guid,
            ..
        } => {
            assert_eq!(amount, 5000);
            assert_eq!(base_amount, 4800);
            assert_eq!(overkill, 0);
            assert_eq!(school, SpellSchool::Frost);
            assert_eq!(resisted, 0);
            assert_eq!(blocked, 0);
            assert_eq!(absorbed, 200);
            assert!(critical);
            assert!(!glancing);
            assert!(!is_offhand);
            assert_eq!(damage_type.as_deref(), Some("ST"));
            assert!(support_guid.is_none());
        },
        other => panic!("expected a damage event, got {other:?}"),
    }
}

#[test]
fn swing_damage_has_no_prefix_and_no_advanced() {
    let line = format!(
        "{TS}  SWING_DAMAGE,Player-1-1,\"Alice\",0x511,0x0,Creature-2-2,\"Boss\",0xa48,0x0,700,700,0,1,0,0,0,nil,nil,nil"
    );
    match EventParser::new(&line).unwrap().parse().unwrap() {
        Event::Damage { amount, school, spell_info, advanced, damage_type, .. } => {
            assert_eq!(amount, 700);
            assert_eq!(school, SpellSchool::Physical);
            assert!(spell_info.is_none());
            assert!(advanced.is_none());
            assert!(damage_type.is_none());
        },
        other => panic!("expected a damage event, got {other:?}"),
    }
}

#[test]
fn aura_applied_without_amount() {
    let line = combat_line("SPELL_AURA_APPLIED", "BUFF");
    match EventParser::new(&line).unwrap().parse().unwrap() {
        Event::Aura { aura_type, amount, extra_spell, .. } => {
            assert_eq!(aura_type, AuraType::Buff);
            assert_eq!(amount, 0);
            assert!(extra_spell.is_none());
        },
        other => panic!("expected an aura event, got {other:?}"),
    }
}

#[test]
fn aura_applied_dose_with_amount() {
    let line = combat_line("SPELL_AURA_APPLIED_DOSE", "DEBUFF,3");
    match EventParser::new(&line).unwrap().parse().unwrap() {
        Event::Aura { aura_type, amount, .. } => {
            assert_eq!(aura_type, AuraType::Debuff);
            assert_eq!(amount, 3);
        },
        other => panic!("expected an aura event, got {other:?}"),
    }
}

#[test]
fn drain_line() {
    let line = combat_line("SPELL_DRAIN", "250,0,50,11559");
    match EventParser::new(&line).unwrap().parse().unwrap() {
        Event::Drain { amount, power_type, extra_amount, max_power, .. } => {
            assert_eq!(amount, 250);
            assert_eq!(power_type, jastor::event::raw::PowerType::Mana);
            assert_eq!(extra_amount, 50);
            assert_eq!(max_power, 11559);
        },
        other => panic!("expected a drain event, got {other:?}"),
    }
}

#[test]
fn cast_start_line() {
    let line = combat_line("SPELL_CAST_START", "");
    match EventParser::new(&line).unwrap().parse().unwrap() {
        Event::SpellCast { source, spell_info, failure_reason, .. } => {
            assert_eq!(source.name, "Alice");
            assert_eq!(spell_info.id, 12345);
            // the suffix window holds one empty field, kept as the reason text
            assert_eq!(failure_reason.as_deref(), Some(""));
        },
        other => panic!("expected a cast event, got {other:?}"),
    }
}

#[test]
fn unhandled_combat_tag_is_a_placeholder() {
    let line = format!(
        "{TS}  UNIT_DIED,Player-1-1,\"Alice\",0x511,0x0,Creature-2-2,\"Boss\",0xa48,0x0,0"
    );
    match EventParser::new(&line).unwrap().parse().unwrap() {
        Event::Placeholder => {},
        other => panic!("expected the placeholder, got {other:?}"),
    }
}

#[test]
fn challenge_mode_start_line() {
    let line =
        format!("{TS}  CHALLENGE_MODE_START,\"Mists of Tirna Scithe\",2290,375,11,[9,122,4,121]");
    match EventParser::new(&line).unwrap().parse().unwrap() {
        Event::ChallengeModeStart { name, id, challenge_id, keystone_level, affixes } => {
            assert_eq!(name, "Mists of Tirna Scithe");
            assert_eq!(id, 2290);
            assert_eq!(challenge_id, 375);
            assert_eq!(keystone_level, 11);
            assert_eq!(
                affixes,
                vec![Affix::Tyrannical, Affix::Inspiring, Affix::Necrotic, Affix::Prideful]
            );
        },
        other => panic!("expected a challenge mode start, got {other:?}"),
    }
}

#[test]
fn challenge_mode_start_rejects_a_malformed_affix_list() {
    let line = format!("{TS}  CHALLENGE_MODE_START,\"Somewhere\",1,2,3,[9,122");
    assert!(matches!(
        EventParser::new(&line).unwrap().parse(),
        Err(JastorError::ParseError(_))
    ));
}

#[test]
fn zone_change_line() {
    let line = format!("{TS}  ZONE_CHANGE,2769,\"Liberation of Undermine\",16");
    match EventParser::new(&line).unwrap().parse().unwrap() {
        Event::ZoneChange { id, name, difficulty } => {
            assert_eq!(id, 2769);
            assert_eq!(name, "Liberation of Undermine");
            assert_eq!(difficulty, Difficulty::MythicRaid);
        },
        other => panic!("expected a zone change, got {other:?}"),
    }
}

#[test]
fn map_change_reads_one_coordinate_field() {
    let line = format!("{TS}  MAP_CHANGE,2406,\"Undermine\",1000.5,2000.5,3000.5,4000.5");
    match EventParser::new(&line).unwrap().parse().unwrap() {
        Event::MapChange { id, name, x0, x1, y0, y1 } => {
            assert_eq!(id, 2406);
            assert_eq!(name, "Undermine");
            // the source format reads the same field four times
            assert_eq!(x0, "1000.5");
            assert_eq!(x1, "1000.5");
            assert_eq!(y0, "1000.5");
            assert_eq!(y1, "1000.5");
        },
        other => panic!("expected a map change, got {other:?}"),
    }
}

#[test]
fn combat_log_version_line() {
    let line = format!(
        "{TS}  COMBAT_LOG_VERSION,21,ADVANCED_LOG_ENABLED,1,BUILD_VERSION,11.1.0,PROJECT_ID,1"
    );
    match EventParser::new(&line).unwrap().parse().unwrap() {
        Event::CombatLogVersion { version, build } => {
            assert_eq!(version, 21);
            assert_eq!(build, "11.1.0");
        },
        other => panic!("expected a combat log version, got {other:?}"),
    }
}

#[test]
fn world_markers() {
    let placed = format!("{TS}  WORLD_MARKER_PLACED,2769,5,1052.34,-2300.95");
    match EventParser::new(&placed).unwrap().parse().unwrap() {
        Event::WorldMarkerPlaced { instance, marker, x, y } => {
            assert_eq!(instance, 2769);
            assert_eq!(marker, RaidMarker::Moon);
            assert_eq!(x, "1052.34");
            assert_eq!(y, "-2300.95");
        },
        other => panic!("expected a placed marker, got {other:?}"),
    }
    let removed = format!("{TS}  WORLD_MARKER_REMOVED,8");
    match EventParser::new(&removed).unwrap().parse().unwrap() {
        Event::WorldMarkerRemoved { marker } => assert_eq!(marker, RaidMarker::Skull),
        other => panic!("expected a removed marker, got {other:?}"),
    }
}

#[test]
fn stagger_clear_line() {
    let line = format!("{TS}  STAGGER_CLEAR,Player-1-1,12345.6");
    match EventParser::new(&line).unwrap().parse().unwrap() {
        Event::StaggerClear { guid, value } => {
            assert_eq!(guid, "Player-1-1");
            assert_eq!(value, "12345.6");
        },
        other => panic!("expected a stagger clear, got {other:?}"),
    }
}

#[test]
fn unknown_tag_surfaces_as_unknown_event() {
    let line = format!("{TS}  SOME_FUTURE_EVENT,1,2,3");
    match EventParser::new(&line) {
        Err(JastorError::UnknownEvent(t)) => assert_eq!(t, "SOME_FUTURE_EVENT"),
        other => panic!("expected an unknown-event error, got {other:?}"),
    }
}

#[test]
fn skippable_tags_are_flagged() {
    let line = format!("{TS}  EMOTE,Creature-2-2,\"Boss\",0000,nil,says something");
    let parser = EventParser::new(&line).unwrap();
    assert!(parser.skip());
}

#[test]
fn malformed_lines_are_parse_errors() {
    // no double-space separator
    assert!(matches!(
        EventParser::new("4/22/2025 10:15:30.500 ZONE_CHANGE,1,x,2"),
        Err(JastorError::ParseError(_))
    ));
    // no comma after the tag
    assert!(matches!(
        EventParser::new("4/22/2025 10:15:30.500  ZONE_CHANGE"),
        Err(JastorError::ParseError(_))
    ));
    // a timestamp outside the format
    assert!(matches!(
        EventParser::new("13/45/2025 99:99:99.000  ZONE_CHANGE,1,x,2"),
        Err(JastorError::ParseError(_))
    ));
}

#[test]
fn truncated_combat_line_fails_instead_of_panicking() {
    let line = format!("{TS}  SPELL_DAMAGE,Player-1-1,\"Alice\",0x511,0x0");
    assert!(EventParser::new(&line).unwrap().parse().is_err());
}

#[test]
fn spell_damage_support_carries_a_support_guid() {
    let line = combat_line("SPELL_DAMAGE_SUPPORT", "5000,4800,0,16,0,0,0,nil,nil,nil,Player-9-9");
    match EventParser::new(&line).unwrap().parse().unwrap() {
        Event::Damage { damage_type, support_guid, .. } => {
            assert!(damage_type.is_none());
            assert_eq!(support_guid.as_deref(), Some("Player-9-9"));
        },
        other => panic!("expected a damage event, got {other:?}"),
    }
}

#[test]
fn heal_lines() {
    let line = combat_line("SPELL_HEAL", "3000,3000,500,0,nil");
    match EventParser::new(&line).unwrap().parse().unwrap() {
        Event::Heal { amount, base_amount, overhealing, absorbed, critical, support_guid, .. } => {
            assert_eq!(amount, 3000);
            assert_eq!(base_amount, 3000);
            assert_eq!(overhealing, 500);
            assert_eq!(absorbed, 0);
            assert!(!critical);
            assert!(support_guid.is_none());
        },
        other => panic!("expected a heal event, got {other:?}"),
    }
    let line = combat_line("SPELL_HEAL_SUPPORT", "3000,3000,0,0,1,Player-9-9");
    match EventParser::new(&line).unwrap().parse().unwrap() {
        Event::Heal { critical, support_guid, .. } => {
            assert!(critical);
            assert_eq!(support_guid.as_deref(), Some("Player-9-9"));
        },
        other => panic!("expected a heal event, got {other:?}"),
    }
}

#[test]
fn absorb_line_with_prefix() {
    let line = combat_line(
        "SPELL_ABSORBED",
        "Player-3-3,\"Healer\",0x511,0x0,17,\"Shield\",2,500,600,nil",
    );
    match EventParser::new(&line).unwrap().parse().unwrap() {
        Event::Absorb { spell_info, caster, absorbed_spell, amount, total_amount, critical, .. } => {
            assert_eq!(spell_info.unwrap().id, 12345);
            assert_eq!(caster.unwrap().name, "Healer");
            let shield = absorbed_spell.unwrap();
            assert_eq!(shield.id, 17);
            assert_eq!(shield.school, SpellSchool::Holy);
            assert_eq!(amount, 500);
            assert_eq!(total_amount, 600);
            assert!(!critical);
        },
        other => panic!("expected an absorb event, got {other:?}"),
    }
}

#[test]
fn heal_absorb_line() {
    let line = combat_line(
        "SPELL_HEAL_ABSORBED",
        "Player-3-3,\"Healer\",0x511,0x0,17,\"Shield\",2,450,500",
    );
    match EventParser::new(&line).unwrap().parse().unwrap() {
        Event::HealAbsorb { extra_unit, extra_spell_info, absorbed_amount, total_amount, .. } => {
            assert_eq!(extra_unit.unwrap().name, "Healer");
            assert_eq!(extra_spell_info.unwrap().id, 17);
            assert_eq!(absorbed_amount, 450);
            assert_eq!(total_amount, 500);
        },
        other => panic!("expected a heal absorb event, got {other:?}"),
    }
}

#[test]
fn dispel_lines() {
    let line = combat_line("SPELL_DISPEL", "8122,\"Psychic Scream\",32,DEBUFF");
    match EventParser::new(&line).unwrap().parse().unwrap() {
        Event::Dispel { extra_spell, aura_type, failed, .. } => {
            let scream = extra_spell.unwrap();
            assert_eq!(scream.id, 8122);
            assert_eq!(scream.name, "Psychic Scream");
            assert_eq!(aura_type, Some(AuraType::Debuff));
            assert!(!failed);
        },
        other => panic!("expected a dispel event, got {other:?}"),
    }
    let line = combat_line("SPELL_DISPEL_FAILED", "8122,\"Psychic Scream\",32");
    match EventParser::new(&line).unwrap().parse().unwrap() {
        Event::Dispel { aura_type, failed, .. } => {
            assert!(aura_type.is_none());
            assert!(failed);
        },
        other => panic!("expected a dispel event, got {other:?}"),
    }
}

#[test]
fn stolen_line() {
    let line = combat_line("SPELL_STOLEN", "1459,\"Arcane Intellect\",64,BUFF");
    match EventParser::new(&line).unwrap().parse().unwrap() {
        Event::Stolen { extra_spell, aura_type, .. } => {
            assert_eq!(extra_spell.unwrap().school, SpellSchool::Arcane);
            assert_eq!(aura_type, AuraType::Buff);
        },
        other => panic!("expected a stolen event, got {other:?}"),
    }
}

#[test]
fn aura_broken_by_spell_line() {
    let line = combat_line("SPELL_AURA_BROKEN_SPELL", "8122,\"Psychic Scream\",32,DEBUFF");
    match EventParser::new(&line).unwrap().parse().unwrap() {
        Event::Aura { extra_spell, aura_type, amount, .. } => {
            assert_eq!(extra_spell.unwrap().id, 8122);
            assert_eq!(aura_type, AuraType::Debuff);
            assert_eq!(amount, 0);
        },
        other => panic!("expected an aura event, got {other:?}"),
    }
}

#[test]
fn extra_attacks_line() {
    let line = combat_line("SPELL_EXTRA_ATTACKS", "2");
    match EventParser::new(&line).unwrap().parse().unwrap() {
        Event::ExtraAttacks { amount, .. } => assert_eq!(amount, 2),
        other => panic!("expected an extra attacks event, got {other:?}"),
    }
}

#[test]
fn energize_line_keeps_fractional_amounts_as_text() {
    let line = combat_line("SPELL_ENERGIZE", "2.5,0.0,3,120");
    match EventParser::new(&line).unwrap().parse().unwrap() {
        Event::Energize { amount, over_energize, power_type, max_power, .. } => {
            assert_eq!(amount, "2.5");
            assert_eq!(over_energize, "0.0");
            assert_eq!(power_type, jastor::event::raw::PowerType::Energy);
            assert_eq!(max_power, 120);
        },
        other => panic!("expected an energize event, got {other:?}"),
    }
}

#[test]
fn leech_line() {
    let line = combat_line("SPELL_LEECH", "100,0,50");
    match EventParser::new(&line).unwrap().parse().unwrap() {
        Event::Leech { amount, power_type, extra_amount, .. } => {
            assert_eq!(amount, 100);
            assert_eq!(power_type, jastor::event::raw::PowerType::Mana);
            assert_eq!(extra_amount, 50);
        },
        other => panic!("expected a leech event, got {other:?}"),
    }
}

#[test]
fn arena_match_start_line() {
    let line = format!("{TS}  ARENA_MATCH_START,2547,30,Skirmish,2");
    match EventParser::new(&line).unwrap().parse().unwrap() {
        Event::ArenaMatchStart { id, unk, match_type, team } => {
            assert_eq!(id, 2547);
            assert_eq!(unk, 30);
            assert_eq!(match_type, "Skirmish");
            assert_eq!(team, 2);
        },
        other => panic!("expected an arena match start, got {other:?}"),
    }
}

#[test]
fn challenge_mode_end_line() {
    let line = format!("{TS}  CHALLENGE_MODE_END,2290,1,11,1850000");
    match EventParser::new(&line).unwrap().parse().unwrap() {
        Event::ChallengeModeEnd { id, success, keystone_level, duration } => {
            assert_eq!(id, 2290);
            assert!(success);
            assert_eq!(keystone_level, 11);
            assert_eq!(duration, 1850000);
        },
        other => panic!("expected a challenge mode end, got {other:?}"),
    }
}

#[test]
fn environmental_prefix_names_no_spell() {
    let line = format!(
        "{TS}  ENVIRONMENTAL_DAMAGE,Player-1-1,\"Alice\",0x511,0x0,Creature-2-2,\"Boss\",0xa48,0x0,Falling,500,500,0,1,0,0,0,nil,nil,nil"
    );
    let parser = EventParser::new(&line).unwrap();
    // the one-field window exists but holds a damage-type name, not a spell
    assert!(matches!(parser.spell_prefix(), Ok(None)));
    // the assembly rule for environmental damage is the explicit gap
    assert!(matches!(parser.parse().unwrap(), Event::Placeholder));
}

#[test]
fn fractional_fields_must_be_number_shaped() {
    let bad_stagger = format!("{TS}  STAGGER_CLEAR,Player-1-1,abc");
    assert!(matches!(
        EventParser::new(&bad_stagger).unwrap().parse(),
        Err(JastorError::ParseError(_))
    ));
    let nil_stagger = format!("{TS}  STAGGER_CLEAR,Player-1-1,nil");
    match EventParser::new(&nil_stagger).unwrap().parse().unwrap() {
        Event::StaggerClear { value, .. } => assert_eq!(value, "nil"),
        other => panic!("expected a stagger clear, got {other:?}"),
    }
    let bad_map = format!("{TS}  MAP_CHANGE,2406,\"Undermine\",east,2000.5,3000.5,4000.5");
    assert!(matches!(
        EventParser::new(&bad_map).unwrap().parse(),
        Err(JastorError::ParseError(_))
    ));
    let bad_energize = combat_line("SPELL_ENERGIZE", "abc,0.0,3,120");
    assert!(matches!(
        EventParser::new(&bad_energize).unwrap().parse(),
        Err(JastorError::ParseError(_))
    ));
}

#[test]
fn advanced_block_power_triple_is_three_fields() {
    // same window, but with distinct bare and type-tagged power fields
    let line = format!(
        "{TS}  SPELL_HEAL,Player-1-1,\"Alice\",0x511,0x0,Creature-2-2,\"Boss\",0xa48,0x0,12345,\"Renew\",2,Player-1-1,0000000000000000,53163,319844,0,0,0,0,0,0,0,11559,12000,3|550,10.0,20.0,2769,0.5,80,900,900,0,0,nil"
    );
    match EventParser::new(&line).unwrap().parse().unwrap() {
        Event::Heal { advanced, .. } => {
            let adv = advanced.unwrap();
            assert_eq!(adv.current_power, 11559);
            assert_eq!(adv.max_power, 12000);
            assert_eq!(adv.power_cost, 550);
        },
        other => panic!("expected a heal event, got {other:?}"),
    }
}
