use jastor::util::param_handler::ArgumentHandler;

#[test]
fn strings() {
    let p = ArgumentHandler::new("3015,\"Mug'Zee, Heads of Security\",17,25,2769");
    assert_eq!(
        p.params,
        vec!["3015", "Mug'Zee, Heads of Security", "17", "25", "2769"]
    );
}

#[test]
fn combat_info() {
    let p = ArgumentHandler::new(
        "Player-1309-0D24DBE3,0,14647,53163,319844,12360,0,0,0,11559,11559,11559,0,0,6698,6698,6698,0,12141,4096,4096,4096,24884,259,[(90624,112509,2),(90625,112510,1),(90628,112513,1),(90633,112518,1),(90635,112520,1),(90636,112521,1),(90684,112572,1),(90686,117143,1),(90692,112580,1),(90695,112583,1),(90697,112585,1),(90742,114737,1),(90743,112633,1),(90744,112634,1),(90745,112635,1),(90746,112636,1),(90750,112642,1),(90751,112643,2),(90752,112644,1),(90754,112646,1),(90756,112648,1),(90757,112649,1),(90758,112650,1),(90759,112651,2),(90760,112652,1),(90762,112654,1),(90763,112655,1),(90764,112657,1),(90769,112662,1),(90771,112664,1),(90783,112676,1),(90785,112678,2),(90786,112679,1),(94536,117106,1),(94554,117132,1),(94556,117136,1),(94557,117139,1),(94562,117145,1),(94563,117146,1),(95108,117705,1),(95109,117706,1),(95110,117707,1),(95117,117714,1),(95123,117720,1),(95131,117728,1),(95132,117729,1),(95135,117732,1),(95142,117739,1),(90741,117740,1),(99844,123375,1),(95106,126029,1),(95136,117733,1),(90740,112630,1),(90621,112505,1),(90626,112511,1),(90638,112523,1),(90639,112525,2),(90640,112526,1),(90766,112659,1),(90767,112660,2),(90768,112661,1),(90772,112665,2),(94552,117130,1),(94553,117131,1),(90622,112507,1),(90770,112663,1),(90777,112670,1)],(0,0,0,0),[(229289,645,(),(6652,11980,12176,10389,12178,11960,1494),()),(221060,619,(),(11954,10388,6652,10394,10393,12045,1654,10254),()),(229287,649,(),(6652,10355,11985,8094,12179,11962,1498),()),(0,0,(),(),()),(235417,636,(),(11977,10389,6652,11964,10383,1671,10255),()),(232727,642,(),(6652,12176,11966,10354,11979,1491,10255),()),(221042,636,(),(11977,10389,6652,11964,10383,1671,10255),()),(232400,606,(),(6652,11968,11945,1478,10254),()),(221142,535,(),(10385,10387,6652,11968),()),(221036,636,(),(11977,10389,6652,11964,10383,1671,10255),()),(221197,636,(),(11977,10389,6652,10394,10392,10383,1671,10255),()),(178872,636,(),(11977,10389,6652,10395,10878,10383,9945,10255),()),(230198,632,(),(6652,10353,11972,1481,10255),()),(232541,645,(),(10389,6652,10383,11980,1481,10255),()),(234507,636,(),(11977,10389,6652,11964,10383,1485,10255),()),(234493,645,(),(43,11215,11976,1494,10255),()),(228897,626,(),(6652,10353,11970,1475,10255),()),(202197,1,(),(),())],[Player-2073-0A627916,6673,1,Player-1403-0ABE9799,465,1,Player-1587-0E860787,21562,1,Player-1085-0AAE12D0,1459,1,Player-1084-0A81ADAB,381754,1,Player-1092-0A8E2252,462854,1,Player-1598-06DC0828,1126,1],1,0,0,0",
    );
    for param in p.params {
        let new_params = param.replace("(", "[").replace(")", "]");
        println!("{new_params}");
    }
}

#[test]
fn challenge_mode() {
    let p = ArgumentHandler::new("\"Mists of Tirna Scithe\",2290,375,11,[9,122,4,121]");
    assert_eq!(
        p.params,
        vec![
            "Mists of Tirna Scithe",
            "2290",
            "375",
            "11",
            "[9,122,4,121]"
        ]
    );
}

#[test]
fn empty_input_is_one_empty_field() {
    let p = ArgumentHandler::new("");
    assert_eq!(p.params, vec![""]);
}

#[test]
fn unterminated_bracket_runs_to_end() {
    let p = ArgumentHandler::new("a,[1,2,3");
    assert_eq!(p.params, vec!["a", "[1,2,3"]);
}

#[test]
fn nested_parens_kept_verbatim() {
    let p = ArgumentHandler::new("x,(a,(b,c)),y");
    assert_eq!(p.params, vec!["x", "(a,(b,c))", "y"]);
}

#[test]
fn quoted_comma_does_not_split_and_quotes_drop() {
    let p = ArgumentHandler::new("\"a,b\",c");
    assert_eq!(p.params, vec!["a,b", "c"]);
}

#[test]
fn field_count_is_top_level_commas_plus_one() {
    // five splitting commas: the ones inside the brackets and the quotes do
    // not count, the trailing one yields an empty final field
    let p = ArgumentHandler::new("a,[1,2],\"x,y\",b,,");
    assert_eq!(p.params.len(), 6);
    assert_eq!(p.params, vec!["a", "[1,2]", "x,y", "b", "", ""]);
}
