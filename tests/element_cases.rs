use figure_skating_element_parser::{
    get_base_value, get_full_name, parse_elements, split_tokens, total_base_value_tenths,
    ElementFamily, ElementParser, ParseError,
};

fn offending(r: Result<Vec<figure_skating_element_parser::ParsedElement>, ParseError>) -> String {
    match r {
        Ok(_) => panic!("expected an error"),
        Err(ParseError::ParseError(t)) => t,
    }
}

#[test]
fn every_table_code_parses_alone() {
    let cases: Vec<(&str, &str, &str, u32)> = vec![
        ("1T", "Jump", "Single Toeloop", 4),
        ("4T", "Jump", "Quad Toeloop", 95),
        ("3S", "Jump", "Triple Salchow", 43),
        ("1Lo", "Jump", "Single Loop", 5),
        ("2F", "Jump", "Double Flip", 18),
        ("4F", "Jump", "Quad Flip", 110),
        ("1Lz", "Jump", "Single Lutz", 6),
        ("4Lz", "Jump", "Quad Lutz", 115),
        ("1A", "Jump", "Single Axel", 11),
        ("4A", "Jump", "Quad Axel", 125),
        ("LSp", "Spin", "Layback Spin", 15),
        ("CSp", "Spin", "Camel Spin", 17),
        ("SSp", "Spin", "Sit Spin", 18),
        ("FUSp", "Spin", "Flying Upright Spin", 20),
        ("FLSp", "Spin", "Flying Layback Spin", 23),
        ("FCSp", "Spin", "Flying Camel Spin", 25),
        ("FCCSp", "Spin", "Flying Change Foot Camel Spin", 28),
        ("ChSq", "Step Sequence", "Choreographic Sequence", 30),
        ("BiDs", "Death Spiral", "Backward Inside Death Spiral", 16),
        ("FoDs", "Death Spiral", "Forward Outside Death Spiral", 17),
        ("BoDs", "Death Spiral", "Backward Outside Death Spiral", 18),
        ("PCoSp", "Pair Spin", "Pair Combination Spin", 25),
        ("ChSp1", "Choreographic Element", "Choreographic Spinning Movement", 11),
    ];
    for (code, family, name, tenths) in cases {
        let r = parse_elements(code).expect("a table code parses");
        assert_eq!(r.len(), 1);
        assert_eq!(r[0].element_type, family);
        assert_eq!(r[0].full_name, name);
        assert_eq!(r[0].base_value_tenths, tenths);
    }
}

#[test]
fn triple_axel_scenario() {
    let r = parse_elements("3A").expect("parse");
    assert_eq!(r.len(), 1);
    assert_eq!(r[0].element_type, "Jump");
    assert_eq!(r[0].full_name, "Triple Axel");
    assert_eq!(r[0].base_value_tenths, 80);
}

#[test]
fn four_elements_scenario_values() {
    let r = parse_elements("3T  StSq  4Lo  FiDs").expect("parse");
    let values: Vec<u32> = r.iter().map(|e| e.base_value_tenths).collect();
    assert_eq!(values, vec![42, 15, 105, 15]);
    assert_eq!(total_base_value_tenths(&r), 177);
}

#[test]
fn empty_text_gives_no_records() {
    assert_eq!(parse_elements("").expect("empty parses").len(), 0);
}

#[test]
fn blank_text_gives_no_records() {
    assert_eq!(parse_elements("   ").expect("blank parses").len(), 0);
    assert_eq!(parse_elements(" \t\n\r ").expect("blank parses").len(), 0);
}

#[test]
fn mixed_white_space_keeps_order() {
    let r = parse_elements("\t1A \n\n 2Lo\t\tSTw  ").expect("parse");
    let names: Vec<&str> = r.iter().map(|e| e.full_name.as_str()).collect();
    assert_eq!(names, vec!["Single Axel", "Double Loop", "Twizzle"]);
}

#[test]
fn unicode_white_space_separates() {
    let r = parse_elements("3A\u{a0}3T\u{3000}USp").expect("parse");
    assert_eq!(r.len(), 3);
    assert_eq!(r[1].full_name, "Triple Toeloop");
}

#[test]
fn error_names_first_bad_token() {
    assert_eq!(offending(parse_elements("5X")), "5X");
    assert_eq!(offending(parse_elements("3A 5X 3T Qq")), "5X");
    assert_eq!(offending(parse_elements("3A 3t")), "3t");
}

#[test]
fn partial_or_extended_codes_are_rejected() {
    for bad in ["3", "3Lzz", "5T", "Sp", "FCCSpX", "stsq", "FUSpA", "3A3T", "ChLi2"] {
        assert!(parse_elements(bad).is_err(), "{bad} should be rejected");
    }
}

#[test]
fn parse_twice_agrees() {
    let text = "4A FCCSp BoDs PCoSp ChSp1";
    let a = parse_elements(text).expect("parse");
    let b = parse_elements(text).expect("parse");
    assert_eq!(a.len(), 5);
    assert_eq!(a.len(), b.len());
    for i in 0..a.len() {
        assert_eq!(a[i].element_type, b[i].element_type);
        assert_eq!(a[i].full_name, b[i].full_name);
        assert_eq!(a[i].base_value_tenths, b[i].base_value_tenths);
    }
    assert_eq!(offending(parse_elements("1T 9Z")), offending(parse_elements("1T 9Z")));
}

#[test]
fn lookup_of_unknown_code_gives_sentinel() {
    assert_eq!(get_full_name("FCCUSp"), "Unknown Element");
    assert_eq!(get_base_value("FCCUSp"), 0);
    assert_eq!(get_full_name(""), "Unknown Element");
    assert_eq!(get_full_name("3Lo"), "Triple Loop");
    assert_eq!(get_base_value("3Lo"), 49);
}

#[test]
fn classify_reports_family() {
    assert_eq!(ElementParser::classify("3A"), Some(ElementFamily::Jump));
    assert_eq!(ElementParser::classify("FSSp"), Some(ElementFamily::Spin));
    assert_eq!(ElementParser::classify("ChSq"), Some(ElementFamily::StepSequence));
    assert_eq!(ElementParser::classify("PSp"), Some(ElementFamily::PairSpin));
    assert_eq!(ElementParser::classify("FoDs"), Some(ElementFamily::DeathSpiral));
    assert_eq!(ElementParser::classify("STw"), Some(ElementFamily::Twizzle));
    assert_eq!(ElementParser::classify("ChLi1"), Some(ElementFamily::ChoreographicElement));
    assert_eq!(ElementParser::classify("5X"), None);
    assert_eq!(ElementFamily::ChoreographicElement.display_name(), "Choreographic Element");
}

#[test]
fn split_drops_empty_runs() {
    assert_eq!(split_tokens("  a bc\t\td  "), vec!["a", "bc", "d"]);
    assert!(split_tokens("").is_empty());
    assert_eq!(split_tokens("é\u{2028}ü"), vec!["é", "ü"]);
}

#[test]
fn total_of_no_records_is_zero() {
    assert_eq!(total_base_value_tenths(&[]), 0);
}
