use figure_skating_element_parser::{parse_elements, ParsedElement};

#[test]
fn valid_single_jump() {
    let result = parse_elements("3T").expect("Failed to parse jump");
    assert_eq!(result.len(), 1);
    let element = &result[0];
    assert_eq!(element.element_type, "Jump");
    assert_eq!(element.full_name, "Triple Toeloop");
    assert_eq!(element.base_value_tenths, 42);
}

#[test]
fn valid_quad_throw_jump() {
    let result = parse_elements("4S").expect("Failed to parse quad jump");
    assert_eq!(result.len(), 1);
    let element = &result[0];
    assert_eq!(element.element_type, "Jump");
    assert_eq!(element.full_name, "Quad Salchow");
    assert_eq!(element.base_value_tenths, 97);
}

#[test]
fn elements_with_whitespace() {
    let result = parse_elements("3T  StSq  4Lo  FiDs")
        .expect("Failed to parse elements with whitespace");
    assert_eq!(result.len(), 4);

    assert_eq!(result[0].element_type, "Jump");
    assert_eq!(result[0].full_name, "Triple Toeloop");

    assert_eq!(result[1].element_type, "Step Sequence");
    assert_eq!(result[1].full_name, "Step Sequence");

    assert_eq!(result[2].element_type, "Jump");
    assert_eq!(result[2].full_name, "Quad Loop");

    assert_eq!(result[3].element_type, "Death Spiral");
    assert_eq!(result[3].full_name, "Forward Inside Death Spiral");
}

#[test]
fn valid_spin() {
    let result = parse_elements("USp").expect("Failed to parse spin");
    assert_eq!(result.len(), 1);
    let element = &result[0];
    assert_eq!(element.element_type, "Spin");
    assert_eq!(element.full_name, "Upright Spin");
    assert_eq!(element.base_value_tenths, 12);
}

#[test]
fn valid_flying_spin() {
    let result = parse_elements("FSSp").expect("Failed to parse flying spin");
    assert_eq!(result.len(), 1);
    let element = &result[0];
    assert_eq!(element.element_type, "Spin");
    assert_eq!(element.full_name, "Flying Sit Spin");
    assert_eq!(element.base_value_tenths, 26);
}

#[test]
fn valid_step_sequence() {
    let result = parse_elements("StSq").expect("Failed to parse step sequence");
    assert_eq!(result.len(), 1);
    let element = &result[0];
    assert_eq!(element.element_type, "Step Sequence");
    assert_eq!(element.full_name, "Step Sequence");
    assert_eq!(element.base_value_tenths, 15);
}

#[test]
fn valid_death_spiral() {
    let result = parse_elements("FiDs").expect("Failed to parse death spiral");
    assert_eq!(result.len(), 1);
    let element = &result[0];
    assert_eq!(element.element_type, "Death Spiral");
    assert_eq!(element.full_name, "Forward Inside Death Spiral");
    assert_eq!(element.base_value_tenths, 15);
}

#[test]
fn valid_pair_spin() {
    let result = parse_elements("PSp").expect("Failed to parse pair spin");
    assert_eq!(result.len(), 1);
    let element = &result[0];
    assert_eq!(element.element_type, "Pair Spin");
    assert_eq!(element.full_name, "Pair Spin");
    assert_eq!(element.base_value_tenths, 17);
}

#[test]
fn valid_twizzle() {
    let result = parse_elements("STw").expect("Failed to parse twizzle");
    assert_eq!(result.len(), 1);
    let element = &result[0];
    assert_eq!(element.element_type, "Twizzle");
    assert_eq!(element.full_name, "Twizzle");
    assert_eq!(element.base_value_tenths, 10);
}

#[test]
fn valid_choreographic_lift() {
    let result = parse_elements("ChLi1").expect("Failed to parse choreographic element");
    assert_eq!(result.len(), 1);
    let element = &result[0];
    assert_eq!(element.element_type, "Choreographic Element");
    assert_eq!(element.full_name, "Choreographic Lift");
    assert_eq!(element.base_value_tenths, 11);
}

#[test]
fn test_invalid_element() {
    let result = parse_elements("5X");
    assert!(
        result.is_err(),
        "Expected parsing to fail for invalid element, but it succeeded"
    );
}

#[test]
fn from_text_matches_parse_elements() {
    let a = ParsedElement::from_text("2A 3Lz").expect("parse");
    let b = parse_elements("2A 3Lz").expect("parse");
    assert_eq!(a.len(), 2);
    assert_eq!(b.len(), 2);
    for i in 0..2 {
        assert_eq!(a[i].element_type, b[i].element_type);
        assert_eq!(a[i].full_name, b[i].full_name);
        assert_eq!(a[i].base_value_tenths, b[i].base_value_tenths);
    }
    assert_eq!(a[0].full_name, "Double Axel");
    assert_eq!(a[0].base_value_tenths, 33);
    assert_eq!(a[1].full_name, "Triple Lutz");
    assert_eq!(a[1].base_value_tenths, 60);
}
