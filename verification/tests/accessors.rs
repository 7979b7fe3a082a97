use jastor::error::JastorError;
use jastor::util::param_handler::{ParameterHandler, SliceHander};

fn window(fields: &[&str]) -> Vec<String> {
    fields.iter().map(|s| s.to_string()).collect()
}

#[test]
fn numbers_hex_nil_decimal() {
    let w = window(&["0x1F", "nil", "7", "abc"]);
    let h = SliceHander::new(&w);
    assert_eq!(h.as_usize(0).unwrap(), 31);
    assert_eq!(h.as_usize(1).unwrap(), 0);
    assert_eq!(h.as_usize(2).unwrap(), 7);
    assert!(matches!(h.as_usize(3), Err(JastorError::ParseError(_))));
}

#[test]
fn numbers_out_of_range_index() {
    let w = window(&["1"]);
    let h = SliceHander::new(&w);
    assert!(matches!(h.as_usize(5), Err(JastorError::GenericError(_))));
}

#[test]
fn numbers_width_limits() {
    let w = window(&["256", "255", "65536", "18446744073709551615"]);
    let h = SliceHander::new(&w);
    assert!(h.as_u8(0).is_err());
    assert_eq!(h.as_u8(1).unwrap(), 255);
    assert!(h.as_u16(2).is_err());
    assert_eq!(h.as_u64(3).unwrap(), u64::MAX);
}

#[test]
fn signed_numbers() {
    let w = window(&["-42", "+17", "-0x10", "0x-10"]);
    let h = SliceHander::new(&w);
    assert_eq!(h.as_isize(0).unwrap(), -42);
    assert_eq!(h.as_isize(1).unwrap(), 17);
    // a minus sign before "0x" is not the hexadecimal form
    assert!(h.as_isize(2).is_err());
    // the sign may follow the hexadecimal prefix
    assert_eq!(h.as_isize(3).unwrap(), -16);
}

#[test]
fn booleans() {
    let w = window(&["1", "0", "nil", "-1", "DODGE"]);
    let h = SliceHander::new(&w);
    assert_eq!(h.as_boolean(0).unwrap(), true);
    assert_eq!(h.as_boolean(1).unwrap(), false);
    assert_eq!(h.as_boolean(2).unwrap(), false);
    assert_eq!(h.as_boolean(3).unwrap(), false);
    assert!(matches!(h.as_boolean(4), Err(JastorError::ParseError(_))));
}

#[test]
fn strings_strip_surrounding_quotes() {
    let w = window(&["\"Mug'Zee\"", "plain"]);
    let h = SliceHander::new(&w);
    assert_eq!(h.as_string(0).unwrap(), "Mug'Zee");
    assert_eq!(h.as_string(1).unwrap(), "plain");
    assert_eq!(h.raw(0).unwrap(), "\"Mug'Zee\"");
}

#[test]
fn multi_value_power_fields() {
    let w = window(&["3|11559", "11559", "a|1", "1|b"]);
    let h = SliceHander::new(&w);
    assert_eq!(h.as_multi_value_number(0).unwrap(), (3, 11559));
    assert_eq!(h.as_multi_value_number(1).unwrap(), (0, 11559));
    assert!(h.as_multi_value_number(2).is_err());
    assert!(h.as_multi_value_number(3).is_err());
}

#[test]
fn handler_len_and_valid_idx() {
    let w = window(&["a", "b"]);
    let h = SliceHander::new(&w);
    assert_eq!(h.len(), 2);
    assert!(h.valid_idx(1).is_ok());
    assert!(h.valid_idx(2).is_err());
}

#[test]
fn conversion_error_carries_the_offending_text() {
    let w = window(&["abc"]);
    let h = SliceHander::new(&w);
    match h.as_usize(0) {
        Err(e) => assert_eq!(e.detail(), "cannot convert string to number: abc"),
        ok => panic!("expected a conversion error, got {ok:?}"),
    }
}

#[test]
fn fractional_shapes() {
    let w = window(&[
        "1052.34", "-2300.95", "+3", "17", "nil", "3.", ".5", "1.2.3", "1e5", "abc", "-",
    ]);
    let h = SliceHander::new(&w);
    assert_eq!(h.as_fractional(0).unwrap(), "1052.34");
    assert_eq!(h.as_fractional(1).unwrap(), "-2300.95");
    assert_eq!(h.as_fractional(2).unwrap(), "+3");
    assert_eq!(h.as_fractional(3).unwrap(), "17");
    assert_eq!(h.as_fractional(4).unwrap(), "nil");
    assert!(matches!(h.as_fractional(5), Err(JastorError::ParseError(_))));
    assert!(matches!(h.as_fractional(6), Err(JastorError::ParseError(_))));
    assert!(matches!(h.as_fractional(7), Err(JastorError::ParseError(_))));
    assert!(matches!(h.as_fractional(8), Err(JastorError::ParseError(_))));
    assert!(matches!(h.as_fractional(9), Err(JastorError::ParseError(_))));
    assert!(matches!(h.as_fractional(10), Err(JastorError::ParseError(_))));
    assert!(matches!(h.as_fractional(11), Err(JastorError::GenericError(_))));
}
