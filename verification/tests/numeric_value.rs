use css_ast::NumericValue;

fn nv(rep: &str, value: f64, int_value: Option<i64>) -> NumericValue {
    NumericValue {
        representation: rep.to_string(),
        value_bits: value.to_bits(),
        int_value,
    }
}

#[test]
fn integer_spelling_carries_its_integer_value() {
    assert!(nv("42", 42.0, Some(42)).check_well_formed());
    assert!(nv("-42", -42.0, Some(-42)).check_well_formed());
    assert!(nv("+042", 42.0, Some(42)).check_well_formed());
    assert!(nv("0", 0.0, Some(0)).check_well_formed());
}

#[test]
fn fractional_and_exponent_spellings_have_no_integer_value() {
    assert!(nv("4.2", 4.2, None).check_well_formed());
    assert!(nv("1e3", 1000.0, None).check_well_formed());
    assert!(nv("1E3", 1000.0, None).check_well_formed());
    assert!(nv("-0.5", -0.5, None).check_well_formed());
}

#[test]
fn presence_must_match_the_spelling() {
    // integer spelling but no integer value
    assert!(!nv("42", 42.0, None).check_well_formed());
    // fractional spelling but an integer value
    assert!(!nv("4.2", 4.2, Some(4)).check_well_formed());
    // exponent spelling but an integer value
    assert!(!nv("1e3", 1000.0, Some(1000)).check_well_formed());
}

#[test]
fn integer_value_must_equal_the_reading_of_the_spelling() {
    assert!(!nv("42", 42.0, Some(41)).check_well_formed());
    assert!(!nv("-42", -42.0, Some(42)).check_well_formed());
}

#[test]
fn extreme_integers_round_trip() {
    assert!(nv("9223372036854775807", 9.223372036854776e18, Some(i64::MAX)).check_well_formed());
    assert!(
        nv("-9223372036854775808", -9.223372036854776e18, Some(i64::MIN)).check_well_formed()
    );
    // one past either end of the range cannot be represented
    assert!(!nv("9223372036854775808", 9.223372036854776e18, Some(i64::MAX)).check_well_formed());
    assert!(
        !nv("-9223372036854775809", -9.223372036854776e18, Some(i64::MIN)).check_well_formed()
    );
    assert!(!nv("99999999999999999999999", 1e23, Some(i64::MAX)).check_well_formed());
}
