use jiggler::CustomDuration;
use jiggler::JigglerError;

fn finite(nanos: u128) -> CustomDuration {
    CustomDuration::Finite { nanos }
}

#[test]
fn max_any_case_is_unbounded() {
    assert_eq!(CustomDuration::from_str("max"), Ok(CustomDuration::Unbounded));
    assert_eq!(CustomDuration::from_str("MAX"), Ok(CustomDuration::Unbounded));
    assert_eq!(CustomDuration::from_str("Max"), Ok(CustomDuration::Unbounded));
    assert_eq!(CustomDuration::from_str("mAx"), Ok(CustomDuration::Unbounded));
}

#[test]
fn zero_seconds_is_zero_span() {
    assert_eq!(CustomDuration::from_str("0:seconds"), Ok(finite(0)));
}

#[test]
fn minute_aliases_agree() {
    let a = CustomDuration::from_str("5:min").unwrap();
    let b = CustomDuration::from_str("5:minute").unwrap();
    let c = CustomDuration::from_str("5:minutes").unwrap();
    let d = CustomDuration::from_str("5:m").unwrap();
    assert_eq!(a, b);
    assert_eq!(b, c);
    assert_eq!(c, d);
    assert_eq!(a, finite(300_000_000_000));
}

#[test]
fn unknown_unit_keeps_token() {
    assert_eq!(
        CustomDuration::from_str("10:parsecs"),
        Err(JigglerError::UnknownUnit { token: b"parsecs".to_vec() })
    );
}

#[test]
fn negative_magnitude_is_invalid() {
    assert_eq!(
        CustomDuration::from_str("-1:seconds"),
        Err(JigglerError::InvalidMagnitude)
    );
}

#[test]
fn wrong_field_count_is_malformed() {
    assert_eq!(CustomDuration::from_str("1"), Err(JigglerError::MalformedInput));
    assert_eq!(CustomDuration::from_str("1:2:3"), Err(JigglerError::MalformedInput));
    assert_eq!(CustomDuration::from_str(""), Err(JigglerError::MalformedInput));
}

#[test]
fn unit_table_exact_values() {
    assert_eq!(CustomDuration::from_str("2:hours"), Ok(finite(7_200_000_000_000)));
    assert_eq!(CustomDuration::from_str("2:hour"), Ok(finite(7_200_000_000_000)));
    assert_eq!(CustomDuration::from_str("2:hr"), Ok(finite(7_200_000_000_000)));
    assert_eq!(CustomDuration::from_str("2:h"), Ok(finite(7_200_000_000_000)));
    assert_eq!(CustomDuration::from_str("7:seconds"), Ok(finite(7_000_000_000)));
    assert_eq!(CustomDuration::from_str("7:second"), Ok(finite(7_000_000_000)));
    assert_eq!(CustomDuration::from_str("7:sec"), Ok(finite(7_000_000_000)));
    assert_eq!(CustomDuration::from_str("7:s"), Ok(finite(7_000_000_000)));
    assert_eq!(CustomDuration::from_str("70:milliseconds"), Ok(finite(70_000_000)));
    assert_eq!(CustomDuration::from_str("70:millisecond"), Ok(finite(70_000_000)));
    assert_eq!(CustomDuration::from_str("70:ms"), Ok(finite(70_000_000)));
    assert_eq!(CustomDuration::from_str("9:microseconds"), Ok(finite(9_000)));
    assert_eq!(CustomDuration::from_str("9:microsecond"), Ok(finite(9_000)));
    assert_eq!(CustomDuration::from_str("9:us"), Ok(finite(9_000)));
    assert_eq!(CustomDuration::from_str("9:nanoseconds"), Ok(finite(9)));
    assert_eq!(CustomDuration::from_str("9:nanosecond"), Ok(finite(9)));
    assert_eq!(CustomDuration::from_str("9:ns"), Ok(finite(9)));
}

#[test]
fn units_are_case_insensitive() {
    assert_eq!(CustomDuration::from_str("5:MIN"), Ok(finite(300_000_000_000)));
    assert_eq!(CustomDuration::from_str("5:Seconds"), Ok(finite(5_000_000_000)));
    assert_eq!(CustomDuration::from_str("1:HOURS"), Ok(finite(3_600_000_000_000)));
}

#[test]
fn empty_fields_fail() {
    assert_eq!(
        CustomDuration::from_str("5:"),
        Err(JigglerError::UnknownUnit { token: b"".to_vec() })
    );
    assert_eq!(CustomDuration::from_str(":s"), Err(JigglerError::InvalidMagnitude));
}

#[test]
fn magnitude_is_checked_before_unit() {
    assert_eq!(
        CustomDuration::from_str("abc:parsecs"),
        Err(JigglerError::InvalidMagnitude)
    );
}

#[test]
fn magnitude_must_fit_in_u64() {
    assert_eq!(
        CustomDuration::from_str("18446744073709551615:ns"),
        Ok(finite(18_446_744_073_709_551_615))
    );
    assert_eq!(
        CustomDuration::from_str("18446744073709551616:ns"),
        Err(JigglerError::InvalidMagnitude)
    );
}

#[test]
fn largest_magnitude_of_largest_unit_parses() {
    // u64::MAX hours: the product still fits the 128-bit span.
    let r = CustomDuration::from_str("18446744073709551615:hours").unwrap();
    assert_eq!(
        r,
        finite(18_446_744_073_709_551_615u128 * 3_600_000_000_000u128)
    );
}

#[test]
fn is_unbounded_getter() {
    assert!(CustomDuration::from_str("max").unwrap().is_unbounded());
    assert!(!CustomDuration::from_str("1:s").unwrap().is_unbounded());
}

#[test]
fn default_args_match_documentation() {
    let a = jiggler::Args::default();
    assert_eq!(a.start, finite(0));
    assert_eq!(a.end, CustomDuration::Unbounded);
    assert_eq!(a.wait, finite(60_000_000_000));
    assert_eq!(a.jiggle_sleep, finite(70_000_000));
    assert_eq!(a.jiggle_reps, 3);
    assert_eq!(a.jiggle_size, 10);
}

#[test]
fn error_messages_name_the_phase() {
    assert!(JigglerError::MalformedInput.message().starts_with("error parsing"));
    assert!(
        JigglerError::UnknownUnit { token: b"parsecs".to_vec() }
            .message()
            .contains("unrecognized duration unit")
    );
    assert!(JigglerError::InvalidMagnitude.message().contains("magnitude"));
    assert!(JigglerError::InjectionFailure.message().starts_with("error while running"));
}
