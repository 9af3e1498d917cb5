use openssl_execute::expiry_date::{
    get_month_num, parse_expiration, str_to_dt, ParseError, Timestamp,
};

#[test]
fn should_resolve_month_index() {
    let m = get_month_num("jan").unwrap();
    assert_eq!(m, 1);

    let m = get_month_num("feb").unwrap();
    assert_eq!(m, 2);

    let m = get_month_num("mar").unwrap();
    assert_eq!(m, 3);

    let m = get_month_num("apr").unwrap();
    assert_eq!(m, 4);

    let m = get_month_num("may").unwrap();
    assert_eq!(m, 5);

    let m = get_month_num("jun").unwrap();
    assert_eq!(m, 6);

    let m = get_month_num("jul").unwrap();
    assert_eq!(m, 7);

    let m = get_month_num("aug").unwrap();
    assert_eq!(m, 8);

    let m = get_month_num("sep").unwrap();
    assert_eq!(m, 9);

    let m = get_month_num("oct").unwrap();
    assert_eq!(m, 10);

    let m = get_month_num("nov").unwrap();
    assert_eq!(m, 11);

    let m = get_month_num("dec").unwrap();
    assert_eq!(m, 12);
}

#[test]
fn should_parse_openssl_res() {
    let d = str_to_dt("notAfter=Jul  2 09:30:45 2024 GMT").unwrap();
    assert_eq!(d.year, 2024);
    assert_eq!(d.month, 7);
    assert_eq!(d.day, 2);
    assert_eq!(d.hour, 9);
    assert_eq!(d.minute, 30);
    assert_eq!(d.second, 45);

    let d = str_to_dt("notAfter=Jul 22 09:30:45 2024 GMT").unwrap();
    assert_eq!(d.year, 2024);
    assert_eq!(d.month, 7);
    assert_eq!(d.day, 22);
    assert_eq!(d.hour, 9);
    assert_eq!(d.minute, 30);
    assert_eq!(d.second, 45);

    let d = str_to_dt("notAfter=jul 22 09:30:45 2024 GMT").unwrap();
    assert_eq!(d.year, 2024);
    assert_eq!(d.month, 7);
    assert_eq!(d.day, 22);
    assert_eq!(d.hour, 9);
    assert_eq!(d.minute, 30);
    assert_eq!(d.second, 45);

    let d = str_to_dt("notAfter=JUL 22 09:30:45 2024 GMT").unwrap();
    assert_eq!(d.year, 2024);
    assert_eq!(d.month, 7);
    assert_eq!(d.day, 22);
    assert_eq!(d.hour, 9);
    assert_eq!(d.minute, 30);
    assert_eq!(d.second, 45);
}

#[test]
fn month_case_variants_parse_identically() {
    let mixed = str_to_dt("notAfter=jUl 22 09:30:45 2024 GMT").unwrap();
    let lower = str_to_dt("notAfter=jul 22 09:30:45 2024 GMT").unwrap();
    let upper = str_to_dt("notAfter=JUL 22 09:30:45 2024 GMT").unwrap();
    let title = str_to_dt("notAfter=Jul 22 09:30:45 2024 GMT").unwrap();
    assert_eq!(mixed, lower);
    assert_eq!(lower, upper);
    assert_eq!(upper, title);
}

#[test]
fn empty_text_is_invalid_certificate() {
    let r = parse_expiration("");
    assert_eq!(r, Err(ParseError::InvalidCertificate));
    assert_eq!(
        ParseError::InvalidCertificate.message(),
        "invalid certificate".to_string()
    );
}

#[test]
fn unknown_month_is_distinct_error() {
    let r = str_to_dt("notAfter=Xyz 22 09:30:45 2024 GMT");
    assert_eq!(r, Err(ParseError::UnknownMonth));
    assert_ne!(
        ParseError::UnknownMonth.message(),
        ParseError::MalformedField.message()
    );
    assert_ne!(
        ParseError::UnknownMonth.message(),
        ParseError::InvalidCalendarDate.message()
    );
}

#[test]
fn blank_day_field_is_malformed() {
    let r = str_to_dt("notAfter=Jul    09:30:45 2024 GMT");
    assert_eq!(r, Err(ParseError::MalformedField));
}

#[test]
fn impossible_date_is_rejected() {
    let r = str_to_dt("notAfter=Feb 30 09:30:45 2023 GMT");
    assert_eq!(r, Err(ParseError::InvalidCalendarDate));

    let r = str_to_dt("notAfter=Feb 29 09:30:45 2023 GMT");
    assert_eq!(r, Err(ParseError::InvalidCalendarDate));

    let d = str_to_dt("notAfter=Feb 29 09:30:45 2024 GMT").unwrap();
    assert_eq!(d.day, 29);

    let r = str_to_dt("notAfter=Jul  0 09:30:45 2024 GMT");
    assert_eq!(r, Err(ParseError::InvalidCalendarDate));
}

#[test]
fn garbled_text_is_unrecognized() {
    let r = str_to_dt("garbage");
    assert_eq!(r, Err(ParseError::UnrecognizedFormat));

    let r = str_to_dt("notAfter=Jul 22 09:30:45 2024 GM");
    assert_eq!(r, Err(ParseError::UnrecognizedFormat));

    let r = str_to_dt("notafter=Jul 22 09:30:45 2024 GMT");
    assert_eq!(r, Err(ParseError::UnrecognizedFormat));

    let r = str_to_dt("notAfter=J2l 22 09:30:45 2024 GMT");
    assert_eq!(r, Err(ParseError::UnrecognizedFormat));
}

#[test]
fn single_digit_day_without_padding_parses() {
    let d = str_to_dt("notAfter=Jul 2 09:30:45 2024 GMT").unwrap();
    assert_eq!(d.day, 2);
    assert_eq!(d.year, 2024);
}

#[test]
fn day_padded_on_the_right_parses() {
    let d = str_to_dt("notAfter=Jul 2  09:30:45 2024 GMT").unwrap();
    assert_eq!(d.day, 2);
    assert_eq!(d.hour, 9);
}

#[test]
fn timestamp_constructor_rejects_invalid_dates() {
    assert!(Timestamp::new(2023, 2, 29, 0, 0, 0).is_none());
    assert!(Timestamp::new(2024, 13, 1, 0, 0, 0).is_none());
    assert!(Timestamp::new(2024, 6, 31, 0, 0, 0).is_none());
    assert!(Timestamp::new(2024, 6, 30, 24, 0, 0).is_none());
    let t = Timestamp::new(2024, 6, 30, 23, 59, 59).unwrap();
    assert_eq!(t.month, 6);
}

#[test]
fn epoch_seconds_matches_known_values() {
    let t = Timestamp::new(2015, 5, 15, 0, 0, 0).unwrap();
    assert_eq!(t.epoch_seconds(), 1431648000);

    let epoch = Timestamp::new(1970, 1, 1, 0, 0, 0).unwrap();
    assert_eq!(epoch.epoch_seconds(), 0);

    let before_epoch = Timestamp::new(1969, 12, 31, 23, 59, 59).unwrap();
    assert_eq!(before_epoch.epoch_seconds(), -1);
}
