use rusoto_credential::timestamp::parse_timestamp;

#[test]
fn epoch_is_zero() {
    assert_eq!(parse_timestamp("1970-01-01T00:00:00Z"), Some(0));
}

#[test]
fn instant_of_a_metadata_document() {
    assert_eq!(parse_timestamp("2016-11-18T01:50:39Z"), Some(1479433839));
}

#[test]
fn second_before_the_epoch_is_negative() {
    assert_eq!(parse_timestamp("1969-12-31T23:59:59Z"), Some(-1));
}

#[test]
fn leap_day_is_accepted_in_a_leap_year() {
    assert_eq!(parse_timestamp("2024-02-29T12:00:00Z"), Some(1709208000));
    assert_eq!(parse_timestamp("2000-03-01T00:00:00Z"), Some(951868800));
}

#[test]
fn leap_day_is_rejected_in_a_common_year() {
    assert_eq!(parse_timestamp("2023-02-29T12:00:00Z"), None);
    assert_eq!(parse_timestamp("1900-02-29T00:00:00Z"), None);
    assert_eq!(parse_timestamp("2100-02-29T00:00:00Z"), None);
}

#[test]
fn century_years_follow_the_gregorian_rule() {
    assert_eq!(parse_timestamp("1900-03-01T00:00:00Z"), Some(-2203891200));
    assert_eq!(parse_timestamp("2100-03-01T00:00:00Z"), Some(4107542400));
}

#[test]
fn first_and_last_instant_of_the_range() {
    assert_eq!(parse_timestamp("0000-01-01T00:00:00Z"), Some(-62167219200));
    assert_eq!(parse_timestamp("0001-01-01T00:00:00Z"), Some(-62135596800));
    assert_eq!(parse_timestamp("9999-12-31T23:59:59Z"), Some(253402300799));
}

#[test]
fn offset_east_of_utc_is_subtracted() {
    assert_eq!(parse_timestamp("2016-11-18T01:50:39+01:00"), Some(1479430239));
}

#[test]
fn offset_west_of_utc_is_added() {
    assert_eq!(parse_timestamp("2016-11-18T01:50:39-05:30"), Some(1479453639));
}

#[test]
fn fraction_of_a_second_is_dropped() {
    assert_eq!(parse_timestamp("2016-11-18T01:50:39.5Z"), Some(1479433839));
    assert_eq!(parse_timestamp("2016-11-18T01:50:39.123456789Z"), Some(1479433839));
    assert_eq!(parse_timestamp("2016-11-18T01:50:39.999+01:00"), Some(1479430239));
}

#[test]
fn fraction_needs_a_digit() {
    assert_eq!(parse_timestamp("2016-11-18T01:50:39.Z"), None);
}

#[test]
fn zone_is_required() {
    assert_eq!(parse_timestamp("2016-11-18T01:50:39"), None);
    assert_eq!(parse_timestamp("2016-11-18T01:50:39.5"), None);
}

#[test]
fn malformed_instants_are_rejected() {
    assert_eq!(parse_timestamp(""), None);
    assert_eq!(parse_timestamp("yesterday"), None);
    assert_eq!(parse_timestamp("2016-11-18 01:50:39Z"), None);
    assert_eq!(parse_timestamp("2016/11/18T01:50:39Z"), None);
    assert_eq!(parse_timestamp("2016-11-18T01:50:39z"), None);
    assert_eq!(parse_timestamp("2016-11-18T01:50:39ZZ"), None);
    assert_eq!(parse_timestamp("2016-11-18T01:50:39+0100"), None);
    assert_eq!(parse_timestamp("2016-11-18T01:50:3xZ"), None);
    assert_eq!(parse_timestamp("٢٠١٦-11-18T01:50:39Z"), None);
}

#[test]
fn out_of_range_fields_are_rejected() {
    assert_eq!(parse_timestamp("2016-00-18T01:50:39Z"), None);
    assert_eq!(parse_timestamp("2016-13-18T01:50:39Z"), None);
    assert_eq!(parse_timestamp("2016-11-00T01:50:39Z"), None);
    assert_eq!(parse_timestamp("2016-11-31T01:50:39Z"), None);
    assert_eq!(parse_timestamp("2016-11-18T24:00:00Z"), None);
    assert_eq!(parse_timestamp("2016-11-18T01:60:39Z"), None);
    assert_eq!(parse_timestamp("2016-11-18T01:50:60Z"), None);
    assert_eq!(parse_timestamp("2016-11-18T01:50:39+24:00"), None);
    assert_eq!(parse_timestamp("2016-11-18T01:50:39+01:60"), None);
}

#[test]
fn each_month_has_its_length() {
    assert_eq!(parse_timestamp("2021-01-31T00:00:00Z"), Some(1612051200));
    assert_eq!(parse_timestamp("2021-04-30T00:00:00Z"), Some(1619740800));
    assert_eq!(parse_timestamp("2021-04-31T00:00:00Z"), None);
    assert_eq!(parse_timestamp("2021-12-31T00:00:00Z"), Some(1640908800));
}
