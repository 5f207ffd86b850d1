use gtfs_objects::codec::{
    decode_optional_u16, decode_optional_u32, decode_truth_flag, encode_clock_duration,
    encode_color, encode_truth_flag, parse_color, parse_time, Rgb,
};
use gtfs_objects::date::{decode_calendar_date, encode_calendar_date, Date};
use gtfs_objects::entities::Route;
use gtfs_objects::enums::RouteType;
use gtfs_objects::Error;

#[test]
fn clock_duration_decodes_well_formed_times() {
    assert_eq!(parse_time("1:02:03"), Ok(3723));
    assert_eq!(parse_time("01:02:03"), Ok(3723));
    assert_eq!(parse_time("00:00:00"), Ok(0));
    assert_eq!(parse_time("23:59:59"), Ok(86399));
}

#[test]
fn clock_duration_supports_post_midnight_hours() {
    assert_eq!(parse_time("26:15:00"), Ok(94500));
    assert_eq!(parse_time("100:00:00"), Ok(360000));
}

#[test]
fn clock_duration_tolerates_leading_whitespace() {
    assert_eq!(parse_time(" 7:00:00"), Ok(25200));
}

#[test]
fn clock_duration_rejects_wrong_token_counts() {
    assert!(matches!(parse_time("12:30"), Err(Error::InvalidTime(_))));
    assert!(matches!(parse_time("12:30:00:00"), Err(Error::InvalidTime(_))));
    assert!(matches!(parse_time(""), Err(Error::InvalidTime(_))));
}

#[test]
fn clock_duration_rejects_non_numeric_parts() {
    assert!(matches!(parse_time("aa:bb:cc"), Err(Error::InvalidTime(_))));
    assert!(matches!(parse_time("1::03"), Err(Error::InvalidTime(_))));
    assert!(matches!(parse_time("1:2x:03"), Err(Error::InvalidTime(_))));
}

#[test]
fn clock_duration_error_carries_the_input() {
    assert_eq!(
        parse_time("12:30"),
        Err(Error::InvalidTime(String::from("12:30")))
    );
}

#[test]
fn clock_duration_encodes_bare_seconds() {
    // Intentionally asymmetric with the decoder: bare decimal seconds.
    assert_eq!(encode_clock_duration(3723), "3723");
    assert_eq!(encode_clock_duration(0), "0");
}

#[test]
fn color_decodes_six_hex_digits() {
    assert_eq!(parse_color("FF8800"), Ok(Rgb { r: 255, g: 136, b: 0 }));
    assert_eq!(parse_color("000000"), Ok(Rgb { r: 0, g: 0, b: 0 }));
    assert_eq!(parse_color("ffffff"), Ok(Rgb { r: 255, g: 255, b: 255 }));
}

#[test]
fn color_rejects_malformed_text() {
    assert!(matches!(parse_color("xyz123"), Err(Error::InvalidColor(_))));
    assert!(matches!(parse_color("ABC"), Err(Error::InvalidColor(_))));
    assert!(matches!(parse_color("ABCDEF0"), Err(Error::InvalidColor(_))));
    assert!(matches!(parse_color(""), Err(Error::InvalidColor(_))));
}

#[test]
fn color_round_trip_is_canonical_uppercase() {
    let decoded = parse_color("ff88aa").unwrap();
    assert_eq!(encode_color(&decoded), "FF88AA");
    let decoded = parse_color("FF88AA").unwrap();
    assert_eq!(encode_color(&decoded), "FF88AA");
    let decoded = parse_color("0a0b0c").unwrap();
    assert_eq!(encode_color(&decoded), "0A0B0C");
}

#[test]
fn truth_flag_accepts_only_zero_and_one() {
    assert_eq!(decode_truth_flag("0"), Ok(false));
    assert_eq!(decode_truth_flag("1"), Ok(true));
    assert!(matches!(decode_truth_flag("2"), Err(Error::Decode(_))));
    assert!(matches!(decode_truth_flag("true"), Err(Error::Decode(_))));
    assert!(matches!(decode_truth_flag(""), Err(Error::Decode(_))));
}

#[test]
fn truth_flag_encodes_as_digits() {
    assert_eq!(encode_truth_flag(true), "1");
    assert_eq!(encode_truth_flag(false), "0");
}

#[test]
fn optional_numeric_blank_is_absent() {
    assert_eq!(decode_optional_u32(""), Ok(None));
    assert_eq!(decode_optional_u32("   "), Ok(None));
    assert_eq!(decode_optional_u32("42"), Ok(Some(42)));
    assert!(matches!(decode_optional_u32("abc"), Err(Error::Decode(_))));
}

#[test]
fn optional_numeric_respects_the_sixteen_bit_bound() {
    assert_eq!(decode_optional_u16("65535"), Ok(Some(65535)));
    assert!(matches!(decode_optional_u16("70000"), Err(Error::Decode(_))));
}

#[test]
fn calendar_date_decodes_eight_digits() {
    assert_eq!(
        decode_calendar_date("20201225"),
        Ok(Date { year: 2020, month: 12, day: 25 })
    );
    // A leap day of a leap year exists...
    assert_eq!(
        decode_calendar_date("20200229"),
        Ok(Date { year: 2020, month: 2, day: 29 })
    );
    // ... and of a common year does not.
    assert!(matches!(
        decode_calendar_date("20210229"),
        Err(Error::Decode(_))
    ));
}

#[test]
fn calendar_date_rejects_malformed_text() {
    assert!(matches!(decode_calendar_date("2020-1-1"), Err(Error::Decode(_))));
    assert!(matches!(decode_calendar_date("202012"), Err(Error::Decode(_))));
    assert!(matches!(decode_calendar_date("20201300"), Err(Error::Decode(_))));
    assert!(matches!(decode_calendar_date("20200132"), Err(Error::Decode(_))));
}

#[test]
fn calendar_date_encodes_without_padding() {
    assert_eq!(
        encode_calendar_date(&Date { year: 2020, month: 12, day: 25 }),
        "20201225"
    );
    assert_eq!(
        encode_calendar_date(&Date { year: 2020, month: 1, day: 5 }),
        "202015"
    );
}

#[test]
fn calendar_date_round_trip_loses_padding_by_design() {
    // The encoder omits zero padding, so a single-digit month or day does
    // not survive the strict decoder: a preserved, documented asymmetry.
    let encoded = encode_calendar_date(&Date { year: 2020, month: 1, day: 5 });
    assert!(matches!(decode_calendar_date(&encoded), Err(Error::Decode(_))));
    // Two-digit months and days survive.
    let encoded = encode_calendar_date(&Date { year: 2020, month: 11, day: 15 });
    assert_eq!(
        decode_calendar_date(&encoded),
        Ok(Date { year: 2020, month: 11, day: 15 })
    );
}

#[test]
fn route_display_prefers_the_long_name() {
    let mut route = Route {
        id: "r1".to_string(),
        short_name: "1".to_string(),
        long_name: "Grand Boulevard Line".to_string(),
        desc: None,
        route_type: RouteType::Bus,
        url: None,
        agency_id: None,
        route_order: None,
        route_color: None,
        route_text_color: None,
        continuous_pickup: None,
        continuous_drop_off: None,
    };
    assert_eq!(route.display_name(), "Grand Boulevard Line");
    route.long_name = String::new();
    assert_eq!(route.display_name(), "1");
}

#[test]
fn clock_duration_parts_follow_the_standard_integer_grammar() {
    // Each part is parsed as the standard library parses an unsigned
    // integer: a leading plus sign is tolerated, a minus sign is not.
    assert_eq!(parse_time("+1:02:03"), Ok(3723));
    assert!(matches!(parse_time("-1:02:03"), Err(Error::InvalidTime(_))));
}
