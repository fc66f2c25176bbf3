use rgb::command::{parse_colors, Effect, Error, LightingCommand, Rgb};
use rgb::parse::{parse_bytes_arg, parse_u8_arg, parse_u8_arg_or};

#[test]
fn parses_a_single_triplet() {
    assert_eq!(parse_bytes_arg("255,0,0"), Ok(vec![255, 0, 0]));
}

#[test]
fn parses_twelve_channels() {
    assert_eq!(
        parse_bytes_arg("255,0,0,255,255,0,0,0,255,255,128,0"),
        Ok(vec![255, 0, 0, 255, 255, 0, 0, 0, 255, 255, 128, 0]),
    );
}

#[test]
fn accepts_leading_plus_and_leading_zeros() {
    assert_eq!(parse_bytes_arg("+7,007,0"), Ok(vec![7, 7, 0]));
}

#[test]
fn rejects_channel_above_byte_range() {
    assert_eq!(parse_bytes_arg("256"), Err(Error::MalformedNumber));
    assert_eq!(parse_bytes_arg("1,2,999999999999"), Err(Error::MalformedNumber));
}

#[test]
fn rejects_non_numeric_channel() {
    assert_eq!(parse_bytes_arg("abc"), Err(Error::MalformedNumber));
    assert_eq!(parse_bytes_arg("1,abc,3"), Err(Error::MalformedNumber));
    assert_eq!(parse_bytes_arg("-1"), Err(Error::MalformedNumber));
}

#[test]
fn rejects_empty_segments() {
    assert_eq!(parse_bytes_arg(""), Err(Error::MalformedNumber));
    assert_eq!(parse_bytes_arg("1,,2"), Err(Error::MalformedNumber));
    assert_eq!(parse_bytes_arg("1,2,"), Err(Error::MalformedNumber));
    assert_eq!(parse_bytes_arg("+"), Err(Error::MalformedNumber));
}

#[test]
fn parses_single_value_argument() {
    assert_eq!(parse_u8_arg("4"), Ok(4));
    assert_eq!(parse_u8_arg("255"), Ok(255));
    assert_eq!(parse_u8_arg("2,3"), Err(Error::MalformedNumber));
    assert_eq!(parse_u8_arg("abc"), Err(Error::MalformedNumber));
}

#[test]
fn absent_option_falls_back_to_default() {
    assert_eq!(parse_u8_arg_or(None, 2), Ok(2));
    assert_eq!(parse_u8_arg_or(Some("3"), 2), Ok(3));
    assert_eq!(parse_u8_arg_or(Some("x"), 2), Err(Error::MalformedNumber));
}

#[test]
fn static_rejects_two_triplets() {
    assert_eq!(
        parse_colors(Effect::SolidColor, "255,0,0,1,2,3"),
        Err(Error::WrongTripletCount(1)),
    );
}

#[test]
fn zstatic_rejects_three_triplets() {
    assert_eq!(
        parse_colors(Effect::ZoneColor, "1,2,3,4,5,6,7,8,9"),
        Err(Error::WrongTripletCount(4)),
    );
}

#[test]
fn parse_colors_groups_triplets() {
    assert_eq!(
        parse_colors(Effect::ZoneColor, "255,0,0,255,255,0,0,0,255,255,128,0"),
        Ok(vec![
            Rgb { red: 255, green: 0, blue: 0 },
            Rgb { red: 255, green: 255, blue: 0 },
            Rgb { red: 0, green: 0, blue: 255 },
            Rgb { red: 255, green: 128, blue: 0 },
        ]),
    );
    assert_eq!(
        parse_colors(Effect::Breathe, "1,2,3"),
        Ok(vec![Rgb { red: 1, green: 2, blue: 3 }]),
    );
}

#[test]
fn parse_colors_reports_malformed_channel_before_count() {
    assert_eq!(parse_colors(Effect::SolidColor, "256,0"), Err(Error::MalformedNumber));
}

#[test]
fn validation_rejects_speed_out_of_range() {
    assert_eq!(
        LightingCommand::new(Effect::Smooth, vec![], 0, 2).unwrap_err(),
        Error::InvalidSpeed,
    );
    assert_eq!(
        LightingCommand::new(Effect::Smooth, vec![], 5, 2).unwrap_err(),
        Error::InvalidSpeed,
    );
}

#[test]
fn validation_rejects_brightness_out_of_range() {
    assert_eq!(
        LightingCommand::new(Effect::Smooth, vec![], 2, 0).unwrap_err(),
        Error::InvalidBrightness,
    );
    assert_eq!(
        LightingCommand::new(Effect::Smooth, vec![], 2, 3).unwrap_err(),
        Error::InvalidBrightness,
    );
}

#[test]
fn validation_rejects_wrong_triplet_count() {
    let one = vec![Rgb { red: 1, green: 2, blue: 3 }];
    assert_eq!(
        LightingCommand::new(Effect::ZoneColor, one.clone(), 2, 2).unwrap_err(),
        Error::WrongTripletCount(4),
    );
    assert_eq!(
        LightingCommand::new(Effect::Smooth, one.clone(), 2, 2).unwrap_err(),
        Error::WrongTripletCount(0),
    );
    assert_eq!(
        LightingCommand::new(Effect::SolidColor, vec![], 2, 2).unwrap_err(),
        Error::WrongTripletCount(1),
    );
}

#[test]
fn validation_accepts_range_bounds() {
    assert!(LightingCommand::new(Effect::Smooth, vec![], 1, 1).is_ok());
    assert!(LightingCommand::new(Effect::Smooth, vec![], 4, 2).is_ok());
}

#[test]
fn triplet_count_is_checked_before_brightness() {
    let e = LightingCommand::new(Effect::SolidColor, vec![], 9, 9).unwrap_err();
    assert_eq!(e, Error::WrongTripletCount(1));
}

#[test]
fn error_messages_name_the_expectation() {
    assert_eq!(Error::WrongTripletCount(0).message(), "Expected 0 RGB triplets");
    assert_eq!(Error::WrongTripletCount(1).message(), "Expected 1 RGB triplet");
    assert_eq!(Error::WrongTripletCount(4).message(), "Expected 4 RGB triplets");
    assert_eq!(Error::InvalidSpeed.message(), "Invalid Speed. See help");
    assert_eq!(Error::InvalidBrightness.message(), "Invalid Brightness. See help");
    assert_eq!(Error::DeviceNotFound.message(), "Error: Couldn't find device");
}
