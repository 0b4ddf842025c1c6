use osm2streets::config::{load_config, parse_descriptor, ConfigurationError, DrivingSide};

#[test]
fn parses_a_right_hand_descriptor() {
    let r = parse_descriptor(b"{\"driving_side\": \"Right\"}");
    assert_eq!(r, Ok(DrivingSide::Right));
}

#[test]
fn parses_a_left_hand_descriptor() {
    let r = parse_descriptor(b"{\"driving_side\": \"Left\"}");
    assert_eq!(r, Ok(DrivingSide::Left));
}

#[test]
fn parses_a_descriptor_with_trailing_notes() {
    let r = parse_descriptor(b"{\"driving_side\": \"Left\", \"notes\": \"small clipped area\"}");
    assert_eq!(r, Ok(DrivingSide::Left));
}

#[test]
fn parses_a_descriptor_with_leading_notes() {
    let r = parse_descriptor(b"{\"notes\": \"small clipped area\", \"driving_side\": \"Right\"}");
    assert_eq!(r, Ok(DrivingSide::Right));
}

#[test]
fn parses_a_descriptor_with_blank_space_everywhere() {
    let r = parse_descriptor(b"  \n{\t\"driving_side\" :\n \"Right\" ,\r\n \"notes\" : \"x\" }\n");
    assert_eq!(r, Ok(DrivingSide::Right));
}

#[test]
fn parses_notes_holding_escaped_quotes() {
    let r = parse_descriptor(b"{\"notes\": \"a \\\"quoted\\\" word\", \"driving_side\": \"Right\"}");
    assert_eq!(r, Ok(DrivingSide::Right));
}

#[test]
fn rejects_a_descriptor_without_a_driving_side() {
    let r = parse_descriptor(b"{\"notes\": \"no side given\"}");
    assert_eq!(r, Err(ConfigurationError::Malformed));
}

#[test]
fn rejects_an_unknown_driving_side_value() {
    let r = parse_descriptor(b"{\"driving_side\": \"Up\"}");
    assert_eq!(r, Err(ConfigurationError::Malformed));
}

#[test]
fn rejects_a_duplicated_driving_side() {
    let r = parse_descriptor(b"{\"driving_side\": \"Right\", \"driving_side\": \"Left\"}");
    assert_eq!(r, Err(ConfigurationError::Malformed));
}

#[test]
fn rejects_trailing_content_after_the_object() {
    let r = parse_descriptor(b"{\"driving_side\": \"Right\"} extra");
    assert_eq!(r, Err(ConfigurationError::Malformed));
}

#[test]
fn rejects_empty_input() {
    assert_eq!(parse_descriptor(b""), Err(ConfigurationError::Malformed));
}

#[test]
fn rejects_an_unknown_key() {
    let r = parse_descriptor(b"{\"speed_limit\": \"30\"}");
    assert_eq!(r, Err(ConfigurationError::Malformed));
}

#[test]
fn rejects_an_unterminated_notes_string() {
    let r = parse_descriptor(b"{\"notes\": \"never closed");
    assert_eq!(r, Err(ConfigurationError::Malformed));
}

#[test]
fn load_config_reports_a_missing_descriptor() {
    let r = load_config(String::from("fixtures/seattle"), None);
    assert_eq!(r, Err(ConfigurationError::Missing));
}

#[test]
fn load_config_builds_the_fixture_case() {
    let bytes: Vec<u8> = b"{\"driving_side\": \"Left\"}".to_vec();
    let fc = load_config(String::from("fixtures/kyoto"), Some(&bytes)).unwrap();
    assert_eq!(fc.driving_side, DrivingSide::Left);
    assert_eq!(fc.path, "fixtures/kyoto");
}

#[test]
fn load_config_reports_a_malformed_descriptor() {
    let bytes: Vec<u8> = b"not a descriptor".to_vec();
    let r = load_config(String::from("fixtures/bad"), Some(&bytes));
    assert_eq!(r, Err(ConfigurationError::Malformed));
}
