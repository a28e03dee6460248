use refresh_rate_windows_rs::decode_wide;
use refresh_rate_windows_rs::to_wide_string;

#[test]
fn encode_appends_terminator() {
    assert_eq!(to_wide_string("abc"), vec![97u16, 98, 99, 0]);
}

#[test]
fn encode_empty_is_terminator_only() {
    assert_eq!(to_wide_string(""), vec![0u16]);
}

#[test]
fn encode_keeps_non_ascii_bmp_units() {
    assert_eq!(to_wide_string("é"), vec![0xE9u16, 0]);
}

#[test]
fn decode_truncates_at_first_zero() {
    assert_eq!(decode_wide(&[65u16, 66, 0, 67, 0]), "AB".to_string());
}

#[test]
fn decode_without_zero_takes_all_units() {
    assert_eq!(decode_wide(&[72u16, 105]), "Hi".to_string());
}

#[test]
fn decode_empty_buffer_is_empty() {
    assert_eq!(decode_wide(&[]), String::new());
}

#[test]
fn decode_leading_zero_is_empty() {
    assert_eq!(decode_wide(&[0u16, 65, 66]), String::new());
}

#[test]
fn decode_maps_lone_surrogate_lossily() {
    assert_eq!(decode_wide(&[0xD800u16, 0]), "\u{FFFD}".to_string());
}

#[test]
fn round_trip_through_wide_form() {
    let wide = to_wide_string("Acme 27in");
    assert_eq!(decode_wide(&wide), "Acme 27in".to_string());
}
