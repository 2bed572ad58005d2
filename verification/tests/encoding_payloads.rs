use shot_share::{clipboard_image_bytes, data_url_payload, decode_image_data, png_data_url};

#[test]
fn png_bytes_become_a_base64_data_url() {
    assert_eq!(png_data_url(b"hi"), "data:image/png;base64,aGk=");
}

#[test]
fn empty_image_yields_the_bare_prefix() {
    assert_eq!(png_data_url(b""), "data:image/png;base64,");
}

#[test]
fn valid_base64_decodes_to_the_expected_bytes() {
    assert_eq!(decode_image_data("aGk="), Ok(vec![0x68, 0x69]));
}

#[test]
fn invalid_base64_is_reported_with_the_decoder_diagnostic() {
    let e = decode_image_data("!!!").expect_err("not valid base64");
    assert!(e.starts_with("Failed to decode base64: "));
}

#[test]
fn payload_is_the_piece_after_the_first_comma() {
    assert_eq!(
        data_url_payload("data:image/png;base64,AAAA"),
        Some("AAAA".to_string())
    );
}

#[test]
fn payload_stops_at_a_second_comma() {
    assert_eq!(data_url_payload("a,b,c"), Some("b".to_string()));
}

#[test]
fn url_without_comma_has_no_payload() {
    assert_eq!(data_url_payload("data:image/png;base64"), None);
}

#[test]
fn url_ending_in_a_comma_has_an_empty_payload() {
    assert_eq!(data_url_payload("data:,"), Some(String::new()));
}

#[test]
fn clipboard_bytes_round_trip_through_the_data_url() {
    let url = png_data_url(b"hi");
    assert_eq!(clipboard_image_bytes(&url), Ok(vec![0x68, 0x69]));
}

#[test]
fn malformed_data_url_is_rejected() {
    assert_eq!(
        clipboard_image_bytes("no comma here"),
        Err("Invalid data URL format".to_string())
    );
}
