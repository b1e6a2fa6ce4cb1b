use base64::Engine;
use emobanana::codec::{decode_base64_image, image_data_url, EmobananaError};
use emobanana::validate::validate_image_data;

#[test]
fn test_decode_base64_image_without_data_prefix() {
    let test_data = b"Hello, World!";
    let base64_string = base64::engine::general_purpose::STANDARD.encode(test_data);
    let result = decode_base64_image(&base64_string).unwrap();
    assert_eq!(result, test_data);
}

#[test]
fn test_decode_base64_image_with_data_prefix() {
    let test_data = b"Hello, World!";
    let base64_string = base64::engine::general_purpose::STANDARD.encode(test_data);
    let data_url = format!("data:image/png;base64,{}", base64_string);
    let result = decode_base64_image(&data_url).unwrap();
    assert_eq!(result, test_data);
}

#[test]
fn data_url_of_bytes_is_exact() {
    assert_eq!(image_data_url(b"Hello"), "data:image/png;base64,SGVsbG8=");
    assert_eq!(image_data_url(b""), "data:image/png;base64,");
    assert_eq!(image_data_url(&[0xfb, 0xff]), "data:image/png;base64,+/8=");
}

#[test]
fn round_trip_through_validation() {
    let bytes: Vec<u8> = (0..=255u8).cycle().take(1000).collect();
    let url = image_data_url(&bytes);
    let estimate = validate_image_data(&url).unwrap();
    assert_eq!(estimate, 1336 * 3 / 4);
    assert_eq!(decode_base64_image(&url).unwrap(), bytes);
}

#[test]
fn round_trip_of_every_length_up_to_three() {
    for bytes in [vec![], vec![7u8], vec![7u8, 8], vec![7u8, 8, 9]] {
        let url = image_data_url(&bytes);
        assert!(validate_image_data(&url).is_ok());
        assert_eq!(decode_base64_image(&url).unwrap(), bytes);
    }
}

#[test]
fn decode_rejects_non_base64() {
    let result = decode_base64_image("data:image/png;base64,@@@@");
    assert!(matches!(result, Err(EmobananaError::Base64Decode(_))));
}

#[test]
fn decode_takes_whole_text_when_commas_are_not_single() {
    let result = decode_base64_image("data:image/png;base64,AAAA,BBBB");
    assert!(matches!(result, Err(EmobananaError::Base64Decode(_))));
    assert_eq!(decode_base64_image("AAAA").unwrap(), vec![0u8, 0, 0]);
}
