//! Tests of device identification from advertisement vendor blocks.

use camlink::discovery::{
    classify_advertisement, select_matching, AdvertisementError, DeviceMatch, EXPECTED_SUB_ID,
    MIN_BLOCK_LEN, VENDOR_ID,
};

#[test]
fn matching_block_is_identified() {
    // Sub-identifier 0x0003 little-endian, version 1, model code "A7".
    let block: Vec<u8> = vec![0x03, 0x00, 0x01, b'A', b'7'];
    let found = classify_advertisement(&block).unwrap().unwrap();
    assert_eq!(
        found,
        DeviceMatch { protocol_version: 0x01, model_code_0: b'A', model_code_1: b'7' }
    );
}

#[test]
fn non_matching_sub_identifier_is_excluded_silently() {
    let block: Vec<u8> = vec![0x04, 0x00, 0x01, b'A', b'7'];
    assert_eq!(classify_advertisement(&block), Ok(None));
    let also_wrong: Vec<u8> = vec![0x03, 0x01, 0x01, b'A', b'7'];
    assert_eq!(classify_advertisement(&also_wrong), Ok(None));
}

#[test]
fn short_block_is_a_decode_error_not_a_panic() {
    for len in 0..MIN_BLOCK_LEN {
        let block: Vec<u8> = vec![0x03; len];
        assert_eq!(classify_advertisement(&block), Err(AdvertisementError::TooShort));
    }
}

#[test]
fn invalid_model_text_is_a_decode_error() {
    let block: Vec<u8> = vec![0x03, 0x00, 0x01, 0xff, 0xff];
    assert_eq!(classify_advertisement(&block), Err(AdvertisementError::BadModelCode));
    // A well-formed two-byte sequence is accepted as model text.
    let two_byte: Vec<u8> = vec![0x03, 0x00, 0x01, 0xc3, 0x84];
    assert!(classify_advertisement(&two_byte).unwrap().is_some());
}

#[test]
fn select_keeps_only_matching_devices_in_order() {
    let blocks: Vec<Option<Vec<u8>>> = vec![
        None,
        Some(vec![0x03, 0x00, 0x01, b'A', b'7']),
        Some(vec![0x99, 0x00, 0x01, b'X', b'1']),
        Some(vec![0x03, 0x00, 0x02, b'Z', b'9']),
    ];
    assert_eq!(select_matching(&blocks), Ok(vec![1, 3]));
}

#[test]
fn select_surfaces_the_first_malformed_block() {
    let blocks: Vec<Option<Vec<u8>>> = vec![
        Some(vec![0x03, 0x00, 0x01, b'A', b'7']),
        Some(vec![0x03, 0x00]),
        Some(vec![0x03, 0x00, 0x01, 0xff, 0xff]),
    ];
    assert_eq!(select_matching(&blocks), Err(AdvertisementError::TooShort));
}

#[test]
fn vendor_constants_match_the_protocol() {
    assert_eq!(VENDOR_ID, 0x012d);
    assert_eq!(EXPECTED_SUB_ID, 0x0003);
}
