use std::time::SystemTime;
use riglr_solana_events::clock::{system_time_to_millis, EpochTime};
use riglr_solana_events::common::{
    decode_base58, encode_base58, extract_account_keys, extract_discriminator, has_discriminator,
    parse_pubkey_from_bytes, parse_u128_le, parse_u16_le, parse_u32_le, parse_u64_le, read_i32_le,
    read_option_bool, read_u128_le, read_u32_le, read_u64_le, read_u8_le,
};
use riglr_solana_events::types::{pubkey_from_text, Pubkey, TransferData};

#[test]
fn module_utils_accessible() {
    let data = [0x01, 0x02, 0x03, 0x04, 0x05, 0x06, 0x07, 0x08];
    let result = read_u64_le(&data, 0);
    assert!(result.is_ok());
    result.expect("read_u64_le should succeed");
}

#[test]
fn utils_reexport_read_functions() {
    let data = [
        0xFF, 0xFF, 0xFF, 0xFF, 0xFF, 0xFF, 0xFF, 0xFF, 0xFF, 0xFF, 0xFF, 0xFF, 0xFF, 0xFF,
        0xFF, 0xFF,
    ];
    let u64_result = read_u64_le(&data, 0);
    assert!(u64_result.is_ok());
    assert_eq!(u64_result.expect("read_u64_le should succeed"), u64::MAX);
    let u128_result = read_u128_le(&data, 0);
    assert!(u128_result.is_ok());
    assert_eq!(u128_result.expect("read_u128_le should succeed"), u128::MAX);
    let u32_result = read_u32_le(&data, 0);
    assert!(u32_result.is_ok());
    assert_eq!(u32_result.expect("read_u32_le should succeed"), u32::MAX);
    let i32_result = read_i32_le(&data, 0);
    assert!(i32_result.is_ok());
    assert_eq!(i32_result.expect("read_i32_le should succeed"), -1_i32);
    let u8_result = read_u8_le(&data, 0);
    assert!(u8_result.is_ok());
    assert_eq!(u8_result.expect("read_u8_le should succeed"), 255);
}

#[test]
fn utils_reexport_parse_functions() {
    let data = [
        0x01, 0x02, 0x03, 0x04, 0x05, 0x06, 0x07, 0x08, 0x09, 0x0A, 0x0B, 0x0C, 0x0D, 0x0E,
        0x0F, 0x10,
    ];
    let u64_result = parse_u64_le(&data);
    u64_result.expect("parse_u64_le should succeed");
    let u128_result = parse_u128_le(&data);
    u128_result.expect("parse_u128_le should succeed");
    let u32_result = parse_u32_le(&data);
    u32_result.expect("parse_u32_le should succeed");
    let u16_result = parse_u16_le(&data);
    u16_result.expect("parse_u16_le should succeed");
}

#[test]
fn utils_reexport_discriminator_functions() {
    let data = [0x01, 0x02, 0x03, 0x04, 0x05];
    let discriminator = extract_discriminator(&data, 3);
    assert!(discriminator.is_some());
    assert_eq!(
        discriminator.expect("discriminator should be extracted"),
        vec![0x01, 0x02, 0x03]
    );
    let check_discriminator = [0x01, 0x02, 0x03];
    assert!(has_discriminator(&data, &check_discriminator));
    let wrong_discriminator = [0x01, 0x02, 0x04];
    assert!(!has_discriminator(&data, &wrong_discriminator));
}

fn epoch_time(time: SystemTime) -> EpochTime {
    match time.duration_since(SystemTime::UNIX_EPOCH) {
        Ok(d) => EpochTime { before_epoch: false, secs: d.as_secs(), nanos: d.subsec_nanos() },
        Err(e) => EpochTime {
            before_epoch: true,
            secs: e.duration().as_secs(),
            nanos: e.duration().subsec_nanos(),
        },
    }
}

#[test]
fn utils_reexport_time_function() {
    let time = SystemTime::UNIX_EPOCH;
    let millis = system_time_to_millis(epoch_time(time));
    assert_eq!(millis, 0);
    let now = SystemTime::now();
    let now_millis = system_time_to_millis(epoch_time(now));
    assert!(now_millis > 0);
}

#[test]
fn system_time_to_millis_counts_whole_milliseconds() {
    let t = EpochTime { before_epoch: false, secs: 1_640_995_200, nanos: 123_999_999 };
    assert_eq!(system_time_to_millis(t), 1_640_995_200_123);
    let before = EpochTime { before_epoch: true, secs: 5, nanos: 0 };
    assert_eq!(system_time_to_millis(before), 0);
    let far = EpochTime { before_epoch: false, secs: u64::MAX, nanos: 0 };
    assert_eq!(system_time_to_millis(far), 0);
    let d = std::time::Duration::from_millis(1_500);
    assert_eq!(system_time_to_millis(epoch_time(SystemTime::UNIX_EPOCH + d)), 1_500);
}

#[test]
fn read_option_bool_reports_a_missing_flag_as_an_invalid_variant() {
    let mut offset = 0;
    let r = read_option_bool(&[1_u8], &mut offset);
    assert!(matches!(r, Err(riglr_solana_events::error::ParseError::InvalidEnumVariant { variant: 1, .. })));
    assert_eq!(offset, 1);
}

#[test]
fn utils_reexport_option_bool_function() {
    let data = [0_u8];
    let mut offset = 0;
    let result = read_option_bool(&data, &mut offset);
    assert!(result.is_ok());
    assert_eq!(result.expect("read_option_bool should succeed"), None);
    assert_eq!(offset, 1);

    let data_some_true = [1_u8, 1_u8];
    let mut offset = 0;
    let result = read_option_bool(&data_some_true, &mut offset);
    assert!(result.is_ok());
    assert_eq!(result.expect("read_option_bool should succeed"), Some(true));
    assert_eq!(offset, 2);

    let data_some_false = [1_u8, 0_u8];
    let mut offset = 0;
    let result = read_option_bool(&data_some_false, &mut offset);
    assert!(result.is_ok());
    assert_eq!(result.expect("read_option_bool should succeed"), Some(false));
    assert_eq!(offset, 2);
}

#[test]
fn types_reexport_transfer_data() {
    let source = pubkey_from_text("11111111111111111111111111111112").expect("Test pubkey should be valid");
    let destination =
        pubkey_from_text("11111111111111111111111111111113").expect("Test pubkey should be valid");
    let transfer_data = TransferData { source, destination, mint: None, amount: 100 };
    assert_eq!(transfer_data.amount, 100);
    assert_eq!(transfer_data.source, source);
    assert_eq!(transfer_data.destination, destination);
    assert_eq!(transfer_data.mint, None);
}

#[test]
fn utils_reexport_pubkey_functions() {
    let pubkey_bytes = [1_u8; 32];
    let result = parse_pubkey_from_bytes(&pubkey_bytes);
    assert!(result.is_ok());
    let pubkey = result.expect("parse_pubkey_from_bytes should succeed");
    assert_eq!(pubkey.to_bytes(), pubkey_bytes);
}

#[test]
fn utils_reexport_account_keys_function() {
    let accounts = vec![
        pubkey_from_text("11111111111111111111111111111112").expect("Test pubkey should be valid"),
        pubkey_from_text("11111111111111111111111111111113").expect("Test pubkey should be valid"),
        pubkey_from_text("11111111111111111111111111111114").expect("Test pubkey should be valid"),
    ];
    let indices = vec![0, 2];
    let result = extract_account_keys(&accounts, &indices);
    assert!(result.is_ok());
    let keys = result.expect("extract_account_keys should succeed");
    assert_eq!(keys.len(), 2);
    assert_eq!(*keys.first().expect("keys should not be empty"), *accounts.first().expect("accounts should not be empty"));
    assert_eq!(
        *keys.get(1).expect("keys should have a second element"),
        *accounts.get(2).expect("accounts should have a third element")
    );
}

#[test]
fn utils_reexport_base58_functions() {
    let data = b"hello world";
    let encoded = encode_base58(data);
    assert!(!encoded.is_empty());
    let decoded = decode_base58(&encoded);
    assert!(decoded.is_ok());
    assert_eq!(decoded.expect("decode_base58 should succeed"), data.to_vec());
}

#[test]
fn base58_encoding_decodes_back() {
    for data in [vec![], vec![0u8, 0, 1, 2], vec![255u8; 32], b"hello world".to_vec()] {
        let encoded = encode_base58(&data);
        assert_eq!(decode_base58(&encoded).expect("decodes"), data);
    }
    assert_eq!(encode_base58(&[0, 0, 1]), "112");
}

#[test]
fn base58_text_has_the_digits_of_the_number() {
    assert_eq!(encode_base58(b"hello world"), "StV1DL6CwTryKyV");
    assert_eq!(encode_base58(&[57]), "z");
    assert_eq!(encode_base58(&[58]), "21");
    assert_eq!(encode_base58(&[0]), "1");
    assert_eq!(encode_base58(&[]), "");
    assert_eq!(decode_base58("1112").expect("decodes"), vec![0, 0, 0, 1]);
    assert_eq!(decode_base58("21").expect("decodes"), vec![58]);
    assert_eq!(decode_base58("").expect("decodes"), Vec::<u8>::new());
    assert!(decode_base58("0").is_err());
    assert!(decode_base58("I").is_err());
    assert!(decode_base58("l").is_err());
    assert!(decode_base58("O").is_err());
    assert!(decode_base58("é").is_err());
}

#[test]
fn address_text_reads_back_as_the_address() {
    for bytes in [[0u8; 32], [255u8; 32], [7u8; 32]] {
        let key = Pubkey::new_from_array(bytes);
        let text = key.to_base58();
        assert!(text.len() <= 44);
        assert_eq!(pubkey_from_text(&text), Some(key));
    }
    assert_eq!(Pubkey::new_from_array([0u8; 32]).to_base58(), "11111111111111111111111111111111");
}

#[test]
fn little_endian_fields_read_back_what_was_written() {
    for x in [0u64, 1, 0x0102_0304_0506_0708, u64::MAX] {
        let mut bytes = x.to_le_bytes().to_vec();
        bytes.extend_from_slice(&[9, 9, 9]);
        assert_eq!(parse_u64_le(&bytes), Ok(x));
    }
    for x in [0u16, 0x0102, u16::MAX] {
        let mut bytes = x.to_le_bytes().to_vec();
        bytes.push(7);
        assert_eq!(parse_u16_le(&bytes), Ok(x));
    }
}
