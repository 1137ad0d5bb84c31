use ruuvi_decoders::v6::{decode, PAYLOAD_WITH_MAC_LENGTH};
use ruuvi_decoders::DecodeError;

fn bytes(hex_str: &str) -> Vec<u8> {
    hex::decode(hex_str).unwrap()
}

#[test]
fn v6_test_decode_invalid_length() {
    let bytes: [u8; 10] = [0; 10];
    let err = decode(&bytes).unwrap_err();
    match err {
        DecodeError::InvalidLength(_) => {}
        _ => panic!("Expected InvalidLength error"),
    }
}

#[test]
fn v6_test_decode_wrong_format() {
    let mut bytes: [u8; PAYLOAD_WITH_MAC_LENGTH] = [0; PAYLOAD_WITH_MAC_LENGTH];
    bytes[0] = 0x05;
    let err = decode(&bytes).unwrap_err();
    match err {
        DecodeError::UnsupportedFormat(0x05) => {}
        _ => panic!("Expected UnsupportedFormat error"),
    }
}

#[test]
fn v6_valid_values() {
    let d = decode(&bytes("06170C5668C79E007000C90501D9FFCD004C884F")).unwrap();
    assert_eq!(d.temperature, Some(29500));
    assert_eq!(d.humidity, Some(553000));
    assert_eq!(d.pressure, Some(101102));
    assert_eq!(d.pm2_5, Some(112));
    assert_eq!(d.co2, Some(201));
    assert_eq!(d.voc_index, Some(10));
    assert_eq!(d.nox_index, Some(2));
    assert_eq!(d.luminosity_code, Some(217));
    assert_eq!(d.reserved, Some(255));
    assert_eq!(d.measurement_sequence, Some(205));
    assert_eq!(d.flags, 0);
    assert_eq!(d.mac_address, "4c884f");
}

#[test]
fn v6_maximum_values() {
    let d = decode(&bytes("067FFF9C40FFFE27109C40FAFAFEFFFF074C8F4F")).unwrap();
    assert_eq!(d.temperature, Some(163835));
    assert_eq!(d.humidity, Some(1000000));
    assert_eq!(d.pressure, Some(115534));
    assert_eq!(d.pm2_5, Some(10000));
    assert_eq!(d.co2, Some(40000));
    assert_eq!(d.voc_index, Some(500));
    assert_eq!(d.nox_index, Some(500));
    assert_eq!(d.luminosity_code, Some(254));
    assert_eq!(d.flags, 7);
    assert_eq!(d.mac_address, "4c8f4f");
}

#[test]
fn v6_minimum_values() {
    let d = decode(&bytes("06800100000000000000000000000000004C884F")).unwrap();
    assert_eq!(d.temperature, Some(-163835));
    assert_eq!(d.humidity, Some(0));
    assert_eq!(d.pressure, Some(50000));
    assert_eq!(d.pm2_5, Some(0));
    assert_eq!(d.co2, Some(0));
    assert_eq!(d.voc_index, Some(0));
    assert_eq!(d.nox_index, Some(0));
    assert_eq!(d.luminosity_code, Some(0));
}

#[test]
fn v6_all_unmeasured() {
    let d = decode(&bytes("068000FFFFFFFFFFFFFFFFFFFFFFFFFFFF4C884F")).unwrap();
    assert_eq!(d.temperature, None);
    assert_eq!(d.humidity, None);
    assert_eq!(d.pressure, None);
    assert_eq!(d.pm2_5, None);
    assert_eq!(d.co2, None);
    assert_eq!(d.voc_index, None);
    assert_eq!(d.nox_index, None);
    assert_eq!(d.luminosity_code, None);
    // These two have no "not measured" pattern.
    assert_eq!(d.reserved, Some(0xFF));
    assert_eq!(d.measurement_sequence, Some(0xFF));
}

#[test]
fn v6_range_limits() {
    // Humidity 40001, PM2.5 10001, CO2 40001, indices 501 (250 << 1 | bit).
    let d = decode(&bytes("0600009C41000027119C41FAFA00000040AABBCC")).unwrap();
    assert_eq!(d.humidity, None);
    assert_eq!(d.pm2_5, None);
    assert_eq!(d.co2, None);
    assert_eq!(d.voc_index, None);
    assert_eq!(d.nox_index, Some(500));
    assert_eq!(d.flags, 0x40);
    assert_eq!(d.mac_address, "aabbcc");
}
