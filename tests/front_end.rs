use ruuvi_decoders::{decode, extract_payload, extract_ruuvi_from_ble, hex_to_bytes, v5};
use ruuvi_decoders::{DecodeError, RuuviData};

#[test]
fn test_hex_to_bytes() {
    assert_eq!(hex_to_bytes("01FF").unwrap(), vec![0x01, 0xFF]);
    assert_eq!(hex_to_bytes("").unwrap(), Vec::<u8>::new());
    assert!(hex_to_bytes("0").is_err()); // Odd length
    assert!(hex_to_bytes("GG").is_err()); // Invalid hex
}

#[test]
fn hex_to_bytes_errors_carry_their_text() {
    assert_eq!(
        hex_to_bytes("ABC"),
        Err(DecodeError::InvalidHex(
            "Odd number of hex characters: 3".to_string()
        ))
    );
    assert_eq!(
        hex_to_bytes("0G"),
        Err(DecodeError::InvalidHex("0G".to_string()))
    );
    assert_eq!(hex_to_bytes("aBcD").unwrap(), vec![0xAB, 0xCD]);
}

#[test]
fn test_extract_ruuvi_from_ble() {
    let ble_data = "99040512FC5394C37C0004FFFC040CAC364200CDCBB8334C884F";
    let payload = extract_ruuvi_from_ble(ble_data).expect("Failed to extract Ruuvi data");
    assert_eq!(
        payload,
        "0512FC5394C37C0004FFFC040CAC364200CDCBB8334C884F".to_string()
    );
    assert_eq!(payload.len(), v5::PAYLOAD_WITH_MAC_LENGTH * 2);
    assert!(payload.starts_with("05")); // Data Format 5

    // Test with 0499 pattern (little-endian)
    let ble_data_le = "04990512FC5394C37C0004FFFC040CAC364200CDCBB8334C884F";
    let extracted_le = extract_ruuvi_from_ble(ble_data_le);
    assert!(extracted_le.is_some());

    // Test with no Ruuvi data
    let non_ruuvi = "020106030316910255AA";
    assert!(extract_ruuvi_from_ble(non_ruuvi).is_none());
}

#[test]
fn extraction_trims_and_upper_cases() {
    assert_eq!(
        extract_ruuvi_from_ble("  9904abcdef \n"),
        Some("ABCDEF".to_string())
    );
    assert_eq!(extract_ruuvi_from_ble("0499"), Some(String::new()));
}

#[test]
fn extraction_needs_marker_at_start_and_hex_only() {
    assert_eq!(extract_ruuvi_from_ble("009904AB"), None);
    assert_eq!(extract_ruuvi_from_ble("9904 AB"), None);
    assert_eq!(extract_ruuvi_from_ble("9904XY"), None);
    assert_eq!(extract_ruuvi_from_ble(""), None);
    assert_eq!(extract_ruuvi_from_ble("990"), None);
}

#[test]
fn extract_payload_keeps_case_it_is_given() {
    assert_eq!(extract_payload("9904ab"), Some("ab".to_string()));
    assert_eq!(extract_payload("0499FF"), Some("FF".to_string()));
    assert_eq!(extract_payload("1234FF"), None);
}

#[test]
fn test_decode_empty_data() {
    assert!(decode("").is_err());
}

#[test]
fn empty_input_is_a_length_error() {
    assert_eq!(
        decode("   "),
        Err(DecodeError::InvalidLength("Empty data".to_string()))
    );
}

#[test]
fn test_unsupported_format() {
    // Format 99 doesn't exist
    let result = decode("63000000000000000000000000000000000000000000000000");
    assert!(matches!(result, Err(DecodeError::UnsupportedFormat(99))));
}

#[test]
fn test_decoding_ruuvi_data() {
    let ble_data = "99040512FC5394C37C0004FFFC040CAC364200CDCBB8334C884F";
    let payload = decode(&extract_ruuvi_from_ble(ble_data).expect("ble_data"))
        .expect("Failed to extract Ruuvi data");
    match payload {
        RuuviData::V5(_) => (),
        _ => panic!("Unexpected data format"),
    }

    let ble_data = "990406170C5668C79E007000C90501D9FFCD004C884F";
    let payload = decode(&extract_ruuvi_from_ble(ble_data).expect("ble_data"))
        .expect("Failed to extract Ruuvi data");
    match payload {
        RuuviData::V6(_) => (),
        _ => panic!("Unexpected data format"),
    }

    let ble_data =
        "9904E1170C5668C79E0065007004BD11CA00C90A0213E0AC000000DECDEE100000000000CBB8334C884F";
    let payload = decode(&extract_ruuvi_from_ble(ble_data).expect("ble_data"))
        .expect("Failed to extract Ruuvi data");
    match payload {
        RuuviData::E1(_) => (),
        _ => panic!("Unexpected data format"),
    }
}

#[test]
fn decode_of_the_format_5_example() {
    let d = match decode("0512FC5394C37C0004FFFC040CAC364200CDCBB8334C884F") {
        Ok(RuuviData::V5(d)) => d,
        other => panic!("unexpected {other:?}"),
    };
    assert!((f64::from(d.temperature.unwrap()) / 1000.0 - 24.3).abs() < 1e-9);
    assert!((f64::from(d.pressure.unwrap()) - 100044.0).abs() < 1e-9);
    assert!((f64::from(d.humidity.unwrap()) / 10000.0 - 53.49).abs() < 1e-9);
    assert_eq!(d.temperature, Some(24300));
    assert_eq!(d.pressure, Some(100044));
    assert_eq!(d.humidity, Some(534900));
    assert_eq!(
        (d.acceleration_x, d.acceleration_y, d.acceleration_z),
        (Some(4), Some(-4), Some(1036))
    );
    assert_eq!(d.battery_voltage, Some(2977));
    assert_eq!(d.tx_power, Some(4));
    assert_eq!(d.movement_counter, Some(66));
    assert_eq!(d.measurement_sequence, Some(205));
    assert_eq!(d.mac_address, "cbb8334c884f");
}

#[test]
fn decode_cleans_prefix_spaces_and_white_space() {
    let plain = decode("0512FC5394C37C0004FFFC040CAC364200CDCBB8334C884F").unwrap();
    assert_eq!(
        decode("  0x0512FC53 94C37C0004FFFC040CAC364200CDCBB8334C884F\t").unwrap(),
        plain
    );
    assert_eq!(
        decode("0x0x0512fc5394c37c0004fffc040cac364200cdcbb8334c884f").unwrap(),
        plain
    );
}

#[test]
fn decode_reports_bad_hex() {
    assert_eq!(
        decode("051"),
        Err(DecodeError::InvalidHex(
            "Odd number of hex characters: 3".to_string()
        ))
    );
    assert_eq!(
        decode(" 05 ZZ "),
        Err(DecodeError::InvalidHex("05ZZ".to_string()))
    );
}

#[test]
fn decode_reports_wrong_length_for_known_format() {
    assert_eq!(
        decode("0512FC"),
        Err(DecodeError::InvalidLength(
            "Expected 24 bytes, got 3".to_string()
        ))
    );
}
