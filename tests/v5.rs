use ruuvi_decoders::v5::{
    decode, decode_acceleration, decode_humidity, decode_mac_address, decode_measurement_sequence,
    decode_movement_counter, decode_power_info, decode_pressure, decode_temperature,
};
use ruuvi_decoders::DecodeError;

fn bytes(hex_str: &str) -> Vec<u8> {
    hex::decode(hex_str).unwrap()
}

#[test]
fn decode_errors() {
    let short_data = vec![0x05, 0x12, 0xFC]; // Too short
    assert!(matches!(
        decode(&short_data),
        Err(DecodeError::InvalidLength(_))
    ));

    let long_data = vec![0u8; 30]; // Too long
    assert!(matches!(
        decode(&long_data),
        Err(DecodeError::InvalidLength(_))
    ));

    let wrong_format = vec![0x06; 24]; // Format 6, not 5
    assert!(matches!(
        decode(&wrong_format),
        Err(DecodeError::UnsupportedFormat(6))
    ));
}

#[test]
fn movement_and_sequence_boundaries() {
    // Movement counter boundary
    assert_eq!(decode_movement_counter(254), Some(254));
    assert_eq!(decode_movement_counter(255), None);

    // Measurement sequence boundary
    assert_eq!(
        decode_measurement_sequence(&[0xFF, 0xFE]).unwrap(),
        Some(65534)
    );
    assert_eq!(decode_measurement_sequence(&[0xFF, 0xFF]).unwrap(), None);
}

#[test]
fn v5_maximum_values() {
    let d = decode(&bytes("057FFFFFFEFFFE7FFF7FFF7FFFFFDEFEFFFECBB8334C884F")).unwrap();
    assert_eq!(d.temperature, Some(163835));
    assert_eq!(d.humidity, Some(1638350));
    assert_eq!(d.pressure, Some(115534));
    assert_eq!(d.acceleration_x, Some(32767));
    assert_eq!(d.acceleration_y, Some(32767));
    assert_eq!(d.acceleration_z, Some(32767));
    assert_eq!(d.battery_voltage, Some(3646));
    assert_eq!(d.tx_power, Some(20));
    assert_eq!(d.movement_counter, Some(254));
    assert_eq!(d.measurement_sequence, Some(65534));
    assert_eq!(d.mac_address, "cbb8334c884f");
}

#[test]
fn v5_minimum_values() {
    let d = decode(&bytes("058001000000008001800180010000000000CBB8334C884F")).unwrap();
    assert_eq!(d.temperature, Some(-163835));
    assert_eq!(d.humidity, Some(0));
    assert_eq!(d.pressure, Some(50000));
    assert_eq!(d.acceleration_x, Some(-32767));
    assert_eq!(d.acceleration_y, Some(-32767));
    assert_eq!(d.acceleration_z, Some(-32767));
    assert_eq!(d.battery_voltage, Some(1600));
    assert_eq!(d.tx_power, Some(-40));
    assert_eq!(d.movement_counter, Some(0));
    assert_eq!(d.measurement_sequence, Some(0));
}

#[test]
fn v5_all_unmeasured() {
    let d = decode(&bytes("058000FFFFFFFF800080008000FFFFFFFFFFFFFFFFFFFFFF")).unwrap();
    assert_eq!(d.temperature, None);
    assert_eq!(d.humidity, None);
    assert_eq!(d.pressure, None);
    assert_eq!(d.acceleration_x, None);
    assert_eq!(d.acceleration_y, None);
    assert_eq!(d.acceleration_z, None);
    assert_eq!(d.battery_voltage, None);
    assert_eq!(d.tx_power, None);
    assert_eq!(d.movement_counter, None);
    assert_eq!(d.measurement_sequence, None);
    assert_eq!(d.mac_address, "invalid");
}

#[test]
fn v5_sea_level() {
    let d = decode(&bytes("0500004E20C8550000000000000000000001CBB8334C884F")).unwrap();
    assert_eq!(d.temperature, Some(0));
    assert_eq!(d.humidity, Some(500000));
    assert_eq!(d.pressure, Some(101285));
    assert_eq!(d.measurement_sequence, Some(1));
}

#[test]
fn v5_length_errors_carry_counts() {
    let valid = bytes("0512FC5394C37C0004FFFC040CAC364200CDCBB8334C884F");
    assert_eq!(
        decode(&valid[..23]),
        Err(DecodeError::InvalidLength(
            "Expected 24 bytes, got 23".to_string()
        ))
    );
    let mut padded = valid.clone();
    padded.push(0);
    assert_eq!(
        decode(&padded),
        Err(DecodeError::InvalidLength(
            "Expected 24 bytes, got 25".to_string()
        ))
    );
}

#[test]
fn v5_decoding_twice_is_identical() {
    let b = bytes("0512FC5394C37C0004FFFC040CAC364200CDCBB8334C884F");
    assert_eq!(decode(&b).unwrap(), decode(&b).unwrap());
}

#[test]
fn temperature_cases() {
    assert_eq!(decode_temperature(&bytes("0000")).unwrap(), Some(0));
    assert_eq!(decode_temperature(&bytes("01C3")).unwrap(), Some(2255));
    assert_eq!(decode_temperature(&bytes("FE3D")).unwrap(), Some(-2255));
    assert_eq!(decode_temperature(&bytes("8000")).unwrap(), None);
    assert_eq!(
        decode_temperature(&[1]),
        Err(DecodeError::InvalidLength(
            "Temperature field must be 2 bytes".to_string()
        ))
    );
}

#[test]
fn humidity_cases() {
    assert_eq!(decode_humidity(&bytes("0000")).unwrap(), Some(0));
    assert_eq!(decode_humidity(&bytes("2710")).unwrap(), Some(250000));
    assert_eq!(decode_humidity(&bytes("9C40")).unwrap(), Some(1000000));
    assert_eq!(decode_humidity(&bytes("FFFF")).unwrap(), None);
    assert!(matches!(
        decode_humidity(&[1, 2, 3]),
        Err(DecodeError::InvalidLength(_))
    ));
}

#[test]
fn pressure_cases() {
    assert_eq!(decode_pressure(&bytes("0000")).unwrap(), Some(50000));
    assert_eq!(decode_pressure(&bytes("C855")).unwrap(), Some(101285));
    assert_eq!(decode_pressure(&bytes("FFFE")).unwrap(), Some(115534));
    assert_eq!(decode_pressure(&bytes("FFFF")).unwrap(), None);
    assert!(matches!(
        decode_pressure(&[]),
        Err(DecodeError::InvalidLength(_))
    ));
}

#[test]
fn acceleration_cases() {
    assert_eq!(decode_acceleration(&bytes("03E8")).unwrap(), Some(1000));
    assert_eq!(decode_acceleration(&bytes("FC18")).unwrap(), Some(-1000));
    assert_eq!(decode_acceleration(&bytes("8000")).unwrap(), None);
    assert!(matches!(
        decode_acceleration(&[0]),
        Err(DecodeError::InvalidLength(_))
    ));
}

#[test]
fn power_info_cases() {
    assert_eq!(
        decode_power_info(&bytes("0AC3")).unwrap(),
        (Some(1686), Some(-34))
    );
    assert_eq!(decode_power_info(&bytes("FFE0")).unwrap(), (None, Some(-40)));
    assert_eq!(decode_power_info(&bytes("FFFF")).unwrap(), (None, None));
    assert_eq!(
        decode_power_info(&[0]),
        Err(DecodeError::InvalidLength(
            "Power info field must be 2 bytes".to_string()
        ))
    );
}

#[test]
fn mac_address_cases() {
    assert_eq!(
        decode_mac_address(&[0xCB, 0xB8, 0x33, 0x4C, 0x88, 0x4F]),
        "cbb8334c884f"
    );
    assert_eq!(
        decode_mac_address(&[0xFF, 0xFF, 0xFF, 0xFF, 0xFF, 0xFF]),
        "invalid"
    );
    assert_eq!(
        decode_mac_address(&[0xFF, 0xFF, 0xFF, 0xFF, 0xFF, 0xFE]),
        "fffffffffffe"
    );
    assert_eq!(decode_mac_address(&[0x01, 0x02]), "invalid");
}
