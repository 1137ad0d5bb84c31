//! The 24-byte format with identifier 5: environment, acceleration, power
//! and a full hardware address.

use vstd::prelude::*;

use crate::error::{length_message, DecodeError};
use crate::fields::{
    be_i16, be_u16, hex_string, hex_text, humidity_of, humidity_scaled, pressure_of,
    pressure_value, read_i16, read_u16, temperature_of, temperature_value,
};

verus! {

/// Bytes before the hardware address, the identifier included.
pub const PAYLOAD_LENGTH: usize = 18;

/// Bytes of a whole payload, the 6-byte hardware address included.
pub const PAYLOAD_WITH_MAC_LENGTH: usize = PAYLOAD_LENGTH + 6;

/// A decoded payload of format 5. `None` marks a field that was not measured.
#[derive(Debug, Clone, PartialEq)]
pub struct DataFormatV5 {
    /// Hardware address as lower-case hex without separators, or `"invalid"`.
    pub mac_address: String,
    /// Temperature in thousandths of a degree Celsius.
    pub temperature: Option<i32>,
    /// Relative humidity in ten-thousandths of a percent.
    pub humidity: Option<u32>,
    /// Pressure in pascals.
    pub pressure: Option<u32>,
    /// Acceleration along X in milli-g.
    pub acceleration_x: Option<i16>,
    /// Acceleration along Y in milli-g.
    pub acceleration_y: Option<i16>,
    /// Acceleration along Z in milli-g.
    pub acceleration_z: Option<i16>,
    /// Battery voltage in millivolts.
    pub battery_voltage: Option<u16>,
    /// Radio transmit power in dBm.
    pub tx_power: Option<i8>,
    /// Count of detected movements.
    pub movement_counter: Option<u8>,
    /// Sequence number of the measurement.
    pub measurement_sequence: Option<u16>,
}

/// The mathematical content of a [`DataFormatV5`].
pub struct DataFormatV5View {
    pub mac_address: Seq<char>,
    pub temperature: Option<i32>,
    pub humidity: Option<u32>,
    pub pressure: Option<u32>,
    pub acceleration_x: Option<i16>,
    pub acceleration_y: Option<i16>,
    pub acceleration_z: Option<i16>,
    pub battery_voltage: Option<u16>,
    pub tx_power: Option<i8>,
    pub movement_counter: Option<u8>,
    pub measurement_sequence: Option<u16>,
}

impl View for DataFormatV5 {
    type V = DataFormatV5View;

    open spec fn view(&self) -> DataFormatV5View {
        DataFormatV5View {
            mac_address: self.mac_address@,
            temperature: self.temperature,
            humidity: self.humidity,
            pressure: self.pressure,
            acceleration_x: self.acceleration_x,
            acceleration_y: self.acceleration_y,
            acceleration_z: self.acceleration_z,
            battery_voltage: self.battery_voltage,
            tx_power: self.tx_power,
            movement_counter: self.movement_counter,
            measurement_sequence: self.measurement_sequence,
        }
    }
}

/// Humidity: all ones means "not measured".
pub open spec fn humidity_value(raw: int) -> Option<u32> {
    if raw == 65535 {
        None
    } else {
        Some(humidity_scaled(raw))
    }
}

/// Acceleration in milli-g; the smallest signed value means "not measured".
pub open spec fn acceleration_value(raw: int) -> Option<i16> {
    if raw == -32768 {
        None
    } else {
        Some(raw as i16)
    }
}

/// Battery voltage from the upper 11 bits of the power word: 1600 mV plus
/// 1 mV per step; 2047 means "not measured".
pub open spec fn battery_value(word: int) -> Option<u16> {
    if word / 32 == 2047 {
        None
    } else {
        Some((word / 32 + 1600) as u16)
    }
}

/// Transmit power from the lower 5 bits of the power word: -40 dBm plus
/// 2 dBm per step; 31 means "not measured".
pub open spec fn tx_power_value(word: int) -> Option<i8> {
    if word % 32 == 31 {
        None
    } else {
        Some((2 * (word % 32) - 40) as i8)
    }
}

/// Movement counter: 255 means "not measured".
pub open spec fn movement_value(raw: u8) -> Option<u8> {
    if raw == 255 {
        None
    } else {
        Some(raw)
    }
}

/// Measurement sequence: all ones means "not measured".
pub open spec fn sequence_value(raw: int) -> Option<u16> {
    if raw == 65535 {
        None
    } else {
        Some(raw as u16)
    }
}

/// The hardware address text: `"invalid"` unless there are six bytes and
/// not all of them are 0xFF; else their lower-case hex.
pub open spec fn mac_text(b: Seq<u8>) -> Seq<char> {
    if b.len() != 6 || (forall|i: int| 0 <= i < b.len() ==> b[i] == 0xFF) {
        "invalid"@
    } else {
        hex_text(b)
    }
}

/// What a well-formed payload of format 5 decodes to.
pub open spec fn reading(b: Seq<u8>) -> DataFormatV5View {
    DataFormatV5View {
        mac_address: mac_text(b.subrange(18, 24)),
        temperature: temperature_value(be_i16(b, 1)),
        humidity: humidity_value(be_u16(b, 3)),
        pressure: pressure_value(be_u16(b, 5)),
        acceleration_x: acceleration_value(be_i16(b, 7)),
        acceleration_y: acceleration_value(be_i16(b, 9)),
        acceleration_z: acceleration_value(be_i16(b, 11)),
        battery_voltage: battery_value(be_u16(b, 13)),
        tx_power: tx_power_value(be_u16(b, 13)),
        movement_counter: movement_value(b[15]),
        measurement_sequence: sequence_value(be_u16(b, 16)),
    }
}

/// Every field of `b` holds its "not measured" pattern: 0x8000 for the
/// signed fields, all ones for the others.
pub open spec fn all_unmeasured(b: Seq<u8>) -> bool {
    &&& b.len() == PAYLOAD_WITH_MAC_LENGTH
    &&& b[1] == 0x80 && b[2] == 0x00
    &&& forall|i: int| 3 <= i < 7 ==> b[i] == 0xFF
    &&& b[7] == 0x80 && b[8] == 0x00
    &&& b[9] == 0x80 && b[10] == 0x00
    &&& b[11] == 0x80 && b[12] == 0x00
    &&& forall|i: int| 13 <= i < 18 ==> b[i] == 0xFF
}

/// A payload whose fields all hold their "not measured" pattern decodes with
/// every optional field absent.
pub proof fn lemma_all_unmeasured(b: Seq<u8>)
    requires
        all_unmeasured(b),
    ensures
        reading(b).temperature is None,
        reading(b).humidity is None,
        reading(b).pressure is None,
        reading(b).acceleration_x is None,
        reading(b).acceleration_y is None,
        reading(b).acceleration_z is None,
        reading(b).battery_voltage is None,
        reading(b).tx_power is None,
        reading(b).movement_counter is None,
        reading(b).measurement_sequence is None,
{
    assert(b[3] == 0xFF && b[4] == 0xFF && b[5] == 0xFF && b[6] == 0xFF);
    assert(b[13] == 0xFF && b[14] == 0xFF && b[15] == 0xFF && b[16] == 0xFF && b[17] == 0xFF);
}

/// Decodes a whole payload of format 5: the length is checked first, then
/// the identifier.
pub fn decode(bytes: &[u8]) -> (r: Result<DataFormatV5, DecodeError>)
    ensures
        match r {
            Ok(d) => bytes@.len() == PAYLOAD_WITH_MAC_LENGTH && bytes@[0] == 5 && d@ == reading(
                bytes@,
            ),
            Err(e) => if bytes@.len() != PAYLOAD_WITH_MAC_LENGTH {
                e matches DecodeError::InvalidLength(m) && m@ == length_message(
                    PAYLOAD_WITH_MAC_LENGTH as nat,
                    bytes@.len(),
                )
            } else {
                bytes@[0] != 5 && e == DecodeError::UnsupportedFormat(bytes@[0])
            },
        },
{
    if bytes.len() != PAYLOAD_WITH_MAC_LENGTH {
        return Err(DecodeError::invalid_length(PAYLOAD_WITH_MAC_LENGTH, bytes.len()));
    }
    if bytes[0] != 5 {
        return Err(DecodeError::UnsupportedFormat(bytes[0]));
    }
    let temperature = decode_temperature(&bytes[1..3])?;
    let humidity = decode_humidity(&bytes[3..5])?;
    let pressure = decode_pressure(&bytes[5..7])?;
    let acceleration_x = decode_acceleration(&bytes[7..9])?;
    let acceleration_y = decode_acceleration(&bytes[9..11])?;
    let acceleration_z = decode_acceleration(&bytes[11..13])?;
    let (battery_voltage, tx_power) = decode_power_info(&bytes[13..15])?;
    let movement_counter = decode_movement_counter(bytes[15]);
    let measurement_sequence = decode_measurement_sequence(&bytes[16..18])?;
    let mac_address = decode_mac_address(&bytes[18..24]);
    Ok(
        DataFormatV5 {
            mac_address,
            temperature,
            humidity,
            pressure,
            acceleration_x,
            acceleration_y,
            acceleration_z,
            battery_voltage,
            tx_power,
            movement_counter,
            measurement_sequence,
        },
    )
}

/// Temperature from a 2-byte field.
pub fn decode_temperature(bytes: &[u8]) -> (r: Result<Option<i32>, DecodeError>)
    ensures
        bytes@.len() == 2 ==> r == Ok::<Option<i32>, DecodeError>(
            temperature_value(be_i16(bytes@, 0)),
        ),
        bytes@.len() != 2 ==> (r matches Err(DecodeError::InvalidLength(m)) && m@
            == "Temperature field must be 2 bytes"@),
{
    if bytes.len() != 2 {
        return Err(DecodeError::InvalidLength(String::from_str("Temperature field must be 2 bytes")));
    }
    Ok(temperature_of(read_i16(bytes, 0)))
}

/// Humidity from a 2-byte field.
pub fn decode_humidity(bytes: &[u8]) -> (r: Result<Option<u32>, DecodeError>)
    ensures
        bytes@.len() == 2 ==> r == Ok::<Option<u32>, DecodeError>(
            humidity_value(be_u16(bytes@, 0)),
        ),
        bytes@.len() != 2 ==> (r matches Err(DecodeError::InvalidLength(m)) && m@
            == "Humidity field must be 2 bytes"@),
{
    if bytes.len() != 2 {
        return Err(DecodeError::InvalidLength(String::from_str("Humidity field must be 2 bytes")));
    }
    let raw = read_u16(bytes, 0);
    if raw == 65535 {
        Ok(None)
    } else {
        Ok(Some(humidity_of(raw)))
    }
}

/// Pressure from a 2-byte field.
pub fn decode_pressure(bytes: &[u8]) -> (r: Result<Option<u32>, DecodeError>)
    ensures
        bytes@.len() == 2 ==> r == Ok::<Option<u32>, DecodeError>(
            pressure_value(be_u16(bytes@, 0)),
        ),
        bytes@.len() != 2 ==> (r matches Err(DecodeError::InvalidLength(m)) && m@
            == "Pressure field must be 2 bytes"@),
{
    if bytes.len() != 2 {
        return Err(DecodeError::InvalidLength(String::from_str("Pressure field must be 2 bytes")));
    }
    Ok(pressure_of(read_u16(bytes, 0)))
}

/// Acceleration along one axis from a 2-byte field.
pub fn decode_acceleration(bytes: &[u8]) -> (r: Result<Option<i16>, DecodeError>)
    ensures
        bytes@.len() == 2 ==> r == Ok::<Option<i16>, DecodeError>(
            acceleration_value(be_i16(bytes@, 0)),
        ),
        bytes@.len() != 2 ==> (r matches Err(DecodeError::InvalidLength(m)) && m@
            == "Acceleration field must be 2 bytes"@),
{
    if bytes.len() != 2 {
        return Err(
            DecodeError::InvalidLength(String::from_str("Acceleration field must be 2 bytes")),
        );
    }
    let raw = read_i16(bytes, 0);
    if raw == i16::MIN {
        Ok(None)
    } else {
        Ok(Some(raw))
    }
}

/// Battery voltage and transmit power from the 2-byte power word.
pub fn decode_power_info(bytes: &[u8]) -> (r: Result<(Option<u16>, Option<i8>), DecodeError>)
    ensures
        bytes@.len() == 2 ==> r == Ok::<(Option<u16>, Option<i8>), DecodeError>(
            (battery_value(be_u16(bytes@, 0)), tx_power_value(be_u16(bytes@, 0))),
        ),
        bytes@.len() != 2 ==> (r matches Err(DecodeError::InvalidLength(m)) && m@
            == "Power info field must be 2 bytes"@),
{
    if bytes.len() != 2 {
        return Err(
            DecodeError::InvalidLength(String::from_str("Power info field must be 2 bytes")),
        );
    }
    let raw = read_u16(bytes, 0);
    let battery_raw = raw / 32;
    let battery_voltage = if battery_raw == 2047 {
        None
    } else {
        Some(battery_raw + 1600)
    };
    let tx_power_raw = (raw % 32) as i8;
    let tx_power = if tx_power_raw == 31 {
        None
    } else {
        Some(tx_power_raw * 2 - 40)
    };
    Ok((battery_voltage, tx_power))
}

/// Movement counter from its byte.
pub fn decode_movement_counter(byte: u8) -> (r: Option<u8>)
    ensures
        r == movement_value(byte),
{
    if byte == 255 {
        None
    } else {
        Some(byte)
    }
}

/// Measurement sequence number from a 2-byte field.
pub fn decode_measurement_sequence(bytes: &[u8]) -> (r: Result<Option<u16>, DecodeError>)
    ensures
        bytes@.len() == 2 ==> r == Ok::<Option<u16>, DecodeError>(
            sequence_value(be_u16(bytes@, 0)),
        ),
        bytes@.len() != 2 ==> (r matches Err(DecodeError::InvalidLength(m)) && m@
            == "Measurement sequence field must be 2 bytes"@),
{
    if bytes.len() != 2 {
        return Err(
            DecodeError::InvalidLength(
                String::from_str("Measurement sequence field must be 2 bytes"),
            ),
        );
    }
    let raw = read_u16(bytes, 0);
    if raw == 65535 {
        Ok(None)
    } else {
        Ok(Some(raw))
    }
}

/// The hardware address as lower-case hex, or `"invalid"` for anything but
/// six bytes and for six bytes of 0xFF.
pub fn decode_mac_address(bytes: &[u8]) -> (r: String)
    ensures
        r@ == mac_text(bytes@),
{
    if bytes.len() != 6 {
        return String::from_str("invalid");
    }
    let mut all_ones = true;
    for i in 0..6
        invariant
            bytes@.len() == 6,
            all_ones <==> forall|j: int| 0 <= j < i ==> bytes@[j] == 0xFF,
    {
        if bytes[i] != 0xFF {
            all_ones = false;
        }
    }
    if all_ones {
        String::from_str("invalid")
    } else {
        hex_string(bytes)
    }
}

} // verus!
