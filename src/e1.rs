//! The 40-byte extended format with identifier 0xE1: four particulate
//! channels, 24-bit luminosity and sequence, and a full hardware address.

use vstd::prelude::*;

use crate::error::{length_message, DecodeError};
use crate::fields::{
    be_i16, be_u16, be_u24, hex_string, hex_text, humidity_of, humidity_scaled, index_of,
    index_value, pressure_of, pressure_value, read_i16, read_u16, read_u24, temperature_of,
    temperature_value,
};

verus! {

/// Bytes before the hardware address, the identifier included.
pub const PAYLOAD_LENGTH: usize = 34;

/// Bytes of a whole payload, the 6-byte hardware address included.
pub const PAYLOAD_WITH_MAC_LENGTH: usize = PAYLOAD_LENGTH + 6;

/// A decoded payload of format 0xE1. `None` marks a field that was not measured.
#[derive(Debug, Clone, PartialEq)]
pub struct DataFormatE1 {
    /// Temperature in thousandths of a degree Celsius.
    pub temperature: Option<i32>,
    /// Relative humidity in ten-thousandths of a percent.
    pub humidity: Option<u32>,
    /// Pressure in pascals.
    pub pressure: Option<u32>,
    /// PM1.0 in tenths of a microgram per cubic metre.
    pub pm1_0: Option<u16>,
    /// PM2.5 in tenths of a microgram per cubic metre.
    pub pm2_5: Option<u16>,
    /// PM4.0 in tenths of a microgram per cubic metre.
    pub pm4_0: Option<u16>,
    /// PM10.0 in tenths of a microgram per cubic metre.
    pub pm10_0: Option<u16>,
    /// CO2 concentration in ppm.
    pub co2: Option<u16>,
    /// VOC index.
    pub voc_index: Option<u16>,
    /// NOx index.
    pub nox_index: Option<u16>,
    /// Luminosity in hundredths of a lux.
    pub luminosity: Option<u32>,
    /// Sequence number of the measurement (24 bits).
    pub measurement_sequence: Option<u32>,
    /// Flags byte, raw.
    pub flags: u8,
    /// Hardware address as lower-case hex without separators.
    pub mac_address: String,
}

/// The mathematical content of a [`DataFormatE1`].
pub struct DataFormatE1View {
    pub temperature: Option<i32>,
    pub humidity: Option<u32>,
    pub pressure: Option<u32>,
    pub pm1_0: Option<u16>,
    pub pm2_5: Option<u16>,
    pub pm4_0: Option<u16>,
    pub pm10_0: Option<u16>,
    pub co2: Option<u16>,
    pub voc_index: Option<u16>,
    pub nox_index: Option<u16>,
    pub luminosity: Option<u32>,
    pub measurement_sequence: Option<u32>,
    pub flags: u8,
    pub mac_address: Seq<char>,
}

impl View for DataFormatE1 {
    type V = DataFormatE1View;

    open spec fn view(&self) -> DataFormatE1View {
        DataFormatE1View {
            temperature: self.temperature,
            humidity: self.humidity,
            pressure: self.pressure,
            pm1_0: self.pm1_0,
            pm2_5: self.pm2_5,
            pm4_0: self.pm4_0,
            pm10_0: self.pm10_0,
            co2: self.co2,
            voc_index: self.voc_index,
            nox_index: self.nox_index,
            luminosity: self.luminosity,
            measurement_sequence: self.measurement_sequence,
            flags: self.flags,
            mac_address: self.mac_address@,
        }
    }
}

/// A 16-bit field whose all-ones value means "not measured".
pub open spec fn u16_value(raw: int) -> Option<u16> {
    if raw == 65535 {
        None
    } else {
        Some(raw as u16)
    }
}

/// A 24-bit field whose all-ones value means "not measured".
pub open spec fn u24_value(raw: int) -> Option<u32> {
    if raw == 0xFF_FFFF {
        None
    } else {
        Some(raw as u32)
    }
}

/// Humidity: all ones means "not measured".
pub open spec fn humidity_value(raw: int) -> Option<u32> {
    if raw == 65535 {
        None
    } else {
        Some(humidity_scaled(raw))
    }
}

/// What a well-formed payload of format 0xE1 decodes to.
pub open spec fn reading(b: Seq<u8>) -> DataFormatE1View {
    DataFormatE1View {
        temperature: temperature_value(be_i16(b, 1)),
        humidity: humidity_value(be_u16(b, 3)),
        pressure: pressure_value(be_u16(b, 5)),
        pm1_0: u16_value(be_u16(b, 7)),
        pm2_5: u16_value(be_u16(b, 9)),
        pm4_0: u16_value(be_u16(b, 11)),
        pm10_0: u16_value(be_u16(b, 13)),
        co2: u16_value(be_u16(b, 15)),
        voc_index: index_value(b[17], b[28], 6),
        nox_index: index_value(b[18], b[28], 7),
        luminosity: u24_value(be_u24(b, 19)),
        measurement_sequence: u24_value(be_u24(b, 25)),
        flags: b[28],
        mac_address: hex_text(b.subrange(34, 40)),
    }
}

fn optional_u16(raw: u16) -> (r: Option<u16>)
    ensures
        r == u16_value(raw as int),
{
    if raw == 0xFFFF {
        None
    } else {
        Some(raw)
    }
}

fn optional_u24(raw: u32) -> (r: Option<u32>)
    requires
        raw <= 0xFF_FFFF,
    ensures
        r == u24_value(raw as int),
{
    if raw == 0xFF_FFFF {
        None
    } else {
        Some(raw)
    }
}

/// Every field of `b` holds its "not measured" pattern: 0x8000 for
/// temperature, all ones for the others.
pub open spec fn all_unmeasured(b: Seq<u8>) -> bool {
    &&& b.len() == PAYLOAD_WITH_MAC_LENGTH
    &&& b[1] == 0x80 && b[2] == 0x00
    &&& forall|i: int| 3 <= i < 22 ==> b[i] == 0xFF
    &&& forall|i: int| 25 <= i < 28 ==> b[i] == 0xFF
}

/// A payload whose fields all hold their "not measured" pattern decodes with
/// every optional field absent.
pub proof fn lemma_all_unmeasured(b: Seq<u8>)
    requires
        all_unmeasured(b),
    ensures
        reading(b).temperature is None,
        reading(b).humidity is None,
        reading(b).pressure is None,
        reading(b).pm1_0 is None,
        reading(b).pm2_5 is None,
        reading(b).pm4_0 is None,
        reading(b).pm10_0 is None,
        reading(b).co2 is None,
        reading(b).voc_index is None,
        reading(b).nox_index is None,
        reading(b).luminosity is None,
        reading(b).measurement_sequence is None,
{
    assert(b[3] == 0xFF && b[4] == 0xFF && b[5] == 0xFF && b[6] == 0xFF);
    assert(b[7] == 0xFF && b[8] == 0xFF && b[9] == 0xFF && b[10] == 0xFF);
    assert(b[11] == 0xFF && b[12] == 0xFF && b[13] == 0xFF && b[14] == 0xFF);
    assert(b[15] == 0xFF && b[16] == 0xFF && b[17] == 0xFF && b[18] == 0xFF);
    assert(b[19] == 0xFF && b[20] == 0xFF && b[21] == 0xFF);
    assert(b[25] == 0xFF && b[26] == 0xFF && b[27] == 0xFF);
}

/// Decodes a whole payload of format 0xE1: the length is checked first,
/// then the identifier.
pub fn decode(bytes: &[u8]) -> (r: Result<DataFormatE1, DecodeError>)
    ensures
        match r {
            Ok(d) => bytes@.len() == PAYLOAD_WITH_MAC_LENGTH && bytes@[0] == 0xE1 && d@
                == reading(bytes@),
            Err(e) => if bytes@.len() != PAYLOAD_WITH_MAC_LENGTH {
                e matches DecodeError::InvalidLength(m) && m@ == length_message(
                    PAYLOAD_WITH_MAC_LENGTH as nat,
                    bytes@.len(),
                )
            } else {
                bytes@[0] != 0xE1 && e == DecodeError::UnsupportedFormat(bytes@[0])
            },
        },
{
    if bytes.len() != PAYLOAD_WITH_MAC_LENGTH {
        return Err(DecodeError::invalid_length(PAYLOAD_WITH_MAC_LENGTH, bytes.len()));
    }
    if bytes[0] != 0xE1 {
        return Err(DecodeError::UnsupportedFormat(bytes[0]));
    }
    let temperature = temperature_of(read_i16(bytes, 1));
    let raw_humidity = read_u16(bytes, 3);
    let humidity = if raw_humidity == 0xFFFF {
        None
    } else {
        Some(humidity_of(raw_humidity))
    };
    let pressure = pressure_of(read_u16(bytes, 5));
    let pm1_0 = optional_u16(read_u16(bytes, 7));
    let pm2_5 = optional_u16(read_u16(bytes, 9));
    let pm4_0 = optional_u16(read_u16(bytes, 11));
    let pm10_0 = optional_u16(read_u16(bytes, 13));
    let co2 = optional_u16(read_u16(bytes, 15));
    let flags = bytes[28];
    let voc_index = index_of(bytes[17], flags, 6);
    let nox_index = index_of(bytes[18], flags, 7);
    let luminosity = optional_u24(read_u24(bytes, 19));
    let measurement_sequence = optional_u24(read_u24(bytes, 25));
    let mac_address = hex_string(&bytes[PAYLOAD_LENGTH..PAYLOAD_WITH_MAC_LENGTH]);
    Ok(
        DataFormatE1 {
            temperature,
            humidity,
            pressure,
            pm1_0,
            pm2_5,
            pm4_0,
            pm10_0,
            co2,
            voc_index,
            nox_index,
            luminosity,
            measurement_sequence,
            flags,
            mac_address,
        },
    )
}

} // verus!
