//! The 20-byte format with identifier 6: air quality, a logarithmic
//! luminosity code and a truncated hardware address.

use vstd::prelude::*;

use crate::error::{length_message, DecodeError};
use crate::fields::{
    be_i16, be_u16, hex_string, hex_text, humidity_of, humidity_scaled, index_of, index_value,
    pressure_of, pressure_value, read_i16, read_u16, temperature_of, temperature_value,
};

verus! {

/// Bytes before the hardware address, the identifier included.
pub const PAYLOAD_LENGTH: usize = 17;

/// Bytes of a whole payload, the 3-byte hardware address included.
pub const PAYLOAD_WITH_MAC_LENGTH: usize = PAYLOAD_LENGTH + 3;

/// A decoded payload of format 6. `None` marks a field that was not measured
/// or is out of its range.
#[derive(Debug, Clone, PartialEq)]
pub struct DataFormatV6 {
    /// Temperature in thousandths of a degree Celsius.
    pub temperature: Option<i32>,
    /// Relative humidity in ten-thousandths of a percent.
    pub humidity: Option<u32>,
    /// Pressure in pascals.
    pub pressure: Option<u32>,
    /// PM2.5 in tenths of a microgram per cubic metre.
    pub pm2_5: Option<u16>,
    /// CO2 concentration in ppm.
    pub co2: Option<u16>,
    /// VOC index.
    pub voc_index: Option<u16>,
    /// NOx index.
    pub nox_index: Option<u16>,
    /// Logarithmic luminosity code (0 to 254); the lux value is
    /// `exp(code * ln(65536) / 254) - 1`, at most 65535.
    pub luminosity_code: Option<u8>,
    /// Reserved byte.
    pub reserved: Option<u8>,
    /// Sequence number of the measurement.
    pub measurement_sequence: Option<u8>,
    /// Flags byte, raw.
    pub flags: u8,
    /// Lowest three bytes of the hardware address as lower-case hex.
    pub mac_address: String,
}

/// The mathematical content of a [`DataFormatV6`].
pub struct DataFormatV6View {
    pub temperature: Option<i32>,
    pub humidity: Option<u32>,
    pub pressure: Option<u32>,
    pub pm2_5: Option<u16>,
    pub co2: Option<u16>,
    pub voc_index: Option<u16>,
    pub nox_index: Option<u16>,
    pub luminosity_code: Option<u8>,
    pub reserved: Option<u8>,
    pub measurement_sequence: Option<u8>,
    pub flags: u8,
    pub mac_address: Seq<char>,
}

impl View for DataFormatV6 {
    type V = DataFormatV6View;

    open spec fn view(&self) -> DataFormatV6View {
        DataFormatV6View {
            temperature: self.temperature,
            humidity: self.humidity,
            pressure: self.pressure,
            pm2_5: self.pm2_5,
            co2: self.co2,
            voc_index: self.voc_index,
            nox_index: self.nox_index,
            luminosity_code: self.luminosity_code,
            reserved: self.reserved,
            measurement_sequence: self.measurement_sequence,
            flags: self.flags,
            mac_address: self.mac_address@,
        }
    }
}

/// Humidity: raw values above 40 000 are out of range.
pub open spec fn humidity_value(raw: int) -> Option<u32> {
    if raw > 40000 {
        None
    } else {
        Some(humidity_scaled(raw))
    }
}

/// PM2.5 in tenths: raw values above 10 000 are out of range.
pub open spec fn pm2_5_value(raw: int) -> Option<u16> {
    if raw > 10000 {
        None
    } else {
        Some(raw as u16)
    }
}

/// CO2 in ppm: raw values above 40 000 are out of range.
pub open spec fn co2_value(raw: int) -> Option<u16> {
    if raw > 40000 {
        None
    } else {
        Some(raw as u16)
    }
}

/// Luminosity code: 255 means "not measured".
pub open spec fn luminosity_code_value(raw: u8) -> Option<u8> {
    if raw == 255 {
        None
    } else {
        Some(raw)
    }
}

/// What a well-formed payload of format 6 decodes to.
pub open spec fn reading(b: Seq<u8>) -> DataFormatV6View {
    DataFormatV6View {
        temperature: temperature_value(be_i16(b, 1)),
        humidity: humidity_value(be_u16(b, 3)),
        pressure: pressure_value(be_u16(b, 5)),
        pm2_5: pm2_5_value(be_u16(b, 7)),
        co2: co2_value(be_u16(b, 9)),
        voc_index: index_value(b[11], b[16], 6),
        nox_index: index_value(b[12], b[16], 7),
        luminosity_code: luminosity_code_value(b[13]),
        reserved: Some(b[14]),
        measurement_sequence: Some(b[15]),
        flags: b[16],
        mac_address: hex_text(b.subrange(17, 20)),
    }
}

/// Every field of `b` that can be absent holds its "not measured" pattern:
/// 0x8000 for temperature, all ones for the others.
pub open spec fn all_unmeasured(b: Seq<u8>) -> bool {
    &&& b.len() == PAYLOAD_WITH_MAC_LENGTH
    &&& b[1] == 0x80 && b[2] == 0x00
    &&& forall|i: int| 3 <= i < 14 ==> b[i] == 0xFF
}

/// A payload whose fields all hold their "not measured" pattern decodes with
/// every field that can be absent absent. The reserved byte and the sequence
/// number have no such pattern: they are always present.
pub proof fn lemma_all_unmeasured(b: Seq<u8>)
    requires
        all_unmeasured(b),
    ensures
        reading(b).temperature is None,
        reading(b).humidity is None,
        reading(b).pressure is None,
        reading(b).pm2_5 is None,
        reading(b).co2 is None,
        reading(b).voc_index is None,
        reading(b).nox_index is None,
        reading(b).luminosity_code is None,
{
    assert(b[3] == 0xFF && b[4] == 0xFF && b[5] == 0xFF && b[6] == 0xFF);
    assert(b[7] == 0xFF && b[8] == 0xFF && b[9] == 0xFF && b[10] == 0xFF);
    assert(b[11] == 0xFF && b[12] == 0xFF && b[13] == 0xFF);
}

/// Decodes a whole payload of format 6: the length is checked first, then
/// the identifier.
pub fn decode(bytes: &[u8]) -> (r: Result<DataFormatV6, DecodeError>)
    ensures
        match r {
            Ok(d) => bytes@.len() == PAYLOAD_WITH_MAC_LENGTH && bytes@[0] == 6 && d@ == reading(
                bytes@,
            ),
            Err(e) => if bytes@.len() != PAYLOAD_WITH_MAC_LENGTH {
                e matches DecodeError::InvalidLength(m) && m@ == length_message(
                    PAYLOAD_WITH_MAC_LENGTH as nat,
                    bytes@.len(),
                )
            } else {
                bytes@[0] != 6 && e == DecodeError::UnsupportedFormat(bytes@[0])
            },
        },
{
    if bytes.len() != PAYLOAD_WITH_MAC_LENGTH {
        return Err(DecodeError::invalid_length(PAYLOAD_WITH_MAC_LENGTH, bytes.len()));
    }
    if bytes[0] != 6 {
        return Err(DecodeError::UnsupportedFormat(bytes[0]));
    }
    let temperature = temperature_of(read_i16(bytes, 1));
    let raw_humidity = read_u16(bytes, 3);
    let humidity = if raw_humidity > 40000 {
        None
    } else {
        Some(humidity_of(raw_humidity))
    };
    let pressure = pressure_of(read_u16(bytes, 5));
    let raw_pm2_5 = read_u16(bytes, 7);
    let pm2_5 = if raw_pm2_5 > 10000 {
        None
    } else {
        Some(raw_pm2_5)
    };
    let raw_co2 = read_u16(bytes, 9);
    let co2 = if raw_co2 > 40000 {
        None
    } else {
        Some(raw_co2)
    };
    let flags = bytes[16];
    let voc_index = index_of(bytes[11], flags, 6);
    let nox_index = index_of(bytes[12], flags, 7);
    let luminosity_code = if bytes[13] == 255 {
        None
    } else {
        Some(bytes[13])
    };
    let mac_address = hex_string(&bytes[PAYLOAD_LENGTH..PAYLOAD_WITH_MAC_LENGTH]);
    Ok(
        DataFormatV6 {
            temperature,
            humidity,
            pressure,
            pm2_5,
            co2,
            voc_index,
            nox_index,
            luminosity_code,
            reserved: Some(bytes[14]),
            measurement_sequence: Some(bytes[15]),
            flags,
            mac_address,
        },
    )
}

} // verus!
