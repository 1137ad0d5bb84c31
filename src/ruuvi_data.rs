//! The registry of formats and the record type that unites them.

use vstd::prelude::*;

use crate::e1::{self, DataFormatE1, DataFormatE1View};
use crate::error::{length_message, DecodeError};
use crate::v5::{self, DataFormatV5, DataFormatV5View};
use crate::v6::{self, DataFormatV6, DataFormatV6View};

verus! {

/// The payload formats this library decodes.
#[derive(Debug, Clone, Copy, PartialEq, Eq, Hash, Structural)]
pub enum DataFormat {
    /// Format 5: environment, acceleration and power.
    V5,
    /// Format 6: air quality, compact.
    V6,
    /// Format 0xE1: air quality, extended.
    E1,
}

/// The format that an identifier byte names, if any.
pub open spec fn format_of(id: u8) -> Option<DataFormat> {
    if id == 5 {
        Some(DataFormat::V5)
    } else if id == 6 {
        Some(DataFormat::V6)
    } else if id == 0xE1 {
        Some(DataFormat::E1)
    } else {
        None
    }
}

impl DataFormat {
    /// The identifier byte of the format.
    pub open spec fn id(self) -> u8 {
        match self {
            DataFormat::V5 => 5,
            DataFormat::V6 => 6,
            DataFormat::E1 => 0xE1,
        }
    }

    /// Bytes before the hardware address, the identifier included.
    pub open spec fn payload_len(self) -> nat {
        match self {
            DataFormat::V5 => v5::PAYLOAD_LENGTH as nat,
            DataFormat::V6 => v6::PAYLOAD_LENGTH as nat,
            DataFormat::E1 => e1::PAYLOAD_LENGTH as nat,
        }
    }

    /// Bytes of a whole payload, the hardware address included.
    pub open spec fn total_len(self) -> nat {
        match self {
            DataFormat::V5 => v5::PAYLOAD_WITH_MAC_LENGTH as nat,
            DataFormat::V6 => v6::PAYLOAD_WITH_MAC_LENGTH as nat,
            DataFormat::E1 => e1::PAYLOAD_WITH_MAC_LENGTH as nat,
        }
    }

    /// The format that `value` identifies, or `None` for an unknown identifier.
    pub fn from_u8(value: u8) -> (r: Option<DataFormat>)
        ensures
            r == format_of(value),
            r matches Some(f) ==> f.id() == value,
    {
        match value {
            5 => Some(DataFormat::V5),
            6 => Some(DataFormat::V6),
            0xE1 => Some(DataFormat::E1),
            _ => None,
        }
    }

    /// Length in bytes of the payload before the hardware address.
    pub fn payload_length(&self) -> (r: usize)
        ensures
            r == self.payload_len(),
    {
        match self {
            DataFormat::V5 => v5::PAYLOAD_LENGTH,
            DataFormat::V6 => v6::PAYLOAD_LENGTH,
            DataFormat::E1 => e1::PAYLOAD_LENGTH,
        }
    }

    /// Length in bytes of the whole payload, the hardware address included.
    pub fn payload_with_mac_length(&self) -> (r: usize)
        ensures
            r == self.total_len(),
    {
        match self {
            DataFormat::V5 => v5::PAYLOAD_WITH_MAC_LENGTH,
            DataFormat::V6 => v6::PAYLOAD_WITH_MAC_LENGTH,
            DataFormat::E1 => e1::PAYLOAD_WITH_MAC_LENGTH,
        }
    }
}

/// A decoded payload of any supported format.
#[derive(Debug, Clone, PartialEq)]
pub enum RuuviData {
    /// Format 5.
    V5(DataFormatV5),
    /// Format 6.
    V6(DataFormatV6),
    /// Format 0xE1.
    E1(DataFormatE1),
}

/// The mathematical content of a [`RuuviData`].
pub enum RuuviDataView {
    V5(DataFormatV5View),
    V6(DataFormatV6View),
    E1(DataFormatE1View),
}

impl View for RuuviData {
    type V = RuuviDataView;

    open spec fn view(&self) -> RuuviDataView {
        match self {
            RuuviData::V5(d) => RuuviDataView::V5(d@),
            RuuviData::V6(d) => RuuviDataView::V6(d@),
            RuuviData::E1(d) => RuuviDataView::E1(d@),
        }
    }
}

/// What a payload of format `f` with the right length decodes to.
pub open spec fn reading_of(f: DataFormat, b: Seq<u8>) -> RuuviDataView {
    match f {
        DataFormat::V5 => RuuviDataView::V5(v5::reading(b)),
        DataFormat::V6 => RuuviDataView::V6(v6::reading(b)),
        DataFormat::E1 => RuuviDataView::E1(e1::reading(b)),
    }
}

/// The outcome of decoding `b` that [`RuuviData::decode`] promises: an empty
/// payload has the wrong length; then the identifier must be known; then
/// the length must be that of its format.
pub open spec fn decode_post(b: Seq<u8>, r: Result<RuuviData, DecodeError>) -> bool {
    if b.len() == 0 {
        r matches Err(DecodeError::InvalidLength(m)) && m@ == "Empty data"@
    } else {
        match format_of(b[0]) {
            None => r == Err::<RuuviData, DecodeError>(DecodeError::UnsupportedFormat(b[0])),
            Some(f) => if b.len() == f.total_len() {
                r matches Ok(d) && d@ == reading_of(f, b)
            } else {
                r matches Err(DecodeError::InvalidLength(m)) && m@ == length_message(
                    f.total_len(),
                    b.len(),
                )
            },
        }
    }
}

/// Decoding keeps no state: two results that both meet the contract of
/// [`RuuviData::decode`] for the same bytes are the same record or the same
/// error.
pub proof fn lemma_decode_deterministic(
    b: Seq<u8>,
    r1: Result<RuuviData, DecodeError>,
    r2: Result<RuuviData, DecodeError>,
)
    requires
        decode_post(b, r1),
        decode_post(b, r2),
    ensures
        match (r1, r2) {
            (Ok(d1), Ok(d2)) => d1@ == d2@,
            (Err(e1), Err(e2)) => e1@ == e2@,
            _ => false,
        },
{
}

/// A payload that is valid for its format.
pub open spec fn is_valid_payload(b: Seq<u8>) -> bool {
    &&& b.len() > 0
    &&& format_of(b[0]) matches Some(f) && b.len() == f.total_len()
}

/// Replacing the identifier of a valid payload by one that names no format
/// gives `UnsupportedFormat` with that byte.
pub proof fn lemma_unknown_identifier(b: Seq<u8>, id: u8, r: Result<RuuviData, DecodeError>)
    requires
        is_valid_payload(b),
        format_of(id) is None,
        decode_post(b.update(0, id), r),
    ensures
        r == Err::<RuuviData, DecodeError>(DecodeError::UnsupportedFormat(id)),
{
}

/// Dropping the last byte of a valid payload gives `InvalidLength` with the
/// expected and the actual count.
pub proof fn lemma_truncated(b: Seq<u8>, r: Result<RuuviData, DecodeError>)
    requires
        is_valid_payload(b),
        decode_post(b.drop_last(), r),
    ensures
        r matches Err(DecodeError::InvalidLength(m)) && m@ == length_message(
            format_of(b[0])->0.total_len(),
            (b.len() - 1) as nat,
        ),
{
}

/// Appending a byte to a valid payload gives `InvalidLength` with the
/// expected and the actual count.
pub proof fn lemma_padded(b: Seq<u8>, extra: u8, r: Result<RuuviData, DecodeError>)
    requires
        is_valid_payload(b),
        decode_post(b.push(extra), r),
    ensures
        r matches Err(DecodeError::InvalidLength(m)) && m@ == length_message(
            format_of(b[0])->0.total_len(),
            b.len() + 1,
        ),
{
}

impl RuuviData {
    /// Decodes a payload of any supported format, chosen by its first byte.
    pub fn decode(data: &[u8]) -> (r: Result<RuuviData, DecodeError>)
        ensures
            decode_post(data@, r),
    {
        if data.len() == 0 {
            return Err(DecodeError::InvalidLength(String::from_str("Empty data")));
        }
        match data[0] {
            5 => match v5::decode(data) {
                Ok(d) => Ok(RuuviData::V5(d)),
                Err(e) => Err(e),
            },
            6 => match v6::decode(data) {
                Ok(d) => Ok(RuuviData::V6(d)),
                Err(e) => Err(e),
            },
            0xE1 => match e1::decode(data) {
                Ok(d) => Ok(RuuviData::E1(d)),
                Err(e) => Err(e),
            },
            other => Err(DecodeError::UnsupportedFormat(other)),
        }
    }
}

impl<'a> TryFrom<&'a [u8]> for RuuviData {
    type Error = DecodeError;

    fn try_from(value: &'a [u8]) -> (r: Result<RuuviData, DecodeError>)
        ensures
            decode_post(value@, r),
    {
        RuuviData::decode(value)
    }
}

/// Results are pinned down by [`decode_post`] only up to the views of their
/// text fields, so no single value is claimed here.
impl<'a> vstd::std_specs::convert::TryFromSpecImpl<&'a [u8]> for RuuviData {
    open spec fn obeys_try_from_spec() -> bool {
        false
    }

    open spec fn try_from_spec(v: &'a [u8]) -> Result<RuuviData, DecodeError> {
        choose|r: Result<RuuviData, DecodeError>| decode_post(v@, r)
    }
}

} // verus!
