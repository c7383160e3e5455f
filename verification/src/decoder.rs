//! Decoding of Heart Rate Measurement notification payloads.
//!
//! A payload starts with a flags byte; bit 0 of the flags selects whether
//! the measurement value is an 8-bit or a little-endian 16-bit integer.
//! Bytes beyond the measurement value (sensor contact, energy expended,
//! RR intervals) are tolerated and ignored.

use vstd::prelude::*;

verus! {

/// Why a notification payload could not be decoded.
#[derive(Clone, Copy, Debug, PartialEq, Eq, Structural)]
pub enum DecodeError {
    /// The payload held no bytes at all, not even a flags byte.
    Empty,
    /// The payload was shorter than the width its flags byte declared.
    Truncated,
}

/// A decoded heart-rate measurement, in beats per minute.
#[derive(Clone, Copy, Debug, PartialEq, Eq, Structural)]
pub struct HeartRateReading {
    pub bpm: u16,
}

/// The value of two bytes read as a little-endian unsigned 16-bit integer.
pub open spec fn le_u16(lo: u8, hi: u8) -> u16 {
    (lo + 256 * hi) as u16
}

/// The measurement a payload denotes: the mandatory prefix of the Heart
/// Rate Measurement characteristic, with everything past it ignored.
pub open spec fn spec_decode(data: Seq<u8>) -> Result<HeartRateReading, DecodeError> {
    if data.len() == 0 {
        Err(DecodeError::Empty)
    } else if data[0] & 0x01 == 0x01 {
        if data.len() >= 3 {
            Ok(HeartRateReading { bpm: le_u16(data[1], data[2]) })
        } else {
            Err(DecodeError::Truncated)
        }
    } else {
        if data.len() >= 2 {
            Ok(HeartRateReading { bpm: data[1] as u16 })
        } else {
            Err(DecodeError::Truncated)
        }
    }
}

/// Decode one notification payload into a heart-rate reading.
///
/// A reading is produced exactly when the flags byte and the full value it
/// declares are present; a short payload yields an error, never a default
/// reading. Trailing optional fields never affect the outcome.
pub fn decode(payload: &[u8]) -> (r: Result<HeartRateReading, DecodeError>)
    ensures
        r == spec_decode(payload@),
        payload@.len() == 0 ==> r == Err::<HeartRateReading, DecodeError>(DecodeError::Empty),
        payload@.len() >= 2 && payload@[0] & 0x01 == 0x00 ==> r
            == Ok::<HeartRateReading, DecodeError>(HeartRateReading { bpm: payload@[1] as u16 }),
        payload@.len() >= 3 && payload@[0] & 0x01 == 0x01 ==> r
            == Ok::<HeartRateReading, DecodeError>(
            HeartRateReading { bpm: le_u16(payload@[1], payload@[2]) },
        ),
        payload@.len() == 1 ==> r == Err::<HeartRateReading, DecodeError>(DecodeError::Truncated),
        payload@.len() == 2 && payload@[0] & 0x01 == 0x01 ==> r == Err::<
            HeartRateReading,
            DecodeError,
        >(DecodeError::Truncated),
{
    if payload.len() == 0 {
        return Err(DecodeError::Empty);
    }
    let flags = payload[0];
    if flags & 0x01 == 0x01 {
        if payload.len() < 3 {
            return Err(DecodeError::Truncated);
        }
        let lo = payload[1];
        let hi = payload[2];
        let bpm: u16 = lo as u16 + 256 * (hi as u16);
        Ok(HeartRateReading { bpm })
    } else {
        if payload.len() < 2 {
            return Err(DecodeError::Truncated);
        }
        Ok(HeartRateReading { bpm: payload[1] as u16 })
    }
}

/// Decode a payload, reporting only the measurement value: `Some(bpm)` on a
/// well-formed payload, `None` on a malformed one.
pub fn parse_heart_rate_data(data: &[u8]) -> (r: Option<u16>)
    ensures
        r == match spec_decode(data@) {
            Ok(h) => Some(h.bpm),
            Err(_) => None::<u16>,
        },
{
    match decode(data) {
        Ok(h) => Some(h.bpm),
        Err(_) => None,
    }
}

} // verus!
