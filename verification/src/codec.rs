use vstd::prelude::*;

use crate::error::FatalError;

verus! {

/// Ledger value storage is unsigned-only, so signed domain coordinates are
/// mapped onto an unsigned wire range centered at `2^32 - 1`.
pub const WIRE_OFFSET: u64 = 0xFFFF_FFFF;

/// The smallest valid wire value, `encoded(i32::MIN)`.
pub const WIRE_MIN: u64 = 0x7FFF_FFFF;

/// The largest valid wire value, `encoded(i32::MAX)`.
pub const WIRE_MAX: u64 = 0x1_7FFF_FFFE;

/// The wire representation of a domain coordinate.
pub open spec fn encoded(v: int) -> int {
    v + WIRE_OFFSET
}

/// The domain coordinate a wire value stands for.
pub open spec fn decoded(w: int) -> int {
    w - WIRE_OFFSET
}

/// Domain coordinates are signed 32-bit values centered at 0.
pub open spec fn in_domain_range(v: int) -> bool {
    i32::MIN <= v <= i32::MAX
}

/// A wire value is valid when it stands for a representable domain coordinate.
pub open spec fn in_wire_range(w: int) -> bool {
    WIRE_MIN <= w <= WIRE_MAX
}

/// Maps a signed domain coordinate onto the unsigned wire range.
pub fn encode(v: i32) -> (w: u64)
    ensures
        w == encoded(v as int),
        in_wire_range(w as int),
{
    ((v as i64) + (WIRE_OFFSET as i64)) as u64
}

/// Inverse of `encode`. A wire value outside the valid range has no domain
/// counterpart and must never reach this function; `try_decode` screens
/// values of unknown provenance.
pub fn decode(w: u64) -> (v: i32)
    requires
        in_wire_range(w as int),
    ensures
        v == decoded(w as int),
{
    ((w as i128) - (WIRE_OFFSET as i128)) as i32
}

/// Fail-fast decode: a wire value outside the representable range indicates
/// a corrupted value and is reported as a typed fatal error rather than
/// silently clamped or truncated.
pub fn try_decode(w: u64) -> (r: Result<i32, FatalError>)
    ensures
        r is Ok <==> in_wire_range(w as int),
        r matches Ok(v) ==> v == decoded(w as int),
        r matches Err(e) ==> e == FatalError::CoordinateOutOfRange,
{
    if WIRE_MIN <= w && w <= WIRE_MAX {
        Ok(decode(w))
    } else {
        Err(FatalError::CoordinateOutOfRange)
    }
}

/// Fail-fast encode for a coordinate that may have drifted out of the
/// representable domain through long extrapolation.
pub fn try_encode(v: i64) -> (r: Result<u64, FatalError>)
    ensures
        r is Ok <==> in_domain_range(v as int),
        r matches Ok(w) ==> w == encoded(v as int) && in_wire_range(w as int),
        r matches Err(e) ==> e == FatalError::CoordinateOutOfRange,
{
    if (i32::MIN as i64) <= v && v <= (i32::MAX as i64) {
        Ok(((v as i128) + (WIRE_OFFSET as i128)) as u64)
    } else {
        Err(FatalError::CoordinateOutOfRange)
    }
}

/// Codec round trip: every representable domain coordinate encodes to a
/// valid wire value that decodes back to it unchanged.
pub proof fn lemma_round_trip(v: i32)
    ensures
        in_wire_range(encoded(v as int)),
        decoded(encoded(v as int)) == v as int,
{
}

/// Wire-side round trip: re-encoding the domain counterpart of a valid wire
/// value gives that wire value back.
pub proof fn lemma_wire_round_trip(w: u64)
    requires
        in_wire_range(w as int),
    ensures
        in_domain_range(decoded(w as int)),
        encoded(decoded(w as int)) == w as int,
{
}

/// Encoding is strictly monotonic, so wire-value comparisons agree with
/// domain-value comparisons.
pub proof fn lemma_encode_strictly_monotonic(a: int, b: int)
    requires
        a < b,
    ensures
        encoded(a) < encoded(b),
{
}

} // verus!
