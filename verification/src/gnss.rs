//! Encoder for the outbound satellite-positioning packet.
//!
//! The packet is a fixed-layout big-endian buffer: 93 bytes without the
//! timezone fields, 95 with them. Bytes 0..2 carry the total length minus
//! two; byte 5 is the report-type flag (0x03 with timezone, 0x00 without);
//! the fix goes out as latitude and longitude scaled by 10^7 and truncated
//! toward zero.
//!
//! The wall-clock fields are taken from the local timestamp when the
//! timezone fields are absent, but from the UTC-normalized timestamp when
//! they are present. This asymmetry is protocol-mandated: an implementation
//! must preserve it to stay wire-compatible.

use vstd::prelude::*;

use crate::bytes::push_u16_be;
use crate::bytes::push_u24_be;
use crate::bytes::push_u32_be;
use crate::bytes::spec_be16;
use crate::bytes::spec_be24;
use crate::bytes::spec_be32;
use crate::bytes::spec_u32_of_i32;
use crate::bytes::u32_of_i32;
use crate::registry::Endpoint;
use crate::registry::WriteMode;
use crate::registry::spec_can_write;
use crate::types::GeographicFix;
use crate::types::Timestamp;

verus! {

/// The wall-clock fields of the packet, bytes 19..26: big-endian year, then
/// month, day, hour, minute, second.
pub open spec fn spec_time_fields(ts: Timestamp) -> Seq<u8> {
    spec_be16(ts.year) + seq![ts.month, ts.day, ts.hour, ts.minute, ts.second]
}

/// The whole positioning packet for a fix, a timestamp whose fields go on
/// the wire, an on-wire UTC offset in minutes, and the report-type choice.
pub open spec fn spec_position_packet(
    fix: GeographicFix,
    ts: Timestamp,
    utc_offset_minutes: u16,
    include_tz: bool,
) -> Seq<u8> {
    let head = spec_be16(if include_tz { 93u16 } else { 91u16 }) + spec_be24(0x0802fc) + seq![
        if include_tz { 0x03u8 } else { 0x00u8 },
        0x00u8,
    ] + spec_be32(0x0010_1010) + spec_be32(spec_u32_of_i32(fix.lat_e7)) + spec_be32(
        spec_u32_of_i32(fix.lng_e7),
    ) + spec_time_fields(ts) + Seq::new(65, |i: int| 0u8);
    if include_tz {
        head + spec_be16(utc_offset_minutes) + spec_be16(0)
    } else {
        head + seq![0u8, 0u8]
    }
}

/// Encodes the positioning packet.
///
/// `local_time` and `utc_time` are the same instant on the local wall clock
/// and normalized to UTC; the packet carries the UTC one exactly when the
/// timezone fields are included, and the local one otherwise.
/// `utc_offset_minutes` is the on-wire image of the local offset in
/// minutes (two's complement in 16 bits); it is written only when
/// `include_tz` is set, together with a DST offset that is always zero.
pub fn encode_position(
    fix: &GeographicFix,
    local_time: &Timestamp,
    utc_time: &Timestamp,
    utc_offset_minutes: u16,
    include_tz: bool,
) -> (r: Vec<u8>)
    ensures
        r@ == spec_position_packet(
            *fix,
            if include_tz {
                *utc_time
            } else {
                *local_time
            },
            utc_offset_minutes,
            include_tz,
        ),
        r@.len() == if include_tz {
            95int
        } else {
            93int
        },
        r@[5] == if include_tz {
            0x03u8
        } else {
            0x00u8
        },
{
    let ts = if include_tz {
        *utc_time
    } else {
        *local_time
    };
    let mut r: Vec<u8> = Vec::new();

    // Total length minus two.
    push_u16_be(&mut r, if include_tz { 93 } else { 91 });
    // Fixed magic.
    push_u24_be(&mut r, 0x0802fc);
    // Report type: timezone and DST offsets present or not.
    r.push(if include_tz { 0x03 } else { 0x00 });
    // Reserved.
    r.push(0x00);
    // Another fixed magic.
    push_u32_be(&mut r, 0x0010_1010);
    // The fix, scaled by 10^7 and truncated toward zero by the caller.
    push_u32_be(&mut r, u32_of_i32(fix.lat_e7));
    push_u32_be(&mut r, u32_of_i32(fix.lng_e7));
    // Wall-clock fields.
    push_u16_be(&mut r, ts.year);
    r.push(ts.month);
    r.push(ts.day);
    r.push(ts.hour);
    r.push(ts.minute);
    r.push(ts.second);
    // Reserved, all zero.
    let ghost before_zeros = r@;
    let mut k: usize = 0;
    while k < 65
        invariant
            k <= 65,
            r@ == before_zeros + Seq::new(k as nat, |i: int| 0u8),
        decreases 65 - k,
    {
        r.push(0x00);
        k = k + 1;
        proof {
            assert(r@ =~= before_zeros + Seq::new(k as nat, |i: int| 0u8));
        }
    }
    if include_tz {
        // UTC offset in minutes, then a DST offset that is always zero.
        push_u16_be(&mut r, utc_offset_minutes);
        push_u16_be(&mut r, 0);
    } else {
        r.push(0x00);
        r.push(0x00);
    }
    proof {
        assert(r@ =~= spec_position_packet(*fix, ts, utc_offset_minutes, include_tz));
    }
    r
}

/// The civil timestamp that shifting `ts` by `offset_seconds` into UTC
/// yields, with its fields narrowed to the widths the packet carries. A
/// function of the two arguments alone.
pub uninterp spec fn utc_normalized(ts: Timestamp, offset_seconds: i32) -> Timestamp;

/// The length of a month in the proleptic Gregorian calendar.
pub open spec fn spec_days_in_month(year: u16, month: u8) -> int {
    if month == 2 {
        if (year % 4 == 0 && year % 100 != 0) || year % 400 == 0 {
            29
        } else {
            28
        }
    } else if month == 4 || month == 6 || month == 9 || month == 11 {
        30
    } else {
        31
    }
}

/// The inputs the calendar conversion accepts: an offset strictly within
/// one day, and fields that name a real date and time of day. Every 16-bit
/// year is in range.
pub open spec fn spec_utc_normalizable(ts: Timestamp, offset_seconds: i32) -> bool {
    -86400 < offset_seconds < 86400 && 1 <= ts.month <= 12 && 1 <= ts.day <= spec_days_in_month(
        ts.year,
        ts.month,
    ) && ts.hour < 24 && ts.minute < 60 && ts.second < 60
}

/// Relies on chrono's fixed-offset calendar conversion (`with_timezone`
/// from a `FixedOffset` zone to `Utc`): the UTC image of a civil time under
/// a fixed offset depends on the fields and the offset alone. It succeeds
/// exactly on the inputs of `spec_utc_normalizable`: `FixedOffset::east_opt`
/// takes offsets strictly within one day; `NaiveDate::from_ymd_opt` and
/// `NaiveTime::from_hms_opt` take exactly the real calendar dates and times
/// of day; a fixed-offset zone maps every local time to a single instant,
/// and the range check of the shift cannot fail for a 16-bit year.
#[verifier::external_body]
fn normalize_to_utc(ts: &Timestamp, offset_seconds: i32) -> (r: Option<Timestamp>)
    ensures
        r is Some <==> spec_utc_normalizable(*ts, offset_seconds),
        r is Some ==> r->Some_0 == utc_normalized(*ts, offset_seconds),
{
    let zone = chrono::FixedOffset::east_opt(offset_seconds)?;
    let local = chrono::TimeZone::with_ymd_and_hms(&zone, ts.year as i32, ts.month as u32,
        ts.day as u32, ts.hour as u32, ts.minute as u32, ts.second as u32).single()?;
    let utc = local.with_timezone(&chrono::Utc);
    Some(Timestamp { year: chrono::Datelike::year(&utc) as u16,
        month: chrono::Datelike::month(&utc) as u8, day: chrono::Datelike::day(&utc) as u8,
        hour: chrono::Timelike::hour(&utc) as u8, minute: chrono::Timelike::minute(&utc) as u8,
        second: chrono::Timelike::second(&utc) as u8 })
}

/// The local offset from UTC in whole minutes, seconds truncated toward
/// zero.
pub open spec fn spec_offset_minutes(offset_seconds: i32) -> int {
    if offset_seconds >= 0 {
        offset_seconds / 60
    } else {
        -((-(offset_seconds as int)) / 60)
    }
}

/// The on-wire image of the offset: the minute count reduced to 16-bit
/// two's complement, as the truncating cast of the protocol produces it.
pub open spec fn spec_wire_offset_minutes(offset_seconds: i32) -> u16 {
    (spec_offset_minutes(offset_seconds) % 0x10000) as u16
}

/// Computes the on-wire offset field from the offset in seconds.
pub fn wire_offset_minutes(offset_seconds: i32) -> (r: u16)
    ensures
        r == spec_wire_offset_minutes(offset_seconds),
{
    if offset_seconds >= 0 {
        let minutes: u32 = (offset_seconds as u32) / 60;
        (minutes % 0x10000) as u16
    } else {
        let magnitude: u64 = (-(offset_seconds as i64)) as u64;
        let minutes: u64 = magnitude / 60;
        let t: u64 = minutes % 0x10000;
        proof {
            vstd::arithmetic::div_mod::lemma_fundamental_div_mod(minutes as int, 0x10000);
            if t == 0 {
                vstd::arithmetic::div_mod::lemma_fundamental_div_mod_converse(
                    -(minutes as int),
                    0x10000,
                    -((minutes as int) / 0x10000),
                    0,
                );
            } else {
                vstd::arithmetic::div_mod::lemma_fundamental_div_mod_converse(
                    -(minutes as int),
                    0x10000,
                    -((minutes as int) / 0x10000) - 1,
                    0x10000 - t,
                );
            }
        }
        if t == 0 {
            0u16
        } else {
            (0x10000 - t) as u16
        }
    }
}

/// Errors of positioning-payload preparation.
#[derive(Clone, Copy, PartialEq, Eq, Structural, Debug)]
pub enum PositionError {
    /// The calendar conversion rejected the offset or the civil fields.
    BadTimestamp,
}

/// Builds the complete positioning payload from the fix, the local
/// wall-clock fields and the local offset from UTC in seconds.
///
/// With the timezone fields included, the wall clock is first normalized
/// to UTC and the offset goes out in minutes; without them the local
/// fields go out unchanged and preparation cannot fail. The error comes
/// exactly when the timezone path's calendar conversion rejects its input:
/// an offset of a whole day or more, or fields that name no real date or
/// time. Every real wall-clock reading is accepted.
pub fn prepare_position_payload(
    fix: &GeographicFix,
    local_time: &Timestamp,
    offset_seconds: i32,
    include_tz: bool,
) -> (r: Result<Vec<u8>, PositionError>)
    ensures
        r is Ok <==> (!include_tz || spec_utc_normalizable(*local_time, offset_seconds)),
        r is Err ==> r == Err::<Vec<u8>, PositionError>(PositionError::BadTimestamp),
        include_tz && r is Ok ==> r->Ok_0@ == spec_position_packet(
            *fix,
            utc_normalized(*local_time, offset_seconds),
            spec_wire_offset_minutes(offset_seconds),
            true,
        ),
        !include_tz ==> r->Ok_0@ == spec_position_packet(
            *fix,
            *local_time,
            spec_wire_offset_minutes(offset_seconds),
            false,
        ),
{
    let wire_offset = wire_offset_minutes(offset_seconds);
    if include_tz {
        match normalize_to_utc(local_time, offset_seconds) {
            Some(utc_time) => Ok(encode_position(fix, local_time, &utc_time, wire_offset, true)),
            None => Err(PositionError::BadTimestamp),
        }
    } else {
        Ok(encode_position(fix, local_time, local_time, wire_offset, false))
    }
}

/// The write plan of a positioning packet: it goes to the positioning write
/// endpoint, with a response requested from the device.
pub fn position_write_plan() -> (r: (Endpoint, WriteMode))
    ensures
        r.0 == Endpoint::GnssNotify,
        r.1 == WriteMode::WithResponse,
        spec_can_write(r.0),
{
    (Endpoint::GnssNotify, WriteMode::WithResponse)
}

/// Law: the packet length and the report-type byte are tied to the
/// timezone choice — 95 bytes and 0x03 with the timezone fields, 93 bytes
/// and 0x00 without; and bytes 0..2 always decode big-endian to the total
/// length minus two.
pub proof fn lemma_position_packet_framing(
    fix: GeographicFix,
    ts: Timestamp,
    utc_offset_minutes: u16,
    include_tz: bool,
)
    ensures
        spec_position_packet(fix, ts, utc_offset_minutes, include_tz).len() == if include_tz {
            95int
        } else {
            93int
        },
        spec_position_packet(fix, ts, utc_offset_minutes, include_tz)[5] == if include_tz {
            0x03u8
        } else {
            0x00u8
        },
        spec_position_packet(fix, ts, utc_offset_minutes, include_tz)[0] * 256
            + spec_position_packet(fix, ts, utc_offset_minutes, include_tz)[1]
            == spec_position_packet(fix, ts, utc_offset_minutes, include_tz).len() - 2,
{
}

/// Law: the field layout of the packet — the magic bytes, the fix, the
/// wall-clock fields, the zeroed reserved region, and the trailing offset
/// fields when present, each at its fixed offset.
pub proof fn lemma_position_packet_layout(
    fix: GeographicFix,
    ts: Timestamp,
    utc_offset_minutes: u16,
    include_tz: bool,
)
    ensures
        spec_position_packet(fix, ts, utc_offset_minutes, include_tz).subrange(2, 5) == spec_be24(
            0x0802fc,
        ),
        spec_position_packet(fix, ts, utc_offset_minutes, include_tz)[6] == 0u8,
        spec_position_packet(fix, ts, utc_offset_minutes, include_tz).subrange(7, 11) == spec_be32(
            0x0010_1010,
        ),
        spec_position_packet(fix, ts, utc_offset_minutes, include_tz).subrange(11, 15)
            == spec_be32(spec_u32_of_i32(fix.lat_e7)),
        spec_position_packet(fix, ts, utc_offset_minutes, include_tz).subrange(15, 19)
            == spec_be32(spec_u32_of_i32(fix.lng_e7)),
        spec_position_packet(fix, ts, utc_offset_minutes, include_tz).subrange(19, 26)
            == spec_time_fields(ts),
        forall|i: int|
            26 <= i < 91 ==> spec_position_packet(fix, ts, utc_offset_minutes, include_tz)[i]
                == 0u8,
        !include_tz ==> spec_position_packet(fix, ts, utc_offset_minutes, include_tz).subrange(
            91,
            93,
        ) == seq![0u8, 0u8],
        include_tz ==> spec_position_packet(fix, ts, utc_offset_minutes, include_tz).subrange(
            91,
            93,
        ) == spec_be16(utc_offset_minutes),
        include_tz ==> spec_position_packet(fix, ts, utc_offset_minutes, include_tz).subrange(
            93,
            95,
        ) == spec_be16(0),
{
    let p = spec_position_packet(fix, ts, utc_offset_minutes, include_tz);
    assert(p.subrange(2, 5) =~= spec_be24(0x0802fc));
    assert(p.subrange(7, 11) =~= spec_be32(0x0010_1010));
    assert(p.subrange(11, 15) =~= spec_be32(spec_u32_of_i32(fix.lat_e7)));
    assert(p.subrange(15, 19) =~= spec_be32(spec_u32_of_i32(fix.lng_e7)));
    assert(p.subrange(19, 26) =~= spec_time_fields(ts));
    if include_tz {
        assert(p.subrange(91, 93) =~= spec_be16(utc_offset_minutes));
        assert(p.subrange(93, 95) =~= spec_be16(0));
    } else {
        assert(p.subrange(91, 93) =~= seq![0u8, 0u8]);
    }
}

} // verus!
