//! Tests of the positioning-packet encoder.

use camlink::gnss::encode_position;
use camlink::types::{GeographicFix, Timestamp};

fn everest_fix() -> GeographicFix {
    // Latitude and longitude scaled by 10^7 and truncated toward zero, as
    // the unverified shell derives them from floating-point degrees.
    GeographicFix {
        lat_e7: (27.988056_f64 * 10_000_000_f64) as i32,
        lng_e7: (86.925278_f64 * 10_000_000_f64) as i32,
    }
}

fn local_noon() -> Timestamp {
    Timestamp { year: 2023, month: 5, day: 29, hour: 12, minute: 34, second: 56 }
}

fn utc_of_local_noon() -> Timestamp {
    // The same instant normalized to UTC for a +9:00 local offset.
    Timestamp { year: 2023, month: 5, day: 29, hour: 3, minute: 34, second: 56 }
}

#[test]
fn packet_with_timezone_has_fixed_layout() {
    let fix = everest_fix();
    let packet = encode_position(&fix, &local_noon(), &utc_of_local_noon(), 540, true);

    assert_eq!(packet.len(), 95);
    // Bytes 0..2 decode big-endian to the total length minus two.
    assert_eq!(((packet[0] as u16) << 8) | packet[1] as u16, 93);
    // Fixed magic.
    assert_eq!(&packet[2..5], &[0x08, 0x02, 0xfc]);
    // Report type: timezone and DST fields included.
    assert_eq!(packet[5], 0x03);
    assert_eq!(packet[6], 0x00);
    assert_eq!(&packet[7..11], &[0x00, 0x10, 0x10, 0x10]);
    // The fix, big-endian, truncated toward zero.
    assert_eq!(&packet[11..15], &fix.lat_e7.to_be_bytes());
    assert_eq!(&packet[15..19], &fix.lng_e7.to_be_bytes());
}

#[test]
fn packet_with_timezone_uses_utc_time_and_offset_fields() {
    let fix = everest_fix();
    let packet = encode_position(&fix, &local_noon(), &utc_of_local_noon(), 540, true);

    // The wall-clock fields come from the UTC-normalized timestamp.
    assert_eq!(&packet[19..21], &2023_u16.to_be_bytes());
    assert_eq!(packet[21], 5);
    assert_eq!(packet[22], 29);
    assert_eq!(packet[23], 3);
    assert_eq!(packet[24], 34);
    assert_eq!(packet[25], 56);
    // Reserved region is all zero.
    assert!(packet[26..91].iter().all(|b| *b == 0));
    // UTC offset in minutes, then a DST offset that is always zero.
    assert_eq!(&packet[91..93], &540_u16.to_be_bytes());
    assert_eq!(&packet[93..95], &[0x00, 0x00]);
}

#[test]
fn packet_without_timezone_is_93_bytes_with_zero_report_type() {
    let fix = everest_fix();
    let packet = encode_position(&fix, &local_noon(), &utc_of_local_noon(), 540, false);

    assert_eq!(packet.len(), 93);
    assert_eq!(((packet[0] as u16) << 8) | packet[1] as u16, 91);
    assert_eq!(packet[5], 0x00);
    // The wall-clock fields come from the local timestamp.
    assert_eq!(&packet[19..21], &2023_u16.to_be_bytes());
    assert_eq!(packet[21], 5);
    assert_eq!(packet[22], 29);
    assert_eq!(packet[23], 12);
    assert_eq!(packet[24], 34);
    assert_eq!(packet[25], 56);
    // Everything after the wall-clock fields is zero: no offset fields.
    assert!(packet[26..93].iter().all(|b| *b == 0));
}

#[test]
fn negative_coordinates_encode_twos_complement() {
    let fix = GeographicFix {
        lat_e7: (-33.868820_f64 * 10_000_000_f64) as i32,
        lng_e7: (151.209290_f64 * 10_000_000_f64) as i32,
    };
    let packet = encode_position(&fix, &local_noon(), &utc_of_local_noon(), 0, true);
    assert_eq!(&packet[11..15], &fix.lat_e7.to_be_bytes());
    assert_eq!(&packet[15..19], &fix.lng_e7.to_be_bytes());
}
