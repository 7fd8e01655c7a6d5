//! Tests of positioning-payload preparation: UTC normalization and the
//! on-wire offset field.

use camlink::gnss::{prepare_position_payload, wire_offset_minutes, PositionError};
use camlink::types::{GeographicFix, Timestamp};

fn fix() -> GeographicFix {
    GeographicFix { lat_e7: 279_880_559, lng_e7: 869_252_779 }
}

#[test]
fn wire_offset_is_whole_minutes_in_twos_complement() {
    assert_eq!(wire_offset_minutes(0), 0);
    assert_eq!(wire_offset_minutes(32_400), 540); // +09:00
    assert_eq!(wire_offset_minutes(5_430), 90); // seconds truncate toward zero
    assert_eq!(wire_offset_minutes(-18_000), (-300_i32) as u16); // -05:00 -> 0xFED4
    assert_eq!(wire_offset_minutes(-90), (-1_i32) as u16);
}

#[test]
fn timezone_path_normalizes_the_wall_clock_to_utc() {
    // 2023-01-01 02:30:00 at +09:00 is 2022-12-31 17:30:00 UTC.
    let local = Timestamp { year: 2023, month: 1, day: 1, hour: 2, minute: 30, second: 0 };
    let packet = prepare_position_payload(&fix(), &local, 32_400, true).unwrap();

    assert_eq!(packet.len(), 95);
    assert_eq!(packet[5], 0x03);
    assert_eq!(&packet[19..21], &2022_u16.to_be_bytes());
    assert_eq!(packet[21], 12);
    assert_eq!(packet[22], 31);
    assert_eq!(packet[23], 17);
    assert_eq!(packet[24], 30);
    assert_eq!(packet[25], 0);
    assert_eq!(&packet[91..93], &540_u16.to_be_bytes());
    assert_eq!(&packet[93..95], &[0x00, 0x00]);
}

#[test]
fn plain_path_sends_the_local_wall_clock_unchanged() {
    let local = Timestamp { year: 2023, month: 1, day: 1, hour: 2, minute: 30, second: 0 };
    let packet = prepare_position_payload(&fix(), &local, 32_400, false).unwrap();

    assert_eq!(packet.len(), 93);
    assert_eq!(packet[5], 0x00);
    assert_eq!(&packet[19..21], &2023_u16.to_be_bytes());
    assert_eq!(packet[21], 1);
    assert_eq!(packet[22], 1);
    assert_eq!(packet[23], 2);
    assert_eq!(packet[24], 30);
    assert_eq!(packet[25], 0);
}

#[test]
fn every_real_wall_clock_reading_is_accepted_on_the_timezone_path() {
    // A leap day is a real date and must encode.
    let leap = Timestamp { year: 2024, month: 2, day: 29, hour: 23, minute: 59, second: 59 };
    let packet = prepare_position_payload(&fix(), &leap, 32_400, true).unwrap();
    assert_eq!(packet.len(), 95);
    // The largest offset chrono accepts is one second short of a day.
    let noon = Timestamp { year: 2023, month: 6, day: 15, hour: 12, minute: 0, second: 0 };
    assert!(prepare_position_payload(&fix(), &noon, 86_399, true).is_ok());
    assert!(prepare_position_payload(&fix(), &noon, -86_399, true).is_ok());
}

#[test]
fn impossible_calendar_fields_are_rejected_on_the_timezone_path() {
    // A leap day of a common year is no date.
    let not_leap = Timestamp { year: 2023, month: 2, day: 29, hour: 0, minute: 0, second: 0 };
    assert_eq!(
        prepare_position_payload(&fix(), &not_leap, 0, true),
        Err(PositionError::BadTimestamp)
    );
    let bad = Timestamp { year: 2023, month: 13, day: 1, hour: 0, minute: 0, second: 0 };
    assert_eq!(
        prepare_position_payload(&fix(), &bad, 0, true),
        Err(PositionError::BadTimestamp)
    );
    // An offset of a whole day or more is rejected too.
    let good = Timestamp { year: 2023, month: 6, day: 15, hour: 12, minute: 0, second: 0 };
    assert_eq!(
        prepare_position_payload(&fix(), &good, 86_400, true),
        Err(PositionError::BadTimestamp)
    );
}
