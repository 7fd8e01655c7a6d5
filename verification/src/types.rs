//! Core value types of the protocol: remote-button commands, geographic
//! fixes and wall-clock timestamps.

use vstd::prelude::*;

verus! {

/// A remote-control button action.
///
/// Every press has an explicit matching release variant: the protocol keeps
/// no implicit state, so the caller must send the release itself.
#[derive(Clone, Copy, PartialEq, Eq, Structural, Debug)]
pub enum RemoteCommand {
    FocusPress,
    FocusRelease,
    ShutterPress,
    ShutterRelease,
    AutofocusPress,
    AutofocusRelease,
    ZoomInPress,
    ZoomInRelease,
    ZoomOutPress,
    ZoomOutRelease,
    C1Press,
    C1Release,
    ToggleRecord,
    FocusInPress,
    FocusInRelease,
    FocusOutPress,
    FocusOutRelease,
}

/// A geographic fix in fixed-point degrees: latitude and longitude scaled
/// by 10_000_000 and truncated toward zero, exactly the signed 32-bit values
/// that go on the wire.
#[derive(Clone, Copy, PartialEq, Eq, Structural, Debug)]
pub struct GeographicFix {
    pub lat_e7: i32,
    pub lng_e7: i32,
}

/// A civil wall-clock timestamp, already broken into the fields the
/// positioning packet carries.
#[derive(Clone, Copy, PartialEq, Eq, Structural, Debug)]
pub struct Timestamp {
    pub year: u16,
    pub month: u8,
    pub day: u8,
    pub hour: u8,
    pub minute: u8,
    pub second: u8,
}

} // verus!
