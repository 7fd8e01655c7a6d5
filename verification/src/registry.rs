//! Immutable registry of the service/characteristic endpoints the device
//! exposes, with their capability flags.
//!
//! The registry is a fixed table: each endpoint has a short 16-bit
//! identifier, an owning service, and a set of capabilities (read, write,
//! notify). Issuing a write against an endpoint without the write
//! capability is a programming error the transport rejects; the registry
//! makes the capability of every endpoint checkable before any transport
//! call is made.

use vstd::prelude::*;

verus! {

/// The standard short-identifier base UUID: a characteristic's 16-bit
/// identifier sits in bits 96..112 above this base.
pub const SHORT_UUID_BASE: u128 = 0x00000000_0000_1000_8000_00805F9B34FB;

/// 2^96, the place value of the short identifier inside a full UUID.
pub const SHORT_ID_PLACE: u128 = 0x1_00000000_00000000_00000000;

/// The functional domains the device groups its endpoints under.
#[derive(Clone, Copy, PartialEq, Eq, Structural, Debug)]
pub enum ServiceKind {
    /// Camera control, Wi-Fi and FTP configuration endpoints.
    CameraControl,
    /// Satellite-positioning endpoints.
    Gnss,
    /// Remote-button endpoints.
    Remote,
}

/// The capability flags of one endpoint.
#[derive(Clone, Copy, PartialEq, Eq, Structural, Debug)]
pub struct CapabilityFlags {
    pub read: bool,
    pub write: bool,
    pub notify: bool,
}

/// One entry of the registry: a short characteristic identifier, the
/// service that owns it, and its capabilities.
#[derive(Clone, Copy, PartialEq, Eq, Structural, Debug)]
pub struct EndpointDescriptor {
    pub short_id: u16,
    pub service: ServiceKind,
    pub caps: CapabilityFlags,
}

/// The symbolic names of all endpoints the registry knows.
#[derive(Clone, Copy, PartialEq, Eq, Structural, Debug)]
pub enum Endpoint {
    CameraControlNotify,
    CameraControlWrite,
    WifiStatus,
    WifiSsid,
    WifiPassword,
    FtpStatus,
    FtpServerName,
    GnssInfo,
    GnssNotify,
    GnssFeature,
    RemoteInfo,
    RemoteNotify,
}

/// How a transport write is issued: with a response from the device, or
/// fire-and-forget.
#[derive(Clone, Copy, PartialEq, Eq, Structural, Debug)]
pub enum WriteMode {
    WithResponse,
    WithoutResponse,
}

/// The registry table: the fixed descriptor of each endpoint.
pub open spec fn spec_descriptor(e: Endpoint) -> EndpointDescriptor {
    match e {
        Endpoint::CameraControlNotify => EndpointDescriptor {
            short_id: 0xCC01,
            service: ServiceKind::CameraControl,
            caps: CapabilityFlags { read: false, write: false, notify: true },
        },
        Endpoint::CameraControlWrite => EndpointDescriptor {
            short_id: 0xCC02,
            service: ServiceKind::CameraControl,
            caps: CapabilityFlags { read: false, write: true, notify: false },
        },
        Endpoint::WifiStatus => EndpointDescriptor {
            short_id: 0xCC05,
            service: ServiceKind::CameraControl,
            caps: CapabilityFlags { read: true, write: false, notify: true },
        },
        Endpoint::WifiSsid => EndpointDescriptor {
            short_id: 0xCC06,
            service: ServiceKind::CameraControl,
            caps: CapabilityFlags { read: true, write: false, notify: false },
        },
        Endpoint::WifiPassword => EndpointDescriptor {
            short_id: 0xCC07,
            service: ServiceKind::CameraControl,
            caps: CapabilityFlags { read: true, write: false, notify: false },
        },
        Endpoint::FtpStatus => EndpointDescriptor {
            short_id: 0xCC21,
            service: ServiceKind::CameraControl,
            caps: CapabilityFlags { read: true, write: false, notify: true },
        },
        Endpoint::FtpServerName => EndpointDescriptor {
            short_id: 0xCC40,
            service: ServiceKind::CameraControl,
            caps: CapabilityFlags { read: true, write: false, notify: false },
        },
        Endpoint::GnssInfo => EndpointDescriptor {
            short_id: 0xDD01,
            service: ServiceKind::Gnss,
            caps: CapabilityFlags { read: false, write: false, notify: true },
        },
        Endpoint::GnssNotify => EndpointDescriptor {
            short_id: 0xDD11,
            service: ServiceKind::Gnss,
            caps: CapabilityFlags { read: false, write: true, notify: false },
        },
        Endpoint::GnssFeature => EndpointDescriptor {
            short_id: 0xDD21,
            service: ServiceKind::Gnss,
            caps: CapabilityFlags { read: true, write: false, notify: false },
        },
        Endpoint::RemoteInfo => EndpointDescriptor {
            short_id: 0xFF02,
            service: ServiceKind::Remote,
            caps: CapabilityFlags { read: false, write: false, notify: true },
        },
        Endpoint::RemoteNotify => EndpointDescriptor {
            short_id: 0xFF01,
            service: ServiceKind::Remote,
            caps: CapabilityFlags { read: false, write: true, notify: false },
        },
    }
}

/// The endpoint may be subscribed for notifications.
pub open spec fn spec_can_notify(e: Endpoint) -> bool {
    spec_descriptor(e).caps.notify
}

/// The endpoint accepts writes.
pub open spec fn spec_can_write(e: Endpoint) -> bool {
    spec_descriptor(e).caps.write
}

/// The full 128-bit service UUID of a functional domain.
pub open spec fn spec_service_uuid(s: ServiceKind) -> u128 {
    match s {
        ServiceKind::CameraControl => 0x8000CC00_CC00_FFFF_FFFF_FFFFFFFFFFFF,
        ServiceKind::Gnss => 0x8000DD00_DD00_FFFF_FFFF_FFFFFFFFFFFF,
        ServiceKind::Remote => 0x8000FF00_FF00_FFFF_FFFF_FFFFFFFFFFFF,
    }
}

/// The full 128-bit UUID of a short characteristic identifier under the
/// standard base.
pub open spec fn spec_char_uuid(short: u16) -> u128 {
    (SHORT_UUID_BASE + (short as u128) * SHORT_ID_PLACE) as u128
}

/// Looks an endpoint up in the registry.
pub fn descriptor(e: Endpoint) -> (d: EndpointDescriptor)
    ensures
        d == spec_descriptor(e),
{
    match e {
        Endpoint::CameraControlNotify => EndpointDescriptor {
            short_id: 0xCC01,
            service: ServiceKind::CameraControl,
            caps: CapabilityFlags { read: false, write: false, notify: true },
        },
        Endpoint::CameraControlWrite => EndpointDescriptor {
            short_id: 0xCC02,
            service: ServiceKind::CameraControl,
            caps: CapabilityFlags { read: false, write: true, notify: false },
        },
        Endpoint::WifiStatus => EndpointDescriptor {
            short_id: 0xCC05,
            service: ServiceKind::CameraControl,
            caps: CapabilityFlags { read: true, write: false, notify: true },
        },
        Endpoint::WifiSsid => EndpointDescriptor {
            short_id: 0xCC06,
            service: ServiceKind::CameraControl,
            caps: CapabilityFlags { read: true, write: false, notify: false },
        },
        Endpoint::WifiPassword => EndpointDescriptor {
            short_id: 0xCC07,
            service: ServiceKind::CameraControl,
            caps: CapabilityFlags { read: true, write: false, notify: false },
        },
        Endpoint::FtpStatus => EndpointDescriptor {
            short_id: 0xCC21,
            service: ServiceKind::CameraControl,
            caps: CapabilityFlags { read: true, write: false, notify: true },
        },
        Endpoint::FtpServerName => EndpointDescriptor {
            short_id: 0xCC40,
            service: ServiceKind::CameraControl,
            caps: CapabilityFlags { read: true, write: false, notify: false },
        },
        Endpoint::GnssInfo => EndpointDescriptor {
            short_id: 0xDD01,
            service: ServiceKind::Gnss,
            caps: CapabilityFlags { read: false, write: false, notify: true },
        },
        Endpoint::GnssNotify => EndpointDescriptor {
            short_id: 0xDD11,
            service: ServiceKind::Gnss,
            caps: CapabilityFlags { read: false, write: true, notify: false },
        },
        Endpoint::GnssFeature => EndpointDescriptor {
            short_id: 0xDD21,
            service: ServiceKind::Gnss,
            caps: CapabilityFlags { read: true, write: false, notify: false },
        },
        Endpoint::RemoteInfo => EndpointDescriptor {
            short_id: 0xFF02,
            service: ServiceKind::Remote,
            caps: CapabilityFlags { read: false, write: false, notify: true },
        },
        Endpoint::RemoteNotify => EndpointDescriptor {
            short_id: 0xFF01,
            service: ServiceKind::Remote,
            caps: CapabilityFlags { read: false, write: true, notify: false },
        },
    }
}

/// Computes the full service UUID of a functional domain.
pub fn service_uuid(s: ServiceKind) -> (r: u128)
    ensures
        r == spec_service_uuid(s),
{
    match s {
        ServiceKind::CameraControl => 0x8000CC00_CC00_FFFF_FFFF_FFFFFFFFFFFF,
        ServiceKind::Gnss => 0x8000DD00_DD00_FFFF_FFFF_FFFFFFFFFFFF,
        ServiceKind::Remote => 0x8000FF00_FF00_FFFF_FFFF_FFFFFFFFFFFF,
    }
}

/// Computes the full 128-bit UUID of a short characteristic identifier.
pub fn char_uuid(short: u16) -> (r: u128)
    ensures
        r == spec_char_uuid(short),
{
    SHORT_UUID_BASE + (short as u128) * SHORT_ID_PLACE
}

/// The pair of full UUIDs (characteristic, owning service) of an endpoint,
/// ready to hand to the transport.
pub fn endpoint_uuids(e: Endpoint) -> (r: (u128, u128))
    ensures
        r.0 == spec_char_uuid(spec_descriptor(e).short_id),
        r.1 == spec_service_uuid(spec_descriptor(e).service),
{
    let d = descriptor(e);
    (char_uuid(d.short_id), service_uuid(d.service))
}

} // verus!
