//! Client-side protocol codec and session-state layer for a camera remote
//! controlled over a wireless personal-area-network link.
//!
//! The crate covers the pure core of the protocol: identifying compatible
//! devices from advertisement data, the registry of service/characteristic
//! endpoints with their capability flags, the binary encoders for outbound
//! command payloads, and the notification subscription/consumption state
//! machine. The wireless transport itself (scanning, connecting, reads,
//! writes, subscriptions) is an external collaborator and is driven by a
//! thin unverified shell around this crate.

pub mod bytes;
pub mod discovery;
pub mod gnss;
pub mod notification;
pub mod registry;
pub mod remote;
pub mod types;
