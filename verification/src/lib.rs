//! Relay of rendered video frames between a browser-hosted virtual machine
//! and its host: wire messages, frames and their pixel formats, the
//! per-connection frame ring, and the registry of connected sessions.
//!
//! The library computes and decides; it opens no socket and reads no clock.
//! Whoever runs it hands in what arrived and what time it is, and carries
//! out what comes back.

use vstd::prelude::*;

pub mod buffer;
pub mod client;
pub mod frame;
pub mod protocol;
pub mod server;
pub mod transport;

pub use crate::frame::{Frame, FrameBuffer, FrameError};
pub use crate::protocol::{
    ConnectionState, Double, EmulatorToSidecarMessage, FrameFormat, FrameMetadata, LinkEvent,
    Message, SidecarConfig, SidecarMode, SidecarStats, SidecarToEmulatorMessage,
};
pub use crate::transport::{FpsTracker, TransportError};

verus! {

/// Version of the library.
pub const VERSION: &'static str = "0.1.0";

/// The port on which a server listens unless told otherwise.
pub const DEFAULT_PORT: u16 = 9876;

} // verus!
