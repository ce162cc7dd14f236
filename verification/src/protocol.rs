//! The messages exchanged with a connection, and the values they carry.
//!
//! Every number that travels as a double (timestamps, latencies, rates) is
//! held here as [`Double`], the bit pattern of that double: this module moves
//! such numbers around and never does arithmetic on them.

use vstd::prelude::*;
use vstd::string::StringExecFns;

verus! {

/// A double-precision number, held as its IEEE-754 bit pattern.
///
/// Two `Double`s are the same value exactly when their bits agree, so an
/// echoed number comes back bit for bit.
#[derive(Debug, Clone, Copy)]
pub struct Double {
    pub bits: u64,
}

impl Double {
    /// The number with the given bit pattern.
    pub fn from_bits(bits: u64) -> (d: Double)
        ensures
            d.bits == bits,
    {
        Double { bits }
    }

    /// The bit pattern of this number.
    pub fn to_bits(self) -> (bits: u64)
        ensures
            bits == self.bits,
    {
        self.bits
    }

    /// Positive zero, whose bit pattern is all zeros.
    pub fn zero() -> (d: Double)
        ensures
            d.bits == 0,
    {
        Double { bits: 0 }
    }
}

/// Where a sidecar does its work.
#[derive(Debug, Clone, Copy, PartialEq, Eq, Structural)]
pub enum SidecarMode {
    Local,
    Remote,
    Disabled,
}

impl Default for SidecarMode {
    fn default() -> (mode: Self)
        ensures
            mode == SidecarMode::Local,
    {
        SidecarMode::Local
    }
}

/// Pixel layout of a frame's payload.
#[derive(Debug, Clone, Copy, PartialEq, Eq, Structural)]
pub enum FrameFormat {
    Rgba,
    Rgb565,
    Yuv420,
    Compressed,
}

impl Default for FrameFormat {
    fn default() -> (format: Self)
        ensures
            format == FrameFormat::Rgba,
    {
        FrameFormat::Rgba
    }
}

impl FrameFormat {
    /// Bytes that one pixel takes, for the layouts in which that is fixed.
    pub open spec fn spec_bytes_per_pixel(&self) -> Option<usize> {
        match self {
            FrameFormat::Rgba => Some(4usize),
            FrameFormat::Rgb565 => Some(2usize),
            FrameFormat::Yuv420 => None,
            FrameFormat::Compressed => None,
        }
    }

    /// Bytes per pixel; `None` for planar and compressed payloads, whose
    /// size does not follow from the dimensions alone.
    #[verifier::when_used_as_spec(spec_bytes_per_pixel)]
    pub fn bytes_per_pixel(&self) -> (bpp: Option<usize>)
        ensures
            bpp == self.spec_bytes_per_pixel(),
    {
        match self {
            FrameFormat::Rgba => Some(4),
            FrameFormat::Rgb565 => Some(2),
            FrameFormat::Yuv420 => None,
            FrameFormat::Compressed => None,
        }
    }

    /// The layout that a wire name stands for. Names are lower case and are
    /// tried in the order written here.
    pub open spec fn named(name: Seq<char>) -> Option<FrameFormat> {
        if name == "rgba"@ {
            Some(FrameFormat::Rgba)
        } else if name == "rgb565"@ {
            Some(FrameFormat::Rgb565)
        } else if name == "yuv420"@ {
            Some(FrameFormat::Yuv420)
        } else if name == "compressed"@ {
            Some(FrameFormat::Compressed)
        } else {
            None
        }
    }

    /// Reads a layout from its wire name; `None` for any other text.
    pub fn from_name(name: &str) -> (format: Option<FrameFormat>)
        ensures
            format == FrameFormat::named(name@),
    {
        let given = String::from_str(name);
        if given == String::from_str("rgba") {
            Some(FrameFormat::Rgba)
        } else if given == String::from_str("rgb565") {
            Some(FrameFormat::Rgb565)
        } else if given == String::from_str("yuv420") {
            Some(FrameFormat::Yuv420)
        } else if given == String::from_str("compressed") {
            Some(FrameFormat::Compressed)
        } else {
            None
        }
    }
}

/// What a connection's lifetime can show from outside.
#[derive(Debug, Clone, Copy, PartialEq, Eq, Structural)]
pub enum LinkEvent {
    /// The connection was accepted, or a connect was begun.
    Accepted,
    /// The handshake went through.
    HandshakeCompleted,
    /// The transport failed in a way that cannot be recovered.
    TransportFault,
    /// The connection was closed in good order.
    Closed,
}

/// State of one connection.
#[derive(Debug, Clone, Copy, PartialEq, Eq, Structural)]
pub enum ConnectionState {
    Disconnected,
    Connecting,
    Connected,
    Error,
}

impl Default for ConnectionState {
    fn default() -> (state: Self)
        ensures
            state == ConnectionState::Disconnected,
    {
        ConnectionState::Disconnected
    }
}

impl ConnectionState {
    /// The state that an event leads to. The event alone decides: a fault
    /// is an error wherever it strikes, and a close disconnects from anywhere.
    pub open spec fn spec_after(self, event: LinkEvent) -> ConnectionState {
        match event {
            LinkEvent::Accepted => ConnectionState::Connecting,
            LinkEvent::HandshakeCompleted => ConnectionState::Connected,
            LinkEvent::TransportFault => ConnectionState::Error,
            LinkEvent::Closed => ConnectionState::Disconnected,
        }
    }

    /// The state of a connection after `event`.
    #[verifier::when_used_as_spec(spec_after)]
    pub fn after(self, event: LinkEvent) -> (next: ConnectionState)
        ensures
            next == self.spec_after(event),
    {
        match event {
            LinkEvent::Accepted => ConnectionState::Connecting,
            LinkEvent::HandshakeCompleted => ConnectionState::Connected,
            LinkEvent::TransportFault => ConnectionState::Error,
            LinkEvent::Closed => ConnectionState::Disconnected,
        }
    }

    /// The lower-case name under which a state is reported.
    pub open spec fn spec_name(&self) -> Seq<char> {
        match self {
            ConnectionState::Disconnected => "disconnected"@,
            ConnectionState::Connecting => "connecting"@,
            ConnectionState::Connected => "connected"@,
            ConnectionState::Error => "error"@,
        }
    }

    /// The name of this state, as hosts are told it.
    pub fn name(&self) -> (name: &'static str)
        ensures
            name@ == self.spec_name(),
    {
        match self {
            ConnectionState::Disconnected => "disconnected",
            ConnectionState::Connecting => "connecting",
            ConnectionState::Connected => "connected",
            ConnectionState::Error => "error",
        }
    }
}

/// What is known of a frame besides its pixels.
#[derive(Debug, Clone, Copy)]
pub struct FrameMetadata {
    /// Position of the frame in its stream.
    pub sequence: u64,
    /// When the frame was made, in milliseconds.
    pub timestamp: Double,
    /// Width in pixels.
    pub width: u32,
    /// Height in pixels.
    pub height: u32,
    /// Layout of the payload.
    pub format: FrameFormat,
    /// Whether the frame is a whole image rather than a change to the last.
    pub keyframe: bool,
}

/// Settings of one sidecar. An absent field leaves the setting as it is.
#[derive(Debug, Clone)]
pub struct SidecarConfig {
    pub mode: SidecarMode,
    /// Frames per second to aim for.
    pub target_fps: Option<u32>,
    pub preferred_format: Option<FrameFormat>,
    /// Where a remote sidecar listens.
    pub remote_url: Option<String>,
    pub enable_compression: Option<bool>,
    /// Slots of the frame ring, in local mode.
    pub ring_buffer_size: Option<usize>,
}

impl Default for SidecarConfig {
    fn default() -> (config: Self)
        ensures
            config == (SidecarConfig {
                mode: SidecarMode::Local,
                target_fps: Some(60u32),
                preferred_format: Some(FrameFormat::Rgba),
                remote_url: None,
                enable_compression: Some(false),
                ring_buffer_size: Some(4usize),
            }),
    {
        SidecarConfig {
            mode: SidecarMode::Local,
            target_fps: Some(60),
            preferred_format: Some(FrameFormat::Rgba),
            remote_url: None,
            enable_compression: Some(false),
            ring_buffer_size: Some(4),
        }
    }
}

/// Counters of one connection.
#[derive(Debug, Clone, Copy)]
pub struct SidecarStats {
    pub frames_received: u64,
    pub frames_dropped: u64,
    /// Mean latency of a frame, in milliseconds.
    pub avg_latency: Double,
    /// Frames per second over the recent window.
    pub current_fps: Double,
    pub bytes_transferred: u64,
}

impl Default for SidecarStats {
    fn default() -> (stats: Self)
        ensures
            stats == (SidecarStats {
                frames_received: 0,
                frames_dropped: 0,
                avg_latency: Double { bits: 0 },
                current_fps: Double { bits: 0 },
                bytes_transferred: 0,
            }),
    {
        SidecarStats {
            frames_received: 0,
            frames_dropped: 0,
            avg_latency: Double::zero(),
            current_fps: Double::zero(),
            bytes_transferred: 0,
        }
    }
}

/// What the emulator asks of a sidecar.
#[derive(Debug, Clone)]
pub enum EmulatorToSidecarMessage {
    SetMode { mode: SidecarMode, config: Option<SidecarConfig> },
    SetFormat { format: FrameFormat, width: u32, height: u32 },
    /// Announces a frame; its pixels follow as a message of their own.
    Frame { metadata: FrameMetadata },
    Ping { timestamp: Double },
}

/// What a sidecar answers.
#[derive(Debug, Clone)]
pub enum SidecarToEmulatorMessage {
    ModeAck { mode: SidecarMode, success: bool, error: Option<String> },
    FormatAck { format: FrameFormat, success: bool },
    FrameAck { sequence: u64, latency: Double },
    Pong { timestamp: Double, server_time: Double },
    Error { code: String, message: String },
}

/// A message of either direction.
#[derive(Debug, Clone)]
pub enum Message {
    FromEmulator(EmulatorToSidecarMessage),
    FromSidecar(SidecarToEmulatorMessage),
}

} // verus!
