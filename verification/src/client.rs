//! What a sidecar client keeps between calls, and the requests it makes.
//!
//! The socket and the clock belong to the host. The host tells the client
//! what happened and what time it is, and sends what the client hands back.

use vstd::prelude::*;
use crate::buffer::FrameBuffer;
use crate::frame::Frame;
use crate::protocol::{
    ConnectionState, Double, EmulatorToSidecarMessage, FrameFormat, FrameMetadata, SidecarConfig,
    SidecarMode, SidecarStats,
};
use crate::transport::FpsTracker;

verus! {

/// The timestamps that a client's rate window holds.
pub const CLIENT_RATE_WINDOW: usize = 60;

/// The slots of a client's frame ring.
pub const CLIENT_RING_SLOTS: usize = 4;

/// The layout in which a client with these settings sends its frames: the
/// preferred one, and four bytes a pixel where none is preferred.
pub open spec fn layout_of(config: SidecarConfig) -> FrameFormat {
    match config.preferred_format {
        Some(format) => format,
        None => FrameFormat::Rgba,
    }
}

/// The request to change layout and dimensions, for a layout given by its
/// wire name; nothing where the name stands for no layout.
pub open spec fn format_request_for(name: Seq<char>, width: u32, height: u32) -> Option<
    EmulatorToSidecarMessage,
> {
    match FrameFormat::named(name) {
        Some(format) => Some(EmulatorToSidecarMessage::SetFormat { format, width, height }),
        None => None,
    }
}

/// The request to change layout and dimensions, or `None` for a name that
/// stands for no layout.
pub fn format_request(name: &str, width: u32, height: u32) -> (request: Option<
    EmulatorToSidecarMessage,
>)
    ensures
        request == format_request_for(name@, width, height),
{
    match FrameFormat::from_name(name) {
        Some(format) => Some(EmulatorToSidecarMessage::SetFormat { format, width, height }),
        None => None,
    }
}

/// The ping that a client sends at its own time `now`.
pub fn ping_request(now: Double) -> (request: EmulatorToSidecarMessage)
    ensures
        request == (EmulatorToSidecarMessage::Ping { timestamp: now }),
{
    EmulatorToSidecarMessage::Ping { timestamp: now }
}

/// The state of a sidecar client.
pub struct SidecarClient {
    pub config: SidecarConfig,
    pub state: ConnectionState,
    pub stats: SidecarStats,
    pub fps_tracker: FpsTracker,
    pub frame_buffer: FrameBuffer,
}

impl SidecarClient {
    /// Whether the client is in order: its rate window and its frame ring
    /// are, and the window holds [`CLIENT_RATE_WINDOW`] timestamps.
    pub open spec fn well_formed(&self) -> bool {
        &&& self.fps_tracker.well_formed()
        &&& self.fps_tracker.window() == CLIENT_RATE_WINDOW
        &&& self.frame_buffer.well_formed()
    }

    /// Whether the counters can take one more frame of `len` bytes.
    pub open spec fn can_count(&self, len: usize) -> bool {
        &&& self.stats.frames_received < u64::MAX
        &&& self.stats.bytes_transferred + len <= u64::MAX
    }

    /// A client that is not connected: default settings, nothing counted,
    /// an empty rate window and an empty ring of [`CLIENT_RING_SLOTS`] slots.
    pub fn new() -> (client: Self)
        ensures
            client.well_formed(),
            client.config == (SidecarConfig {
                mode: SidecarMode::Local,
                target_fps: Some(60u32),
                preferred_format: Some(FrameFormat::Rgba),
                remote_url: None,
                enable_compression: Some(false),
                ring_buffer_size: Some(4usize),
            }),
            client.state == ConnectionState::Disconnected,
            client.stats == (SidecarStats {
                frames_received: 0,
                frames_dropped: 0,
                avg_latency: Double { bits: 0 },
                current_fps: Double { bits: 0 },
                bytes_transferred: 0,
            }),
            client.fps_tracker@ == Seq::<Double>::empty(),
            client.frame_buffer@ == Seq::<Frame>::empty(),
            client.frame_buffer.capacity() == CLIENT_RING_SLOTS,
    {
        SidecarClient {
            config: SidecarConfig::default(),
            state: ConnectionState::Disconnected,
            stats: SidecarStats::default(),
            fps_tracker: FpsTracker::new(CLIENT_RATE_WINDOW),
            frame_buffer: FrameBuffer::new(CLIENT_RING_SLOTS),
        }
    }

    /// Puts the client into `state` and returns the name under which the
    /// host is told of it.
    pub fn set_state(&mut self, state: ConnectionState) -> (name: &'static str)
        ensures
            *final(self) == (SidecarClient { state, ..*old(self) }),
            name@ == state.spec_name(),
    {
        self.state = state;
        state.name()
    }

    /// The name of the state that the client is in.
    pub fn get_state(&self) -> (name: &'static str)
        ensures
            name@ == self.state.spec_name(),
    {
        self.state.name()
    }

    /// Counts a frame of `len` bytes that goes out at time `now`, and returns
    /// the metadata to announce it with: the frames counted so far as its
    /// sequence number, `now` as its timestamp, and the layout of
    /// [`layout_of`]. The rate is left as it was, for the host to read off
    /// the window.
    pub fn announce_frame(
        &mut self,
        now: Double,
        len: usize,
        width: u32,
        height: u32,
        keyframe: bool,
    ) -> (metadata: FrameMetadata)
        requires
            old(self).well_formed(),
            old(self).can_count(len),
        ensures
            final(self).well_formed(),
            final(self).fps_tracker@ == FpsTracker::after_record(
                old(self).fps_tracker.window(),
                old(self).fps_tracker@,
                now,
            ),
            final(self).stats == (SidecarStats {
                frames_received: (old(self).stats.frames_received + 1) as u64,
                bytes_transferred: (old(self).stats.bytes_transferred + len) as u64,
                ..old(self).stats
            }),
            final(self).config == old(self).config,
            final(self).state == old(self).state,
            final(self).frame_buffer == old(self).frame_buffer,
            metadata == (FrameMetadata {
                sequence: (old(self).stats.frames_received + 1) as u64,
                timestamp: now,
                width,
                height,
                format: layout_of(old(self).config),
                keyframe,
            }),
    {
        self.fps_tracker.record(now);
        self.stats.frames_received += 1;
        self.stats.bytes_transferred += len as u64;

        let format = match self.config.preferred_format {
            Some(format) => format,
            None => FrameFormat::Rgba,
        };
        FrameMetadata {
            sequence: self.stats.frames_received,
            timestamp: now,
            width,
            height,
            format,
            keyframe,
        }
    }

    /// Writes down the frame rate, as the host read it off the rate window.
    pub fn set_current_fps(&mut self, fps: Double)
        ensures
            *final(self) == (SidecarClient {
                stats: SidecarStats { current_fps: fps, ..old(self).stats },
                ..*old(self)
            }),
    {
        self.stats.current_fps = fps;
    }

    /// The frame rate that was last written down.
    pub fn get_fps(&self) -> (fps: Double)
        ensures
            fps == self.stats.current_fps,
    {
        self.stats.current_fps
    }

    /// The number of frames counted.
    pub fn get_frames_received(&self) -> (frames: u64)
        ensures
            frames == self.stats.frames_received,
    {
        self.stats.frames_received
    }

    /// The number of payload bytes counted.
    pub fn get_bytes_transferred(&self) -> (bytes: u64)
        ensures
            bytes == self.stats.bytes_transferred,
    {
        self.stats.bytes_transferred
    }
}

} // verus!
