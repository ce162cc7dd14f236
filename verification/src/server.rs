//! The sessions of a relay server and what each message does to them.
//!
//! Nothing here touches a socket or a clock. The caller accepts connections,
//! reads the time and hands both in; it gets back what to answer. The handle
//! through which a session is written to is carried along as a value of a
//! type of the caller's choosing.

use vstd::prelude::*;
use std::collections::HashMap;
use vstd::std_specs::hash::group_hash_axioms;
use vstd::std_specs::iter::IteratorSpec;
use vstd::string::StringExecFns;
use crate::buffer::FrameBuffer;
use crate::frame::Frame;
use crate::protocol::{
    ConnectionState, Double, EmulatorToSidecarMessage, FrameFormat, LinkEvent, SidecarConfig,
    SidecarMode, SidecarStats, SidecarToEmulatorMessage,
};
use crate::transport::{FpsTracker, TransportError};

verus! {

/// The number under which a connection is known.
#[derive(Debug, Clone, Copy)]
pub struct ClientId(pub u64);

/// How a server is set up.
#[derive(Debug, Clone)]
pub struct ServerConfig {
    /// Where to listen, as `host:port`.
    pub bind_addr: String,
    /// How many connections may be open at once.
    pub max_clients: usize,
    /// Slots of the frame ring of each connection.
    pub frame_buffer_size: usize,
}

impl Default for ServerConfig {
    fn default() -> (config: Self)
        ensures
            config.bind_addr@ == "127.0.0.1:9876"@,
            config.max_clients == 10,
            config.frame_buffer_size == 4,
    {
        ServerConfig {
            bind_addr: String::from_str("127.0.0.1:9876"),
            max_clients: 10,
            frame_buffer_size: 4,
        }
    }
}

/// The timestamps that a session's rate window holds.
pub const RATE_WINDOW: usize = 60;

/// Settings after a mode request: the mode is taken over, and of the
/// settings sent along, the target rate and the preferred layout replace
/// what was set where they are present.
pub open spec fn merged_config(
    current: SidecarConfig,
    mode: SidecarMode,
    update: Option<SidecarConfig>,
) -> SidecarConfig {
    SidecarConfig {
        mode,
        target_fps: match update {
            Some(sent) => if sent.target_fps is Some {
                sent.target_fps
            } else {
                current.target_fps
            },
            None => current.target_fps,
        },
        preferred_format: match update {
            Some(sent) => if sent.preferred_format is Some {
                sent.preferred_format
            } else {
                current.preferred_format
            },
            None => current.preferred_format,
        },
        ..current
    }
}

/// The answer that a message calls for at server time `now`. A ping is
/// answered with its own timestamp, bit for bit; a frame announcement is
/// not answered.
pub open spec fn reply_to(message: EmulatorToSidecarMessage, now: Double) -> Option<
    SidecarToEmulatorMessage,
> {
    match message {
        EmulatorToSidecarMessage::Ping { timestamp } => Some(
            SidecarToEmulatorMessage::Pong { timestamp, server_time: now },
        ),
        EmulatorToSidecarMessage::SetMode { mode, config } => Some(
            SidecarToEmulatorMessage::ModeAck { mode, success: true, error: None },
        ),
        EmulatorToSidecarMessage::SetFormat { format, width, height } => Some(
            SidecarToEmulatorMessage::FormatAck { format, success: true },
        ),
        EmulatorToSidecarMessage::Frame { metadata } => None,
    }
}

/// The answer that a message calls for at server time `now`.
pub fn reply(message: &EmulatorToSidecarMessage, now: Double) -> (answer: Option<
    SidecarToEmulatorMessage,
>)
    ensures
        answer == reply_to(*message, now),
{
    match message {
        EmulatorToSidecarMessage::Ping { timestamp } => Some(
            SidecarToEmulatorMessage::Pong { timestamp: *timestamp, server_time: now },
        ),
        EmulatorToSidecarMessage::SetMode { mode, config: _ } => Some(
            SidecarToEmulatorMessage::ModeAck { mode: *mode, success: true, error: None },
        ),
        EmulatorToSidecarMessage::SetFormat { format, width: _, height: _ } => Some(
            SidecarToEmulatorMessage::FormatAck { format: *format, success: true },
        ),
        EmulatorToSidecarMessage::Frame { metadata: _ } => None,
    }
}

/// What a server keeps of one connection.
pub struct Session<T> {
    pub id: ClientId,
    /// The handle through which the connection is written to.
    pub tx: T,
    pub config: SidecarConfig,
    pub stats: SidecarStats,
    pub fps_tracker: FpsTracker,
    pub frame_format: FrameFormat,
    pub frame_width: u32,
    pub frame_height: u32,
    pub buffer: FrameBuffer,
    pub state: ConnectionState,
}

impl<T> Session<T> {
    /// Whether the session is in order: its rate window and its frame ring
    /// are, and the window holds [`RATE_WINDOW`] timestamps.
    pub open spec fn well_formed(&self) -> bool {
        &&& self.fps_tracker.well_formed()
        &&& self.fps_tracker.window() == RATE_WINDOW
        &&& self.buffer.well_formed()
    }

    /// Whether the counters can take one more frame.
    pub open spec fn can_count(&self, message: EmulatorToSidecarMessage) -> bool {
        message is Frame ==> self.stats.frames_received < u64::MAX
    }

    /// Whether `after` is what `message`, arriving at `now`, makes of the
    /// session `self`.
    ///
    /// A mode request changes the settings, a format request the layout and
    /// the dimensions, whatever frames still wait. A frame announcement puts
    /// `now` into the rate window and counts the frame; the rate itself is
    /// left as it was, for the caller to read off the window. A ping changes
    /// nothing.
    pub open spec fn steps_to(
        &self,
        message: EmulatorToSidecarMessage,
        now: Double,
        after: Session<T>,
    ) -> bool {
        match message {
            EmulatorToSidecarMessage::Ping { timestamp } => after == *self,
            EmulatorToSidecarMessage::SetMode { mode, config } => after == (Session {
                config: merged_config(self.config, mode, config),
                ..*self
            }),
            EmulatorToSidecarMessage::SetFormat { format, width, height } => after == (Session {
                frame_format: format,
                frame_width: width,
                frame_height: height,
                ..*self
            }),
            EmulatorToSidecarMessage::Frame { metadata } => {
                &&& after.fps_tracker@ == FpsTracker::after_record(
                    self.fps_tracker.window(),
                    self.fps_tracker@,
                    now,
                )
                &&& after.fps_tracker.window() == self.fps_tracker.window()
                &&& after.fps_tracker.well_formed()
                &&& after.stats == (SidecarStats {
                    frames_received: (self.stats.frames_received + 1) as u64,
                    ..self.stats
                })
                &&& after.id == self.id
                &&& after.tx == self.tx
                &&& after.config == self.config
                &&& after.frame_format == self.frame_format
                &&& after.frame_width == self.frame_width
                &&& after.frame_height == self.frame_height
                &&& after.buffer == self.buffer
                &&& after.state == self.state
            },
        }
    }

    /// Whether this is the session of a connection that was just accepted
    /// under `id`: default settings, no frame counted, 640 by 480 pixels of
    /// four bytes each, an empty rate window, an empty ring of
    /// `frame_buffer_size` slots, and still connecting.
    pub open spec fn is_fresh(&self, id: ClientId, tx: T, frame_buffer_size: usize) -> bool {
        &&& self.well_formed()
        &&& self.id == id
        &&& self.tx == tx
        &&& self.config == (SidecarConfig {
            mode: SidecarMode::Local,
            target_fps: Some(60u32),
            preferred_format: Some(FrameFormat::Rgba),
            remote_url: None,
            enable_compression: Some(false),
            ring_buffer_size: Some(4usize),
        })
        &&& self.stats == (SidecarStats {
            frames_received: 0,
            frames_dropped: 0,
            avg_latency: Double { bits: 0 },
            current_fps: Double { bits: 0 },
            bytes_transferred: 0,
        })
        &&& self.fps_tracker@ == Seq::<Double>::empty()
        &&& self.frame_format == FrameFormat::Rgba
        &&& self.frame_width == 640
        &&& self.frame_height == 480
        &&& self.buffer@ == Seq::<Frame>::empty()
        &&& self.buffer.capacity() == frame_buffer_size
        &&& self.state == ConnectionState::Connecting
    }

    /// The session of a connection that was just accepted under `id`.
    pub fn new(id: ClientId, tx: T, frame_buffer_size: usize) -> (session: Self)
        ensures
            session.is_fresh(id, tx, frame_buffer_size),
    {
        Session {
            id,
            tx,
            config: SidecarConfig::default(),
            stats: SidecarStats::default(),
            fps_tracker: FpsTracker::new(RATE_WINDOW),
            frame_format: FrameFormat::Rgba,
            frame_width: 640,
            frame_height: 480,
            buffer: FrameBuffer::new(frame_buffer_size),
            state: ConnectionState::Connecting,
        }
    }

    /// Takes a message into the session, at server time `now`.
    pub fn apply(&mut self, message: EmulatorToSidecarMessage, now: Double)
        requires
            old(self).well_formed(),
            old(self).can_count(message),
        ensures
            final(self).well_formed(),
            old(self).steps_to(message, now, *final(self)),
    {
        match message {
            EmulatorToSidecarMessage::Ping { timestamp: _ } => {},
            EmulatorToSidecarMessage::SetMode { mode, config } => {
                self.config.mode = mode;
                if let Some(cfg) = config {
                    if let Some(fps) = cfg.target_fps {
                        self.config.target_fps = Some(fps);
                    }
                    if let Some(fmt) = cfg.preferred_format {
                        self.config.preferred_format = Some(fmt);
                    }
                }
            },
            EmulatorToSidecarMessage::SetFormat { format, width, height } => {
                self.frame_format = format;
                self.frame_width = width;
                self.frame_height = height;
            },
            EmulatorToSidecarMessage::Frame { metadata: _ } => {
                self.fps_tracker.record(now);
                self.stats.frames_received += 1;
            },
        }
    }

    /// Moves the session's connection along: the state after `event`.
    pub fn observe(&mut self, event: LinkEvent)
        ensures
            *final(self) == (Session { state: old(self).state.spec_after(event), ..*old(self) }),
    {
        self.state = self.state.after(event);
    }
}

/// What the loop that reads from a connection can come upon.
#[derive(Debug, Clone, Copy, PartialEq, Eq, Structural)]
pub enum Inbound {
    /// A text message: the envelope of a request.
    Text,
    /// A binary message: the payload of a frame that was announced.
    Binary,
    /// A ping of the transport.
    Ping,
    /// Any other message of the transport.
    Other,
    /// The peer closed the connection.
    Close,
    /// The transport failed.
    Fault,
    /// Nothing more will come.
    End,
    /// The server is shutting down.
    Shutdown,
}

/// What the loop does about what it came upon.
#[derive(Debug, Clone, Copy, PartialEq, Eq, Structural)]
pub enum Step {
    /// Decode the envelope and process the request.
    Dispatch,
    /// Send the ping's payload back as a pong, if the session still stands.
    AnswerPing,
    /// Go on reading.
    Skip,
    /// Leave the loop and remove the session; the event says how the
    /// connection ended.
    Stop(LinkEvent),
}

/// What each inbound event calls for. A failure of the transport ends the
/// connection as a fault; a close, the end of the stream and a shutdown end
/// it in good order.
pub open spec fn spec_step_for(event: Inbound) -> Step {
    match event {
        Inbound::Text => Step::Dispatch,
        Inbound::Binary => Step::Skip,
        Inbound::Ping => Step::AnswerPing,
        Inbound::Other => Step::Skip,
        Inbound::Close => Step::Stop(LinkEvent::Closed),
        Inbound::Fault => Step::Stop(LinkEvent::TransportFault),
        Inbound::End => Step::Stop(LinkEvent::Closed),
        Inbound::Shutdown => Step::Stop(LinkEvent::Closed),
    }
}

/// The step that an inbound event calls for.
#[verifier::when_used_as_spec(spec_step_for)]
pub fn step_for(event: Inbound) -> (step: Step)
    ensures
        step == spec_step_for(event),
{
    match event {
        Inbound::Text => Step::Dispatch,
        Inbound::Binary => Step::Skip,
        Inbound::Ping => Step::AnswerPing,
        Inbound::Other => Step::Skip,
        Inbound::Close => Step::Stop(LinkEvent::Closed),
        Inbound::Fault => Step::Stop(LinkEvent::TransportFault),
        Inbound::End => Step::Stop(LinkEvent::Closed),
        Inbound::Shutdown => Step::Stop(LinkEvent::Closed),
    }
}

/// What a connection is told when a request of its own failed: an envelope
/// that could not be read is answered with an error message that names the
/// kind of failure as its code and carries the decoder's complaint. No
/// other failure is answered.
pub fn failure_notice(error: &TransportError) -> (notice: Option<SidecarToEmulatorMessage>)
    ensures
        notice is Some <==> error is ProtocolError,
        match notice {
            Some(SidecarToEmulatorMessage::Error { code, message }) => {
                &&& code@ == "ProtocolError"@
                &&& error matches TransportError::ProtocolError(detail) && message == detail
            },
            Some(_) => false,
            None => true,
        },
{
    match error {
        TransportError::ProtocolError(detail) => Some(
            SidecarToEmulatorMessage::Error {
                code: String::from_str("ProtocolError"),
                message: detail.clone(),
            },
        ),
        _ => None,
    }
}

/// The frame notice that goes to every session when `frame` is broadcast:
/// the frame's sequence number and a latency of zero. The payload follows it
/// as a message of its own.
pub fn frame_notice(frame: &Frame) -> (notice: SidecarToEmulatorMessage)
    ensures
        notice == (SidecarToEmulatorMessage::FrameAck {
            sequence: frame.metadata.sequence,
            latency: Double { bits: 0 },
        }),
{
    SidecarToEmulatorMessage::FrameAck { sequence: frame.metadata.sequence, latency: Double::zero() }
}

/// The sessions of a server, each under the number of its connection.
/// Numbers are handed out in rising order, from 1, and never twice.
pub struct ServerState<T> {
    clients: HashMap<u64, Session<T>>,
    next_client_id: u64,
    config: ServerConfig,
}

impl<T> ServerState<T> {
    /// The sessions, by the number of their connection.
    pub closed spec fn sessions(&self) -> Map<u64, Session<T>> {
        self.clients@
    }

    /// The number that the next connection gets.
    pub closed spec fn next_id(&self) -> u64 {
        self.next_client_id
    }

    /// The settings that the server was made with.
    pub closed spec fn settings(&self) -> ServerConfig {
        self.config
    }

    /// Whether the registry is in order: every session stands under its own
    /// number, every number in use was handed out before the next one, and
    /// every session is itself in order.
    pub closed spec fn well_formed(&self) -> bool {
        &&& self.clients@.dom().finite()
        &&& forall|id: u64| #[trigger]
            self.clients@.contains_key(id) ==> {
                &&& id < self.next_client_id
                &&& self.clients@[id].id.0 == id
                &&& self.clients@[id].well_formed()
            }
    }

    /// Whether one more connection may come in: fewer are open than the
    /// settings allow.
    pub open spec fn spec_has_room(&self) -> bool {
        self.sessions().len() < self.settings().max_clients
    }

    /// What holds of every session in a registry that is in order.
    pub proof fn lemma_sessions_in_order(&self, id: u64)
        requires
            self.well_formed(),
            self.sessions().contains_key(id),
        ensures
            id < self.next_id(),
            self.sessions()[id].id.0 == id,
            self.sessions()[id].well_formed(),
            self.sessions().dom().finite(),
    {
    }

    /// A registry without sessions; the first connection will be number 1.
    pub fn new(config: ServerConfig) -> (state: Self)
        ensures
            state.well_formed(),
            state.sessions() == Map::<u64, Session<T>>::empty(),
            state.next_id() == 1,
            state.settings() == config,
    {
        ServerState { clients: HashMap::new(), next_client_id: 1, config }
    }

    /// The settings that the server was made with.
    pub fn config(&self) -> (config: &ServerConfig)
        ensures
            *config == self.settings(),
    {
        &self.config
    }

    /// The number that the next connection gets.
    pub fn next_client_id(&self) -> (next: u64)
        ensures
            next == self.next_id(),
    {
        self.next_client_id
    }

    /// The number of open connections.
    pub fn client_count(&self) -> (count: usize)
        requires
            self.well_formed(),
        ensures
            count == self.sessions().len(),
    {
        broadcast use group_hash_axioms;

        self.clients.len()
    }

    /// Whether one more connection may come in.
    #[verifier::when_used_as_spec(spec_has_room)]
    pub fn has_room(&self) -> (room: bool)
        requires
            self.well_formed(),
        ensures
            room == self.spec_has_room(),
    {
        broadcast use group_hash_axioms;

        self.clients.len() < self.config.max_clients
    }

    /// Registers a connection under the next number and returns the number.
    /// The connection gets a fresh session, with a frame ring as large as the
    /// settings say.
    pub fn add_client(&mut self, tx: T) -> (id: ClientId)
        requires
            old(self).well_formed(),
            old(self).next_id() < u64::MAX,
        ensures
            final(self).well_formed(),
            id.0 == old(self).next_id(),
            final(self).next_id() == old(self).next_id() + 1,
            final(self).settings() == old(self).settings(),
            !old(self).sessions().contains_key(id.0),
            final(self).sessions().contains_key(id.0),
            final(self).sessions().remove(id.0) == old(self).sessions(),
            final(self).sessions().len() == old(self).sessions().len() + 1,
            final(self).sessions()[id.0].is_fresh(id, tx, old(self).settings().frame_buffer_size),
    {
        broadcast use group_hash_axioms;

        let id = ClientId(self.next_client_id);
        self.next_client_id += 1;

        let client = Session::new(id, tx, self.config.frame_buffer_size);

        self.clients.insert(id.0, client);
        assert(self.clients@.remove(id.0) =~= old(self).clients@);
        id
    }

    /// Lets a connection in if there is room: registers it as
    /// [`ServerState::add_client`] does and returns its number. Where as many
    /// connections are open as the settings allow, the connection is turned
    /// away and the registry stays as it is.
    pub fn try_add_client(&mut self, tx: T) -> (added: Option<ClientId>)
        requires
            old(self).well_formed(),
            old(self).next_id() < u64::MAX,
        ensures
            final(self).well_formed(),
            added is Some <==> old(self).spec_has_room(),
            match added {
                Some(id) => {
                    &&& id.0 == old(self).next_id()
                    &&& final(self).next_id() == old(self).next_id() + 1
                    &&& final(self).settings() == old(self).settings()
                    &&& !old(self).sessions().contains_key(id.0)
                    &&& final(self).sessions().contains_key(id.0)
                    &&& final(self).sessions().remove(id.0) == old(self).sessions()
                    &&& final(self).sessions().len() == old(self).sessions().len() + 1
                    &&& final(self).sessions()[id.0].is_fresh(
                        id,
                        tx,
                        old(self).settings().frame_buffer_size,
                    )
                },
                None => *final(self) == *old(self),
            },
    {
        if !self.has_room() {
            return None;
        }
        Some(self.add_client(tx))
    }

    /// Takes the session of a connection out of the registry. A number that
    /// is not in use changes nothing.
    pub fn remove_client(&mut self, id: &ClientId)
        requires
            old(self).well_formed(),
        ensures
            final(self).well_formed(),
            final(self).sessions() == old(self).sessions().remove(id.0),
            final(self).next_id() == old(self).next_id(),
            final(self).settings() == old(self).settings(),
    {
        broadcast use group_hash_axioms;

        self.clients.remove(&id.0);
    }

    /// The session of a connection, if it is registered.
    pub fn session(&self, id: &ClientId) -> (found: Option<&Session<T>>)
        ensures
            match found {
                Some(session) => self.sessions().contains_key(id.0) && *session
                    == self.sessions()[id.0],
                None => !self.sessions().contains_key(id.0),
            },
    {
        broadcast use group_hash_axioms;

        self.clients.get(&id.0)
    }

    /// The numbers of all open connections, each once, in no particular
    /// order: those to which a broadcast frame goes.
    pub fn recipients(&self) -> (ids: Vec<u64>)
        requires
            self.well_formed(),
        ensures
            ids@.no_duplicates(),
            ids@.to_set() == self.sessions().dom(),
    {
        broadcast use group_hash_axioms;

        let mut ids: Vec<u64> = Vec::new();
        let keys = self.clients.keys();
        let ghost all = keys.remaining();
        for key in iter: keys
            invariant
                iter.seq() == all,
                ids@.len() == iter.index(),
                forall|i: int| 0 <= i < ids@.len() ==> ids@[i] == *all[i],
        {
            ids.push(*key);
        }
        assert(ids@ =~= all.unref());
        ids
    }

    /// Whether the session that `message` is for, if there is one, can count
    /// one more frame.
    pub open spec fn can_process(&self, id: ClientId, message: EmulatorToSidecarMessage) -> bool {
        self.sessions().contains_key(id.0) ==> self.sessions()[id.0].can_count(message)
    }

    /// Takes a message from connection `id`, at server time `now`, and
    /// returns what to answer.
    ///
    /// The answer is that of [`reply_to`], whether or not the connection is
    /// registered. The session of a registered connection moves on as
    /// [`Session::steps_to`] says; no other session changes.
    pub fn process_message(
        &mut self,
        id: &ClientId,
        message: EmulatorToSidecarMessage,
        now: Double,
    ) -> (answer: Option<SidecarToEmulatorMessage>)
        requires
            old(self).well_formed(),
            old(self).can_process(*id, message),
        ensures
            final(self).well_formed(),
            answer == reply_to(message, now),
            final(self).next_id() == old(self).next_id(),
            final(self).settings() == old(self).settings(),
            final(self).sessions().dom() == old(self).sessions().dom(),
            forall|other: u64|
                other != id.0 && old(self).sessions().contains_key(other)
                    ==> final(self).sessions()[other] == old(self).sessions()[other],
            old(self).sessions().contains_key(id.0) ==> old(self).sessions()[id.0].steps_to(
                message,
                now,
                final(self).sessions()[id.0],
            ),
    {
        broadcast use group_hash_axioms;

        let answer = reply(&message, now);
        match self.clients.remove(&id.0) {
            Some(mut client) => {
                client.apply(message, now);
                self.clients.insert(id.0, client);
                assert(self.clients@.dom() =~= old(self).clients@.dom());
            },
            None => {
                assert(self.clients@ =~= old(self).clients@);
            },
        }
        answer
    }

    /// Writes down the frame rate of connection `id`, as the caller read it
    /// off the session's rate window. A number that is not in use changes
    /// nothing.
    pub fn set_current_fps(&mut self, id: &ClientId, fps: Double)
        requires
            old(self).well_formed(),
        ensures
            final(self).well_formed(),
            final(self).next_id() == old(self).next_id(),
            final(self).settings() == old(self).settings(),
            final(self).sessions().dom() == old(self).sessions().dom(),
            forall|other: u64|
                other != id.0 && old(self).sessions().contains_key(other)
                    ==> final(self).sessions()[other] == old(self).sessions()[other],
            old(self).sessions().contains_key(id.0) ==> final(self).sessions()[id.0] == (Session {
                stats: SidecarStats { current_fps: fps, ..old(self).sessions()[id.0].stats },
                ..old(self).sessions()[id.0]
            }),
    {
        broadcast use group_hash_axioms;

        match self.clients.remove(&id.0) {
            Some(mut client) => {
                client.stats.current_fps = fps;
                self.clients.insert(id.0, client);
                assert(self.clients@.dom() =~= old(self).clients@.dom());
            },
            None => {
                assert(self.clients@ =~= old(self).clients@);
            },
        }
    }

    /// Records what connection `id` went through: the state of its session
    /// moves to the one that `event` leads to. A number that is not in use
    /// changes nothing.
    pub fn observe(&mut self, id: &ClientId, event: LinkEvent)
        requires
            old(self).well_formed(),
        ensures
            final(self).well_formed(),
            final(self).next_id() == old(self).next_id(),
            final(self).settings() == old(self).settings(),
            final(self).sessions().dom() == old(self).sessions().dom(),
            forall|other: u64|
                other != id.0 && old(self).sessions().contains_key(other)
                    ==> final(self).sessions()[other] == old(self).sessions()[other],
            old(self).sessions().contains_key(id.0) ==> final(self).sessions()[id.0] == (Session {
                state: old(self).sessions()[id.0].state.spec_after(event),
                ..old(self).sessions()[id.0]
            }),
    {
        broadcast use group_hash_axioms;

        match self.clients.remove(&id.0) {
            Some(mut client) => {
                client.observe(event);
                self.clients.insert(id.0, client);
                assert(self.clients@.dom() =~= old(self).clients@.dom());
            },
            None => {
                assert(self.clients@ =~= old(self).clients@);
            },
        }
    }
}

} // verus!
