//! Decisions of the microphone task: wake-word streaming, push-to-talk and
//! intercom sessions with the `yo` server.
//!
//! The task is a state machine. The caller performs each [`CaptureAction`]
//! (socket and channel I/O, sleeps, handler callbacks) and hands the outcome
//! back as a [`CaptureEvent`].
use vstd::prelude::*;
use crate::commands::VoiceCommand;
use crate::frame::{
    intercom_room, intercom_room_bytes, le32, le32_bytes, oneshot_room, oneshot_room_bytes,
    ptt_header, ptt_header_bytes, spec_server_event, server_event, ServerEvent, CHUNK_PACKET_LEN,
    OWW_MODEL_CHUNK_SIZE, PTT_END, PTT_START,
};

verus! {

/// Socket timeout for wake-word and intercom sessions.
pub const STREAM_SOCKET_TIMEOUT_SECS: u64 = 10;

/// Socket timeout for push-to-talk sessions.
pub const PTT_SOCKET_TIMEOUT_SECS: u64 = 20;

/// Pause before reconnecting after a wake-word session fails.
pub const RECONNECT_DELAY_MS: u64 = 15000;

/// Pause before returning to idle after an intercom connection fails.
pub const INTERCOM_RETRY_DELAY_MS: u64 = 5000;

/// Short pause after a microphone error or a `Disabled` command.
pub const SHORT_PAUSE_MS: u64 = 10;

/// How long the wake-word stream waits for a status byte after each chunk.
pub const RESPONSE_POLL_MS: u64 = 10;

/// The three kinds of session the microphone task runs.
#[derive(Clone, Copy, Debug, PartialEq, Eq, Structural)]
pub enum Session {
    WakeWord,
    PushToTalk,
    Intercom,
}

/// Where the microphone task stands; each stage waits for one kind of event.
#[derive(Clone, Copy, Debug, PartialEq, Eq, Structural)]
pub enum Stage {
    /// Waiting for a command.
    Idle,
    /// Connecting to the server.
    Connecting(Session),
    /// Sending the room name's length.
    SendingLength(Session),
    /// Sending the room name.
    SendingRoom(Session),
    /// Flushing the handshake; the flag says whether it was sent in full.
    Flushing(Session, bool),
    /// Push-to-talk: sending the start marker.
    SendingStart,
    /// Checking the command channel without blocking.
    Polling(Session),
    /// Reading one chunk from the microphone.
    ReadingChunk(Session),
    /// Pausing after a microphone error.
    MicPause(Session),
    /// Sending a microphone packet (push-to-talk: the data header).
    SendingChunk(Session),
    /// Push-to-talk: sending the samples of a chunk.
    SendingSamples,
    /// Push-to-talk: sending the end marker.
    SendingEnd,
    /// Reading a status byte from the server.
    AwaitingResponse(Session),
    /// Running a handler callback.
    Notifying(Session),
    /// Wake word: pausing after a `Disabled` command.
    DisabledPause,
    /// Closing the socket; the flag says whether to back off afterwards.
    Closing(bool),
    /// Sleeping before going back to idle.
    BackingOff,
}

/// Outcome of reading one status byte from the server.
#[derive(Clone, Copy, Debug, PartialEq, Eq, Structural)]
pub enum ReadOutcome {
    /// Exactly one byte arrived.
    Byte(u8),
    /// The read returned a count other than one.
    Other,
    /// The read failed.
    Failed,
    /// Nothing arrived within the timeout.
    TimedOut,
}

/// A handler callback to run.
#[derive(Clone, Copy, Debug, PartialEq, Eq, Structural)]
pub enum Notification {
    /// `on_detected`.
    WakeWordDetected,
    /// `on_thinking`; the caller starts timing the command.
    Thinking,
    /// `on_executed`, with the time since `Thinking` exactly when `timed`.
    Executed { timed: bool },
    /// `on_failed`, with the time since `Thinking` exactly when `timed`.
    Failed { timed: bool },
}

/// What the caller hands back after performing an action.
#[derive(Debug, PartialEq, Eq)]
pub enum CaptureEvent {
    /// A command received while idle.
    Command(VoiceCommand),
    /// The result of polling the command channel.
    Polled(Option<VoiceCommand>),
    /// Whether the connection was established.
    Connected(bool),
    /// One socket write: the number of bytes taken, or `None` on error. A
    /// count of at least what was offered completes the write.
    Wrote(Option<usize>),
    /// Whether the flush succeeded.
    Flushed(bool),
    /// A framed microphone packet, or `None` when the microphone failed.
    Chunk(Option<Vec<u8>>),
    /// The status byte read from the server.
    Response(ReadOutcome),
    /// A sleep, close or callback finished.
    Done,
}

/// What the caller must do next.
#[derive(Debug, PartialEq, Eq)]
pub enum CaptureAction {
    /// Block on the command channel.
    WaitCommand,
    /// Check the command channel without blocking.
    PollCommand,
    /// Open a socket with this timeout and connect to the server.
    Connect { timeout_secs: u64 },
    /// Write these bytes to the socket once.
    Write(Vec<u8>),
    /// Flush the socket.
    Flush,
    /// Read one framed packet from the microphone.
    ReadChunk,
    /// Read one byte from the server, giving up after the timeout if any.
    ReadResponse { timeout_ms: Option<u64> },
    /// Sleep.
    Sleep { millis: u64 },
    /// Close the socket.
    Close,
    /// Run a handler callback.
    Notify(Notification),
}

/// The model of a [`CaptureEvent`].
pub enum CaptureEventModel {
    Command(VoiceCommand),
    Polled(Option<VoiceCommand>),
    Connected(bool),
    Wrote(Option<usize>),
    Flushed(bool),
    Chunk(Option<Seq<u8>>),
    Response(ReadOutcome),
    Done,
}

/// The model of a [`CaptureAction`].
pub enum CaptureActionModel {
    WaitCommand,
    PollCommand,
    Connect { timeout_secs: u64 },
    Write(Seq<u8>),
    Flush,
    ReadChunk,
    ReadResponse { timeout_ms: Option<u64> },
    Sleep { millis: u64 },
    Close,
    Notify(Notification),
}

impl View for CaptureEvent {
    type V = CaptureEventModel;

    open spec fn view(&self) -> CaptureEventModel {
        match self {
            CaptureEvent::Command(c) => CaptureEventModel::Command(*c),
            CaptureEvent::Polled(c) => CaptureEventModel::Polled(*c),
            CaptureEvent::Connected(b) => CaptureEventModel::Connected(*b),
            CaptureEvent::Wrote(n) => CaptureEventModel::Wrote(*n),
            CaptureEvent::Flushed(b) => CaptureEventModel::Flushed(*b),
            CaptureEvent::Chunk(p) => CaptureEventModel::Chunk(
                match p {
                    Some(v) => Some(v@),
                    None => None,
                },
            ),
            CaptureEvent::Response(r) => CaptureEventModel::Response(*r),
            CaptureEvent::Done => CaptureEventModel::Done,
        }
    }
}

impl View for CaptureAction {
    type V = CaptureActionModel;

    open spec fn view(&self) -> CaptureActionModel {
        match self {
            CaptureAction::WaitCommand => CaptureActionModel::WaitCommand,
            CaptureAction::PollCommand => CaptureActionModel::PollCommand,
            CaptureAction::Connect { timeout_secs } => CaptureActionModel::Connect {
                timeout_secs: *timeout_secs,
            },
            CaptureAction::Write(b) => CaptureActionModel::Write(b@),
            CaptureAction::Flush => CaptureActionModel::Flush,
            CaptureAction::ReadChunk => CaptureActionModel::ReadChunk,
            CaptureAction::ReadResponse { timeout_ms } => CaptureActionModel::ReadResponse {
                timeout_ms: *timeout_ms,
            },
            CaptureAction::Sleep { millis } => CaptureActionModel::Sleep { millis: *millis },
            CaptureAction::Close => CaptureActionModel::Close,
            CaptureAction::Notify(n) => CaptureActionModel::Notify(*n),
        }
    }
}

/// The model of a [`CaptureTask`]: the wake-word room, the stage, the bytes
/// of the write in progress and how many of them the socket took, whether a
/// command is being timed, and the last push-to-talk packet.
pub struct CaptureState {
    pub room: Seq<u8>,
    pub stage: Stage,
    pub pending: Seq<u8>,
    pub sent: nat,
    pub timing: bool,
    pub packet: Seq<u8>,
}

/// Stages in which a write to the socket is in progress.
pub open spec fn is_sending(stage: Stage) -> bool {
    match stage {
        Stage::SendingLength(_) | Stage::SendingRoom(_) | Stage::SendingStart
        | Stage::SendingChunk(_) | Stage::SendingSamples | Stage::SendingEnd => true,
        _ => false,
    }
}

/// Stages in which the task holds a connected socket.
pub open spec fn socket_open(stage: Stage) -> bool {
    match stage {
        Stage::Idle | Stage::Connecting(_) | Stage::Closing(_) | Stage::BackingOff => false,
        _ => true,
    }
}

/// Stages that can occur: each session uses only its own steps.
pub open spec fn stage_valid(stage: Stage) -> bool {
    match stage {
        Stage::Flushing(s, _) => s != Session::PushToTalk,
        Stage::MicPause(s) => s != Session::PushToTalk,
        Stage::AwaitingResponse(s) => s != Session::Intercom,
        Stage::Notifying(s) => s != Session::Intercom,
        _ => true,
    }
}

/// Whether `e` is the kind of event that `stage` waits for. Microphone
/// packets always have the streamed packet length.
pub open spec fn accepts_event(stage: Stage, e: CaptureEventModel) -> bool {
    match stage {
        Stage::Idle => e is Command,
        Stage::Connecting(_) => e is Connected,
        Stage::Flushing(_, _) => e is Flushed,
        Stage::Polling(_) => e is Polled,
        Stage::ReadingChunk(_) => match e {
            CaptureEventModel::Chunk(Some(p)) => p.len() == CHUNK_PACKET_LEN,
            CaptureEventModel::Chunk(None) => true,
            _ => false,
        },
        Stage::AwaitingResponse(_) => e is Response,
        Stage::MicPause(_) | Stage::Notifying(_) | Stage::DisabledPause | Stage::Closing(_)
        | Stage::BackingOff => e is Done,
        _ => e is Wrote,
    }
}

/// The well-formedness of a capture state.
pub open spec fn capture_wf(s: CaptureState) -> bool {
    &&& s.room.len() <= u32::MAX
    &&& stage_valid(s.stage)
    &&& is_sending(s.stage) ==> s.sent < s.pending.len()
    &&& s.stage == Stage::SendingChunk(Session::PushToTalk) ==> s.packet.len() == CHUNK_PACKET_LEN
}

/// The room a session announces in its handshake.
pub open spec fn session_room(s: CaptureState, session: Session) -> Seq<u8> {
    match session {
        Session::WakeWord => s.room,
        Session::PushToTalk => oneshot_room(),
        Session::Intercom => intercom_room(),
    }
}

/// Moves to `stage` and asks for `a`.
pub open spec fn goto(s: CaptureState, stage: Stage, a: CaptureActionModel) -> (
    CaptureState,
    CaptureActionModel,
) {
    (CaptureState { stage, ..s }, a)
}

/// Starts writing `bytes` in `stage`.
pub open spec fn send(s: CaptureState, stage: Stage, bytes: Seq<u8>) -> (
    CaptureState,
    CaptureActionModel,
) {
    (CaptureState { stage, pending: bytes, sent: 0, ..s }, CaptureActionModel::Write(bytes))
}

/// What follows a write that went through (`ok`) or failed.
pub open spec fn after_write(s: CaptureState, ok: bool) -> (CaptureState, CaptureActionModel) {
    match s.stage {
        Stage::SendingLength(Session::WakeWord) => if !ok {
            goto(s, Stage::Flushing(Session::WakeWord, false), CaptureActionModel::Flush)
        } else if s.room.len() > 0 {
            send(s, Stage::SendingRoom(Session::WakeWord), s.room)
        } else {
            goto(s, Stage::Flushing(Session::WakeWord, true), CaptureActionModel::Flush)
        },
        Stage::SendingRoom(Session::WakeWord) => goto(
            s,
            Stage::Flushing(Session::WakeWord, ok),
            CaptureActionModel::Flush,
        ),
        Stage::SendingLength(Session::PushToTalk) => if ok {
            send(s, Stage::SendingRoom(Session::PushToTalk), oneshot_room())
        } else {
            goto(s, Stage::Closing(false), CaptureActionModel::Close)
        },
        Stage::SendingRoom(Session::PushToTalk) => if ok {
            send(s, Stage::SendingStart, seq![PTT_START])
        } else {
            goto(s, Stage::Closing(false), CaptureActionModel::Close)
        },
        Stage::SendingStart => if ok {
            goto(s, Stage::ReadingChunk(Session::PushToTalk), CaptureActionModel::ReadChunk)
        } else {
            goto(s, Stage::Closing(false), CaptureActionModel::Close)
        },
        Stage::SendingLength(Session::Intercom) => if ok {
            send(s, Stage::SendingRoom(Session::Intercom), intercom_room())
        } else {
            goto(s, Stage::Flushing(Session::Intercom, false), CaptureActionModel::Flush)
        },
        Stage::SendingRoom(Session::Intercom) => goto(
            s,
            Stage::Flushing(Session::Intercom, ok),
            CaptureActionModel::Flush,
        ),
        Stage::SendingChunk(Session::WakeWord) => if ok {
            goto(
                s,
                Stage::AwaitingResponse(Session::WakeWord),
                CaptureActionModel::ReadResponse { timeout_ms: Some(RESPONSE_POLL_MS) },
            )
        } else {
            goto(s, Stage::Closing(true), CaptureActionModel::Close)
        },
        Stage::SendingChunk(Session::PushToTalk) => if ok {
            send(s, Stage::SendingSamples, s.packet.skip(4))
        } else {
            send(s, Stage::SendingEnd, seq![PTT_END])
        },
        Stage::SendingSamples => if ok {
            goto(s, Stage::Polling(Session::PushToTalk), CaptureActionModel::PollCommand)
        } else {
            send(s, Stage::SendingEnd, seq![PTT_END])
        },
        Stage::SendingChunk(Session::Intercom) => if ok {
            goto(s, Stage::Polling(Session::Intercom), CaptureActionModel::PollCommand)
        } else {
            goto(s, Stage::Closing(false), CaptureActionModel::Close)
        },
        _ => goto(
            s,
            Stage::AwaitingResponse(Session::PushToTalk),
            CaptureActionModel::ReadResponse { timeout_ms: None },
        ),
    }
}

/// The wake-word stream's reaction to a status byte.
pub open spec fn wake_word_response(s: CaptureState, byte: u8) -> (CaptureState, CaptureActionModel) {
    match spec_server_event(byte) {
        ServerEvent::WakeWordDetected => goto(
            s,
            Stage::Notifying(Session::WakeWord),
            CaptureActionModel::Notify(Notification::WakeWordDetected),
        ),
        ServerEvent::Thinking => goto(
            CaptureState { timing: true, ..s },
            Stage::Notifying(Session::WakeWord),
            CaptureActionModel::Notify(Notification::Thinking),
        ),
        ServerEvent::Executed => goto(
            CaptureState { timing: false, ..s },
            Stage::Notifying(Session::WakeWord),
            CaptureActionModel::Notify(Notification::Executed { timed: s.timing }),
        ),
        ServerEvent::Failed => goto(
            CaptureState { timing: false, ..s },
            Stage::Notifying(Session::WakeWord),
            CaptureActionModel::Notify(Notification::Failed { timed: s.timing }),
        ),
        ServerEvent::Unknown(_) => goto(
            s,
            Stage::Polling(Session::WakeWord),
            CaptureActionModel::PollCommand,
        ),
    }
}

/// One transition of the microphone task.
pub open spec fn capture_step(s: CaptureState, e: CaptureEventModel) -> (
    CaptureState,
    CaptureActionModel,
) {
    match s.stage {
        Stage::Idle => match e {
            CaptureEventModel::Command(VoiceCommand::Enabled) => goto(
                s,
                Stage::Connecting(Session::WakeWord),
                CaptureActionModel::Connect { timeout_secs: STREAM_SOCKET_TIMEOUT_SECS },
            ),
            CaptureEventModel::Command(VoiceCommand::Pushed) => goto(
                s,
                Stage::Connecting(Session::PushToTalk),
                CaptureActionModel::Connect { timeout_secs: PTT_SOCKET_TIMEOUT_SECS },
            ),
            CaptureEventModel::Command(VoiceCommand::Intercom) => goto(
                s,
                Stage::Connecting(Session::Intercom),
                CaptureActionModel::Connect { timeout_secs: STREAM_SOCKET_TIMEOUT_SECS },
            ),
            _ => goto(s, Stage::Idle, CaptureActionModel::WaitCommand),
        },
        Stage::Connecting(session) => match e {
            CaptureEventModel::Connected(true) => send(
                s,
                Stage::SendingLength(session),
                le32(session_room(s, session).len() as u32),
            ),
            _ => match session {
                Session::WakeWord => goto(
                    s,
                    Stage::BackingOff,
                    CaptureActionModel::Sleep { millis: RECONNECT_DELAY_MS },
                ),
                Session::PushToTalk => goto(s, Stage::Idle, CaptureActionModel::WaitCommand),
                Session::Intercom => goto(
                    s,
                    Stage::BackingOff,
                    CaptureActionModel::Sleep { millis: INTERCOM_RETRY_DELAY_MS },
                ),
            },
        },
        Stage::Flushing(session, ok) => match e {
            CaptureEventModel::Flushed(f) => if session != Session::WakeWord {
                goto(s, Stage::Polling(session), CaptureActionModel::PollCommand)
            } else if ok && f {
                goto(
                    CaptureState { timing: false, ..s },
                    Stage::Polling(Session::WakeWord),
                    CaptureActionModel::PollCommand,
                )
            } else {
                goto(s, Stage::Closing(true), CaptureActionModel::Close)
            },
            _ => goto(s, Stage::Closing(true), CaptureActionModel::Close),
        },
        Stage::Polling(session) => {
            let cmd = match e {
                CaptureEventModel::Polled(c) => c,
                _ => None,
            };
            match session {
                Session::WakeWord => if cmd == Some(VoiceCommand::Disabled) {
                    goto(s, Stage::DisabledPause, CaptureActionModel::Sleep { millis: SHORT_PAUSE_MS })
                } else {
                    goto(s, Stage::ReadingChunk(session), CaptureActionModel::ReadChunk)
                },
                Session::PushToTalk => if cmd == Some(VoiceCommand::Released) {
                    send(s, Stage::SendingEnd, seq![PTT_END])
                } else {
                    goto(s, Stage::ReadingChunk(session), CaptureActionModel::ReadChunk)
                },
                Session::Intercom => if cmd == Some(VoiceCommand::Disabled) {
                    goto(s, Stage::Closing(false), CaptureActionModel::Close)
                } else {
                    goto(s, Stage::ReadingChunk(session), CaptureActionModel::ReadChunk)
                },
            }
        },
        Stage::ReadingChunk(session) => match e {
            CaptureEventModel::Chunk(Some(p)) => if session == Session::PushToTalk {
                send(
                    CaptureState { packet: p, ..s },
                    Stage::SendingChunk(session),
                    ptt_header_bytes(OWW_MODEL_CHUNK_SIZE as u32),
                )
            } else {
                send(s, Stage::SendingChunk(session), p)
            },
            _ => if session == Session::PushToTalk {
                send(s, Stage::SendingEnd, seq![PTT_END])
            } else {
                goto(s, Stage::MicPause(session), CaptureActionModel::Sleep { millis: SHORT_PAUSE_MS })
            },
        },
        Stage::MicPause(session) => goto(s, Stage::Polling(session), CaptureActionModel::PollCommand),
        Stage::AwaitingResponse(session) => {
            let r = match e {
                CaptureEventModel::Response(r) => r,
                _ => ReadOutcome::Failed,
            };
            if session == Session::PushToTalk {
                match r {
                    ReadOutcome::Byte(b) => if b == 3 {
                        goto(
                            s,
                            Stage::Notifying(session),
                            CaptureActionModel::Notify(Notification::Executed { timed: false }),
                        )
                    } else {
                        goto(
                            s,
                            Stage::Notifying(session),
                            CaptureActionModel::Notify(Notification::Failed { timed: false }),
                        )
                    },
                    _ => goto(s, Stage::Closing(false), CaptureActionModel::Close),
                }
            } else {
                match r {
                    ReadOutcome::Byte(b) => wake_word_response(s, b),
                    ReadOutcome::Failed => goto(s, Stage::Closing(true), CaptureActionModel::Close),
                    _ => goto(s, Stage::Polling(session), CaptureActionModel::PollCommand),
                }
            }
        },
        Stage::Notifying(session) => if session == Session::PushToTalk {
            goto(s, Stage::Closing(false), CaptureActionModel::Close)
        } else {
            goto(s, Stage::Polling(session), CaptureActionModel::PollCommand)
        },
        Stage::DisabledPause => goto(s, Stage::Closing(false), CaptureActionModel::Close),
        Stage::Closing(backoff) => if backoff {
            goto(s, Stage::BackingOff, CaptureActionModel::Sleep { millis: RECONNECT_DELAY_MS })
        } else {
            goto(s, Stage::Idle, CaptureActionModel::WaitCommand)
        },
        Stage::BackingOff => goto(s, Stage::Idle, CaptureActionModel::WaitCommand),
        _ => match e {
            CaptureEventModel::Wrote(Some(n)) => if n >= s.pending.len() - s.sent {
                after_write(s, true)
            } else {
                (
                    CaptureState { sent: (s.sent + n) as nat, ..s },
                    CaptureActionModel::Write(s.pending.skip(s.sent + n)),
                )
            },
            _ => after_write(s, false),
        },
    }
}

/// The bytes of `v` from `from` on.
fn copy_from(v: &Vec<u8>, from: usize) -> (r: Vec<u8>)
    requires
        from <= v@.len(),
    ensures
        r@ == v@.skip(from as int),
{
    let mut r: Vec<u8> = Vec::new();
    let mut i = from;
    while i < v.len()
        invariant
            from <= i <= v@.len(),
            r@ == v@.subrange(from as int, i as int),
        decreases v@.len() - i,
    {
        r.push(v[i]);
        i = i + 1;
        assert(r@ =~= v@.subrange(from as int, i as int));
    }
    assert(r@ =~= v@.skip(from as int));
    r
}

/// The decisions of the microphone task.
pub struct CaptureTask {
    room: Vec<u8>,
    stage: Stage,
    pending: Vec<u8>,
    sent: usize,
    timing: bool,
    packet: Vec<u8>,
}

impl View for CaptureTask {
    type V = CaptureState;

    closed spec fn view(&self) -> CaptureState {
        CaptureState {
            room: self.room@,
            stage: self.stage,
            pending: self.pending@,
            sent: self.sent as nat,
            timing: self.timing,
            packet: self.packet@,
        }
    }
}

impl CaptureTask {
    /// An idle task that announces `room` in wake-word sessions; it first
    /// waits for a command.
    pub fn new(room: Vec<u8>) -> (t: Self)
        requires
            room@.len() <= u32::MAX,
        ensures
            t@.room == room@,
            t@.stage == Stage::Idle,
            !t@.timing,
            capture_wf(t@),
    {
        CaptureTask {
            room,
            stage: Stage::Idle,
            pending: Vec::new(),
            sent: 0,
            timing: false,
            packet: Vec::new(),
        }
    }

    /// The current stage.
    pub fn stage(&self) -> (s: Stage)
        ensures
            s == self@.stage,
    {
        self.stage
    }

    /// Whether `event` is what the current stage waits for.
    pub fn accepts(&self, event: &CaptureEvent) -> (b: bool)
        ensures
            b == accepts_event(self@.stage, event@),
    {
        match self.stage {
            Stage::Idle => matches!(event, CaptureEvent::Command(_)),
            Stage::Connecting(_) => matches!(event, CaptureEvent::Connected(_)),
            Stage::Flushing(_, _) => matches!(event, CaptureEvent::Flushed(_)),
            Stage::Polling(_) => matches!(event, CaptureEvent::Polled(_)),
            Stage::ReadingChunk(_) => match event {
                CaptureEvent::Chunk(Some(p)) => p.len() == CHUNK_PACKET_LEN,
                CaptureEvent::Chunk(None) => true,
                _ => false,
            },
            Stage::AwaitingResponse(_) => matches!(event, CaptureEvent::Response(_)),
            Stage::MicPause(_) | Stage::Notifying(_) | Stage::DisabledPause | Stage::Closing(_)
            | Stage::BackingOff => matches!(event, CaptureEvent::Done),
            _ => matches!(event, CaptureEvent::Wrote(_)),
        }
    }

    fn goto(&mut self, stage: Stage, a: CaptureAction) -> (r: CaptureAction)
        ensures
            final(self)@ == (CaptureState { stage, ..old(self)@ }),
            r@ == a@,
    {
        self.stage = stage;
        a
    }

    fn send(&mut self, stage: Stage, bytes: Vec<u8>) -> (r: CaptureAction)
        ensures
            final(self)@ == (CaptureState { stage, pending: bytes@, sent: 0, ..old(self)@ }),
            r@ == CaptureActionModel::Write(bytes@),
    {
        let out = copy_from(&bytes, 0);
        assert(bytes@.skip(0) =~= bytes@);
        self.stage = stage;
        self.pending = bytes;
        self.sent = 0;
        CaptureAction::Write(out)
    }

    fn after_write(&mut self, ok: bool) -> (r: CaptureAction)
        requires
            is_sending(old(self)@.stage),
            stage_valid(old(self)@.stage),
            old(self)@.room.len() <= u32::MAX,
            old(self)@.stage == Stage::SendingChunk(Session::PushToTalk) ==> old(self)@.packet.len()
                == CHUNK_PACKET_LEN,
        ensures
            (final(self)@, r@) == after_write(old(self)@, ok),
    {
        match self.stage {
            Stage::SendingLength(Session::WakeWord) => if !ok {
                self.goto(Stage::Flushing(Session::WakeWord, false), CaptureAction::Flush)
            } else if self.room.len() > 0 {
                let room = copy_from(&self.room, 0);
                assert(self.room@.skip(0) =~= self.room@);
                self.send(Stage::SendingRoom(Session::WakeWord), room)
            } else {
                self.goto(Stage::Flushing(Session::WakeWord, true), CaptureAction::Flush)
            },
            Stage::SendingRoom(Session::WakeWord) => self.goto(
                Stage::Flushing(Session::WakeWord, ok),
                CaptureAction::Flush,
            ),
            Stage::SendingLength(Session::PushToTalk) => if ok {
                self.send(Stage::SendingRoom(Session::PushToTalk), oneshot_room_bytes())
            } else {
                self.goto(Stage::Closing(false), CaptureAction::Close)
            },
            Stage::SendingRoom(Session::PushToTalk) => if ok {
                let mut start: Vec<u8> = Vec::new();
                start.push(PTT_START);
                assert(start@ =~= seq![PTT_START]);
                self.send(Stage::SendingStart, start)
            } else {
                self.goto(Stage::Closing(false), CaptureAction::Close)
            },
            Stage::SendingStart => if ok {
                self.goto(Stage::ReadingChunk(Session::PushToTalk), CaptureAction::ReadChunk)
            } else {
                self.goto(Stage::Closing(false), CaptureAction::Close)
            },
            Stage::SendingLength(Session::Intercom) => if ok {
                self.send(Stage::SendingRoom(Session::Intercom), intercom_room_bytes())
            } else {
                self.goto(Stage::Flushing(Session::Intercom, false), CaptureAction::Flush)
            },
            Stage::SendingRoom(Session::Intercom) => self.goto(
                Stage::Flushing(Session::Intercom, ok),
                CaptureAction::Flush,
            ),
            Stage::SendingChunk(Session::WakeWord) => if ok {
                self.goto(
                    Stage::AwaitingResponse(Session::WakeWord),
                    CaptureAction::ReadResponse { timeout_ms: Some(RESPONSE_POLL_MS) },
                )
            } else {
                self.goto(Stage::Closing(true), CaptureAction::Close)
            },
            Stage::SendingChunk(Session::PushToTalk) => if ok {
                let samples = copy_from(&self.packet, 4);
                self.send(Stage::SendingSamples, samples)
            } else {
                let mut end: Vec<u8> = Vec::new();
                end.push(PTT_END);
                assert(end@ =~= seq![PTT_END]);
                self.send(Stage::SendingEnd, end)
            },
            Stage::SendingSamples => if ok {
                self.goto(Stage::Polling(Session::PushToTalk), CaptureAction::PollCommand)
            } else {
                let mut end: Vec<u8> = Vec::new();
                end.push(PTT_END);
                assert(end@ =~= seq![PTT_END]);
                self.send(Stage::SendingEnd, end)
            },
            Stage::SendingChunk(Session::Intercom) => if ok {
                self.goto(Stage::Polling(Session::Intercom), CaptureAction::PollCommand)
            } else {
                self.goto(Stage::Closing(false), CaptureAction::Close)
            },
            _ => self.goto(
                Stage::AwaitingResponse(Session::PushToTalk),
                CaptureAction::ReadResponse { timeout_ms: None },
            ),
        }
    }

    fn wake_word_response(&mut self, byte: u8) -> (r: CaptureAction)
        ensures
            (final(self)@, r@) == wake_word_response(old(self)@, byte),
    {
        match server_event(byte) {
            ServerEvent::WakeWordDetected => self.goto(
                Stage::Notifying(Session::WakeWord),
                CaptureAction::Notify(Notification::WakeWordDetected),
            ),
            ServerEvent::Thinking => {
                self.timing = true;
                self.goto(
                    Stage::Notifying(Session::WakeWord),
                    CaptureAction::Notify(Notification::Thinking),
                )
            },
            ServerEvent::Executed => {
                let timed = self.timing;
                self.timing = false;
                self.goto(
                    Stage::Notifying(Session::WakeWord),
                    CaptureAction::Notify(Notification::Executed { timed }),
                )
            },
            ServerEvent::Failed => {
                let timed = self.timing;
                self.timing = false;
                self.goto(
                    Stage::Notifying(Session::WakeWord),
                    CaptureAction::Notify(Notification::Failed { timed }),
                )
            },
            ServerEvent::Unknown(_) => self.goto(
                Stage::Polling(Session::WakeWord),
                CaptureAction::PollCommand,
            ),
        }
    }

    /// Performs one transition: takes the outcome of the last action and
    /// returns the next action.
    pub fn step(&mut self, event: CaptureEvent) -> (a: CaptureAction)
        requires
            capture_wf(old(self)@),
            accepts_event(old(self)@.stage, event@),
        ensures
            (final(self)@, a@) == capture_step(old(self)@, event@),
            capture_wf(final(self)@),
    {
        match self.stage {
            Stage::Idle => match event {
                CaptureEvent::Command(VoiceCommand::Enabled) => self.goto(
                    Stage::Connecting(Session::WakeWord),
                    CaptureAction::Connect { timeout_secs: STREAM_SOCKET_TIMEOUT_SECS },
                ),
                CaptureEvent::Command(VoiceCommand::Pushed) => self.goto(
                    Stage::Connecting(Session::PushToTalk),
                    CaptureAction::Connect { timeout_secs: PTT_SOCKET_TIMEOUT_SECS },
                ),
                CaptureEvent::Command(VoiceCommand::Intercom) => self.goto(
                    Stage::Connecting(Session::Intercom),
                    CaptureAction::Connect { timeout_secs: STREAM_SOCKET_TIMEOUT_SECS },
                ),
                _ => self.goto(Stage::Idle, CaptureAction::WaitCommand),
            },
            Stage::Connecting(session) => match event {
                CaptureEvent::Connected(true) => {
                    let len: usize = match session {
                        Session::WakeWord => self.room.len(),
                        Session::PushToTalk => 7,
                        Session::Intercom => 8,
                    };
                    self.send(Stage::SendingLength(session), le32_bytes(len as u32))
                },
                _ => match session {
                    Session::WakeWord => self.goto(
                        Stage::BackingOff,
                        CaptureAction::Sleep { millis: RECONNECT_DELAY_MS },
                    ),
                    Session::PushToTalk => self.goto(Stage::Idle, CaptureAction::WaitCommand),
                    Session::Intercom => self.goto(
                        Stage::BackingOff,
                        CaptureAction::Sleep { millis: INTERCOM_RETRY_DELAY_MS },
                    ),
                },
            },
            Stage::Flushing(session, ok) => match event {
                CaptureEvent::Flushed(f) => if session != Session::WakeWord {
                    self.goto(Stage::Polling(session), CaptureAction::PollCommand)
                } else if ok && f {
                    self.timing = false;
                    self.goto(Stage::Polling(Session::WakeWord), CaptureAction::PollCommand)
                } else {
                    self.goto(Stage::Closing(true), CaptureAction::Close)
                },
                _ => self.goto(Stage::Closing(true), CaptureAction::Close),
            },
            Stage::Polling(session) => {
                let cmd = match event {
                    CaptureEvent::Polled(c) => c,
                    _ => None,
                };
                match session {
                    Session::WakeWord => if cmd == Some(VoiceCommand::Disabled) {
                        self.goto(Stage::DisabledPause, CaptureAction::Sleep { millis: SHORT_PAUSE_MS })
                    } else {
                        self.goto(Stage::ReadingChunk(session), CaptureAction::ReadChunk)
                    },
                    Session::PushToTalk => if cmd == Some(VoiceCommand::Released) {
                        let mut end: Vec<u8> = Vec::new();
                        end.push(PTT_END);
                        assert(end@ =~= seq![PTT_END]);
                        self.send(Stage::SendingEnd, end)
                    } else {
                        self.goto(Stage::ReadingChunk(session), CaptureAction::ReadChunk)
                    },
                    Session::Intercom => if cmd == Some(VoiceCommand::Disabled) {
                        self.goto(Stage::Closing(false), CaptureAction::Close)
                    } else {
                        self.goto(Stage::ReadingChunk(session), CaptureAction::ReadChunk)
                    },
                }
            },
            Stage::ReadingChunk(session) => match event {
                CaptureEvent::Chunk(Some(p)) => if session == Session::PushToTalk {
                    self.packet = p;
                    self.send(Stage::SendingChunk(session), ptt_header(OWW_MODEL_CHUNK_SIZE as u32))
                } else {
                    self.send(Stage::SendingChunk(session), p)
                },
                _ => if session == Session::PushToTalk {
                    let mut end: Vec<u8> = Vec::new();
                    end.push(PTT_END);
                    assert(end@ =~= seq![PTT_END]);
                    self.send(Stage::SendingEnd, end)
                } else {
                    self.goto(Stage::MicPause(session), CaptureAction::Sleep { millis: SHORT_PAUSE_MS })
                },
            },
            Stage::MicPause(session) => self.goto(Stage::Polling(session), CaptureAction::PollCommand),
            Stage::AwaitingResponse(session) => {
                let r = match event {
                    CaptureEvent::Response(r) => r,
                    _ => ReadOutcome::Failed,
                };
                if session == Session::PushToTalk {
                    match r {
                        ReadOutcome::Byte(b) => if b == 3 {
                            self.goto(
                                Stage::Notifying(session),
                                CaptureAction::Notify(Notification::Executed { timed: false }),
                            )
                        } else {
                            self.goto(
                                Stage::Notifying(session),
                                CaptureAction::Notify(Notification::Failed { timed: false }),
                            )
                        },
                        _ => self.goto(Stage::Closing(false), CaptureAction::Close),
                    }
                } else {
                    match r {
                        ReadOutcome::Byte(b) => self.wake_word_response(b),
                        ReadOutcome::Failed => self.goto(Stage::Closing(true), CaptureAction::Close),
                        _ => self.goto(Stage::Polling(session), CaptureAction::PollCommand),
                    }
                }
            },
            Stage::Notifying(session) => if session == Session::PushToTalk {
                self.goto(Stage::Closing(false), CaptureAction::Close)
            } else {
                self.goto(Stage::Polling(session), CaptureAction::PollCommand)
            },
            Stage::DisabledPause => self.goto(Stage::Closing(false), CaptureAction::Close),
            Stage::Closing(backoff) => if backoff {
                self.goto(Stage::BackingOff, CaptureAction::Sleep { millis: RECONNECT_DELAY_MS })
            } else {
                self.goto(Stage::Idle, CaptureAction::WaitCommand)
            },
            Stage::BackingOff => self.goto(Stage::Idle, CaptureAction::WaitCommand),
            _ => match event {
                CaptureEvent::Wrote(Some(n)) => if n >= self.pending.len() - self.sent {
                    self.after_write(true)
                } else {
                    self.sent = self.sent + n;
                    let rest = copy_from(&self.pending, self.sent);
                    CaptureAction::Write(rest)
                },
                _ => self.after_write(false),
            },
        }
    }
}


/// The verdict on an uploaded utterance: `0x03` means executed; any other
/// byte, or no single byte at all, means failed.
pub open spec fn spec_upload_verdict(r: ReadOutcome) -> Notification {
    if r == ReadOutcome::Byte(3) {
        Notification::Executed { timed: false }
    } else {
        Notification::Failed { timed: false }
    }
}

/// The callback that answers the server's reply to an uploaded utterance.
pub fn upload_verdict(r: ReadOutcome) -> (n: Notification)
    ensures
        n == spec_upload_verdict(r),
{
    if r == ReadOutcome::Byte(3) {
        Notification::Executed { timed: false }
    } else {
        Notification::Failed { timed: false }
    }
}

/// Enabling wake-word mode connects with the stream timeout, then sends the
/// room name's length (little-endian) followed by the room name, then
/// flushes.
pub proof fn law_wake_word_handshake(s: CaptureState)
    requires
        capture_wf(s),
        s.stage == Stage::Idle,
    ensures
        ({
            let (s1, a1) = capture_step(s, CaptureEventModel::Command(VoiceCommand::Enabled));
            let (s2, a2) = capture_step(s1, CaptureEventModel::Connected(true));
            let (s3, a3) = capture_step(s2, CaptureEventModel::Wrote(Some(4)));
            let (s4, a4) = capture_step(s3, CaptureEventModel::Wrote(Some(s.room.len() as usize)));
            &&& a1 == CaptureActionModel::Connect { timeout_secs: STREAM_SOCKET_TIMEOUT_SECS }
            &&& a2 == CaptureActionModel::Write(le32(s.room.len() as u32))
            &&& s.room.len() > 0 ==> a3 == CaptureActionModel::Write(s.room)
                && a4 == CaptureActionModel::Flush
            &&& s.room.len() == 0 ==> a3 == CaptureActionModel::Flush
        }),
{
}

/// A write the socket only partly took is resumed with exactly the bytes it
/// did not take; once every byte is taken the session moves on.
pub proof fn law_partial_write_resumes(s: CaptureState, n: usize)
    requires
        capture_wf(s),
        is_sending(s.stage),
    ensures
        n < s.pending.len() - s.sent ==> {
            let (s1, a1) = capture_step(s, CaptureEventModel::Wrote(Some(n)));
            &&& s1.stage == s.stage
            &&& s1.pending == s.pending
            &&& s1.sent == s.sent + n
            &&& a1 == CaptureActionModel::Write(s.pending.skip(s.sent + n))
            &&& s.pending.subrange(s.sent as int, s.sent + n) + s.pending.skip(s.sent + n)
                == s.pending.skip(s.sent as int)
        },
        n >= s.pending.len() - s.sent ==> capture_step(s, CaptureEventModel::Wrote(Some(n)))
            == after_write(s, true),
        capture_step(s, CaptureEventModel::Wrote(None)) == after_write(s, false),
{
    if n < s.pending.len() - s.sent {
        assert(s.pending.subrange(s.sent as int, s.sent + n) + s.pending.skip(s.sent + n)
            =~= s.pending.skip(s.sent as int));
    }
}

/// The task leaves a connected session only by closing the socket, and
/// enters one only when a connection attempt succeeds.
pub proof fn law_socket_is_closed(s: CaptureState, e: CaptureEventModel)
    requires
        capture_wf(s),
        accepts_event(s.stage, e),
    ensures
        ({
            let (s1, a1) = capture_step(s, e);
            &&& socket_open(s.stage) && !socket_open(s1.stage) ==> a1 == CaptureActionModel::Close
            &&& !socket_open(s.stage) && socket_open(s1.stage) ==> s.stage is Connecting
                && e == CaptureEventModel::Connected(true)
        }),
{
}

/// While idle, `Released` and `Disabled` are ignored.
pub proof fn law_idle_ignores_stop_commands(s: CaptureState, c: VoiceCommand)
    requires
        capture_wf(s),
        s.stage == Stage::Idle,
        c == VoiceCommand::Released || c == VoiceCommand::Disabled,
    ensures
        capture_step(s, CaptureEventModel::Command(c)) == (s, CaptureActionModel::WaitCommand),
{
    assert(CaptureState { stage: Stage::Idle, ..s } == s);
}

/// In wake-word mode the server's status bytes select the callback:
/// `0x01` detected, `0x02` thinking, `0x03` executed, `0x04` failed; any other
/// byte is ignored and streaming goes on.
pub proof fn law_status_bytes_select_callbacks(s: CaptureState, b: u8)
    requires
        capture_wf(s),
        s.stage == Stage::AwaitingResponse(Session::WakeWord),
    ensures
        ({
            let (s1, a1) = capture_step(s, CaptureEventModel::Response(ReadOutcome::Byte(b)));
            &&& b == 1 ==> a1 == CaptureActionModel::Notify(Notification::WakeWordDetected)
            &&& b == 2 ==> a1 == CaptureActionModel::Notify(Notification::Thinking)
            &&& b == 3 ==> a1 == CaptureActionModel::Notify(Notification::Executed { timed: s.timing })
            &&& b == 4 ==> a1 == CaptureActionModel::Notify(Notification::Failed { timed: s.timing })
            &&& (b < 1 || b > 4) ==> a1 == CaptureActionModel::PollCommand
                && s1.stage == Stage::Polling(Session::WakeWord)
        }),
{
}

/// Command timing: `Thinking` starts the timer, a verdict carries the
/// elapsed time exactly when the timer runs and stops it, a new wake-word stream starts with the timer stopped, and no
/// other step touches it.
pub proof fn law_command_timing(s: CaptureState, e: CaptureEventModel)
    requires
        capture_wf(s),
        accepts_event(s.stage, e),
    ensures
        ({
            let (s1, a1) = capture_step(s, e);
            let thinking = s.stage == Stage::AwaitingResponse(Session::WakeWord)
                && e == CaptureEventModel::Response(ReadOutcome::Byte(2));
            let verdict = s.stage == Stage::AwaitingResponse(Session::WakeWord)
                && (e == CaptureEventModel::Response(ReadOutcome::Byte(3))
                || e == CaptureEventModel::Response(ReadOutcome::Byte(4)));
            let stream_start = s.stage is Flushing && s1.stage == Stage::Polling(Session::WakeWord);
            &&& thinking ==> s1.timing
            &&& verdict ==> !s1.timing && (a1 == CaptureActionModel::Notify(
                Notification::Executed { timed: s.timing },
            ) || a1 == CaptureActionModel::Notify(Notification::Failed { timed: s.timing }))
            &&& stream_start ==> !s1.timing
            &&& !thinking && !verdict && !stream_start ==> s1.timing == s.timing
        }),
{
}

/// Disabling wake-word mode while streaming pauses briefly, closes the
/// socket and returns to idle without the reconnect delay.
pub proof fn law_disable_stops_streaming(s: CaptureState)
    requires
        capture_wf(s),
        s.stage == Stage::Polling(Session::WakeWord),
    ensures
        ({
            let (s1, a1) = capture_step(s, CaptureEventModel::Polled(Some(VoiceCommand::Disabled)));
            let (s2, a2) = capture_step(s1, CaptureEventModel::Done);
            let (s3, a3) = capture_step(s2, CaptureEventModel::Done);
            &&& a1 == CaptureActionModel::Sleep { millis: SHORT_PAUSE_MS }
            &&& a2 == CaptureActionModel::Close
            &&& a3 == CaptureActionModel::WaitCommand
            &&& s3.stage == Stage::Idle
        }),
{
}

/// A push-to-talk session announces the `oneshot` room, sends the start
/// marker, then for each microphone packet a data header for
/// `OWW_MODEL_CHUNK_SIZE` samples followed by the packet's samples; on
/// release it sends the end marker, waits for the verdict without a
/// timeout, announces it without a duration, closes the socket and goes idle.
pub proof fn law_push_to_talk_session(s: CaptureState, p: Seq<u8>, verdict: u8)
    requires
        capture_wf(s),
        s.stage == Stage::Idle,
        p.len() == CHUNK_PACKET_LEN,
    ensures
        ({
            let (s1, a1) = capture_step(s, CaptureEventModel::Command(VoiceCommand::Pushed));
            let (s2, a2) = capture_step(s1, CaptureEventModel::Connected(true));
            let (s3, a3) = capture_step(s2, CaptureEventModel::Wrote(Some(4)));
            let (s4, a4) = capture_step(s3, CaptureEventModel::Wrote(Some(7)));
            let (s5, a5) = capture_step(s4, CaptureEventModel::Wrote(Some(1)));
            let (s6, a6) = capture_step(s5, CaptureEventModel::Chunk(Some(p)));
            let (s7, a7) = capture_step(s6, CaptureEventModel::Wrote(Some(5)));
            let (s8, a8) = capture_step(s7, CaptureEventModel::Wrote(Some((CHUNK_PACKET_LEN - 4) as usize)));
            let (s9, a9) = capture_step(s8, CaptureEventModel::Polled(Some(VoiceCommand::Released)));
            let (s10, a10) = capture_step(s9, CaptureEventModel::Wrote(Some(1)));
            let (s11, a11) = capture_step(s10, CaptureEventModel::Response(ReadOutcome::Byte(verdict)));
            let (s12, a12) = capture_step(s11, CaptureEventModel::Done);
            let (s13, a13) = capture_step(s12, CaptureEventModel::Done);
            &&& a1 == CaptureActionModel::Connect { timeout_secs: PTT_SOCKET_TIMEOUT_SECS }
            &&& a2 == CaptureActionModel::Write(le32(7))
            &&& a3 == CaptureActionModel::Write(oneshot_room())
            &&& a4 == CaptureActionModel::Write(seq![PTT_START])
            &&& a5 == CaptureActionModel::ReadChunk
            &&& a6 == CaptureActionModel::Write(ptt_header_bytes(OWW_MODEL_CHUNK_SIZE as u32))
            &&& a7 == CaptureActionModel::Write(p.skip(4))
            &&& a8 == CaptureActionModel::PollCommand
            &&& a9 == CaptureActionModel::Write(seq![PTT_END])
            &&& a10 == CaptureActionModel::ReadResponse { timeout_ms: None }
            &&& a11 == CaptureActionModel::Notify(spec_upload_verdict(ReadOutcome::Byte(verdict)))
            &&& a12 == CaptureActionModel::Close
            &&& a13 == CaptureActionModel::WaitCommand
            &&& s13.stage == Stage::Idle
        }),
{
}

/// While streaming (wake word or intercom), each microphone packet is sent
/// to the server unchanged; the wake-word stream then listens briefly for a
/// status byte, the intercom stream goes straight back to the microphone.
pub proof fn law_stream_sends_packets(s: CaptureState, p: Seq<u8>)
    requires
        capture_wf(s),
        s.stage == Stage::Polling(Session::WakeWord) || s.stage == Stage::Polling(Session::Intercom),
        p.len() == CHUNK_PACKET_LEN,
    ensures
        ({
            let (s1, a1) = capture_step(s, CaptureEventModel::Polled(None));
            let (s2, a2) = capture_step(s1, CaptureEventModel::Chunk(Some(p)));
            let (s3, a3) = capture_step(s2, CaptureEventModel::Wrote(Some(CHUNK_PACKET_LEN)));
            &&& a1 == CaptureActionModel::ReadChunk
            &&& a2 == CaptureActionModel::Write(p)
            &&& s.stage == Stage::Polling(Session::WakeWord) ==> a3 == (CaptureActionModel::ReadResponse {
                timeout_ms: Some(RESPONSE_POLL_MS),
            })
            &&& s.stage == Stage::Polling(Session::Intercom) ==> a3 == CaptureActionModel::PollCommand
        }),
{
}

/// The session a stage belongs to, if any.
pub open spec fn stage_session(stage: Stage) -> Option<Session> {
    match stage {
        Stage::Connecting(x) | Stage::SendingLength(x) | Stage::SendingRoom(x) | Stage::Flushing(x, _)
        | Stage::Polling(x) | Stage::ReadingChunk(x) | Stage::MicPause(x) | Stage::SendingChunk(x)
        | Stage::AwaitingResponse(x) | Stage::Notifying(x) => Some(x),
        Stage::SendingStart | Stage::SendingSamples | Stage::SendingEnd => Some(Session::PushToTalk),
        Stage::DisabledPause => Some(Session::WakeWord),
        _ => None,
    }
}

/// A running session goes on reading the microphone after every poll of the
/// command channel except the one command that ends it: `Released` for
/// push-to-talk (the button is still held otherwise), `Disabled` for wake
/// word and intercom. Other commands are dropped.
pub proof fn law_sessions_record_until_ended(s: CaptureState, c: Option<VoiceCommand>)
    requires
        capture_wf(s),
        s.stage is Polling,
    ensures
        ({
            let session = s.stage->Polling_0;
            let end = if session == Session::PushToTalk {
                VoiceCommand::Released
            } else {
                VoiceCommand::Disabled
            };
            let (s1, a1) = capture_step(s, CaptureEventModel::Polled(c));
            &&& c != Some(end) ==> s1 == (CaptureState { stage: Stage::ReadingChunk(session), ..s })
                && a1 == CaptureActionModel::ReadChunk
            &&& c == Some(end) ==> a1 != CaptureActionModel::ReadChunk
                && s1.stage != Stage::ReadingChunk(session)
        }),
{
}

/// A push-to-talk utterance is closed with the end marker only when the
/// button is released, the microphone fails, or a block of the utterance
/// could not be sent; and `Released` always leads to the end marker.
pub proof fn law_push_to_talk_ends_only_when_released(s: CaptureState, e: CaptureEventModel)
    requires
        capture_wf(s),
        accepts_event(s.stage, e),
    ensures
        ({
            let (s1, a1) = capture_step(s, e);
            &&& s.stage != Stage::SendingEnd && s1.stage == Stage::SendingEnd ==> {
                ||| s.stage == Stage::Polling(Session::PushToTalk) && e == CaptureEventModel::Polled(
                    Some(VoiceCommand::Released),
                )
                ||| s.stage == Stage::ReadingChunk(Session::PushToTalk) && e == CaptureEventModel::Chunk(None)
                ||| (s.stage == Stage::SendingChunk(Session::PushToTalk) || s.stage == Stage::SendingSamples)
                    && e == CaptureEventModel::Wrote(None)
            }
            &&& s.stage == Stage::Polling(Session::PushToTalk) && e == CaptureEventModel::Polled(
                Some(VoiceCommand::Released),
            ) ==> s1.stage == Stage::SendingEnd && a1 == CaptureActionModel::Write(seq![PTT_END])
        }),
{
}

/// An intercom session announces the `intercom` room, flushes, and then
/// streams every microphone packet unchanged, polling for commands between
/// packets, whether or not the flush succeeded.
pub proof fn law_intercom_session(s: CaptureState, p: Seq<u8>, flushed: bool)
    requires
        capture_wf(s),
        s.stage == Stage::Idle,
        p.len() == CHUNK_PACKET_LEN,
    ensures
        ({
            let (s1, a1) = capture_step(s, CaptureEventModel::Command(VoiceCommand::Intercom));
            let (s2, a2) = capture_step(s1, CaptureEventModel::Connected(true));
            let (s3, a3) = capture_step(s2, CaptureEventModel::Wrote(Some(4)));
            let (s4, a4) = capture_step(s3, CaptureEventModel::Wrote(Some(8)));
            let (s5, a5) = capture_step(s4, CaptureEventModel::Flushed(flushed));
            let (s6, a6) = capture_step(s5, CaptureEventModel::Polled(None));
            let (s7, a7) = capture_step(s6, CaptureEventModel::Chunk(Some(p)));
            let (s8, a8) = capture_step(s7, CaptureEventModel::Wrote(Some(CHUNK_PACKET_LEN)));
            &&& a1 == CaptureActionModel::Connect { timeout_secs: STREAM_SOCKET_TIMEOUT_SECS }
            &&& a2 == CaptureActionModel::Write(le32(8))
            &&& a3 == CaptureActionModel::Write(intercom_room())
            &&& a4 == CaptureActionModel::Flush
            &&& a5 == CaptureActionModel::PollCommand && s5.stage == Stage::Polling(Session::Intercom)
            &&& a6 == CaptureActionModel::ReadChunk
            &&& a7 == CaptureActionModel::Write(p)
            &&& a8 == CaptureActionModel::PollCommand && s8.stage == Stage::Polling(Session::Intercom)
        }),
{
}

/// When each session closes its socket. Intercom: only on `Disabled` or a
/// failed packet write. Wake word: only on a handshake that was not sent or
/// flushed in full, a failed packet write, a failed status read, or after
/// the pause that follows `Disabled`. Push-to-talk: only on a failed
/// handshake or start-marker write, a reply that is not one byte, or after
/// the verdict's callback.
pub proof fn law_when_sessions_close(s: CaptureState, e: CaptureEventModel)
    requires
        capture_wf(s),
        accepts_event(s.stage, e),
    ensures
        ({
            let a1 = capture_step(s, e).1;
            &&& stage_session(s.stage) == Some(Session::Intercom) ==> (a1 == CaptureActionModel::Close <==> {
                ||| s.stage == Stage::Polling(Session::Intercom) && e == CaptureEventModel::Polled(
                    Some(VoiceCommand::Disabled),
                )
                ||| s.stage == Stage::SendingChunk(Session::Intercom) && e == CaptureEventModel::Wrote(None)
            })
            &&& stage_session(s.stage) == Some(Session::WakeWord) ==> (a1 == CaptureActionModel::Close <==> {
                ||| s.stage is Flushing && !(s.stage->Flushing_1 && e == CaptureEventModel::Flushed(true))
                ||| s.stage == Stage::SendingChunk(Session::WakeWord) && e == CaptureEventModel::Wrote(None)
                ||| s.stage == Stage::AwaitingResponse(Session::WakeWord) && e == CaptureEventModel::Response(
                    ReadOutcome::Failed,
                )
                ||| s.stage == Stage::DisabledPause
            })
            &&& stage_session(s.stage) == Some(Session::PushToTalk) ==> (a1 == CaptureActionModel::Close <==> {
                ||| (s.stage == Stage::SendingLength(Session::PushToTalk) || s.stage == Stage::SendingRoom(
                    Session::PushToTalk,
                ) || s.stage == Stage::SendingStart) && e == CaptureEventModel::Wrote(None)
                ||| s.stage == Stage::AwaitingResponse(Session::PushToTalk) && !(e is Response
                    && e->Response_0 is Byte)
                ||| s.stage == Stage::Notifying(Session::PushToTalk)
            })
        }),
{
}

} // verus!
