//! Decisions of the network playback task, which accepts a TCP client and
//! routes the audio it sends into the playback pipe.
use vstd::prelude::*;
use crate::commands::StreamCommand;

verus! {

/// Socket timeout once a client is connected.
pub const CLIENT_TIMEOUT_SECS: u64 = 30;

/// A connection that sends nothing for this long is dropped.
pub const INACTIVITY_TIMEOUT_SECS: u64 = 5;

/// Pause after a failed accept.
pub const ACCEPT_RETRY_DELAY_US: u64 = 1_000_000;

/// Pause while the playback pipe is full.
pub const PIPE_FULL_PAUSE_US: u64 = 500;

/// Size of the socket read buffer.
pub const STREAM_READ_BUF: usize = 1024;

/// Outcome of waiting for a client while listening for commands.
#[derive(Clone, Copy, Debug, PartialEq, Eq, Structural)]
pub enum AcceptOutcome {
    Connected,
    Failed,
    Command(StreamCommand),
}

/// Outcome of waiting for audio while listening for commands.
#[derive(Clone, Copy, Debug, PartialEq, Eq, Structural)]
pub enum SocketRead {
    /// This many bytes arrived; zero means the client closed the connection.
    Data(usize),
    Failed,
    Command(StreamCommand),
    TimedOut,
}

/// Where the playback task stands.
#[derive(Clone, Copy, Debug, PartialEq, Eq, Structural)]
pub enum StreamStage {
    /// Waiting for a command.
    Idle,
    /// Waiting for the network to come up.
    Preparing,
    /// Waiting for a client.
    Accepting,
    /// Pausing after a failed accept.
    AcceptBackoff,
    /// Waiting for audio from the client.
    Reading,
    /// Handing `len` received bytes to the pipe; `written` of them are in.
    Routing { len: usize, written: usize },
    /// Pausing because the pipe is full.
    RoutePause { len: usize, written: usize },
    /// Closing the client connection; `stopped` when a `Stop` command ended
    /// it, so the task goes idle instead of waiting for the next client.
    Closing { stopped: bool },
}

/// What the caller hands back after performing an action.
#[derive(Clone, Copy, Debug, PartialEq, Eq, Structural)]
pub enum StreamEvent {
    Command(StreamCommand),
    /// The network is up.
    Ready,
    Accept(AcceptOutcome),
    Read(SocketRead),
    /// The pipe took this many bytes.
    Played(usize),
    /// A sleep or close finished.
    Done,
}

/// What the caller must do next.
#[derive(Clone, Copy, Debug, PartialEq, Eq, Structural)]
pub enum StreamAction {
    /// Block on the command channel.
    WaitCommand,
    /// Wait for the network link and configuration.
    PrepareNetwork,
    /// Open a socket and wait for a client or a command; a connected client
    /// gets this socket timeout.
    Accept { client_timeout_secs: u64 },
    /// Sleep.
    Sleep { micros: u64 },
    /// Wait for audio, a command, or the inactivity timeout.
    Read { idle_timeout_secs: u64 },
    /// Hand bytes `from..to` of the read buffer to the pipe once.
    Play { from: usize, to: usize },
    /// Close the client connection.
    Close,
}

/// The model of a [`StreamTask`]: its stage and whether media is playing.
pub struct StreamState {
    pub stage: StreamStage,
    pub media_playing: bool,
}

/// Stages in which a client connection is being served.
pub open spec fn serving(stage: StreamStage) -> bool {
    match stage {
        StreamStage::Reading | StreamStage::Routing { .. } | StreamStage::RoutePause { .. } => true,
        _ => false,
    }
}

/// The well-formedness of a playback state: media is flagged as playing
/// exactly while a client is served, and routing stays within what was read.
pub open spec fn stream_wf(s: StreamState) -> bool {
    &&& s.media_playing == serving(s.stage)
    &&& match s.stage {
        StreamStage::Routing { len, written } | StreamStage::RoutePause { len, written } =>
            written < len <= STREAM_READ_BUF,
        _ => true,
    }
}

/// Whether `e` is what `stage` waits for; reads fit the buffer and the pipe
/// never takes more than it was given.
pub open spec fn stream_accepts(stage: StreamStage, e: StreamEvent) -> bool {
    match stage {
        StreamStage::Idle => e is Command,
        StreamStage::Preparing => e is Ready,
        StreamStage::Accepting => e is Accept,
        StreamStage::Reading => match e {
            StreamEvent::Read(SocketRead::Data(n)) => n <= STREAM_READ_BUF,
            StreamEvent::Read(_) => true,
            _ => false,
        },
        StreamStage::Routing { len, written } => match e {
            StreamEvent::Played(w) => w <= len - written,
            _ => false,
        },
        _ => e is Done,
    }
}

pub open spec fn to(stage: StreamStage, media_playing: bool, a: StreamAction) -> (StreamState, StreamAction) {
    (StreamState { stage, media_playing }, a)
}

/// One transition of the playback task.
pub open spec fn stream_step(s: StreamState, e: StreamEvent) -> (StreamState, StreamAction) {
    let accept = StreamAction::Accept { client_timeout_secs: CLIENT_TIMEOUT_SECS };
    let read = StreamAction::Read { idle_timeout_secs: INACTIVITY_TIMEOUT_SECS };
    match s.stage {
        StreamStage::Idle => if e == StreamEvent::Command(StreamCommand::Start) {
            to(StreamStage::Preparing, s.media_playing, StreamAction::PrepareNetwork)
        } else {
            to(StreamStage::Idle, s.media_playing, StreamAction::WaitCommand)
        },
        StreamStage::Preparing => to(StreamStage::Accepting, false, accept),
        StreamStage::Accepting => match e {
            StreamEvent::Accept(AcceptOutcome::Connected) => to(StreamStage::Reading, true, read),
            StreamEvent::Accept(AcceptOutcome::Command(StreamCommand::Stop)) => to(
                StreamStage::Idle,
                s.media_playing,
                StreamAction::WaitCommand,
            ),
            StreamEvent::Accept(AcceptOutcome::Command(StreamCommand::Start)) => to(
                StreamStage::Accepting,
                s.media_playing,
                accept,
            ),
            _ => to(
                StreamStage::AcceptBackoff,
                s.media_playing,
                StreamAction::Sleep { micros: ACCEPT_RETRY_DELAY_US },
            ),
        },
        StreamStage::AcceptBackoff => to(StreamStage::Accepting, s.media_playing, accept),
        StreamStage::Reading => match e {
            StreamEvent::Read(SocketRead::Data(n)) => if n > 0 {
                to(StreamStage::Routing { len: n, written: 0 }, s.media_playing, StreamAction::Play { from: 0, to: n })
            } else {
                to(StreamStage::Closing { stopped: false }, false, StreamAction::Close)
            },
            StreamEvent::Read(SocketRead::Command(StreamCommand::Start)) => to(
                StreamStage::Reading,
                s.media_playing,
                read,
            ),
            StreamEvent::Read(SocketRead::Command(StreamCommand::Stop)) => to(
                StreamStage::Closing { stopped: true },
                false,
                StreamAction::Close,
            ),
            _ => to(StreamStage::Closing { stopped: false }, false, StreamAction::Close),
        },
        StreamStage::Routing { len, written } => {
            let w = match e {
                StreamEvent::Played(w) => w,
                _ => 0,
            };
            if w == 0 {
                to(
                    StreamStage::RoutePause { len, written },
                    s.media_playing,
                    StreamAction::Sleep { micros: PIPE_FULL_PAUSE_US },
                )
            } else if written + w < len {
                to(
                    StreamStage::Routing { len, written: (written + w) as usize },
                    s.media_playing,
                    StreamAction::Play { from: (written + w) as usize, to: len },
                )
            } else {
                to(StreamStage::Reading, s.media_playing, read)
            }
        },
        StreamStage::RoutePause { len, written } => to(
            StreamStage::Routing { len, written },
            s.media_playing,
            StreamAction::Play { from: written, to: len },
        ),
        StreamStage::Closing { stopped } => if stopped {
            to(StreamStage::Idle, s.media_playing, StreamAction::WaitCommand)
        } else {
            to(StreamStage::Accepting, s.media_playing, accept)
        },
    }
}

/// The decisions of the network playback task.
pub struct StreamTask {
    stage: StreamStage,
    media_playing: bool,
}

impl View for StreamTask {
    type V = StreamState;

    closed spec fn view(&self) -> StreamState {
        StreamState { stage: self.stage, media_playing: self.media_playing }
    }
}

impl StreamTask {
    /// An idle task; it first waits for a command.
    pub fn new() -> (t: Self)
        ensures
            t@.stage == StreamStage::Idle,
            !t@.media_playing,
            stream_wf(t@),
    {
        StreamTask { stage: StreamStage::Idle, media_playing: false }
    }

    /// The current stage.
    pub fn stage(&self) -> (s: StreamStage)
        ensures
            s == self@.stage,
    {
        self.stage
    }

    /// Whether a client's audio is being played.
    pub fn media_playing(&self) -> (b: bool)
        ensures
            b == self@.media_playing,
    {
        self.media_playing
    }

    /// Whether `event` is what the current stage waits for.
    pub fn accepts(&self, event: StreamEvent) -> (b: bool)
        ensures
            b == stream_accepts(self@.stage, event),
    {
        match self.stage {
            StreamStage::Idle => matches!(event, StreamEvent::Command(_)),
            StreamStage::Preparing => matches!(event, StreamEvent::Ready),
            StreamStage::Accepting => matches!(event, StreamEvent::Accept(_)),
            StreamStage::Reading => match event {
                StreamEvent::Read(SocketRead::Data(n)) => n <= STREAM_READ_BUF,
                StreamEvent::Read(_) => true,
                _ => false,
            },
            StreamStage::Routing { len, written } => match event {
                StreamEvent::Played(w) => written <= len && w <= len - written,
                _ => false,
            },
            _ => matches!(event, StreamEvent::Done),
        }
    }

    fn to(&mut self, stage: StreamStage, media_playing: bool, a: StreamAction) -> (r: StreamAction)
        ensures
            (final(self)@, r) == to(stage, media_playing, a),
    {
        self.stage = stage;
        self.media_playing = media_playing;
        a
    }

    /// Performs one transition: takes the outcome of the last action and
    /// returns the next action.
    pub fn step(&mut self, event: StreamEvent) -> (a: StreamAction)
        requires
            stream_wf(old(self)@),
            stream_accepts(old(self)@.stage, event),
        ensures
            (final(self)@, a) == stream_step(old(self)@, event),
            stream_wf(final(self)@),
    {
        let accept = StreamAction::Accept { client_timeout_secs: CLIENT_TIMEOUT_SECS };
        let read = StreamAction::Read { idle_timeout_secs: INACTIVITY_TIMEOUT_SECS };
        let playing = self.media_playing;
        match self.stage {
            StreamStage::Idle => if event == StreamEvent::Command(StreamCommand::Start) {
                self.to(StreamStage::Preparing, playing, StreamAction::PrepareNetwork)
            } else {
                self.to(StreamStage::Idle, playing, StreamAction::WaitCommand)
            },
            StreamStage::Preparing => self.to(StreamStage::Accepting, false, accept),
            StreamStage::Accepting => match event {
                StreamEvent::Accept(AcceptOutcome::Connected) => self.to(StreamStage::Reading, true, read),
                StreamEvent::Accept(AcceptOutcome::Command(StreamCommand::Stop)) => self.to(
                    StreamStage::Idle,
                    playing,
                    StreamAction::WaitCommand,
                ),
                StreamEvent::Accept(AcceptOutcome::Command(StreamCommand::Start)) => self.to(
                    StreamStage::Accepting,
                    playing,
                    accept,
                ),
                _ => self.to(
                    StreamStage::AcceptBackoff,
                    playing,
                    StreamAction::Sleep { micros: ACCEPT_RETRY_DELAY_US },
                ),
            },
            StreamStage::AcceptBackoff => self.to(StreamStage::Accepting, playing, accept),
            StreamStage::Reading => match event {
                StreamEvent::Read(SocketRead::Data(n)) => if n > 0 {
                    self.to(StreamStage::Routing { len: n, written: 0 }, playing, StreamAction::Play { from: 0, to: n })
                } else {
                    self.to(StreamStage::Closing { stopped: false }, false, StreamAction::Close)
                },
                StreamEvent::Read(SocketRead::Command(StreamCommand::Start)) => self.to(
                    StreamStage::Reading,
                    playing,
                    read,
                ),
                StreamEvent::Read(SocketRead::Command(StreamCommand::Stop)) => self.to(
                    StreamStage::Closing { stopped: true },
                    false,
                    StreamAction::Close,
                ),
                _ => self.to(StreamStage::Closing { stopped: false }, false, StreamAction::Close),
            },
            StreamStage::Routing { len, written } => {
                let w = match event {
                    StreamEvent::Played(w) => w,
                    _ => 0,
                };
                if w == 0 {
                    self.to(
                        StreamStage::RoutePause { len, written },
                        playing,
                        StreamAction::Sleep { micros: PIPE_FULL_PAUSE_US },
                    )
                } else if written + w < len {
                    self.to(
                        StreamStage::Routing { len, written: written + w },
                        playing,
                        StreamAction::Play { from: written + w, to: len },
                    )
                } else {
                    self.to(StreamStage::Reading, playing, read)
                }
            },
            StreamStage::RoutePause { len, written } => self.to(
                StreamStage::Routing { len, written },
                playing,
                StreamAction::Play { from: written, to: len },
            ),
            StreamStage::Closing { stopped } => if stopped {
                self.to(StreamStage::Idle, playing, StreamAction::WaitCommand)
            } else {
                self.to(StreamStage::Accepting, playing, accept)
            },
        }
    }
}


/// Media is flagged as playing exactly while a client is being served.
pub proof fn law_media_flag_tracks_client(s: StreamState, e: StreamEvent)
    requires
        stream_wf(s),
        stream_accepts(s.stage, e),
    ensures
        ({
            let (s1, a1) = stream_step(s, e);
            &&& s1.media_playing == serving(s1.stage)
            &&& stream_wf(s1)
        }),
{
}

/// Every byte read from the client is handed to the pipe once and in order:
/// the routed count starts at zero and grows by exactly what the pipe takes,
/// each offer starts at that count, a full pipe causes a pause and the same
/// offer again, and reading resumes once all is in.
pub proof fn law_received_audio_reaches_pipe(s: StreamState, e: StreamEvent)
    requires
        stream_wf(s),
        stream_accepts(s.stage, e),
    ensures
        ({
            let (s1, a1) = stream_step(s, e);
            &&& (s.stage == StreamStage::Reading && e is Read && e->Read_0 is Data && e->Read_0->Data_0 > 0)
                ==> a1 == (StreamAction::Play { from: 0, to: e->Read_0->Data_0 })
                && s1.stage == (StreamStage::Routing { len: e->Read_0->Data_0, written: 0 })
            &&& (s.stage is Routing && e is Played) ==> {
                let len = s.stage->Routing_len;
                let written = s.stage->Routing_written;
                let w = e->Played_0;
                &&& w == 0 ==> s1.stage == (StreamStage::RoutePause { len, written })
                    && a1 == (StreamAction::Sleep { micros: PIPE_FULL_PAUSE_US })
                &&& 0 < w && written + w < len ==> a1 == (StreamAction::Play {
                    from: (written + w) as usize,
                    to: len,
                }) && s1.stage == (StreamStage::Routing { len, written: (written + w) as usize })
                &&& 0 < w && written + w == len ==> a1 == (StreamAction::Read {
                    idle_timeout_secs: INACTIVITY_TIMEOUT_SECS,
                }) && s1.stage == StreamStage::Reading
            }
            &&& s.stage is RoutePause ==> a1 == (StreamAction::Play {
                from: s.stage->RoutePause_written,
                to: s.stage->RoutePause_len,
            }) && s1.stage == (StreamStage::Routing {
                len: s.stage->RoutePause_len,
                written: s.stage->RoutePause_written,
            })
        }),
{
}

/// A client connection is always closed before the next client is accepted.
pub proof fn law_client_closed_before_next(s: StreamState, e: StreamEvent)
    requires
        stream_wf(s),
        stream_accepts(s.stage, e),
    ensures
        ({
            let (s1, a1) = stream_step(s, e);
            serving(s.stage) && !serving(s1.stage) ==> a1 == StreamAction::Close
                && s1.stage is Closing
        }),
        s.stage == (StreamStage::Closing { stopped: false }) ==> stream_step(s, e).0.stage
            == StreamStage::Accepting,
{
}

/// `Stop` disables network playback: while waiting for a client it returns
/// to idle at once; while a client is served it closes the connection,
/// clears the media flag and then goes idle, so no further client is
/// accepted until the next `Start`. `Start` at either point changes nothing.
pub proof fn law_stop_command(s: StreamState)
    requires
        stream_wf(s),
    ensures
        s.stage == StreamStage::Accepting ==> stream_step(
            s,
            StreamEvent::Accept(AcceptOutcome::Command(StreamCommand::Stop)),
        ) == (StreamState { stage: StreamStage::Idle, media_playing: false }, StreamAction::WaitCommand),
        s.stage == StreamStage::Accepting ==> stream_step(
            s,
            StreamEvent::Accept(AcceptOutcome::Command(StreamCommand::Start)),
        ).0 == s,
        s.stage == StreamStage::Reading ==> {
            let (s1, a1) = stream_step(s, StreamEvent::Read(SocketRead::Command(StreamCommand::Stop)));
            let (s2, a2) = stream_step(s1, StreamEvent::Done);
            &&& a1 == StreamAction::Close
            &&& !s1.media_playing
            &&& s2 == (StreamState { stage: StreamStage::Idle, media_playing: false })
            &&& a2 == StreamAction::WaitCommand
        },
        s.stage == StreamStage::Reading ==> stream_step(
            s,
            StreamEvent::Read(SocketRead::Command(StreamCommand::Start)),
        ).0 == s,
{
}

} // verus!
