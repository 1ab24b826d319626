//! Decisions of the speaker task, which moves audio from the playback pipe
//! to the I²S transmitter and fills gaps with silence.
use vstd::prelude::*;
use crate::commands::SpeakerCommand;

verus! {

/// Size of the I²S transmit DMA buffer.
pub const SPEAKER_DMA_BUFFER_SIZE: usize = 65472;

/// Most bytes moved per pipe read, and per block of silence.
pub const SPEAKER_BLOCK: usize = 256;

/// Pause when the transmitter has no free space.
pub const TX_FULL_PAUSE_US: u64 = 1;

/// How long a pipe read waits for audio before silence is sent instead.
pub const PIPE_READ_TIMEOUT_MS: u64 = 1;

/// Where the speaker task stands.
#[derive(Clone, Copy, Debug, PartialEq, Eq, Structural)]
pub enum SpeakerStage {
    /// Waiting for a command.
    Idle,
    /// Checking the command channel without blocking.
    Polling,
    /// Asking the transmitter how many bytes it can take.
    Querying,
    /// Pausing because the transmitter is full.
    Pausing,
    /// Reading at most `asked` bytes from the pipe; the transmitter has
    /// `free` bytes of room.
    Reading { free: usize, asked: usize },
    /// Pushing audio read from the pipe.
    PushingData,
    /// Pushing silence; `left` more bytes of it are still owed.
    PushingSilence { left: usize },
}

/// What the caller hands back after performing an action.
#[derive(Clone, Copy, Debug, PartialEq, Eq, Structural)]
pub enum SpeakerEvent {
    /// A command received while idle.
    Command(SpeakerCommand),
    /// The result of polling the command channel.
    Polled(Option<SpeakerCommand>),
    /// The transmitter's free space, or `None` on a transmitter error.
    Available(Option<usize>),
    /// Bytes read from the pipe, or `None` when the read timed out.
    Read(Option<usize>),
    /// A sleep or push finished.
    Done,
}

/// What the caller must do next.
#[derive(Clone, Copy, Debug, PartialEq, Eq, Structural)]
pub enum SpeakerAction {
    /// Block on the command channel.
    WaitCommand,
    /// Check the command channel without blocking.
    PollCommand,
    /// Ask the transmitter for its free space.
    QueryAvailable,
    /// Sleep.
    Sleep { micros: u64 },
    /// Read at most `max` bytes from the pipe into the transfer buffer,
    /// giving up after the timeout.
    ReadPipe { max: usize, timeout_ms: u64 },
    /// Push the first `len` bytes of the transfer buffer.
    PushData { len: usize },
    /// Push `len` bytes of silence.
    PushSilence { len: usize },
}

pub open spec fn min_usize(a: usize, b: usize) -> usize {
    if a < b {
        a
    } else {
        b
    }
}

/// Whether `e` is what `stage` waits for; a pipe read never returns more
/// than was asked.
pub open spec fn speaker_accepts(stage: SpeakerStage, e: SpeakerEvent) -> bool {
    match stage {
        SpeakerStage::Idle => e is Command,
        SpeakerStage::Polling => e is Polled,
        SpeakerStage::Querying => e is Available,
        SpeakerStage::Reading { free, asked } => match e {
            SpeakerEvent::Read(Some(n)) => n <= asked,
            SpeakerEvent::Read(None) => true,
            _ => false,
        },
        _ => e is Done,
    }
}

/// The well-formedness of a speaker stage.
pub open spec fn speaker_wf(stage: SpeakerStage) -> bool {
    match stage {
        SpeakerStage::Reading { free, asked } => 0 < asked && asked == min_usize(free, SPEAKER_BLOCK),
        _ => true,
    }
}

/// Starts (or continues) sending `left` bytes of silence.
pub open spec fn silence(left: usize) -> (SpeakerStage, SpeakerAction) {
    let n = min_usize(left, SPEAKER_BLOCK);
    (
        SpeakerStage::PushingSilence { left: (left - n) as usize },
        SpeakerAction::PushSilence { len: n },
    )
}

/// One transition of the speaker task.
pub open spec fn speaker_step(stage: SpeakerStage, e: SpeakerEvent) -> (SpeakerStage, SpeakerAction) {
    match stage {
        SpeakerStage::Idle => if e == SpeakerEvent::Command(SpeakerCommand::Start) {
            (SpeakerStage::Polling, SpeakerAction::PollCommand)
        } else {
            (SpeakerStage::Idle, SpeakerAction::WaitCommand)
        },
        SpeakerStage::Polling => if e == SpeakerEvent::Polled(Some(SpeakerCommand::Stop)) {
            (SpeakerStage::Idle, SpeakerAction::WaitCommand)
        } else {
            (SpeakerStage::Querying, SpeakerAction::QueryAvailable)
        },
        SpeakerStage::Querying => match e {
            SpeakerEvent::Available(Some(free)) => if free == 0 {
                (SpeakerStage::Pausing, SpeakerAction::Sleep { micros: TX_FULL_PAUSE_US })
            } else {
                let asked = min_usize(free, SPEAKER_BLOCK);
                (
                    SpeakerStage::Reading { free, asked },
                    SpeakerAction::ReadPipe { max: asked, timeout_ms: PIPE_READ_TIMEOUT_MS },
                )
            },
            _ => (SpeakerStage::Idle, SpeakerAction::WaitCommand),
        },
        SpeakerStage::Reading { free, asked } => match e {
            SpeakerEvent::Read(Some(n)) => if n > 0 {
                (SpeakerStage::PushingData, SpeakerAction::PushData { len: n })
            } else {
                silence(free)
            },
            _ => silence(free),
        },
        SpeakerStage::PushingSilence { left } => if left > 0 {
            silence(left)
        } else {
            (SpeakerStage::Polling, SpeakerAction::PollCommand)
        },
        _ => (SpeakerStage::Polling, SpeakerAction::PollCommand),
    }
}

/// The decisions of the speaker task.
pub struct SpeakerTask {
    stage: SpeakerStage,
}

impl View for SpeakerTask {
    type V = SpeakerStage;

    closed spec fn view(&self) -> SpeakerStage {
        self.stage
    }
}

impl SpeakerTask {
    /// An idle task; it first waits for a command.
    pub fn new() -> (t: Self)
        ensures
            t@ == SpeakerStage::Idle,
    {
        SpeakerTask { stage: SpeakerStage::Idle }
    }

    /// The current stage.
    pub fn stage(&self) -> (s: SpeakerStage)
        ensures
            s == self@,
    {
        self.stage
    }

    /// Whether `event` is what the current stage waits for.
    pub fn accepts(&self, event: SpeakerEvent) -> (b: bool)
        ensures
            b == speaker_accepts(self@, event),
    {
        match self.stage {
            SpeakerStage::Idle => matches!(event, SpeakerEvent::Command(_)),
            SpeakerStage::Polling => matches!(event, SpeakerEvent::Polled(_)),
            SpeakerStage::Querying => matches!(event, SpeakerEvent::Available(_)),
            SpeakerStage::Reading { free, asked } => match event {
                SpeakerEvent::Read(Some(n)) => n <= asked,
                SpeakerEvent::Read(None) => true,
                _ => false,
            },
            _ => matches!(event, SpeakerEvent::Done),
        }
    }

    fn silence(&mut self, left: usize) -> (a: SpeakerAction)
        ensures
            (final(self)@, a) == silence(left),
    {
        let n = if left < SPEAKER_BLOCK { left } else { SPEAKER_BLOCK };
        self.stage = SpeakerStage::PushingSilence { left: left - n };
        SpeakerAction::PushSilence { len: n }
    }

    /// Performs one transition: takes the outcome of the last action and
    /// returns the next action.
    pub fn step(&mut self, event: SpeakerEvent) -> (a: SpeakerAction)
        requires
            speaker_wf(old(self)@),
            speaker_accepts(old(self)@, event),
        ensures
            (final(self)@, a) == speaker_step(old(self)@, event),
            speaker_wf(final(self)@),
    {
        match self.stage {
            SpeakerStage::Idle => if event == SpeakerEvent::Command(SpeakerCommand::Start) {
                self.stage = SpeakerStage::Polling;
                SpeakerAction::PollCommand
            } else {
                SpeakerAction::WaitCommand
            },
            SpeakerStage::Polling => if event == SpeakerEvent::Polled(Some(SpeakerCommand::Stop)) {
                self.stage = SpeakerStage::Idle;
                SpeakerAction::WaitCommand
            } else {
                self.stage = SpeakerStage::Querying;
                SpeakerAction::QueryAvailable
            },
            SpeakerStage::Querying => match event {
                SpeakerEvent::Available(Some(free)) => if free == 0 {
                    self.stage = SpeakerStage::Pausing;
                    SpeakerAction::Sleep { micros: TX_FULL_PAUSE_US }
                } else {
                    let asked = if free < SPEAKER_BLOCK { free } else { SPEAKER_BLOCK };
                    self.stage = SpeakerStage::Reading { free, asked };
                    SpeakerAction::ReadPipe { max: asked, timeout_ms: PIPE_READ_TIMEOUT_MS }
                },
                _ => {
                    self.stage = SpeakerStage::Idle;
                    SpeakerAction::WaitCommand
                },
            },
            SpeakerStage::Reading { free, asked } => match event {
                SpeakerEvent::Read(Some(n)) => if n > 0 {
                    self.stage = SpeakerStage::PushingData;
                    SpeakerAction::PushData { len: n }
                } else {
                    self.silence(free)
                },
                _ => self.silence(free),
            },
            SpeakerStage::PushingSilence { left } => if left > 0 {
                self.silence(left)
            } else {
                self.stage = SpeakerStage::Polling;
                SpeakerAction::PollCommand
            },
            _ => {
                self.stage = SpeakerStage::Polling;
                SpeakerAction::PollCommand
            },
        }
    }
}


/// Bytes of silence still owed in a stage.
pub open spec fn silence_owed(stage: SpeakerStage) -> nat {
    match stage {
        SpeakerStage::PushingSilence { left } => left as nat,
        _ => 0,
    }
}

/// When no audio arrives in time, the transmitter's whole free space is
/// filled with silence, in blocks of 1 to `SPEAKER_BLOCK` bytes; afterwards
/// the task polls for commands again.
pub proof fn law_silence_fills_free_space(stage: SpeakerStage, e: SpeakerEvent)
    requires
        speaker_wf(stage),
        speaker_accepts(stage, e),
    ensures
        ({
            let (s1, a1) = speaker_step(stage, e);
            &&& (stage is Reading && (e == SpeakerEvent::Read(None) || e == SpeakerEvent::Read(Some(0))))
                ==> (a1 matches SpeakerAction::PushSilence { len } && 0 < len <= SPEAKER_BLOCK
                && len + silence_owed(s1) == stage->free)
            &&& (stage is PushingSilence && stage->left > 0)
                ==> (a1 matches SpeakerAction::PushSilence { len } && 0 < len <= SPEAKER_BLOCK
                && len + silence_owed(s1) == stage->left)
            &&& stage == (SpeakerStage::PushingSilence { left: 0 }) ==> s1 == SpeakerStage::Polling
                && a1 == SpeakerAction::PollCommand
        }),
{
}

/// Audio is read from the pipe in pieces that fit the transmitter and the
/// transfer buffer, and what was read is pushed as it is.
pub proof fn law_audio_fits_transmitter(stage: SpeakerStage, e: SpeakerEvent)
    requires
        speaker_wf(stage),
        speaker_accepts(stage, e),
    ensures
        ({
            let (s1, a1) = speaker_step(stage, e);
            &&& a1 is ReadPipe ==> 0 < a1->max <= SPEAKER_BLOCK
                && (e matches SpeakerEvent::Available(Some(free)) && a1->max <= free)
            &&& a1 is PushData ==> e == SpeakerEvent::Read(Some(a1->PushData_len))
                && 0 < a1->PushData_len <= stage->asked
        }),
{
}

/// `Stop` ends streaming, and a transmitter error returns the task to idle;
/// `Start` while streaming changes nothing.
pub proof fn law_stop_ends_streaming(stage: SpeakerStage)
    requires
        speaker_wf(stage),
    ensures
        stage == SpeakerStage::Polling ==> speaker_step(
            stage,
            SpeakerEvent::Polled(Some(SpeakerCommand::Stop)),
        ) == (SpeakerStage::Idle, SpeakerAction::WaitCommand),
        stage == SpeakerStage::Polling ==> speaker_step(
            stage,
            SpeakerEvent::Polled(Some(SpeakerCommand::Start)),
        ) == speaker_step(stage, SpeakerEvent::Polled(None)),
        stage == SpeakerStage::Querying ==> speaker_step(stage, SpeakerEvent::Available(None)) == (
        SpeakerStage::Idle, SpeakerAction::WaitCommand),
{
}

/// Audio read from the pipe is always pushed, exactly as much as was read;
/// silence replaces it only when the read timed out or returned nothing.
pub proof fn law_read_audio_is_pushed(stage: SpeakerStage, e: SpeakerEvent)
    requires
        speaker_wf(stage),
        speaker_accepts(stage, e),
        stage is Reading,
    ensures
        ({
            let (s1, a1) = speaker_step(stage, e);
            &&& (e matches SpeakerEvent::Read(Some(n)) && n > 0) ==> (s1 == SpeakerStage::PushingData
                && a1 == (SpeakerAction::PushData { len: e->Read_0->0 }))
            &&& a1 is PushSilence ==> (e == SpeakerEvent::Read(None) || e == SpeakerEvent::Read(Some(0)))
        }),
{
}

} // verus!
