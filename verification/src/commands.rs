use vstd::prelude::*;

verus! {

/// Requests for the microphone task.
#[derive(Clone, Copy, Debug, PartialEq, Eq, Structural)]
pub enum VoiceCommand {
    /// Start wake-word streaming to the server.
    Enabled,
    /// Stop wake-word (or intercom) streaming.
    Disabled,
    /// The push-to-talk button went down: record and upload one utterance.
    Pushed,
    /// The push-to-talk button went up: finish the utterance.
    Released,
    /// Stream the microphone to the server's speaker.
    Intercom,
}

/// Requests for the speaker task.
#[derive(Clone, Copy, Debug, PartialEq, Eq, Structural)]
pub enum SpeakerCommand {
    Start,
    Stop,
}

/// Requests for the network playback task.
#[derive(Clone, Copy, Debug, PartialEq, Eq, Structural)]
pub enum StreamCommand {
    Start,
    Stop,
}

} // verus!
