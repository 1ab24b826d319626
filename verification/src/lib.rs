//! Verified core of a bare-metal audio streaming client for the `yo` voice
//! assistant: wire formats, the microphone chunker, the playback pipe and the
//! decision logic of the capture, speaker and network-playback tasks.
pub mod capture;
pub mod commands;
pub mod frame;
pub mod mic;
pub mod pipe;
pub mod speaker;
pub mod stream;

pub use capture::{CaptureAction, CaptureEvent, CaptureTask, Notification, ReadOutcome, Session, Stage};
pub use commands::{SpeakerCommand, StreamCommand, VoiceCommand};
pub use frame::{
    handshake, ptt_header, ptt_upload, server_event, ServerEvent, CHUNK_PACKET_LEN,
    OWW_MODEL_CHUNK_SIZE, PTT_DATA, PTT_END, PTT_START,
};
pub use mic::{decode_samples, downmix, Microphone};
pub use pipe::{
    advance_offset, play, play_sound_step, taken_bytes, try_play, AudioPipe, PipeFull, RING_BUFFER_SIZE,
};
pub use speaker::{SpeakerAction, SpeakerEvent, SpeakerStage, SpeakerTask};
pub use stream::{AcceptOutcome, SocketRead, StreamAction, StreamEvent, StreamStage, StreamTask};
