use yo_esp::speaker::SPEAKER_BLOCK;
use yo_esp::{
    AcceptOutcome, SocketRead, SpeakerAction, SpeakerCommand, SpeakerEvent, SpeakerStage,
    SpeakerTask, StreamAction, StreamCommand, StreamEvent, StreamStage, StreamTask,
};

fn speak(t: &mut SpeakerTask, e: SpeakerEvent) -> SpeakerAction {
    assert!(t.accepts(e), "{:?} in {:?}", e, t.stage());
    t.step(e)
}

fn stream(t: &mut StreamTask, e: StreamEvent) -> StreamAction {
    assert!(t.accepts(e), "{:?} in {:?}", e, t.stage());
    t.step(e)
}

fn streaming_speaker() -> SpeakerTask {
    let mut t = SpeakerTask::new();
    assert_eq!(speak(&mut t, SpeakerEvent::Command(SpeakerCommand::Stop)), SpeakerAction::WaitCommand);
    assert_eq!(speak(&mut t, SpeakerEvent::Command(SpeakerCommand::Start)), SpeakerAction::PollCommand);
    t
}

#[test]
fn speaker_moves_audio() {
    let mut t = streaming_speaker();
    assert_eq!(speak(&mut t, SpeakerEvent::Polled(None)), SpeakerAction::QueryAvailable);
    assert_eq!(
        speak(&mut t, SpeakerEvent::Available(Some(4000))),
        SpeakerAction::ReadPipe { max: 256, timeout_ms: 1 }
    );
    assert!(!t.accepts(SpeakerEvent::Read(Some(257))));
    assert_eq!(speak(&mut t, SpeakerEvent::Read(Some(200))), SpeakerAction::PushData { len: 200 });
    assert_eq!(speak(&mut t, SpeakerEvent::Done), SpeakerAction::PollCommand);
    assert_eq!(speak(&mut t, SpeakerEvent::Polled(None)), SpeakerAction::QueryAvailable);
    assert_eq!(
        speak(&mut t, SpeakerEvent::Available(Some(100))),
        SpeakerAction::ReadPipe { max: 100, timeout_ms: 1 }
    );
}

#[test]
fn speaker_fills_gaps_with_silence() {
    let mut t = streaming_speaker();
    speak(&mut t, SpeakerEvent::Polled(None));
    speak(&mut t, SpeakerEvent::Available(Some(600)));
    let mut pushed: usize = 0;
    let mut a = speak(&mut t, SpeakerEvent::Read(None));
    let mut blocks: Vec<usize> = Vec::new();
    while let SpeakerAction::PushSilence { len } = a {
        assert!(len > 0 && len <= SPEAKER_BLOCK);
        pushed += len;
        blocks.push(len);
        a = speak(&mut t, SpeakerEvent::Done);
    }
    assert_eq!(blocks, vec![256, 256, 88]);
    assert_eq!(pushed, 600);
    assert_eq!(a, SpeakerAction::PollCommand);
    assert_eq!(t.stage(), SpeakerStage::Polling);
}

#[test]
fn speaker_empty_read_counts_as_timeout() {
    let mut t = streaming_speaker();
    speak(&mut t, SpeakerEvent::Polled(None));
    speak(&mut t, SpeakerEvent::Available(Some(10)));
    assert_eq!(speak(&mut t, SpeakerEvent::Read(Some(0))), SpeakerAction::PushSilence { len: 10 });
    assert_eq!(speak(&mut t, SpeakerEvent::Done), SpeakerAction::PollCommand);
}

#[test]
fn speaker_waits_when_full_and_stops() {
    let mut t = streaming_speaker();
    speak(&mut t, SpeakerEvent::Polled(Some(SpeakerCommand::Start)));
    assert_eq!(speak(&mut t, SpeakerEvent::Available(Some(0))), SpeakerAction::Sleep { micros: 1 });
    assert_eq!(speak(&mut t, SpeakerEvent::Done), SpeakerAction::PollCommand);
    assert_eq!(speak(&mut t, SpeakerEvent::Polled(Some(SpeakerCommand::Stop))), SpeakerAction::WaitCommand);
    assert_eq!(t.stage(), SpeakerStage::Idle);
}

#[test]
fn speaker_dma_error_returns_to_idle() {
    let mut t = streaming_speaker();
    speak(&mut t, SpeakerEvent::Polled(None));
    assert_eq!(speak(&mut t, SpeakerEvent::Available(None)), SpeakerAction::WaitCommand);
    assert_eq!(t.stage(), SpeakerStage::Idle);
}

fn serving_stream() -> StreamTask {
    let mut t = StreamTask::new();
    assert!(!t.media_playing());
    assert_eq!(stream(&mut t, StreamEvent::Command(StreamCommand::Stop)), StreamAction::WaitCommand);
    assert_eq!(stream(&mut t, StreamEvent::Command(StreamCommand::Start)), StreamAction::PrepareNetwork);
    assert_eq!(stream(&mut t, StreamEvent::Ready), StreamAction::Accept { client_timeout_secs: 30 });
    assert!(!t.media_playing());
    assert_eq!(
        stream(&mut t, StreamEvent::Accept(AcceptOutcome::Connected)),
        StreamAction::Read { idle_timeout_secs: 5 }
    );
    assert!(t.media_playing());
    t
}

#[test]
fn stream_routes_every_byte() {
    let mut t = serving_stream();
    assert_eq!(stream(&mut t, StreamEvent::Read(SocketRead::Data(1000))), StreamAction::Play { from: 0, to: 1000 });
    assert!(!t.accepts(StreamEvent::Played(1001)));
    assert_eq!(stream(&mut t, StreamEvent::Played(300)), StreamAction::Play { from: 300, to: 1000 });
    assert_eq!(stream(&mut t, StreamEvent::Played(0)), StreamAction::Sleep { micros: 500 });
    assert_eq!(stream(&mut t, StreamEvent::Done), StreamAction::Play { from: 300, to: 1000 });
    assert_eq!(stream(&mut t, StreamEvent::Played(700)), StreamAction::Read { idle_timeout_secs: 5 });
    assert!(t.media_playing());
    assert!(!t.accepts(StreamEvent::Read(SocketRead::Data(1025))));
}

#[test]
fn stream_drops_client_on_end_error_or_timeout() {
    for e in [SocketRead::Data(0), SocketRead::Failed, SocketRead::TimedOut] {
        let mut t = serving_stream();
        assert_eq!(stream(&mut t, StreamEvent::Read(e)), StreamAction::Close);
        assert!(!t.media_playing());
        assert_eq!(stream(&mut t, StreamEvent::Done), StreamAction::Accept { client_timeout_secs: 30 });
        assert_eq!(t.stage(), StreamStage::Accepting);
    }
}

#[test]
fn stream_stop_while_serving_disables_playback() {
    let mut t = serving_stream();
    assert_eq!(stream(&mut t, StreamEvent::Read(SocketRead::Data(10))), StreamAction::Play { from: 0, to: 10 });
    assert_eq!(stream(&mut t, StreamEvent::Played(10)), StreamAction::Read { idle_timeout_secs: 5 });
    assert_eq!(
        stream(&mut t, StreamEvent::Read(SocketRead::Command(StreamCommand::Stop))),
        StreamAction::Close
    );
    assert!(!t.media_playing());
    assert_eq!(stream(&mut t, StreamEvent::Done), StreamAction::WaitCommand);
    assert_eq!(t.stage(), StreamStage::Idle);
    assert!(!t.media_playing());
    assert_eq!(stream(&mut t, StreamEvent::Command(StreamCommand::Stop)), StreamAction::WaitCommand);
    assert_eq!(stream(&mut t, StreamEvent::Command(StreamCommand::Start)), StreamAction::PrepareNetwork);
}

#[test]
fn stream_start_while_serving_keeps_reading() {
    let mut t = serving_stream();
    assert_eq!(
        stream(&mut t, StreamEvent::Read(SocketRead::Command(StreamCommand::Start))),
        StreamAction::Read { idle_timeout_secs: 5 }
    );
    assert!(t.media_playing());
}

#[test]
fn stream_accept_outcomes() {
    let mut t = StreamTask::new();
    stream(&mut t, StreamEvent::Command(StreamCommand::Start));
    stream(&mut t, StreamEvent::Ready);
    assert_eq!(stream(&mut t, StreamEvent::Accept(AcceptOutcome::Failed)), StreamAction::Sleep { micros: 1_000_000 });
    assert_eq!(stream(&mut t, StreamEvent::Done), StreamAction::Accept { client_timeout_secs: 30 });
    assert_eq!(
        stream(&mut t, StreamEvent::Accept(AcceptOutcome::Command(StreamCommand::Start))),
        StreamAction::Accept { client_timeout_secs: 30 }
    );
    assert_eq!(
        stream(&mut t, StreamEvent::Accept(AcceptOutcome::Command(StreamCommand::Stop))),
        StreamAction::WaitCommand
    );
    assert_eq!(t.stage(), StreamStage::Idle);
    assert!(!t.media_playing());
}
