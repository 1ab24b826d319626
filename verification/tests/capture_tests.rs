use yo_esp::capture::upload_verdict;
use yo_esp::{
    CaptureAction, CaptureEvent, CaptureTask, Notification, ReadOutcome, Session, Stage,
    VoiceCommand, CHUNK_PACKET_LEN,
};

fn feed(task: &mut CaptureTask, event: CaptureEvent) -> CaptureAction {
    assert!(task.accepts(&event), "{:?} in {:?}", event, task.stage());
    task.step(event)
}

fn packet(fill: u8) -> Vec<u8> {
    let mut p = vec![fill; CHUNK_PACKET_LEN];
    p[0] = 0x00;
    p[1] = 0x05;
    p[2] = 0;
    p[3] = 0;
    p
}

fn connected_wake_word(room: &[u8]) -> CaptureTask {
    let mut t = CaptureTask::new(room.to_vec());
    assert_eq!(feed(&mut t, CaptureEvent::Command(VoiceCommand::Enabled)), CaptureAction::Connect { timeout_secs: 10 });
    let len: u32 = room.len() as u32;
    assert_eq!(feed(&mut t, CaptureEvent::Connected(true)), CaptureAction::Write(len.to_le_bytes().to_vec()));
    let a = feed(&mut t, CaptureEvent::Wrote(Some(4)));
    if room.is_empty() {
        assert_eq!(a, CaptureAction::Flush);
    } else {
        assert_eq!(a, CaptureAction::Write(room.to_vec()));
        assert_eq!(feed(&mut t, CaptureEvent::Wrote(Some(room.len()))), CaptureAction::Flush);
    }
    assert_eq!(feed(&mut t, CaptureEvent::Flushed(true)), CaptureAction::PollCommand);
    assert_eq!(t.stage(), Stage::Polling(Session::WakeWord));
    t
}

#[test]
fn starts_idle_and_ignores_stop_commands() {
    let mut t = CaptureTask::new(b"esp".to_vec());
    assert_eq!(t.stage(), Stage::Idle);
    assert_eq!(feed(&mut t, CaptureEvent::Command(VoiceCommand::Released)), CaptureAction::WaitCommand);
    assert_eq!(feed(&mut t, CaptureEvent::Command(VoiceCommand::Disabled)), CaptureAction::WaitCommand);
    assert_eq!(t.stage(), Stage::Idle);
    assert!(!t.accepts(&CaptureEvent::Done));
}

#[test]
fn wake_word_handshake_and_stream() {
    let mut t = connected_wake_word(b"kitchen");
    assert_eq!(feed(&mut t, CaptureEvent::Polled(None)), CaptureAction::ReadChunk);
    let p = packet(1);
    assert_eq!(feed(&mut t, CaptureEvent::Chunk(Some(p.clone()))), CaptureAction::Write(p.clone()));
    assert_eq!(
        feed(&mut t, CaptureEvent::Wrote(Some(CHUNK_PACKET_LEN))),
        CaptureAction::ReadResponse { timeout_ms: Some(10) }
    );
    assert_eq!(feed(&mut t, CaptureEvent::Response(ReadOutcome::TimedOut)), CaptureAction::PollCommand);
}

#[test]
fn empty_room_skips_the_name() {
    connected_wake_word(b"");
}

#[test]
fn partial_writes_resume_where_the_socket_stopped() {
    let mut t = connected_wake_word(b"esp");
    assert_eq!(feed(&mut t, CaptureEvent::Polled(None)), CaptureAction::ReadChunk);
    let mut p = packet(0);
    for (i, b) in p.iter_mut().enumerate().skip(4) {
        *b = (i % 251) as u8;
    }
    assert_eq!(feed(&mut t, CaptureEvent::Chunk(Some(p.clone()))), CaptureAction::Write(p.clone()));
    assert_eq!(feed(&mut t, CaptureEvent::Wrote(Some(1000))), CaptureAction::Write(p[1000..].to_vec()));
    assert_eq!(feed(&mut t, CaptureEvent::Wrote(Some(0))), CaptureAction::Write(p[1000..].to_vec()));
    assert_eq!(feed(&mut t, CaptureEvent::Wrote(Some(4000))), CaptureAction::Write(p[5000..].to_vec()));
    assert_eq!(
        feed(&mut t, CaptureEvent::Wrote(Some(124))),
        CaptureAction::ReadResponse { timeout_ms: Some(10) }
    );
}

#[test]
fn status_bytes_drive_callbacks_and_timing() {
    let mut t = connected_wake_word(b"esp");
    let round = |t: &mut CaptureTask, byte: u8| -> CaptureAction {
        assert_eq!(feed(t, CaptureEvent::Polled(None)), CaptureAction::ReadChunk);
        let p = packet(2);
        assert_eq!(feed(t, CaptureEvent::Chunk(Some(p.clone()))), CaptureAction::Write(p));
        feed(t, CaptureEvent::Wrote(Some(CHUNK_PACKET_LEN)));
        feed(t, CaptureEvent::Response(ReadOutcome::Byte(byte)))
    };
    assert_eq!(round(&mut t, 0x01), CaptureAction::Notify(Notification::WakeWordDetected));
    assert_eq!(feed(&mut t, CaptureEvent::Done), CaptureAction::PollCommand);
    assert_eq!(round(&mut t, 0x03), CaptureAction::Notify(Notification::Executed { timed: false }));
    feed(&mut t, CaptureEvent::Done);
    assert_eq!(round(&mut t, 0x02), CaptureAction::Notify(Notification::Thinking));
    feed(&mut t, CaptureEvent::Done);
    assert_eq!(round(&mut t, 0x07), CaptureAction::PollCommand);
    assert_eq!(feed(&mut t, CaptureEvent::Polled(None)), CaptureAction::ReadChunk);
    feed(&mut t, CaptureEvent::Chunk(Some(packet(3))));
    feed(&mut t, CaptureEvent::Wrote(Some(CHUNK_PACKET_LEN)));
    assert_eq!(
        feed(&mut t, CaptureEvent::Response(ReadOutcome::Byte(0x04))),
        CaptureAction::Notify(Notification::Failed { timed: true })
    );
    feed(&mut t, CaptureEvent::Done);
    assert_eq!(round(&mut t, 0x04), CaptureAction::Notify(Notification::Failed { timed: false }));
}

#[test]
fn disabled_closes_without_backoff() {
    let mut t = connected_wake_word(b"esp");
    assert_eq!(feed(&mut t, CaptureEvent::Polled(Some(VoiceCommand::Disabled))), CaptureAction::Sleep { millis: 10 });
    assert_eq!(feed(&mut t, CaptureEvent::Done), CaptureAction::Close);
    assert_eq!(feed(&mut t, CaptureEvent::Done), CaptureAction::WaitCommand);
    assert_eq!(t.stage(), Stage::Idle);
}

#[test]
fn other_commands_while_streaming_are_dropped() {
    let mut t = connected_wake_word(b"esp");
    assert_eq!(feed(&mut t, CaptureEvent::Polled(Some(VoiceCommand::Pushed))), CaptureAction::ReadChunk);
}

#[test]
fn mic_error_pauses_then_polls() {
    let mut t = connected_wake_word(b"esp");
    feed(&mut t, CaptureEvent::Polled(None));
    assert_eq!(feed(&mut t, CaptureEvent::Chunk(None)), CaptureAction::Sleep { millis: 10 });
    assert_eq!(feed(&mut t, CaptureEvent::Done), CaptureAction::PollCommand);
}

#[test]
fn socket_errors_reconnect_after_delay() {
    let mut t = connected_wake_word(b"esp");
    feed(&mut t, CaptureEvent::Polled(None));
    feed(&mut t, CaptureEvent::Chunk(Some(packet(0))));
    assert_eq!(feed(&mut t, CaptureEvent::Wrote(None)), CaptureAction::Close);
    assert_eq!(feed(&mut t, CaptureEvent::Done), CaptureAction::Sleep { millis: 15000 });
    assert_eq!(feed(&mut t, CaptureEvent::Done), CaptureAction::WaitCommand);

    let mut t = connected_wake_word(b"esp");
    feed(&mut t, CaptureEvent::Polled(None));
    feed(&mut t, CaptureEvent::Chunk(Some(packet(0))));
    feed(&mut t, CaptureEvent::Wrote(Some(CHUNK_PACKET_LEN)));
    assert_eq!(feed(&mut t, CaptureEvent::Response(ReadOutcome::Failed)), CaptureAction::Close);
    assert_eq!(feed(&mut t, CaptureEvent::Done), CaptureAction::Sleep { millis: 15000 });
}

#[test]
fn wake_word_connect_failure_backs_off() {
    let mut t = CaptureTask::new(b"esp".to_vec());
    feed(&mut t, CaptureEvent::Command(VoiceCommand::Enabled));
    assert_eq!(feed(&mut t, CaptureEvent::Connected(false)), CaptureAction::Sleep { millis: 15000 });
    assert_eq!(feed(&mut t, CaptureEvent::Done), CaptureAction::WaitCommand);
}

#[test]
fn failed_handshake_still_flushes_then_closes() {
    let mut t = CaptureTask::new(b"esp".to_vec());
    feed(&mut t, CaptureEvent::Command(VoiceCommand::Enabled));
    feed(&mut t, CaptureEvent::Connected(true));
    assert_eq!(feed(&mut t, CaptureEvent::Wrote(None)), CaptureAction::Flush);
    assert_eq!(feed(&mut t, CaptureEvent::Flushed(true)), CaptureAction::Close);
    assert_eq!(feed(&mut t, CaptureEvent::Done), CaptureAction::Sleep { millis: 15000 });

    let mut t = CaptureTask::new(b"esp".to_vec());
    feed(&mut t, CaptureEvent::Command(VoiceCommand::Enabled));
    feed(&mut t, CaptureEvent::Connected(true));
    feed(&mut t, CaptureEvent::Wrote(Some(4)));
    feed(&mut t, CaptureEvent::Wrote(Some(3)));
    assert_eq!(feed(&mut t, CaptureEvent::Flushed(false)), CaptureAction::Close);
}

#[test]
fn push_to_talk_session() {
    let mut t = CaptureTask::new(b"esp".to_vec());
    assert_eq!(feed(&mut t, CaptureEvent::Command(VoiceCommand::Pushed)), CaptureAction::Connect { timeout_secs: 20 });
    assert_eq!(feed(&mut t, CaptureEvent::Connected(true)), CaptureAction::Write(vec![7, 0, 0, 0]));
    assert_eq!(feed(&mut t, CaptureEvent::Wrote(Some(4))), CaptureAction::Write(b"oneshot".to_vec()));
    assert_eq!(feed(&mut t, CaptureEvent::Wrote(Some(7))), CaptureAction::Write(vec![0x10]));
    assert_eq!(feed(&mut t, CaptureEvent::Wrote(Some(1))), CaptureAction::ReadChunk);
    for fill in [1u8, 2] {
        let p = packet(fill);
        assert_eq!(feed(&mut t, CaptureEvent::Chunk(Some(p.clone()))), CaptureAction::Write(vec![0x11, 0x00, 0x05, 0, 0]));
        assert_eq!(feed(&mut t, CaptureEvent::Wrote(Some(5))), CaptureAction::Write(p[4..].to_vec()));
        assert_eq!(feed(&mut t, CaptureEvent::Wrote(Some(CHUNK_PACKET_LEN - 4))), CaptureAction::PollCommand);
        let next = feed(&mut t, CaptureEvent::Polled(if fill == 1 { Some(VoiceCommand::Enabled) } else { Some(VoiceCommand::Released) }));
        if fill == 1 {
            assert_eq!(next, CaptureAction::ReadChunk);
        } else {
            assert_eq!(next, CaptureAction::Write(vec![0x12]));
        }
    }
    assert_eq!(feed(&mut t, CaptureEvent::Wrote(Some(1))), CaptureAction::ReadResponse { timeout_ms: None });
    assert_eq!(
        feed(&mut t, CaptureEvent::Response(ReadOutcome::Byte(0x03))),
        CaptureAction::Notify(Notification::Executed { timed: false })
    );
    assert_eq!(feed(&mut t, CaptureEvent::Done), CaptureAction::Close);
    assert_eq!(feed(&mut t, CaptureEvent::Done), CaptureAction::WaitCommand);
}

#[test]
fn push_to_talk_verdicts() {
    for (outcome, expected) in [
        (ReadOutcome::Byte(4), Some(Notification::Failed { timed: false })),
        (ReadOutcome::Byte(9), Some(Notification::Failed { timed: false })),
        (ReadOutcome::Other, None),
        (ReadOutcome::Failed, None),
    ] {
        let mut t = CaptureTask::new(Vec::new());
        feed(&mut t, CaptureEvent::Command(VoiceCommand::Pushed));
        feed(&mut t, CaptureEvent::Connected(true));
        feed(&mut t, CaptureEvent::Wrote(Some(4)));
        feed(&mut t, CaptureEvent::Wrote(Some(7)));
        feed(&mut t, CaptureEvent::Wrote(Some(1)));
        assert_eq!(feed(&mut t, CaptureEvent::Chunk(None)), CaptureAction::Write(vec![0x12]));
        assert_eq!(feed(&mut t, CaptureEvent::Wrote(None)), CaptureAction::ReadResponse { timeout_ms: None });
        let a = feed(&mut t, CaptureEvent::Response(outcome));
        match expected {
            Some(n) => {
                assert_eq!(a, CaptureAction::Notify(n));
                assert_eq!(feed(&mut t, CaptureEvent::Done), CaptureAction::Close);
            }
            None => assert_eq!(a, CaptureAction::Close),
        }
        assert_eq!(feed(&mut t, CaptureEvent::Done), CaptureAction::WaitCommand);
    }
}

#[test]
fn push_to_talk_write_failures() {
    let mut t = CaptureTask::new(Vec::new());
    feed(&mut t, CaptureEvent::Command(VoiceCommand::Pushed));
    assert_eq!(feed(&mut t, CaptureEvent::Connected(false)), CaptureAction::WaitCommand);
    feed(&mut t, CaptureEvent::Command(VoiceCommand::Pushed));
    feed(&mut t, CaptureEvent::Connected(true));
    feed(&mut t, CaptureEvent::Wrote(Some(4)));
    assert_eq!(feed(&mut t, CaptureEvent::Wrote(None)), CaptureAction::Close);
    assert_eq!(feed(&mut t, CaptureEvent::Done), CaptureAction::WaitCommand);
    feed(&mut t, CaptureEvent::Command(VoiceCommand::Pushed));
    feed(&mut t, CaptureEvent::Connected(true));
    feed(&mut t, CaptureEvent::Wrote(Some(4)));
    feed(&mut t, CaptureEvent::Wrote(Some(7)));
    feed(&mut t, CaptureEvent::Wrote(Some(1)));
    feed(&mut t, CaptureEvent::Chunk(Some(packet(5))));
    assert_eq!(feed(&mut t, CaptureEvent::Wrote(None)), CaptureAction::Write(vec![0x12]));
}

#[test]
fn intercom_session() {
    let mut t = CaptureTask::new(b"esp".to_vec());
    assert_eq!(feed(&mut t, CaptureEvent::Command(VoiceCommand::Intercom)), CaptureAction::Connect { timeout_secs: 10 });
    assert_eq!(feed(&mut t, CaptureEvent::Connected(true)), CaptureAction::Write(vec![8, 0, 0, 0]));
    assert_eq!(feed(&mut t, CaptureEvent::Wrote(Some(4))), CaptureAction::Write(b"intercom".to_vec()));
    assert_eq!(feed(&mut t, CaptureEvent::Wrote(None)), CaptureAction::Flush);
    assert_eq!(feed(&mut t, CaptureEvent::Flushed(false)), CaptureAction::PollCommand);
    assert_eq!(feed(&mut t, CaptureEvent::Polled(None)), CaptureAction::ReadChunk);
    let p = packet(9);
    assert_eq!(feed(&mut t, CaptureEvent::Chunk(Some(p.clone()))), CaptureAction::Write(p));
    assert_eq!(feed(&mut t, CaptureEvent::Wrote(Some(CHUNK_PACKET_LEN))), CaptureAction::PollCommand);
    assert_eq!(feed(&mut t, CaptureEvent::Polled(Some(VoiceCommand::Disabled))), CaptureAction::Close);
    assert_eq!(feed(&mut t, CaptureEvent::Done), CaptureAction::WaitCommand);
}

#[test]
fn intercom_connect_failure_and_send_error() {
    let mut t = CaptureTask::new(Vec::new());
    feed(&mut t, CaptureEvent::Command(VoiceCommand::Intercom));
    assert_eq!(feed(&mut t, CaptureEvent::Connected(false)), CaptureAction::Sleep { millis: 5000 });
    assert_eq!(feed(&mut t, CaptureEvent::Done), CaptureAction::WaitCommand);
    feed(&mut t, CaptureEvent::Command(VoiceCommand::Intercom));
    feed(&mut t, CaptureEvent::Connected(true));
    assert_eq!(feed(&mut t, CaptureEvent::Wrote(None)), CaptureAction::Flush);
    feed(&mut t, CaptureEvent::Flushed(true));
    feed(&mut t, CaptureEvent::Polled(None));
    assert_eq!(feed(&mut t, CaptureEvent::Chunk(None)), CaptureAction::Sleep { millis: 10 });
    feed(&mut t, CaptureEvent::Done);
    feed(&mut t, CaptureEvent::Polled(None));
    feed(&mut t, CaptureEvent::Chunk(Some(packet(1))));
    assert_eq!(feed(&mut t, CaptureEvent::Wrote(None)), CaptureAction::Close);
    assert_eq!(feed(&mut t, CaptureEvent::Done), CaptureAction::WaitCommand);
}

#[test]
fn rejects_short_packets() {
    let mut t = connected_wake_word(b"esp");
    feed(&mut t, CaptureEvent::Polled(None));
    assert!(!t.accepts(&CaptureEvent::Chunk(Some(vec![0u8; 10]))));
    assert!(t.accepts(&CaptureEvent::Chunk(None)));
}

#[test]
fn upload_verdicts() {
    assert_eq!(upload_verdict(ReadOutcome::Byte(3)), Notification::Executed { timed: false });
    assert_eq!(upload_verdict(ReadOutcome::Byte(4)), Notification::Failed { timed: false });
    assert_eq!(upload_verdict(ReadOutcome::Byte(1)), Notification::Failed { timed: false });
    assert_eq!(upload_verdict(ReadOutcome::Other), Notification::Failed { timed: false });
    assert_eq!(upload_verdict(ReadOutcome::TimedOut), Notification::Failed { timed: false });
}
