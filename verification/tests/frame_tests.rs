use yo_esp::frame::{
    intercom_room_bytes, le32_bytes, oneshot_room_bytes, sample_is_zero, write_chunk_packet,
};
use yo_esp::{
    handshake, ptt_header, ptt_upload, server_event, ServerEvent, CHUNK_PACKET_LEN,
    OWW_MODEL_CHUNK_SIZE, PTT_DATA, PTT_END, PTT_START,
};

#[test]
fn le32_is_little_endian() {
    assert_eq!(le32_bytes(0x0102_0304), vec![4, 3, 2, 1]);
    assert_eq!(le32_bytes(1280), vec![0x00, 0x05, 0x00, 0x00]);
    assert_eq!(le32_bytes(u32::MAX), vec![0xff, 0xff, 0xff, 0xff]);
}

#[test]
fn le32_reads_back() {
    for x in [0u32, 1, 255, 256, 65535, 1280, 0xdead_beef, u32::MAX] {
        let b = le32_bytes(x);
        let v: u64 = b[0] as u64 + 256 * b[1] as u64 + 65536 * b[2] as u64 + 16777216 * b[3] as u64;
        assert_eq!(v, x as u64);
    }
}

#[test]
fn handshake_is_length_then_room() {
    assert_eq!(handshake(b"esp"), vec![3, 0, 0, 0, b'e', b's', b'p']);
    assert_eq!(handshake(b""), vec![0, 0, 0, 0]);
    let long = vec![7u8; 300];
    let h = handshake(&long);
    assert_eq!(&h[..4], &[44, 1, 0, 0]);
    assert_eq!(&h[4..], &long[..]);
}

#[test]
fn room_names() {
    assert_eq!(oneshot_room_bytes(), b"oneshot".to_vec());
    assert_eq!(intercom_room_bytes(), b"intercom".to_vec());
    assert_eq!(handshake(b"oneshot"), vec![7, 0, 0, 0, b'o', b'n', b'e', b's', b'h', b'o', b't']);
}

#[test]
fn ptt_markers_and_header() {
    assert_eq!((PTT_START, PTT_DATA, PTT_END), (0x10, 0x11, 0x12));
    assert_eq!(ptt_header(1280), vec![0x11, 0x00, 0x05, 0x00, 0x00]);
    assert_eq!(ptt_header(512), vec![0x11, 0x00, 0x02, 0x00, 0x00]);
}

#[test]
fn ptt_upload_of_nothing_is_start_and_end() {
    assert_eq!(ptt_upload(&[]), vec![PTT_START, PTT_END]);
}

#[test]
fn ptt_upload_small() {
    let samples = [1.0f32.to_bits(), (-0.5f32).to_bits()];
    let mut expected = vec![PTT_START, PTT_DATA, 2, 0, 0, 0];
    expected.extend_from_slice(&1.0f32.to_le_bytes());
    expected.extend_from_slice(&(-0.5f32).to_le_bytes());
    expected.push(PTT_END);
    assert_eq!(ptt_upload(&samples), expected);
}

#[test]
fn ptt_upload_splits_into_blocks_of_512() {
    let samples: Vec<u32> = (0..600u32).collect();
    let out = ptt_upload(&samples);
    assert_eq!(out.len(), 1 + 5 + 512 * 4 + 5 + 88 * 4 + 1);
    assert_eq!(out[0], PTT_START);
    assert_eq!(&out[1..6], &[PTT_DATA, 0x00, 0x02, 0, 0]);
    assert_eq!(&out[6..10], &0u32.to_le_bytes());
    assert_eq!(&out[6 + 511 * 4..6 + 512 * 4], &511u32.to_le_bytes());
    let second: usize = 6 + 512 * 4;
    assert_eq!(&out[second..second + 5], &[PTT_DATA, 88, 0, 0, 0]);
    assert_eq!(&out[second + 5..second + 9], &512u32.to_le_bytes());
    assert_eq!(*out.last().unwrap(), PTT_END);
}

#[test]
fn ptt_upload_exact_block() {
    let samples = vec![0u32; 512];
    let out = ptt_upload(&samples);
    assert_eq!(out.len(), 1 + 5 + 2048 + 1);
    assert_eq!(&out[1..6], &[PTT_DATA, 0, 2, 0, 0]);
}

#[test]
fn server_bytes() {
    assert_eq!(server_event(0x01), ServerEvent::WakeWordDetected);
    assert_eq!(server_event(0x02), ServerEvent::Thinking);
    assert_eq!(server_event(0x03), ServerEvent::Executed);
    assert_eq!(server_event(0x04), ServerEvent::Failed);
    assert_eq!(server_event(0x00), ServerEvent::Unknown(0));
    assert_eq!(server_event(0x05), ServerEvent::Unknown(5));
    assert_eq!(server_event(0xff), ServerEvent::Unknown(0xff));
}

#[test]
fn zero_samples_match_float_comparison() {
    for x in [0.0f32, -0.0, 1.0, -1.0, f32::MIN_POSITIVE, 1e-45, f32::NAN, f32::INFINITY] {
        assert_eq!(sample_is_zero(x.to_bits()), x == 0.0, "{x}");
    }
}

#[test]
fn chunk_packet_layout() {
    let samples: Vec<u32> = (0..OWW_MODEL_CHUNK_SIZE as u32).map(|i| (i as f32 * 0.001).to_bits()).collect();
    let mut out = vec![0xaau8; CHUNK_PACKET_LEN];
    let silent = write_chunk_packet(&samples, &mut out);
    assert!(!silent);
    assert_eq!(CHUNK_PACKET_LEN, 5124);
    assert_eq!(&out[..4], &[0x00, 0x05, 0x00, 0x00]);
    for i in 0..OWW_MODEL_CHUNK_SIZE {
        assert_eq!(&out[4 + 4 * i..8 + 4 * i], &(i as f32 * 0.001).to_le_bytes());
    }
}

#[test]
fn chunk_packet_of_silence() {
    let mut samples = vec![0u32; OWW_MODEL_CHUNK_SIZE];
    samples[17] = (-0.0f32).to_bits();
    let mut out = vec![0u8; CHUNK_PACKET_LEN];
    assert!(write_chunk_packet(&samples, &mut out));
    assert_eq!(&out[4 + 4 * 17..8 + 4 * 17], &[0, 0, 0, 0x80]);
}
