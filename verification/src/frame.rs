//! Byte layouts exchanged with the `yo` server.
use vstd::prelude::*;

verus! {

/// Number of mono samples the wake-word model consumes per chunk.
pub const OWW_MODEL_CHUNK_SIZE: usize = 1280;

/// Size of one streamed microphone packet: a 4-byte sample count followed by
/// the samples as little-endian 32-bit floats.
pub const CHUNK_PACKET_LEN: usize = 4 + OWW_MODEL_CHUNK_SIZE * 4;

/// Push-to-talk marker: an utterance starts.
pub const PTT_START: u8 = 0x10;

/// Push-to-talk marker: a block of samples follows.
pub const PTT_DATA: u8 = 0x11;

/// Push-to-talk marker: the utterance is complete.
pub const PTT_END: u8 = 0x12;

/// Samples per `PTT_DATA` block when a recorded utterance is uploaded at once.
pub const PTT_UPLOAD_BLOCK: usize = 512;

/// Room name the server expects for push-to-talk sessions: `oneshot`.
pub open spec fn oneshot_room() -> Seq<u8> {
    seq![111u8, 110, 101, 115, 104, 111, 116]
}

/// Room name the server expects for intercom sessions: `intercom`.
pub open spec fn intercom_room() -> Seq<u8> {
    seq![105u8, 110, 116, 101, 114, 99, 111, 109]
}

/// The bytes of `oneshot`.
pub fn oneshot_room_bytes() -> (r: Vec<u8>)
    ensures
        r@ == oneshot_room(),
{
    let r: Vec<u8> = vec![111u8, 110, 101, 115, 104, 111, 116];
    assert(r@ =~= oneshot_room());
    r
}

/// The bytes of `intercom`.
pub fn intercom_room_bytes() -> (r: Vec<u8>)
    ensures
        r@ == intercom_room(),
{
    let r: Vec<u8> = vec![105u8, 110, 116, 101, 114, 99, 111, 109];
    assert(r@ =~= intercom_room());
    r
}

/// The little-endian encoding of a 32-bit value.
pub open spec fn le32(x: u32) -> Seq<u8> {
    seq![
        (x % 256) as u8,
        ((x / 256) % 256) as u8,
        ((x / 65536) % 256) as u8,
        ((x / 16777216) % 256) as u8,
    ]
}

/// Samples given by their 32-bit patterns, each laid out little-endian.
pub open spec fn samples_le(s: Seq<u32>) -> Seq<u8> {
    Seq::new(4 * s.len(), |j: int| le32(s[j / 4])[j % 4])
}

/// A handshake: the room name's length, little-endian, then the name.
pub open spec fn handshake_bytes(room: Seq<u8>) -> Seq<u8> {
    le32(room.len() as u32) + room
}

/// The header that announces a block of `count` push-to-talk samples.
pub open spec fn ptt_header_bytes(count: u32) -> Seq<u8> {
    seq![PTT_DATA] + le32(count)
}

/// A streamed microphone packet carrying `samples`.
pub open spec fn chunk_packet(samples: Seq<u32>) -> Seq<u8> {
    le32(samples.len() as u32) + samples_le(samples)
}

/// The `PTT_DATA` blocks of an uploaded utterance: consecutive runs of at
/// most `PTT_UPLOAD_BLOCK` samples, each behind its header.
pub open spec fn ptt_blocks(s: Seq<u32>) -> Seq<u8>
    decreases s.len(),
{
    if s.len() == 0 {
        Seq::empty()
    } else {
        let n = if s.len() < PTT_UPLOAD_BLOCK { s.len() } else { PTT_UPLOAD_BLOCK as nat };
        ptt_header_bytes(n as u32) + samples_le(s.take(n as int)) + ptt_blocks(s.skip(n as int))
    }
}

/// Everything sent after the handshake when a whole utterance is uploaded.
pub open spec fn ptt_upload_bytes(s: Seq<u32>) -> Seq<u8> {
    seq![PTT_START] + ptt_blocks(s) + seq![PTT_END]
}

/// An `f32` given by its bit pattern compares equal to `0.0` exactly when
/// every bit but the sign bit is clear.
pub open spec fn is_zero_sample(bits: u32) -> bool {
    bits % 0x8000_0000 == 0
}

/// Whether every sample of a chunk is zero.
pub open spec fn all_zero(s: Seq<u32>) -> bool {
    forall|i: int| 0 <= i < s.len() ==> #[trigger] is_zero_sample(s[i])
}

/// What a byte from the server announces.
#[derive(Clone, Copy, Debug, PartialEq, Eq, Structural)]
pub enum ServerEvent {
    /// `0x01`: the wake word was heard.
    WakeWordDetected,
    /// `0x02`: speech-to-text and intent recognition started.
    Thinking,
    /// `0x03`: the command was executed.
    Executed,
    /// `0x04`: the command failed.
    Failed,
    /// Any other byte.
    Unknown(u8),
}

pub open spec fn spec_server_event(byte: u8) -> ServerEvent {
    if byte == 1 {
        ServerEvent::WakeWordDetected
    } else if byte == 2 {
        ServerEvent::Thinking
    } else if byte == 3 {
        ServerEvent::Executed
    } else if byte == 4 {
        ServerEvent::Failed
    } else {
        ServerEvent::Unknown(byte)
    }
}

/// Decodes a status byte sent by the server.
pub fn server_event(byte: u8) -> (e: ServerEvent)
    ensures
        e == spec_server_event(byte),
{
    if byte == 1 {
        ServerEvent::WakeWordDetected
    } else if byte == 2 {
        ServerEvent::Thinking
    } else if byte == 3 {
        ServerEvent::Executed
    } else if byte == 4 {
        ServerEvent::Failed
    } else {
        ServerEvent::Unknown(byte)
    }
}

/// Whether `f32` bits compare equal to zero.
pub fn sample_is_zero(bits: u32) -> (z: bool)
    ensures
        z == is_zero_sample(bits),
{
    bits % 0x8000_0000 == 0
}

/// Appends the little-endian bytes of `x`.
pub fn push_le32(out: &mut Vec<u8>, x: u32)
    ensures
        final(out)@ == old(out)@ + le32(x),
{
    out.push((x % 256) as u8);
    out.push(((x / 256) % 256) as u8);
    out.push(((x / 65536) % 256) as u8);
    out.push(((x / 16777216) % 256) as u8);
    assert(final(out)@ =~= old(out)@ + le32(x));
}

/// The little-endian bytes of `x`.
pub fn le32_bytes(x: u32) -> (b: Vec<u8>)
    ensures
        b@ == le32(x),
{
    let mut b: Vec<u8> = Vec::new();
    push_le32(&mut b, x);
    assert(b@ =~= le32(x));
    b
}

/// The handshake that opens a session in `room`.
pub fn handshake(room: &[u8]) -> (out: Vec<u8>)
    requires
        room@.len() <= u32::MAX,
    ensures
        out@ == handshake_bytes(room@),
{
    let mut out = le32_bytes(room.len() as u32);
    let mut i: usize = 0;
    while i < room.len()
        invariant
            i <= room@.len(),
            out@ == le32(room@.len() as u32) + room@.subrange(0, i as int),
        decreases room@.len() - i,
    {
        out.push(room[i]);
        i = i + 1;
        assert(out@ =~= le32(room@.len() as u32) + room@.subrange(0, i as int));
    }
    assert(room@.subrange(0, room@.len() as int) =~= room@);
    out
}

/// The header of a push-to-talk block of `count` samples.
pub fn ptt_header(count: u32) -> (out: Vec<u8>)
    ensures
        out@ == ptt_header_bytes(count),
{
    let mut out: Vec<u8> = Vec::new();
    out.push(PTT_DATA);
    push_le32(&mut out, count);
    assert(out@ =~= ptt_header_bytes(count));
    out
}

proof fn lemma_samples_le_push(s: Seq<u32>, x: u32)
    ensures
        samples_le(s.push(x)) =~= samples_le(s) + le32(x),
{
    let a = samples_le(s.push(x));
    let b = samples_le(s) + le32(x);
    assert forall|j: int| 0 <= j < a.len() implies a[j] == b[j] by {
        if j < 4 * s.len() {
            assert(j / 4 < s.len()) by (nonlinear_arith)
                requires 0 <= j < 4 * s.len();
        } else {
            let k = j - 4 * s.len();
            assert(j / 4 == s.len() && j % 4 == k) by (nonlinear_arith)
                requires k == j - 4 * s.len(), 0 <= k < 4;
        }
    }
}

/// Appends every sample of `samples[from..to]` little-endian.
fn push_samples_le(out: &mut Vec<u8>, samples: &[u32], from: usize, to: usize)
    requires
        from <= to <= samples@.len(),
    ensures
        final(out)@ == old(out)@ + samples_le(samples@.subrange(from as int, to as int)),
{
    let mut i = from;
    while i < to
        invariant
            from <= i <= to <= samples@.len(),
            out@ == old(out)@ + samples_le(samples@.subrange(from as int, i as int)),
        decreases to - i,
    {
        push_le32(out, samples[i]);
        proof {
            let s = samples@.subrange(from as int, i as int);
            assert(samples@.subrange(from as int, i + 1) =~= s.push(samples@[i as int]));
            lemma_samples_le_push(s, samples@[i as int]);
        }
        i = i + 1;
    }
}

proof fn lemma_ptt_blocks_step(s: Seq<u32>, i: int, n: int)
    requires
        0 <= i < s.len(),
        n == if s.len() - i < PTT_UPLOAD_BLOCK { s.len() - i } else { PTT_UPLOAD_BLOCK as int },
    ensures
        ptt_blocks(s.skip(i)) == ptt_header_bytes(n as u32) + samples_le(s.subrange(i, i + n))
            + ptt_blocks(s.skip(i + n)),
{
    let t = s.skip(i);
    assert(t.take(n) =~= s.subrange(i, i + n));
    assert(t.skip(n) =~= s.skip(i + n));
}

/// The bytes that upload a whole recorded utterance after the handshake:
/// the start marker, blocks of at most `PTT_UPLOAD_BLOCK` samples each behind
/// its header, and the end marker.
pub fn ptt_upload(samples: &[u32]) -> (out: Vec<u8>)
    ensures
        out@ == ptt_upload_bytes(samples@),
{
    let mut out: Vec<u8> = Vec::new();
    out.push(PTT_START);
    let len = samples.len();
    let mut i: usize = 0;
    assert(samples@.skip(0) =~= samples@);
    while i < len
        invariant
            len == samples@.len(),
            i <= len,
            seq![PTT_START] + ptt_blocks(samples@) == out@ + ptt_blocks(samples@.skip(i as int)),
        decreases len - i,
    {
        let n: usize = if len - i < PTT_UPLOAD_BLOCK { len - i } else { PTT_UPLOAD_BLOCK };
        proof {
            lemma_ptt_blocks_step(samples@, i as int, n as int);
        }
        let ghost before = out@;
        let header = ptt_header(n as u32);
        let mut k: usize = 0;
        while k < header.len()
            invariant
                k <= header@.len(),
                out@ == before + header@.subrange(0, k as int),
            decreases header@.len() - k,
        {
            out.push(header[k]);
            k = k + 1;
            assert(out@ =~= before + header@.subrange(0, k as int));
        }
        assert(header@.subrange(0, header@.len() as int) =~= header@);
        push_samples_le(&mut out, samples, i, i + n);
        assert(seq![PTT_START] + ptt_blocks(samples@) =~= out@ + ptt_blocks(samples@.skip(i + n)));
        i = i + n;
    }
    assert(samples@.skip(len as int) =~= Seq::<u32>::empty());
    out.push(PTT_END);
    assert(out@ =~= ptt_upload_bytes(samples@));
    out
}

/// Fills `out` with the streamed packet for `samples` and says whether every
/// sample is zero.
pub fn write_chunk_packet(samples: &[u32], out: &mut [u8]) -> (silent: bool)
    requires
        samples@.len() == OWW_MODEL_CHUNK_SIZE,
        old(out)@.len() == CHUNK_PACKET_LEN,
    ensures
        final(out)@ == chunk_packet(samples@),
        silent == all_zero(samples@),
{
    let n = samples.len();
    let prefix = le32_bytes(OWW_MODEL_CHUNK_SIZE as u32);
    out[0] = prefix[0];
    out[1] = prefix[1];
    out[2] = prefix[2];
    out[3] = prefix[3];
    let mut silent = true;
    let mut i: usize = 0;
    while i < n
        invariant
            n == samples@.len() == OWW_MODEL_CHUNK_SIZE,
            out@.len() == CHUNK_PACKET_LEN,
            i <= n,
            out@.subrange(0, 4) == le32(OWW_MODEL_CHUNK_SIZE as u32),
            forall|j: int| 0 <= j < 4 * i ==> #[trigger] out@[4 + j] == samples_le(samples@)[j],
            silent == (forall|k: int| 0 <= k < i ==> #[trigger] is_zero_sample(samples@[k])),
        decreases n - i,
    {
        let x = samples[i];
        let b = le32_bytes(x);
        let off = 4 + 4 * i;
        let ghost before = out@;
        out[off] = b[0];
        out[off + 1] = b[1];
        out[off + 2] = b[2];
        out[off + 3] = b[3];
        proof {
            assert(out@.subrange(0, 4) =~= before.subrange(0, 4));
            assert forall|j: int| 0 <= j < 4 * (i + 1) implies #[trigger] out@[4 + j] == samples_le(samples@)[j] by {
                if j < 4 * i {
                    assert(out@[4 + j] == before[4 + j]);
                } else {
                    let k = j - 4 * i;
                    assert(j / 4 == i && j % 4 == k) by (nonlinear_arith)
                        requires k == j - 4 * i, 0 <= k < 4;
                }
            }
        }
        if !sample_is_zero(x) {
            silent = false;
        }
        i = i + 1;
    }
    proof {
        let p = chunk_packet(samples@);
        assert forall|j: int| 0 <= j < p.len() implies out@[j] == p[j] by {
            if j < 4 {
                assert(out@[j] == out@.subrange(0, 4)[j]);
            } else {
                assert(out@[4 + (j - 4)] == samples_le(samples@)[j - 4]);
            }
        }
        assert(out@ =~= p);
    }
    silent
}

/// The value that four little-endian bytes stand for.
pub open spec fn le32_value(b: Seq<u8>) -> int {
    b[0] as int + 256 * b[1] as int + 65536 * b[2] as int + 16777216 * b[3] as int
}

/// The four bytes of `le32` read back give the value they encode.
pub proof fn law_le32_reads_back(x: u32)
    ensures
        le32(x).len() == 4,
        le32_value(le32(x)) == x,
{
    let b = le32(x);
    assert(b[0] == x % 256);
    assert(b[1] == (x / 256) % 256);
    assert(b[2] == (x / 65536) % 256);
    assert(b[3] == (x / 16777216) % 256);
    assert(x / 16777216 < 256);
    assert(le32_value(b) == x) by (nonlinear_arith)
        requires
            b[0] == x % 256,
            b[1] == (x / 256) % 256,
            b[2] == (x / 65536) % 256,
            b[3] == (x / 16777216) % 256,
            x / 16777216 < 256,
            0 <= x,
    {
    }
}

/// A handshake is the room name's length, readable back from its first four
/// bytes, followed by the room name itself.
pub proof fn law_handshake_layout(room: Seq<u8>)
    requires
        room.len() <= u32::MAX,
    ensures
        handshake_bytes(room).len() == 4 + room.len(),
        le32_value(handshake_bytes(room).subrange(0, 4)) == room.len(),
        handshake_bytes(room).skip(4) == room,
{
    law_le32_reads_back(room.len() as u32);
    assert(handshake_bytes(room).subrange(0, 4) =~= le32(room.len() as u32));
    assert(handshake_bytes(room).skip(4) =~= room);
}

/// A streamed packet starts with the sample count, readable back from its
/// first four bytes, and holds sample `i` little-endian at `4 + 4 * i`.
pub proof fn law_chunk_packet_layout(samples: Seq<u32>, i: int)
    requires
        samples.len() <= u32::MAX,
        0 <= i < samples.len(),
    ensures
        chunk_packet(samples).len() == 4 + 4 * samples.len(),
        le32_value(chunk_packet(samples).subrange(0, 4)) == samples.len(),
        chunk_packet(samples).subrange(4 + 4 * i, 8 + 4 * i) == le32(samples[i]),
{
    law_le32_reads_back(samples.len() as u32);
    let p = chunk_packet(samples);
    assert(p.subrange(0, 4) =~= le32(samples.len() as u32));
    assert forall|k: int| 0 <= k < 4 implies #[trigger] p.subrange(4 + 4 * i, 8 + 4 * i)[k] == le32(samples[i])[k] by {
        assert((4 * i + k) / 4 == i && (4 * i + k) % 4 == k) by (nonlinear_arith)
            requires 0 <= k < 4;
        assert(4 * i + k < 4 * samples.len()) by (nonlinear_arith)
            requires 0 <= k < 4, i < samples.len();
    }
    assert(p.subrange(4 + 4 * i, 8 + 4 * i) =~= le32(samples[i]));
}

} // verus!
