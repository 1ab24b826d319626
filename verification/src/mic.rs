//! The microphone side: decoding I²S frames and cutting the sample stream
//! into chunks for the wake-word model.
use vstd::prelude::*;
use crate::frame::{all_zero, chunk_packet, write_chunk_packet, CHUNK_PACKET_LEN, OWW_MODEL_CHUNK_SIZE};

verus! {

/// Stereo samples (interleaved left/right) delivered by one I²S read.
pub const STEREO_SAMPLES_PER_READ: usize = 256;

/// Mono samples that one I²S read yields.
pub const MONO_SAMPLES_PER_READ: usize = 128;

/// The `i16` whose little-endian bytes are `lo`, `hi`.
pub open spec fn le_i16(lo: u8, hi: u8) -> int {
    let u = lo as int + 256 * hi as int;
    if u >= 32768 {
        u - 65536
    } else {
        u
    }
}

/// Half of `s`, rounded toward zero.
pub open spec fn half_toward_zero(s: int) -> int {
    if s >= 0 {
        s / 2
    } else {
        -((-s) / 2)
    }
}

/// Decodes raw I²S bytes into 16-bit samples; a trailing odd byte is ignored.
pub fn decode_samples(bytes: &[u8]) -> (out: Vec<i16>)
    ensures
        out@.len() == bytes@.len() / 2,
        forall|i: int|
            0 <= i < out@.len() ==> #[trigger] out@[i] as int == le_i16(bytes@[2 * i], bytes@[2 * i + 1]),
{
    let len = bytes.len();
    let n = len / 2;
    let mut out: Vec<i16> = Vec::new();
    let mut i: usize = 0;
    while i < n
        invariant
            len == bytes@.len(),
            n == len / 2,
            i <= n,
            out@.len() == i,
            forall|k: int|
                0 <= k < i ==> #[trigger] out@[k] as int == le_i16(bytes@[2 * k], bytes@[2 * k + 1]),
        decreases n - i,
    {
        assert(2 * i + 1 < bytes@.len());
        let lo = bytes[2 * i];
        let hi = bytes[2 * i + 1];
        let u: i32 = lo as i32 + 256 * (hi as i32);
        let v: i32 = if u >= 32768 { u - 65536 } else { u };
        out.push(v as i16);
        i = i + 1;
    }
    out
}

/// Averages interleaved left/right samples into mono, rounding toward zero.
pub fn downmix(stereo: &[i16]) -> (mono: Vec<i16>)
    ensures
        mono@.len() == stereo@.len() / 2,
        forall|i: int|
            0 <= i < mono@.len() ==> #[trigger] mono@[i] as int == half_toward_zero(
                stereo@[2 * i] as int + stereo@[2 * i + 1] as int,
            ),
{
    let len = stereo.len();
    let n = len / 2;
    let mut mono: Vec<i16> = Vec::new();
    let mut i: usize = 0;
    while i < n
        invariant
            len == stereo@.len(),
            n == len / 2,
            i <= n,
            mono@.len() == i,
            forall|k: int|
                0 <= k < i ==> #[trigger] mono@[k] as int == half_toward_zero(
                    stereo@[2 * k] as int + stereo@[2 * k + 1] as int,
                ),
        decreases n - i,
    {
        assert(2 * i + 1 < stereo@.len());
        let s: i32 = stereo[2 * i] as i32 + stereo[2 * i + 1] as i32;
        let h: i32 = if s >= 0 { s / 2 } else { -((-s) / 2) };
        mono.push(h as i16);
        i = i + 1;
    }
    mono
}

proof fn lemma_all_zero_push(s: Seq<u32>, x: u32)
    ensures
        all_zero(s.push(x)) == (all_zero(s) && crate::frame::is_zero_sample(x)),
{
    if all_zero(s.push(x)) {
        assert forall|k: int| 0 <= k < s.len() implies #[trigger] crate::frame::is_zero_sample(s[k]) by {
            assert(s.push(x)[k] == s[k]);
        }
        assert(s.push(x)[s.len() as int] == x);
    }
    if all_zero(s) && crate::frame::is_zero_sample(x) {
        assert forall|k: int| 0 <= k < s.push(x).len() implies #[trigger] crate::frame::is_zero_sample(s.push(x)[k]) by {
            if k < s.len() {
                assert(s.push(x)[k] == s[k]);
            }
        }
    }
}

/// What a [`Microphone`] holds: the samples not yet handed out, whether the
/// last chunk was silent, and the chunk length.
pub struct MicrophoneState {
    pub pending: Seq<u32>,
    pub silent: bool,
    pub chunk_size: nat,
}

/// The state after `push_samples(samples)`.
pub open spec fn after_push(m: MicrophoneState, samples: Seq<u32>) -> MicrophoneState {
    MicrophoneState { pending: m.pending + samples, ..m }
}

/// The chunk handed out by `take_chunk`, and the state after it.
pub open spec fn after_take(m: MicrophoneState) -> (Seq<u32>, MicrophoneState) {
    let chunk = m.pending.take(m.chunk_size as int);
    (chunk, MicrophoneState { pending: m.pending.skip(m.chunk_size as int), silent: all_zero(chunk), ..m })
}

/// Collects mono samples (as `f32` bit patterns) until a chunk for the
/// wake-word model is complete, and tracks whether the microphone is silent.
pub struct Microphone {
    accum_buffer: Vec<u32>,
    silent: bool,
    chunk_size: usize,
}

impl View for Microphone {
    type V = MicrophoneState;

    closed spec fn view(&self) -> MicrophoneState {
        MicrophoneState { pending: self.accum_buffer@, silent: self.silent, chunk_size: self.chunk_size as nat }
    }
}

impl Microphone {
    /// A microphone that cuts chunks of `OWW_MODEL_CHUNK_SIZE` samples.
    pub fn new() -> (m: Self)
        ensures
            m@.pending == Seq::<u32>::empty(),
            !m@.silent,
            m@.chunk_size == OWW_MODEL_CHUNK_SIZE,
    {
        Self::with_chunk_size(OWW_MODEL_CHUNK_SIZE)
    }

    /// A microphone that cuts chunks of `chunk_size` samples.
    pub fn with_chunk_size(chunk_size: usize) -> (m: Self)
        ensures
            m@.pending == Seq::<u32>::empty(),
            !m@.silent,
            m@.chunk_size == chunk_size,
    {
        Microphone { accum_buffer: Vec::with_capacity(chunk_size), silent: false, chunk_size }
    }

    /// Whether more samples are needed before a chunk can be taken.
    pub fn needs_samples(&self) -> (b: bool)
        ensures
            b == (self@.pending.len() < self@.chunk_size),
    {
        self.accum_buffer.len() < self.chunk_size
    }

    /// How many samples are waiting.
    pub fn pending_len(&self) -> (n: usize)
        ensures
            n == self@.pending.len(),
    {
        self.accum_buffer.len()
    }

    /// Whether the last chunk taken was all zeros.
    pub fn is_silent(&self) -> (b: bool)
        ensures
            b == self@.silent,
    {
        self.silent
    }

    /// Appends freshly read samples.
    pub fn push_samples(&mut self, samples: &[u32])
        requires
            old(self)@.pending.len() + samples@.len() <= usize::MAX,
        ensures
            final(self)@.pending == old(self)@.pending + samples@,
            final(self)@.silent == old(self)@.silent,
            final(self)@.chunk_size == old(self)@.chunk_size,
            final(self)@ == after_push(old(self)@, samples@),
    {
        let mut i: usize = 0;
        let ghost start = self.accum_buffer@;
        while i < samples.len()
            invariant
                i <= samples@.len(),
                start.len() + samples@.len() <= usize::MAX,
                self.accum_buffer@ == start + samples@.subrange(0, i as int),
                self.silent == old(self).silent,
                self.chunk_size == old(self).chunk_size,
            decreases samples@.len() - i,
        {
            self.accum_buffer.push(samples[i]);
            i = i + 1;
            assert(self.accum_buffer@ =~= start + samples@.subrange(0, i as int));
        }
        assert(samples@.subrange(0, samples@.len() as int) =~= samples@);
    }

    /// Hands out the first `chunk_size` pending samples (the rest stays) and
    /// records whether they were all zero.
    pub fn take_chunk(&mut self) -> (r: (Vec<u32>, bool))
        requires
            old(self)@.pending.len() >= old(self)@.chunk_size,
        ensures
            r.0@ == old(self)@.pending.take(old(self)@.chunk_size as int),
            final(self)@.pending == old(self)@.pending.skip(old(self)@.chunk_size as int),
            r.1 == all_zero(r.0@),
            final(self)@.silent == r.1,
            final(self)@.chunk_size == old(self)@.chunk_size,
            (r.0@, final(self)@) == after_take(old(self)@),
    {
        let n = self.chunk_size;
        let mut chunk: Vec<u32> = Vec::new();
        let mut rest: Vec<u32> = Vec::new();
        let mut all_zero_so_far = true;
        let mut i: usize = 0;
        while i < self.accum_buffer.len()
            invariant
                n == self.chunk_size,
                n <= self.accum_buffer@.len(),
                i <= self.accum_buffer@.len(),
                i <= n ==> chunk@ == self.accum_buffer@.subrange(0, i as int),
                i > n ==> chunk@ == self.accum_buffer@.subrange(0, n as int),
                i <= n ==> rest@ == Seq::<u32>::empty(),
                i > n ==> rest@ == self.accum_buffer@.subrange(n as int, i as int),
                all_zero_so_far == all_zero(chunk@),
            decreases self.accum_buffer@.len() - i,
        {
            let x = self.accum_buffer[i];
            if i < n {
                proof {
                    lemma_all_zero_push(chunk@, x);
                }
                chunk.push(x);
                if !crate::frame::sample_is_zero(x) {
                    all_zero_so_far = false;
                }
            } else {
                rest.push(x);
            }
            i = i + 1;
            assert(i <= n ==> chunk@ =~= self.accum_buffer@.subrange(0, i as int));
            assert(i > n ==> rest@ =~= self.accum_buffer@.subrange(n as int, i as int));
        }
        proof {
            assert(chunk@ =~= self.accum_buffer@.take(n as int));
            assert(rest@ =~= self.accum_buffer@.skip(n as int));
        }
        self.accum_buffer = rest;
        self.silent = all_zero_so_far;
        (chunk, all_zero_so_far)
    }

    /// Fills `out` with the streamed packet of the pending chunk, empties the
    /// buffer and records whether the chunk was all zero.
    pub fn frame_chunk_into(&mut self, out: &mut [u8]) -> (silent: bool)
        requires
            old(self)@.pending.len() == OWW_MODEL_CHUNK_SIZE,
            old(out)@.len() == CHUNK_PACKET_LEN,
        ensures
            final(out)@ == chunk_packet(old(self)@.pending),
            silent == all_zero(old(self)@.pending),
            final(self)@.pending == Seq::<u32>::empty(),
            final(self)@.silent == silent,
            final(self)@.chunk_size == old(self)@.chunk_size,
            old(self)@.chunk_size == OWW_MODEL_CHUNK_SIZE ==> (old(self)@.pending, final(self)@)
                == after_take(old(self)@),
    {
        proof {
            let p = self.accum_buffer@;
            assert(p.take(OWW_MODEL_CHUNK_SIZE as int) =~= p);
            assert(p.skip(OWW_MODEL_CHUNK_SIZE as int) =~= Seq::<u32>::empty());
        }
        let silent = write_chunk_packet(self.accum_buffer.as_slice(), out);
        self.accum_buffer.clear();
        self.silent = silent;
        silent
    }
}

/// Chunking never loses or reorders samples: after samples are pushed and
/// a chunk is taken, the chunk followed by what stays pending is exactly what
/// was pending followed by what was pushed.
pub proof fn law_chunks_keep_sample_order(pending: Seq<u32>, pushed: Seq<u32>, chunk_size: nat)
    requires
        pending.len() + pushed.len() >= chunk_size,
    ensures
        ({
            let all = pending + pushed;
            all.take(chunk_size as int) + all.skip(chunk_size as int) == all
        }),
{
    let all = pending + pushed;
    assert(all.take(chunk_size as int) + all.skip(chunk_size as int) =~= all);
}

/// A call on a [`Microphone`]: adding samples, or taking a chunk.
pub enum ChunkerCall {
    Push(Seq<u32>),
    Take,
}

/// The chunks handed out by a sequence of calls, and the state after them.
pub open spec fn run_calls(m: MicrophoneState, calls: Seq<ChunkerCall>) -> (Seq<Seq<u32>>, MicrophoneState)
    decreases calls.len(),
{
    if calls.len() == 0 {
        (Seq::empty(), m)
    } else {
        let (chunks, m1) = run_calls(m, calls.drop_last());
        match calls.last() {
            ChunkerCall::Push(s) => (chunks, after_push(m1, s)),
            ChunkerCall::Take => {
                let (c, m2) = after_take(m1);
                (chunks.push(c), m2)
            },
        }
    }
}

/// Whether every `Take` in `calls` comes when a whole chunk is pending, as
/// `take_chunk` requires.
pub open spec fn calls_allowed(m: MicrophoneState, calls: Seq<ChunkerCall>) -> bool
    decreases calls.len(),
{
    if calls.len() == 0 {
        true
    } else {
        &&& calls_allowed(m, calls.drop_last())
        &&& calls.last() is Take ==> run_calls(m, calls.drop_last()).1.pending.len() >= m.chunk_size
    }
}

/// All samples pushed by `calls`, in order.
pub open spec fn pushed(calls: Seq<ChunkerCall>) -> Seq<u32>
    decreases calls.len(),
{
    if calls.len() == 0 {
        Seq::empty()
    } else {
        match calls.last() {
            ChunkerCall::Push(s) => pushed(calls.drop_last()) + s,
            ChunkerCall::Take => pushed(calls.drop_last()),
        }
    }
}

/// The chunks laid end to end.
pub open spec fn flatten(chunks: Seq<Seq<u32>>) -> Seq<u32>
    decreases chunks.len(),
{
    if chunks.len() == 0 {
        Seq::empty()
    } else {
        flatten(chunks.drop_last()) + chunks.last()
    }
}

/// Over any sequence of `push_samples` and `take_chunk` calls, no sample is
/// lost, duplicated or reordered: the chunks handed out, laid end to end and
/// followed by what is still pending, are exactly what was pending at first
/// followed by everything pushed; every chunk has the chunk length.
pub proof fn law_chunk_order_across_calls(m: MicrophoneState, calls: Seq<ChunkerCall>)
    requires
        calls_allowed(m, calls),
    ensures
        ({
            let (chunks, m1) = run_calls(m, calls);
            &&& flatten(chunks) + m1.pending == m.pending + pushed(calls)
            &&& forall|j: int| 0 <= j < chunks.len() ==> (#[trigger] chunks[j]).len() == m.chunk_size
            &&& m1.chunk_size == m.chunk_size
        }),
    decreases calls.len(),
{
    if calls.len() > 0 {
        let prev = calls.drop_last();
        law_chunk_order_across_calls(m, prev);
        let (chunks, m1) = run_calls(m, prev);
        match calls.last() {
            ChunkerCall::Push(s) => {
                assert(flatten(chunks) + (m1.pending + s) =~= (flatten(chunks) + m1.pending) + s);
                assert(m.pending + (pushed(prev) + s) =~= (m.pending + pushed(prev)) + s);
            },
            ChunkerCall::Take => {
                let (c, m2) = after_take(m1);
                let all = chunks.push(c);
                assert(all.drop_last() =~= chunks);
                assert(flatten(all) == flatten(chunks) + c);
                assert(c + m2.pending =~= m1.pending);
                assert(flatten(all) + m2.pending =~= flatten(chunks) + (c + m2.pending));
                assert forall|j: int| 0 <= j < all.len() implies (#[trigger] all[j]).len() == m.chunk_size by {
                    if j < chunks.len() {
                        assert(all[j] == chunks[j]);
                    }
                }
            },
        }
    }
}

proof fn lemma_flatten_uniform(chunks: Seq<Seq<u32>>, cs: nat, j: int)
    requires
        forall|k: int| 0 <= k < chunks.len() ==> (#[trigger] chunks[k]).len() == cs,
        0 <= j < chunks.len(),
    ensures
        flatten(chunks).len() == cs * chunks.len(),
        flatten(chunks).subrange(cs * j, cs * j + cs) == chunks[j],
    decreases chunks.len(),
{
    let prev = chunks.drop_last();
    assert forall|k: int| 0 <= k < prev.len() implies (#[trigger] prev[k]).len() == cs by {
        assert(prev[k] == chunks[k]);
    }
    if prev.len() > 0 {
        lemma_flatten_uniform(prev, cs, 0);
    } else {
        assert(flatten(prev) == Seq::<u32>::empty());
    }
    assert(cs * chunks.len() == cs * prev.len() + cs) by (nonlinear_arith)
        requires chunks.len() == prev.len() + 1;
    if j < prev.len() {
        lemma_flatten_uniform(prev, cs, j);
        assert(cs * j + cs <= cs * prev.len()) by (nonlinear_arith)
            requires j < prev.len(), j >= 0;
        assert(flatten(chunks).subrange(cs * j, cs * j + cs) =~= flatten(prev).subrange(cs * j, cs * j + cs));
    } else {
        assert(j == prev.len());
        assert(flatten(chunks).subrange(cs * j, cs * j + cs) =~= chunks.last());
    }
}

/// Starting from an empty microphone, the `j`-th chunk handed out is exactly
/// samples `j * chunk_size .. (j + 1) * chunk_size` of the pushed stream.
pub proof fn law_chunks_are_consecutive_blocks(m: MicrophoneState, calls: Seq<ChunkerCall>, j: int)
    requires
        calls_allowed(m, calls),
        m.pending.len() == 0,
        0 <= j < run_calls(m, calls).0.len(),
    ensures
        run_calls(m, calls).0[j] == pushed(calls).subrange(
            m.chunk_size * j,
            m.chunk_size * j + m.chunk_size,
        ),
{
    law_chunk_order_across_calls(m, calls);
    let (chunks, m1) = run_calls(m, calls);
    let cs = m.chunk_size;
    lemma_flatten_uniform(chunks, cs, j);
    assert(m.pending + pushed(calls) =~= pushed(calls));
    assert(cs * j + cs <= cs * chunks.len()) by (nonlinear_arith)
        requires j < chunks.len(), j >= 0;
    assert((flatten(chunks) + m1.pending).subrange(cs * j, cs * j + cs) =~= flatten(chunks).subrange(
        cs * j,
        cs * j + cs,
    ));
}

} // verus!
