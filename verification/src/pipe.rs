use vstd::prelude::*;

verus! {

/// Capacity in bytes of the playback ring buffer.
pub const RING_BUFFER_SIZE: usize = 16384;

/// The byte pipe that carries audio from producers (network stream, sound
/// effects) to the speaker task, which reads it through `pipe`.
#[verifier::external_body]
pub struct AudioPipe {
    pub pipe: embassy_sync::pipe::Pipe<embassy_sync::blocking_mutex::raw::CriticalSectionRawMutex, RING_BUFFER_SIZE>,
}

#[verifier::external_type_specification]
#[verifier::external_body]
pub struct ExTryWriteError(embassy_sync::pipe::TryWriteError);

impl AudioPipe {
    /// `Pipe::try_write` of embassy-sync: copies a prefix of `buf` into the
    /// ring buffer and returns its length, which is at most `buf.len()` and
    /// the capacity and is nonzero when `buf` is nonempty; fails with `Full`
    /// when there is no room. How much room there is depends on how far the
    /// speaker task has read, so the length taken is not stated further, and
    /// the pipe's contents, which change behind a shared reference, are not
    /// modeled.
    #[verifier::external_body]
    fn try_write(&self, buf: &[u8]) -> (r: Result<usize, embassy_sync::pipe::TryWriteError>)
        ensures
            r matches Ok(n) ==> n <= buf@.len() && n <= RING_BUFFER_SIZE && (buf@.len() > 0 ==> n > 0),
    {
        self.pipe.try_write(buf)
    }
}

/// The pipe had no room for even one byte.
#[derive(Clone, Copy, Debug, PartialEq, Eq, Structural)]
pub struct PipeFull;

/// The library's reading of a pipe write's result.
fn pipe_result(r: Result<usize, embassy_sync::pipe::TryWriteError>) -> (out: Result<usize, PipeFull>)
    ensures
        match r {
            Ok(n) => out == Ok::<usize, PipeFull>(n),
            Err(_) => out == Err::<usize, PipeFull>(PipeFull),
        },
{
    match r {
        Ok(n) => Ok(n),
        Err(_) => Err(PipeFull),
    }
}

/// Offers `data` to the speaker without waiting. `Ok(n)`: the pipe took the
/// first `n` bytes, at least one when `data` is nonempty (it may take fewer
/// than its free space when that space wraps round the end of the ring).
/// `Err(PipeFull)`: the pipe had no room.
pub fn try_play(pipe: &AudioPipe, data: &[u8]) -> (r: Result<usize, PipeFull>)
    ensures
        r matches Ok(n) ==> n <= data@.len() && n <= RING_BUFFER_SIZE && (data@.len() > 0 ==> n > 0),
{
    pipe_result(pipe.try_write(data))
}

/// The number of bytes a pipe write took.
pub open spec fn taken(r: Result<usize, PipeFull>) -> nat {
    match r {
        Ok(n) => n as nat,
        Err(_) => 0,
    }
}

/// The number of bytes a pipe write took: the count it reports, or zero when
/// the pipe was full.
pub fn taken_bytes(r: Result<usize, PipeFull>) -> (n: usize)
    ensures
        n == taken(r),
{
    match r {
        Ok(k) => k,
        Err(_) => 0,
    }
}

/// Offers `data` to the speaker without waiting and returns how many bytes
/// the pipe took: zero when it is full (or `data` is empty), otherwise at
/// least one and at most what fits.
pub fn play(pipe: &AudioPipe, data: &[u8]) -> (n: usize)
    ensures
        n <= data@.len(),
        n <= RING_BUFFER_SIZE,
{
    taken_bytes(try_play(pipe, data))
}

/// The position in a sound after the pipe answered an offer of
/// `sound[offset..len]`: moved on by what it took, unchanged when it was full.
pub fn advance_offset(offset: usize, r: Result<usize, PipeFull>, len: usize) -> (next: usize)
    requires
        offset <= len,
        r matches Ok(n) ==> n <= len - offset,
    ensures
        next == offset + taken(r),
        offset <= next <= len,
{
    offset + taken_bytes(r)
}

/// One attempt to play the rest of a sound: offers `sound[offset..]` to the
/// pipe and returns the offset of the first byte not yet taken, as
/// `advance_offset` computes it from the pipe's answer. The caller pauses
/// before the next attempt when the offset did not move.
pub fn play_sound_step(pipe: &AudioPipe, sound: &[u8], offset: usize) -> (next: usize)
    requires
        offset <= sound@.len(),
    ensures
        offset <= next <= sound@.len(),
        offset < sound@.len() ==> next - offset <= RING_BUFFER_SIZE,
        offset == sound@.len() ==> next == offset,
{
    let rest = vstd::slice::slice_subrange(sound, offset, sound.len());
    let r = try_play(pipe, rest);
    advance_offset(offset, r, sound.len())
}

} // verus!
