use vstd::prelude::*;

verus! {

/// One decoded audio buffer, as a voice sees it: the backend buffer
/// identifier the decoder produced when it uploaded the samples.
///
/// Decoding a file into such a buffer is the loader collaborator's job; this
/// crate only binds voices to the result. The samples themselves are
/// immutable and live in the backend, so one `SoundData` may be shared
/// read-only by any number of voices.
#[derive(Clone, Copy, Debug, PartialEq, Eq, Structural)]
pub struct SoundData {
    buffer: u32,
}

impl SoundData {
    /// The backend buffer identifier a voice binds its source to.
    pub closed spec fn buffer(self) -> u32 {
        self.buffer
    }

    /// Wraps the buffer identifier the decoder produced.
    pub fn with_buffer(buffer: u32) -> (d: SoundData)
        ensures
            d.buffer() == buffer,
    {
        SoundData { buffer }
    }

    /// The backend buffer identifier, for binding a source to it.
    pub fn get_buffer(&self) -> (r: u32)
        ensures
            r == self.buffer(),
    {
        self.buffer
    }
}

} // verus!
