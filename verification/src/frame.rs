//! Frame buffers and timed media samples.
//!
//! A `FrameBuffer` is the owned copy of one color frame's raw pixel bytes,
//! made by the relay the moment a frame is taken from the device (the
//! device's own memory is only valid during the polling call).  Its invariant
//! is that its length equals the negotiated frame length, width × height ×
//! bytes per pixel.  A `MediaSample` is the timed wrapper the sink builds
//! around a buffer immediately before injecting it into the pipeline.

use vstd::prelude::*;

verus! {

/// Why a raw byte buffer was refused as a frame.
#[derive(Clone, Copy, Debug, PartialEq, Eq, Structural)]
pub enum FrameError {
    /// The buffer's length is not the negotiated frame length.
    LengthMismatch,
}

/// An owned copy of one frame's pixel bytes.
pub struct FrameBuffer {
    data: Vec<u8>,
}

impl View for FrameBuffer {
    type V = Seq<u8>;

    closed spec fn view(&self) -> Seq<u8> {
        self.data@
    }
}

impl FrameBuffer {
    /// Accepts an owned byte buffer as a frame exactly when its length is
    /// the negotiated frame length; the bytes themselves move in unchanged.
    pub fn from_raw(raw: Vec<u8>, expected_len: usize) -> (r: Result<FrameBuffer, FrameError>)
        ensures
            raw@.len() == expected_len ==> (r matches Ok(b) && b@ == raw@),
            raw@.len() != expected_len ==> r == Err::<FrameBuffer, FrameError>(
                FrameError::LengthMismatch,
            ),
    {
        if raw.len() == expected_len {
            Ok(FrameBuffer { data: raw })
        } else {
            Err(FrameError::LengthMismatch)
        }
    }

    /// The frame's length in bytes.
    pub fn len(&self) -> (n: usize)
        ensures
            n == self@.len(),
    {
        self.data.len()
    }

    /// Hands the pixel bytes back out, unchanged.
    pub fn into_vec(self) -> (r: Vec<u8>)
        ensures
            r@ == self@,
    {
        self.data
    }

    /// Borrows the pixel bytes, unchanged.
    pub fn as_bytes(&self) -> (r: &Vec<u8>)
        ensures
            r@ == self@,
    {
        &self.data
    }
}

/// A timed media sample: one frame buffer together with the presentation
/// timestamp the sink assigned to it, in nanoseconds.
pub struct MediaSample {
    /// The frame's pixel bytes, owned by the sample.
    pub payload: FrameBuffer,
    /// Presentation timestamp in nanoseconds since the start of the stream.
    pub pts_ns: u64,
}

} // verus!
