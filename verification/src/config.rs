//! Stream configuration: the camera stream kind, the negotiated geometry and
//! rate, and the destination of the encoded stream.
//!
//! A configuration is validated once at startup; every later invariant of the
//! core (frame-buffer length, sample timestamps) is stated against a
//! well-formed configuration.

use vstd::prelude::*;
use vstd::string::StrSliceExecFns;

verus! {

/// The kinds of camera stream a device can be asked for.
#[derive(Clone, Copy, Debug, PartialEq, Eq, Structural)]
pub enum StreamKind {
    Depth,
    Color,
    Infrared,
    Fisheye,
}

/// A startup configuration error.  Any of these is fatal: it is reported
/// before any device is opened or any thread is started.
#[derive(Clone, Copy, Debug, PartialEq, Eq, Structural)]
pub enum ConfigError {
    /// The camera-stream-kind string is not one of the recognized names.
    InvalidStreamKind,
    /// The requested width is zero.
    ZeroWidth,
    /// The requested height is zero.
    ZeroHeight,
    /// The requested framerate is zero.
    ZeroFramerate,
    /// One frame of the requested geometry would not fit in memory.
    FrameTooLarge,
}

impl ConfigError {
    /// A fixed diagnostic line for the operator-facing log.
    pub fn message(&self) -> (r: &'static str)
        ensures
            r@ == spec_message(*self),
    {
        match self {
            ConfigError::InvalidStreamKind => "invalid camera stream kind",
            ConfigError::ZeroWidth => "width must be positive",
            ConfigError::ZeroHeight => "height must be positive",
            ConfigError::ZeroFramerate => "framerate must be positive",
            ConfigError::FrameTooLarge => "frame size exceeds addressable memory",
        }
    }
}

/// The diagnostic text that `ConfigError::message` returns for each variant.
pub open spec fn spec_message(e: ConfigError) -> Seq<char> {
    match e {
        ConfigError::InvalidStreamKind => "invalid camera stream kind"@,
        ConfigError::ZeroWidth => "width must be positive"@,
        ConfigError::ZeroHeight => "height must be positive"@,
        ConfigError::ZeroFramerate => "framerate must be positive"@,
        ConfigError::FrameTooLarge => "frame size exceeds addressable memory"@,
    }
}

/// Character-for-character equality of two string slices.
fn str_eq(a: &str, b: &str) -> (r: bool)
    ensures
        r <==> a@ == b@,
{
    let a_len = a.unicode_len();
    let b_len = b.unicode_len();
    if a_len != b_len {
        return false;
    }
    let mut i: usize = 0;
    while i < a_len
        invariant
            a_len == a@.len(),
            b_len == b@.len(),
            a_len == b_len,
            i <= a_len,
            forall|j: int| 0 <= j < i ==> a@[j] == b@[j],
        decreases a_len - i,
    {
        if a.get_char(i) != b.get_char(i) {
            return false;
        }
        i = i + 1;
    }
    proof {
        assert(a@ =~= b@);
    }
    true
}

/// What parsing a stream-kind string yields: exactly the four recognized
/// names map to their kind, and every other string is rejected.
pub open spec fn spec_parse_stream_kind(s: Seq<char>) -> Result<StreamKind, ConfigError> {
    if s == "Depth"@ {
        Ok(StreamKind::Depth)
    } else if s == "Color"@ {
        Ok(StreamKind::Color)
    } else if s == "Infrared"@ {
        Ok(StreamKind::Infrared)
    } else if s == "Fisheye"@ {
        Ok(StreamKind::Fisheye)
    } else {
        Err(ConfigError::InvalidStreamKind)
    }
}

/// Parses a camera-stream-kind name.  Recognizes exactly `"Depth"`,
/// `"Color"`, `"Infrared"` and `"Fisheye"`; any other string is a fatal
/// configuration error.
pub fn parse_stream_kind(s: &str) -> (r: Result<StreamKind, ConfigError>)
    ensures
        r == spec_parse_stream_kind(s@),
{
    if str_eq(s, "Depth") {
        Ok(StreamKind::Depth)
    } else if str_eq(s, "Color") {
        Ok(StreamKind::Color)
    } else if str_eq(s, "Infrared") {
        Ok(StreamKind::Infrared)
    } else if str_eq(s, "Fisheye") {
        Ok(StreamKind::Fisheye)
    } else {
        Err(ConfigError::InvalidStreamKind)
    }
}

/// How many bytes one pixel of the negotiated format takes (interleaved
/// 8-bit RGB).
pub const BYTES_PER_PIXEL: usize = 3;

/// A validated stream configuration: geometry and rate of the video, the
/// camera stream kind, and the destination of the encoded stream.
pub struct StreamConfig {
    pub width: u32,
    pub height: u32,
    pub framerate: u32,
    pub kind: StreamKind,
    pub host: String,
    pub port: u16,
}

/// The fatal error, if any, in a requested configuration; checks are made
/// in this order, and the first failure wins.
pub open spec fn spec_configure_err(
    width: u32,
    height: u32,
    framerate: u32,
    kind: Seq<char>,
) -> Option<ConfigError> {
    if spec_parse_stream_kind(kind) is Err {
        Some(ConfigError::InvalidStreamKind)
    } else if width == 0 {
        Some(ConfigError::ZeroWidth)
    } else if height == 0 {
        Some(ConfigError::ZeroHeight)
    } else if framerate == 0 {
        Some(ConfigError::ZeroFramerate)
    } else if width * height * BYTES_PER_PIXEL > usize::MAX {
        Some(ConfigError::FrameTooLarge)
    } else {
        None
    }
}

/// The nominal duration of one frame in nanoseconds: a second divided by
/// the framerate, and never less than one nanosecond, so that consecutive
/// timestamps strictly increase.
pub open spec fn spec_frame_duration_ns(framerate: u32) -> nat
    recommends
        framerate >= 1,
{
    if 1_000_000_000int / (framerate as int) == 0 {
        1nat
    } else {
        (1_000_000_000int / (framerate as int)) as nat
    }
}

impl StreamConfig {
    /// A well-formed configuration: positive geometry and rate, and one
    /// frame fits in addressable memory.
    pub open spec fn wf(&self) -> bool {
        &&& self.width >= 1
        &&& self.height >= 1
        &&& self.framerate >= 1
        &&& self.width * self.height * BYTES_PER_PIXEL <= usize::MAX
    }

    /// The negotiated frame length: width × height × bytes per pixel.
    pub open spec fn spec_frame_len(&self) -> nat {
        (self.width * self.height * BYTES_PER_PIXEL) as nat
    }

    /// Validates a requested configuration.  Exactly the configurations
    /// without a `spec_configure_err` are accepted, and an accepted one is
    /// returned field for field as requested.
    pub fn configure(
        width: u32,
        height: u32,
        framerate: u32,
        kind: &str,
        host: String,
        port: u16,
    ) -> (r: Result<StreamConfig, ConfigError>)
        ensures
            spec_configure_err(width, height, framerate, kind@) matches Some(e)
                ==> r == Err::<StreamConfig, ConfigError>(e),
            spec_configure_err(width, height, framerate, kind@) is None ==> {
                &&& r matches Ok(c)
                &&& c.width == width
                &&& c.height == height
                &&& c.framerate == framerate
                &&& spec_parse_stream_kind(kind@) == Ok::<StreamKind, ConfigError>(c.kind)
                &&& c.host == host
                &&& c.port == port
                &&& c.wf()
            },
    {
        let kind_val = match parse_stream_kind(kind) {
            Ok(k) => k,
            Err(e) => {
                return Err(e);
            },
        };
        if width == 0 {
            return Err(ConfigError::ZeroWidth);
        }
        if height == 0 {
            return Err(ConfigError::ZeroHeight);
        }
        if framerate == 0 {
            return Err(ConfigError::ZeroFramerate);
        }
        let pixels = (width as usize).checked_mul(height as usize);
        let bytes = match pixels {
            Some(p) => p.checked_mul(BYTES_PER_PIXEL),
            None => None,
        };
        proof {
            let p = width * height;
            assert(p <= p * BYTES_PER_PIXEL) by (nonlinear_arith)
                requires
                    p >= 0,
            ;
        }
        match bytes {
            Some(_) => Ok(
                StreamConfig { width, height, framerate, kind: kind_val, host, port },
            ),
            None => Err(ConfigError::FrameTooLarge),
        }
    }

    /// The negotiated frame length in bytes.
    pub fn frame_len(&self) -> (n: usize)
        requires
            self.wf(),
        ensures
            n == self.spec_frame_len(),
    {
        proof {
            let p = self.width * self.height;
            assert(p <= p * BYTES_PER_PIXEL) by (nonlinear_arith)
                requires
                    p >= 0,
            ;
        }
        let pixels = (self.width as usize) * (self.height as usize);
        pixels * BYTES_PER_PIXEL
    }

    /// The nominal duration of one frame in nanoseconds; always positive.
    pub fn frame_duration_ns(&self) -> (d: u64)
        requires
            self.wf(),
        ensures
            d == spec_frame_duration_ns(self.framerate),
            d >= 1,
    {
        let q = 1_000_000_000u64 / (self.framerate as u64);
        if q == 0 {
            1
        } else {
            q
        }
    }
}

} // verus!
