//! Frame extraction: a decoded audio frame's data plane read as a flat,
//! interleaved sequence of 32-bit float samples, each kept as its bit pattern.
use vstd::prelude::*;

verus! {

/// How the channels of a frame are laid out in memory.
#[derive(Clone, Copy, Debug, PartialEq, Eq, Structural)]
pub enum Layout {
    /// All channels interleaved in one plane.
    Packed,
    /// One plane per channel.
    Planar,
}

/// The sample representation of a decoded frame: a numeric type and a layout.
#[derive(Clone, Copy, Debug, PartialEq, Eq, Structural)]
pub enum PcmFormat {
    /// No sample format.
    Unset,
    U8(Layout),
    I16(Layout),
    I32(Layout),
    I64(Layout),
    F32(Layout),
    F64(Layout),
}

/// Whether the samples of all channels share one plane.
pub open spec fn is_packed_spec(f: PcmFormat) -> bool {
    match f {
        PcmFormat::U8(l) | PcmFormat::I16(l) | PcmFormat::I32(l) | PcmFormat::I64(l)
        | PcmFormat::F32(l) | PcmFormat::F64(l) => l == Layout::Packed,
        PcmFormat::Unset => true,
    }
}

impl PcmFormat {
    /// Whether the samples of all channels share one plane.
    pub fn is_packed(&self) -> (r: bool)
        ensures
            r == is_packed_spec(*self),
    {
        match self {
            PcmFormat::U8(l) | PcmFormat::I16(l) | PcmFormat::I32(l) | PcmFormat::I64(l)
            | PcmFormat::F32(l) | PcmFormat::F64(l) => *l == Layout::Packed,
            PcmFormat::Unset => true,
        }
    }
}

/// A decoded (or resampled) audio frame: its format, its channel count, the
/// number of samples per channel, and the bytes of its first data plane.
pub struct AudioFrame {
    pub format: PcmFormat,
    pub channels: u16,
    pub samples: usize,
    pub plane: Vec<u8>,
}

/// Why a frame cannot be read as interleaved 32-bit float samples.
#[derive(Clone, Copy, Debug, PartialEq, Eq, Structural)]
pub enum FrameError {
    /// The channels lie in separate planes.
    NotPacked,
    /// The frame does not hold 32-bit float samples.
    UnsupportedType,
    /// The plane is shorter than the frame's declared size.
    ShortPlane,
}

/// The little-endian 32-bit word at word index `i` of `plane`.
pub open spec fn word_at(plane: Seq<u8>, i: int) -> u32 {
    (plane[4 * i] as int + 0x100 * plane[4 * i + 1] as int + 0x1_0000 * plane[4 * i + 2] as int
        + 0x100_0000 * plane[4 * i + 3] as int) as u32
}

/// The first `count` words of `plane`.
pub open spec fn words_of(plane: Seq<u8>, count: nat) -> Seq<u32> {
    Seq::new(count, |i: int| word_at(plane, i))
}

/// The number of interleaved values a frame holds.
pub open spec fn value_count(f: &AudioFrame) -> nat {
    (f.samples * f.channels) as nat
}

/// Why `f` cannot be extracted, if it cannot.
pub open spec fn frame_error(f: &AudioFrame) -> Option<FrameError> {
    if !is_packed_spec(f.format) {
        Some(FrameError::NotPacked)
    } else if !(f.format is F32) {
        Some(FrameError::UnsupportedType)
    } else if 4 * value_count(f) > f.plane@.len() {
        Some(FrameError::ShortPlane)
    } else {
        None
    }
}

/// Reads the word at word index `i` of `plane`.
fn read_word(plane: &Vec<u8>, i: usize) -> (w: u32)
    requires
        4 * i + 4 <= plane@.len(),
    ensures
        w == word_at(plane@, i as int),
{
    let len = plane.len();
    assert(4 * i + 4 <= len);
    let k = 4 * i;
    let b0 = plane[k] as u32;
    let b1 = plane[k + 1] as u32;
    let b2 = plane[k + 2] as u32;
    let b3 = plane[k + 3] as u32;
    b0 + 0x100 * b1 + 0x1_0000 * b2 + 0x100_0000 * b3
}

/// The frame's samples as one interleaved sequence of `samples * channels`
/// values, bit for bit as they lie in the plane. A planar frame, one that
/// does not hold 32-bit floats, or one whose plane is too short is refused,
/// with nothing read.
pub fn packed(frame: &AudioFrame) -> (r: Result<Vec<u32>, FrameError>)
    ensures
        match frame_error(frame) {
            Some(e) => r == Err::<Vec<u32>, FrameError>(e),
            None => r is Ok && r->Ok_0@ == words_of(frame.plane@, value_count(frame)),
        },
{
    if !frame.format.is_packed() {
        return Err(FrameError::NotPacked);
    }
    if !matches!(frame.format, PcmFormat::F32(_)) {
        return Err(FrameError::UnsupportedType);
    }
    let words = frame.plane.len() / 4;
    let channels = frame.channels as usize;
    if channels != 0 && frame.samples > words / channels {
        proof {
            let s = frame.samples as int;
            let c = channels as int;
            let w = words as int;
            assert(s * c > w) by (nonlinear_arith)
                requires s > w / c, c > 0, w >= 0;
        }
        return Err(FrameError::ShortPlane);
    }
    proof {
        let s = frame.samples as int;
        let c = channels as int;
        let w = words as int;
        assert(s * c <= w) by (nonlinear_arith)
            requires c == 0 || s <= w / c, c >= 0, w >= 0, s >= 0;
    }
    let count = frame.samples * channels;
    let mut out: Vec<u32> = Vec::with_capacity(count);
    let mut i: usize = 0;
    while i < count
        invariant
            count == value_count(frame),
            4 * count <= frame.plane@.len(),
            i <= count,
            out@ == words_of(frame.plane@, i as nat),
        decreases count - i,
    {
        let w = read_word(&frame.plane, i);
        out.push(w);
        i = i + 1;
        assert(out@ =~= words_of(frame.plane@, i as nat));
    }
    Ok(out)
}

} // verus!
