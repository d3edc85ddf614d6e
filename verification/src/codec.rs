//! Random access into a bit-packed binary video asset.
//!
//! The asset's first byte is the frame width, its second the frame height;
//! the rest is 4-bit pixel samples packed two per byte, high nibble first.
//! Within a frame the samples are ordered x-major, y-minor; frames follow
//! one another without padding, and the frame count is the number of whole
//! frames the trailing samples form (floor division — a trailing partial
//! frame does not count).

use vstd::arithmetic::div_mod::lemma_fundamental_div_mod;
use vstd::arithmetic::div_mod::lemma_fundamental_div_mod_converse;
use vstd::prelude::*;

verus! {

/// The largest asset the codec accepts, chosen so that twice the sample
/// byte count — the total nibble count — still fits the boundary's signed
/// 32-bit width.
pub const MAX_VIDEO_BYTES: usize = 0x4000_0000;

/// Whether a byte sequence is a well-formed video asset: a two-byte header
/// with a positive width and height, within the codec's size bound.
pub open spec fn spec_wf(data: Seq<u8>) -> bool {
    &&& 2 <= data.len() <= MAX_VIDEO_BYTES
    &&& data[0] > 0
    &&& data[1] > 0
}

/// The frame width named by the asset's first header byte.
pub open spec fn spec_width(data: Seq<u8>) -> u32 {
    data[0] as u32
}

/// The frame height named by the asset's second header byte.
pub open spec fn spec_height(data: Seq<u8>) -> u32 {
    data[1] as u32
}

/// The number of whole frames the asset's samples form: the total nibble
/// count divided by the pixels per frame, rounded down.
pub open spec fn spec_frame_count(data: Seq<u8>) -> int {
    ((data.len() - 2) * 2) / (spec_width(data) * spec_height(data))
}

/// The 4-bit sample at `(frame, x, y)`: sample index
/// `frame·width·height + x·height + y`, where even indices occupy the high
/// nibble and odd indices the low nibble of the byte after the header.
pub open spec fn spec_pixel(data: Seq<u8>, frame: u32, x: u32, y: u32) -> u8 {
    let index = frame * spec_width(data) * spec_height(data) + x * spec_height(data) + y;
    let byte = data[2 + index / 2];
    if index % 2 == 0 {
        (byte / 16) as u8
    } else {
        (byte % 16) as u8
    }
}

/// A bit-packed video asset, validated once and indexed in O(1) thereafter.
pub struct VideoFile {
    data: Vec<u8>,
}

impl View for VideoFile {
    type V = Seq<u8>;

    closed spec fn view(&self) -> Seq<u8> {
        self.data@
    }
}

impl VideoFile {
    /// Every constructed asset satisfies [`spec_wf`].
    #[verifier::type_invariant]
    pub open spec fn wf(self) -> bool {
        spec_wf(self@)
    }

    /// Accepts the asset exactly when its header is well formed: at least
    /// the two header bytes, a positive width and height, and no more than
    /// [`MAX_VIDEO_BYTES`] in all.
    pub fn new(data: Vec<u8>) -> (r: Option<VideoFile>)
        ensures
            r is Some <==> spec_wf(data@),
            r matches Some(f) ==> f@ == data@,
    {
        if data.len() >= 2 && data.len() <= MAX_VIDEO_BYTES && data[0] > 0 && data[1] > 0 {
            Some(VideoFile { data })
        } else {
            None
        }
    }

    /// The frame width in pixels, between 1 and 255.
    pub fn width(&self) -> (r: u32)
        ensures
            r == spec_width(self@),
            1 <= r <= 255,
    {
        proof {
            use_type_invariant(self);
        }
        self.data[0] as u32
    }

    /// The frame height in pixels, between 1 and 255.
    pub fn height(&self) -> (r: u32)
        ensures
            r == spec_height(self@),
            1 <= r <= 255,
    {
        proof {
            use_type_invariant(self);
        }
        self.data[1] as u32
    }

    /// The number of whole frames in the asset.
    pub fn frame_count(&self) -> (r: i32)
        ensures
            r == spec_frame_count(self@),
            r >= 0,
    {
        proof {
            use_type_invariant(self);
        }
        let w = self.data[0] as usize;
        let h = self.data[1] as usize;
        proof {
            assert(1 <= w as int * h as int <= 65025) by (nonlinear_arith)
                requires
                    1 <= w <= 255,
                    1 <= h <= 255,
            ;
        }
        let nibbles = (self.data.len() - 2) * 2;
        let fc = nibbles / (w * h);
        proof {
            assert(fc <= nibbles) by {
                vstd::arithmetic::div_mod::lemma_div_is_ordered_by_denominator(
                    nibbles as int,
                    1,
                    (w * h) as int,
                );
            }
        }
        fc as i32
    }

    /// The 4-bit sample at `(frame, x, y)`, a value in `[0, 15]`.
    ///
    /// The codec performs no clamping of its own: the caller must keep
    /// `frame` below the frame count and `(x, y)` inside the frame.
    pub fn get_pixel(&self, frame: u32, x: u32, y: u32) -> (r: u8)
        requires
            frame < spec_frame_count(self@),
            x < spec_width(self@),
            y < spec_height(self@),
        ensures
            r == spec_pixel(self@, frame, x, y),
            r <= 15,
    {
        proof {
            use_type_invariant(self);
        }
        let w: u64 = self.data[0] as u64;
        let h: u64 = self.data[1] as u64;
        let ghost len = self.data@.len() as int;
        let ghost nib = (len - 2) * 2;
        let ghost wh = (w * h) as int;
        let ghost fc = spec_frame_count(self@);
        proof {
            assert(1 <= wh <= 65025) by (nonlinear_arith)
                requires
                    1 <= w <= 255,
                    1 <= h <= 255,
                    wh == w as int * h as int,
            ;
            lemma_fundamental_div_mod(nib, wh);
            vstd::arithmetic::div_mod::lemma_mod_bound(nib, wh);
            assert(frame as int * (w as int) * (h as int) + (x as int) * (h as int) + (y as int)
                <= nib - 1) by (nonlinear_arith)
                requires
                    nib == wh * fc + nib % wh,
                    0 <= nib % wh,
                    wh == w as int * h as int,
                    frame as int <= fc - 1,
                    x as int <= w as int - 1,
                    y as int <= h as int - 1,
                    1 <= w as int,
                    1 <= h as int,
            ;
            assert(frame as int * (w as int) <= 0xFFFF_FFFF * 255
                && frame as int * (w as int) * (h as int) <= 0xFFFF_FFFF * 255 * 255
                && (x as int) * (h as int) <= 255 * 255) by (nonlinear_arith)
                requires
                    frame <= 0xFFFF_FFFFu32,
                    x as int <= 255,
                    1 <= w as int <= 255,
                    1 <= h as int <= 255,
            ;
        }
        let index: u64 = frame as u64 * w * h + x as u64 * h + y as u64;
        proof {
            assert(2 + index / 2 < len) by {
                assert(index <= nib - 1);
                assert(index / 2 <= (nib - 1) / 2);
            }
        }
        let byte_ix: usize = 2 + (index / 2) as usize;
        let byte: u8 = self.data[byte_ix];
        if index % 2 == 0 {
            proof {
                assert(byte >> 4 == byte / 16 && byte >> 4 <= 15) by (bit_vector);
            }
            byte >> 4
        } else {
            proof {
                assert(byte & 0x0F == byte % 16 && byte & 0x0F <= 15) by (bit_vector);
            }
            byte & 0x0F
        }
    }
}

/// Floor division, spelled out: an asset holding some whole number of
/// frames plus any partial frame's worth of leftover nibbles counts exactly
/// the whole frames.
pub proof fn lemma_frame_count_whole_frames(data: Seq<u8>, frames: int, leftover: int)
    requires
        spec_wf(data),
        (data.len() - 2) * 2 == frames * (spec_width(data) * spec_height(data)) + leftover,
        0 <= leftover < spec_width(data) * spec_height(data),
    ensures
        spec_frame_count(data) == frames,
{
    lemma_fundamental_div_mod_converse(
        (data.len() - 2) * 2,
        spec_width(data) * spec_height(data),
        frames,
        leftover,
    );
}

} // verus!
