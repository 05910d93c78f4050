use vstd::prelude::*;

use std::collections::VecDeque;

use crate::codec::VFrame;
use crate::hsv::{lhsva_to_srgba, spec_lhsva_to_srgba, spec_srgba_to_lhsva, srgba_to_lhsva};
use crate::table::{lemma_lin_endpoints, lemma_thresh_range};
use crate::xfer::{lemma_lts_of_bracketed, lin_to_s_q, linear_to_s_u8, s_to_linear_u8, spec_s_to_linear_u8};

verus! {

/// The format for the color channels of the `Video`.
#[derive(Copy, Clone, PartialEq, Eq, Structural, Debug)]
pub enum ColorChannels {
    /// Grayscale color format, 1 channel (stored in red channel).
    Sgrayscale,
    /// sRGB color format, 3 channels.
    Srgb,
    /// sRGBA color format, 4 channels.
    Srgba,
    /// sBGR color format, 3 channels.
    Sbgr,
    /// sBGRA color format, 4 channels.
    Sbgra,
    /// Linear Grayscale, 1 channel (red).
    Lgrayscale,
    /// Linear RGB color format, 3 channels.
    Lrgb,
    /// Linear RGBA color format, 4 channels.
    Lrgba,
    /// Linear BGR color format, 3 channels.
    Lbgr,
    /// Linear BGRA color format, 4 channels.
    Lbgra,
    /// Linear HSB/HSV colorspace, 3 channels.
    Lhsv,
    /// Linear HSBA/HSVA, 4 channels.
    Lhsva,
    /// YCbCr color format, 3 channels
    YCbCr,
}

impl Default for ColorChannels {
    fn default() -> (r: ColorChannels)
        ensures
            r == ColorChannels::Srgba,
    {
        ColorChannels::Srgba
    }
}

/// The number of channels a format tag stands for: 1 for the grayscale
/// formats, 3 for the formats without alpha, 4 for those with alpha.
pub open spec fn spec_n_channels(c: ColorChannels) -> int {
    match c {
        ColorChannels::Sgrayscale => 1,
        ColorChannels::Srgb => 3,
        ColorChannels::Srgba => 4,
        ColorChannels::Sbgr => 3,
        ColorChannels::Sbgra => 4,
        ColorChannels::Lgrayscale => 1,
        ColorChannels::Lrgb => 3,
        ColorChannels::Lrgba => 4,
        ColorChannels::Lbgr => 3,
        ColorChannels::Lbgra => 4,
        ColorChannels::Lhsv => 3,
        ColorChannels::Lhsva => 4,
        ColorChannels::YCbCr => 3,
    }
}

/// A packed pixel word: channel 0 in the lowest byte, channel 3 in the
/// highest (little-endian channel order).
pub open spec fn spec_pack(p: Seq<u8>) -> u32 {
    (p[0] as u32) | ((p[1] as u32) << 8) | ((p[2] as u32) << 16) | ((p[3] as u32) << 24)
}

/// The four channel bytes of a packed pixel word, lowest byte first.
pub open spec fn spec_unpack(w: u32) -> Seq<u8> {
    seq![w as u8, (w >> 8) as u8, (w >> 16) as u8, (w >> 24) as u8]
}

/// Packing four channel bytes and unpacking the word returns the bytes.
pub proof fn lemma_pack_unpack(p: Seq<u8>)
    requires
        p.len() == 4,
    ensures
        spec_unpack(spec_pack(p)) =~= p,
{
    let (a, b, c, d) = (p[0], p[1], p[2], p[3]);
    let w = (a as u32) | ((b as u32) << 8) | ((c as u32) << 16) | ((d as u32) << 24);
    assert((w as u8) == a && ((w >> 8) as u8) == b && ((w >> 16) as u8) == c && ((w >> 24) as u8)
        == d) by (bit_vector)
        requires
            w == (a as u32) | ((b as u32) << 8) | ((c as u32) << 16) | ((d as u32) << 24),
    ;
}

/// Unpacking a word and packing the bytes returns the word.
pub proof fn lemma_unpack_pack(w: u32)
    ensures
        spec_pack(spec_unpack(w)) == w,
{
    assert(((w as u8) as u32) | ((((w >> 8) as u8) as u32) << 8) | ((((w >> 16) as u8) as u32)
        << 16) | ((((w >> 24) as u8) as u32) << 24) == w) by (bit_vector);
}

/// A channel value clamped into the byte range after a scaled division:
/// negative values saturate to 0, values past 255 to 255, as casting an
/// out-of-range float to a byte does.
pub open spec fn spec_ycc_chan(num: int, den: int) -> int {
    if num < 0 {
        0
    } else {
        let t = num / den;
        if t > 255 {
            255
        } else {
            t
        }
    }
}

/// The sRGBA pixel a pixel of the format `c` stands for: the canonical hub
/// representation every conversion is routed through.
pub open spec fn spec_to_srgba(c: ColorChannels, p: Seq<u8>) -> Seq<u8> {
    let (r, g, b, a) = (p[0], p[1], p[2], p[3]);
    match c {
        ColorChannels::Sgrayscale => seq![r, r, r, 255u8],
        ColorChannels::Srgb => seq![r, g, b, 255u8],
        ColorChannels::Srgba => seq![r, g, b, a],
        ColorChannels::Sbgr => seq![b, g, r, 255u8],
        ColorChannels::Sbgra => seq![b, g, r, a],
        ColorChannels::Lgrayscale => {
            let s = lin_to_s_q(r as int, 255) as u8;
            seq![s, s, s, 255u8]
        },
        ColorChannels::Lrgb => seq![
            lin_to_s_q(r as int, 255) as u8,
            lin_to_s_q(g as int, 255) as u8,
            lin_to_s_q(b as int, 255) as u8,
            255u8,
        ],
        ColorChannels::Lrgba => seq![
            lin_to_s_q(r as int, 255) as u8,
            lin_to_s_q(g as int, 255) as u8,
            lin_to_s_q(b as int, 255) as u8,
            a,
        ],
        ColorChannels::Lbgr => seq![
            lin_to_s_q(b as int, 255) as u8,
            lin_to_s_q(g as int, 255) as u8,
            lin_to_s_q(r as int, 255) as u8,
            255u8,
        ],
        ColorChannels::Lbgra => seq![
            lin_to_s_q(b as int, 255) as u8,
            lin_to_s_q(g as int, 255) as u8,
            lin_to_s_q(r as int, 255) as u8,
            a,
        ],
        ColorChannels::Lhsv => spec_lhsva_to_srgba(seq![r, g, b, 255u8]),
        ColorChannels::Lhsva => spec_lhsva_to_srgba(seq![r, g, b, a]),
        ColorChannels::YCbCr => {
            // full-range BT.601: R = Y + 1.402 (Cr - 128) and so on, held
            // as exact fractions over 1000 respectively 1000000
            let y = r as int;
            let cb = g as int;
            let cr = b as int;
            seq![
                spec_ycc_chan(1000 * y + 1402 * cr - 179456, 1000) as u8,
                spec_ycc_chan(
                    1000000 * y + 44049408 + 91409408 - 344136 * cb - 714136 * cr,
                    1000000,
                ) as u8,
                spec_ycc_chan(1000 * y + 1772 * cb - 226816, 1000) as u8,
                255u8,
            ]
        },
    }
}

/// The pixel of the format `c` that an sRGBA pixel converts to.
pub open spec fn spec_srgba_to(c: ColorChannels, p: Seq<u8>) -> Seq<u8> {
    let (r, g, b, a) = (p[0], p[1], p[2], p[3]);
    match c {
        ColorChannels::Sgrayscale => {
            let gray = ((r as int + g as int + b as int) / 3) as u8;
            seq![gray, 255u8, 255u8, 255u8]
        },
        ColorChannels::Srgb => seq![r, g, b, 255u8],
        ColorChannels::Srgba => seq![r, g, b, a],
        ColorChannels::Sbgr => seq![b, g, r, 255u8],
        ColorChannels::Sbgra => seq![b, g, r, a],
        ColorChannels::Lgrayscale => {
            let gray = (r as int + g as int + b as int) / 3;
            let l = spec_s_to_linear_u8(gray) as u8;
            seq![l, 255u8, 255u8, 255u8]
        },
        ColorChannels::Lrgb => seq![
            spec_s_to_linear_u8(r as int) as u8,
            spec_s_to_linear_u8(g as int) as u8,
            spec_s_to_linear_u8(b as int) as u8,
            255u8,
        ],
        ColorChannels::Lrgba => seq![
            spec_s_to_linear_u8(r as int) as u8,
            spec_s_to_linear_u8(g as int) as u8,
            spec_s_to_linear_u8(b as int) as u8,
            a,
        ],
        ColorChannels::Lbgr => seq![
            spec_s_to_linear_u8(b as int) as u8,
            spec_s_to_linear_u8(g as int) as u8,
            spec_s_to_linear_u8(r as int) as u8,
            255u8,
        ],
        ColorChannels::Lbgra => seq![
            spec_s_to_linear_u8(b as int) as u8,
            spec_s_to_linear_u8(g as int) as u8,
            spec_s_to_linear_u8(r as int) as u8,
            a,
        ],
        ColorChannels::Lhsv => spec_srgba_to_lhsva(seq![r, g, b, 255u8]),
        ColorChannels::Lhsva => spec_srgba_to_lhsva(seq![r, g, b, a]),
        ColorChannels::YCbCr => {
            // full-range BT.601: Y = 0.299 R + 0.587 G + 0.114 B and so on,
            // held as exact fractions; Cb and Cr stay inside 0..=255
            let ri = r as int;
            let gi = g as int;
            let bi = b as int;
            seq![
                ((299 * ri + 587 * gi + 114 * bi) / 1000) as u8,
                ((128000000 + 500000 * bi - 168736 * ri - 331264 * gi) / 1000000) as u8,
                ((128000000 + 500000 * ri - 418688 * gi - 81312 * bi) / 1000000) as u8,
                255u8,
            ]
        },
    }
}

/// One pixel converted from the format `from` to the format `to`: the
/// identity when the two formats are equal, otherwise routed through the
/// canonical sRGBA hub.
pub open spec fn spec_convert(to: ColorChannels, from: ColorChannels, p: Seq<u8>) -> Seq<u8> {
    if to == from {
        p
    } else {
        spec_srgba_to(to, spec_to_srgba(from, p))
    }
}

/// Divide a scaled channel value and clamp it into the byte range.
fn ycc_chan(num: i64, den: i64) -> (r: u8)
    requires
        1 <= den,
    ensures
        r == spec_ycc_chan(num as int, den as int),
{
    if num < 0 {
        0
    } else {
        let t = (num as u64) / (den as u64);
        if t > 255 {
            255
        } else {
            t as u8
        }
    }
}

/// Identity conversion: converting a pixel from a format to the same
/// format returns the pixel unchanged, with no hub round trip.
pub proof fn lemma_convert_identity(c: ColorChannels, p: Seq<u8>)
    ensures
        spec_convert(c, c, p) == p,
{
}

/// Alpha preservation under the HSV round trip: converting a pixel from
/// sRGBA to linear HSVA or back leaves the alpha byte untouched.
pub proof fn lemma_convert_hsva_alpha(p: Seq<u8>)
    requires
        p.len() == 4,
    ensures
        spec_convert(ColorChannels::Lhsva, ColorChannels::Srgba, p)[3] == p[3],
        spec_convert(ColorChannels::Srgba, ColorChannels::Lhsva, p)[3] == p[3],
{
    crate::hsv::lemma_hsv_alpha_preserved(seq![p[0], p[1], p[2], p[3]]);
}

/// Achromatic round trip: pure white converts to linear HSVA and back to
/// sRGBA unchanged, whatever its alpha byte.
pub proof fn lemma_white_round_trip(p: Seq<u8>)
    requires
        p.len() == 4,
        p[0] == 255,
        p[1] == 255,
        p[2] == 255,
    ensures
        spec_convert(
            ColorChannels::Srgba,
            ColorChannels::Lhsva,
            spec_convert(ColorChannels::Lhsva, ColorChannels::Srgba, p),
        ) =~= p,
{
    lemma_lin_endpoints();
    lemma_thresh_range();
    let q = spec_convert(ColorChannels::Lhsva, ColorChannels::Srgba, p);
    assert(q =~= seq![0u8, 0u8, 255u8, p[3]]);
    lemma_lts_of_bracketed(255, 255, 255);
    assert(lin_to_s_q(255, 255) == 255);
}

impl ColorChannels {
    /// Pack an sRGBA [u8; 4] into an sRGBA u32
    pub fn pack(p: [u8; 4]) -> (w: u32)
        ensures
            w == spec_pack(p@),
    {
        let r = p[0] as u32;
        let g = (p[1] as u32) << 8;
        let b = (p[2] as u32) << 16;
        let a = (p[3] as u32) << 24;

        r | g | b | a
    }

    /// Unpack an sRGBA u32 into an sRGBA [u8; 4]
    pub fn unpack(w: u32) -> (p: [u8; 4])
        ensures
            p@ == spec_unpack(w),
    {
        let p = [
            #[verifier::truncate] (w as u8),
            #[verifier::truncate] ((w >> 8) as u8),
            #[verifier::truncate] ((w >> 16) as u8),
            #[verifier::truncate] ((w >> 24) as u8),
        ];
        proof {
            assert(p@ =~= spec_unpack(w));
        }
        p
    }

    /// Convert a pixel to this format from another.
    pub fn from(self, from: ColorChannels, p: [u8; 4]) -> (r: [u8; 4])
        ensures
            r@ == spec_convert(self, from, p@),
            self == from ==> r == p,
    {
        if self == from {
            p
        } else {
            self.srgba_to(from.to_srgba(p))
        }
    }

    /// Convert a pixel from sRGBA to this format.
    fn srgba_to(self, p: [u8; 4]) -> (res: [u8; 4])
        ensures
            res@ == spec_srgba_to(self, p@),
    {
        let r = p[0];
        let g = p[1];
        let b = p[2];
        let a = p[3];
        let res: [u8; 4] = match self {
            ColorChannels::Sgrayscale => {
                let gray = ((r as u16 + g as u16 + b as u16) / 3) as u8;
                [gray, 255, 255, 255]
            },
            ColorChannels::Srgb => [r, g, b, 255],
            ColorChannels::Srgba => [r, g, b, a],
            ColorChannels::Sbgr => [b, g, r, 255],
            ColorChannels::Sbgra => [b, g, r, a],
            ColorChannels::Lgrayscale => {
                let gray = ((r as u16 + g as u16 + b as u16) / 3) as u8;
                let l = s_to_linear_u8(gray);
                [l, 255, 255, 255]
            },
            ColorChannels::Lrgb => [
                s_to_linear_u8(r),
                s_to_linear_u8(g),
                s_to_linear_u8(b),
                255,
            ],
            ColorChannels::Lrgba => [s_to_linear_u8(r), s_to_linear_u8(g), s_to_linear_u8(b), a],
            ColorChannels::Lbgr => [
                s_to_linear_u8(b),
                s_to_linear_u8(g),
                s_to_linear_u8(r),
                255,
            ],
            ColorChannels::Lbgra => [s_to_linear_u8(b), s_to_linear_u8(g), s_to_linear_u8(r), a],
            ColorChannels::Lhsv => srgba_to_lhsva([r, g, b, 255]),
            ColorChannels::Lhsva => srgba_to_lhsva([r, g, b, a]),
            ColorChannels::YCbCr => {
                let ri = r as u64;
                let gi = g as u64;
                let bi = b as u64;
                let y = ((299 * ri + 587 * gi + 114 * bi) / 1000) as u8;
                let cb = ((128000000 + 500000 * bi - 168736 * ri - 331264 * gi) / 1000000) as u8;
                let cr = ((128000000 + 500000 * ri - 418688 * gi - 81312 * bi) / 1000000) as u8;
                [y, cb, cr, 255]
            },
        };
        proof {
            assert(res@ =~= spec_srgba_to(self, p@));
        }
        res
    }

    /// Convert a pixel in this format to sRGBA.
    fn to_srgba(self, p: [u8; 4]) -> (res: [u8; 4])
        ensures
            res@ == spec_to_srgba(self, p@),
    {
        let r = p[0];
        let g = p[1];
        let b = p[2];
        let a = p[3];
        let res: [u8; 4] = match self {
            ColorChannels::Sgrayscale => [r, r, r, 255],
            ColorChannels::Srgb => [r, g, b, 255],
            ColorChannels::Srgba => [r, g, b, a],
            ColorChannels::Sbgr => [b, g, r, 255],
            ColorChannels::Sbgra => [b, g, r, a],
            ColorChannels::Lgrayscale => {
                let s = linear_to_s_u8(r);
                [s, s, s, 255]
            },
            ColorChannels::Lrgb => [
                linear_to_s_u8(r),
                linear_to_s_u8(g),
                linear_to_s_u8(b),
                255,
            ],
            ColorChannels::Lrgba => [linear_to_s_u8(r), linear_to_s_u8(g), linear_to_s_u8(b), a],
            ColorChannels::Lbgr => [
                linear_to_s_u8(b),
                linear_to_s_u8(g),
                linear_to_s_u8(r),
                255,
            ],
            ColorChannels::Lbgra => [linear_to_s_u8(b), linear_to_s_u8(g), linear_to_s_u8(r), a],
            ColorChannels::Lhsv => lhsva_to_srgba([r, g, b, 255]),
            ColorChannels::Lhsva => lhsva_to_srgba([r, g, b, a]),
            ColorChannels::YCbCr => {
                let y = r as i64;
                let cb = g as i64;
                let cr = b as i64;
                let rv = ycc_chan(1000 * y + 1402 * cr - 179456, 1000);
                let gv = ycc_chan(
                    1000000 * y + 44049408 + 91409408 - 344136 * cb - 714136 * cr,
                    1000000,
                );
                let bv = ycc_chan(1000 * y + 1772 * cb - 226816, 1000);
                [rv, gv, bv, 255]
            },
        };
        proof {
            assert(res@ =~= spec_to_srgba(self, p@));
        }
        res
    }

    /// Return the number of channels.
    pub fn n_channels(self) -> (r: usize)
        ensures
            r == spec_n_channels(self),
            r == 1 || r == 3 || r == 4,
    {
        match self {
            ColorChannels::Sgrayscale => 1,
            ColorChannels::Srgb => 3,
            ColorChannels::Srgba => 4,
            ColorChannels::Sbgr => 3,
            ColorChannels::Sbgra => 4,
            ColorChannels::Lgrayscale => 1,
            ColorChannels::Lrgb => 3,
            ColorChannels::Lrgba => 4,
            ColorChannels::Lbgr => 3,
            ColorChannels::Lbgra => 4,
            ColorChannels::Lhsv => 3,
            ColorChannels::Lhsva => 4,
            ColorChannels::YCbCr => 3,
        }
    }
}

/// A Video Buffer (24fps).
pub struct Video {
    format: ColorChannels,
    wh: (u16, u16),
    n_frames: u32,  // number of frames in the whole video.
    frames: VecDeque<VFrame>,
}

impl Video {
    /// The queued frames, oldest first.
    pub closed spec fn queue(&self) -> Seq<VFrame> {
        self.frames@
    }

    /// The buffer's color format.
    pub closed spec fn spec_format(&self) -> ColorChannels {
        self.format
    }

    /// The width and height the buffer was created with.
    pub closed spec fn spec_wh(&self) -> (u16, u16) {
        self.wh
    }

    /// The total frame count of the whole video.
    pub closed spec fn total_frames(&self) -> u32 {
        self.n_frames
    }

    /// Create a new video buffer.
    pub fn new(format: ColorChannels, wh: (u16, u16), n_frames: u32) -> (v: Self)
        ensures
            v.queue() == Seq::<VFrame>::empty(),
            v.spec_format() == format,
            v.spec_wh() == wh,
            v.total_frames() == n_frames,
    {
        Video { wh, n_frames, format, frames: VecDeque::new() }
    }

    /// Get the width and height of the video.
    pub fn wh(&self) -> (r: (u16, u16))
        ensures
            r == self.spec_wh(),
    {
        self.wh
    }

    /// Get the video buffer's color format.
    pub fn format(&self) -> (r: ColorChannels)
        ensures
            r == self.spec_format(),
    {
        self.format
    }

    /// Add frame to the buffer.
    pub fn add(&mut self, data: VFrame)
        ensures
            final(self).queue() == old(self).queue().push(data),
            final(self).spec_format() == old(self).spec_format(),
            final(self).spec_wh() == old(self).spec_wh(),
            final(self).total_frames() == old(self).total_frames(),
    {
        self.frames.push_back(data);
    }

    /// Return the number frames in the buffer.
    pub fn len(&self) -> (r: u32)
        ensures
            r == self.queue().len() as u32,
    {
        #[verifier::truncate] (self.frames.len() as u32)
    }

    /// Returns pixels for the next frame on the Queue.
    pub fn pop(&mut self) -> (r: Option<VFrame>)
        ensures
            old(self).queue().len() == 0 ==> r is None && final(self).queue() == old(self).queue(),
            old(self).queue().len() > 0 ==> r == Some(old(self).queue()[0]) && final(self).queue()
                == old(self).queue().drop_first(),
            final(self).spec_format() == old(self).spec_format(),
            final(self).spec_wh() == old(self).spec_wh(),
            final(self).total_frames() == old(self).total_frames(),
    {
        Some(self.frames.pop_front()?)
    }

    /// Return the number of channels.
    pub fn n_channels(&self) -> (r: usize)
        ensures
            r == spec_n_channels(self.spec_format()),
            r == 1 || r == 3 || r == 4,
    {
        self.format.n_channels()
    }

    /// Return the total number of frames in the video.
    pub fn frames(&self) -> (r: u32)
        ensures
            r == self.total_frames(),
    {
        self.n_frames
    }
}

} // verus!
