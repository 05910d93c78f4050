//! Audio and video buffer types together with a verified pixel-format
//! conversion and alpha-compositing kernel.
//!
//! Pixels are four bytes whose meaning is given by a [`ColorChannels`] tag.
//! Every conversion is routed through the canonical gamma-encoded sRGBA
//! representation; compositing happens in a hue-circular linear HSV space.
//! All channel arithmetic is exact fixed-point integer arithmetic, so each
//! operation carries a full functional contract.

mod angle;
mod audio;
mod blend;
mod codec;
mod graphic;
mod table;
mod hsv;
mod text;
mod video;
mod xfer;

pub use audio::{Audio, AudioChannels};
pub use audio::AudioChannels::{Mono, Stereo, Surround};
pub use blend::{blend, over, over_blend};
pub use codec::{AFrame, Decoder, EncoderA, EncoderAV, EncoderV, Index, VFrame};
pub use graphic::{spec_swap_rb, Graphic, GraphicBuilder, GraphicDecodeErr};
pub use hsv::{lhsva_to_srgba, srgba_to_lhsva};
pub use text::Text;
pub use video::{ColorChannels, Video};
pub use video::ColorChannels::{
    Lbgr, Lbgra, Lgrayscale, Lhsv, Lhsva, Lrgb, Lrgba, Sbgr, Sbgra, Sgrayscale, Srgb, Srgba, YCbCr,
};
pub use xfer::{linear_to_s_u8, s_to_linear_u8};
