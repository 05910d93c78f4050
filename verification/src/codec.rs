use vstd::prelude::*;

use crate::audio::Audio;
use crate::video::{ColorChannels, Video};

verus! {

/// Index for a frame.
#[derive(Copy, Clone)]
pub struct Index(pub u32);

/// A Video Frame
#[derive(Clone)]
pub struct VFrame(pub Vec<u8>);

/// An audio frame (2000 samples = 1/24 of a second)
#[derive(Clone)]
pub struct AFrame(pub [i16; 2000]);

impl VFrame {
    /// Get color from index.
    pub fn get(&self, index: usize) -> (rgba: [u8; 4])
        requires
            4 * index + 4 <= self.0@.len(),
        ensures
            rgba@ == self.0@.subrange(4 * index, 4 * index + 4),
    {
        let n = self.0.len();
        assert(4 * index + 4 <= n);
        let i = index * 4;
        let rgba = [self.0[i], self.0[i + 1], self.0[i + 2], self.0[i + 3]];
        proof {
            assert(rgba@ =~= self.0@.subrange(4 * index, 4 * index + 4));
        }
        rgba
    }

    /// Set color with index.
    pub fn set(&mut self, index: usize, rgba: [u8; 4])
        requires
            4 * index + 4 <= old(self).0@.len(),
        ensures
            final(self).0@.len() == old(self).0@.len(),
            final(self).0@.subrange(4 * index, 4 * index + 4) == rgba@,
            forall|j: int|
                0 <= j < old(self).0@.len() && !(4 * index <= j < 4 * index + 4)
                    ==> final(self).0@[j] == old(self).0@[j],
    {
        let n = self.0.len();
        assert(4 * index + 4 <= n);
        let i = index * 4;
        self.0.set(i, rgba[0]);
        self.0.set(i + 1, rgba[1]);
        self.0.set(i + 2, rgba[2]);
        self.0.set(i + 3, rgba[3]);
        proof {
            assert(self.0@.subrange(4 * index, 4 * index + 4) =~= rgba@);
        }
    }

    /// Clear the VFrame.
    pub fn clear(&mut self)
        ensures
            final(self).0@.len() == old(self).0@.len(),
            forall|j: int| 0 <= j < final(self).0@.len() ==> final(self).0@[j] == 0,
    {
        let n = self.0.len();
        let mut i: usize = 0;
        while i < n
            invariant
                i <= n,
                self.0@.len() == n,
                forall|j: int| 0 <= j < i ==> self.0@[j] == 0,
            decreases n - i,
        {
            self.0.set(i, 0);
            i = i + 1;
        }
    }
}

/// A trait for implementing encoding video (use only with non-audio formats).
pub trait EncoderV where Self: Sized {
    /// Create a new encoder for this video.
    fn new(video: &Video) -> Self;

    /// Encode a frame (24fps) and return appended data.
    fn run(&mut self, frame: &VFrame) -> Vec<u8>;

    /// Finish the encoding and return appended data.
    fn end(self) -> Vec<u8>;
}

/// A trait for implementing encoding audio.
pub trait EncoderA where Self: Sized {
    /// Create a new encoder for this audio.
    fn new(audio: &Audio) -> Self;

    /// Encode a frame (2000 samples / 24fps) and return appended data.
    fn run(&mut self, audio: &mut Audio) -> Vec<u8>;

    /// Finish the encoding and return appended data.
    fn end(self) -> Vec<u8>;
}

/// A trait for implementing encoding audio and video together.
pub trait EncoderAV where Self: Sized {
    /// Create a new encoder for this audiovideo
    fn new(video: &Video, audio: &Audio) -> Self;

    /// Encode a frame (2000 samples / 24fps) and return appended data.
    fn run(&mut self, audio: &mut Audio, video: &mut Video) -> Vec<u8>;

    /// Finish the encoding and return appended data.
    fn end(self) -> Vec<u8>;
}

/// A trait for implementing decoding audio, video or both.
pub trait Decoder<T> where Self: Sized {
    /// Create a new decoder for this format.  `None` is returned when the
    /// decoder can't handle `data`'s format: try a different decoder.
    fn new(data: T, colors: ColorChannels) -> Option<Self>;

    /// Decode a frame.  `None` is returned if the file is corrupt,
    /// `Some(true)` if it succeeded, and `Some(false)` if it can't add
    /// anymore frames because the input file ended.  `audio` and `video`
    /// should initially be set to `None`.
    fn run(&mut self, audio: &mut Option<Audio>, video: &mut Option<Video>) -> Option<bool>;

    /// Get the frame number (24 frames per second).
    fn get(&self) -> Index;

    /// Set the frame number to seek forward or backwards.
    fn set(&mut self, index: Index);
}

} // verus!
