use vstd::prelude::*;

use std::collections::VecDeque;

use crate::codec::AFrame;

verus! {

/// Mono, Stereo or Surround.
#[derive(Copy, Clone, PartialEq, Eq, Structural, Debug)]
pub enum AudioChannels {
    /// Mono = 1 channel (front center)
    Mono,
    /// Stereo = 2 channels (front left, front right)
    Stereo,
    /// Surround = 5 channels (front left, front right, front center,
    /// back left, back right)
    Surround,
}

impl Default for AudioChannels {
    fn default() -> (r: AudioChannels)
        ensures
            r == AudioChannels::Stereo,
    {
        AudioChannels::Stereo
    }
}

/// The number of channels an `AudioChannels` variant stands for.
pub open spec fn spec_audio_channels(c: AudioChannels) -> int {
    match c {
        AudioChannels::Mono => 1,
        AudioChannels::Stereo => 2,
        AudioChannels::Surround => 5,
    }
}

impl AudioChannels {
    /// Return the number of channels.
    pub fn channels(self) -> (r: u8)
        ensures
            r == spec_audio_channels(self),
            r == 1 || r == 2 || r == 5,
    {
        match self {
            AudioChannels::Mono => 1,
            AudioChannels::Stereo => 2,
            AudioChannels::Surround => 5,
        }
    }
}

/// An Audio Buffer (48kHz/48,000hz).
pub struct Audio {
    /// Title
    pub title: String,
    /// Artist / Author
    pub artist: String,
    /// Album Artist
    pub album_artist: String,
    /// Album
    pub album: String,
    /// CD
    pub cd: String,
    /// Release Date / Release Year
    pub release: String,
    /// Track #
    pub track_number: String,
    /// Track Count
    pub track_count: String,
    /// Genre
    pub genre: String,
    /// Comment
    pub comment: String,
    /// Composer
    pub composer: String,
    /// Original artist
    pub orig_artist: String,
    /// Copyright / License
    pub copyright: String,
    /// Artist Website / URL
    pub url: String,
    /// Encoded By
    pub encoded_by: String,
    /// The actual audio.
    frames: VecDeque<AFrame>,
    /// The total number of frames in the audio.
    n_frames: u32,
}

impl Audio {
    /// The queued audio frames, oldest first.
    pub closed spec fn queue(&self) -> Seq<AFrame> {
        self.frames@
    }

    /// True when every metadata string of the buffer is empty.
    pub closed spec fn metadata_is_empty(&self) -> bool {
        &&& self.title@ == Seq::<char>::empty()
        &&& self.artist@ == Seq::<char>::empty()
        &&& self.album_artist@ == Seq::<char>::empty()
        &&& self.album@ == Seq::<char>::empty()
        &&& self.cd@ == Seq::<char>::empty()
        &&& self.release@ == Seq::<char>::empty()
        &&& self.track_number@ == Seq::<char>::empty()
        &&& self.track_count@ == Seq::<char>::empty()
        &&& self.genre@ == Seq::<char>::empty()
        &&& self.comment@ == Seq::<char>::empty()
        &&& self.composer@ == Seq::<char>::empty()
        &&& self.orig_artist@ == Seq::<char>::empty()
        &&& self.copyright@ == Seq::<char>::empty()
        &&& self.url@ == Seq::<char>::empty()
        &&& self.encoded_by@ == Seq::<char>::empty()
    }

    /// Create a new `Audio`.
    pub fn new(n_frames: u32) -> (audio: Audio)
        ensures
            audio.queue() == Seq::<AFrame>::empty(),
            audio.total_frames() == n_frames,
            audio.metadata_is_empty(),
    {
        Audio {
            n_frames,
            frames: VecDeque::new(),
            title: String::new(),
            artist: String::new(),
            album_artist: String::new(),
            album: String::new(),
            cd: String::new(),
            release: String::new(),
            track_number: String::new(),
            track_count: String::new(),
            genre: String::new(),
            comment: String::new(),
            composer: String::new(),
            orig_artist: String::new(),
            copyright: String::new(),
            url: String::new(),
            encoded_by: String::new(),
        }
    }

    /// Returns audio for the next frame on the Queue.
    pub fn pop(&mut self) -> (r: Option<AFrame>)
        ensures
            old(self).queue().len() == 0 ==> r is None && final(self).queue() == old(self).queue(),
            old(self).queue().len() > 0 ==> r == Some(old(self).queue()[0]) && final(self).queue()
                == old(self).queue().drop_first(),
            final(self).total_frames() == old(self).total_frames(),
    {
        Some(self.frames.pop_front()?)
    }

    /// Return the number of frames in the audio.
    pub fn frames(&self) -> (r: u32)
        ensures
            r == self.total_frames(),
    {
        self.n_frames
    }

    /// The total frame count held by the buffer.
    pub closed spec fn total_frames(&self) -> u32 {
        self.n_frames
    }
}

} // verus!
