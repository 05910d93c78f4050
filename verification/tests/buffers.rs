use afi::{Audio, AudioChannels, ColorChannels, Graphic, GraphicBuilder, Text, VFrame, Video};

#[test]
fn audio_buffer_basics() {
    let mut audio = Audio::new(24);
    assert_eq!(audio.frames(), 24);
    assert!(audio.title.is_empty());
    assert!(audio.artist.is_empty());
    assert!(audio.pop().is_none());
    assert!(matches!(AudioChannels::default(), AudioChannels::Stereo));
    assert_eq!(AudioChannels::Mono.channels(), 1);
    assert_eq!(AudioChannels::Stereo.channels(), 2);
    assert_eq!(AudioChannels::Surround.channels(), 5);
}

#[test]
fn video_buffer_fifo() {
    let mut video = Video::new(ColorChannels::Srgba, (2, 2), 10);
    assert_eq!(video.wh(), (2, 2));
    assert_eq!(video.frames(), 10);
    assert_eq!(video.n_channels(), 4);
    assert!(matches!(video.format(), ColorChannels::Srgba));
    assert_eq!(video.len(), 0);
    video.add(VFrame(vec![1; 16]));
    video.add(VFrame(vec![2; 16]));
    assert_eq!(video.len(), 2);
    let first = video.pop().unwrap();
    assert_eq!(first.0, vec![1; 16]);
    assert_eq!(video.len(), 1);
    let second = video.pop().unwrap();
    assert_eq!(second.0, vec![2; 16]);
    assert!(video.pop().is_none());
}

#[test]
fn vframe_get_set_clear() {
    let mut frame = VFrame(vec![0; 16]);
    frame.set(1, [9, 8, 7, 6]);
    assert_eq!(frame.get(1), [9, 8, 7, 6]);
    assert_eq!(frame.get(0), [0, 0, 0, 0]);
    assert_eq!(frame.0[4..8], [9, 8, 7, 6]);
    frame.clear();
    assert_eq!(frame.0, vec![0; 16]);
}

#[test]
fn graphic_channel_swap() {
    let data = vec![0x78563412u32, 0xAABBCCDD];
    let mut g = GraphicBuilder::new().rgba(2, 1, data.clone());
    let (w, h, slice) = g.as_slice();
    assert_eq!((w, h), (2, 1));
    assert_eq!(slice, &data[..]);
    g.bgra();
    let (_, _, swapped) = g.as_slice();
    assert_eq!(swapped, &[0x78123456u32, 0xAADDCCBB][..]);
    g.bgra();
    let (_, _, same) = g.as_slice();
    assert_eq!(same, &[0x78123456u32, 0xAADDCCBB][..]);
    g.rgba();
    let (_, _, back) = g.as_slice();
    assert_eq!(back, &data[..]);
}

#[test]
fn graphic_builder_bgra() {
    let g: Graphic = GraphicBuilder::new().bgra(1, 1, vec![5]);
    let (w, h, slice) = g.as_slice();
    assert_eq!((w, h, slice), (1, 1, &[5u32][..]));
}

#[test]
fn text_round_trip() {
    let text = Text::new(vec![104, 105]);
    assert_eq!(text.bytes(), &[104, 105][..]);
}
