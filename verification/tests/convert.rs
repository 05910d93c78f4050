use afi::{
    lhsva_to_srgba, linear_to_s_u8, s_to_linear_u8, srgba_to_lhsva, ColorChannels, Lbgr, Lbgra,
    Lgrayscale, Lhsv, Lhsva, Lrgb, Lrgba, Sbgr, Sbgra, Sgrayscale, Srgb, Srgba, YCbCr,
};

const ALL_FORMATS: [ColorChannels; 13] = [
    Sgrayscale, Srgb, Srgba, Sbgr, Sbgra, Lgrayscale, Lrgb, Lrgba, Lbgr, Lbgra, Lhsv, Lhsva, YCbCr,
];

#[test]
fn identity_conversion() {
    let pixels = [[0, 0, 0, 0], [10, 20, 30, 40], [255, 255, 255, 255], [1, 254, 7, 128]];
    for f in ALL_FORMATS {
        for p in pixels {
            assert_eq!(f.from(f, p), p);
        }
    }
}

#[test]
fn channel_counts() {
    assert_eq!(Sgrayscale.n_channels(), 1);
    assert_eq!(Srgb.n_channels(), 3);
    assert_eq!(Srgba.n_channels(), 4);
    assert_eq!(Sbgr.n_channels(), 3);
    assert_eq!(Sbgra.n_channels(), 4);
    assert_eq!(Lgrayscale.n_channels(), 1);
    assert_eq!(Lrgb.n_channels(), 3);
    assert_eq!(Lrgba.n_channels(), 4);
    assert_eq!(Lbgr.n_channels(), 3);
    assert_eq!(Lbgra.n_channels(), 4);
    assert_eq!(Lhsv.n_channels(), 3);
    assert_eq!(Lhsva.n_channels(), 4);
    assert_eq!(YCbCr.n_channels(), 3);
    for f in ALL_FORMATS {
        let n = f.n_channels();
        assert!(n == 1 || n == 3 || n == 4);
    }
}

#[test]
fn pack_unpack_round_trip() {
    let pixels = [[0, 0, 0, 0], [1, 2, 3, 4], [255, 254, 253, 252], [0x12, 0x34, 0x56, 0x78]];
    for p in pixels {
        assert_eq!(ColorChannels::unpack(ColorChannels::pack(p)), p);
    }
    assert_eq!(ColorChannels::pack([0x12, 0x34, 0x56, 0x78]), 0x78563412);
    assert_eq!(ColorChannels::unpack(0x78563412), [0x12, 0x34, 0x56, 0x78]);
    for w in [0u32, 1, 0xFFFF_FFFF, 0xDEAD_BEEF] {
        assert_eq!(ColorChannels::pack(ColorChannels::unpack(w)), w);
    }
}

#[test]
fn transfer_function_bytes() {
    assert_eq!(s_to_linear_u8(0), 0);
    assert_eq!(s_to_linear_u8(1), 0);
    assert_eq!(s_to_linear_u8(64), 13);
    assert_eq!(s_to_linear_u8(128), 55);
    assert_eq!(s_to_linear_u8(192), 134);
    assert_eq!(s_to_linear_u8(255), 255);
    assert_eq!(linear_to_s_u8(0), 0);
    assert_eq!(linear_to_s_u8(1), 12);
    assert_eq!(linear_to_s_u8(10), 55);
    assert_eq!(linear_to_s_u8(64), 137);
    assert_eq!(linear_to_s_u8(128), 188);
    assert_eq!(linear_to_s_u8(255), 255);
    for b in 0..=255u8 {
        assert!(s_to_linear_u8(b) <= b);
        assert!(linear_to_s_u8(b) >= b || b == 255);
    }
}

#[test]
fn grayscale_conversions() {
    assert_eq!(Sgrayscale.from(Srgba, [10, 20, 30, 255]), [20, 255, 255, 255]);
    assert_eq!(Srgba.from(Sgrayscale, [77, 0, 0, 0]), [77, 77, 77, 255]);
    assert_eq!(Srgba.from(Lgrayscale, [10, 0, 0, 0]), [55, 55, 55, 255]);
}

#[test]
fn bgr_swaps() {
    assert_eq!(Sbgra.from(Srgba, [1, 2, 3, 4]), [3, 2, 1, 4]);
    assert_eq!(Srgba.from(Sbgra, [3, 2, 1, 4]), [1, 2, 3, 4]);
    assert_eq!(Sbgr.from(Srgba, [1, 2, 3, 4]), [3, 2, 1, 255]);
}

#[test]
fn ycbcr_conversions() {
    assert_eq!(YCbCr.from(Srgba, [255, 255, 255, 9]), [255, 128, 128, 255]);
    assert_eq!(YCbCr.from(Srgba, [255, 0, 0, 0]), [76, 84, 255, 255]);
    assert_eq!(YCbCr.from(Srgba, [10, 20, 30, 0]), [18, 134, 122, 255]);
    assert_eq!(Srgba.from(YCbCr, [255, 128, 128, 0]), [255, 255, 255, 255]);
    assert_eq!(Srgba.from(YCbCr, [76, 84, 255, 0]), [254, 0, 0, 255]);
}

#[test]
fn hsva_codec_values() {
    assert_eq!(srgba_to_lhsva([255, 0, 0, 77]), [0, 255, 255, 77]);
    assert_eq!(srgba_to_lhsva([0, 255, 0, 10]), [85, 255, 255, 10]);
    assert_eq!(srgba_to_lhsva([12, 34, 56, 200]), [156, 232, 10, 200]);
    assert_eq!(lhsva_to_srgba([0, 255, 255, 9]), [255, 0, 0, 9]);
    assert_eq!(lhsva_to_srgba([100, 200, 150, 3]), [100, 202, 147, 3]);
    // saturation 0 is gray, with the linear value gamma re-encoded
    assert_eq!(lhsva_to_srgba([77, 0, 123, 45]), [185, 185, 185, 45]);
    assert_eq!(lhsva_to_srgba([0, 0, 123, 45])[0], linear_to_s_u8(123));
}

#[test]
fn hsva_alpha_untouched() {
    for a in [0u8, 1, 127, 200, 255] {
        for rgb in [[0u8, 0, 0], [255, 0, 0], [12, 200, 99], [255, 255, 255]] {
            let p = [rgb[0], rgb[1], rgb[2], a];
            assert_eq!(srgba_to_lhsva(p)[3], a);
            assert_eq!(lhsva_to_srgba(p)[3], a);
            assert_eq!(Lhsva.from(Srgba, p)[3], a);
            assert_eq!(Srgba.from(Lhsva, p)[3], a);
        }
    }
}
