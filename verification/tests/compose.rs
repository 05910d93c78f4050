use afi::{blend, lhsva_to_srgba, over, over_blend, srgba_to_lhsva};

#[test]
fn over_transparent_dst() {
    let mut dst = [0, 0, 0, 0];
    over([10, 20, 30, 200], &mut dst);
    assert_eq!(dst, [10, 20, 30, 200]);
}

#[test]
fn over_transparent_src() {
    let mut dst = [50, 60, 70, 90];
    over([123, 45, 67, 0], &mut dst);
    assert_eq!(dst, [50, 60, 70, 90]);
    let mut dst = [50, 60, 70, 90];
    over([0, 0, 0, 0], &mut dst);
    assert_eq!(dst, [50, 60, 70, 90]);
}

#[test]
fn over_general_values() {
    let mut dst = [40, 50, 60, 70];
    over([10, 20, 30, 200], &mut dst);
    assert_eq!(dst, [12, 22, 33, 215]);
    let mut dst = [50, 60, 70, 255];
    over([200, 100, 50, 128], &mut dst);
    assert_eq!(dst, [147, 85, 154, 255]);
}

#[test]
fn over_opaque_self_is_identity() {
    for p in [[10, 20, 30, 255], [200, 100, 50, 255], [254, 3, 127, 255], [0, 0, 0, 255]] {
        let mut dst = p;
        over(p, &mut dst);
        assert_eq!(dst, p);
    }
}

#[test]
fn over_blend_direct() {
    let mut dst = [40, 50, 60, 70];
    over_blend([10, 20, 30, 200], &mut dst);
    assert_eq!(dst, [12, 22, 33, 215]);
}

#[test]
fn blend_single_sample() {
    assert_eq!(blend(&[([10, 20, 30, 255], 7)]), [10, 20, 30, 255]);
    assert_eq!(blend(&[([123, 231, 17, 255], 1000)]), [123, 231, 17, 255]);
    assert_eq!(blend(&[([77, 77, 77, 255], 1)]), [77, 77, 77, 255]);
    assert_eq!(blend(&[([255, 255, 255, 255], 3)]), [255, 255, 255, 255]);
}

#[test]
fn blend_equal_samples() {
    assert_eq!(blend(&[([100, 100, 100, 255], 1), ([100, 100, 100, 255], 1)]), [
        100, 100, 100, 255,
    ]);
}

#[test]
fn blend_transparent_sample_dilutes() {
    // a fully transparent sample still counts toward the weight divisor
    assert_eq!(blend(&[([200, 200, 200, 255], 1), ([0, 0, 0, 0], 1)]), [146, 146, 146, 128]);
}

#[test]
fn blend_alpha_exact_boundary() {
    // (120/255)^2 + (225/255)^2 averages to exactly 1/2, which the
    // quantizer turns into byte 128; the sums are accumulated exactly, so
    // the boundary is hit
    assert_eq!(blend(&[([0, 0, 0, 120], 1), ([0, 0, 0, 225], 1)]), [0, 0, 0, 128]);
}

#[test]
fn blend_transparent_never_raises_alpha() {
    // the divisor is the raw weight sum, so appending a fully transparent
    // sample can only dilute the result's opacity
    let base = blend(&[([10, 20, 30, 200], 3)]);
    let diluted = blend(&[([10, 20, 30, 200], 3), ([90, 10, 250, 0], 5)]);
    assert!(diluted[3] <= base[3]);
}

#[test]
fn blend_hue_wraparound() {
    // two fully saturated pixels whose hues sit just either side of the
    // wrap point must blend to a hue near the wrap point, not to the
    // middle of the hue range
    let a = lhsva_to_srgba([254, 255, 255, 255]);
    let b = lhsva_to_srgba([2, 255, 255, 255]);
    let mixed = blend(&[(a, 1), (b, 1)]);
    let hue = srgba_to_lhsva(mixed)[0];
    assert!(hue >= 250 || hue <= 5, "blended hue {} strayed from the wrap point", hue);
}
