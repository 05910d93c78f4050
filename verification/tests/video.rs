use afi::{Lhsva, Srgba};

#[test]
fn video_same_alpha() {
    let [_, _, _, a1] = Srgba.from(Lhsva, [0, 0, 0, 0]);
    let [_, _, _, a2] = Lhsva.from(Srgba, [0, 0, 0, 0]);
    assert_eq!(a1, 0);
    assert_eq!(a2, 0);
    let [_, _, _, a1] = Srgba.from(Lhsva, [0, 0, 0, 127]);
    let [_, _, _, a2] = Lhsva.from(Srgba, [0, 0, 0, 127]);
    assert_eq!(a1, 127);
    assert_eq!(a2, 127);
    let [_, _, _, a1] = Srgba.from(Lhsva, [0, 0, 0, 255]);
    let [_, _, _, a2] = Lhsva.from(Srgba, [0, 0, 0, 255]);
    assert_eq!(a1, 255);
    assert_eq!(a2, 255);
}

#[test]
fn video_color_persist() {
    for a in 0..255 {
        let color = Srgba.from(Lhsva, Lhsva.from(Srgba, [255, 255, 255, a]));

        assert_eq!(color, [255, 255, 255, a]);
    }
}

#[test]
fn mod_same_alpha() {
    let [_, _, _, a1] = Srgba.from(Lhsva, [0, 0, 0, 0]);
    let [_, _, _, a2] = Lhsva.from(Srgba, [0, 0, 0, 0]);
    assert_eq!(a1, 0);
    assert_eq!(a2, 0);
    let [_, _, _, a1] = Srgba.from(Lhsva, [0, 0, 0, 127]);
    let [_, _, _, a2] = Lhsva.from(Srgba, [0, 0, 0, 127]);
    assert_eq!(a1, 127);
    assert_eq!(a2, 127);
    let [_, _, _, a1] = Srgba.from(Lhsva, [0, 0, 0, 255]);
    let [_, _, _, a2] = Lhsva.from(Srgba, [0, 0, 0, 255]);
    assert_eq!(a1, 255);
    assert_eq!(a2, 255);
}

#[test]
fn mod_color_persist() {
    for a in 0..255 {
        let color = Srgba.from(Lhsva, Lhsva.from(Srgba, [255, 255, 255, a]));

        assert_eq!(color, [255, 255, 255, a]);
    }
}
