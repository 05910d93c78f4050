use vstd::prelude::*;

use crate::table::{lin_of, s_lin};
use crate::xfer::{lin_to_s_byte, lin_to_s_q};

verus! {

/// The largest of three linear channel values.
pub open spec fn max3(a: int, b: int, c: int) -> int {
    if a >= b && a >= c {
        a
    } else if b >= c {
        b
    } else {
        c
    }
}

/// The smallest of three linear channel values.
pub open spec fn min3(a: int, b: int, c: int) -> int {
    if a <= b && a <= c {
        a
    } else if b <= c {
        b
    } else {
        c
    }
}

/// The hue byte of a pixel whose linear channel values are lr, lg, lb at
/// scale LIN_ONE.  An achromatic pixel has hue 0.  Otherwise the hue in the
/// six-region formula lies in [0, 6) (the region picked by the maximal
/// channel, red winning ties, then green); it is wrapped into that range,
/// divided by 6 and quantized by multiply-by-256, truncate, clamp at 255.
pub open spec fn spec_hue_byte(lr: int, lg: int, lb: int) -> int {
    let mx = max3(lr, lg, lb);
    let d = mx - min3(lr, lg, lb);
    if d == 0 {
        0
    } else {
        let num = if lr == mx {
            lg - lb
        } else if lg == mx {
            2 * d + (lb - lr)
        } else {
            4 * d + (lr - lg)
        };
        let wrapped = if num < 0 {
            num + 6 * d
        } else {
            num
        };
        let t = 256 * wrapped / (6 * d);
        if t >= 255 {
            255
        } else {
            t
        }
    }
}

/// The saturation byte: (mx - mn)/mx quantized, 0 for black.
pub open spec fn spec_sat_byte(mx: int, d: int) -> int {
    if mx == 0 {
        0
    } else {
        let t = 256 * d / mx;
        if t >= 255 {
            255
        } else {
            t
        }
    }
}

/// The value byte: the largest linear channel quantized.
pub open spec fn spec_val_byte(mx: int) -> int {
    let t = mx / 0x1000_0000;
    if t >= 255 {
        255
    } else {
        t
    }
}

/// The linear HSVA bytes of an sRGBA pixel: channels decoded to linear
/// light through the table, hue/saturation/value computed there, alpha
/// passed through untouched.
pub open spec fn spec_srgba_to_lhsva(p: Seq<u8>) -> Seq<u8> {
    let lr = s_lin(p[0] as int);
    let lg = s_lin(p[1] as int);
    let lb = s_lin(p[2] as int);
    let mx = max3(lr, lg, lb);
    let d = mx - min3(lr, lg, lb);
    seq![
        spec_hue_byte(lr, lg, lb) as u8,
        spec_sat_byte(mx, d) as u8,
        spec_val_byte(mx) as u8,
        p[3],
    ]
}

/// The sextant index of a hue byte: the integer part of h/255*6.
pub open spec fn spec_sextant(h: int) -> int {
    6 * h / 255
}

/// The numerator over 255 of the within-sextant fraction of a hue byte.
pub open spec fn spec_sext_frac(h: int) -> int {
    6 * h - 255 * spec_sextant(h)
}

/// The sRGBA bytes of a linear HSVA pixel.  Saturation 0 short-circuits
/// past the sextant math to gray, with the linear value still encoded back
/// to a gamma byte.  Otherwise the three linear channel values are the
/// standard sextant mix of v, p = v(1-s), q = v(1-s f) and t = v(1-s(1-f)),
/// held as exact fractions over 255^3, each encoded back to a gamma byte;
/// alpha passes through untouched.
pub open spec fn spec_lhsva_to_srgba(x: Seq<u8>) -> Seq<u8> {
    let h = x[0] as int;
    let s = x[1] as int;
    let v = x[2] as int;
    if s == 0 {
        let g = lin_to_s_q(v, 255) as u8;
        seq![g, g, g, x[3]]
    } else {
        let hh = spec_sextant(h);
        let f = spec_sext_frac(h);
        let vn = v * 65025;
        let pn = v * (255 - s) * 255;
        let qn = v * (65025 - s * f);
        let tn = v * (65025 - s * (255 - f));
        let rgb = if hh == 1 {
            (qn, vn, pn)
        } else if hh == 2 {
            (pn, vn, tn)
        } else if hh == 3 {
            (pn, qn, vn)
        } else if hh == 4 {
            (tn, pn, vn)
        } else if hh == 5 {
            (vn, pn, qn)
        } else {
            (vn, tn, pn)
        };
        seq![
            lin_to_s_q(rgb.0, 16581375) as u8,
            lin_to_s_q(rgb.1, 16581375) as u8,
            lin_to_s_q(rgb.2, 16581375) as u8,
            x[3],
        ]
    }
}

/// Convert sRGBA to lHSVA
pub fn srgba_to_lhsva(rgba: [u8; 4]) -> (r: [u8; 4])
    ensures
        r@ == spec_srgba_to_lhsva(rgba@),
        r@[3] == rgba@[3],
{
    let lr = lin_of(rgba[0]);
    let lg = lin_of(rgba[1]);
    let lb = lin_of(rgba[2]);

    let mx = if lr >= lg && lr >= lb {
        lr
    } else if lg >= lb {
        lg
    } else {
        lb
    };
    let mn = if lr <= lg && lr <= lb {
        lr
    } else if lg <= lb {
        lg
    } else {
        lb
    };
    let d = mx - mn;

    let hue: u8 = if d == 0 {
        0
    } else {
        let num: i64 = if lr == mx {
            lg as i64 - lb as i64
        } else if lg == mx {
            2 * d as i64 + (lb as i64 - lr as i64)
        } else {
            4 * d as i64 + (lr as i64 - lg as i64)
        };
        let wrapped: u64 = if num < 0 {
            (num + 6 * d as i64) as u64
        } else {
            num as u64
        };
        let t = (256 * wrapped) / (6 * d);
        if t >= 255 {
            255
        } else {
            t as u8
        }
    };

    let sat: u8 = if mx == 0 {
        0
    } else {
        let t = (256 * d) / mx;
        if t >= 255 {
            255
        } else {
            t as u8
        }
    };

    let t = mx / 0x1000_0000;
    let val: u8 = if t >= 255 {
        255
    } else {
        t as u8
    };

    let r = [hue, sat, val, rgba[3]];
    proof {
        assert(r@ =~= spec_srgba_to_lhsva(rgba@));
    }
    r
}

/// Convert lHSVA to sRGBA
pub fn lhsva_to_srgba(hsva: [u8; 4]) -> (r: [u8; 4])
    ensures
        r@ == spec_lhsva_to_srgba(hsva@),
        r@[3] == hsva@[3],
{
    let h = hsva[0] as u64;
    let s = hsva[1] as u64;
    let v = hsva[2] as u64;

    if hsva[1] == 0 {
        // if saturation is 0, then it's gray: encode the linear value
        let g = lin_to_s_byte(hsva[2] as u128, 255);
        let r = [g, g, g, hsva[3]];
        proof {
            assert(r@ =~= spec_lhsva_to_srgba(hsva@));
        }
        return r;
    }

    let hh = (6 * h) / 255;
    proof {
        vstd::arithmetic::div_mod::lemma_fundamental_div_mod(6 * h, 255);
        vstd::arithmetic::div_mod::lemma_mod_division_less_than_divisor(6 * h, 255);
    }
    let f = 6 * h - 255 * hh;
    proof {
        assert(s * f <= 65025 && s * (255 - f) <= 65025 && v * (65025 - s * f) <= 16581375 && v * (
        65025 - s * (255 - f)) <= 16581375 && v * (255 - s) * 255 <= 16581375) by (nonlinear_arith)
            requires
                1 <= s <= 255,
                0 <= f <= 254,
                0 <= v <= 255,
        ;
    }
    let vn = v * 65025;
    let pn = v * (255 - s) * 255;
    let qn = v * (65025 - s * f);
    let tn = v * (65025 - s * (255 - f));

    let (rn, gn, bn) = if hh == 1 {
        (qn, vn, pn)
    } else if hh == 2 {
        (pn, vn, tn)
    } else if hh == 3 {
        (pn, qn, vn)
    } else if hh == 4 {
        (tn, pn, vn)
    } else if hh == 5 {
        (vn, pn, qn)
    } else {
        // sextant 0 or 6
        (vn, tn, pn)
    };

    let r = [
        lin_to_s_byte(rn as u128, 16581375),
        lin_to_s_byte(gn as u128, 16581375),
        lin_to_s_byte(bn as u128, 16581375),
        hsva[3],
    ];
    proof {
        assert(r@ =~= spec_lhsva_to_srgba(hsva@));
    }
    r
}

/// Alpha preservation: converting between sRGBA and linear HSVA leaves the
/// alpha byte untouched in both directions, for every pixel.
pub proof fn lemma_hsv_alpha_preserved(p: Seq<u8>)
    requires
        p.len() == 4,
    ensures
        spec_srgba_to_lhsva(p)[3] == p[3],
        spec_lhsva_to_srgba(p)[3] == p[3],
{
}

} // verus!
