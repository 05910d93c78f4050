use vstd::prelude::*;

use crate::angle::{
    atan2_hue, lemma_atan2_pos_x, mulp, sin_cos16, spec_atan2_hue, spec_cos_val, spec_oct_x,
    spec_sin_val, spec_sm, POW32,
};
use crate::table::{lin_of, s_lin, LIN_ONE};
use crate::xfer::{lemma_transfer_round_trip, lin_to_s_byte, lin_to_s_q};
use crate::hsv::{max3, min3};

verus! {

/// The linear hue-saturation-value working point of the over operator:
/// hue in [0, 6) at scale 2^16, saturation, value and alpha in [0, 1] at
/// scale 2^32.
pub struct LhModel {
    /// Hue in sixths of a turn, at scale 2^16.
    pub h: int,
    /// Saturation at scale 2^32.
    pub s: int,
    /// Value at scale 2^32.
    pub v: int,
    /// Alpha at scale 2^32.
    pub a: int,
}

/// A signed value scaled by a non-negative fraction f at scale 2^32,
/// with the magnitude truncated.
pub open spec fn spec_scale32(x: int, f: int) -> int {
    if x >= 0 {
        x * f / 0x1_0000_0000
    } else {
        -((-x) * f / 0x1_0000_0000)
    }
}

/// The largest linear channel value of an sRGBA pixel, at scale 2^36.
pub open spec fn spec_lin_max(p: Seq<u8>) -> int {
    max3(s_lin(p[0] as int), s_lin(p[1] as int), s_lin(p[2] as int))
}

/// The working point of an sRGBA pixel: channels decoded to linear light,
/// hue/saturation/value formed there exactly as in the byte codec but kept
/// at full working precision, alpha scaled from its byte.
pub open spec fn spec_lh_of(p: Seq<u8>) -> LhModel {
    let lr = s_lin(p[0] as int);
    let lg = s_lin(p[1] as int);
    let lb = s_lin(p[2] as int);
    let mx = max3(lr, lg, lb);
    let d = mx - min3(lr, lg, lb);
    let a = (p[3] as int) * 0x1_0000_0000 / 255;
    let v = mx / 16;
    let s = if mx == 0 {
        0
    } else {
        d * 0x1_0000_0000 / mx
    };
    let h = if d == 0 {
        0
    } else {
        let num = if lr == mx {
            lg - lb
        } else if lg == mx {
            2 * d + (lb - lr)
        } else {
            4 * d + (lr - lg)
        };
        let wrapped = if num < 0 {
            num + 6 * d
        } else {
            num
        };
        wrapped * 65536 / d
    };
    LhModel { h, s, v, a }
}

/// The sRGBA bytes of a composited working value: hue at scale 2^16,
/// saturation at scale 2^32, value at scale 2^36, and the alpha byte
/// already quantized.  Saturation 0 short-circuits past the sextant math
/// to gray; either way every linear channel is encoded back to a gamma
/// byte through the threshold table.
pub open spec fn spec_srgba_out(h: int, s: int, v: int, ab: int) -> Seq<u8> {
    if s == 0 {
        let e = lin_to_s_q(v, 0x10_0000_0000);
        seq![e as u8, e as u8, e as u8, ab as u8]
    } else {
        let hh = h / 65536;
        let f = h % 65536;
        let pq = v * (0x1_0000_0000 - s);
        let qq = v * (0x1_0000_0000 - s * f / 65536);
        let tq = v * (0x1_0000_0000 - s * (65536 - f) / 65536);
        let vv = v * 0x1_0000_0000;
        let rgb = if hh == 1 {
            (qq, vv, pq)
        } else if hh == 2 {
            (pq, vv, tq)
        } else if hh == 3 {
            (pq, qq, vv)
        } else if hh == 4 {
            (tq, pq, vv)
        } else if hh == 5 {
            (vv, pq, qq)
        } else {
            (vv, tq, pq)
        };
        seq![
            lin_to_s_q(rgb.0, 0x10_0000_0000_0000_0000) as u8,
            lin_to_s_q(rgb.1, 0x10_0000_0000_0000_0000) as u8,
            lin_to_s_q(rgb.2, 0x10_0000_0000_0000_0000) as u8,
            ab as u8,
        ]
    }
}

/// The result of compositing src over dst, both sRGBA: each hue becomes a
/// unit vector, every component is premultiplied by its own alpha, the
/// Porter-Duff over formula runs per component, saturation and value are
/// divided back out by the blended alpha, and the hue is recovered by the
/// angle of the blended vector, which needs no division.
pub open spec fn spec_over_blend(srcp: Seq<u8>, dstp: Seq<u8>) -> Seq<u8> {
    let s = spec_lh_of(srcp);
    let d = spec_lh_of(dstp);
    let k = 0x1_0000_0000 - s.a;
    let rx = spec_scale32(spec_cos_val(s.h), s.a) + spec_scale32(
        spec_scale32(spec_cos_val(d.h), d.a),
        k,
    );
    let ry = spec_scale32(spec_sin_val(s.h), s.a) + spec_scale32(
        spec_scale32(spec_sin_val(d.h), d.a),
        k,
    );
    let rs = s.s * s.a / 0x1_0000_0000 + (d.s * d.a / 0x1_0000_0000) * k / 0x1_0000_0000;
    let rv = s.v * s.a / 0x1_0000_0000 + (d.v * d.a / 0x1_0000_0000) * k / 0x1_0000_0000;
    let ra = s.a + d.a * k / 0x1_0000_0000;
    let ab = if ra / 0x100_0000 >= 255 {
        255
    } else {
        ra / 0x100_0000
    };
    spec_srgba_out(
        spec_atan2_hue(rx, ry),
        rs * 0x1_0000_0000 / ra,
        rv * 0x10_0000_0000 / ra,
        ab,
    )
}

/// The accumulated weighted sums over the first n samples of a blend: hue
/// vector, saturation, value and alpha each premultiplied by weight times
/// the alpha byte, held exactly (the common denominator 255 of the alpha
/// bytes is folded into the final normalization), and the plain sum of the
/// weights.
pub struct AccModel {
    /// Sum of weighted hue-vector x components.
    pub x: int,
    /// Sum of weighted hue-vector y components.
    pub y: int,
    /// Sum of weighted premultiplied saturations.
    pub s: int,
    /// Sum of weighted premultiplied values.
    pub v: int,
    /// Sum of weighted premultiplied alphas.
    pub a: int,
    /// Sum of the weights themselves.
    pub w: int,
}

/// The blend accumulator over the first n samples: every product is exact,
/// so nothing is lost before the single normalization at the end.
pub open spec fn spec_blend_acc(sm: Seq<([u8; 4], u32)>, n: int) -> AccModel
    decreases n,
{
    if n <= 0 {
        AccModel { x: 0, y: 0, s: 0, v: 0, a: 0, w: 0 }
    } else {
        let prev = spec_blend_acc(sm, n - 1);
        let p = sm[n - 1].0@;
        let w = sm[n - 1].1 as int;
        let a = p[3] as int;
        let h = spec_lh_of(p).h;
        AccModel {
            x: prev.x + w * a * spec_cos_val(h),
            y: prev.y + w * a * spec_sin_val(h),
            s: prev.s + w * a * spec_lh_of(p).s,
            v: prev.v + w * a * spec_lin_max(p),
            a: prev.a + w * a * a,
            w: prev.w + w,
        }
    }
}

/// The plain sum of the weights of a sample sequence.
pub open spec fn spec_weight_sum(sm: Seq<([u8; 4], u32)>) -> int {
    spec_blend_acc(sm, sm.len() as int).w
}

/// The flat weighted blend of a sample sequence: all five premultiplied
/// quantities summed exactly over every sample, saturation, value and
/// alpha normalized by the raw weight sum in one division each, the alpha
/// byte quantized straight from the exact sums, and the hue recovered from
/// the summed vector without any normalization.
pub open spec fn spec_blend(sm: Seq<([u8; 4], u32)>) -> Seq<u8> {
    let acc = spec_blend_acc(sm, sm.len() as int);
    let nh = spec_atan2_hue(acc.x, acc.y);
    let t = 256 * acc.a / (65025 * acc.w);
    let ab = if t >= 255 {
        255
    } else {
        t
    };
    spec_srgba_out(nh, acc.s / (255 * acc.w), acc.v / (255 * acc.w), ab)
}

/// The hue at scale 2^16, saturation at scale 2^32 and largest linear
/// channel at scale 2^36 of a pixel.
fn pix_hsv(p: [u8; 4]) -> (r: (u64, u64, u64))
    ensures
        r.0 == spec_lh_of(p@).h,
        r.1 == spec_lh_of(p@).s,
        r.2 == spec_lin_max(p@),
        r.0 < 393216,
        r.1 <= POW32,
        r.2 <= LIN_ONE,
{
    let lr = lin_of(p[0]);
    let lg = lin_of(p[1]);
    let lb = lin_of(p[2]);
    let mx = if lr >= lg && lr >= lb {
        lr
    } else if lg >= lb {
        lg
    } else {
        lb
    };
    let mn = if lr <= lg && lr <= lb {
        lr
    } else if lg <= lb {
        lg
    } else {
        lb
    };
    let d = mx - mn;
    let s: u64 = if mx == 0 {
        0
    } else {
        proof {
            assert((d as int) * 0x1_0000_0000 / (mx as int) <= 0x1_0000_0000) by (nonlinear_arith)
                requires
                    0 <= d <= mx,
                    1 <= mx,
            ;
        }
        (((d as u128) * (POW32 as u128)) / (mx as u128)) as u64
    };
    let h: u64 = if d == 0 {
        0
    } else {
        let num: i64 = if lr == mx {
            lg as i64 - lb as i64
        } else if lg == mx {
            2 * d as i64 + (lb as i64 - lr as i64)
        } else {
            4 * d as i64 + (lr as i64 - lg as i64)
        };
        let wrapped: u64 = if num < 0 {
            (num + 6 * d as i64) as u64
        } else {
            num as u64
        };
        proof {
            assert((wrapped as int) * 65536 / (d as int) < 393216) by (nonlinear_arith)
                requires
                    0 <= wrapped,
                    (wrapped as int) < 6 * (d as int),
                    1 <= d,
            ;
        }
        (((wrapped as u128) * 65536) / (d as u128)) as u64
    };
    (h, s, mx)
}

/// The working point of a pixel, as (hue, saturation, value, alpha).
fn lh_of_srgba(p: [u8; 4]) -> (r: (u64, u64, u64, u64))
    ensures
        r.0 == spec_lh_of(p@).h,
        r.1 == spec_lh_of(p@).s,
        r.2 == spec_lh_of(p@).v,
        r.3 == spec_lh_of(p@).a,
        r.0 < 393216,
        r.1 <= POW32,
        r.2 <= POW32,
        r.3 <= POW32,
        p@[3] != 0 ==> r.3 >= 1,
{
    let (h, s, mx) = pix_hsv(p);
    let a = ((p[3] as u64) * POW32) / 255;
    (h, s, mx / 16, a)
}

/// The sRGBA bytes of a composited working value.
fn srgba_out(h: u64, s: u64, v: u64, ab: u8) -> (r: [u8; 4])
    requires
        h < 393216,
        s <= POW32,
        v <= LIN_ONE,
    ensures
        r@ == spec_srgba_out(h as int, s as int, v as int, ab as int),
{
    if s == 0 {
        let e = lin_to_s_byte(v as u128, 0x10_0000_0000);
        let r = [e, e, e, ab];
        proof {
            assert(r@ =~= spec_srgba_out(h as int, s as int, v as int, ab as int));
        }
        r
    } else {
        let hh = h / 65536;
        let f = h % 65536;
        proof {
            assert((s as int) * (f as int) / 65536 <= 0x1_0000_0000 && (s as int) * (65536
                - f as int) / 65536 <= 0x1_0000_0000) by (nonlinear_arith)
                requires
                    0 <= s <= 0x1_0000_0000,
                    0 <= (f as int) < 65536,
            ;
        }
        let sf = (s * f) / 65536;
        let sg = (s * (65536 - f)) / 65536;
        proof {
            vstd::arithmetic::mul::lemma_mul_upper_bound(
                v as int,
                0x10_0000_0000,
                (POW32 - s) as int,
                0x1_0000_0000,
            );
            vstd::arithmetic::mul::lemma_mul_upper_bound(
                v as int,
                0x10_0000_0000,
                (POW32 - sf) as int,
                0x1_0000_0000,
            );
            vstd::arithmetic::mul::lemma_mul_upper_bound(
                v as int,
                0x10_0000_0000,
                (POW32 - sg) as int,
                0x1_0000_0000,
            );
            vstd::arithmetic::mul::lemma_mul_upper_bound(
                v as int,
                0x10_0000_0000,
                POW32 as int,
                0x1_0000_0000,
            );
        }
        let pq = (v as u128) * ((POW32 - s) as u128);
        let qq = (v as u128) * ((POW32 - sf) as u128);
        let tq = (v as u128) * ((POW32 - sg) as u128);
        let vv = (v as u128) * (POW32 as u128);
        let (rr, gg, bb) = if hh == 1 {
            (qq, vv, pq)
        } else if hh == 2 {
            (pq, vv, tq)
        } else if hh == 3 {
            (pq, qq, vv)
        } else if hh == 4 {
            (tq, pq, vv)
        } else if hh == 5 {
            (vv, pq, qq)
        } else {
            (vv, tq, pq)
        };
        let r = [
            lin_to_s_byte(rr, 0x10_0000_0000_0000_0000),
            lin_to_s_byte(gg, 0x10_0000_0000_0000_0000),
            lin_to_s_byte(bb, 0x10_0000_0000_0000_0000),
            ab,
        ];
        proof {
            assert(r@ =~= spec_srgba_out(h as int, s as int, v as int, ab as int));
        }
        r
    }
}

/// The sum of two sign-magnitude values.
fn sm_add(n1: bool, m1: u64, n2: bool, m2: u64) -> (r: (bool, u64))
    requires
        m1 + m2 <= 0xFFFF_FFFF_FFFF_FFFF,
    ensures
        spec_sm(r.0, r.1 as int) == spec_sm(n1, m1 as int) + spec_sm(n2, m2 as int),
        r.1 <= m1 + m2,
{
    if n1 == n2 {
        (n1, m1 + m2)
    } else if m1 >= m2 {
        (n1, m1 - m2)
    } else {
        (n2, m2 - m1)
    }
}

/// The sum of two wide sign-magnitude values.
fn sm_add128(n1: bool, m1: u128, n2: bool, m2: u128) -> (r: (bool, u128))
    requires
        m1 + m2 <= 0xFFFF_FFFF_FFFF_FFFF_FFFF_FFFF_FFFF_FFFF,
    ensures
        spec_sm(r.0, r.1 as int) == spec_sm(n1, m1 as int) + spec_sm(n2, m2 as int),
        r.1 <= m1 + m2,
{
    if n1 == n2 {
        (n1, m1 + m2)
    } else if m1 >= m2 {
        (n1, m1 - m2)
    } else {
        (n2, m2 - m1)
    }
}

/// Composite src over dst in place, both sRGBA, in the hue-circular
/// linear HSV space with premultiplied alpha.  At least one of the two
/// pixels must carry a nonzero alpha byte.
pub fn over_blend(src: [u8; 4], dst: &mut [u8; 4])
    requires
        src@[3] != 0 || old(dst)@[3] != 0,
    ensures
        final(dst)@ == spec_over_blend(src@, old(dst)@),
{
    let s = lh_of_srgba(src);
    let dpix = *dst;
    let d = lh_of_srgba(dpix);
    let (scn, scm, ssn, ssm) = sin_cos16(s.0);
    let (dcn, dcm, dsn, dsm) = sin_cos16(d.0);
    let k = POW32 - s.3;

    let sxm = mulp(scm, s.3);
    let sym = mulp(ssm, s.3);
    let dxm = mulp(mulp(dcm, d.3), k);
    let dym = mulp(mulp(dsm, d.3), k);
    let (rxn, rxm) = sm_add(scn, sxm, dcn, dxm);
    let (ryn, rym) = sm_add(ssn, sym, dsn, dym);

    let ds_ = mulp(d.1, d.3);
    let dv_ = mulp(d.2, d.3);
    let da_ = mulp(d.3, k);
    let dsk = mulp(ds_, k);
    let dvk = mulp(dv_, k);
    let rs = mulp(s.1, s.3) + dsk;
    let rv = mulp(s.2, s.3) + dvk;
    let ra = s.3 + da_;

    proof {
        assert(dsk as int <= da_ as int && dvk as int <= da_ as int) by (nonlinear_arith)
            requires
                0 <= (ds_ as int) <= d.3 as int,
                0 <= (dv_ as int) <= d.3 as int,
                0 <= k as int,
                dsk as int == (ds_ as int) * (k as int) / 0x1_0000_0000,
                dvk as int == (dv_ as int) * (k as int) / 0x1_0000_0000,
                da_ as int == (d.3 as int) * (k as int) / 0x1_0000_0000,
        ;
        if s.3 == 0 {
            assert(src@[3] == 0);
            assert(d.3 >= 1);
            assert(k == 0x1_0000_0000);
            assert((d.3 as int) * 0x1_0000_0000 / 0x1_0000_0000 == d.3 as int) by (nonlinear_arith);
        }
        assert(ra >= 1);
        assert((rs as int) * 0x1_0000_0000 / (ra as int) <= 0x1_0000_0000 && (rv as int)
            * 0x10_0000_0000 / (ra as int) <= 0x10_0000_0000) by (nonlinear_arith)
            requires
                0 <= rs as int <= ra as int,
                0 <= rv as int <= ra as int,
                1 <= ra as int,
        ;
    }
    let ns = (((rs as u128) * (POW32 as u128)) / (ra as u128)) as u64;
    let nv = (((rv as u128) * (LIN_ONE as u128)) / (ra as u128)) as u64;
    let t = ra / 0x100_0000;
    let ab: u8 = if t >= 255 {
        255
    } else {
        t as u8
    };
    let nh = atan2_hue(rxn, rxm as u128, ryn, rym as u128);
    let out = srgba_out(nh, ns, nv, ab);
    *dst = out;
}

/// Put sRGBA src color over sRGBA dst color in the linear HSVA colorspace.
/// A fully transparent destination takes the source verbatim; a fully
/// transparent source leaves the destination untouched.
pub fn over(src: [u8; 4], dst: &mut [u8; 4])
    ensures
        old(dst)@[3] == 0 ==> final(dst)@ == src@,
        old(dst)@[3] != 0 && src@[3] == 0 ==> final(dst)@ == old(dst)@,
        old(dst)@[3] != 0 && src@[3] != 0 ==> final(dst)@ == spec_over_blend(src@, old(dst)@),
{
    let d3 = dst[3];
    if d3 == 0 {
        *dst = src;
        proof {
            assert(dst@ =~= src@);
        }
    } else if src[3] != 0 {
        over_blend(src, dst);
    }
}

/// A non-negative multiple of a sign-magnitude value multiplies its
/// magnitude.
proof fn lemma_mul_sm(w: int, neg: bool, mag: int)
    requires
        0 <= w,
        0 <= mag,
    ensures
        w * spec_sm(neg, mag) == spec_sm(neg, w * mag),
{
    if neg {
        assert(w * (-mag) == -(w * mag)) by (nonlinear_arith);
    }
}

/// Every prefix of the weight accumulation is at most the whole.
proof fn lemma_acc_w_grows(sm: Seq<([u8; 4], u32)>, m: int, n: int)
    requires
        0 <= m <= n,
    ensures
        0 <= spec_blend_acc(sm, m).w <= spec_blend_acc(sm, n).w,
    decreases n,
{
    if n > 0 {
        if m == n {
            lemma_acc_w_grows(sm, 0, n - 1);
        } else {
            lemma_acc_w_grows(sm, m, n - 1);
        }
    }
}

/// A blend of one achromatic sample of full alpha returns the sample
/// unchanged, whatever its positive weight: the exact premultiplied sums
/// are plain multiples of the weight, so the normalization divides back
/// out without loss, the hue vector points along the positive x axis, and
/// re-encoding the linear value returns the byte it was decoded from.
pub proof fn lemma_blend_single_gray(sm: Seq<([u8; 4], u32)>)
    requires
        sm.len() == 1,
        sm[0].1 >= 1,
        sm[0].0@[0] == sm[0].0@[1],
        sm[0].0@[1] == sm[0].0@[2],
        sm[0].0@[3] == 255,
    ensures
        spec_blend(sm) =~= sm[0].0@,
{
    let p = sm[0].0@;
    let v = p[0] as int;
    let w = sm[0].1 as int;
    let lv = s_lin(v);
    let c = spec_lh_of(p);
    crate::table::lemma_lin_range();
    assert(c.h == 0);
    assert(c.s == 0) by {
        let mx = max3(lv, lv, lv);
        if mx != 0 {
            vstd::arithmetic::div_mod::lemma_div_of0(mx);
        }
    };
    assert(spec_lin_max(p) == lv);
    assert(0int / 49152 == 0 && 0int % 49152 == 0) by {
        vstd::arithmetic::div_mod::lemma_div_of0(49152);
        vstd::arithmetic::div_mod::lemma_small_mod(0, 49152);
    };
    assert(spec_oct_x(0) == 0) by {
        vstd::arithmetic::div_mod::lemma_div_of0(65536);
    };
    assert(spec_cos_val(0) == 0x1_0000_0000 && spec_sin_val(0) == 0) by {
        vstd::arithmetic::div_mod::lemma_div_of0(0x1_0000_0000);
        vstd::arithmetic::div_mod::lemma_div_of0(72);
        vstd::arithmetic::div_mod::lemma_div_of0(56);
        vstd::arithmetic::div_mod::lemma_div_of0(42);
        vstd::arithmetic::div_mod::lemma_div_of0(30);
        vstd::arithmetic::div_mod::lemma_div_of0(20);
        vstd::arithmetic::div_mod::lemma_div_of0(12);
        vstd::arithmetic::div_mod::lemma_div_of0(6);
        vstd::arithmetic::div_mod::lemma_div_of0(2);
    };
    reveal_with_fuel(spec_blend_acc, 3);
    let acc = spec_blend_acc(sm, 1);
    assert(spec_blend_acc(sm, 0).x == 0 && spec_blend_acc(sm, 0).y == 0 && spec_blend_acc(sm, 0).s
        == 0 && spec_blend_acc(sm, 0).v == 0 && spec_blend_acc(sm, 0).a == 0 && spec_blend_acc(
    sm, 0).w == 0);
    assert(acc.w == w);
    assert(acc.x == w * 255 * 0x1_0000_0000);
    assert(acc.y == 0 && acc.s == 0) by {
        assert(w * 255 * 0 == 0) by (nonlinear_arith);
    };
    assert(acc.v == w * 255 * lv);
    assert(acc.a == w * 255 * 255);
    // the hue vector points along the positive x axis
    assert(acc.x >= 1) by (nonlinear_arith)
        requires
            acc.x == w * 255 * 0x1_0000_0000,
            w >= 1,
    ;
    lemma_atan2_pos_x(acc.x);
    // the exact alpha sum divides back to full alpha
    assert(256 * acc.a == (65025 * w) * 256) by (nonlinear_arith)
        requires
            acc.a == w * 255 * 255,
    ;
    vstd::arithmetic::div_mod::lemma_div_by_multiple(256, 65025 * w);
    assert(256 * acc.a / (65025 * acc.w) == 256);
    // the exact value sum divides back to the decoded linear value
    assert(acc.v == (255 * w) * lv) by (nonlinear_arith)
        requires
            acc.v == w * 255 * lv,
    ;
    vstd::arithmetic::div_mod::lemma_div_by_multiple(lv, 255 * w);
    assert(acc.v / (255 * acc.w) == lv);
    vstd::arithmetic::div_mod::lemma_div_of0(255 * w);
    assert(acc.s / (255 * acc.w) == 0);
    // re-encoding the linear value lands on the input byte
    lemma_transfer_round_trip();
    assert(lin_to_s_q(lv, 0x10_0000_0000) == v);
}

/// Blend multiple sRGBA colors in the linear HSVA colorspace.  The samples
/// must carry a positive total weight that fits a u32; the order of the
/// samples does not matter to the mathematics, which is a flat weighted
/// sum over all of them.
pub fn blend(samples: &[([u8; 4], u32)]) -> (r: [u8; 4])
    requires
        1 <= spec_weight_sum(samples@) <= 0xFFFF_FFFF,
    ensures
        r@ == spec_blend(samples@),
{
    let n = samples.len();
    let mut i: usize = 0;
    let mut xn: bool = false;
    let mut xm: u128 = 0;
    let mut yn: bool = false;
    let mut ym: u128 = 0;
    let mut ss: u128 = 0;
    let mut vv: u128 = 0;
    let mut aa: u128 = 0;
    let mut ww: u64 = 0;
    while i < n
        invariant
            i <= n,
            samples@.len() == n,
            1 <= spec_weight_sum(samples@) <= 0xFFFF_FFFF,
            spec_sm(xn, xm as int) == spec_blend_acc(samples@, i as int).x,
            spec_sm(yn, ym as int) == spec_blend_acc(samples@, i as int).y,
            ss == spec_blend_acc(samples@, i as int).s,
            vv == spec_blend_acc(samples@, i as int).v,
            aa == spec_blend_acc(samples@, i as int).a,
            ww == spec_blend_acc(samples@, i as int).w,
            xm <= (ww as int) * 255 * 0x1_0000_0000,
            ym <= (ww as int) * 255 * 0x1_0000_0000,
            ss <= (ww as int) * 255 * 0x1_0000_0000,
            vv <= (ww as int) * 255 * 0x10_0000_0000,
            aa <= (ww as int) * 65025,
        decreases n - i,
    {
        proof {
            lemma_acc_w_grows(samples@, i + 1 as int, n as int);
            lemma_acc_w_grows(samples@, i as int, i + 1 as int);
        }
        let (p, w) = samples[i];
        let (h16, s32, mx) = pix_hsv(p);
        let a = p[3] as u64;
        let (ccn, ccm, csn, csm) = sin_cos16(h16);
        proof {
            assert((w as int) * (a as int) <= (w as int) * 255) by (nonlinear_arith)
                requires
                    0 <= w,
                    0 <= a <= 255,
            ;
        }
        let wa = (w as u64) * a;
        proof {
            assert((wa as int) * (ccm as int) <= (wa as int) * 0x1_0000_0000 && (wa as int) * (
            csm as int) <= (wa as int) * 0x1_0000_0000 && (wa as int) * (s32 as int) <= (wa as int)
                * 0x1_0000_0000 && (wa as int) * (mx as int) <= (wa as int) * 0x10_0000_0000 && (
            wa as int) * (a as int) <= (wa as int) * 255) by (nonlinear_arith)
                requires
                    0 <= wa,
                    0 <= ccm <= 0x1_0000_0000,
                    0 <= csm <= 0x1_0000_0000,
                    0 <= s32 <= 0x1_0000_0000,
                    0 <= mx <= 0x10_0000_0000,
                    0 <= a <= 255,
            ;
            assert((wa as int) * 255 <= ((w as int) * 255) * 255 && (wa as int) * 0x1_0000_0000
                <= ((w as int) * 255) * 0x1_0000_0000 && (wa as int) * 0x10_0000_0000 <= ((
            w as int) * 255) * 0x10_0000_0000) by (nonlinear_arith)
                requires
                    0 <= wa <= (w as int) * 255,
            ;
            lemma_mul_sm(wa as int, ccn, ccm as int);
            lemma_mul_sm(wa as int, csn, csm as int);
        }
        let cx = (wa as u128) * (ccm as u128);
        let cy = (wa as u128) * (csm as u128);
        let (nxn, nxm) = sm_add128(xn, xm, ccn, cx);
        let (nyn, nym) = sm_add128(yn, ym, csn, cy);
        xn = nxn;
        xm = nxm;
        yn = nyn;
        ym = nym;
        ss = ss + (wa as u128) * (s32 as u128);
        vv = vv + (wa as u128) * (mx as u128);
        aa = aa + (wa as u128) * (a as u128);
        ww = ww + w as u64;
        i = i + 1;
    }
    proof {
        assert((ss as int) / (255 * (ww as int)) <= 0x1_0000_0000 && (vv as int) / (255 * (
        ww as int)) <= 0x10_0000_0000 && 256 * (aa as int) / (65025 * (ww as int)) >= 0)
            by (nonlinear_arith)
            requires
                1 <= ww as int,
                ss as int <= (ww as int) * 255 * 0x1_0000_0000,
                vv as int <= (ww as int) * 255 * 0x10_0000_0000,
                0 <= aa as int,
        ;
    }
    let wden = ww as u128;
    let t = (256 * aa) / (65025 * wden);
    let ab: u8 = if t >= 255 {
        255
    } else {
        t as u8
    };
    let sat = (ss / (255 * wden)) as u64;
    let val = (vv / (255 * wden)) as u64;
    let nh = atan2_hue(xn, xm, yn, ym);
    srgba_out(nh, sat, val, ab)
}

} // verus!
