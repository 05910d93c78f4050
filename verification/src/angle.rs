use vstd::prelude::*;

verus! {

/// The fixed-point scale of the unit interval inside the compositing
/// engine: a fraction x in [0, 1] is held as the integer x * POW32.
pub const POW32: u64 = 0x1_0000_0000;

/// One sixth of a turn (the hue unit) in radians at scale 2^32: pi/3.
pub const PI3: u64 = 4497679235;

/// An eighth of the hue circle in hue units at scale 2^16: 0.75 * 65536.
/// The circle of hue angles [0, 6) spans eight such octants.
pub const OCT: u64 = 49152;

/// The value of a sign-magnitude pair.
pub open spec fn spec_sm(neg: bool, mag: int) -> int {
    if neg {
        -mag
    } else {
        mag
    }
}

/// The radian measure, at scale 2^32, of a first-octant hue angle given in
/// hue units at scale 2^16.
pub open spec fn spec_oct_x(phi: int) -> int {
    phi * 4497679235 / 65536
}

/// The sine of a first-octant angle, at scale 2^32: the alternating series
/// x (1 - x^2/6 (1 - x^2/20 (1 - x^2/42 (1 - x^2/72)))) evaluated in
/// fixed point, every product truncated at scale 2^32.
pub open spec fn spec_oct_sin(phi: int) -> int {
    let x = spec_oct_x(phi);
    let x2 = x * x / 0x1_0000_0000;
    let u4 = 0x1_0000_0000 - x2 / 72;
    let u3 = 0x1_0000_0000 - (x2 * u4 / 0x1_0000_0000) / 42;
    let u2 = 0x1_0000_0000 - (x2 * u3 / 0x1_0000_0000) / 20;
    let u1 = 0x1_0000_0000 - (x2 * u2 / 0x1_0000_0000) / 6;
    x * u1 / 0x1_0000_0000
}

/// The cosine of a first-octant angle, at scale 2^32: the series
/// 1 - x^2/2 (1 - x^2/12 (1 - x^2/30 (1 - x^2/56))) in the same fixed point.
pub open spec fn spec_oct_cos(phi: int) -> int {
    let x = spec_oct_x(phi);
    let x2 = x * x / 0x1_0000_0000;
    let v4 = 0x1_0000_0000 - x2 / 56;
    let v3 = 0x1_0000_0000 - (x2 * v4 / 0x1_0000_0000) / 30;
    let v2 = 0x1_0000_0000 - (x2 * v3 / 0x1_0000_0000) / 12;
    0x1_0000_0000 - (x2 * v2 / 0x1_0000_0000) / 2
}

/// The signed cosine of a full-circle hue angle h in [0, 6) at scale 2^16,
/// by octant reduction to the first-octant series.
pub open spec fn spec_cos_val(h: int) -> int {
    let o = h / 49152;
    let rem = h % 49152;
    if o == 0 {
        spec_oct_cos(rem)
    } else if o == 1 {
        spec_oct_sin(49152 - rem)
    } else if o == 2 {
        -spec_oct_sin(rem)
    } else if o == 3 {
        -spec_oct_cos(49152 - rem)
    } else if o == 4 {
        -spec_oct_cos(rem)
    } else if o == 5 {
        -spec_oct_sin(49152 - rem)
    } else if o == 6 {
        spec_oct_sin(rem)
    } else {
        spec_oct_cos(49152 - rem)
    }
}

/// The signed sine of a full-circle hue angle, as `spec_cos_val`.
pub open spec fn spec_sin_val(h: int) -> int {
    let o = h / 49152;
    let rem = h % 49152;
    if o == 0 {
        spec_oct_sin(rem)
    } else if o == 1 {
        spec_oct_cos(49152 - rem)
    } else if o == 2 {
        spec_oct_cos(rem)
    } else if o == 3 {
        spec_oct_sin(49152 - rem)
    } else if o == 4 {
        -spec_oct_sin(rem)
    } else if o == 5 {
        -spec_oct_cos(49152 - rem)
    } else if o == 6 {
        -spec_oct_cos(rem)
    } else {
        -spec_oct_sin(49152 - rem)
    }
}

/// Whether the first-octant angle phi has tangent at most s/l.
pub open spec fn spec_le_tan(phi: int, s: int, l: int) -> bool {
    l * spec_oct_sin(phi) <= s * spec_oct_cos(phi)
}

/// Binary search for the largest first-octant angle whose tangent does not
/// exceed s/l, descending through halved widths.
pub open spec fn spec_atan_search(s: int, l: int, lo: int, w: int) -> int
    decreases w,
{
    if w <= 0 {
        lo
    } else {
        let mid = lo + w;
        if mid <= 49152 && spec_le_tan(mid, s, l) {
            spec_atan_search(s, l, mid, w / 2)
        } else {
            spec_atan_search(s, l, lo, w / 2)
        }
    }
}

/// The first-octant arc tangent of s/l in hue units at scale 2^16.
pub open spec fn spec_atan_oct(s: int, l: int) -> int {
    spec_atan_search(s, l, 0, 32768)
}

/// The full-circle angle of the vector (x, y) in hue units at scale 2^16,
/// in [0, 6) wrapped to [0, 393216); the zero vector maps to angle 0.
pub open spec fn spec_atan2_hue(x: int, y: int) -> int {
    let xm = if x >= 0 {
        x
    } else {
        -x
    };
    let ym = if y >= 0 {
        y
    } else {
        -y
    };
    if xm == 0 && ym == 0 {
        0
    } else {
        let a = if ym <= xm {
            spec_atan_oct(ym, xm)
        } else {
            98304 - spec_atan_oct(xm, ym)
        };
        if x >= 0 && y >= 0 {
            a
        } else if x < 0 && y >= 0 {
            196608 - a
        } else if x < 0 {
            196608 + a
        } else {
            (393216 - a) % 393216
        }
    }
}

/// A truncated scale-2^32 product of non-negative values, the second at
/// most 2^32, is between 0 and the first factor.
proof fn lemma_mulp_le(a: int, b: int)
    requires
        0 <= a,
        0 <= b <= 0x1_0000_0000,
    ensures
        0 <= a * b / 0x1_0000_0000 <= a,
{
    assert(0 <= a * b <= a * 0x1_0000_0000) by (nonlinear_arith)
        requires
            0 <= a,
            0 <= b <= 0x1_0000_0000,
    ;
    vstd::arithmetic::div_mod::lemma_div_is_ordered(a * b, a * 0x1_0000_0000, 0x1_0000_0000);
    vstd::arithmetic::div_mod::lemma_div_by_multiple(a, 0x1_0000_0000);
    vstd::arithmetic::div_mod::lemma_div_pos_is_pos(a * b, 0x1_0000_0000);
}

/// The series sine is at least 1 at every nonzero first-octant angle.
proof fn lemma_oct_sin_pos(phi: int)
    requires
        1 <= phi <= 49152,
    ensures
        spec_oct_sin(phi) >= 1,
{
    let x = spec_oct_x(phi);
    assert(4497679235 <= phi * 4497679235 <= 221069929758720);
    vstd::arithmetic::div_mod::lemma_div_is_ordered(4497679235, phi * 4497679235, 65536);
    vstd::arithmetic::div_mod::lemma_div_is_ordered(phi * 4497679235, 221069929758720, 65536);
    assert(68629 <= x <= 3373259426);
    let x2 = x * x / 0x1_0000_0000;
    assert(x * x <= 11378879155097849476) by (nonlinear_arith)
        requires
            0 <= x <= 3373259426,
    ;
    vstd::arithmetic::div_mod::lemma_div_is_ordered(x * x, 11378879155097849476, 0x1_0000_0000);
    assert(0 <= x2 <= 2649351757) by {
        vstd::arithmetic::div_mod::lemma_div_pos_is_pos(x * x, 0x1_0000_0000);
    };
    let u4 = 0x1_0000_0000 - x2 / 72;
    lemma_mulp_le(x2, u4);
    let m3 = x2 * u4 / 0x1_0000_0000;
    let u3 = 0x1_0000_0000 - m3 / 42;
    lemma_mulp_le(x2, u3);
    let m2 = x2 * u3 / 0x1_0000_0000;
    let u2 = 0x1_0000_0000 - m2 / 20;
    lemma_mulp_le(x2, u2);
    let m1 = x2 * u2 / 0x1_0000_0000;
    let u1 = 0x1_0000_0000 - m1 / 6;
    assert(u1 >= 3853408670);
    assert(x * u1 >= 0x1_0000_0000) by (nonlinear_arith)
        requires
            x >= 68629,
            u1 >= 3853408670,
    ;
    vstd::arithmetic::div_mod::lemma_div_is_ordered(0x1_0000_0000, x * u1, 0x1_0000_0000);
}

/// A search for an angle whose tangent is at most 0 never leaves 0.
proof fn lemma_atan_search_stays(l: int, w: int)
    requires
        l >= 1,
        0 <= w <= 32768,
    ensures
        spec_atan_search(0, l, 0, w) == 0,
    decreases w,
{
    if w > 0 {
        lemma_oct_sin_pos(w);
        assert(l * spec_oct_sin(w) >= 1) by (nonlinear_arith)
            requires
                l >= 1,
                spec_oct_sin(w) >= 1,
        ;
        assert(!spec_le_tan(w, 0, l));
        lemma_atan_search_stays(l, w / 2);
    }
}

/// The angle of a vector pointing along the positive x axis is 0.
pub proof fn lemma_atan2_pos_x(x: int)
    requires
        x >= 1,
    ensures
        spec_atan2_hue(x, 0) == 0,
{
    lemma_atan_search_stays(x, 32768);
}

/// A product of two unit-interval fractions at scale 2^32, truncated back
/// to scale 2^32.  The result is no larger than either factor.
pub fn mulp(a: u64, b: u64) -> (r: u64)
    requires
        a <= 0x1_0000_0000,
        b <= 0x1_0000_0000,
    ensures
        r == (a as int) * (b as int) / 0x1_0000_0000,
        r <= a,
        r <= b,
{
    proof {
        assert((a as int) * (b as int) / 0x1_0000_0000 <= a && (a as int) * (b as int)
            / 0x1_0000_0000 <= b && (a as int) * (b as int) <= 0x1_0000_0000 * 0x1_0000_0000)
            by (nonlinear_arith)
            requires
                0 <= a <= 0x1_0000_0000,
                0 <= b <= 0x1_0000_0000,
        ;
    }
    (((a as u128) * (b as u128)) / 0x1_0000_0000) as u64
}

/// The first-octant sine and cosine, returned as (cos, sin).
fn oct_sin_cos(phi: u64) -> (r: (u64, u64))
    requires
        phi <= 49152,
    ensures
        r.0 == spec_oct_cos(phi as int),
        r.1 == spec_oct_sin(phi as int),
        r.0 <= POW32,
        r.1 <= POW32,
{
    let x = (phi * PI3) / 65536;
    assert(x <= 3373259426) by {
        assert(phi * PI3 <= 49152 * 4497679235);
    };
    let x2 = mulp(x, x);
    assert(x2 <= 2649351757) by {
        assert(x * x <= 3373259426 * 3373259426) by (nonlinear_arith)
            requires
                0 <= x <= 3373259426,
        ;
    };
    let u4 = POW32 - x2 / 72;
    let u3 = POW32 - mulp(x2, u4) / 42;
    let u2 = POW32 - mulp(x2, u3) / 20;
    let u1 = POW32 - mulp(x2, u2) / 6;
    let sn = mulp(x, u1);
    let v4 = POW32 - x2 / 56;
    let v3 = POW32 - mulp(x2, v4) / 30;
    let v2 = POW32 - mulp(x2, v3) / 12;
    let cs = POW32 - mulp(x2, v2) / 2;
    (cs, sn)
}

/// The signed sine and cosine of a full-circle hue angle, returned as
/// (cos negative, cos magnitude, sin negative, sin magnitude).
pub fn sin_cos16(h: u64) -> (r: (bool, u64, bool, u64))
    requires
        h < 393216,
    ensures
        spec_sm(r.0, r.1 as int) == spec_cos_val(h as int),
        spec_sm(r.2, r.3 as int) == spec_sin_val(h as int),
        r.1 <= POW32,
        r.3 <= POW32,
{
    let o = h / OCT;
    let rem = h % OCT;
    proof {
        vstd::arithmetic::div_mod::lemma_fundamental_div_mod(h as int, 49152);
        vstd::arithmetic::div_mod::lemma_mod_division_less_than_divisor(h as int, 49152);
    }
    if o == 0 {
        let (c, s) = oct_sin_cos(rem);
        (false, c, false, s)
    } else if o == 1 {
        let (c, s) = oct_sin_cos(OCT - rem);
        (false, s, false, c)
    } else if o == 2 {
        let (c, s) = oct_sin_cos(rem);
        (true, s, false, c)
    } else if o == 3 {
        let (c, s) = oct_sin_cos(OCT - rem);
        (true, c, false, s)
    } else if o == 4 {
        let (c, s) = oct_sin_cos(rem);
        (true, c, true, s)
    } else if o == 5 {
        let (c, s) = oct_sin_cos(OCT - rem);
        (true, s, true, c)
    } else if o == 6 {
        let (c, s) = oct_sin_cos(rem);
        (false, s, true, c)
    } else {
        let (c, s) = oct_sin_cos(OCT - rem);
        (false, c, true, s)
    }
}

/// Whether the tangent of phi is at most s/l, decided on the fixed-point
/// series values without overflow.
fn le_tan(phi: u64, s: u128, l: u128) -> (r: bool)
    requires
        phi <= 49152,
        s <= 0x400_0000_0000_0000_0000_0000,
        l <= 0x400_0000_0000_0000_0000_0000,
    ensures
        r == spec_le_tan(phi as int, s as int, l as int),
{
    let (c, sn) = oct_sin_cos(phi);
    proof {
        vstd::arithmetic::mul::lemma_mul_upper_bound(
            l as int,
            0x400_0000_0000_0000_0000_0000,
            sn as int,
            0x1_0000_0000,
        );
        vstd::arithmetic::mul::lemma_mul_upper_bound(
            s as int,
            0x400_0000_0000_0000_0000_0000,
            c as int,
            0x1_0000_0000,
        );
        assert(0x400_0000_0000_0000_0000_0000int * 0x1_0000_0000int
            == 0x400_0000_0000_0000_0000_0000_0000_0000int) by (nonlinear_arith);
    }
    l * (sn as u128) <= s * (c as u128)
}

/// The first-octant arc tangent of s/l by binary search.
fn atan_oct(s: u128, l: u128) -> (r: u64)
    requires
        s <= 0x400_0000_0000_0000_0000_0000,
        l <= 0x400_0000_0000_0000_0000_0000,
    ensures
        r == spec_atan_oct(s as int, l as int),
        r <= 49152,
{
    let mut lo: u64 = 0;
    let mut w: u64 = 32768;
    while w > 0
        invariant
            lo <= 49152,
            w <= 32768,
            s <= 0x400_0000_0000_0000_0000_0000,
            l <= 0x400_0000_0000_0000_0000_0000,
            spec_atan_oct(s as int, l as int) == spec_atan_search(s as int, l as int, lo as int, w as int),
        decreases w,
    {
        let mid = lo + w;
        if mid <= 49152 && le_tan(mid, s, l) {
            lo = mid;
        }
        w = w / 2;
    }
    lo
}

/// The full-circle angle of a sign-magnitude vector, in [0, 393216).
pub fn atan2_hue(xneg: bool, xm: u128, yneg: bool, ym: u128) -> (r: u64)
    requires
        xm <= 0x400_0000_0000_0000_0000_0000,
        ym <= 0x400_0000_0000_0000_0000_0000,
    ensures
        r == spec_atan2_hue(spec_sm(xneg, xm as int), spec_sm(yneg, ym as int)),
        r < 393216,
{
    let xn = xneg && xm > 0;
    let yn = yneg && ym > 0;
    if xm == 0 && ym == 0 {
        return 0;
    }
    let a = if ym <= xm {
        atan_oct(ym, xm)
    } else {
        98304 - atan_oct(xm, ym)
    };
    if !xn && !yn {
        a
    } else if xn && !yn {
        196608 - a
    } else if xn {
        196608 + a
    } else {
        (393216 - a) % 393216
    }
}

} // verus!
