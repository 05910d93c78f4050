use vstd::prelude::*;

use crate::table::{
    lemma_bracket, lemma_lin_endpoints, lemma_lin_range, lemma_thresh_mono, lin_of, s_lin,
    s_thresh, thresh_of, LIN_ONE,
};

verus! {

/// Descending search for the gamma-encoded byte of the linear value
/// num/den: the largest index j <= k with s_thresh(j) <= (num/den)*LIN_ONE.
pub open spec fn lts_from(num: int, den: int, k: int) -> int
    decreases k,
{
    if k <= 0 {
        0
    } else if num * (LIN_ONE as int) >= s_thresh(k) * den {
        k
    } else {
        lts_from(num, den, k - 1)
    }
}

/// The gamma-encoded byte of the linear value num/den with den > 0: the
/// composition float_to_byte(linear_to_s(num/den)), where float_to_byte
/// multiplies by 256, truncates toward zero and clamps at 255.  Encoding
/// this way needs no evaluation of the transfer function itself: the byte
/// is the largest k whose threshold s_thresh(k) the value reaches.
pub open spec fn lin_to_s_q(num: int, den: int) -> int {
    lts_from(num, den, 255)
}

/// The byte-domain decode: float_to_byte(s_to_linear(b/255)), i.e. the
/// table value of b quantized by multiply-by-256, truncate, clamp at 255.
pub open spec fn spec_s_to_linear_u8(b: int) -> int {
    let t = s_lin(b) / 0x1000_0000;
    if t >= 255 {
        255
    } else {
        t
    }
}

/// The gamma-encoded byte of the linear value num/den, by descending search
/// through the threshold table.
pub fn lin_to_s_byte(num: u128, den: u128) -> (r: u8)
    requires
        1 <= den <= 0x400_0000_0000_0000_0000_0000,
        num <= 0x400_0000_0000_0000_0000_0000,
    ensures
        r == lin_to_s_q(num as int, den as int),
{
    let mut k: u8 = 255;
    loop
        invariant
            1 <= den <= 0x400_0000_0000_0000_0000_0000,
            num <= 0x400_0000_0000_0000_0000_0000,
            lin_to_s_q(num as int, den as int) == lts_from(num as int, den as int, k as int),
        decreases k,
    {
        let t = thresh_of(k);
        proof {
            vstd::arithmetic::mul::lemma_mul_upper_bound(
                num as int,
                0x400_0000_0000_0000_0000_0000,
                LIN_ONE as int,
                0x10_0000_0000,
            );
            vstd::arithmetic::mul::lemma_mul_upper_bound(
                t as int,
                0x10_0000_0000,
                den as int,
                0x400_0000_0000_0000_0000_0000,
            );
            assert(0x400_0000_0000_0000_0000_0000int * 0x10_0000_0000int
                == 0x4000_0000_0000_0000_0000_0000_0000_0000int && 0x10_0000_0000int
                * 0x400_0000_0000_0000_0000_0000int == 0x4000_0000_0000_0000_0000_0000_0000_0000int)
                by (nonlinear_arith);
        }
        if num * (LIN_ONE as u128) >= (t as u128) * den {
            return k;
        }
        if k == 0 {
            return 0;
        }
        k = k - 1;
    }
}

/// S space to Linear space for u8s
pub fn s_to_linear_u8(s: u8) -> (r: u8)
    ensures
        r == spec_s_to_linear_u8(s as int),
{
    let l = lin_of(s);
    let t = l / 0x1000_0000;
    if t >= 255 {
        255
    } else {
        t as u8
    }
}

/// Linear space to S space for u8s
pub fn linear_to_s_u8(l: u8) -> (r: u8)
    ensures
        r == lin_to_s_q(l as int, 255),
{
    lin_to_s_byte(l as u128, 255)
}

/// The encoding search never leaves the byte range.
proof fn lemma_lts_bounds(num: int, den: int, k: int)
    requires
        0 <= k,
    ensures
        0 <= lts_from(num, den, k) <= k,
    decreases k,
{
    if k > 0 && !(num * (LIN_ONE as int) >= s_thresh(k) * den) {
        lemma_lts_bounds(num, den, k - 1);
    }
}

/// While the value stays below every threshold above b, the search result
/// from hi is the search result from b.
proof fn lemma_lts_step_down(num: int, den: int, hi: int, b: int)
    requires
        0 <= b <= hi <= 255,
        forall|k: int| b < k <= hi ==> num * (LIN_ONE as int) < #[trigger] s_thresh(k) * den,
    ensures
        lts_from(num, den, hi) == lts_from(num, den, b),
    decreases hi - b,
{
    if b < hi {
        lemma_lts_step_down(num, den, hi - 1, b);
    }
}

/// A linear value bracketed by the thresholds of byte b encodes to b.
pub proof fn lemma_lts_of_bracketed(num: int, den: int, b: int)
    requires
        0 <= b <= 255,
        den >= 1,
        s_thresh(b) * den <= num * (LIN_ONE as int),
        b < 255 ==> num * (LIN_ONE as int) < s_thresh(b + 1) * den,
    ensures
        lin_to_s_q(num, den) == b,
{
    assert forall|k: int| b < k <= 255 implies num * (LIN_ONE as int) < #[trigger] s_thresh(k)
        * den by {
        if b + 1 < k {
            lemma_thresh_mono(b + 1, k);
            assert(s_thresh(b + 1) * den <= s_thresh(k) * den) by (nonlinear_arith)
                requires
                    s_thresh(b + 1) <= s_thresh(k),
                    den >= 1,
            ;
        }
    }
    lemma_lts_step_down(num, den, 255, b);
}

/// Transfer function range: the decode table maps every byte into
/// [0, LIN_ONE], that is into the unit interval of linear light, and the
/// encode of any non-negative value is a byte in 0..=255.
pub proof fn lemma_transfer_range()
    ensures
        forall|b: int| 0 <= b <= 255 ==> 0 <= #[trigger] s_lin(b) <= LIN_ONE,
        forall|num: int, den: int| 0 <= #[trigger] lin_to_s_q(num, den) <= 255,
{
    lemma_lin_range();
    assert forall|num: int, den: int| 0 <= #[trigger] lin_to_s_q(num, den) <= 255 by {
        lemma_lts_bounds(num, den, 255);
    }
}

/// Transfer function near-inverse: decoding any byte to linear light and
/// encoding the result again returns the byte, for every byte including
/// the top of the range.
pub proof fn lemma_transfer_round_trip()
    ensures
        forall|b: int| 0 <= b <= 255 ==> lin_to_s_q(#[trigger] s_lin(b), LIN_ONE as int) == b,
{
    lemma_bracket();
    lemma_lin_endpoints();
    assert forall|b: int| 0 <= b <= 255 implies lin_to_s_q(#[trigger] s_lin(b), LIN_ONE as int)
        == b by {
        lemma_lts_of_bracketed(s_lin(b), LIN_ONE as int, b);
    }
}

} // verus!
