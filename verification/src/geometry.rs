//! Integer geometry of the two resize policies.
//!
//! "fit" scales an image uniformly so the whole of it lies inside a bounding
//! box; "fill" scales it uniformly so it covers the box and then center-crops
//! to the box. Both are stated here over mathematical integers, with the
//! uniform scale applied through a division that rounds to the nearest whole
//! pixel, and proved to stay within machine bounds where the executable
//! functions compute them.

use vstd::arithmetic::div_mod::{lemma_fundamental_div_mod, lemma_mod_division_less_than_divisor};
use vstd::math::max;
use vstd::prelude::*;

verus! {

/// Division of nonnegative integers rounding to the nearest whole number,
/// halves rounding up.
pub open spec fn rdiv(num: int, den: int) -> int
    recommends
        den >= 1,
        num >= 0,
{
    (num + den / 2) / den
}

/// The effective target for one axis: the requested bound, or the source's
/// own size where none was requested.
pub open spec fn effective_target(requested: Option<u32>, source: u32) -> int {
    match requested {
        Some(v) => v as int,
        None => source as int,
    }
}

/// Dimensions after scaling a `sw` x `sh` image uniformly by the smaller of
/// the two axis ratios, so that it lies inside a `tw` x `th` box: the binding
/// axis meets its bound exactly, the other is scaled by the same ratio and
/// never drops below one pixel.
pub open spec fn fit_dims(sw: int, sh: int, tw: int, th: int) -> (int, int)
    recommends
        sw >= 1,
        sh >= 1,
        tw >= 1,
        th >= 1,
{
    if th * sw <= tw * sh {
        (max(1, rdiv(sw * th, sh)), th)
    } else {
        (tw, max(1, rdiv(sh * tw, sw)))
    }
}

/// Dimensions after scaling a `sw` x `sh` image uniformly by the larger of
/// the two axis ratios, so that it covers a `tw` x `th` box: the binding axis
/// meets its bound exactly and the other overshoots (or matches) its target.
pub open spec fn fill_scaled_dims(sw: int, sh: int, tw: int, th: int) -> (int, int)
    recommends
        sw >= 1,
        sh >= 1,
        tw >= 1,
        th >= 1,
{
    if th * sw >= tw * sh {
        (rdiv(sw * th, sh), th)
    } else {
        (tw, rdiv(sh * tw, sw))
    }
}

/// Origin of a centered crop window of extent `target` along one axis of a
/// raster of extent `scaled`.
pub open spec fn crop_origin(scaled: int, target: int) -> int
    recommends
        0 <= target <= scaled,
{
    (scaled - target) / 2
}

/// `x / d <= b` follows from `x < (b + 1) * d`.
proof fn lemma_div_le_bound(x: int, d: int, b: int)
    requires
        d >= 1,
        0 <= x,
        0 <= b,
        x < (b + 1) * d,
    ensures
        x / d <= b,
{
    let q = x / d;
    let r = x % d;
    lemma_fundamental_div_mod(x, d);
    lemma_mod_division_less_than_divisor(x, d);
    assert(q <= b) by (nonlinear_arith)
        requires
            d >= 1,
            0 <= b,
            x == d * q + r,
            0 <= r < d,
            x < (b + 1) * d,
    ;
}

/// `b <= x / d` follows from `b * d <= x`.
proof fn lemma_div_ge_bound(x: int, d: int, b: int)
    requires
        d >= 1,
        0 <= x,
        0 <= b,
        b * d <= x,
    ensures
        b <= x / d,
{
    let q = x / d;
    let r = x % d;
    lemma_fundamental_div_mod(x, d);
    lemma_mod_division_less_than_divisor(x, d);
    assert(b <= q) by (nonlinear_arith)
        requires
            d >= 1,
            0 <= b,
            x == d * q + r,
            0 <= r < d,
            b * d <= x,
    ;
}

/// Rounding division never exceeds a bound that the exact quotient obeys.
proof fn lemma_rdiv_le(num: int, den: int, b: int)
    requires
        den >= 1,
        0 <= num,
        0 <= b,
        num <= b * den,
    ensures
        rdiv(num, den) <= b,
{
    let h = den / 2;
    assert(0 <= h < den);
    assert(num + h < (b + 1) * den) by (nonlinear_arith)
        requires
            num <= b * den,
            0 <= h < den,
    ;
    lemma_div_le_bound(num + h, den, b);
}

/// Rounding division never falls below a bound that the exact quotient obeys.
proof fn lemma_rdiv_ge(num: int, den: int, b: int)
    requires
        den >= 1,
        0 <= num,
        0 <= b,
        b * den <= num,
    ensures
        b <= rdiv(num, den),
{
    let h = den / 2;
    assert(0 <= h);
    lemma_div_ge_bound(num + h, den, b);
}

/// Rounding division of an exact multiple gives the exact quotient.
proof fn lemma_rdiv_exact(s: int, den: int)
    requires
        den >= 1,
        0 <= s,
    ensures
        rdiv(s * den, den) == s,
{
    lemma_rdiv_le(s * den, den, s);
    lemma_rdiv_ge(s * den, den, s);
}

/// The result of a fit lies inside the box, never collapses to zero pixels,
/// and at least one axis meets its bound exactly. (The requested phrasing
/// allows the meeting axis to be absent when the aspect ratios match exactly;
/// here the binding axis meets its bound in every case, which is stronger.)
pub proof fn lemma_fit_within_bounds(sw: int, sh: int, tw: int, th: int)
    requires
        1 <= sw,
        1 <= sh,
        1 <= tw,
        1 <= th,
    ensures
        1 <= fit_dims(sw, sh, tw, th).0 <= tw,
        1 <= fit_dims(sw, sh, tw, th).1 <= th,
        fit_dims(sw, sh, tw, th).0 == tw || fit_dims(sw, sh, tw, th).1 == th,
{
    if th * sw <= tw * sh {
        lemma_rdiv_le(sw * th, sh, tw);
    } else {
        lemma_rdiv_le(sh * tw, sw, th);
    }
}

/// A fit bounded by the source's own dimensions is the identity: the image
/// comes back at its original size.
pub proof fn lemma_fit_identity(sw: int, sh: int)
    requires
        1 <= sw,
        1 <= sh,
    ensures
        fit_dims(sw, sh, sw, sh) == (sw, sh),
{
    lemma_rdiv_exact(sw, sh);
    assert(sh * sw <= sw * sh) by (nonlinear_arith);
    assert(fit_dims(sw, sh, sw, sh).0 == max(1, rdiv(sw * sh, sh)));
}

/// The scaled raster of a fill covers the box on both axes, and a
/// target-sized crop window at the centered origin stays inside it.
pub proof fn lemma_fill_covers(sw: int, sh: int, tw: int, th: int)
    requires
        1 <= sw,
        1 <= sh,
        1 <= tw,
        1 <= th,
    ensures
        tw <= fill_scaled_dims(sw, sh, tw, th).0,
        th <= fill_scaled_dims(sw, sh, tw, th).1,
        0 <= crop_origin(fill_scaled_dims(sw, sh, tw, th).0, tw),
        crop_origin(fill_scaled_dims(sw, sh, tw, th).0, tw) + tw <= fill_scaled_dims(
            sw,
            sh,
            tw,
            th,
        ).0,
        0 <= crop_origin(fill_scaled_dims(sw, sh, tw, th).1, th),
        crop_origin(fill_scaled_dims(sw, sh, tw, th).1, th) + th <= fill_scaled_dims(
            sw,
            sh,
            tw,
            th,
        ).1,
{
    if th * sw >= tw * sh {
        lemma_rdiv_ge(sw * th, sh, tw);
    } else {
        lemma_rdiv_ge(sh * tw, sw, th);
    }
    lemma_crop_centered(fill_scaled_dims(sw, sh, tw, th).0, tw);
    lemma_crop_centered(fill_scaled_dims(sw, sh, tw, th).1, th);
}

/// The crop window is centered: along each axis the margins left on the two
/// opposite sides of the window differ by at most one pixel.
pub proof fn lemma_crop_centered(scaled: int, target: int)
    requires
        0 <= target <= scaled,
    ensures
        0 <= crop_origin(scaled, target),
        crop_origin(scaled, target) + target <= scaled,
        0 <= (scaled - target - crop_origin(scaled, target)) - crop_origin(scaled, target) <= 1,
{
    let d = scaled - target;
    assert(d == 2 * (d / 2) + d % 2);
    assert(0 <= d % 2 < 2);
}

/// Computes `fit_dims` on machine integers. The result always fits in `u32`
/// because neither axis of a fit exceeds its (machine-sized) bound.
pub fn compute_fit_dims(sw: u32, sh: u32, tw: u32, th: u32) -> (r: (u32, u32))
    requires
        sw >= 1,
        sh >= 1,
        tw >= 1,
        th >= 1,
    ensures
        r.0 as int == fit_dims(sw as int, sh as int, tw as int, th as int).0,
        r.1 as int == fit_dims(sw as int, sh as int, tw as int, th as int).1,
        1 <= r.0 <= tw,
        1 <= r.1 <= th,
{
    proof {
        lemma_fit_within_bounds(sw as int, sh as int, tw as int, th as int);
    }
    let swu = sw as u64;
    let shu = sh as u64;
    let twu = tw as u64;
    let thu = th as u64;
    proof {
        lemma_u32_products_fit(sw as int, sh as int, tw as int, th as int);
    }
    if thu * swu <= twu * shu {
        let q = rdiv_u64(swu * thu, shu);
        let w = if q == 0 {
            1u32
        } else {
            q as u32
        };
        (w, th)
    } else {
        let q = rdiv_u64(shu * twu, swu);
        let h = if q == 0 {
            1u32
        } else {
            q as u32
        };
        (tw, h)
    }
}

/// Products of two `u32` values fit in a `u64`.
proof fn lemma_u32_products_fit(a: int, b: int, c: int, d: int)
    requires
        0 <= a <= 0xFFFF_FFFF,
        0 <= b <= 0xFFFF_FFFF,
        0 <= c <= 0xFFFF_FFFF,
        0 <= d <= 0xFFFF_FFFF,
    ensures
        a * b <= 0xFFFF_FFFF * 0xFFFF_FFFF,
        a * c <= 0xFFFF_FFFF * 0xFFFF_FFFF,
        a * d <= 0xFFFF_FFFF * 0xFFFF_FFFF,
        b * c <= 0xFFFF_FFFF * 0xFFFF_FFFF,
        b * d <= 0xFFFF_FFFF * 0xFFFF_FFFF,
        c * d <= 0xFFFF_FFFF * 0xFFFF_FFFF,
{
    assert(a * b <= 0xFFFF_FFFF * 0xFFFF_FFFF && a * c <= 0xFFFF_FFFF * 0xFFFF_FFFF && a * d
        <= 0xFFFF_FFFF * 0xFFFF_FFFF && b * c <= 0xFFFF_FFFF * 0xFFFF_FFFF && b * d <= 0xFFFF_FFFF
        * 0xFFFF_FFFF && c * d <= 0xFFFF_FFFF * 0xFFFF_FFFF) by (nonlinear_arith)
        requires
            0 <= a <= 0xFFFF_FFFF,
            0 <= b <= 0xFFFF_FFFF,
            0 <= c <= 0xFFFF_FFFF,
            0 <= d <= 0xFFFF_FFFF,
    ;
}

/// Computes `fill_scaled_dims` on machine integers. The scaled extent of the
/// non-binding axis can exceed what a `u32` holds; `None` reports that case
/// instead of letting a later crop reach outside the raster.
pub fn compute_fill_scaled(sw: u32, sh: u32, tw: u32, th: u32) -> (r: Option<(u32, u32)>)
    requires
        sw >= 1,
        sh >= 1,
        tw >= 1,
        th >= 1,
    ensures
        r is Some <==> fill_scaled_dims(sw as int, sh as int, tw as int, th as int).0
            <= u32::MAX && fill_scaled_dims(sw as int, sh as int, tw as int, th as int).1
            <= u32::MAX,
        r matches Some(s) ==> s.0 as int == fill_scaled_dims(
            sw as int,
            sh as int,
            tw as int,
            th as int,
        ).0 && s.1 as int == fill_scaled_dims(sw as int, sh as int, tw as int, th as int).1,
        r matches Some(s) ==> tw <= s.0 && th <= s.1,
{
    proof {
        lemma_fill_covers(sw as int, sh as int, tw as int, th as int);
        lemma_u32_products_fit(sw as int, sh as int, tw as int, th as int);
    }
    let swu = sw as u64;
    let shu = sh as u64;
    let twu = tw as u64;
    let thu = th as u64;
    if thu * swu >= twu * shu {
        let q = rdiv_u64(swu * thu, shu);
        if q > u32::MAX as u64 {
            None
        } else {
            Some((q as u32, th))
        }
    } else {
        let q = rdiv_u64(shu * twu, swu);
        if q > u32::MAX as u64 {
            None
        } else {
            Some((tw, q as u32))
        }
    }
}

/// Computes `crop_origin` on machine integers.
pub fn compute_crop_origin(scaled: u32, target: u32) -> (r: u32)
    requires
        target <= scaled,
    ensures
        r as int == crop_origin(scaled as int, target as int),
        r as int + target as int <= scaled as int,
{
    proof {
        lemma_crop_centered(scaled as int, target as int);
    }
    (scaled - target) / 2
}

/// Rounding division on `u64`, matching `rdiv` on the corresponding integers.
fn rdiv_u64(num: u64, den: u64) -> (r: u64)
    requires
        1 <= den <= 0xFFFF_FFFF,
        num <= 0xFFFF_FFFF * 0xFFFF_FFFF,
    ensures
        r as int == rdiv(num as int, den as int),
{
    (num + den / 2) / den
}

} // verus!

