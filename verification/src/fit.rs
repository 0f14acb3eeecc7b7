//! Fitting the render target's aspect ratio into the available UI area.
//!
//! Each frame the host hands the orchestrator an available area in whole
//! pixels; the draw rectangle is the largest size with the render target's
//! aspect ratio that fits, chosen between "fill the width" and "fill the
//! height" by whichever keeps the height within bounds. The fit is computed
//! in exact integer arithmetic on pixel counts.

use vstd::prelude::*;

verus! {

/// The fitted draw size: fill the available width unless the implied height
/// would overflow the available height, else fill the available height.
/// Heights and widths are floors of the exact rational fit.
pub open spec fn fitted_size(avail_w: int, avail_h: int, tex_w: int, tex_h: int) -> (int, int) {
    let fit_x_h = avail_w * tex_h / tex_w;
    if fit_x_h > avail_h {
        (avail_h * tex_w / tex_h, avail_h)
    } else {
        (avail_w, fit_x_h)
    }
}

/// The fitted size never exceeds the available area on either axis, and it
/// keeps the render target's aspect ratio to within one pixel of rounding:
/// the cross products `width * tex_h` and `height * tex_w` differ by less
/// than one pixel's worth on each axis.
pub proof fn lemma_fitted_size_bounds(avail_w: int, avail_h: int, tex_w: int, tex_h: int)
    requires
        avail_w >= 0,
        avail_h >= 0,
        tex_w >= 1,
        tex_h >= 1,
    ensures
        fitted_size(avail_w, avail_h, tex_w, tex_h).0 <= avail_w,
        fitted_size(avail_w, avail_h, tex_w, tex_h).1 <= avail_h,
        fitted_size(avail_w, avail_h, tex_w, tex_h).0 >= 0,
        fitted_size(avail_w, avail_h, tex_w, tex_h).1 >= 0,
        fitted_size(avail_w, avail_h, tex_w, tex_h).0 * tex_h
            < fitted_size(avail_w, avail_h, tex_w, tex_h).1 * tex_w + tex_w,
        fitted_size(avail_w, avail_h, tex_w, tex_h).1 * tex_w
            < fitted_size(avail_w, avail_h, tex_w, tex_h).0 * tex_h + tex_h,
{
    let fit_x_h = avail_w * tex_h / tex_w;
    assert(avail_w * tex_h >= 0) by (nonlinear_arith)
        requires
            avail_w >= 0,
            tex_h >= 1,
    ;
    assert(avail_h * tex_w >= 0) by (nonlinear_arith)
        requires
            avail_h >= 0,
            tex_w >= 1,
    ;
    assert(tex_w * (avail_w * tex_h / tex_w) <= avail_w * tex_h
        < tex_w * (avail_w * tex_h / tex_w) + tex_w) by (nonlinear_arith)
        requires
            tex_w >= 1,
            avail_w * tex_h >= 0,
    ;
    if fit_x_h > avail_h {
        let fit_y_w = avail_h * tex_w / tex_h;
        assert(tex_h * (avail_h * tex_w / tex_h) <= avail_h * tex_w
            < tex_h * (avail_h * tex_w / tex_h) + tex_h) by (nonlinear_arith)
            requires
                tex_h >= 1,
                avail_h * tex_w >= 0,
        ;
        // The width branch overflowed the height, so the exact fit-to-height
        // width stays within the available width.
        assert((avail_h + 1) * tex_w <= avail_w * tex_h) by (nonlinear_arith)
            requires
                tex_w >= 1,
                avail_h + 1 <= fit_x_h,
                tex_w * fit_x_h <= avail_w * tex_h,
        ;
        assert(fit_y_w * tex_h <= avail_h * tex_w);
        assert(fit_y_w <= avail_w) by (nonlinear_arith)
            requires
                tex_h >= 1,
                tex_w >= 1,
                fit_y_w * tex_h <= avail_h * tex_w,
                (avail_h + 1) * tex_w <= avail_w * tex_h,
                avail_h * tex_w >= 0,
        ;
        assert(fit_y_w >= 0) by (nonlinear_arith)
            requires
                tex_h >= 1,
                avail_h * tex_w >= 0,
                fit_y_w == avail_h * tex_w / tex_h,
        ;
        assert(fit_y_w * tex_h < avail_h * tex_w + tex_w && avail_h * tex_w < fit_y_w * tex_h
            + tex_h) by (nonlinear_arith)
            requires
                tex_w >= 1,
                tex_h >= 1,
                tex_h * fit_y_w <= avail_h * tex_w < tex_h * fit_y_w + tex_h,
        ;
    } else {
        assert(fit_x_h >= 0) by (nonlinear_arith)
            requires
                tex_w >= 1,
                avail_w * tex_h >= 0,
                fit_x_h == avail_w * tex_h / tex_w,
        ;
        assert(avail_w * tex_h < fit_x_h * tex_w + tex_w && fit_x_h * tex_w < avail_w * tex_h
            + tex_h) by (nonlinear_arith)
            requires
                tex_w >= 1,
                tex_h >= 1,
                tex_w * fit_x_h <= avail_w * tex_h < tex_w * fit_x_h + tex_w,
        ;
    }
}

/// Computes the fitted draw size in whole pixels. A zero in either result
/// dimension marks a degenerate area: the caller skips the frame's GPU work.
pub fn fit_rect(avail_w: u32, avail_h: u32, tex_w: u32, tex_h: u32) -> (r: (u32, u32))
    requires
        tex_w >= 1,
        tex_h >= 1,
    ensures
        (r.0 as int, r.1 as int) == fitted_size(
            avail_w as int,
            avail_h as int,
            tex_w as int,
            tex_h as int,
        ),
        r.0 <= avail_w,
        r.1 <= avail_h,
{
    proof {
        lemma_fitted_size_bounds(avail_w as int, avail_h as int, tex_w as int, tex_h as int);
    }
    assert((avail_w as u64) * (tex_h as u64) <= u64::MAX) by (nonlinear_arith)
        requires
            avail_w <= u32::MAX,
            tex_h <= u32::MAX,
    ;
    assert((avail_h as u64) * (tex_w as u64) <= u64::MAX) by (nonlinear_arith)
        requires
            avail_h <= u32::MAX,
            tex_w <= u32::MAX,
    ;
    let fit_x_h: u64 = (avail_w as u64) * (tex_h as u64) / (tex_w as u64);
    if fit_x_h > avail_h as u64 {
        let fit_y_w: u64 = (avail_h as u64) * (tex_w as u64) / (tex_h as u64);
        (fit_y_w as u32, avail_h)
    } else {
        (avail_w, fit_x_h as u32)
    }
}

} // verus!
