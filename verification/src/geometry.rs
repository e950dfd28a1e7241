//! Integer geometry used by the command dispatcher: clamping of
//! script-supplied dimensions, normalization of selection rectangles, and the
//! letterboxing layout that fits a texture into a window.

use vstd::prelude::*;
use vstd::arithmetic::div_mod::{lemma_div_is_ordered, lemma_div_multiples_vanish};

verus! {

/// The value of `clamp`: negative values become 0, values over `u32::MAX`
/// saturate.
pub open spec fn spec_clamp(v: i64) -> u32 {
    if v < 0 {
        0u32
    } else if v > u32::MAX {
        u32::MAX
    } else {
        v as u32
    }
}

/// Clamp a script-supplied dimension to the range a pixel dimension can hold.
pub fn clamp(v: i64) -> (r: u32)
    ensures
        r == spec_clamp(v),
{
    if v < 0 {
        0
    } else if v > u32::MAX as i64 {
        u32::MAX
    } else {
        v as u32
    }
}

/// The normalized form of a selection rectangle given by two corners: per
/// axis, the low edge is the smaller coordinate and the high edge the larger,
/// each clamped to the range of a pixel coordinate. So the corner order never
/// matters, and `low <= high` holds componentwise.
pub open spec fn spec_img_crop(px: i64, py: i64, qx: i64, qy: i64) -> (u32, u32, u32, u32) {
    (
        spec_clamp(if px < qx { px } else { qx }),
        spec_clamp(if py < qy { py } else { qy }),
        spec_clamp(if px < qx { qx } else { px }),
        spec_clamp(if py < qy { qy } else { py }),
    )
}

/// Normalize a selection rectangle: `(low_x, low_y, high_x, high_y)`.
pub fn img_crop(px: i64, py: i64, qx: i64, qy: i64) -> (r: (u32, u32, u32, u32))
    ensures
        r == spec_img_crop(px, py, qx, qy),
        r.0 <= r.2,
        r.1 <= r.3,
{
    let lx = if px < qx { px } else { qx };
    let hx = if px < qx { qx } else { px };
    let ly = if py < qy { py } else { qy };
    let hy = if py < qy { qy } else { py };
    (clamp(lx), clamp(ly), clamp(hx), clamp(hy))
}

/// Rectangle normalization is order-independent: the two corners may be given
/// in either order and the normalized rectangle is the same.
pub proof fn lemma_img_crop_order_independent(px: i64, py: i64, qx: i64, qy: i64)
    ensures
        spec_img_crop(px, py, qx, qy) == spec_img_crop(qx, qy, px, py),
{
}

/// The letterboxing layout: scale an `imgw x imgh` texture by the largest
/// factor that fits it into a `winw x winh` window, keeping the aspect ratio,
/// and center it on the axis that has more than two pixels of slack.
/// The result is `(x, y, w, h)`: the top-left corner and the scaled size.
pub open spec fn spec_resize_dims(imgw: u32, imgh: u32, winw: u32, winh: u32) -> (
    int,
    int,
    int,
    int,
)
    recommends
        imgw >= 1,
        imgh >= 1,
{
    let w = if winw * imgh <= winh * imgw {
        winw as int
    } else {
        (imgw * winh) as int / imgh as int
    };
    let h = if winw * imgh <= winh * imgw {
        (imgh * winw) as int / imgw as int
    } else {
        winh as int
    };
    let x = if w + 2 < winw { (winw - w) / 2 } else { 0int };
    let y = if h + 2 < winh { (winh - h) / 2 } else { 0int };
    (x, y, w, h)
}

/// Compute the letterboxing layout of a texture inside the window.
pub fn resize_dims(imgw: u32, imgh: u32, winw: u32, winh: u32) -> (r: (i32, i32, u32, u32))
    requires
        imgw >= 1,
        imgh >= 1,
    ensures
        (r.0 as int, r.1 as int, r.2 as int, r.3 as int) == spec_resize_dims(
            imgw,
            imgh,
            winw,
            winh,
        ),
{
    let iw = imgw as u64;
    let ih = imgh as u64;
    let ww = winw as u64;
    let wh = winh as u64;
    proof {
        assert(ww * ih <= 0xffff_ffffu64 * 0xffff_ffffu64 && wh * iw <= 0xffff_ffffu64
            * 0xffff_ffffu64) by (nonlinear_arith)
            requires
                iw <= 0xffff_ffffu64,
                ih <= 0xffff_ffffu64,
                ww <= 0xffff_ffffu64,
                wh <= 0xffff_ffffu64,
        ;
    }
    let fits_width = ww * ih <= wh * iw;
    let w64: u64 = if fits_width {
        ww
    } else {
        let scaled = iw * wh;
        proof {
            lemma_div_is_ordered(scaled as int, (ww * ih) as int, ih as int);
            lemma_div_multiples_vanish(ww as int, ih as int);
            assert((ww * ih) as int / ih as int == (ih * ww) as int / ih as int);
        }
        scaled / ih
    };
    let h64: u64 = if fits_width {
        let scaled = ih * ww;
        proof {
            lemma_div_is_ordered(scaled as int, (wh * iw) as int, iw as int);
            lemma_div_multiples_vanish(wh as int, iw as int);
            assert((wh * iw) as int / iw as int == (iw * wh) as int / iw as int);
        }
        scaled / iw
    } else {
        wh
    };
    let w = w64 as u32;
    let h = h64 as u32;
    let x: u32 = if (w as u64) + 2 < winw as u64 {
        (winw - w) / 2
    } else {
        0
    };
    let y: u32 = if (h as u64) + 2 < winh as u64 {
        (winh - h) / 2
    } else {
        0
    };
    (x as i32, y as i32, w, h)
}

} // verus!
