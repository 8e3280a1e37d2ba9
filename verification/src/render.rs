//! Pixel-buffer rendering: the packed 32-bit canvas layout, the decorative
//! base pattern, and the selection overlay that dims everything outside the
//! selected rectangle.
//!
//! A canvas holds `width * height * 4` bytes, row-major, 4 bytes per pixel.
//! Every renderer builds a fresh buffer; an attached buffer is never written
//! in place.

use vstd::prelude::*;

use crate::foam_outputs::SubRect;

verus! {

/// Byte length of a canvas of the given pixel dimensions.
pub open spec fn buf_len(w: int, h: int) -> int {
    w * h * 4
}

/// Byte index of channel `ch` of pixel `(px, py)` in a canvas of width `w`.
pub open spec fn bidx(w: int, px: int, py: int, ch: int) -> int {
    (py * w + px) * 4 + ch
}

/// Blend weight target of one channel of the dimming layer: a translucent
/// light gray, opaque in the alpha channel.
pub open spec fn dim_target(ch: int) -> u8 {
    if ch == 3 {
        255u8
    } else {
        204u8
    }
}

/// One channel dimmed: the source weighted 77/256 over the old value.
pub open spec fn dim_byte(c: u8, t: u8) -> u8 {
    ((c as int * 179 + t as int * 77) / 256) as u8
}

/// Whether pixel `(px, py)` lies inside the selection rectangle.
pub open spec fn sel_contains(r: SubRect, px: int, py: int) -> bool {
    &&& r.relative_min_x <= px < r.relative_min_x + r.width
    &&& r.relative_min_y <= py < r.relative_min_y + r.height
}

/// Whether the dim layer leaves pixel `(px, py)` untouched.
pub open spec fn keep_pixel(sel: Option<SubRect>, px: int, py: int) -> bool {
    match sel {
        Some(r) => sel_contains(r, px, py),
        None => false,
    }
}

/// Whether pixel `(px, py)` lies on the one-pixel decorative frame.
pub open spec fn on_border(w: int, h: int, px: int, py: int) -> bool {
    px == 0 || py == 0 || px == w - 1 || py == h - 1
}

/// Color of the decorative frame, per channel.
pub open spec fn border_byte(ch: int) -> u8 {
    if ch == 3 {
        255u8
    } else {
        64u8
    }
}

/// The base layer under a renderer: a stored snapshot, or black when none is
/// shown.
pub open spec fn base_at(base: Option<Seq<u8>>, w: int, px: int, py: int, ch: int) -> u8 {
    match base {
        Some(s) => s[bidx(w, px, py, ch)],
        None => 0u8,
    }
}

/// One byte of the base-pattern canvas: the frame color on the border, the
/// base layer elsewhere.
pub open spec fn pattern_byte(base: Option<Seq<u8>>, w: int, h: int, px: int, py: int, ch: int) -> u8 {
    if on_border(w, h, px, py) {
        border_byte(ch)
    } else {
        base_at(base, w, px, py, ch)
    }
}

/// One byte of the selection-overlay canvas: the base layer inside the
/// selection, the dimmed base layer everywhere else.
pub open spec fn overlay_at(
    sel: Option<SubRect>,
    base: Option<Seq<u8>>,
    w: int,
    px: int,
    py: int,
    ch: int,
) -> u8 {
    if keep_pixel(sel, px, py) {
        base_at(base, w, px, py, ch)
    } else {
        dim_byte(base_at(base, w, px, py, ch), dim_target(ch))
    }
}

/// The view of an optional borrowed canvas.
pub open spec fn opt_view(base: Option<&Vec<u8>>) -> Option<Seq<u8>> {
    match base {
        Some(b) => Some(b@),
        None => None,
    }
}

/// Dimensions a canvas can be allocated for on this machine.
pub open spec fn valid_dims(w: int, h: int) -> bool {
    0 < w && 0 < h && w * h * 4 <= usize::MAX
}

proof fn lemma_pixel_bound(w: int, h: int, px: int, py: int)
    by (nonlinear_arith)
    requires
        0 <= px < w,
        0 <= py < h,
    ensures
        0 <= (py * w + px) * 4,
        (py * w + px) * 4 + 4 <= w * h * 4,
{
}

proof fn lemma_lex_lt(w: int, qx: int, qy: int, px: int, py: int)
    by (nonlinear_arith)
    requires
        0 <= qx < w,
        0 <= qy,
        0 <= px,
        qy < py || (qy == py && qx < px),
    ensures
        (qy * w + qx) * 4 + 4 <= (py * w + px) * 4,
{
}

proof fn lemma_row_advance(w: int, py: int)
    by (nonlinear_arith)
    ensures
        (py * w + w) * 4 == ((py + 1) * w + 0) * 4,
{
}

fn dim_channel(c: u8, t: u8) -> (r: u8)
    ensures
        r == dim_byte(c, t),
{
    let v: u32 = ((c as u32) * 179 + (t as u32) * 77) / 256;
    proof {
        assert(c as int * 179 + t as int * 77 <= 255 * 179 + 255 * 77);
    }
    v as u8
}

/// Whether the dim layer must leave pixel `(px, py)` clear.
fn pixel_selected(sel: &Option<SubRect>, px: i32, py: i32) -> (b: bool)
    ensures
        b == keep_pixel(*sel, px as int, py as int),
{
    match sel {
        Some(r) => {
            (px as i64) >= (r.relative_min_x as i64)
                && (px as i64) < (r.relative_min_x as i64) + (r.width as i64)
                && (py as i64) >= (r.relative_min_y as i64)
                && (py as i64) < (r.relative_min_y as i64) + (r.height as i64)
        },
        None => false,
    }
}

/// A byte-for-byte copy of a canvas.
pub fn copy_bytes(src: &Vec<u8>) -> (r: Vec<u8>)
    ensures
        r@ == src@,
{
    let mut r: Vec<u8> = Vec::new();
    let mut i: usize = 0;
    while i < src.len()
        invariant
            i <= src.len(),
            r@ == src@.subrange(0, i as int),
        decreases src.len() - i,
    {
        r.push(src[i]);
        proof {
            assert(r@ =~= src@.subrange(0, i + 1));
        }
        i += 1;
    }
    proof {
        assert(r@ =~= src@);
    }
    r
}

/// A zero-filled canvas: the idle no-capture placeholder.
pub fn render_clean(w: i32, h: i32) -> (v: Vec<u8>)
    requires
        valid_dims(w as int, h as int),
    ensures
        v.len() == buf_len(w as int, h as int),
        forall|i: int| 0 <= i < v.len() ==> v@[i] == 0u8,
{
    let total: usize = (w as usize) * (h as usize) * 4;
    proof {
        assert((w as usize) * (h as usize) * 4 == w as int * h as int * 4) by (nonlinear_arith)
            requires
                0 < w,
                0 < h,
                w as int * h as int * 4 <= usize::MAX,
        ;
    }
    let mut v: Vec<u8> = Vec::new();
    let mut i: usize = 0;
    while i < total
        invariant
            i <= total,
            v.len() == i,
            forall|j: int| 0 <= j < i ==> v@[j] == 0u8,
        decreases total - i,
    {
        v.push(0u8);
        i += 1;
    }
    v
}

/// The base-pattern canvas: the base layer (snapshot or black) with the
/// decorative frame drawn on top.
pub fn render_pattern(w: i32, h: i32, base: Option<&Vec<u8>>) -> (v: Vec<u8>)
    requires
        valid_dims(w as int, h as int),
        base matches Some(b) ==> b.len() == buf_len(w as int, h as int),
    ensures
        v.len() == buf_len(w as int, h as int),
        forall|px: int, py: int, ch: int|
            0 <= px < w && 0 <= py < h && 0 <= ch < 4 ==> v@[bidx(w as int, px, py, ch)]
                == pattern_byte(opt_view(base), w as int, h as int, px, py, ch),
{
    let ghost bw = w as int;
    let ghost bh = h as int;
    let mut v: Vec<u8> = Vec::new();
    let mut py: i32 = 0;
    while py < h
        invariant
            bw == w as int,
            bh == h as int,
            0 <= py <= h,
            valid_dims(bw, bh),
            base matches Some(b) ==> b.len() == buf_len(bw, bh),
            v.len() == (py as int * bw + 0) * 4,
            forall|qx: int, qy: int, ch: int|
                0 <= qx < bw && 0 <= qy < py && 0 <= ch < 4 ==> v@[bidx(bw, qx, qy, ch)]
                    == pattern_byte(opt_view(base), bw, bh, qx, qy, ch),
        decreases h - py,
    {
        let mut px: i32 = 0;
        while px < w
            invariant
                bw == w as int,
                bh == h as int,
                0 <= py < h,
                0 <= px <= w,
                valid_dims(bw, bh),
                base matches Some(b) ==> b.len() == buf_len(bw, bh),
                v.len() == (py as int * bw + px as int) * 4,
                forall|qx: int, qy: int, ch: int|
                    0 <= qx < bw && 0 <= qy < bh && 0 <= ch < 4 && (qy < py || (qy == py && qx
                        < px)) ==> v@[bidx(bw, qx, qy, ch)]
                        == pattern_byte(opt_view(base), bw, bh, qx, qy, ch),
            decreases w - px,
        {
            proof {
                lemma_pixel_bound(bw, bh, px as int, py as int);
            }
            let ghost prev = v@;
            let cur: usize = v.len();
            let is_border = px == 0 || py == 0 || px == w - 1 || py == h - 1;
            if is_border {
                v.push(64u8);
                v.push(64u8);
                v.push(64u8);
                v.push(255u8);
            } else {
                match base {
                    Some(b) => {
                        v.push(b[cur]);
                        v.push(b[cur + 1]);
                        v.push(b[cur + 2]);
                        v.push(b[cur + 3]);
                    },
                    None => {
                        v.push(0u8);
                        v.push(0u8);
                        v.push(0u8);
                        v.push(0u8);
                    },
                }
            }
            proof {
                assert(forall|ch: int|
                    0 <= ch < 4 ==> v@[bidx(bw, px as int, py as int, ch)] == pattern_byte(
                        opt_view(base),
                        bw,
                        bh,
                        px as int,
                        py as int,
                        ch,
                    ));
                assert forall|qx: int, qy: int, ch: int|
                    0 <= qx < bw && 0 <= qy < bh && 0 <= ch < 4 && (qy < py || (qy == py && qx < px
                        + 1)) implies v@[bidx(bw, qx, qy, ch)] == pattern_byte(
                    opt_view(base),
                    bw,
                    bh,
                    qx,
                    qy,
                    ch,
                ) by {
                    if qy < py || (qy == py && qx < px) {
                        lemma_lex_lt(bw, qx, qy, px as int, py as int);
                        assert(v@[bidx(bw, qx, qy, ch)] == prev[bidx(bw, qx, qy, ch)]);
                    }
                }
            }
            px += 1;
        }
        proof {
            lemma_row_advance(bw, py as int);
        }
        py += 1;
    }
    proof {
        assert((h as int * bw + 0) * 4 == bw * bh * 4) by (nonlinear_arith)
            requires
                bw == w as int && bh == h as int,
        ;
    }
    v
}

/// The selection-overlay canvas: the base layer kept clear inside the
/// selection rectangle and dimmed once everywhere else; with no selection the
/// whole surface is dimmed uniformly.
pub fn render_overlay(w: i32, h: i32, base: Option<&Vec<u8>>, sel: &Option<SubRect>) -> (v: Vec<
    u8,
>)
    requires
        valid_dims(w as int, h as int),
        base matches Some(b) ==> b.len() == buf_len(w as int, h as int),
    ensures
        v.len() == buf_len(w as int, h as int),
        forall|px: int, py: int, ch: int|
            0 <= px < w && 0 <= py < h && 0 <= ch < 4 ==> v@[bidx(w as int, px, py, ch)]
                == overlay_at(*sel, opt_view(base), w as int, px, py, ch),
{
    let ghost bw = w as int;
    let ghost bh = h as int;
    let mut v: Vec<u8> = Vec::new();
    let mut py: i32 = 0;
    while py < h
        invariant
            bw == w as int,
            bh == h as int,
            0 <= py <= h,
            valid_dims(bw, bh),
            base matches Some(b) ==> b.len() == buf_len(bw, bh),
            v.len() == (py as int * bw + 0) * 4,
            forall|qx: int, qy: int, ch: int|
                0 <= qx < bw && 0 <= qy < py && 0 <= ch < 4 ==> v@[bidx(bw, qx, qy, ch)]
                    == overlay_at(*sel, opt_view(base), bw, qx, qy, ch),
        decreases h - py,
    {
        let mut px: i32 = 0;
        while px < w
            invariant
                bw == w as int,
                bh == h as int,
                0 <= py < h,
                0 <= px <= w,
                valid_dims(bw, bh),
                base matches Some(b) ==> b.len() == buf_len(bw, bh),
                v.len() == (py as int * bw + px as int) * 4,
                forall|qx: int, qy: int, ch: int|
                    0 <= qx < bw && 0 <= qy < bh && 0 <= ch < 4 && (qy < py || (qy == py && qx
                        < px)) ==> v@[bidx(bw, qx, qy, ch)]
                        == overlay_at(*sel, opt_view(base), bw, qx, qy, ch),
            decreases w - px,
        {
            proof {
                lemma_pixel_bound(bw, bh, px as int, py as int);
            }
            let ghost prev = v@;
            let cur: usize = v.len();
            let (b0, b1, b2, b3): (u8, u8, u8, u8) = match base {
                Some(b) => (b[cur], b[cur + 1], b[cur + 2], b[cur + 3]),
                None => (0u8, 0u8, 0u8, 0u8),
            };
            if pixel_selected(sel, px, py) {
                v.push(b0);
                v.push(b1);
                v.push(b2);
                v.push(b3);
            } else {
                v.push(dim_channel(b0, 204));
                v.push(dim_channel(b1, 204));
                v.push(dim_channel(b2, 204));
                v.push(dim_channel(b3, 255));
            }
            proof {
                assert(forall|ch: int|
                    0 <= ch < 4 ==> v@[bidx(bw, px as int, py as int, ch)] == overlay_at(
                        *sel,
                        opt_view(base),
                        bw,
                        px as int,
                        py as int,
                        ch,
                    ));
                assert forall|qx: int, qy: int, ch: int|
                    0 <= qx < bw && 0 <= qy < bh && 0 <= ch < 4 && (qy < py || (qy == py && qx < px
                        + 1)) implies v@[bidx(bw, qx, qy, ch)] == overlay_at(
                    *sel,
                    opt_view(base),
                    bw,
                    qx,
                    qy,
                    ch,
                ) by {
                    if qy < py || (qy == py && qx < px) {
                        lemma_lex_lt(bw, qx, qy, px as int, py as int);
                        assert(v@[bidx(bw, qx, qy, ch)] == prev[bidx(bw, qx, qy, ch)]);
                    }
                }
            }
            px += 1;
        }
        proof {
            lemma_row_advance(bw, py as int);
        }
        py += 1;
    }
    proof {
        assert((h as int * bw + 0) * 4 == bw * bh * 4) by (nonlinear_arith)
            requires
                bw == w as int && bh == h as int,
        ;
    }
    v
}

} // verus!
