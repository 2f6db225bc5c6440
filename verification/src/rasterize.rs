//! Pixel compositing for container thumbnails, the texture-cache
//! vocabulary shared with the disk worker, and render constants.

use vstd::prelude::*;

verus! {

/// Master texture height cap; taller leaves stride rows to fit.
pub const MAX_TEX_H: usize = 1024;
/// Increment whenever rasterization semantics change incompatibly.
pub const RENDER_SCHEMA_VERSION: u64 = 3;
/// Bakes per frame for on-demand misses.
pub const BAKES_PER_FRAME: usize = 4;

/// Which disk-cache operation a diagnostic reports on.
#[derive(Clone, Copy, Debug, PartialEq, Eq, Hash, Structural)]
pub enum DiskOperation {
    Open,
    Load,
    Save,
    Clear,
}

/// A recoverable disk-cache failure, reported to the user.
#[derive(Clone, Debug, PartialEq, Eq)]
pub struct DiskDiagnostic {
    pub operation: DiskOperation,
    pub message: String,
}

/// State of a project's disk texture cache.
#[derive(Clone, Copy, Debug, PartialEq, Eq, Structural)]
pub enum DiskState {
    Preparing,
    Ready { used_bytes: u64 },
    Unavailable,
}

/// The three colour channels of `0xRRGGBB` as bytes.
pub open spec fn rgb_u8_spec(c: u32) -> (u8, u8, u8) {
    (((c / 65536) % 256) as u8, ((c / 256) % 256) as u8, (c % 256) as u8)
}

/// The three colour channels of `0xRRGGBB` (higher bits are ignored).
pub fn rgb_u8(c: u32) -> (r: (u8, u8, u8))
    ensures
        r == rgb_u8_spec(c),
{
    (((c / 65536) % 256) as u8, ((c / 256) % 256) as u8, (c % 256) as u8)
}

/// Output alpha of a straight-alpha src-over blend.
pub open spec fn blend_alpha(sa: int, da: int) -> int {
    sa + da * (255 - sa) / 255
}

/// One output colour channel of a straight-alpha src-over blend, kept to
/// its low 8 bits.
pub open spec fn blend_channel(sc: int, dc: int, sa: int, da: int) -> u8 {
    (((sc * sa + dc * da * (255 - sa) / 255) / blend_alpha(sa, da)) % 256) as u8
}

/// Straight-alpha src-over blend of source colour `(r, g, b, a)` over the
/// RGBA pixel `d`; a fully transparent result leaves `d` unchanged.
pub open spec fn blend_spec(d: Seq<u8>, r: u8, g: u8, b: u8, a: u8) -> Seq<u8> {
    let oa = blend_alpha(a as int, d[3] as int);
    if oa == 0 {
        d
    } else {
        seq![
            blend_channel(r as int, d[0] as int, a as int, d[3] as int),
            blend_channel(g as int, d[1] as int, a as int, d[3] as int),
            blend_channel(b as int, d[2] as int, a as int, d[3] as int),
            oa as u8,
        ]
    }
}

proof fn lemma_blend_alpha_bound(sa: int, da: int)
    requires
        0 <= sa <= 255,
        0 <= da <= 255,
    ensures
        sa <= blend_alpha(sa, da) <= 255,
{
    assert(0 <= da * (255 - sa) <= 255 * (255 - sa)) by (nonlinear_arith)
        requires
            0 <= sa <= 255,
            0 <= da <= 255,
    ;
    assert(da * (255 - sa) / 255 <= 255 - sa) by (nonlinear_arith)
        requires
            0 <= da * (255 - sa) <= 255 * (255 - sa),
    ;
}

fn blend_channel_exec(sc: u8, dc: u8, sa: u8, da: u8, oa: u32) -> (r: u8)
    requires
        oa == blend_alpha(sa as int, da as int),
        oa > 0,
    ensures
        r == blend_channel(sc as int, dc as int, sa as int, da as int),
{
    let sc = sc as u32;
    let dc = dc as u32;
    let sa = sa as u32;
    let da = da as u32;
    assert(sc * sa <= 255 * 255) by (nonlinear_arith)
        requires
            sc <= 255,
            sa <= 255,
    ;
    assert(dc * da <= 255 * 255) by (nonlinear_arith)
        requires
            dc <= 255,
            da <= 255,
    ;
    assert(dc * da * (255 - sa) <= 255 * 255 * 255) by (nonlinear_arith)
        requires
            dc <= 255,
            da <= 255,
            sa <= 255,
    ;
    (((sc * sa + dc * da * (255 - sa) / 255) / oa) % 256) as u8
}

/// Straight-alpha src-over blend of one source colour into the RGBA pixel
/// starting at byte `at` of `dst`.
pub fn blend(dst: &mut Vec<u8>, at: usize, r: u8, g: u8, b: u8, a: u8)
    requires
        at + 4 <= old(dst).len(),
    ensures
        final(dst)@ == old(dst)@.take(at as int) + blend_spec(
            old(dst)@.subrange(at as int, at + 4),
            r,
            g,
            b,
            a,
        ) + old(dst)@.skip(at + 4),
{
    let ghost d = dst@.subrange(at as int, at + 4);
    let sa = a as u32;
    let da = dst[at + 3] as u32;
    proof {
        lemma_blend_alpha_bound(sa as int, da as int);
    }
    assert(da * (255 - sa) <= 255 * 255) by (nonlinear_arith)
        requires
            da <= 255,
            sa <= 255,
    ;
    let oa = sa + da * (255 - sa) / 255;
    if oa == 0 {
        assert(dst@ =~= dst@.take(at as int) + d + dst@.skip(at + 4));
        return;
    }
    let c0 = blend_channel_exec(r, dst[at], a, dst[at + 3], oa);
    let c1 = blend_channel_exec(g, dst[at + 1], a, dst[at + 3], oa);
    let c2 = blend_channel_exec(b, dst[at + 2], a, dst[at + 3], oa);
    dst.set(at, c0);
    dst.set(at + 1, c1);
    dst.set(at + 2, c2);
    dst.set(at + 3, oa as u8);
    assert(dst@ =~= old(dst)@.take(at as int) + blend_spec(d, r, g, b, a) + old(dst)@.skip(
        at + 4,
    ));
}


/// Geometry of one compositing call: source size, destination rectangle
/// (in pixels, possibly partly outside the buffer) and buffer size.
pub struct Placement {
    pub src_w: u32,
    pub src_h: u32,
    pub dst_w: u32,
    pub dst_h: u32,
    pub dst_x: i32,
    pub dst_y: i32,
    pub buf_w: u32,
    pub buf_h: u32,
}

/// Width of the destination rectangle inside its 1-pixel border.
pub open spec fn inner_w(pl: Placement) -> int {
    if pl.dst_w > 2 { pl.dst_w - 2 } else { 0 }
}

/// Height of the destination rectangle inside its 1-pixel border.
pub open spec fn inner_h(pl: Placement) -> int {
    if pl.dst_h > 2 { pl.dst_h - 2 } else { 0 }
}

/// Offset of buffer pixel `p` from the top-left of the inner rectangle.
pub open spec fn offset_of(pl: Placement, p: int) -> (int, int) {
    (p % (pl.buf_w as int) - pl.dst_x - 1, p / (pl.buf_w as int) - pl.dst_y - 1)
}

/// Byte offset of the source pixel sampled (nearest neighbour) at inner
/// offset `(ox, oy)`.
pub open spec fn src_index(pl: Placement, ox: int, oy: int) -> int {
    ((oy * pl.src_h / inner_h(pl)) * pl.src_w + ox * pl.src_w / inner_w(pl)) * 4
}

/// Whether inner offset `(ox, oy)` paints: it lies in the inner rectangle
/// and its source pixel is present and not fully transparent.
pub open spec fn paints(src: Seq<u8>, pl: Placement, ox: int, oy: int) -> bool {
    &&& 0 <= ox < inner_w(pl)
    &&& 0 <= oy < inner_h(pl)
    &&& src_index(pl, ox, oy) + 3 < src.len()
    &&& src[src_index(pl, ox, oy) + 3] != 0
}

/// Row-major progress: offset `(ox, oy)` comes before `(cols, rows)`.
pub open spec fn done_before(ox: int, oy: int, rows: int, cols: int) -> bool {
    oy < rows || (oy == rows && ox < cols)
}

/// The buffer after compositing every inner offset before `(cols, rows)`.
pub open spec fn composite_partial(
    old: Seq<u8>,
    src: Seq<u8>,
    pl: Placement,
    rows: int,
    cols: int,
) -> Seq<u8> {
    if pl.src_w == 0 || pl.src_h == 0 || src.len() < 4 {
        old
    } else {
        Seq::new(
            old.len(),
            |b: int|
                {
                    let p = b / 4;
                    let o = offset_of(pl, p);
                    if p < pl.buf_w * pl.buf_h && paints(src, pl, o.0, o.1) && done_before(
                        o.0,
                        o.1,
                        rows,
                        cols,
                    ) {
                        let si = src_index(pl, o.0, o.1);
                        blend_spec(
                            old.subrange(p * 4, p * 4 + 4),
                            src[si + 2],
                            src[si + 1],
                            src[si],
                            src[si + 3],
                        )[b - p * 4]
                    } else {
                        old[b]
                    }
                },
        )
    }
}

/// The buffer after compositing the whole source: every buffer pixel
/// inside the inner rectangle is src-over blended with the
/// nearest-neighbour source pixel (BGRA read as RGBA); all other bytes
/// are unchanged.
pub open spec fn composite_spec(old: Seq<u8>, src: Seq<u8>, pl: Placement) -> Seq<u8> {
    composite_partial(old, src, pl, inner_h(pl), 0)
}

/// Whether buffer pixel `p` lies in the buffer and strictly inside the
/// destination rectangle's 1-pixel border.
pub open spec fn inside_inner(pl: Placement, p: int) -> bool {
    let x = p % (pl.buf_w as int);
    let y = p / (pl.buf_w as int);
    &&& 0 <= p < pl.buf_w * pl.buf_h
    &&& pl.dst_x + 1 <= x < pl.dst_x + pl.dst_w - 1
    &&& pl.dst_y + 1 <= y < pl.dst_y + pl.dst_h - 1
}

/// Law: compositing leaves alone every pixel outside the buffer, on the
/// 1-pixel border of the destination rectangle or outside it, and every
/// pixel whose sampled source pixel is missing or fully transparent; with
/// an empty source, or a rectangle under 3 pixels wide or high (no inner
/// area), the buffer is unchanged.
pub proof fn lemma_composite_leaves_unpainted(old: Seq<u8>, src: Seq<u8>, pl: Placement)
    ensures
        composite_spec(old, src, pl).len() == old.len(),
        pl.src_w == 0 || pl.src_h == 0 || src.len() < 4 || pl.dst_w < 3 || pl.dst_h < 3 ==> composite_spec(old, src, pl) == old,
        forall|b: int| 0 <= b < old.len() && !inside_inner(pl, b / 4) ==> #[trigger] composite_spec(old, src, pl)[b] == old[b],
        forall|b: int|
            0 <= b < old.len() && !paints(src, pl, offset_of(pl, b / 4).0, offset_of(pl, b / 4).1) ==> #[trigger] composite_spec(
                old,
                src,
                pl,
            )[b] == old[b],
{
    let r = composite_spec(old, src, pl);
    assert forall|b: int| 0 <= b < old.len() && !inside_inner(pl, b / 4) implies #[trigger] composite_spec(old, src, pl)[b] == old[b] by {
        let p = b / 4;
        let o = offset_of(pl, p);
        if !(pl.src_w == 0 || pl.src_h == 0 || src.len() < 4) && p < pl.buf_w * pl.buf_h && paints(src, pl, o.0, o.1) {
            assert(0 <= p);
            assert(inside_inner(pl, p));
        }
    }
    if pl.src_w == 0 || pl.src_h == 0 || src.len() < 4 || pl.dst_w < 3 || pl.dst_h < 3 {
        assert(r =~= old);
    }
}

/// Pixel `dy * buf_w + dx` has offset `(dx - dst_x - 1, dy - dst_y - 1)`,
/// and is the only pixel with that offset.
proof fn lemma_offset_of_pixel(pl: Placement, dx: int, dy: int, p: int)
    requires
        pl.buf_w > 0,
        0 <= dx < pl.buf_w,
        0 <= dy,
        0 <= p,
    ensures
        offset_of(pl, dy * pl.buf_w + dx) == (dx - pl.dst_x - 1, dy - pl.dst_y - 1),
        offset_of(pl, p) == (dx - pl.dst_x - 1, dy - pl.dst_y - 1) ==> p == dy * pl.buf_w + dx,
{
    vstd::arithmetic::div_mod::lemma_fundamental_div_mod_converse(
        dy * pl.buf_w + dx,
        pl.buf_w as int,
        dy,
        dx,
    );
    if offset_of(pl, p) == (dx - pl.dst_x - 1, dy - pl.dst_y - 1) {
        let w = pl.buf_w as int;
        vstd::arithmetic::div_mod::lemma_fundamental_div_mod(p, w);
        assert(p % w == dx);
        assert(p / w == dy);
        assert(p == w * dy + dx);
        assert(w * dy == dy * w) by (nonlinear_arith);
    }
}

/// Byte `b` belongs to pixel `b / 4`.
proof fn lemma_byte_pixel(b: int, p: int)
    requires
        p * 4 <= b < p * 4 + 4,
    ensures
        b / 4 == p,
{
}

/// Nearest-neighbour scale of a BGRA source into the inner rectangle of a
/// destination rectangle of the RGBA buffer (a 1-pixel border is left
/// untouched), src-over blending each painted pixel; pixels outside the
/// buffer are skipped.
#[verifier::rlimit(50)]
pub fn composite_bgra(
    src_bgra: &[u8],
    src_w: u32,
    src_h: u32,
    dst_w: u32,
    dst_h: u32,
    dst_x: i32,
    dst_y: i32,
    buf_w: u32,
    buf_h: u32,
    rgba: &mut Vec<u8>,
)
    requires
        src_w != 0 && src_h != 0 && src_bgra@.len() >= 4 ==> {
            &&& dst_w != 0x80000000 && dst_w != 0x80000001
            &&& dst_h != 0x80000000 && dst_h != 0x80000001
            &&& dst_x < 0x7fffffff && dst_y < 0x7fffffff
        },
        src_w != 0 && src_h != 0 && src_bgra@.len() >= 4 && 3 <= dst_w <= 0x7fffffff && 3 <= dst_h <= 0x7fffffff ==> {
            &&& dst_x + dst_w <= 0x80000001 && dst_y + dst_h <= 0x80000001
            &&& src_w * src_h <= 0x1_0000_0000 && src_w * src_h * 4 <= usize::MAX + 1
            &&& buf_w <= 0x7fffffff && buf_h <= 0x7fffffff ==> buf_w * buf_h <= 0x1_0000_0000 && buf_w * buf_h * 4
                <= old(rgba).len()
        },
    ensures
        dst_w > 0x7fffffff || dst_h > 0x7fffffff || buf_w > 0x7fffffff || buf_h > 0x7fffffff
            ==> final(rgba)@ == old(rgba)@,
        dst_w <= 0x7fffffff && dst_h <= 0x7fffffff && buf_w <= 0x7fffffff && buf_h <= 0x7fffffff
            ==> final(rgba)@ == composite_spec(
            old(rgba)@,
            src_bgra@,
            (Placement { src_w, src_h, dst_w, dst_h, dst_x, dst_y, buf_w, buf_h }),
        ),
{
    let ghost pl = Placement { src_w, src_h, dst_w, dst_h, dst_x, dst_y, buf_w, buf_h };
    let ghost old_buf = rgba@;
    if dst_w > 0x7fffffff || dst_h > 0x7fffffff || buf_w > 0x7fffffff || buf_h > 0x7fffffff {
        // A box or buffer this wide reads as negative in signed pixel
        // coordinates: nothing is painted.
        return;
    }
    if src_w == 0 || src_h == 0 || src_bgra.len() < 4 {
        return;
    }
    let iw: u32 = if dst_w > 2 { dst_w - 2 } else { 0 };
    let ih: u32 = if dst_h > 2 { dst_h - 2 } else { 0 };
    if iw == 0 || ih == 0 {
        assert(rgba@ =~= composite_spec(old_buf, src_bgra@, pl));
        return;
    }
    let inner_x: i32 = dst_x + 1;
    let inner_y: i32 = dst_y + 1;
    assert(rgba@ =~= composite_partial(old_buf, src_bgra@, pl, 0, 0));
    let mut oy: u32 = 0;
    while oy < ih
        invariant
            pl == (Placement { src_w, src_h, dst_w, dst_h, dst_x, dst_y, buf_w, buf_h }),
            src_w > 0 && src_h > 0 && src_bgra@.len() >= 4,
            iw == inner_w(pl) && ih == inner_h(pl) && iw > 0 && ih > 0,
            inner_x == dst_x + 1 && inner_y == dst_y + 1,
            dst_w <= 0x7fffffff,
            dst_h <= 0x7fffffff,
            dst_x + dst_w <= 0x80000001,
            dst_y + dst_h <= 0x80000001,
            buf_w <= 0x7fffffff,
            buf_h <= 0x7fffffff,
            src_w * src_h <= 0x1_0000_0000,
            buf_w * buf_h <= 0x1_0000_0000,
            src_w * src_h * 4 <= usize::MAX + 1,
            buf_w * buf_h * 4 <= old_buf.len(),
            oy <= ih,
            rgba@ == composite_partial(old_buf, src_bgra@, pl, oy as int, 0),
        decreases ih - oy,
    {
        let dy: i32 = inner_y + oy as i32;
        assert(oy as u64 * src_h as u64 <= 0xffff_ffff * 0xffff_ffff) by (nonlinear_arith)
            requires
                oy <= 0xffff_ffff,
                src_h <= 0xffff_ffff,
        ;
        let q: u64 = oy as u64 * src_h as u64 / ih as u64;
        assert(q < src_h) by (nonlinear_arith)
            requires
                q == oy as int * src_h as int / ih as int,
                oy < ih,
                src_h > 0,
        ;
        let sy: u32 = q as u32;
        let mut ox: u32 = 0;
        while ox < iw
            invariant
                pl == (Placement { src_w, src_h, dst_w, dst_h, dst_x, dst_y, buf_w, buf_h }),
                src_w > 0 && src_h > 0 && src_bgra@.len() >= 4,
                iw == inner_w(pl) && ih == inner_h(pl) && iw > 0 && ih > 0,
                inner_x == dst_x + 1 && inner_y == dst_y + 1,
                dy == inner_y + oy,
                sy == oy as int * src_h as int / ih as int,
                sy < src_h,
                dst_w <= 0x7fffffff,
                dst_x + dst_w <= 0x80000001,
                buf_w <= 0x7fffffff,
                buf_h <= 0x7fffffff,
                src_w * src_h <= 0x1_0000_0000,
                buf_w * buf_h <= 0x1_0000_0000,
                src_w * src_h * 4 <= usize::MAX + 1,
                buf_w * buf_h * 4 <= old_buf.len(),
                oy < ih,
                ox <= iw,
                rgba@ == composite_partial(old_buf, src_bgra@, pl, oy as int, ox as int),
            decreases iw - ox,
        {
            let ghost before = rgba@;
            let dx: i32 = inner_x + ox as i32;
            let inside = dy >= 0 && dy < buf_h as i32 && dx >= 0 && dx < buf_w as i32;
            assert(ox as u64 * src_w as u64 <= 0xffff_ffff * 0xffff_ffff) by (nonlinear_arith)
                requires
                    ox <= 0xffff_ffff,
                    src_w <= 0xffff_ffff,
            ;
            let qx: u64 = ox as u64 * src_w as u64 / iw as u64;
            assert(qx < src_w) by (nonlinear_arith)
                requires
                    qx == ox as int * src_w as int / iw as int,
                    ox < iw,
                    src_w > 0,
            ;
            let sxx: u32 = qx as u32;
            assert(sy * src_w + sxx < src_w * src_h) by (nonlinear_arith)
                requires
                    sy < src_h,
                    sxx < src_w,
            ;
            let si: usize = (sy * src_w + sxx) as usize * 4;
            assert(si as int == src_index(pl, ox as int, oy as int));
            let visible = si + 3 < src_bgra.len() && src_bgra[si + 3] != 0;
            if inside && visible {
                assert(((dy as u32) * buf_w + (dx as u32)) < buf_w * buf_h) by (nonlinear_arith)
                    requires
                        0 <= dy < buf_h,
                        0 <= dx < buf_w,
                ;
                let p: u32 = dy as u32 * buf_w + dx as u32;
                assert(p * 4 < buf_w * buf_h * 4) by (nonlinear_arith)
                    requires
                        p < buf_w * buf_h,
                ;
                assert(rgba@.len() == old_buf.len());
                assert(p * 4 < rgba.len());
                let di: usize = p as usize * 4;
                proof {
                    lemma_offset_of_pixel(pl, dx as int, dy as int, 0);
                }
                let ghost px = rgba@.subrange(di as int, di + 4);
                assert(px =~= old_buf.subrange(di as int, di + 4)) by {
                    assert forall|k: int| 0 <= k < 4 implies px[k] == old_buf.subrange(
                        di as int,
                        di + 4,
                    )[k] by {
                        lemma_byte_pixel(di + k, p as int);
                    }
                }
                blend(rgba, di, src_bgra[si + 2], src_bgra[si + 1], src_bgra[si], src_bgra[si + 3]);
                assert forall|b: int| 0 <= b < rgba@.len() implies rgba@[b] == composite_partial(
                    old_buf,
                    src_bgra@,
                    pl,
                    oy as int,
                    ox + 1,
                )[b] by {
                    let q = b / 4;
                    if di <= b < di + 4 {
                        lemma_byte_pixel(b, p as int);
                    } else {
                        assert(q * 4 <= b < q * 4 + 4);
                        if q >= 0 {
                            lemma_offset_of_pixel(pl, dx as int, dy as int, q);
                        }
                    }
                }
                assert(rgba@ =~= composite_partial(old_buf, src_bgra@, pl, oy as int, ox + 1));
            } else {
                assert forall|b: int| 0 <= b < rgba@.len() implies rgba@[b] == composite_partial(
                    old_buf,
                    src_bgra@,
                    pl,
                    oy as int,
                    ox + 1,
                )[b] by {
                    let q = b / 4;
                    if inside && q >= 0 {
                        lemma_offset_of_pixel(pl, dx as int, dy as int, q);
                    }
                    if !inside && q >= 0 && q < buf_w * buf_h && offset_of(pl, q) == (
                        ox as int,
                        oy as int,
                    ) {
                        vstd::arithmetic::div_mod::lemma_fundamental_div_mod(q, buf_w as int);
                        assert(0 <= q % (buf_w as int) < buf_w);
                        assert(0 <= q / (buf_w as int)) by (nonlinear_arith)
                            requires
                                q >= 0,
                                buf_w > 0,
                        ;
                        assert(q / (buf_w as int) < buf_h) by (nonlinear_arith)
                            requires
                                0 <= q < buf_w * buf_h,
                                buf_w > 0,
                        ;
                    }
                }
                assert(rgba@ =~= composite_partial(old_buf, src_bgra@, pl, oy as int, ox + 1));
            }
            ox += 1;
        }
        assert(rgba@ =~= composite_partial(old_buf, src_bgra@, pl, oy + 1, 0));
        oy += 1;
    }
}

} // verus!
