use vstd::prelude::*;
use vstd::arithmetic::div_mod::lemma_fundamental_div_mod;
use vstd::arithmetic::div_mod::lemma_mod_bound;
use crate::errors::EinkError;
use crate::frame::FrameBuffer;
use crate::geometry::Geometry;
use crate::geometry::lemma_layer_len;
use crate::pixels::PixelImage;
use crate::pixels::is_dark;
use crate::pixels::DARK_THRESHOLD;

verus! {

/// The packed value of the low `n` bits of the byte for 8-pixel group `gx`
/// of row `y`.  Bit ordering convention: the least-significant bit is the
/// leftmost pixel of the group, so bit `k` is set exactly when pixel
/// `8*gx + k` of row `y` is dark.
pub open spec fn group_byte_prefix(img: PixelImage, y: int, gx: int, n: nat) -> u8
    decreases n,
{
    if n == 0 {
        0u8
    } else {
        let prev = group_byte_prefix(img, y, gx, (n - 1) as nat);
        if is_dark(img.luma_at(8 * gx + (n - 1), y)) {
            prev | (1u8 << (((n - 1) as u8)))
        } else {
            prev
        }
    }
}

/// The packed byte for the 8-pixel group `gx` of row `y`.
pub open spec fn group_byte(img: PixelImage, y: int, gx: int) -> u8 {
    group_byte_prefix(img, y, gx, 8)
}

/// What it means for `fb` to be the encoding of `img` under geometry `g`:
/// both layers have exactly one bit per pixel, the primary layer holds the
/// packed 8-pixel groups in row-major order, the secondary layer is all
/// zero, and color mode is off.
pub open spec fn encodes(img: PixelImage, g: Geometry, fb: FrameBuffer) -> bool {
    &&& fb.geometry == g
    &&& !fb.color
    &&& fb.primary@.len() == g.layer_len()
    &&& fb.secondary@.len() == g.layer_len()
    &&& forall|i: int| 0 <= i < fb.secondary@.len() ==> fb.secondary@[i] == 0u8
    &&& forall|y: int, gx: int|
            0 <= y < g.height && 0 <= gx < g.groups_per_row()
                ==> fb.primary@[y * g.groups_per_row() + gx] == #[trigger] group_byte(img, y, gx)
}

/// Row-major index arithmetic: an earlier (row, group) pair lands strictly
/// below the start of row `y`.
proof fn lemma_row_index(yy: int, gg: int, y: int, gw: int)
    requires
        0 <= yy < y,
        0 <= gg < gw,
    ensures
        0 <= yy * gw + gg < y * gw,
{
    assert(0 <= yy * gw + gg < y * gw) by (nonlinear_arith)
        requires
            0 <= yy < y,
            0 <= gg < gw,
    ;
}

/// Converts a raster image into the panel's bit-packed frame format.
///
/// Iterates rows top-to-bottom and 8-pixel groups left-to-right within a
/// row; each group packs into one byte with the least-significant bit being
/// the leftmost pixel, a bit set exactly when the pixel is dark.  The
/// secondary layer is zero-filled to the same length.  The result is a pure
/// function of the pixel data.  Fails with `DimensionMismatch` exactly when
/// the image's dimensions differ from the configured geometry.
pub fn encode(img: &PixelImage, geometry: &Geometry) -> (r: Result<FrameBuffer, EinkError>)
    requires
        img.wf(),
        geometry.wf(),
    ensures
        r is Ok <==> (img.width == geometry.width && img.height == geometry.height),
        r matches Ok(fb) ==> encodes(*img, *geometry, fb) && fb.wf(),
        r matches Err(e) ==> e == EinkError::DimensionMismatch,
{
    if img.width != geometry.width || img.height != geometry.height {
        return Err(EinkError::DimensionMismatch);
    }
    proof {
        lemma_layer_len(*geometry);
    }
    let gw = geometry.width / 8;
    let height = geometry.height;
    let mut primary: Vec<u8> = Vec::new();
    proof {
        assert(0 * (gw as int) == 0) by (nonlinear_arith);
    }
    for y in 0..height
        invariant
            img.wf(),
            geometry.wf(),
            img.width == geometry.width,
            img.height == geometry.height,
            height == geometry.height,
            gw == geometry.groups_per_row(),
            8 * (gw as int) == geometry.width,
            primary@.len() == y * gw,
            forall|yy: int, gg: int|
                0 <= yy < y && 0 <= gg < gw
                    ==> primary@[yy * (gw as int) + gg] == #[trigger] group_byte(*img, yy, gg),
    {
        for gx in 0..gw
            invariant
                img.wf(),
                geometry.wf(),
                img.width == geometry.width,
                img.height == geometry.height,
                height == geometry.height,
                gw == geometry.groups_per_row(),
                8 * (gw as int) == geometry.width,
                y < height,
                primary@.len() == y * gw + gx,
                forall|yy: int, gg: int|
                    0 <= yy < y && 0 <= gg < gw
                        ==> primary@[yy * (gw as int) + gg] == #[trigger] group_byte(*img, yy, gg),
                forall|gg: int|
                    0 <= gg < gx
                        ==> primary@[y * (gw as int) + gg] == #[trigger] group_byte(*img, y as int, gg),
        {
            let mut msg: u8 = 0;
            for n in 0..8usize
                invariant
                    img.wf(),
                    img.width == geometry.width,
                    img.height == geometry.height,
                    height == geometry.height,
                    8 * (gw as int) == geometry.width,
                    y < height,
                    gx < gw,
                    msg == group_byte_prefix(*img, y as int, gx as int, n as nat),
            {
                let x = gx * 8 + n;
                let l = img.luma_value(x, y);
                if l < DARK_THRESHOLD {
                    msg = msg | (1u8 << (n as u8));
                }
            }
            let ghost old_primary = primary@;
            primary.push(msg);
            proof {
                assert forall|yy: int, gg: int| 0 <= yy < y && 0 <= gg < gw
                    implies primary@[yy * (gw as int) + gg] == #[trigger] group_byte(*img, yy, gg) by {
                    lemma_row_index(yy, gg, y as int, gw as int);
                    assert(primary@[yy * (gw as int) + gg] == old_primary[yy * (gw as int) + gg]);
                }
                assert(msg == group_byte(*img, y as int, gx as int));
            }
        }
        proof {
            assert((y + 1) * (gw as int) == y * (gw as int) + gw) by (nonlinear_arith);
        }
    }
    let total = geometry.layer_byte_count();
    let mut secondary: Vec<u8> = Vec::new();
    for i in 0..total
        invariant
            secondary@.len() == i,
            forall|j: int| 0 <= j < i ==> secondary@[j] == 0u8,
    {
        secondary.push(0u8);
    }
    proof {
        assert((height as int) * (gw as int) == (gw as int) * (height as int)) by (nonlinear_arith);
    }
    Ok(FrameBuffer { primary, secondary, geometry: *geometry, color: false })
}

/// Bit `n` of the partially packed byte: set exactly when pixel `8*gx + n`
/// is dark, for the bits packed so far; the not-yet-packed high bits are
/// still clear.
proof fn lemma_prefix_bit(img: PixelImage, y: int, gx: int, m: nat, n: u8)
    requires
        m <= 8,
        n < 8,
    ensures
        n < m ==> ((group_byte_prefix(img, y, gx, m) >> n) & 1) == (if is_dark(
            img.luma_at(8 * gx + n, y),
        ) {
            1u8
        } else {
            0u8
        }),
        m <= n ==> ((group_byte_prefix(img, y, gx, m) >> n) & 1) == 0u8,
    decreases m,
{
    if m == 0 {
        assert(((0u8 >> n) & 1) == 0u8) by (bit_vector);
    } else {
        lemma_prefix_bit(img, y, gx, (m - 1) as nat, n);
        let prev = group_byte_prefix(img, y, gx, (m - 1) as nat);
        let k = ((m - 1) as u8);
        if is_dark(img.luma_at(8 * gx + (m - 1), y)) {
            if n == k {
                assert(((prev | (1u8 << k)) >> n) & 1 == 1u8) by (bit_vector)
                    requires
                        n == k,
                        n < 8,
                ;
            } else {
                assert(((prev | (1u8 << k)) >> n) & 1 == (prev >> n) & 1) by (bit_vector)
                    requires
                        n != k,
                        n < 8,
                        k < 8,
                ;
            }
        }
    }
}

/// Law: the bit-to-pixel ordering convention.  Bit `n` (least-significant
/// bit first) of the packed byte for group `gx` of row `y` is set exactly
/// when pixel `8*gx + n` of that row — counting from the leftmost pixel of
/// the group — is dark.
pub proof fn lemma_group_byte_bit(img: PixelImage, y: int, gx: int, n: u8)
    requires
        n < 8,
    ensures
        ((group_byte(img, y, gx) >> n) & 1) == (if is_dark(img.luma_at(8 * gx + n, y)) {
            1u8
        } else {
            0u8
        }),
{
    lemma_prefix_bit(img, y, gx, 8, n);
}

/// Law: a group of 8 light pixels packs to `0x00`; a group of 8 dark
/// pixels packs to `0xFF`.
pub proof fn lemma_group_byte_uniform(img: PixelImage, y: int, gx: int)
    ensures
        (forall|x: int| 8 * gx <= x < 8 * gx + 8 ==> !is_dark(#[trigger] img.luma_at(x, y)))
            ==> group_byte(img, y, gx) == 0u8,
        (forall|x: int| 8 * gx <= x < 8 * gx + 8 ==> is_dark(#[trigger] img.luma_at(x, y)))
            ==> group_byte(img, y, gx) == 0xFFu8,
{
    let b = group_byte(img, y, gx);
    lemma_group_byte_bit(img, y, gx, 0);
    lemma_group_byte_bit(img, y, gx, 1);
    lemma_group_byte_bit(img, y, gx, 2);
    lemma_group_byte_bit(img, y, gx, 3);
    lemma_group_byte_bit(img, y, gx, 4);
    lemma_group_byte_bit(img, y, gx, 5);
    lemma_group_byte_bit(img, y, gx, 6);
    lemma_group_byte_bit(img, y, gx, 7);
    if forall|x: int| 8 * gx <= x < 8 * gx + 8 ==> !is_dark(#[trigger] img.luma_at(x, y)) {
        assert(b == 0u8) by (bit_vector)
            requires
                (b >> 0u8) & 1 == 0u8,
                (b >> 1u8) & 1 == 0u8,
                (b >> 2u8) & 1 == 0u8,
                (b >> 3u8) & 1 == 0u8,
                (b >> 4u8) & 1 == 0u8,
                (b >> 5u8) & 1 == 0u8,
                (b >> 6u8) & 1 == 0u8,
                (b >> 7u8) & 1 == 0u8,
        ;
    }
    if forall|x: int| 8 * gx <= x < 8 * gx + 8 ==> is_dark(#[trigger] img.luma_at(x, y)) {
        assert(b == 0xFFu8) by (bit_vector)
            requires
                (b >> 0u8) & 1 == 1u8,
                (b >> 1u8) & 1 == 1u8,
                (b >> 2u8) & 1 == 1u8,
                (b >> 3u8) & 1 == 1u8,
                (b >> 4u8) & 1 == 1u8,
                (b >> 5u8) & 1 == 1u8,
                (b >> 6u8) & 1 == 1u8,
                (b >> 7u8) & 1 == 1u8,
        ;
    }
}

/// Law: an all-light image encodes to an all-zero primary layer, and an
/// all-dark image encodes to a primary layer of `0xFF` bytes.
pub proof fn lemma_encode_uniform(img: PixelImage, g: Geometry, fb: FrameBuffer)
    requires
        g.wf(),
        img.width == g.width,
        img.height == g.height,
        encodes(img, g, fb),
    ensures
        (forall|x: int, y: int|
            0 <= x < img.width && 0 <= y < img.height ==> !is_dark(#[trigger] img.luma_at(x, y)))
            ==> forall|i: int| 0 <= i < fb.primary@.len() ==> fb.primary@[i] == 0u8,
        (forall|x: int, y: int|
            0 <= x < img.width && 0 <= y < img.height ==> is_dark(#[trigger] img.luma_at(x, y)))
            ==> forall|i: int| 0 <= i < fb.primary@.len() ==> fb.primary@[i] == 0xFFu8,
{
    crate::geometry::lemma_layer_len(g);
    if forall|x: int, y: int|
        0 <= x < img.width && 0 <= y < img.height ==> !is_dark(#[trigger] img.luma_at(x, y)) {
        assert forall|i: int| 0 <= i < fb.primary@.len() implies fb.primary@[i] == 0u8 by {
            lemma_uniform_byte_at(img, g, fb, i);
        }
    }
    if forall|x: int, y: int|
        0 <= x < img.width && 0 <= y < img.height ==> is_dark(#[trigger] img.luma_at(x, y)) {
        assert forall|i: int| 0 <= i < fb.primary@.len() implies fb.primary@[i] == 0xFFu8 by {
            lemma_uniform_byte_at(img, g, fb, i);
        }
    }
}

/// Decomposes a primary-layer byte index into its (row, group) pair and
/// applies the uniform-group law there.
proof fn lemma_uniform_byte_at(img: PixelImage, g: Geometry, fb: FrameBuffer, i: int)
    requires
        g.wf(),
        img.width == g.width,
        img.height == g.height,
        encodes(img, g, fb),
        0 <= i < fb.primary@.len(),
    ensures
        (forall|x: int, y: int|
            0 <= x < img.width && 0 <= y < img.height ==> !is_dark(#[trigger] img.luma_at(x, y)))
            ==> fb.primary@[i] == 0u8,
        (forall|x: int, y: int|
            0 <= x < img.width && 0 <= y < img.height ==> is_dark(#[trigger] img.luma_at(x, y)))
            ==> fb.primary@[i] == 0xFFu8,
{
    crate::geometry::lemma_layer_len(g);
    let gpr = g.groups_per_row();
    assert(0 < gpr * g.height);
    assert(0 < gpr) by (nonlinear_arith)
        requires
            0 < gpr * g.height,
            0 <= gpr,
    ;
    lemma_fundamental_div_mod(i, gpr);
    lemma_mod_bound(i, gpr);
    let y = i / gpr;
    let gx = i % gpr;
    assert(0 <= y < g.height) by (nonlinear_arith)
        requires
            0 <= i < gpr * (g.height as int),
            0 < gpr,
            i == gpr * y + gx,
            0 <= gx < gpr,
    ;
    assert(gpr * y == y * gpr) by (nonlinear_arith);
    assert(fb.primary@[y * gpr + gx] == group_byte(img, y, gx));
    lemma_group_byte_uniform(img, y, gx);
}

} // verus!
