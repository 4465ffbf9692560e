//! Row-alignment arithmetic for texture readback.
//!
//! A texture-to-buffer copy requires each row's byte stride to be a multiple
//! of 256 bytes, so the readback buffer holds `padded_row_bytes(width)` bytes
//! per row while the pixels themselves occupy only `width * 4` of them.
//! This module computes the padded stride, the workgroup grid that covers an
//! image with 16x16 tiles, and the depadding step that strips the alignment
//! tail from every row of a readback buffer.

use vstd::prelude::*;

verus! {

/// Side length of the square workgroup tile dispatched per grid cell.
pub const TILE_SIZE: u32 = 16;

/// The stride, in bytes, of one row of a readback buffer: `width * 4`
/// rounded up to the next multiple of 256.
pub open spec fn spec_padded_row_bytes(width: int) -> int {
    ((width * 4 + 255) / 256) * 256
}

/// Number of tiles of size `tile` needed to cover a span of `len` cells.
pub open spec fn spec_grid_dim(len: int, tile: int) -> int {
    (len + tile - 1) / tile
}

/// Compute the padded byte stride of one texture row for readback.
pub fn padded_bytes_per_row(width: u32) -> (r: usize)
    requires
        width * 4 + 255 <= usize::MAX,
    ensures
        r == spec_padded_row_bytes(width as int),
{
    let bytes_per_row: usize = width as usize * 4;
    let padding: usize = (256 - bytes_per_row % 256) % 256;
    proof {
        lemma_round_up_form(bytes_per_row as int);
    }
    bytes_per_row + padding
}

/// The padding form `b + (256 - b % 256) % 256` equals the rounded-up form
/// `((b + 255) / 256) * 256`.
proof fn lemma_round_up_form(b: int)
    requires
        b >= 0,
    ensures
        b + (256 - b % 256) % 256 == (b + 255) / 256 * 256,
{
    vstd::arithmetic::div_mod::lemma_fundamental_div_mod(b, 256);
    vstd::arithmetic::div_mod::lemma_fundamental_div_mod(b + 255, 256);
}

/// Compute how many workgroups are needed along each axis so that the grid
/// covers the whole image.
pub fn compute_work_group_count(dims: (u32, u32), workgroup: (u32, u32)) -> (r: (u32, u32))
    requires
        workgroup.0 >= 1,
        workgroup.1 >= 1,
    ensures
        r.0 == spec_grid_dim(dims.0 as int, workgroup.0 as int),
        r.1 == spec_grid_dim(dims.1 as int, workgroup.1 as int),
{
    let x: u64 = (dims.0 as u64 + workgroup.0 as u64 - 1) / workgroup.0 as u64;
    let y: u64 = (dims.1 as u64 + workgroup.1 as u64 - 1) / workgroup.1 as u64;
    proof {
        lemma_grid_dim_fits(dims.0 as int, workgroup.0 as int);
        lemma_grid_dim_fits(dims.1 as int, workgroup.1 as int);
    }
    (x as u32, y as u32)
}

/// The grid dimension never exceeds the covered span, so it fits wherever
/// the span did.
proof fn lemma_grid_dim_fits(len: int, tile: int)
    requires
        0 <= len,
        tile >= 1,
    ensures
        0 <= spec_grid_dim(len, tile) <= len,
{
    let s = len + tile - 1;
    let q = s / tile;
    let r = s % tile;
    vstd::arithmetic::div_mod::lemma_fundamental_div_mod(s, tile);
    vstd::arithmetic::div_mod::lemma_mod_bound(s, tile);
    assert(0 <= q <= len) by (nonlinear_arith)
        requires
            s == tile * q + r,
            0 <= r < tile,
            s == len + tile - 1,
            len >= 0,
            tile >= 1,
    {}
}

/// The padded row stride is a multiple of 256, holds at least the row's
/// `width * 4` pixel bytes, and wastes less than one alignment unit.
pub proof fn lemma_padded_row_bytes_aligned(width: int)
    requires
        width >= 1,
    ensures
        spec_padded_row_bytes(width) % 256 == 0,
        spec_padded_row_bytes(width) >= width * 4,
        spec_padded_row_bytes(width) < width * 4 + 256,
{
    let b = width * 4;
    vstd::arithmetic::div_mod::lemma_fundamental_div_mod(b + 255, 256);
    let q = (b + 255) / 256;
    vstd::arithmetic::div_mod::lemma_mod_multiples_basic(q, 256);
}

/// Byte size of the readback buffer for a `width` x `height` image: one
/// padded row per image row.
pub open spec fn spec_output_buffer_size(width: int, height: int) -> int {
    height * spec_padded_row_bytes(width)
}

/// The tightly packed pixel bytes of a row-padded buffer: the leading
/// `width * 4` bytes of each `spec_padded_row_bytes(width)`-wide row,
/// concatenated in row order.
pub open spec fn spec_depad(buf: Seq<u8>, width: int, height: int) -> Seq<u8> {
    Seq::new(
        (height * (width * 4)) as nat,
        |i: int| buf[i / (width * 4) * spec_padded_row_bytes(width) + i % (width * 4)],
    )
}

/// `buf` is laid out as `packed` with each row widened to the padded stride:
/// the leading `width * 4` bytes of every padded row of `buf` are the
/// corresponding packed row of `packed`.
pub open spec fn row_padded_layout(buf: Seq<u8>, packed: Seq<u8>, width: int, height: int) -> bool {
    &&& buf.len() == spec_output_buffer_size(width, height)
    &&& packed.len() == height * (width * 4)
    &&& forall|r: int, c: int|
        0 <= r < height && 0 <= c < width * 4 ==> buf[r * spec_padded_row_bytes(width) + c]
            == #[trigger] packed[r * (width * 4) + c]
}

/// Depadding round-trip: a buffer laid out per the padded row stride, with
/// `packed` as its per-row pixel bytes, depads back to `packed` exactly.
pub proof fn lemma_depad_round_trip(buf: Seq<u8>, packed: Seq<u8>, width: int, height: int)
    requires
        width >= 1,
        height >= 0,
        row_padded_layout(buf, packed, width, height),
    ensures
        spec_depad(buf, width, height) == packed,
{
    let u = width * 4;
    let p = spec_padded_row_bytes(width);
    assert forall|i: int| 0 <= i < height * u implies spec_depad(buf, width, height)[i]
        == packed[i] by {
        let r = i / u;
        let c = i % u;
        vstd::arithmetic::div_mod::lemma_fundamental_div_mod(i, u);
        vstd::arithmetic::div_mod::lemma_mod_bound(i, u);
        assert(0 <= r < height && i == r * u + c) by (nonlinear_arith)
            requires
                i == u * r + c,
                0 <= c < u,
                0 <= i < height * u,
                u >= 4,
        {}
        assert(buf[r * p + c] == packed[r * u + c]);
    }
    assert(spec_depad(buf, width, height) =~= packed);
}

/// The host side of the readback is deterministic: any two depadding passes
/// over the same readback bytes yield byte-identical packed buffers. (Whether
/// two whole runs agree rests also on the kernel, which is opaque here.)
pub proof fn lemma_depad_deterministic(
    buf: Seq<u8>,
    width: int,
    height: int,
    first: Seq<u8>,
    second: Seq<u8>,
)
    requires
        first == spec_depad(buf, width, height),
        second == spec_depad(buf, width, height),
    ensures
        first == second,
{
}

/// Strip the alignment tail from every row of a readback buffer, keeping only
/// the leading `width * 4` pixel bytes of each row.
pub fn depad_rows(padded_data: &Vec<u8>, width: u32, height: u32) -> (r: Vec<u8>)
    requires
        width >= 1,
        width * 4 + 255 <= usize::MAX,
        padded_data@.len() == spec_output_buffer_size(width as int, height as int),
    ensures
        r@ == spec_depad(padded_data@, width as int, height as int),
        r@.len() == height * (width * 4),
{
    let unpadded: usize = width as usize * 4;
    let padded_row: usize = padded_bytes_per_row(width);
    let total: usize = padded_data.len();
    proof {
        lemma_padded_row_bytes_aligned(width as int);
    }
    let mut pixels: Vec<u8> = Vec::new();
    let mut row: usize = 0;
    while row < height as usize
        invariant
            0 <= row <= height,
            unpadded == width * 4,
            unpadded >= 4,
            padded_row == spec_padded_row_bytes(width as int),
            padded_row >= unpadded,
            total == padded_data@.len(),
            padded_data@.len() == height * padded_row,
            pixels@.len() == row * unpadded,
            forall|i: int|
                0 <= i < pixels@.len() ==> pixels@[i] == padded_data@[i / (unpadded as int)
                    * (padded_row as int) + i % (unpadded as int)],
        decreases height - row,
    {
        proof {
            assert((row + 1) * padded_row <= height * padded_row && (row + 1) * unpadded <= height
                * padded_row && row * padded_row + padded_row == (row + 1) * padded_row && row
                * unpadded + unpadded == (row + 1) * unpadded) by (nonlinear_arith)
                requires
                    0 <= row < height,
                    4 <= unpadded <= padded_row,
            {}
        }
        let row_base: usize = row * padded_row;
        let mut col: usize = 0;
        while col < unpadded
            invariant
                0 <= col <= unpadded,
                0 <= row < height,
                unpadded == width * 4,
                unpadded >= 4,
                padded_row == spec_padded_row_bytes(width as int),
                padded_row >= unpadded,
                total == padded_data@.len(),
                padded_data@.len() == height * padded_row,
                row_base == row * padded_row,
                row_base + padded_row <= padded_data@.len(),
                (row + 1) * unpadded <= padded_data@.len(),
                pixels@.len() == row * unpadded + col,
                forall|i: int|
                    0 <= i < pixels@.len() ==> pixels@[i] == padded_data@[i / (unpadded as int)
                        * (padded_row as int) + i % (unpadded as int)],
            decreases unpadded - col,
        {
            let byte = padded_data[row_base + col];
            pixels.push(byte);
            proof {
                let i = (row * unpadded + col) as int;
                vstd::arithmetic::div_mod::lemma_fundamental_div_mod_converse(
                    i,
                    unpadded as int,
                    row as int,
                    col as int,
                );
            }
            col = col + 1;
        }
        row = row + 1;
    }
    proof {
        assert forall|i: int| 0 <= i < pixels@.len() implies pixels@[i] == spec_depad(
            padded_data@,
            width as int,
            height as int,
        )[i] by {}
        assert(pixels@ =~= spec_depad(padded_data@, width as int, height as int));
    }
    pixels
}

/// A grid of `spec_grid_dim(len, tile)` tiles covers the span: it reaches at
/// least `len`, and one tile fewer would fall short.
pub proof fn lemma_grid_covers(len: int, tile: int)
    requires
        len >= 1,
        tile >= 1,
    ensures
        spec_grid_dim(len, tile) * tile >= len,
        (spec_grid_dim(len, tile) - 1) * tile < len,
{
    let s = len + tile - 1;
    let q = s / tile;
    let r = s % tile;
    vstd::arithmetic::div_mod::lemma_fundamental_div_mod(s, tile);
    vstd::arithmetic::div_mod::lemma_mod_bound(s, tile);
    assert(q * tile >= len && (q - 1) * tile < len) by (nonlinear_arith)
        requires
            s == tile * q + r,
            0 <= r < tile,
            s == len + tile - 1,
    {}
}

} // verus!
