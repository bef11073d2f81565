//! Row layout of GPU transfer buffers.
//!
//! A texture-to-buffer copy must use a row pitch that is a multiple of 256
//! bytes, so a readback staging buffer holds each row of `4 * width` pixel
//! bytes padded up to that alignment. [`compact_rows`] strips the padding
//! again, yielding the tight `4 * width * height` layout every
//! [`crate::pixel::PixelImage`] uses.

use vstd::arithmetic::div_mod::lemma_fundamental_div_mod_converse;
use vstd::prelude::*;

verus! {

/// The row pitch a texture-to-buffer copy must align to, in bytes.
pub const COPY_ROW_ALIGNMENT: u32 = 256;

/// `4 * width` rounded up to the copy row alignment.
pub open spec fn spec_padded_row(width: u16) -> int {
    ((4 * width + 255) / 256) * 256
}

/// The source index in a row-padded buffer of byte `i` of the tight
/// layout: row `i / row_bytes`, byte `i % row_bytes` of that row.
pub open spec fn padded_index(row_bytes: int, padded_bytes: int, i: int) -> int {
    (i / row_bytes) * padded_bytes + (i % row_bytes)
}

/// The tight `rows * row_bytes` layout read out of a buffer whose rows are
/// `padded_bytes` apart.
pub open spec fn compact_rows_spec(
    bytes: Seq<u8>,
    row_bytes: int,
    padded_bytes: int,
    rows: int,
) -> Seq<u8> {
    Seq::new((row_bytes * rows) as nat, |i: int| bytes[padded_index(row_bytes, padded_bytes, i)])
}

/// The padded row pitch is aligned, is at least the tight row, exceeds it
/// by less than one alignment unit, and stays positive.
pub proof fn lemma_padded_row_bounds(width: u16)
    requires
        width >= 1,
    ensures
        spec_padded_row(width) % 256 == 0,
        spec_padded_row(width) % 4 == 0,
        4 * width <= spec_padded_row(width) < 4 * width + 256,
{
    let t = 4 * (width as int);
    assert(((t + 255) / 256) * 256 % 256 == 0 && ((t + 255) / 256) * 256 % 4 == 0 && t <= ((t
        + 255) / 256) * 256 < t + 256) by (nonlinear_arith)
        requires
            t >= 4,
    ;
}

/// For a width within the device's texture-side limit the padded row pitch
/// is at most `32768` bytes.
pub proof fn lemma_padded_row_limit(width: u16)
    requires
        1 <= width <= 8192,
    ensures
        spec_padded_row(width) <= 32768,
{
    lemma_padded_row_bounds(width);
}

/// A padded readback buffer of a texture within the device's limits is
/// positive, a multiple of 4, and within the device's buffer size limit.
pub proof fn lemma_padded_size(width: u16, height: u16)
    requires
        1 <= width <= 8192,
        1 <= height <= 8192,
    ensures
        0 < spec_padded_row(width) * height <= 0x10000000,
        (spec_padded_row(width) * height) % 4 == 0,
{
    lemma_padded_row_bounds(width);
    lemma_padded_row_limit(width);
    let p = spec_padded_row(width);
    vstd::arithmetic::div_mod::lemma_fundamental_div_mod(p, 4);
    let q = p / 4;
    assert(p == 4 * q);
    assert(p * (height as int) == (q * (height as int)) * 4) by (nonlinear_arith)
        requires
            p == 4 * q,
    ;
    vstd::arithmetic::div_mod::lemma_mod_multiples_basic(q * (height as int), 4);
    assert(0 < p * (height as int) <= 0x10000000) by (nonlinear_arith)
        requires
            4 <= p <= 32768,
            1 <= height <= 8192,
    ;
}

/// Compute the padded row pitch of a `width`-pixel row.
pub fn padded_row_bytes(width: u16) -> (r: u32)
    requires
        width >= 1,
    ensures
        r == spec_padded_row(width),
{
    let tight: u32 = 4 * (width as u32);
    ((tight + 255) / 256) * 256
}

/// Strip the row padding of a readback buffer: keep the first `row_bytes`
/// bytes of each of the `rows` rows that lie `padded_bytes` apart.
pub fn compact_rows(bytes: &Vec<u8>, row_bytes: u32, padded_bytes: u32, rows: u32) -> (out: Vec<
    u8,
>)
    requires
        1 <= row_bytes <= padded_bytes,
        rows >= 1,
        bytes@.len() == (padded_bytes as int) * (rows as int),
    ensures
        out@.len() == (row_bytes as int) * (rows as int),
        out@ == compact_rows_spec(bytes@, row_bytes as int, padded_bytes as int, rows as int),
{
    let ghost target = compact_rows_spec(
        bytes@,
        row_bytes as int,
        padded_bytes as int,
        rows as int,
    );
    proof {
        assert((row_bytes as int) * (rows as int) >= 0 && (row_bytes as int) * (rows as int) <= (
        padded_bytes as int) * (rows as int)) by (nonlinear_arith)
            requires
                1 <= row_bytes <= padded_bytes,
                rows >= 1,
        ;
    }
    let mut out: Vec<u8> = Vec::new();
    let mut r: u32 = 0;
    while r < rows
        invariant
            0 <= r <= rows,
            1 <= row_bytes <= padded_bytes,
            rows >= 1,
            bytes@.len() == (padded_bytes as int) * (rows as int),
            target == compact_rows_spec(
                bytes@,
                row_bytes as int,
                padded_bytes as int,
                rows as int,
            ),
            out@.len() == (row_bytes as int) * (r as int),
            forall|k: int| 0 <= k < out@.len() ==> out@[k] == target[k],
        decreases rows - r,
    {
        let mut j: u32 = 0;
        while j < row_bytes
            invariant
                0 <= j <= row_bytes,
                0 <= r < rows,
                1 <= row_bytes <= padded_bytes,
                bytes@.len() == (padded_bytes as int) * (rows as int),
                target == compact_rows_spec(
                    bytes@,
                    row_bytes as int,
                    padded_bytes as int,
                    rows as int,
                ),
                out@.len() == (row_bytes as int) * (r as int) + j,
                forall|k: int| 0 <= k < out@.len() ==> out@[k] == target[k],
            decreases row_bytes - j,
        {
            let ghost k = (row_bytes as int) * (r as int) + (j as int);
            proof {
                assert(k == (r as int) * (row_bytes as int) + (j as int)) by (nonlinear_arith)
                    requires
                        k == (row_bytes as int) * (r as int) + (j as int),
                ;
                lemma_fundamental_div_mod_converse(k, row_bytes as int, r as int, j as int);
                assert((r as int) * (padded_bytes as int) + (j as int) < (padded_bytes as int) * (
                rows as int) && 0 <= (r as int) * (padded_bytes as int) && k < (row_bytes as int)
                    * (rows as int) && 0 <= k) by (nonlinear_arith)
                    requires
                        0 <= r < rows,
                        0 <= j < row_bytes,
                        row_bytes <= padded_bytes,
                        k == (row_bytes as int) * (r as int) + (j as int),
                ;
            }
            let len: usize = bytes.len();
            let src64: u64 = (r as u64) * (padded_bytes as u64) + (j as u64);
            assert(src64 < len);
            let b = bytes[src64 as usize];
            out.push(b);
            proof {
                assert(target[k] == bytes@[(k / (row_bytes as int)) * (padded_bytes as int) + (k
                    % (row_bytes as int))]);
            }
            j = j + 1;
        }
        proof {
            assert((row_bytes as int) * ((r as int) + 1) == (row_bytes as int) * (r as int) + (
            row_bytes as int)) by (nonlinear_arith);
        }
        r = r + 1;
    }
    proof {
        assert(out@ =~= target);
    }
    out
}

/// Law: when the rows are already tight the compaction is the identity.
pub proof fn lemma_compact_tight_identity(bytes: Seq<u8>, row_bytes: int, rows: int)
    requires
        row_bytes >= 1,
        rows >= 0,
        bytes.len() == row_bytes * rows,
    ensures
        compact_rows_spec(bytes, row_bytes, row_bytes, rows) == bytes,
{
    assert forall|i: int| 0 <= i < bytes.len() implies compact_rows_spec(
        bytes,
        row_bytes,
        row_bytes,
        rows,
    )[i] == bytes[i] by {
        assert((i / row_bytes) * row_bytes + (i % row_bytes) == i) by {
            vstd::arithmetic::div_mod::lemma_fundamental_div_mod(i, row_bytes);
            assert((i / row_bytes) * row_bytes == row_bytes * (i / row_bytes)) by (nonlinear_arith);
        }
    }
    assert(compact_rows_spec(bytes, row_bytes, row_bytes, rows) =~= bytes);
}

} // verus!
