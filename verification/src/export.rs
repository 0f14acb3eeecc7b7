//! On-demand image export: turning a mapped, row-padded readback of the
//! accumulation buffer into unpadded pixel bytes.
//!
//! The GPU writes each texture row at a copy-aligned stride; the exported
//! image wants the rows back to back. An image is produced only when the
//! mapped range covers the whole padded buffer; otherwise no bytes are
//! emitted at all.

use crate::layout::BufferDimensions;
use vstd::prelude::*;

verus! {

/// The unpadded pixel bytes of the first `rows` rows of a row-padded
/// buffer: each row's first `unpadded` bytes, in row order.
pub open spec fn stripped_rows(data: Seq<u8>, padded: int, unpadded: int, rows: int) -> Seq<u8>
    decreases rows,
{
    if rows <= 0 {
        Seq::empty()
    } else {
        stripped_rows(data, padded, unpadded, rows - 1) + data.subrange(
            (rows - 1) * padded,
            (rows - 1) * padded + unpadded,
        )
    }
}

/// Stripping yields exactly `unpadded` bytes per row.
pub proof fn lemma_stripped_rows_len(data: Seq<u8>, padded: int, unpadded: int, rows: int)
    requires
        0 <= unpadded <= padded,
        rows >= 0,
        padded * rows <= data.len(),
    ensures
        stripped_rows(data, padded, unpadded, rows).len() == unpadded * rows,
    decreases rows,
{
    if rows > 0 {
        assert(padded * (rows - 1) + padded == padded * rows) by (nonlinear_arith);
        assert(0 <= (rows - 1) * padded && (rows - 1) * padded + unpadded <= data.len())
            by (nonlinear_arith)
            requires
                0 <= unpadded <= padded,
                rows >= 1,
                padded * rows <= data.len(),
        ;
        lemma_stripped_rows_len(data, padded, unpadded, rows - 1);
        assert(stripped_rows(data, padded, unpadded, rows).len() == stripped_rows(
            data,
            padded,
            unpadded,
            rows - 1,
        ).len() + unpadded);
        assert(unpadded * (rows - 1) + unpadded == unpadded * rows) by (nonlinear_arith);
    } else {
        assert(unpadded * rows == 0) by (nonlinear_arith)
            requires
                rows == 0,
        ;
    }
}

/// Round trip: when every padded row of the readback starts with the
/// corresponding texture row, stripping the padding recovers exactly the
/// texture's bytes, row after row.
pub proof fn lemma_export_round_trip(data: Seq<u8>, rows: Seq<Seq<u8>>, padded: int, unpadded: int)
    requires
        0 <= unpadded <= padded,
        padded * rows.len() <= data.len(),
        forall|i: int| 0 <= i < rows.len() ==> (#[trigger] rows[i]).len() == unpadded,
        forall|i: int|
            0 <= i < rows.len() ==> data.subrange(i * padded, i * padded + unpadded)
                == #[trigger] rows[i],
    ensures
        stripped_rows(data, padded, unpadded, rows.len() as int) == rows.flatten(),
    decreases rows.len(),
{
    rows.lemma_flatten_and_flatten_alt_are_equivalent();
    if rows.len() == 0 {
        assert(stripped_rows(data, padded, unpadded, 0) =~= rows.flatten_alt());
    } else {
        let n = rows.len() as int;
        assert(padded * (n - 1) <= padded * n) by (nonlinear_arith)
            requires
                padded >= 0,
                n >= 1,
        ;
        lemma_export_round_trip(data, rows.drop_last(), padded, unpadded);
        rows.drop_last().lemma_flatten_and_flatten_alt_are_equivalent();
        assert(stripped_rows(data, padded, unpadded, n) == rows.drop_last().flatten_alt()
            + rows.last());
        assert(stripped_rows(data, padded, unpadded, n) == rows.flatten_alt());
    }
}

/// The unpadded image bytes of a mapped readback, or `None` when the mapped
/// range does not cover the full padded buffer: then no image is produced.
pub fn export_pixels(data: &Vec<u8>, dims: &BufferDimensions) -> (r: Option<Vec<u8>>)
    requires
        dims.unpadded_bytes_per_row <= dims.padded_bytes_per_row,
        dims.padded_bytes_per_row * dims.height <= u64::MAX,
    ensures
        (r is Some) <==> data@.len() == dims.padded_bytes_per_row * dims.height,
        r matches Some(img) ==> {
            &&& img@ == stripped_rows(
                data@,
                dims.padded_bytes_per_row as int,
                dims.unpadded_bytes_per_row as int,
                dims.height as int,
            )
            &&& img@.len() == dims.unpadded_bytes_per_row * dims.height
        },
{
    let expected: u64 = (dims.padded_bytes_per_row as u64) * (dims.height as u64);
    if (data.len() as u64) != expected {
        None
    } else {
        let padded: usize = dims.padded_bytes_per_row;
        let unpadded: usize = dims.unpadded_bytes_per_row;
        let height: usize = dims.height;
        let mut out: Vec<u8> = Vec::new();
        let mut row: usize = 0;
        while row < height
            invariant
                row <= height,
                unpadded <= padded,
                data@.len() == padded * height,
                data@.len() <= usize::MAX,
                out@ == stripped_rows(data@, padded as int, unpadded as int, row as int),
            decreases height - row,
        {
            assert(row * padded + padded <= padded * height) by (nonlinear_arith)
                requires
                    row < height,
                    padded >= 0,
            ;
            let base: usize = row * padded;
            let mut col: usize = 0;
            while col < unpadded
                invariant
                    col <= unpadded,
                    unpadded <= padded,
                    row < height,
                    data@.len() == padded * height,
                    data@.len() <= usize::MAX,
                    base == row * padded,
                    base + padded <= data@.len(),
                    out@ == stripped_rows(data@, padded as int, unpadded as int, row as int)
                        + data@.subrange(base as int, base as int + col),
                decreases unpadded - col,
            {
                out.push(data[base + col]);
                assert(out@ =~= stripped_rows(data@, padded as int, unpadded as int, row as int)
                    + data@.subrange(base as int, base as int + col + 1));
                col = col + 1;
            }
            proof {
                assert(out@ =~= stripped_rows(
                    data@,
                    padded as int,
                    unpadded as int,
                    row as int + 1,
                ));
            }
            row = row + 1;
        }
        proof {
            lemma_stripped_rows_len(data@, padded as int, unpadded as int, height as int);
        }
        Some(out)
    }
}

} // verus!
