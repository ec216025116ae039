//! The GPU readback step, CPU side: depadding of mapped buffers and the
//! gated write into the render-stage side of the cross-stage channel.
//!
//! The host copies the render target into a CPU-mappable buffer whose rows
//! are padded to the GPU's minimum row alignment, maps it, and hands the
//! mapped bytes to `store_in_img`. This module strips the row padding and
//! stores the compact frame in the producer slot of the channel — but only
//! when the consuming stage has requested a refresh; otherwise the frame is
//! discarded.

use crate::channel::ExtractableImages;
use vstd::prelude::*;

verus! {

/// Per-capture settings of a capture entity. The current design has none:
/// every active capture copies its target once per rendered frame.
#[derive(Clone, Copy)]
pub struct ImageExportSettings;

/// The capture entity a task spawns when it starts rendering: an opaque
/// entity handle together with the handle of the render target whose pixels
/// the readback step must copy. Back-pressure keeps at most one capture
/// under way at a time, so at most one of these is actively copied from.
#[derive(Clone, Copy)]
pub struct ImageExportBundle {
    /// Entity handle of the spawned capture entity.
    pub id: u64,
    /// Handle of the render target to copy each frame.
    pub source: u64,
    /// Settings of this capture.
    pub settings: ImageExportSettings,
}

/// The compact frame held in a mapped buffer of `rows` rows, each padded to
/// `padded_bytes_per_row` bytes of which the first `bytes_per_row` carry
/// pixels: row `i` of the result is the first `bytes_per_row` bytes of
/// padded row `i`.
pub open spec fn depadded(
    padded: Seq<u8>,
    bytes_per_row: nat,
    padded_bytes_per_row: nat,
    rows: nat,
) -> Seq<u8> {
    Seq::new(
        rows * bytes_per_row,
        |k: int|
            padded[(k / bytes_per_row as int) * padded_bytes_per_row as int + k
                % bytes_per_row as int],
    )
}

/// Strips row padding: keeps the first `bytes_per_row` bytes of each of the
/// `rows` padded rows, in order. Total for empty images: zero rows or zero
/// row bytes give the empty buffer.
pub fn depad_rows(
    padded: &Vec<u8>,
    bytes_per_row: usize,
    padded_bytes_per_row: usize,
    rows: usize,
) -> (r: Vec<u8>)
    requires
        bytes_per_row <= padded_bytes_per_row,
        rows * padded_bytes_per_row <= padded@.len(),
    ensures
        r@ == depadded(padded@, bytes_per_row as nat, padded_bytes_per_row as nat, rows as nat),
{
    let ghost goal = depadded(
        padded@,
        bytes_per_row as nat,
        padded_bytes_per_row as nat,
        rows as nat,
    );
    let n: usize = padded.len();
    let mut r: Vec<u8> = Vec::new();
    let mut i: usize = 0;
    while i < rows
        invariant
            i <= rows,
            bytes_per_row <= padded_bytes_per_row,
            n == padded@.len(),
            rows * padded_bytes_per_row <= n,
            r@.len() == i * bytes_per_row,
            goal == depadded(
                padded@,
                bytes_per_row as nat,
                padded_bytes_per_row as nat,
                rows as nat,
            ),
            forall|k: int| 0 <= k < r@.len() ==> r@[k] == goal[k],
        decreases rows - i,
    {
        proof {
            assert(i * padded_bytes_per_row + padded_bytes_per_row <= rows * padded_bytes_per_row
                && i * bytes_per_row + bytes_per_row <= rows * bytes_per_row
                && i * bytes_per_row + bytes_per_row <= i * padded_bytes_per_row
                + padded_bytes_per_row) by (nonlinear_arith)
                requires
                    i < rows,
                    bytes_per_row <= padded_bytes_per_row,
            ;
        }
        let row_start: usize = i * padded_bytes_per_row;
        let mut j: usize = 0;
        while j < bytes_per_row
            invariant
                i < rows,
                j <= bytes_per_row,
                bytes_per_row <= padded_bytes_per_row,
                n == padded@.len(),
                rows * padded_bytes_per_row <= n,
                row_start == i * padded_bytes_per_row,
                row_start + bytes_per_row <= n,
                r@.len() == i * bytes_per_row + j,
                i * bytes_per_row + bytes_per_row <= rows * bytes_per_row,
                goal == depadded(
                    padded@,
                    bytes_per_row as nat,
                    padded_bytes_per_row as nat,
                    rows as nat,
                ),
                forall|k: int| 0 <= k < r@.len() ==> r@[k] == goal[k],
            decreases bytes_per_row - j,
        {
            let ghost k = r@.len() as int;
            r.push(padded[row_start + j]);
            proof {
                assert(k / bytes_per_row as int == i && k % bytes_per_row as int == j)
                    by (nonlinear_arith)
                    requires
                        k == i * bytes_per_row + j,
                        0 <= j < bytes_per_row,
                        0 <= i,
                ;
                assert(k < rows * bytes_per_row);
                assert(r@[k] == goal[k]);
            }
            j = j + 1;
        }
        proof {
            assert((i + 1) * bytes_per_row == i * bytes_per_row + bytes_per_row)
                by (nonlinear_arith);
        }
        i = i + 1;
    }
    proof {
        assert(r@ =~= goal);
    }
    r
}

/// The readback step's write into the channel. Depads the mapped bytes and
/// stores the compact frame in the render-stage (producer) slot — only when
/// the consuming stage has requested a refresh; without a request the frame
/// is discarded and the channel is untouched. The refresh flag itself is
/// left as it is: it is cleared by the boundary step on delivery.
pub fn store_in_img(
    mapped: &Vec<u8>,
    bytes_per_row: usize,
    padded_bytes_per_row: usize,
    rows: usize,
    render_side: &mut ExtractableImages,
)
    requires
        bytes_per_row <= padded_bytes_per_row,
        rows * padded_bytes_per_row <= mapped@.len(),
    ensures
        final(render_side)@.refresh == old(render_side)@.refresh,
        old(render_side)@.refresh ==> final(render_side)@.raw == depadded(
            mapped@,
            bytes_per_row as nat,
            padded_bytes_per_row as nat,
            rows as nat,
        ),
        !old(render_side)@.refresh ==> final(render_side)@.raw == old(render_side)@.raw,
{
    if !render_side.refresh {
        return ;
    }
    render_side.raw = depad_rows(mapped, bytes_per_row, padded_bytes_per_row, rows);
}

} // verus!
