use vstd::prelude::*;
use crate::mask::MaskCell;
use crate::palette::pixel_bytes;
use crate::params::NUM_COLOR_CHANNELS;
use crate::render::mask_bytes;

verus! {

/// A rendered mask holds exactly four bytes per cell.
pub proof fn lemma_mask_bytes_len(cells: Seq<MaskCell>, max_iterations: u32, scaled_max: int)
    ensures
        mask_bytes(cells, max_iterations, scaled_max).len() == cells.len() * NUM_COLOR_CHANNELS,
    decreases cells.len(),
{
    if cells.len() > 0 {
        lemma_mask_bytes_len(cells.drop_last(), max_iterations, scaled_max);
    }
}

/// The layout is row-major, four bytes per pixel: the byte group of pixel
/// `p` is exactly that cell's pixel bytes.
pub proof fn lemma_mask_bytes_pixel(
    cells: Seq<MaskCell>,
    max_iterations: u32,
    scaled_max: int,
    p: int,
)
    requires
        0 <= p < cells.len(),
    ensures
        mask_bytes(cells, max_iterations, scaled_max).subrange(4 * p, 4 * p + 4) == pixel_bytes(
            cells[p].iterations,
            cells[p].scaled,
            max_iterations,
            scaled_max,
        ),
    decreases cells.len(),
{
    let s = mask_bytes(cells, max_iterations, scaled_max);
    let prefix = mask_bytes(cells.drop_last(), max_iterations, scaled_max);
    lemma_mask_bytes_len(cells.drop_last(), max_iterations, scaled_max);
    if p == cells.len() - 1 {
        assert(s.subrange(4 * p, 4 * p + 4) =~= pixel_bytes(
            cells[p].iterations,
            cells[p].scaled,
            max_iterations,
            scaled_max,
        ));
    } else {
        lemma_mask_bytes_pixel(cells.drop_last(), max_iterations, scaled_max, p);
        assert(s.subrange(4 * p, 4 * p + 4) =~= prefix.subrange(4 * p, 4 * p + 4));
    }
}

/// Rendering is deterministic and reads nothing but the samples: two masks
/// that agree on every cell's iteration count and palette index render byte
/// for byte alike, whatever their provenance tags.  Together with the
/// renderer's contract, identical requests give identical images.
pub proof fn lemma_mask_bytes_deterministic(
    a: Seq<MaskCell>,
    b: Seq<MaskCell>,
    max_iterations: u32,
    scaled_max: int,
)
    requires
        a.len() == b.len(),
        forall|k: int|
            0 <= k < a.len() ==> a[k].iterations == b[k].iterations && a[k].scaled == b[k].scaled,
    ensures
        mask_bytes(a, max_iterations, scaled_max) == mask_bytes(b, max_iterations, scaled_max),
    decreases a.len(),
{
    if a.len() > 0 {
        lemma_mask_bytes_deterministic(a.drop_last(), b.drop_last(), max_iterations, scaled_max);
    }
}

/// Every byte of a rendered mask is a byte, and every fourth one — the
/// alpha channel — is 255: the image is fully opaque.
pub proof fn lemma_mask_bytes_opaque(cells: Seq<MaskCell>, max_iterations: u32, scaled_max: int)
    ensures
        forall|b: int|
            0 <= b < mask_bytes(cells, max_iterations, scaled_max).len() ==> mask_bytes(
                cells,
                max_iterations,
                scaled_max,
            )[b] <= 255,
        forall|b: int|
            0 <= b < mask_bytes(cells, max_iterations, scaled_max).len() && b % 4 == 3
                ==> mask_bytes(cells, max_iterations, scaled_max)[b] == 255,
    decreases cells.len(),
{
    if cells.len() > 0 {
        let s = mask_bytes(cells, max_iterations, scaled_max);
        let prefix = mask_bytes(cells.drop_last(), max_iterations, scaled_max);
        lemma_mask_bytes_opaque(cells.drop_last(), max_iterations, scaled_max);
        lemma_mask_bytes_len(cells.drop_last(), max_iterations, scaled_max);
        assert forall|b: int| 0 <= b < s.len() && b % 4 == 3 implies s[b] == 255 by {
            if b < prefix.len() {
                assert(s[b] == prefix[b]);
            } else {
                assert(prefix.len() % 4 == 0);
                assert(b - prefix.len() == 3);
            }
        }
    }
}

/// A mask whose every cell sits at the iteration cap renders as pure
/// interior black: byte for byte, each pixel is (0, 0, 0, 255).
pub proof fn lemma_bounded_mask_black(cells: Seq<MaskCell>, max_iterations: u32, scaled_max: int)
    requires
        forall|k: int| 0 <= k < cells.len() ==> cells[k].iterations == max_iterations,
    ensures
        forall|b: int|
            0 <= b < mask_bytes(cells, max_iterations, scaled_max).len() ==> mask_bytes(
                cells,
                max_iterations,
                scaled_max,
            )[b] == (if b % 4 == 3 {
                255u8
            } else {
                0u8
            }),
    decreases cells.len(),
{
    if cells.len() > 0 {
        let s = mask_bytes(cells, max_iterations, scaled_max);
        let prefix = mask_bytes(cells.drop_last(), max_iterations, scaled_max);
        lemma_bounded_mask_black(cells.drop_last(), max_iterations, scaled_max);
        lemma_mask_bytes_len(cells.drop_last(), max_iterations, scaled_max);
        assert forall|b: int| 0 <= b < s.len() implies s[b] == (if b % 4 == 3 {
            255u8
        } else {
            0u8
        }) by {
            if b < prefix.len() {
                assert(s[b] == prefix[b]);
            } else {
                assert(prefix.len() % 4 == 0);
                assert(0 <= b - prefix.len() < 4);
            }
        }
    }
}

} // verus!
