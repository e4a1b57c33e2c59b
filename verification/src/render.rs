use vstd::prelude::*;
use crate::mask::Mask;
use crate::mask::MaskCell;
use crate::palette::pixel_bytes;
use crate::palette::push_pixel;
use crate::params::NUM_COLOR_CHANNELS;
use crate::params::PALETTE_SCALE_FACTOR;

verus! {

/// Cap of the palette index range: the iteration cap times the oversampling
/// factor.
pub open spec fn scaled_cap(max_iterations: u32) -> int {
    max_iterations * PALETTE_SCALE_FACTOR
}

/// The bytes of a rendered mask: the pixels' four-byte groups, row-major.
pub open spec fn mask_bytes(cells: Seq<MaskCell>, max_iterations: u32, scaled_max: int) -> Seq<u8>
    decreases cells.len(),
{
    if cells.len() == 0 {
        Seq::empty()
    } else {
        mask_bytes(cells.drop_last(), max_iterations, scaled_max) + pixel_bytes(
            cells.last().iterations,
            cells.last().scaled,
            max_iterations,
            scaled_max,
        )
    }
}

/// Appending one cell appends that cell's four bytes.
proof fn lemma_mask_bytes_take_step(cells: Seq<MaskCell>, max_iterations: u32, scaled_max: int, k: int)
    requires
        0 <= k < cells.len(),
    ensures
        mask_bytes(cells.take(k + 1), max_iterations, scaled_max) == mask_bytes(
            cells.take(k),
            max_iterations,
            scaled_max,
        ) + pixel_bytes(cells[k].iterations, cells[k].scaled, max_iterations, scaled_max),
{
    assert(cells.take(k + 1).drop_last() =~= cells.take(k));
    assert(cells.take(k + 1).last() == cells[k]);
}

/// Renders a well-formed mask into its RGBA byte buffer.
pub fn render(mask: &Mask) -> (img: Vec<u8>)
    requires
        mask.wf(),
    ensures
        img@ == mask_bytes(mask.cells@, mask.max_iterations, scaled_cap(mask.max_iterations)),
        img@.len() == mask.cells@.len() * NUM_COLOR_CHANNELS,
        img@.len() == mask.side_length * mask.side_length * NUM_COLOR_CHANNELS,
{
    let scaled_max = (mask.max_iterations * PALETTE_SCALE_FACTOR) as usize;
    let total = mask.cells.len();
    let mut img: Vec<u8> = Vec::new();
    let mut k: usize = 0;
    while k < total
        invariant
            k <= total,
            total == mask.cells@.len(),
            scaled_max == scaled_cap(mask.max_iterations),
            forall|j: int|
                0 <= j < mask.cells@.len() ==> mask.cells@[j].iterations <= mask.max_iterations,
            img@ == mask_bytes(
                mask.cells@.take(k as int),
                mask.max_iterations,
                scaled_max as int,
            ),
        decreases total - k,
    {
        let cell = mask.cells[k];
        push_pixel(&mut img, cell.iterations, cell.scaled, mask.max_iterations, scaled_max);
        proof {
            lemma_mask_bytes_take_step(
                mask.cells@,
                mask.max_iterations,
                scaled_max as int,
                k as int,
            );
        }
        k += 1;
    }
    proof {
        assert(mask.cells@.take(total as int) =~= mask.cells@);
        crate::laws::lemma_mask_bytes_len(
            mask.cells@,
            mask.max_iterations,
            scaled_max as int,
        );
    }
    img
}

/// How the interior of a tile is to be resolved, given what the border
/// sampler found.
#[derive(Clone, Copy, Debug, PartialEq, Eq, Structural)]
pub enum InteriorPlan {
    /// Uniform border at the iteration cap: the whole tile lies inside the
    /// bounded set and is filled with the reference result.
    UniformBounded,
    /// Uniform border that escaped before the cap: interior magnitudes are
    /// interpolated between the row's border values.
    UniformEscaped,
    /// The borders disagree: every interior pixel is evaluated directly.
    FullEvaluation,
}

/// The interior-resolution branch: picks the shortcut exactly when the
/// border ring was uniform, and the cheap uniform fill exactly when the
/// shared border count is the iteration cap.
pub fn plan_interior(border_is_uniform: bool, ref_iterations: u32, max_iterations: u32) -> (r:
    InteriorPlan)
    ensures
        r == InteriorPlan::UniformBounded <==> border_is_uniform && ref_iterations
            == max_iterations,
        r == InteriorPlan::UniformEscaped <==> border_is_uniform && ref_iterations
            != max_iterations,
        r == InteriorPlan::FullEvaluation <==> !border_is_uniform,
{
    if border_is_uniform {
        if ref_iterations == max_iterations {
            InteriorPlan::UniformBounded
        } else {
            InteriorPlan::UniformEscaped
        }
    } else {
        InteriorPlan::FullEvaluation
    }
}

} // verus!
