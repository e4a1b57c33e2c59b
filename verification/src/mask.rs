use vstd::prelude::*;
use crate::params::NUM_COLOR_CHANNELS;
use crate::params::PALETTE_SCALE_FACTOR;
use crate::params::TileParams;

verus! {

/// Whether the flat row-major index `k` lies on the border ring of a
/// `side x side` grid: first or last row, or first or last column.
pub open spec fn is_border_index(k: int, side: int) -> bool {
    ||| k / side == 0
    ||| k / side == side - 1
    ||| k % side == 0
    ||| k % side == side - 1
}

/// Whether the flat index `k` lies on the border ring of the tile grid.
pub fn is_border(k: usize, side: usize) -> (r: bool)
    requires
        side >= 1,
    ensures
        r == is_border_index(k as int, side as int),
{
    let row = k / side;
    let col = k % side;
    row == 0 || row == side - 1 || col == 0 || col == side - 1
}

/// How a mask cell was obtained.
#[derive(Clone, Copy, Debug, PartialEq, Eq, Structural)]
pub enum CellKind {
    /// Directly computed by the escape evaluator.
    Exact,
    /// Magnitude interpolated between the row's border values; the iteration
    /// count was taken from the reference corner.
    Interpolated,
}

/// One evaluated sample handed in by the caller: the escape iteration count
/// and the palette index derived from the smoothed escape magnitude.
#[derive(Clone, Copy, Debug)]
pub struct EscapeCell {
    /// Iterations until escape, capped at the request's `max_iterations`.
    pub iterations: u32,
    /// Palette index: the smoothed escape value times `PALETTE_SCALE_FACTOR`.
    pub scaled: usize,
}

/// One resolved cell of the mask, tagged with how it was obtained.
#[derive(Clone, Copy, Debug)]
pub struct MaskCell {
    /// Iterations until escape, capped at the request's `max_iterations`.
    pub iterations: u32,
    /// Palette index: the smoothed escape value times `PALETTE_SCALE_FACTOR`.
    pub scaled: usize,
    /// Whether the cell is an exact sample or an interpolated one.
    pub kind: CellKind,
}

/// The per-pixel escape results of one tile request, row-major.
pub struct Mask {
    /// Pixels per tile side.
    pub side_length: usize,
    /// Cap on the escape-time iteration count.
    pub max_iterations: u32,
    /// `side_length * side_length` cells, row-major.
    pub cells: Vec<MaskCell>,
}

impl Mask {
    /// Every constructed mask satisfies this: one cell per pixel, and no
    /// cell's iteration count exceeds the cap.
    pub open spec fn wf(self) -> bool {
        &&& self.side_length >= 2
        &&& self.max_iterations * PALETTE_SCALE_FACTOR <= u32::MAX
        &&& self.side_length * self.side_length * NUM_COLOR_CHANNELS <= usize::MAX
        &&& self.cells@.len() == self.side_length * self.side_length
        &&& forall|k: int|
            0 <= k < self.cells@.len() ==> self.cells@[k].iterations <= self.max_iterations
    }

    /// The cell of pixel `(row, col)`.
    pub fn cell(&self, row: usize, col: usize) -> (c: MaskCell)
        requires
            self.wf(),
            row < self.side_length,
            col < self.side_length,
        ensures
            c == self.cells@[row * self.side_length + col],
    {
        proof {
            assert(row * self.side_length + col < self.side_length * self.side_length)
                by (nonlinear_arith)
                requires
                    row < self.side_length,
                    col < self.side_length,
            ;
        }
        self.cells[row * self.side_length + col]
    }

    /// The mask of a tile that lies entirely inside the bounded set: every
    /// cell holds the iteration cap, exactly.
    pub fn uniform_bounded(params: &TileParams) -> (m: Mask)
        requires
            params.wf(),
        ensures
            m.wf(),
            m.side_length == params.side_length,
            m.max_iterations == params.max_iterations,
            forall|k: int|
                0 <= k < m.cells@.len() ==> m.cells@[k].iterations == params.max_iterations
                    && m.cells@[k].scaled == 0 && m.cells@[k].kind == CellKind::Exact,
    {
        let total = params.area();
        let mut cells: Vec<MaskCell> = Vec::new();
        let mut k: usize = 0;
        while k < total
            invariant
                k <= total,
                cells@.len() == k,
                forall|j: int|
                    0 <= j < k ==> cells@[j].iterations == params.max_iterations
                        && cells@[j].scaled == 0 && cells@[j].kind == CellKind::Exact,
            decreases total - k,
        {
            cells.push(
                MaskCell { iterations: params.max_iterations, scaled: 0, kind: CellKind::Exact },
            );
            k += 1;
        }
        Mask { side_length: params.side_length, max_iterations: params.max_iterations, cells }
    }

    /// The mask of a tile whose every pixel was evaluated directly: the
    /// caller's samples are taken over unchanged and tagged exact.
    pub fn from_exact(params: &TileParams, samples: &Vec<EscapeCell>) -> (m: Mask)
        requires
            params.wf(),
            samples@.len() == params.spec_area(),
            forall|k: int|
                0 <= k < samples@.len() ==> samples@[k].iterations <= params.max_iterations,
        ensures
            m.wf(),
            m.side_length == params.side_length,
            m.max_iterations == params.max_iterations,
            m.cells@.len() == samples@.len(),
            forall|k: int|
                0 <= k < m.cells@.len() ==> m.cells@[k].iterations == samples@[k].iterations
                    && m.cells@[k].scaled == samples@[k].scaled && m.cells@[k].kind
                    == CellKind::Exact,
    {
        let total = params.area();
        let mut cells: Vec<MaskCell> = Vec::new();
        let mut k: usize = 0;
        while k < total
            invariant
                k <= total,
                total == samples@.len(),
                cells@.len() == k,
                forall|j: int|
                    0 <= j < samples@.len() ==> samples@[j].iterations <= params.max_iterations,
                forall|j: int|
                    0 <= j < k ==> cells@[j].iterations == samples@[j].iterations
                        && cells@[j].scaled == samples@[j].scaled && cells@[j].kind
                        == CellKind::Exact,
            decreases total - k,
        {
            let s = samples[k];
            cells.push(MaskCell { iterations: s.iterations, scaled: s.scaled, kind: CellKind::Exact });
            k += 1;
        }
        Mask { side_length: params.side_length, max_iterations: params.max_iterations, cells }
    }

    /// The mask of a tile whose border ring escaped uniformly before the
    /// cap: border cells keep their exact samples, interior cells take the
    /// reference iteration count and the caller's interpolated palette
    /// indices, and are tagged interpolated.
    pub fn uniform_escaped(
        params: &TileParams,
        ref_iterations: u32,
        samples: &Vec<EscapeCell>,
    ) -> (m: Mask)
        requires
            params.wf(),
            ref_iterations < params.max_iterations,
            samples@.len() == params.spec_area(),
            forall|k: int|
                0 <= k < samples@.len() && is_border_index(k, params.side_length as int)
                    ==> samples@[k].iterations == ref_iterations,
        ensures
            m.wf(),
            m.side_length == params.side_length,
            m.max_iterations == params.max_iterations,
            m.cells@.len() == samples@.len(),
            forall|k: int| 0 <= k < m.cells@.len() ==> m.cells@[k].iterations == ref_iterations,
            forall|k: int|
                0 <= k < m.cells@.len() ==> m.cells@[k].scaled == samples@[k].scaled,
            forall|k: int|
                0 <= k < m.cells@.len() ==> m.cells@[k].kind == (if is_border_index(
                    k,
                    params.side_length as int,
                ) {
                    CellKind::Exact
                } else {
                    CellKind::Interpolated
                }),
    {
        let total = params.area();
        let side = params.side_length;
        let mut cells: Vec<MaskCell> = Vec::new();
        let mut k: usize = 0;
        while k < total
            invariant
                k <= total,
                side == params.side_length,
                side >= 1,
                total == samples@.len(),
                cells@.len() == k,
                forall|j: int| 0 <= j < k ==> cells@[j].iterations == ref_iterations,
                forall|j: int| 0 <= j < k ==> cells@[j].scaled == samples@[j].scaled,
                forall|j: int|
                    0 <= j < k ==> cells@[j].kind == (if is_border_index(j, side as int) {
                        CellKind::Exact
                    } else {
                        CellKind::Interpolated
                    }),
            decreases total - k,
        {
            let kind = if is_border(k, side) {
                CellKind::Exact
            } else {
                CellKind::Interpolated
            };
            cells.push(MaskCell { iterations: ref_iterations, scaled: samples[k].scaled, kind });
            k += 1;
        }
        Mask { side_length: params.side_length, max_iterations: params.max_iterations, cells }
    }
}

/// Whether every border-ring sample has the reference iteration count.  A
/// uniform border predicts (but does not prove) a uniform interior, and is
/// what licenses the interior shortcut.
pub fn border_uniform(samples: &Vec<EscapeCell>, side: usize, reference: u32) -> (r: bool)
    requires
        side >= 2,
        samples@.len() == side * side,
    ensures
        r <==> forall|k: int|
            0 <= k < samples@.len() && is_border_index(k, side as int) ==> samples@[k].iterations
                == reference,
{
    let total = samples.len();
    let mut k: usize = 0;
    while k < total
        invariant
            k <= total,
            side >= 1,
            total == samples@.len(),
            forall|j: int|
                0 <= j < k && is_border_index(j, side as int) ==> samples@[j].iterations
                    == reference,
        decreases total - k,
    {
        if is_border(k, side) && samples[k].iterations != reference {
            return false;
        }
        k += 1;
    }
    true
}

} // verus!
