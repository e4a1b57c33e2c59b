use vstd::prelude::*;

verus! {

/// Bytes per output pixel: red, green, blue, alpha.
pub const NUM_COLOR_CHANNELS: usize = 4;

/// Oversampling factor applied to the smoothed escape value before the
/// palette lookup, so that neighbouring iteration bands blend smoothly.
pub const PALETTE_SCALE_FACTOR: u32 = 20;

/// Why a tile request was rejected.
#[derive(Clone, Copy, Debug, PartialEq, Eq, Structural)]
pub enum TileError {
    /// `side_length < 2`: border sampling needs two distinct corners per edge.
    SideTooSmall,
    /// The pixel buffer of `side_length * side_length * NUM_COLOR_CHANNELS`
    /// bytes would not fit in `usize`.
    SideTooLarge,
    /// `exponent < 2`: the iteration `z <- z^exponent + c` degenerates.
    ExponentTooSmall,
    /// `max_iterations * PALETTE_SCALE_FACTOR` would overflow `u32`, so no
    /// palette index could be formed.
    MaxIterationsTooLarge,
}

/// Validated parameters of one tile request.
#[derive(Clone, Copy, Debug)]
pub struct TileParams {
    /// Cap on the escape-time iteration count.
    pub max_iterations: u32,
    /// Exponent of the iteration `z <- z^exponent + c`; at least 2.
    pub exponent: u32,
    /// Pixels per tile side; at least 2.
    pub side_length: usize,
}

impl TileParams {
    /// The requests that `new` accepts.
    pub open spec fn valid(max_iterations: u32, exponent: u32, side_length: usize) -> bool {
        &&& side_length >= 2
        &&& exponent >= 2
        &&& max_iterations * PALETTE_SCALE_FACTOR <= u32::MAX
        &&& side_length * side_length * NUM_COLOR_CHANNELS <= usize::MAX
    }

    /// A constructed value always satisfies this.
    pub open spec fn wf(self) -> bool {
        Self::valid(self.max_iterations, self.exponent, self.side_length)
    }

    /// Number of pixels in the tile.
    pub open spec fn spec_area(self) -> int {
        self.side_length * self.side_length
    }

    /// Validates a tile request, rejecting exactly the degenerate and
    /// overflowing ones.
    pub fn new(max_iterations: u32, exponent: u32, side_length: usize) -> (r: Result<
        TileParams,
        TileError,
    >)
        ensures
            r is Ok <==> Self::valid(max_iterations, exponent, side_length),
            (match r {
                Ok(p) => p.max_iterations == max_iterations && p.exponent == exponent
                    && p.side_length == side_length && p.wf(),
                Err(e) => match e {
                    TileError::SideTooSmall => side_length < 2,
                    TileError::ExponentTooSmall => side_length >= 2 && exponent < 2,
                    TileError::MaxIterationsTooLarge => side_length >= 2 && exponent >= 2
                        && max_iterations * PALETTE_SCALE_FACTOR > u32::MAX,
                    TileError::SideTooLarge => side_length >= 2 && exponent >= 2
                        && max_iterations * PALETTE_SCALE_FACTOR <= u32::MAX && side_length
                        * side_length * NUM_COLOR_CHANNELS > usize::MAX,
                },
            }),
    {
        if side_length < 2 {
            return Err(TileError::SideTooSmall);
        }
        if exponent < 2 {
            return Err(TileError::ExponentTooSmall);
        }
        if max_iterations > u32::MAX / PALETTE_SCALE_FACTOR {
            return Err(TileError::MaxIterationsTooLarge);
        }
        let area = match side_length.checked_mul(side_length) {
            Some(a) => a,
            None => {
                return Err(TileError::SideTooLarge);
            },
        };
        if area.checked_mul(NUM_COLOR_CHANNELS).is_none() {
            return Err(TileError::SideTooLarge);
        }
        Ok(TileParams { max_iterations, exponent, side_length })
    }

    /// Number of pixels in the tile.
    pub fn area(&self) -> (r: usize)
        requires
            self.wf(),
        ensures
            r == self.spec_area(),
    {
        self.side_length * self.side_length
    }
}

} // verus!
