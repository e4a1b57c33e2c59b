use vstd::prelude::*;

verus! {

/// RGB triple of the TURBO perceptual gradient sampled at position `i` of
/// `n`.  Named rather than spelled out: the gradient is a fixed polynomial
/// table whose exact values only the palette crate defines.
pub uninterp spec fn turbo_rgb(i: int, n: int) -> (u8, u8, u8);

/// The palette index actually sampled: indices at or beyond the cap are
/// clamped to the last position, as the palette lookup itself does.
pub open spec fn clamped_index(i: int, n: int) -> int {
    if i < n {
        i
    } else {
        n - 1
    }
}

/// Relies on `colorous::Gradient::eval_rational` on the fixed `TURBO`
/// gradient: for `n >= 1` it clamps `i` to `n - 1` and returns a color that
/// is a fixed function of the two indices alone (a polynomial of
/// `i / (n - 1)`); it panics only on `n == 0`.
#[verifier::external_body]
fn turbo_color(i: usize, n: usize) -> (r: (u8, u8, u8))
    requires
        n >= 1,
    ensures
        r == turbo_rgb(clamped_index(i as int, n as int), n as int),
{
    let c = colorous::TURBO.eval_rational(i, n);
    (c.r, c.g, c.b)
}

/// The four bytes of one pixel.  A point that reached the iteration cap lies
/// inside the set and is opaque black; an escaped point takes the palette
/// color at its pre-scaled index.  Alpha is always 255.
pub open spec fn pixel_bytes(iterations: u32, scaled: usize, max_iterations: u32, scaled_max: int) -> Seq<
    u8,
> {
    if iterations == max_iterations {
        seq![0u8, 0u8, 0u8, 255u8]
    } else {
        let c = turbo_rgb(clamped_index(scaled as int, scaled_max), scaled_max);
        seq![c.0, c.1, c.2, 255u8]
    }
}

/// Appends the four bytes of one pixel to the image buffer.
pub fn push_pixel(
    img: &mut Vec<u8>,
    iterations: u32,
    scaled: usize,
    max_iterations: u32,
    scaled_max: usize,
)
    requires
        iterations != max_iterations ==> scaled_max >= 1,
    ensures
        final(img)@ == old(img)@ + pixel_bytes(
            iterations,
            scaled,
            max_iterations,
            scaled_max as int,
        ),
{
    if iterations == max_iterations {
        img.push(0);
        img.push(0);
        img.push(0);
        img.push(255);
        assert(img@ =~= old(img)@ + pixel_bytes(
            iterations,
            scaled,
            max_iterations,
            scaled_max as int,
        ));
    } else {
        let (r, g, b) = turbo_color(scaled, scaled_max);
        img.push(r);
        img.push(g);
        img.push(b);
        img.push(255);
        assert(img@ =~= old(img)@ + pixel_bytes(
            iterations,
            scaled,
            max_iterations,
            scaled_max as int,
        ));
    }
}

} // verus!
