use mandelbrot::plan_interior;
use mandelbrot::render;
use mandelbrot::EscapeCell;
use mandelbrot::InteriorPlan;
use mandelbrot::Mask;
use mandelbrot::TileParams;
use mandelbrot::PALETTE_SCALE_FACTOR;

#[test]
fn plan_picks_the_bounded_shortcut_only_at_the_cap() {
    assert_eq!(plan_interior(true, 100, 100), InteriorPlan::UniformBounded);
    assert_eq!(plan_interior(true, 99, 100), InteriorPlan::UniformEscaped);
    assert_eq!(plan_interior(false, 100, 100), InteriorPlan::FullEvaluation);
    assert_eq!(plan_interior(false, 7, 100), InteriorPlan::FullEvaluation);
}

#[test]
fn bounded_tile_renders_as_interior_black() {
    let p = TileParams::new(200, 2, 8).unwrap();
    let m = Mask::uniform_bounded(&p);
    let img = render(&m);
    assert_eq!(img.len(), 8 * 8 * 4);
    for pixel in img.chunks(4) {
        assert_eq!(pixel, &[0, 0, 0, 255]);
    }
}

#[test]
fn rendered_length_is_four_bytes_per_pixel() {
    for side in [2usize, 3, 5, 16] {
        let p = TileParams::new(10, 2, side).unwrap();
        let m = Mask::uniform_bounded(&p);
        assert_eq!(render(&m).len(), side * side * 4);
    }
}

#[test]
fn escaped_pixels_take_the_turbo_palette_color() {
    let p = TileParams::new(100, 2, 2).unwrap();
    let scaled_max = (100 * PALETTE_SCALE_FACTOR) as usize;
    let samples = vec![
        EscapeCell { iterations: 3, scaled: 60 },
        EscapeCell { iterations: 7, scaled: 145 },
        EscapeCell { iterations: 100, scaled: 0 },
        EscapeCell { iterations: 0, scaled: 0 },
    ];
    let m = Mask::from_exact(&p, &samples);
    let img = render(&m);
    assert_eq!(img.len(), 16);

    let c0 = colorous::TURBO.eval_rational(60, scaled_max);
    assert_eq!(&img[0..4], &[c0.r, c0.g, c0.b, 255]);

    let c1 = colorous::TURBO.eval_rational(145, scaled_max);
    assert_eq!(&img[4..8], &[c1.r, c1.g, c1.b, 255]);

    // the cell at the iteration cap bypasses the palette: interior black
    assert_eq!(&img[8..12], &[0, 0, 0, 255]);

    let c3 = colorous::TURBO.eval_rational(0, scaled_max);
    assert_eq!(&img[12..16], &[c3.r, c3.g, c3.b, 255]);
    // the palette start is not black, so the escaped pixel differs from an
    // interior one
    assert_ne!(&img[12..15], &[0, 0, 0]);
}

#[test]
fn palette_index_beyond_the_cap_is_clamped() {
    let p = TileParams::new(10, 2, 2).unwrap();
    let scaled_max = (10 * PALETTE_SCALE_FACTOR) as usize;
    let samples = vec![
        EscapeCell { iterations: 1, scaled: usize::MAX },
        EscapeCell { iterations: 1, scaled: scaled_max },
        EscapeCell { iterations: 1, scaled: scaled_max - 1 },
        EscapeCell { iterations: 1, scaled: 0 },
    ];
    let m = Mask::from_exact(&p, &samples);
    let img = render(&m);
    let last = colorous::TURBO.eval_rational(scaled_max - 1, scaled_max);
    assert_eq!(&img[0..4], &[last.r, last.g, last.b, 255]);
    assert_eq!(&img[4..8], &[last.r, last.g, last.b, 255]);
    assert_eq!(&img[8..12], &[last.r, last.g, last.b, 255]);
    assert_ne!(&img[12..16], &img[8..12]);
}

#[test]
fn every_alpha_byte_is_opaque() {
    let p = TileParams::new(30, 2, 4).unwrap();
    let samples: Vec<EscapeCell> = (0..16)
        .map(|k| EscapeCell {
            iterations: (k as u32 * 7) % 31,
            scaled: 20 * k,
        })
        .collect();
    let m = Mask::from_exact(&p, &samples);
    let img = render(&m);
    assert_eq!(img.len(), 64);
    for (b, &byte) in img.iter().enumerate() {
        if b % 4 == 3 {
            assert_eq!(byte, 255, "alpha byte {}", b);
        }
    }
}

#[test]
fn provenance_tags_do_not_change_the_image() {
    let p = TileParams::new(40, 2, 4).unwrap();
    let samples: Vec<EscapeCell> = (0..16)
        .map(|k| EscapeCell { iterations: 6, scaled: 31 * k })
        .collect();
    let interpolated = Mask::uniform_escaped(&p, 6, &samples);
    let exact = Mask::from_exact(&p, &samples);
    assert_eq!(render(&interpolated), render(&exact));
}

#[test]
fn rendering_the_same_mask_twice_is_byte_identical() {
    let p = TileParams::new(25, 2, 5).unwrap();
    let samples: Vec<EscapeCell> = (0..25)
        .map(|k| EscapeCell {
            iterations: (k as u32) % 25,
            scaled: 13 * k + 1,
        })
        .collect();
    let m = Mask::from_exact(&p, &samples);
    let first = render(&m);
    let second = render(&m);
    assert_eq!(first, second);
}
