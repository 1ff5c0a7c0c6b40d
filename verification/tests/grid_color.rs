use complex_numbers::CompNum;
use mandelbrot::color::{color_for, PixelColor};
use mandelbrot::escape::mandelbrot;
use mandelbrot::grid::{pixel_coord, render_grid, GridConfig, GridError};

fn reference_config() -> GridConfig {
    GridConfig {
        lo: CompNum::from(-2.1, -1.2),
        hi: CompNum::from(0.6, 1.2),
        width: 4,
        height: 3,
        budget: 10,
    }
}

#[test]
fn grid_covers_every_pixel_once() {
    let cfg = reference_config();
    let samples = render_grid(&cfg).unwrap();
    assert_eq!(samples.len(), 12);
    for k in 0usize..12 {
        let s = &samples[k];
        assert_eq!(s.px as usize, k % 4);
        assert_eq!(s.py as usize, k / 4);
    }
}

#[test]
fn grid_coordinates_match_affine_recomputation() {
    let cfg = reference_config();
    let samples = render_grid(&cfg).unwrap();
    let step_x: f64 = (0.6 - -2.1) / 4.0;
    let step_y: f64 = (1.2 - -1.2) / 3.0;
    for s in &samples {
        let x: f64 = -2.1 + step_x * (s.px as f64);
        let y: f64 = -1.2 + step_y * (s.py as f64);
        assert_eq!(s.c.a, x);
        assert_eq!(s.c.b, y);
    }
}

#[test]
fn grid_counts_and_colors_match_pipeline() {
    let cfg = reference_config();
    let samples = render_grid(&cfg).unwrap();
    for s in &samples {
        assert_eq!(s.count, mandelbrot(&s.c, 10));
        assert!(s.count <= 10);
        if s.count == 10 {
            assert_eq!(s.color, PixelColor::Sentinel);
        } else {
            assert_eq!(
                s.color,
                PixelColor::Band { count: s.count, budget: 10 }
            );
        }
    }
}

#[test]
fn pixel_coord_matches_sampled_coordinate() {
    let cfg = reference_config();
    let samples = render_grid(&cfg).unwrap();
    for s in &samples {
        let c = pixel_coord(&cfg, s.px, s.py);
        assert_eq!(c.a, s.c.a);
        assert_eq!(c.b, s.c.b);
    }
}

#[test]
fn degenerate_grid_is_rejected() {
    let mut cfg = reference_config();
    cfg.width = 0;
    assert_eq!(render_grid(&cfg).unwrap_err(), GridError::EmptyGrid);
    let mut cfg2 = reference_config();
    cfg2.height = 0;
    assert_eq!(render_grid(&cfg2).unwrap_err(), GridError::EmptyGrid);
}

#[test]
fn sentinel_color_for_exhausted_budget() {
    let budgets: [u32; 4] = [0, 1, 5, 100];
    for &budget in &budgets {
        assert_eq!(color_for(budget, budget), PixelColor::Sentinel);
    }
}

#[test]
fn banded_color_keeps_count_and_budget() {
    assert_eq!(
        color_for(3, 10),
        PixelColor::Band { count: 3, budget: 10 }
    );
    assert_eq!(
        color_for(0, 100),
        PixelColor::Band { count: 0, budget: 100 }
    );
}

#[test]
fn hues_grow_with_the_count() {
    let budget: u32 = 10;
    let mut prev: f64 = -1.0;
    for count in 0u32..10 {
        match color_for(count, budget) {
            PixelColor::Band { count: c, budget: b } => {
                let hue: f64 = c as f64 / b as f64;
                assert!(hue > prev);
                prev = hue;
            }
            _ => panic!("expected a banded color"),
        }
    }
}
