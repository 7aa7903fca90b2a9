use spec_vis::raster::{render_indexed, RasterImage};
use spec_vis::srend::{get_color_stops, Color, ColorScheme, Gradient, GRADIENT_SIZE};

#[test]
fn test_color_new() {
    let color = Color::new(255, 128, 64);
    assert_eq!(color.r, 255);
    assert_eq!(color.g, 128);
    assert_eq!(color.b, 64);
}

#[test]
fn test_color_new_rgb() {
    let color = Color::new_rgb(0xFF8040);
    assert_eq!(color.r, 255);
    assert_eq!(color.g, 128);
    assert_eq!(color.b, 64);
}

#[test]
fn test_color_equality() {
    let color1 = Color::new(255, 128, 64);
    let color2 = Color::new(255, 128, 64);
    let color3 = Color::new(255, 128, 65);

    assert_eq!(color1, color2);
    assert_ne!(color1, color3);
}

#[test]
fn test_color_scheme_equality() {
    assert_eq!(ColorScheme::Oceanic, ColorScheme::Oceanic);
    assert_ne!(ColorScheme::Oceanic, ColorScheme::Grayscale);
}

#[test]
fn test_get_color_stops() {
    let oceanic_stops = get_color_stops(ColorScheme::Oceanic);
    assert_eq!(oceanic_stops.len(), 4);
    assert_eq!(oceanic_stops[0], Color::new_rgb(0x01041B));

    let grayscale_stops = get_color_stops(ColorScheme::Grayscale);
    assert_eq!(grayscale_stops.len(), 3);
    assert_eq!(grayscale_stops[0], Color::new_rgb(0x000000));
    assert_eq!(grayscale_stops[2], Color::new_rgb(0xffffff));
}

#[test]
fn test_all_color_schemes_have_stops() {
    let schemes = [
        ColorScheme::Oceanic,
        ColorScheme::Grayscale,
        ColorScheme::Inferno,
        ColorScheme::Viridis,
        ColorScheme::Synthwave,
        ColorScheme::Sunset,
    ];

    for scheme in schemes {
        let stops = get_color_stops(scheme);
        assert!(!stops.is_empty(), "Color scheme {:?} should have color stops", scheme);
    }
}

#[test]
fn test_gradient_single_color() {
    let gradient = Gradient::single(Color::new(255, 0, 0));

    assert_eq!(gradient.len(), GRADIENT_SIZE);
    assert_eq!(gradient.get(0), Color::new(255, 0, 0));
    assert_eq!(gradient.get(128), Color::new(255, 0, 0));
    assert_eq!(gradient.get(255), Color::new(255, 0, 0));
}

#[test]
fn test_gradient_from_colors() {
    // Exactly 256 entries are accepted and kept as given.
    let mut colors = Vec::new();
    for i in 0..256usize {
        colors.push(Color::new(i as u8, 0, 255 - i as u8));
    }
    let gradient = Gradient::from_colors(colors).unwrap();
    assert_eq!(gradient.len(), 256);
    assert_eq!(gradient.get(0), Color::new(0, 0, 255));
    assert_eq!(gradient.get(200), Color::new(200, 0, 55));

    // Any other size is refused.
    assert!(Gradient::from_colors(vec![Color::new(1, 2, 3); 255]).is_none());
    assert!(Gradient::from_colors(Vec::new()).is_none());
}

/// A gradient whose entry `i` is the color `(i, i, 2)`, so a pixel's
/// color names the index that produced it.
fn identity_gradient() -> Gradient {
    let mut colors = Vec::new();
    for i in 0..256usize {
        colors.push(Color::new(i as u8, i as u8, 2));
    }
    Gradient::from_colors(colors).unwrap()
}

#[test]
fn test_render_empty_matrix() {
    // An empty matrix renders as a blank image of exactly the
    // requested size, without panicking.
    let cells: Vec<Vec<u8>> = Vec::new();
    let gradient = identity_gradient();
    let img = render_indexed(&cells, 100, 100, &gradient);
    assert_eq!(img.width(), 100);
    assert_eq!(img.height(), 100);
    assert_eq!(img.pixel_data().len(), 100 * 100);
    for px in img.pixel_data() {
        assert_eq!(*px, Color::new(0, 0, 0));
    }
}

#[test]
fn test_render_known_matrix() {
    // Three columns of three bins rendered to 10 x 10: every output
    // column covers exactly one source column and every output row one
    // bin, all fixed by the resampling arithmetic.
    let cells: Vec<Vec<u8>> = vec![
        vec![0, 100, 200],
        vec![50, 150, 250],
        vec![10, 20, 30],
    ];
    let gradient = identity_gradient();
    let img = render_indexed(&cells, 10, 10, &gradient);
    assert_eq!(img.width(), 10);
    assert_eq!(img.height(), 10);

    // Source columns per output column x: 0..=3 -> 0, 4..=6 -> 1, 7..=9 -> 2.
    let col_of = [0usize, 0, 0, 0, 1, 1, 1, 2, 2, 2];
    // Source bin per output row y (row 0 is the top): 0..=2 -> 2,
    // 3..=5 -> 1, 6..=9 -> 0.
    let bin_of = [2usize, 2, 2, 1, 1, 1, 0, 0, 0, 0];
    for x in 0..10u32 {
        for y in 0..10u32 {
            let expected = cells[col_of[x as usize]][bin_of[y as usize]];
            assert_eq!(img.get_pixel(x, y), Color::new(expected, expected, 2));
        }
    }
}

#[test]
fn test_render_max_pool() {
    // Downscaling three columns to width 2: output column 1 covers the
    // source columns 1 and 2 and keeps their per-bin maximum.
    let cells: Vec<Vec<u8>> = vec![vec![7], vec![50], vec![10]];
    let gradient = identity_gradient();
    let img = render_indexed(&cells, 2, 1, &gradient);
    assert_eq!(img.get_pixel(0, 0), Color::new(7, 7, 2));
    assert_eq!(img.get_pixel(1, 0), Color::new(50, 50, 2));
}

#[test]
fn test_render_short_columns() {
    // Columns shorter than the first one contribute the background
    // index 0 for their missing rows instead of panicking.
    let cells: Vec<Vec<u8>> = vec![vec![5, 9], vec![6]];
    let gradient = identity_gradient();
    let img = render_indexed(&cells, 2, 2, &gradient);
    // x = 1 covers the short column; its bin-1 cell is missing.
    assert_eq!(img.get_pixel(1, 0), Color::new(0, 0, 2));
    assert_eq!(img.get_pixel(1, 1), Color::new(6, 6, 2));
    assert_eq!(img.get_pixel(0, 0), Color::new(9, 9, 2));
    assert_eq!(img.get_pixel(0, 1), Color::new(5, 5, 2));
}

#[test]
fn test_render_deterministic() {
    // Two renders of identical inputs are identical pixel for pixel.
    let cells: Vec<Vec<u8>> = vec![vec![1, 2, 3], vec![4, 5, 6], vec![250, 0, 128]];
    let gradient = identity_gradient();
    let a: RasterImage = render_indexed(&cells, 33, 17, &gradient);
    let b: RasterImage = render_indexed(&cells, 33, 17, &gradient);
    assert_eq!(a.width(), b.width());
    assert_eq!(a.height(), b.height());
    assert_eq!(a.pixel_data(), b.pixel_data());
}
