use fractalgen::fractal::fractal_pixel;
use fractalgen::Rgb;

/// The per-pixel colour computed independently of the library: the same
/// affine coordinate mapping and the same escape loop, written directly over
/// `f32` and `num_complex::Complex`.
fn reference_pixel(x: u32, y: u32) -> (u8, u8, u8) {
    let width: u32 = 800;
    let height: u32 = 800;
    let scale_x: f32 = 3.0 / width as f32;
    let scale_y: f32 = 3.0 / height as f32;
    let red: u8 = (0.3 * x as f32) as u8;
    let blue: u8 = (0.3 * y as f32) as u8;
    let cx: f32 = y as f32 * scale_x - 1.5;
    let cy: f32 = x as f32 * scale_y - 1.5;
    let c = num_complex::Complex::new(-0.4_f32, 0.6_f32);
    let mut z = num_complex::Complex::new(cx, cy);
    let mut green: u8 = 0;
    while green < 255 && z.norm() <= 2.0 {
        z = z * z + c;
        green += 1;
    }
    (red, green, blue)
}

#[test]
fn origin_pixel_escapes_immediately() {
    // At (0, 0) the sample is -1.5 - 1.5i, whose norm already exceeds the
    // escape radius, so the loop never runs.
    let p: Rgb = fractal_pixel(0, 0);
    assert_eq!(p.red, 0);
    assert_eq!(p.green, 0);
    assert_eq!(p.blue, 0);
    let (r, g, b) = reference_pixel(0, 0);
    assert_eq!((p.red, p.green, p.blue), (r, g, b));
}

#[test]
fn centre_pixel_matches_hand_iteration() {
    // At (400, 400) the sample is exactly the origin; iterating
    // z * z + (-0.4 + 0.6i) from zero escapes after 26 steps.
    let p: Rgb = fractal_pixel(400, 400);
    assert_eq!(p.red, 120);
    assert_eq!(p.green, 26);
    assert_eq!(p.blue, 120);
    let (r, g, b) = reference_pixel(400, 400);
    assert_eq!((p.red, p.green, p.blue), (r, g, b));
}

#[test]
fn known_pixels_exact() {
    assert_eq!(fractal_pixel(250, 420).green, 17);
    assert_eq!(fractal_pixel(600, 600).green, 2);
    assert_eq!(fractal_pixel(799, 0), Rgb { red: 239, green: 0, blue: 0 });
    assert_eq!(fractal_pixel(0, 799), Rgb { red: 0, green: 0, blue: 239 });
}

#[test]
fn sampled_pixels_match_reference() {
    let mut y: u32 = 0;
    while y < 800 {
        let mut x: u32 = 3;
        while x < 800 {
            let p: Rgb = fractal_pixel(x, y);
            let (r, g, b) = reference_pixel(x, y);
            assert_eq!((p.red, p.green, p.blue), (r, g, b));
            x += 97;
        }
        y += 89;
    }
    // A pixel whose escape loop runs to the iteration cap.
    let p: Rgb = fractal_pixel(455, 147);
    let (r, g, b) = reference_pixel(455, 147);
    assert_eq!((p.red, p.green, p.blue), (r, g, b));
}

#[test]
fn pixels_are_deterministic() {
    let mut y: u32 = 5;
    while y < 800 {
        let mut x: u32 = 11;
        while x < 800 {
            let first: Rgb = fractal_pixel(x, y);
            let second: Rgb = fractal_pixel(x, y);
            assert_eq!(first, second);
            x += 131;
        }
        y += 127;
    }
}

#[test]
fn green_never_exceeds_cap() {
    let mut x: u32 = 0;
    while x < 800 {
        let p: Rgb = fractal_pixel(x, 455);
        assert!(u32::from(p.green) <= 255);
        let (_, g, _) = reference_pixel(x, 455);
        assert_eq!(p.green, g);
        x += 37;
    }
}

#[test]
fn red_monotone_in_column_blue_monotone_in_row() {
    let mut previous_red: u8 = 0;
    let mut previous_blue: u8 = 0;
    let mut i: u32 = 0;
    while i < 800 {
        let along_row: Rgb = fractal_pixel(i, 0);
        assert!(along_row.red >= previous_red);
        previous_red = along_row.red;
        let along_column: Rgb = fractal_pixel(0, i);
        assert!(along_column.blue >= previous_blue);
        previous_blue = along_column.blue;
        i += 1;
    }
    assert_eq!(previous_red, 239);
    assert_eq!(previous_blue, 239);
}
