use std::io::Cursor;

use fractalgen::fractal::fractal_pixel;
use fractalgen::fractal::render;
use fractalgen::Rgb;

#[test]
fn grid_has_the_fixed_dimensions() {
    let img: Vec<Rgb> = render();
    assert_eq!(img.len(), 800 * 800);
    // Row-major layout: the cell of pixel (x, y) stands at y * 800 + x.
    let corner: Rgb = img[0];
    assert_eq!(corner, fractal_pixel(0, 0));
    let centre: Rgb = img[400 * 800 + 400];
    assert_eq!(centre, fractal_pixel(400, 400));
    let last: Rgb = img[799 * 800 + 799];
    assert_eq!(last, fractal_pixel(799, 799));
}

#[test]
fn encoded_file_decodes_to_the_computed_pixels() {
    let img: Vec<Rgb> = render();
    let mut buffer = image::ImageBuffer::new(800, 800);
    for (x, y, pixel) in buffer.enumerate_pixels_mut() {
        let cell: Rgb = img[(y * 800 + x) as usize];
        *pixel = image::Rgb([cell.red, cell.green, cell.blue]);
    }
    let mut encoded: Vec<u8> = Vec::new();
    buffer
        .write_to(&mut Cursor::new(&mut encoded), image::ImageFormat::Png)
        .expect("encoding the raster cannot fail in memory");
    let decoded = image::load_from_memory(&encoded)
        .expect("the encoded bytes decode back")
        .to_rgb8();
    assert_eq!(decoded.width(), 800);
    assert_eq!(decoded.height(), 800);
    let centre = decoded.get_pixel(400, 400).0;
    let expected: Rgb = fractal_pixel(400, 400);
    assert_eq!(centre, [expected.red, expected.green, expected.blue]);
    assert_eq!(centre, [120, 26, 120]);
    let origin = decoded.get_pixel(0, 0).0;
    assert_eq!(origin, [0, 0, 0]);
}
