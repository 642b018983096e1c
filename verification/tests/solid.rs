use fractalgen::solid::solid_image;
use fractalgen::Rgb;

#[test]
fn solid_fill_covers_every_cell() {
    let img: Vec<Rgb> = solid_image(12, 200, 56);
    assert_eq!(img.len(), 800 * 800);
    for cell in &img {
        assert_eq!(*cell, Rgb { red: 12, green: 200, blue: 56 });
    }
}

#[test]
fn solid_fill_extreme_channels() {
    let img: Vec<Rgb> = solid_image(0, 255, 0);
    assert_eq!(img.len(), 800 * 800);
    assert_eq!(img[0], Rgb { red: 0, green: 255, blue: 0 });
    assert_eq!(img[800 * 800 - 1], Rgb { red: 0, green: 255, blue: 0 });
}
