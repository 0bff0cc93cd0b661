use image::{DynamicImage, GenericImageView, Rgb};
use mirage::{FromArgumentBuilder, GenerateOperation, InputOperation};

fn generated(red: &str, green: &str, blue: &str) -> DynamicImage {
    let args = vec![red.to_string(), green.to_string(), blue.to_string()];
    GenerateOperation::init_from_arg(args).unwrap().apply()
}

#[test]
fn generate_makes_800_by_800_pixels_of_the_colour() {
    let img = generated("10", "20", "30");
    assert_eq!(img.dimensions(), (800, 800));
    assert_eq!(img.color(), image::ColorType::Rgb8);
    let rgb = img.as_rgb8().unwrap();
    assert!(rgb.pixels().all(|p| *p == Rgb([10, 20, 30])));
    assert_eq!(rgb.get_pixel(0, 0), &Rgb([10, 20, 30]));
    assert_eq!(rgb.get_pixel(799, 0), &Rgb([10, 20, 30]));
    assert_eq!(rgb.get_pixel(0, 799), &Rgb([10, 20, 30]));
    assert_eq!(rgb.get_pixel(799, 799), &Rgb([10, 20, 30]));
}

#[test]
fn generate_black_and_white() {
    let black = generated("0", "0", "0");
    assert!(black.as_rgb8().unwrap().pixels().all(|p| *p == Rgb([0, 0, 0])));
    let white = generated("255", "255", "255");
    assert!(white.as_rgb8().unwrap().pixels().all(|p| *p == Rgb([255, 255, 255])));
}

#[test]
fn generate_keeps_the_three_samples_apart() {
    let img = generated("1", "2", "3");
    assert_eq!(img.as_rgb8().unwrap().get_pixel(400, 123), &Rgb([1, 2, 3]));
    assert_eq!(img.as_bytes().len(), 800 * 800 * 3);
}
