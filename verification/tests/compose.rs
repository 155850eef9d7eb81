use image::{DynamicImage, ImageOutputFormat, Rgb, Rgb32FImage, Rgba, Rgba32FImage, RgbaImage};
use sd_worker::compose::{img_build, ComposeError, JPEG_QUALITY};
use std::io::Cursor;

fn png_of(image: RgbaImage) -> Vec<u8> {
    let mut bytes: Vec<u8> = Vec::new();
    DynamicImage::ImageRgba8(image)
        .write_to(&mut Cursor::new(&mut bytes), ImageOutputFormat::Png)
        .unwrap();
    bytes
}

fn solid(width: u32, height: u32, color: [u8; 4]) -> Vec<u8> {
    png_of(RgbaImage::from_pixel(width, height, Rgba(color)))
}

fn near(found: &Rgba<u8>, wanted: [u8; 3], tolerance: i32) -> bool {
    (0..3).all(|c| (found.0[c] as i32 - wanted[c] as i32).abs() <= tolerance)
}

const RED: [u8; 4] = [220, 30, 30, 255];
const GREEN: [u8; 4] = [30, 200, 40, 255];
const BLUE: [u8; 4] = [20, 40, 210, 255];
const GREY: [u8; 4] = [128, 128, 128, 255];

#[test]
fn four_images_fill_the_four_quadrants() {
    let sources = vec![
        solid(64, 64, RED),
        solid(64, 64, GREEN),
        solid(64, 64, BLUE),
        solid(64, 64, GREY),
    ];
    let artifact = img_build(&sources).unwrap();
    assert_eq!(image::guess_format(&artifact).unwrap(), image::ImageFormat::Jpeg);
    let tiled = image::load_from_memory(&artifact).unwrap().to_rgba8();
    assert_eq!(tiled.dimensions(), (128, 128));
    for (dx, dy) in [(4u32, 4u32), (32, 32), (59, 59), (10, 50)] {
        assert!(near(tiled.get_pixel(dx, dy), [220, 30, 30], 12));
        assert!(near(tiled.get_pixel(64 + dx, dy), [30, 200, 40], 12));
        assert!(near(tiled.get_pixel(dx, 64 + dy), [20, 40, 210], 12));
        assert!(near(tiled.get_pixel(64 + dx, 64 + dy), [128, 128, 128], 12));
    }
}

#[test]
fn large_tiles_keep_their_pixels() {
    let mut first = RgbaImage::new(512, 512);
    for (x, y, pixel) in first.enumerate_pixels_mut() {
        *pixel = Rgba([(x / 2) as u8, (y / 2) as u8, 90, 255]);
    }
    let sources = vec![
        png_of(first.clone()),
        solid(512, 512, GREEN),
        solid(512, 512, BLUE),
        solid(512, 512, GREY),
    ];
    let artifact = img_build(&sources).unwrap();
    let tiled = image::load_from_memory(&artifact).unwrap().to_rgba8();
    assert_eq!(tiled.dimensions(), (1024, 1024));
    for y in (0..512).step_by(37) {
        for x in (0..512).step_by(41) {
            let wanted = first.get_pixel(x, y);
            assert!(near(tiled.get_pixel(x, y), [wanted.0[0], wanted.0[1], wanted.0[2]], 10));
        }
    }
    assert!(near(tiled.get_pixel(512 + 100, 100), [30, 200, 40], 12));
    assert!(near(tiled.get_pixel(100, 512 + 100), [20, 40, 210], 12));
    assert!(near(tiled.get_pixel(512 + 100, 512 + 100), [128, 128, 128], 12));
}

#[test]
fn missing_images_leave_black_quadrants() {
    let sources = vec![solid(32, 16, RED), solid(32, 16, GREEN)];
    let artifact = img_build(&sources).unwrap();
    let tiled = image::load_from_memory(&artifact).unwrap().to_rgba8();
    assert_eq!(tiled.dimensions(), (64, 32));
    assert!(near(tiled.get_pixel(10, 8), [220, 30, 30], 12));
    assert!(near(tiled.get_pixel(32 + 10, 8), [30, 200, 40], 12));
    assert!(near(tiled.get_pixel(10, 16 + 8), [0, 0, 0], 12));
    assert!(near(tiled.get_pixel(32 + 10, 16 + 8), [0, 0, 0], 12));
}

#[test]
fn one_image_sits_top_left() {
    let artifact = img_build(&vec![solid(20, 10, BLUE)]).unwrap();
    let tiled = image::load_from_memory(&artifact).unwrap().to_rgba8();
    assert_eq!(tiled.dimensions(), (40, 20));
    assert!(near(tiled.get_pixel(5, 5), [20, 40, 210], 12));
    assert!(near(tiled.get_pixel(30, 5), [0, 0, 0], 12));
    assert!(near(tiled.get_pixel(5, 15), [0, 0, 0], 12));
}

#[test]
fn a_fifth_image_falls_off_the_canvas() {
    let four = vec![
        solid(16, 16, RED),
        solid(16, 16, GREEN),
        solid(16, 16, BLUE),
        solid(16, 16, GREY),
    ];
    let mut five = four.clone();
    five.push(solid(16, 16, [255, 255, 255, 255]));
    assert_eq!(img_build(&five).unwrap(), img_build(&four).unwrap());
}

#[test]
fn each_image_is_placed_by_its_own_size() {
    let sources = vec![solid(16, 16, RED), solid(8, 8, GREEN), solid(4, 4, BLUE)];
    let artifact = img_build(&sources).unwrap();
    let tiled = image::load_from_memory(&artifact).unwrap().to_rgba8();
    assert_eq!(tiled.dimensions(), (32, 32));
    let mut expected = RgbaImage::new(32, 32);
    image::imageops::overlay(&mut expected, &RgbaImage::from_pixel(16, 16, Rgba(RED)), 0, 0);
    image::imageops::overlay(&mut expected, &RgbaImage::from_pixel(8, 8, Rgba(GREEN)), 8, 0);
    image::imageops::overlay(&mut expected, &RgbaImage::from_pixel(4, 4, Rgba(BLUE)), 0, 4);
    let mut wanted: Vec<u8> = Vec::new();
    DynamicImage::ImageRgba8(expected)
        .write_to(&mut Cursor::new(&mut wanted), ImageOutputFormat::Jpeg(100))
        .unwrap();
    assert_eq!(artifact, wanted);
}

#[test]
fn translucent_pixels_are_blended_over_the_clear_canvas() {
    let sources = vec![solid(8, 8, [200, 100, 50, 128])];
    let artifact = img_build(&sources).unwrap();
    let mut expected = RgbaImage::new(16, 16);
    image::imageops::overlay(
        &mut expected,
        &RgbaImage::from_pixel(8, 8, Rgba([200, 100, 50, 128])),
        0,
        0,
    );
    let mut wanted: Vec<u8> = Vec::new();
    DynamicImage::ImageRgba8(expected)
        .write_to(&mut Cursor::new(&mut wanted), ImageOutputFormat::Jpeg(JPEG_QUALITY))
        .unwrap();
    assert_eq!(artifact, wanted);
}

#[test]
fn no_image_is_an_error() {
    assert_eq!(img_build(&Vec::new()), Err(ComposeError::Empty));
}

#[test]
fn bytes_that_are_no_image_are_an_error() {
    assert_eq!(img_build(&vec![b"not an image".to_vec()]), Err(ComposeError::Undecodable));
    assert_eq!(
        img_build(&vec![solid(8, 8, RED), Vec::new(), solid(8, 8, RED)]),
        Err(ComposeError::Undecodable)
    );
    let mut cut = solid(8, 8, RED);
    cut.truncate(20);
    assert_eq!(img_build(&vec![cut]), Err(ComposeError::Undecodable));
}

#[test]
fn a_canvas_too_wide_for_jpeg_is_an_error() {
    assert_eq!(img_build(&vec![solid(40000, 1, RED)]), Err(ComposeError::Unencodable));
    assert_eq!(img_build(&vec![solid(1, 32768, RED)]), Err(ComposeError::Unencodable));
    assert!(img_build(&vec![solid(1, 32767, RED)]).is_ok());
}

#[test]
fn the_quality_is_the_best() {
    assert_eq!(JPEG_QUALITY, 100);
}

fn exr_of(image: DynamicImage) -> Vec<u8> {
    let mut bytes: Vec<u8> = Vec::new();
    image
        .write_to(&mut Cursor::new(&mut bytes), ImageOutputFormat::OpenExr)
        .unwrap();
    bytes
}

#[test]
fn floating_point_images_are_refused() {
    let rgb = exr_of(DynamicImage::ImageRgb32F(Rgb32FImage::from_pixel(
        4,
        4,
        Rgb([0.25f32, 0.5, 0.75]),
    )));
    assert!(image::load_from_memory(&rgb).is_ok());
    assert_eq!(img_build(&vec![rgb.clone()]), Err(ComposeError::Unsupported));
    let rgba = exr_of(DynamicImage::ImageRgba32F(Rgba32FImage::from_pixel(
        4,
        4,
        Rgba([0.25f32, 0.5, 0.75, 1.0]),
    )));
    assert!(image::load_from_memory(&rgba).is_ok());
    assert_eq!(img_build(&vec![rgba]), Err(ComposeError::Unsupported));
    assert_eq!(img_build(&vec![solid(4, 4, RED), rgb]), Err(ComposeError::Unsupported));
}

#[test]
fn a_sample_that_is_no_number_is_refused_without_a_panic() {
    let mut image = Rgb32FImage::from_pixel(4, 4, Rgb([0.25f32, 0.5, 0.75]));
    image.put_pixel(1, 1, Rgb([f32::NAN, 0.5, 0.75]));
    let bytes = exr_of(DynamicImage::ImageRgb32F(image));
    assert!(image::load_from_memory(&bytes).is_ok());
    assert_eq!(img_build(&vec![bytes]), Err(ComposeError::Unsupported));
}

#[test]
fn an_undecodable_input_counts_before_a_floating_point_one() {
    let rgb = exr_of(DynamicImage::ImageRgb32F(Rgb32FImage::from_pixel(
        2,
        2,
        Rgb([0.0f32, 0.0, 0.0]),
    )));
    assert_eq!(img_build(&vec![rgb, b"nothing".to_vec()]), Err(ComposeError::Undecodable));
}

#[test]
fn sixteen_bit_and_grey_images_are_taken() {
    let deep = DynamicImage::ImageRgb16(image::ImageBuffer::from_pixel(
        8,
        8,
        Rgb([65535u16, 0, 0]),
    ));
    let grey = DynamicImage::ImageLuma8(image::ImageBuffer::from_pixel(8, 8, image::Luma([200u8])));
    let mut sources: Vec<Vec<u8>> = Vec::new();
    for image in [deep, grey] {
        let mut bytes: Vec<u8> = Vec::new();
        image
            .write_to(&mut Cursor::new(&mut bytes), ImageOutputFormat::Png)
            .unwrap();
        sources.push(bytes);
    }
    let artifact = img_build(&sources).unwrap();
    let tiled = image::load_from_memory(&artifact).unwrap().to_rgba8();
    assert_eq!(tiled.dimensions(), (16, 16));
    assert!(near(tiled.get_pixel(4, 4), [255, 0, 0], 12));
    assert!(near(tiled.get_pixel(12, 4), [200, 200, 200], 12));
}
