use std::io::Cursor;
use std::str::FromStr;

use streamdeck::images::{
    apply_transform, convert_image, orient_image, prepare_image, process_image, rgb_to_bgr,
    solid_colour, Colour, ImageOptions, ParseColourError,
};
use streamdeck::raster::Raster;
use streamdeck::{ColourOrder, Error, ImageMode, Kind, Mirroring, Rotation};

fn png_bytes(width: u32, height: u32, pixels: &[[u8; 4]]) -> Vec<u8> {
    let mut img = image::RgbaImage::new(width, height);
    for (i, p) in pixels.iter().enumerate() {
        let i = i as u32;
        img.put_pixel(i % width, i / width, image::Rgba(*p));
    }
    let mut bytes = Vec::new();
    image::DynamicImage::ImageRgba8(img)
        .write_to(&mut Cursor::new(&mut bytes), image::ImageOutputFormat::Png)
        .unwrap();
    bytes
}

fn raster(width: u32, height: u32, pixels: &[[u8; 4]]) -> Raster {
    Raster { width, height, data: pixels.iter().flatten().copied().collect() }
}

#[test]
fn load_images() {
    let icon = png_bytes(2, 2, &[[10, 20, 30, 255], [40, 50, 60, 255], [70, 80, 90, 0], [1, 2, 3, 128]]);
    let _image = prepare_image(
        &icon,
        72,
        72,
        Rotation::Rot180,
        Mirroring::Both,
        &ImageOptions::default(),
        ColourOrder::BGR,
    )
    .expect("error loading image");
    assert_eq!(_image.len(), 72 * 72 * 3);
}

#[test]
fn solid_colour_survives_upscaling() {
    let png = png_bytes(1, 1, &[[200, 100, 50, 255]]);
    let opts = ImageOptions::new(None, false);
    let rgb = prepare_image(&png, 72, 72, Rotation::Rot0, Mirroring::NoMirror, &opts, ColourOrder::RGB)
        .unwrap();
    assert_eq!(rgb.len(), 72 * 72 * 3);
    assert!(rgb.chunks(3).all(|p| p == [200, 100, 50]));
    let bgr = prepare_image(&png, 72, 72, Rotation::Rot0, Mirroring::NoMirror, &opts, ColourOrder::BGR)
        .unwrap();
    assert!(bgr.chunks(3).all(|p| p == [50, 100, 200]));
}

#[test]
fn undecodable_bytes_are_an_image_error() {
    let r = prepare_image(
        &[1, 2, 3, 4],
        72,
        72,
        Rotation::Rot0,
        Mirroring::NoMirror,
        &ImageOptions::default(),
        ColourOrder::RGB,
    );
    assert!(matches!(r, Err(Error::Image(_))));
    let r = Kind::Mk2.load_image(&[], &ImageOptions::default());
    assert!(matches!(r, Err(Error::Image(_))));
}

#[test]
fn wrong_sized_decoded_image_is_refused_before_framing() {
    let r = Kind::Mk2.oriented_image(raster(72, 71, &vec![[1, 2, 3, 255]; 72 * 71]));
    assert!(matches!(r, Err(Error::InvalidImageSize)));
    let r = Kind::Mini.oriented_image(raster(80, 80, &vec![[1, 2, 3, 255]; 80 * 80])).unwrap();
    assert_eq!(r.data.len(), 80 * 80 * 3);
    assert_eq!(&r.data[0..3], &[3, 2, 1]);
}

#[test]
fn background_shows_through_transparency() {
    let img = raster(1, 1, &[[10, 20, 30, 0]]);
    let opts = ImageOptions::new(Some(Colour { r: 0, g: 255, b: 0 }), false);
    let v = process_image(img, 1, 1, Rotation::Rot0, Mirroring::NoMirror, &opts, ColourOrder::RGB)
        .unwrap();
    assert_eq!(v, vec![0, 255, 0]);

    let img = raster(1, 1, &[[10, 20, 30, 255]]);
    let v = process_image(img, 1, 1, Rotation::Rot0, Mirroring::NoMirror, &opts, ColourOrder::RGB)
        .unwrap();
    assert_eq!(v, vec![10, 20, 30]);
}

#[test]
fn inversion_applies_to_background_and_image() {
    let img = raster(1, 2, &[[10, 20, 30, 0], [10, 20, 30, 255]]);
    let opts = ImageOptions::new(Some(Colour { r: 0, g: 255, b: 0 }), true);
    let v = process_image(img, 1, 2, Rotation::Rot0, Mirroring::NoMirror, &opts, ColourOrder::RGB)
        .unwrap();
    // the inverted background is composited, then everything is inverted back
    assert_eq!(v, vec![0, 255, 0, 245, 235, 225]);
}

#[test]
fn any_aspect_ratio_is_resized_to_the_target() {
    let img = raster(2, 1, &[[1, 1, 1, 255], [2, 2, 2, 255]]);
    let v = process_image(img, 4, 4, Rotation::Rot0, Mirroring::NoMirror, &ImageOptions::default(), ColourOrder::RGB)
        .unwrap();
    assert_eq!(v.len(), 4 * 4 * 3);
    let png = png_bytes(3, 1, &[[9, 9, 9, 255], [9, 9, 9, 255], [9, 9, 9, 255]]);
    let v = prepare_image(&png, 72, 72, Rotation::Rot90, Mirroring::X, &ImageOptions::default(), ColourOrder::BGR)
        .unwrap();
    assert_eq!(v.len(), 72 * 72 * 3);
    assert!(v.iter().all(|b| *b == 9));
}

#[test]
fn malformed_or_empty_images_are_an_image_size_error() {
    let bad = Raster { width: 2, height: 2, data: vec![0; 15] };
    let r = process_image(bad, 2, 2, Rotation::Rot0, Mirroring::NoMirror, &ImageOptions::default(), ColourOrder::RGB);
    assert!(matches!(r, Err(Error::InvalidImageSize)));
    let empty = Raster { width: 0, height: 0, data: vec![] };
    let r = process_image(empty, 2, 2, Rotation::Rot0, Mirroring::NoMirror, &ImageOptions::default(), ColourOrder::RGB);
    assert!(matches!(r, Err(Error::InvalidImageSize)));
    let one = raster(1, 1, &[[1, 2, 3, 255]]);
    let r = process_image(one, 0, 2, Rotation::Rot0, Mirroring::NoMirror, &ImageOptions::default(), ColourOrder::RGB);
    assert!(matches!(r, Err(Error::InvalidImageSize)));
}

#[test]
fn rotations_and_mirrors() {
    // a 2x1 image: A B
    let a = [1, 1, 1, 255];
    let b = [2, 2, 2, 255];
    let r = apply_transform(raster(2, 1, &[a, b]), Rotation::Rot90, Mirroring::NoMirror);
    assert_eq!((r.width, r.height), (1, 2));
    assert_eq!(r.data, [a, b].concat());
    let r = apply_transform(raster(2, 1, &[a, b]), Rotation::Rot270, Mirroring::NoMirror);
    assert_eq!(r.data, [b, a].concat());
    let r = apply_transform(raster(2, 1, &[a, b]), Rotation::Rot0, Mirroring::Y);
    assert_eq!(r.data, [b, a].concat());
    let r = apply_transform(raster(1, 2, &[a, b]), Rotation::Rot0, Mirroring::X);
    assert_eq!(r.data, [b, a].concat());
    let r = apply_transform(raster(2, 2, &[a, b, b, a]), Rotation::Rot180, Mirroring::Both);
    assert_eq!(r.data, [a, b, b, a].concat());
    let v = orient_image(raster(2, 1, &[a, b]), Rotation::Rot0, Mirroring::Y, ColourOrder::RGB).unwrap();
    assert_eq!(v, vec![2, 2, 2, 1, 1, 1]);
}

#[test]
fn channel_order_swap() {
    let mut v = vec![1, 2, 3, 4, 5, 6, 7, 8];
    rgb_to_bgr(&mut v);
    assert_eq!(v, vec![3, 2, 1, 6, 5, 4, 7, 8]);
}

#[test]
fn solid_colour_fill() {
    let c = Colour { r: 1, g: 2, b: 3 };
    assert_eq!(solid_colour(7, &c, ColourOrder::RGB), vec![1, 2, 3, 1, 2, 3, 1]);
    assert_eq!(solid_colour(6, &c, ColourOrder::BGR), vec![3, 2, 1, 3, 2, 1]);
}

#[test]
fn device_images() {
    let c = Colour { r: 9, g: 8, b: 7 };
    let bmp = Kind::Mini.colour_image(&c).unwrap();
    assert_eq!(bmp.data.len(), 80 * 80 * 3);
    assert_eq!(&bmp.data[0..3], &[7, 8, 9]);
    let jpeg = Kind::Mk2.colour_image(&c).unwrap();
    assert_eq!(Kind::Mk2.image_mode(), ImageMode::Jpeg);
    assert_eq!(&jpeg.data[0..2], &[0xff, 0xd8]);
    assert_ne!(jpeg.data.len(), 72 * 72 * 3);
    let r = convert_image(Kind::Mk2, vec![0; 10]);
    assert!(matches!(r, Err(Error::InvalidImageSize)));
    let r = convert_image(Kind::Original, vec![0; 15553]);
    assert!(matches!(r, Err(Error::InvalidImageSize)));
    let png = png_bytes(1, 1, &[[255, 0, 0, 255]]);
    let loaded = Kind::Original.load_image(&png, &ImageOptions::default()).unwrap();
    assert!(loaded.data.chunks(3).all(|p| p == [0, 0, 255]));
    let wrong = Kind::Original.oriented_image(raster(1, 1, &[[0, 0, 0, 255]]));
    assert!(matches!(wrong, Err(Error::InvalidImageSize)));
    let jpeg = Kind::Xl.oriented_image(raster(96, 96, &vec![[5, 6, 7, 255]; 96 * 96])).unwrap();
    assert_eq!(&jpeg.data[0..2], &[0xff, 0xd8]);
    let wide = png_bytes(2, 1, &[[0, 0, 255, 255], [0, 0, 255, 255]]);
    let loaded = Kind::Mk2.load_image(&wide, &ImageOptions::default()).unwrap();
    assert_eq!(&loaded.data[0..2], &[0xff, 0xd8]);
}

#[test]
fn colour_from_hex() {
    assert_eq!(Colour::from_hex("FF0080").unwrap(), Colour { r: 255, g: 0, b: 128 });
    assert_eq!(Colour::from_hex("a1b2c3ff").unwrap(), Colour { r: 0xa1, g: 0xb2, b: 0xc3 });
    assert_eq!(Colour::from_hex("+F0000").unwrap(), Colour { r: 15, g: 0, b: 0 });
    assert_eq!(Colour::from_hex("12345"), Err(ParseColourError::Length));
    assert_eq!(Colour::from_hex("GG0000"), Err(ParseColourError::Digit));
    assert_eq!(Colour::from_str("000000").unwrap(), Colour { r: 0, g: 0, b: 0 });
    assert!(Colour::from_str("0000").is_err());
}
