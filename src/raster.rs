use vstd::prelude::*;

verus! {

/// An RGBA image with 8 bits per channel, rows top to bottom.
pub struct Raster {
    pub width: u32,
    pub height: u32,
    pub data: Vec<u8>,
}

/// The mathematical model of a [`Raster`].
pub struct Pixels {
    pub width: int,
    pub height: int,
    pub data: Seq<u8>,
}

impl View for Raster {
    type V = Pixels;

    open spec fn view(&self) -> Pixels {
        Pixels { width: self.width as int, height: self.height as int, data: self.data@ }
    }
}

impl Pixels {
    /// Four bytes for each pixel.
    pub open spec fn wf(self) -> bool {
        self.data.len() == self.width * self.height * 4
    }

    /// Channel `c` of the pixel in column `x`, row `y`.
    pub open spec fn at(self, x: int, y: int, c: int) -> u8 {
        self.data[(y * self.width + x) * 4 + c]
    }
}

/// An image of the given size whose pixel in column `a`, row `b` is the pixel
/// of `src` at `source(a, b)`.
pub open spec fn remapped(
    src: Pixels,
    width: int,
    height: int,
    source: spec_fn(int, int) -> (int, int),
) -> Pixels {
    Pixels {
        width,
        height,
        data: Seq::new(
            (width * height * 4) as nat,
            |k: int|
                {
                    let a = (k / 4) % width;
                    let b = (k / 4) / width;
                    src.at(source(a, b).0, source(a, b).1, k % 4)
                },
        ),
    }
}

/// Rotated a quarter turn clockwise.
pub open spec fn rotated_90(p: Pixels) -> Pixels {
    remapped(p, p.height, p.width, |a: int, b: int| (b, p.height - 1 - a))
}

/// Rotated half a turn.
pub open spec fn rotated_180(p: Pixels) -> Pixels {
    remapped(p, p.width, p.height, |a: int, b: int| (p.width - 1 - a, p.height - 1 - b))
}

/// Rotated three quarter turns clockwise.
pub open spec fn rotated_270(p: Pixels) -> Pixels {
    remapped(p, p.height, p.width, |a: int, b: int| (p.width - 1 - b, a))
}

/// Mirrored left to right.
pub open spec fn flipped_horizontally(p: Pixels) -> Pixels {
    remapped(p, p.width, p.height, |a: int, b: int| (p.width - 1 - a, b))
}

/// Mirrored top to bottom.
pub open spec fn flipped_vertically(p: Pixels) -> Pixels {
    remapped(p, p.width, p.height, |a: int, b: int| (a, p.height - 1 - b))
}

/// The RGBA image that the image codec decodes from a file's bytes, or
/// `None` where it cannot decode them.
pub uninterp spec fn decoded_image(bytes: Seq<u8>) -> Option<Pixels>;

/// An RGBA pixel `top` blended over `base` by the image codec.
pub uninterp spec fn blended(base: Seq<u8>, top: Seq<u8>) -> Seq<u8>;

/// `p` resized by the image codec with a Gaussian filter to exactly
/// `width` x `height`.
pub uninterp spec fn resized_image(p: Pixels, width: u32, height: u32) -> Pixels;

/// The JPEG encoding, at quality 100, of RGB pixel data of the given size.
pub uninterp spec fn jpeg_encoded(rgb: Seq<u8>, width: u32, height: u32) -> Seq<u8>;

/// Relies on `image::load_from_memory` and `DynamicImage::into_rgba8`: the
/// format is guessed from the bytes, with the default limits, so whether
/// decoding succeeds and what it gives depend on the bytes alone; the image
/// holds four bytes per pixel.
#[verifier::external_body]
pub(crate) fn decode_rgba(bytes: &[u8]) -> (r: Result<Raster, image::ImageError>)
    ensures
        r is Ok <==> decoded_image(bytes@) is Some,
        r matches Ok(img) ==> decoded_image(bytes@) == Some(img@) && img@.wf(),
{
    let img = image::load_from_memory(bytes)?.into_rgba8();
    Ok(Raster { width: img.width(), height: img.height(), data: img.into_raw() })
}

/// Relies on `image::Pixel::blend` for `Rgba<u8>`: alpha compositing of
/// `top` over `base`, which keeps `base` where `top` is fully transparent
/// and gives `top` where it is opaque.
#[verifier::external_body]
pub(crate) fn blend_pixel(base: [u8; 4], top: [u8; 4]) -> (r: [u8; 4])
    ensures
        r@ == blended(base@, top@),
        top[3] == 0 ==> r@ == base@,
        top[3] == 255 ==> r@ == top@,
{
    let mut p = image::Rgba(base);
    image::Pixel::blend(&mut p, &image::Rgba(top));
    p.0
}

/// Relies on `DynamicImage::resize_exact` with `FilterType::Gaussian`
/// (`imageops::resize`): the result has exactly the requested size, and is a
/// copy of the image when it already has that size.
#[verifier::external_body]
pub(crate) fn resize_gaussian(img: Raster, width: u32, height: u32) -> (r: Raster)
    requires
        img@.wf(),
        img.width > 0,
        img.height > 0,
        width > 0,
        height > 0,
    ensures
        r@ == resized_image(img@, width, height),
        r@.wf(),
        r.width == width,
        r.height == height,
        img.width == width && img.height == height ==> r@ == img@,
{
    let buf = image::RgbaImage::from_raw(img.width, img.height, img.data).unwrap();
    let out = image::DynamicImage::ImageRgba8(buf)
        .resize_exact(width, height, image::imageops::FilterType::Gaussian)
        .into_rgba8();
    Raster { width: out.width(), height: out.height(), data: out.into_raw() }
}

/// Relies on `image::imageops::rotate90`: the pixel at (x, y) moves to
/// (height - 1 - y, x).
#[verifier::external_body]
pub(crate) fn rotate90(img: Raster) -> (r: Raster)
    requires
        img@.wf(),
    ensures
        r@ == rotated_90(img@),
{
    let buf = image::RgbaImage::from_raw(img.width, img.height, img.data).unwrap();
    let out = image::imageops::rotate90(&buf);
    Raster { width: out.width(), height: out.height(), data: out.into_raw() }
}

/// Relies on `image::imageops::rotate180`: the pixel at (x, y) moves to
/// (width - 1 - x, height - 1 - y).
#[verifier::external_body]
pub(crate) fn rotate180(img: Raster) -> (r: Raster)
    requires
        img@.wf(),
    ensures
        r@ == rotated_180(img@),
{
    let buf = image::RgbaImage::from_raw(img.width, img.height, img.data).unwrap();
    let out = image::imageops::rotate180(&buf);
    Raster { width: out.width(), height: out.height(), data: out.into_raw() }
}

/// Relies on `image::imageops::rotate270`: the pixel at (x, y) moves to
/// (y, width - 1 - x).
#[verifier::external_body]
pub(crate) fn rotate270(img: Raster) -> (r: Raster)
    requires
        img@.wf(),
    ensures
        r@ == rotated_270(img@),
{
    let buf = image::RgbaImage::from_raw(img.width, img.height, img.data).unwrap();
    let out = image::imageops::rotate270(&buf);
    Raster { width: out.width(), height: out.height(), data: out.into_raw() }
}

/// Relies on `image::imageops::flip_horizontal`: the pixel at (x, y) moves to
/// (width - 1 - x, y).
#[verifier::external_body]
pub(crate) fn flip_horizontal(img: Raster) -> (r: Raster)
    requires
        img@.wf(),
    ensures
        r@ == flipped_horizontally(img@),
{
    let buf = image::RgbaImage::from_raw(img.width, img.height, img.data).unwrap();
    let out = image::imageops::flip_horizontal(&buf);
    Raster { width: out.width(), height: out.height(), data: out.into_raw() }
}

/// Relies on `image::imageops::flip_vertical`: the pixel at (x, y) moves to
/// (x, height - 1 - y).
#[verifier::external_body]
pub(crate) fn flip_vertical(img: Raster) -> (r: Raster)
    requires
        img@.wf(),
    ensures
        r@ == flipped_vertically(img@),
{
    let buf = image::RgbaImage::from_raw(img.width, img.height, img.data).unwrap();
    let out = image::imageops::flip_vertical(&buf);
    Raster { width: out.width(), height: out.height(), data: out.into_raw() }
}

/// Relies on `JpegEncoder::new_with_quality(.., 100)` and `encode` with
/// `ColorType::Rgb8`, which asserts that the data holds three bytes per pixel
/// and fails only on a side longer than 65535 (writing into a `Vec` cannot fail).
#[verifier::external_body]
pub(crate) fn encode_jpeg(rgb: &[u8], width: u32, height: u32) -> (r: Result<
    Vec<u8>,
    image::ImageError,
>)
    requires
        rgb@.len() == width * height * 3,
    ensures
        r matches Ok(v) ==> v@ == jpeg_encoded(rgb@, width, height),
        width <= 65535 && height <= 65535 ==> r is Ok,
{
    let mut buf = Vec::new();
    let mut encoder = image::codecs::jpeg::JpegEncoder::new_with_quality(&mut buf, 100);
    encoder.encode(rgb, width, height, image::ColorType::Rgb8)?;
    Ok(buf)
}

} // verus!
