use vstd::prelude::*;
use vstd::string::StringSliceAdditionalSpecFns;

use crate::info::{ColourOrder, ImageMode, Kind, Mirroring, Rotation};
use crate::raster::{
    blend_pixel, blended, decode_rgba, decoded_image, encode_jpeg, flip_horizontal, flip_vertical,
    flipped_horizontally, flipped_vertically, jpeg_encoded, remapped, resize_gaussian,
    resized_image, rotate180, rotate270, rotate90, rotated_180, rotated_270, rotated_90, Pixels,
    Raster,
};
use crate::{DeviceImage, Error};

verus! {

/// An RGB colour.
#[derive(Debug, Clone, Copy, PartialEq, Eq, Structural)]
pub struct Colour {
    pub r: u8,
    pub g: u8,
    pub b: u8,
}

/// Why a colour could not be read from hex text.
#[derive(Debug, Clone, Copy, PartialEq, Eq, Structural)]
pub enum ParseColourError {
    /// The text is neither 6 nor 8 bytes long.
    Length,
    /// A channel is not a hexadecimal number.
    Digit,
}

/// Options for image loading and editing.
#[derive(Debug, Clone, Copy)]
pub struct ImageOptions {
    /// Colour shown through transparent parts of the image.
    pub background: Option<Colour>,
    /// Invert all colours.
    pub invert: bool,
}

impl ImageOptions {
    pub fn new(background: Option<Colour>, invert: bool) -> (r: Self)
        ensures
            r.background == background,
            r.invert == invert,
    {
        ImageOptions { background, invert }
    }
}

impl Default for ImageOptions {
    fn default() -> (r: Self)
        ensures
            r.background is None,
            !r.invert,
    {
        ImageOptions { background: None, invert: false }
    }
}

/// Value of an ASCII hexadecimal digit.
pub open spec fn hex_digit_value(b: u8) -> Option<u8> {
    if 0x30 <= b <= 0x39 {
        Some((b - 0x30) as u8)
    } else if 0x61 <= b <= 0x66 {
        Some((b - 0x61 + 10) as u8)
    } else if 0x41 <= b <= 0x46 {
        Some((b - 0x41 + 10) as u8)
    } else {
        None
    }
}

/// Value of a two-byte hexadecimal number, which may also be a `+` sign
/// followed by one digit.
pub open spec fn hex_pair_value(hi: u8, lo: u8) -> Option<u8> {
    if hi == 0x2b {
        hex_digit_value(lo)
    } else {
        match (hex_digit_value(hi), hex_digit_value(lo)) {
            (Some(a), Some(b)) => Some((a * 16 + b) as u8),
            _ => None,
        }
    }
}

/// The colour written as `RRGGBB` or `RRGGBBAA` (the alpha pair is ignored).
pub open spec fn colour_of_hex(s: Seq<u8>) -> Result<Colour, ParseColourError> {
    if s.len() != 6 && s.len() != 8 {
        Err(ParseColourError::Length)
    } else {
        match (hex_pair_value(s[0], s[1]), hex_pair_value(s[2], s[3]), hex_pair_value(s[4], s[5])) {
            (Some(r), Some(g), Some(b)) => Ok(Colour { r, g, b }),
            _ => Err(ParseColourError::Digit),
        }
    }
}

pub(crate) fn hex_digit(b: u8) -> (r: Option<u8>)
    ensures
        r == hex_digit_value(b),
{
    if 0x30 <= b && b <= 0x39 {
        Some(b - 0x30)
    } else if 0x61 <= b && b <= 0x66 {
        Some(b - 0x61 + 10)
    } else if 0x41 <= b && b <= 0x46 {
        Some(b - 0x41 + 10)
    } else {
        None
    }
}

fn hex_pair(hi: u8, lo: u8) -> (r: Option<u8>)
    ensures
        r == hex_pair_value(hi, lo),
{
    if hi == 0x2b {
        return hex_digit(lo);
    }
    match (hex_digit(hi), hex_digit(lo)) {
        (Some(a), Some(b)) => Some(a * 16 + b),
        _ => None,
    }
}

impl Colour {
    /// Reads a colour from hex text `RRGGBB` or `RRGGBBAA`.
    pub fn from_hex(s: &str) -> (r: Result<Colour, ParseColourError>)
        ensures
            r == colour_of_hex(s.spec_bytes()),
    {
        let b = s.as_bytes();
        if b.len() != 6 && b.len() != 8 {
            return Err(ParseColourError::Length);
        }
        match (hex_pair(b[0], b[1]), hex_pair(b[2], b[3]), hex_pair(b[4], b[5])) {
            (Some(r), Some(g), Some(b)) => Ok(Colour { r, g, b }),
            _ => Err(ParseColourError::Digit),
        }
    }
}

impl std::str::FromStr for Colour {
    type Err = String;

    fn from_str(s: &str) -> (r: Result<Self, Self::Err>)
        ensures
            r is Ok <==> colour_of_hex(s.spec_bytes()) is Ok,
            r matches Ok(c) ==> colour_of_hex(s.spec_bytes()) == Ok::<Colour, ParseColourError>(c),
    {
        match Colour::from_hex(s) {
            Ok(c) => Ok(c),
            Err(ParseColourError::Length) => Err(
                "Expected colour in the hex form: RRGGBB".to_string(),
            ),
            Err(ParseColourError::Digit) => Err(
                "int parsing error: invalid digit found in string".to_string(),
            ),
        }
    }
}

/// Channel `c` (0, 1 or 2) of a serialised pixel of colour `colour`.
pub open spec fn channel(colour: Colour, order: ColourOrder, c: int) -> u8 {
    if c == 1 {
        colour.g
    } else if (c == 0) == (order == ColourOrder::RGB) {
        colour.r
    } else {
        colour.b
    }
}

/// `len` bytes of pixels of one colour, in the given channel order.
pub open spec fn solid_colour_spec(len: int, colour: Colour, order: ColourOrder) -> Seq<u8> {
    Seq::new(len as nat, |i: int| channel(colour, order, i % 3))
}

/// The first three channels of every four-byte pixel.
pub open spec fn rgb_of(data: Seq<u8>) -> Seq<u8> {
    Seq::new((data.len() / 4 * 3) as nat, |k: int| data[(k / 3) * 4 + k % 3])
}

/// Every byte subtracted from 255.
pub open spec fn inverted(data: Seq<u8>) -> Seq<u8> {
    data.map_values(|v: u8| (255 - v) as u8)
}

/// The first and third byte of every whole three-byte pixel swapped.
pub open spec fn bgr_swapped(data: Seq<u8>) -> Seq<u8> {
    Seq::new(
        data.len(),
        |k: int|
            if (k / 3) * 3 + 3 <= data.len() {
                data[(k / 3) * 3 + 2 - k % 3]
            } else {
                data[k]
            },
    )
}

pub open spec fn in_colour_order(rgb: Seq<u8>, order: ColourOrder) -> Seq<u8> {
    match order {
        ColourOrder::RGB => rgb,
        ColourOrder::BGR => bgr_swapped(rgb),
    }
}

/// The pixels of `p` as bytes in the given channel order, inverted if asked.
pub open spec fn serialised(p: Pixels, order: ColourOrder, invert: bool) -> Seq<u8> {
    let rgb = rgb_of(p.data);
    in_colour_order(
        if invert {
            inverted(rgb)
        } else {
            rgb
        },
        order,
    )
}

pub open spec fn rotated(p: Pixels, rotation: Rotation) -> Pixels {
    match rotation {
        Rotation::Rot0 => p,
        Rotation::Rot90 => rotated_90(p),
        Rotation::Rot180 => rotated_180(p),
        Rotation::Rot270 => rotated_270(p),
    }
}

pub open spec fn mirrored(p: Pixels, mirror: Mirroring) -> Pixels {
    match mirror {
        Mirroring::NoMirror => p,
        Mirroring::X => flipped_vertically(p),
        Mirroring::Y => flipped_horizontally(p),
        Mirroring::Both => flipped_horizontally(flipped_vertically(p)),
    }
}

/// `p` rotated, then mirrored.
pub open spec fn transformed(p: Pixels, rotation: Rotation, mirror: Mirroring) -> Pixels {
    mirrored(rotated(p, rotation), mirror)
}

/// The RGBA pixel laid under an image pixel of opacity `alpha`: the
/// background colour, inverted if asked, opaque where the pixel is transparent.
pub open spec fn backdrop(colour: Colour, invert: bool, alpha: u8) -> Seq<u8> {
    if invert {
        seq![
            (255 - colour.r) as u8,
            (255 - colour.g) as u8,
            (255 - colour.b) as u8,
            (255 - alpha) as u8,
        ]
    } else {
        seq![colour.r, colour.g, colour.b, (255 - alpha) as u8]
    }
}

/// Every pixel of `data` with the backdrop blended over it.
pub open spec fn composited(data: Seq<u8>, colour: Colour, invert: bool) -> Seq<u8> {
    Seq::new(
        data.len(),
        |k: int|
            blended(
                data.subrange((k / 4) * 4, (k / 4) * 4 + 4),
                backdrop(colour, invert, data[(k / 4) * 4 + 3]),
            )[k % 4],
    )
}

pub open spec fn with_background(p: Pixels, opts: ImageOptions) -> Pixels {
    match opts.background {
        Some(c) => Pixels { width: p.width, height: p.height, data: composited(p.data, c, opts.invert) },
        None => p,
    }
}

/// A decoded image after background compositing, resizing, rotation,
/// mirroring, inversion and serialisation.
pub open spec fn processed(
    p: Pixels,
    width: u32,
    height: u32,
    rotation: Rotation,
    mirror: Mirroring,
    opts: ImageOptions,
    order: ColourOrder,
) -> Seq<u8> {
    serialised(
        transformed(resized_image(with_background(p, opts), width, height), rotation, mirror),
        order,
        opts.invert,
    )
}

proof fn lemma_remapped_wf(src: Pixels, width: int, height: int, f: spec_fn(int, int) -> (int, int))
    requires
        width >= 0,
        height >= 0,
    ensures
        remapped(src, width, height, f).wf(),
{
    assert(width * height * 4 >= 0) by (nonlinear_arith)
        requires
            width >= 0,
            height >= 0,
    ;
}

proof fn lemma_transforms_wf(p: Pixels)
    requires
        p.width >= 0,
        p.height >= 0,
    ensures
        rotated_90(p).wf(),
        rotated_180(p).wf(),
        rotated_270(p).wf(),
        flipped_horizontally(p).wf(),
        flipped_vertically(p).wf(),
        rotated_90(p).width >= 0 && rotated_90(p).height >= 0,
        rotated_270(p).width >= 0 && rotated_270(p).height >= 0,
        rotated_180(p).width == p.width && rotated_180(p).height == p.height,
        flipped_vertically(p).width == p.width && flipped_vertically(p).height == p.height,
{
    lemma_remapped_wf(p, p.height, p.width, |a: int, b: int| (b, p.height - 1 - a));
    lemma_remapped_wf(p, p.width, p.height, |a: int, b: int| (p.width - 1 - a, p.height - 1 - b));
    lemma_remapped_wf(p, p.height, p.width, |a: int, b: int| (p.width - 1 - b, a));
    lemma_remapped_wf(p, p.width, p.height, |a: int, b: int| (p.width - 1 - a, b));
    lemma_remapped_wf(p, p.width, p.height, |a: int, b: int| (a, p.height - 1 - b));
}

proof fn lemma_serialised_len(p: Pixels, order: ColourOrder, invert: bool)
    requires
        p.wf(),
        p.width >= 0,
        p.height >= 0,
    ensures
        serialised(p, order, invert).len() == p.width * p.height * 3,
{
    let n = p.width * p.height;
    assert(n >= 0) by (nonlinear_arith)
        requires
            n == p.width * p.height,
            p.width >= 0,
            p.height >= 0,
    ;
    assert((n * 4) / 4 * 3 == n * 3) by (nonlinear_arith)
        requires
            n >= 0,
    ;
    assert(rgb_of(p.data).len() == n * 3);
}

/// Rotates, then mirrors an image.
pub fn apply_transform(image: Raster, rotation: Rotation, mirror: Mirroring) -> (r: Raster)
    requires
        image@.wf(),
    ensures
        r@ == transformed(image@, rotation, mirror),
        r@.wf(),
        r@.width * r@.height == image@.width * image@.height,
{
    proof {
        lemma_transforms_wf(image@);
        assert(image@.height * image@.width == image@.width * image@.height) by (nonlinear_arith);
    }
    let image = match rotation {
        Rotation::Rot0 => image,
        Rotation::Rot90 => rotate90(image),
        Rotation::Rot180 => rotate180(image),
        Rotation::Rot270 => rotate270(image),
    };
    proof {
        lemma_transforms_wf(image@);
        lemma_transforms_wf(flipped_vertically(image@));
    }
    match mirror {
        Mirroring::NoMirror => image,
        Mirroring::X => flip_vertical(image),
        Mirroring::Y => flip_horizontal(image),
        Mirroring::Both => flip_horizontal(flip_vertical(image)),
    }
}

/// Blends the background colour under every pixel, so that it shows through
/// transparent parts.
fn composite_background(data: &Vec<u8>, colour: Colour, invert: bool) -> (r: Vec<u8>)
    requires
        data@.len() % 4 == 0,
    ensures
        r@ == composited(data@, colour, invert),
{
    let (cr, cg, cb) = if invert {
        (255 - colour.r, 255 - colour.g, 255 - colour.b)
    } else {
        (colour.r, colour.g, colour.b)
    };
    let mut out: Vec<u8> = Vec::new();
    let mut i: usize = 0;
    while i < data.len()
        invariant
            data@.len() % 4 == 0,
            i % 4 == 0,
            i <= data@.len(),
            out@.len() == i,
            invert ==> cr == 255 - colour.r && cg == 255 - colour.g && cb == 255 - colour.b,
            !invert ==> cr == colour.r && cg == colour.g && cb == colour.b,
            forall|k: int| 0 <= k < i ==> #[trigger] out@[k] == composited(data@, colour, invert)[k],
        decreases data@.len() - i,
    {
        let base: [u8; 4] = [data[i], data[i + 1], data[i + 2], data[i + 3]];
        let top: [u8; 4] = [cr, cg, cb, 255 - data[i + 3]];
        let p = blend_pixel(base, top);
        proof {
            assert(base@ =~= data@.subrange(i as int, i + 4));
            assert(top@ =~= backdrop(colour, invert, data@[i + 3]));
            assert(((i + 1) / 4) * 4 == i && (i + 1) % 4 == 1);
            assert(((i + 2) / 4) * 4 == i && (i + 2) % 4 == 2);
            assert(((i + 3) / 4) * 4 == i && (i + 3) % 4 == 3);
            assert((i / 4) * 4 == i && i % 4 == 0);
        }
        out.push(p[0]);
        out.push(p[1]);
        out.push(p[2]);
        out.push(p[3]);
        i = i + 4;
    }
    out
}

/// The first three channels of every pixel, each subtracted from 255 if asked.
fn rgb_bytes(data: &Vec<u8>, invert: bool) -> (r: Vec<u8>)
    ensures
        r@ == if invert {
            inverted(rgb_of(data@))
        } else {
            rgb_of(data@)
        },
{
    let ghost want = if invert {
        inverted(rgb_of(data@))
    } else {
        rgb_of(data@)
    };
    let len = data.len();
    let n = len / 4;
    let mut out: Vec<u8> = Vec::new();
    let mut p: usize = 0;
    while p < n
        invariant
            n == data@.len() / 4,
            len == data@.len(),
            n * 4 <= data@.len(),
            want.len() == n * 3,
            want == (if invert {
                inverted(rgb_of(data@))
            } else {
                rgb_of(data@)
            }),
            p <= n,
            out@.len() == p * 3,
            forall|k: int| 0 <= k < p * 3 ==> #[trigger] out@[k] == want[k],
        decreases n - p,
    {
        let mut c: usize = 0;
        while c < 3
            invariant
                n == data@.len() / 4,
                len == data@.len(),
                n * 4 <= data@.len(),
                want.len() == n * 3,
                want == (if invert {
                    inverted(rgb_of(data@))
                } else {
                    rgb_of(data@)
                }),
                p < n,
                c <= 3,
                out@.len() == p * 3 + c,
                forall|k: int| 0 <= k < p * 3 + c ==> #[trigger] out@[k] == want[k],
            decreases 3 - c,
        {
            assert((p * 3 + c) / 3 == p && (p * 3 + c) % 3 == c);
            assert(p * 4 + c < data@.len()) by (nonlinear_arith)
                requires
                    p < n,
                    c < 3,
                    n * 4 <= data@.len(),
            ;
            let v = data[p * 4 + c];
            if invert {
                out.push(255 - v);
            } else {
                out.push(v);
            }
            c = c + 1;
        }
        p = p + 1;
    }
    assert(out@ =~= want);
    out
}

/// Swaps the first and third byte of every whole three-byte pixel, turning
/// RGB data into BGR and back.
pub fn rgb_to_bgr(data: &mut Vec<u8>)
    ensures
        final(data)@ == bgr_swapped(old(data)@),
{
    let ghost start = data@;
    let len = data.len();
    let n = len / 3;
    let mut p: usize = 0;
    while p < n
        invariant
            len == data@.len(),
            len == start.len(),
            n == len / 3,
            p <= n,
            forall|q: int, j: int|
                0 <= q < p && 0 <= j < 3 ==> #[trigger] data@[q * 3 + j] == start[q * 3 + 2 - j],
            forall|k: int| p * 3 <= k < len ==> #[trigger] data@[k] == start[k],
        decreases n - p,
    {
        let i = p * 3;
        let a = data[i];
        let c = data[i + 2];
        data.set(i, c);
        data.set(i + 2, a);
        p = p + 1;
    }
    proof {
        assert forall|k: int| 0 <= k < len implies #[trigger] data@[k] == bgr_swapped(start)[k] by {
            let q = k / 3;
            let j = k % 3;
            assert(k == q * 3 + j);
            if q < n {
                assert(data@[q * 3 + j] == start[q * 3 + 2 - j]);
            } else {
                assert(q * 3 + 3 > len);
            }
        }
    }
    assert(data@ =~= bgr_swapped(start));
}

/// Serialises the pixels of an image in the given channel order, inverted if asked.
fn serialise(image: &Raster, order: ColourOrder, invert: bool) -> (r: Vec<u8>)
    ensures
        r@ == serialised(image@, order, invert),
{
    let mut v = rgb_bytes(&image.data, invert);
    if let ColourOrder::BGR = order {
        rgb_to_bgr(&mut v);
    }
    v
}

/// Whether `image` holds four bytes for each of its pixels.
fn is_well_formed(image: &Raster) -> (r: bool)
    ensures
        r == image@.wf(),
{
    let w = image.width as u64;
    let h = image.height as u64;
    assert(w * h <= 0xffff_ffff_ffff_ffff) by (nonlinear_arith)
        requires
            w <= 0xffff_ffff,
            h <= 0xffff_ffff,
    ;
    let len = image.data.len() as u64;
    len % 4 == 0 && len / 4 == w * h
}

/// Applies the preparation steps to a decoded image: background compositing
/// (before any transparency is lost), resizing to exactly `width` x `height`,
/// rotation, mirroring, inversion, and serialisation in the given channel
/// order. Fails with `InvalidImageSize` on an image that is empty or not
/// well formed, or on an empty target size.
pub fn process_image(
    image: Raster,
    width: u32,
    height: u32,
    rotation: Rotation,
    mirror: Mirroring,
    opts: &ImageOptions,
    order: ColourOrder,
) -> (r: Result<Vec<u8>, Error>)
    ensures
        !(image@.wf() && image.width > 0 && image.height > 0 && width > 0 && height > 0) ==> r matches Err(
            Error::InvalidImageSize,
        ),
        image@.wf() && image.width > 0 && image.height > 0 && width > 0 && height > 0 ==> (r matches Ok(
            v,
        ) && v@ == processed(image@, width, height, rotation, mirror, *opts, order) && v@.len()
            == width * height * 3),
{
    if !is_well_formed(&image) || image.width == 0 || image.height == 0 || width == 0 || height == 0 {
        return Err(Error::InvalidImageSize);
    }
    let ghost source = image@;
    let image = match opts.background {
        Some(c) => {
            let data = composite_background(&image.data, c, opts.invert);
            Raster { width: image.width, height: image.height, data }
        },
        None => image,
    };
    assert(image@ == with_background(source, *opts));
    let image = resize_gaussian(image, width, height);
    let image = apply_transform(image, rotation, mirror);
    let v = serialise(&image, order, opts.invert);
    proof {
        lemma_serialised_len(image@, order, opts.invert);
    }
    assert(width as u128 * height as u128 * 3 <= 0xffff_ffff_ffff_ffff_ffff) by (nonlinear_arith)
        requires
            width <= 0xffff_ffff,
            height <= 0xffff_ffff,
    ;
    // the resize gives exactly the requested size, so this only guards the
    // serialised length
    let expected = width as u128 * height as u128 * 3;
    if v.len() as u128 != expected {
        return Err(Error::InvalidImageSize);
    }
    Ok(v)
}

/// Whether a decoded image and a target size are fit for preparation:
/// well formed and not empty.
pub open spec fn preparable(p: Pixels, width: u32, height: u32) -> bool {
    p.wf() && p.width > 0 && p.height > 0 && width > 0 && height > 0
}

/// Decodes an image file's contents and prepares it as [`process_image`]
/// does: the image error where the codec cannot decode them, the size error
/// where the decoded image or the target is empty, else the prepared bytes.
pub fn prepare_image(
    bytes: &[u8],
    width: u32,
    height: u32,
    rotation: Rotation,
    mirror: Mirroring,
    opts: &ImageOptions,
    order: ColourOrder,
) -> (r: Result<Vec<u8>, Error>)
    ensures
        decoded_image(bytes@) is None ==> r matches Err(Error::Image(_)),
        decoded_image(bytes@) matches Some(p) ==> {
            &&& preparable(p, width, height) ==> (r matches Ok(v) && v@ == processed(
                p,
                width,
                height,
                rotation,
                mirror,
                *opts,
                order,
            ) && v@.len() == width * height * 3)
            &&& !preparable(p, width, height) ==> (r matches Err(Error::InvalidImageSize))
        },
{
    let image = match decode_rgba(bytes) {
        Ok(i) => i,
        Err(e) => return Err(Error::Image(e)),
    };
    process_image(image, width, height, rotation, mirror, opts, order)
}

/// Rotates and mirrors an image that is already at the panel's size and
/// serialises it in the given channel order.
pub fn orient_image(image: Raster, rotation: Rotation, mirror: Mirroring, order: ColourOrder) -> (r:
    Result<Vec<u8>, Error>)
    ensures
        !image@.wf() ==> r matches Err(Error::InvalidImageSize),
        image@.wf() ==> (r matches Ok(v) && v@ == serialised(
            transformed(image@, rotation, mirror),
            order,
            false,
        ) && v@.len() == image.width * image.height * 3),
{
    if !is_well_formed(&image) {
        return Err(Error::InvalidImageSize);
    }
    let image = apply_transform(image, rotation, mirror);
    proof {
        lemma_serialised_len(image@, order, false);
    }
    Ok(serialise(&image, order, false))
}

/// `len` bytes of pixels of one colour in the given channel order.
pub fn solid_colour(len: usize, colour: &Colour, order: ColourOrder) -> (r: Vec<u8>)
    ensures
        r@ == solid_colour_spec(len as int, *colour, order),
{
    let mut out: Vec<u8> = Vec::new();
    let mut i: usize = 0;
    while i < len
        invariant
            i <= len,
            out@.len() == i,
            forall|k: int| 0 <= k < i ==> #[trigger] out@[k] == channel(*colour, order, k % 3),
        decreases len - i,
    {
        let v = if i % 3 == 1 {
            colour.g
        } else if (i % 3 == 0) == (order == ColourOrder::RGB) {
            colour.r
        } else {
            colour.b
        };
        out.push(v);
        i = i + 1;
    }
    assert(out@ =~= solid_colour_spec(len as int, *colour, order));
    out
}

/// The wire form of a key image: the bytes themselves for bitmap panels,
/// their JPEG encoding for the others.
pub open spec fn wire_bytes(kind: Kind, image: Seq<u8>) -> Seq<u8> {
    match kind.image_mode_spec() {
        ImageMode::Bmp => image,
        ImageMode::Jpeg => jpeg_encoded(
            image,
            kind.image_size_spec().0 as u32,
            kind.image_size_spec().1 as u32,
        ),
    }
}

/// Turns a key image of the panel's size, in its channel order, into the
/// panel's wire format: unchanged for bitmap panels, JPEG for the others.
pub fn convert_image(kind: Kind, image: Vec<u8>) -> (r: Result<DeviceImage, Error>)
    ensures
        image@.len() != kind.image_size_bytes_spec() ==> r matches Err(Error::InvalidImageSize),
        image@.len() == kind.image_size_bytes_spec() ==> (r matches Ok(d) && d.data@ == wire_bytes(
            kind,
            image@,
        )),
{
    if image.len() != kind.image_size_bytes() {
        return Err(Error::InvalidImageSize);
    }
    match kind.image_mode() {
        ImageMode::Bmp => Ok(DeviceImage { data: image }),
        ImageMode::Jpeg => {
            let (w, h) = kind.image_size();
            match encode_jpeg(image.as_slice(), w as u32, h as u32) {
                Ok(data) => Ok(DeviceImage { data }),
                Err(e) => Err(Error::Image(e)),
            }
        },
    }
}

impl Kind {
    /// A key image of one colour, in the panel's wire format.
    pub fn colour_image(&self, colour: &Colour) -> (r: Result<DeviceImage, Error>)
        ensures
            r matches Ok(d) && d.data@ == wire_bytes(
                *self,
                solid_colour_spec(self.image_size_bytes_spec(), *colour, self.image_colour_order_spec()),
            ),
    {
        let data = solid_colour(self.image_size_bytes(), colour, self.image_colour_order());
        convert_image(*self, data)
    }

    /// A key image made from a decoded image of the panel's key size:
    /// rotated, mirrored and serialised as the panel expects, in its wire format.
    pub fn oriented_image(&self, image: Raster) -> (r: Result<DeviceImage, Error>)
        ensures
            !image@.wf() ==> r matches Err(Error::InvalidImageSize),
            image@.wf() && image.width * image.height * 3 != self.image_size_bytes_spec() ==> (r matches Err(
                Error::InvalidImageSize,
            )),
            image@.wf() && image.width * image.height * 3 == self.image_size_bytes_spec() ==> (r matches Ok(
                d,
            ) && d.data@ == wire_bytes(
                *self,
                serialised(
                    transformed(image@, self.image_rotation_spec(), self.image_mirror_spec()),
                    self.image_colour_order_spec(),
                    false,
                ),
            )),
    {
        let data = match orient_image(image, self.image_rotation(), self.image_mirror(), self.image_colour_order()) {
            Ok(d) => d,
            Err(e) => return Err(e),
        };
        convert_image(*self, data)
    }

    /// A key image made from an image file's contents: prepared for the
    /// panel's size, orientation and channel order, in its wire format.
    pub fn load_image(&self, bytes: &[u8], opts: &ImageOptions) -> (r: Result<DeviceImage, Error>)
        ensures
            decoded_image(bytes@) is None ==> r matches Err(Error::Image(_)),
            decoded_image(bytes@) matches Some(p) ==> {
                let w = self.image_size_spec().0 as u32;
                let h = self.image_size_spec().1 as u32;
                &&& preparable(p, w, h) ==> (r matches Ok(d) && d.data@ == wire_bytes(
                    *self,
                    processed(
                        p,
                        w,
                        h,
                        self.image_rotation_spec(),
                        self.image_mirror_spec(),
                        *opts,
                        self.image_colour_order_spec(),
                    ),
                ))
                &&& !preparable(p, w, h) ==> (r matches Err(Error::InvalidImageSize))
            },
    {
        let (w, h) = self.image_size();
        let data = match prepare_image(
            bytes,
            w as u32,
            h as u32,
            self.image_rotation(),
            self.image_mirror(),
            opts,
            self.image_colour_order(),
        ) {
            Ok(d) => d,
            Err(e) => return Err(e),
        };
        convert_image(*self, data)
    }
}

} // verus!
