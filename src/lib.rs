//! Host-side driver logic for a family of USB HID button panels: the
//! per-variant capability table, key index translation, image preparation,
//! image report framing and button report decoding.

use vstd::prelude::*;
use vstd::string::StringSliceAdditionalSpecFns;

pub mod info;
pub mod keys;
pub mod pids;
pub mod protocol;
pub mod input;
pub mod commands;
pub mod raster;
pub mod images;

pub use images::{Colour, ImageOptions};
pub use info::{ColourOrder, ImageMode, KeyDirection, Kind, Mirroring, Rotation};

verus! {

/// Declares `image::ImageError`, the image codec's error, which is carried
/// through unchanged.
#[verifier::external_type_specification]
#[verifier::external_body]
pub struct ExImageError(image::ImageError);

/// Declares `std::io::Error`, carried through unchanged.
#[verifier::external_type_specification]
#[verifier::external_body]
pub struct ExIoError(std::io::Error);

/// Errors of every operation on a panel.
#[derive(Debug)]
pub enum Error {
    /// The HID transport failed; holds its message.
    Hid(String),
    /// A file could not be read.
    Io(std::io::Error),
    /// The image codec failed to decode or encode an image.
    Image(image::ImageError),
    /// An image or payload does not have the size the panel needs.
    InvalidImageSize,
    /// A key index is beyond the panel's keys.
    InvalidKeyIndex,
    /// No panel has the given product id.
    UnrecognisedPID,
    /// A report holds dial or touch input rather than button states.
    UnsupportedInput,
    /// No report was pending.
    NoData,
}

/// Image data in the exact form a panel expects on the wire.
pub struct DeviceImage {
    pub data: Vec<u8>,
}

impl DeviceImage {
    /// Wraps bytes that are already in the panel's native format.
    pub fn from_bytes(data: Vec<u8>) -> (r: Self)
        ensures
            r.data@ == data@,
    {
        Self::from(data)
    }
}

impl From<Vec<u8>> for DeviceImage {
    fn from(data: Vec<u8>) -> (r: Self) {
        DeviceImage { data }
    }
}

impl vstd::std_specs::convert::FromSpecImpl<Vec<u8>> for DeviceImage {
    open spec fn obeys_from_spec() -> bool {
        true
    }

    open spec fn from_spec(data: Vec<u8>) -> DeviceImage {
        DeviceImage { data }
    }
}

/// USB vendor id of the panels.
pub const VENDOR_ID: u16 = 0x0fd9;


/// The variant behind a product id, if any.
pub open spec fn kind_of_pid(pid: u16) -> Option<Kind> {
    if pid == pids::ORIGINAL {
        Some(Kind::Original)
    } else if pid == pids::MINI {
        Some(Kind::Mini)
    } else if pid == pids::ORIGINAL_V2 {
        Some(Kind::OriginalV2)
    } else if pid == pids::XL {
        Some(Kind::Xl)
    } else if pid == pids::MK2 {
        Some(Kind::Mk2)
    } else if pid == pids::REVISED_MINI {
        Some(Kind::RevisedMini)
    } else if pid == pids::PLUS {
        Some(Kind::Plus)
    } else {
        None
    }
}

/// Resolves a product id to its variant.
pub fn kind_from_pid(pid: u16) -> (r: Result<Kind, Error>)
    ensures
        kind_of_pid(pid) matches Some(k) ==> r == Ok::<Kind, Error>(k),
        kind_of_pid(pid) is None ==> r == Err::<Kind, Error>(Error::UnrecognisedPID),
{
    if pid == pids::ORIGINAL {
        Ok(Kind::Original)
    } else if pid == pids::MINI {
        Ok(Kind::Mini)
    } else if pid == pids::ORIGINAL_V2 {
        Ok(Kind::OriginalV2)
    } else if pid == pids::XL {
        Ok(Kind::Xl)
    } else if pid == pids::MK2 {
        Ok(Kind::Mk2)
    } else if pid == pids::REVISED_MINI {
        Ok(Kind::RevisedMini)
    } else if pid == pids::PLUS {
        Ok(Kind::Plus)
    } else {
        Err(Error::UnrecognisedPID)
    }
}

/// One entry of a device scan: the variant and product id of a panel,
/// or the error for an unknown product id.
pub fn probe_entry(pid: u16) -> (r: Result<(Kind, u16), Error>)
    ensures
        kind_of_pid(pid) matches Some(k) ==> r == Ok::<(Kind, u16), Error>((k, pid)),
        kind_of_pid(pid) is None ==> r == Err::<(Kind, u16), Error>(Error::UnrecognisedPID),
{
    match kind_from_pid(pid) {
        Ok(k) => Ok((k, pid)),
        Err(e) => Err(e),
    }
}

/// Value of a run of hexadecimal digits.
pub open spec fn hex_digits_value(s: Seq<u8>) -> Option<int>
    decreases s.len(),
{
    if s.len() == 0 {
        Some(0)
    } else {
        match (hex_digits_value(s.drop_last()), images::hex_digit_value(s.last())) {
            (Some(v), Some(d)) => Some(v * 16 + d),
            _ => None,
        }
    }
}

/// The 16-bit number written in hexadecimal, with an optional leading `+`.
pub open spec fn hex_u16_value(s: Seq<u8>) -> Option<u16> {
    let digits = if s.len() > 0 && s[0] == 0x2b {
        s.subrange(1, s.len() as int)
    } else {
        s
    };
    if digits.len() == 0 {
        None
    } else {
        match hex_digits_value(digits) {
            Some(v) => if v <= 0xffff {
                Some(v as u16)
            } else {
                None
            },
            None => None,
        }
    }
}

/// Reads a USB id written in hexadecimal.
pub fn u16_parse_hex(s: &str) -> (r: Option<u16>)
    ensures
        r == hex_u16_value(s.spec_bytes()),
{
    let b = s.as_bytes();
    let start: usize = if b.len() > 0 && b[0] == 0x2b {
        1
    } else {
        0
    };
    let ghost digits = b@.subrange(start as int, b@.len() as int);
    assert(digits =~= (if b@.len() > 0 && b@[0] == 0x2b {
        b@.subrange(1, b@.len() as int)
    } else {
        b@
    }));
    if start == b.len() {
        return None;
    }
    // the value so far, or 0x10000 once it no longer fits
    let mut acc: u32 = 0;
    let mut i: usize = start;
    while i < b.len()
        invariant
            start <= i <= b@.len(),
            digits == b@.subrange(start as int, b@.len() as int),
            b@ == s.spec_bytes(),
            digits == (if b@.len() > 0 && b@[0] == 0x2b {
                b@.subrange(1, b@.len() as int)
            } else {
                b@
            }),
            hex_digits_value(b@.subrange(start as int, i as int)) is Some,
            ({
                let v = hex_digits_value(b@.subrange(start as int, i as int)).unwrap();
                (v <= 0xffff && acc == v) || (v > 0xffff && acc == 0x10000)
            }),
        decreases b@.len() - i,
    {
        let ghost prev = b@.subrange(start as int, i as int);
        let ghost next = b@.subrange(start as int, i + 1);
        assert(next.drop_last() =~= prev);
        assert(next.last() == b@[i as int]);
        match images::hex_digit(b[i]) {
            Some(d) => {
                proof {
                    lemma_hex_digits_nonneg(prev);
                }
                if acc > 0xffff {
                    acc = 0x10000;
                } else {
                    let v = acc * 16 + d as u32;
                    acc = if v > 0xffff {
                        0x10000
                    } else {
                        v
                    };
                }
            },
            None => {
                proof {
                    assert(hex_digits_value(next) is None);
                    lemma_hex_digits_none_extends(b@, start as int, i as int + 1, b@.len() as int);
                }
                return None;
            },
        }
        i = i + 1;
    }
    assert(b@.subrange(start as int, i as int) =~= digits);
    if acc > 0xffff {
        None
    } else {
        Some(acc as u16)
    }
}

proof fn lemma_hex_digits_nonneg(s: Seq<u8>)
    requires
        hex_digits_value(s) is Some,
    ensures
        hex_digits_value(s).unwrap() >= 0,
    decreases s.len(),
{
    if s.len() > 0 {
        lemma_hex_digits_nonneg(s.drop_last());
    }
}

proof fn lemma_hex_digits_none_extends(b: Seq<u8>, start: int, i: int, k: int)
    requires
        0 <= start < i <= k <= b.len(),
        hex_digits_value(b.subrange(start, i)) is None,
    ensures
        hex_digits_value(b.subrange(start, k)) is None,
    decreases k - i,
{
    if k > i {
        lemma_hex_digits_none_extends(b, start, i, k - 1);
        assert(b.subrange(start, k).drop_last() =~= b.subrange(start, k - 1));
    }
}

/// Which device to connect to.
pub struct Filter {
    pub vid: u16,
    pub pid: u16,
    pub serial: Option<String>,
}

/// Where text is drawn on a key image.
pub enum TextPosition {
    /// Top-left corner of the first line, in pixels.
    Absolute { x: i32, y: i32 },
}

} // verus!
