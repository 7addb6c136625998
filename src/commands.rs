use vstd::prelude::*;

use crate::info::Kind;
use crate::protocol::zeros;

verus! {

/// Length of the feature reports that carry commands.
pub const FEATURE_REPORT_LEN: usize = 17;

/// Highest brightness, in percent.
pub const MAX_BRIGHTNESS: u8 = 100;

/// `fields` followed by zeros up to the feature report length.
pub open spec fn feature_report(fields: Seq<u8>) -> Seq<u8> {
    fields + zeros(FEATURE_REPORT_LEN - fields.len())
}

pub open spec fn reset_report_spec(kind: Kind) -> Seq<u8> {
    if kind.is_v2_spec() {
        feature_report(seq![0x03u8, 0x02u8])
    } else {
        feature_report(seq![0x0bu8, 0x63u8])
    }
}

pub open spec fn brightness_report_spec(kind: Kind, brightness: u8) -> Seq<u8> {
    let b: u8 = if brightness > MAX_BRIGHTNESS {
        MAX_BRIGHTNESS
    } else {
        brightness
    };
    if kind.is_v2_spec() {
        feature_report(seq![0x03u8, 0x08u8, b])
    } else {
        feature_report(seq![0x05u8, 0x55u8, 0xaau8, 0xd1u8, 0x01u8, b])
    }
}

pub open spec fn version_request_spec(kind: Kind) -> Seq<u8> {
    if kind.is_v2_spec() {
        feature_report(seq![0x05u8])
    } else {
        feature_report(seq![0x04u8])
    }
}

/// Where the firmware version text starts in the answer to a version request.
pub open spec fn version_offset_spec(kind: Kind) -> int {
    if kind.is_v2_spec() {
        6
    } else {
        5
    }
}

/// A feature report holding `fields`, padded with zeros.
fn padded_report(fields: &[u8]) -> (r: Vec<u8>)
    requires
        fields@.len() <= FEATURE_REPORT_LEN,
    ensures
        r@ == feature_report(fields@),
{
    let mut r: Vec<u8> = Vec::new();
    let mut i: usize = 0;
    while i < FEATURE_REPORT_LEN
        invariant
            fields@.len() <= FEATURE_REPORT_LEN,
            i <= FEATURE_REPORT_LEN,
            r@.len() == i,
            forall|j: int|
                0 <= j < i ==> #[trigger] r@[j] == feature_report(fields@)[j],
        decreases FEATURE_REPORT_LEN - i,
    {
        if i < fields.len() {
            r.push(fields[i]);
        } else {
            r.push(0u8);
        }
        i = i + 1;
    }
    assert(r@ =~= feature_report(fields@));
    r
}

/// The feature report that resets the panel.
pub fn reset_report(kind: Kind) -> (r: Vec<u8>)
    ensures
        r@ == reset_report_spec(kind),
{
    if kind.is_v2() {
        let f: [u8; 2] = [0x03, 0x02];
        let r = padded_report(&f);
        assert(f@ =~= seq![0x03u8, 0x02u8]);
        r
    } else {
        let f: [u8; 2] = [0x0b, 0x63];
        let r = padded_report(&f);
        assert(f@ =~= seq![0x0bu8, 0x63u8]);
        r
    }
}

/// The feature report that sets the display brightness, in percent; values
/// above the maximum are taken as the maximum.
pub fn brightness_report(kind: Kind, brightness: u8) -> (r: Vec<u8>)
    ensures
        r@ == brightness_report_spec(kind, brightness),
{
    let b = if brightness > MAX_BRIGHTNESS {
        MAX_BRIGHTNESS
    } else {
        brightness
    };
    if kind.is_v2() {
        let f: [u8; 3] = [0x03, 0x08, b];
        let r = padded_report(&f);
        assert(f@ =~= seq![0x03u8, 0x08u8, b]);
        r
    } else {
        let f: [u8; 6] = [0x05, 0x55, 0xaa, 0xd1, 0x01, b];
        let r = padded_report(&f);
        assert(f@ =~= seq![0x05u8, 0x55u8, 0xaau8, 0xd1u8, 0x01u8, b]);
        r
    }
}

/// The feature report buffer that asks for the firmware version.
pub fn version_request(kind: Kind) -> (r: Vec<u8>)
    ensures
        r@ == version_request_spec(kind),
{
    if kind.is_v2() {
        let f: [u8; 1] = [0x05];
        let r = padded_report(&f);
        assert(f@ =~= seq![0x05u8]);
        r
    } else {
        let f: [u8; 1] = [0x04];
        let r = padded_report(&f);
        assert(f@ =~= seq![0x04u8]);
        r
    }
}

/// The firmware version bytes in the answer to a version request.
pub fn version_bytes(kind: Kind, answer: &[u8]) -> (r: Vec<u8>)
    requires
        answer@.len() == FEATURE_REPORT_LEN,
    ensures
        r@ == answer@.subrange(version_offset_spec(kind), answer@.len() as int),
{
    let start: usize = if kind.is_v2() {
        6
    } else {
        5
    };
    let mut r: Vec<u8> = Vec::new();
    let mut i: usize = start;
    while i < answer.len()
        invariant
            start == version_offset_spec(kind),
            start <= i <= answer@.len(),
            r@ == answer@.subrange(start as int, i as int),
        decreases answer@.len() - i,
    {
        r.push(answer[i]);
        i = i + 1;
        assert(r@ =~= answer@.subrange(start as int, i as int));
    }
    r
}

} // verus!
