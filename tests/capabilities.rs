use streamdeck::{kind_from_pid, pids, probe_entry, u16_parse_hex, ColourOrder, Error, ImageMode, KeyDirection, Kind};
use streamdeck::{Mirroring, Rotation};

const ALL: [Kind; 10] = [
    Kind::Original,
    Kind::OriginalV2,
    Kind::Mini,
    Kind::RevisedMini,
    Kind::Xl,
    Kind::Mk2,
    Kind::Plus,
    Kind::Module6Keys,
    Kind::Module15Keys,
    Kind::Module32Keys,
];

#[test]
fn every_kind_has_a_complete_record() {
    for kind in ALL {
        let caps = kind.capabilities();
        assert_eq!(caps.key_count, kind.keys());
        assert!(caps.key_count > 0);
        assert_eq!(caps.key_count % caps.columns, 0);
        let (w, h) = kind.image_size();
        assert_eq!((caps.width, caps.height), (w, h));
        assert_eq!(kind.image_size_bytes(), w * h * 3);
        assert!(caps.header_len + caps.embedded_header.len() < caps.report_len);
        assert_eq!(caps.encoding == ImageMode::Bmp, caps.colour_order == ColourOrder::BGR);
        assert_eq!(caps.encoding == ImageMode::Bmp, caps.embedded_header.len() == 54);
    }
}

#[test]
fn original_record() {
    let k = Kind::Original;
    assert_eq!(k.keys(), 15);
    assert_eq!(k.key_direction(), KeyDirection::RightToLeft);
    assert_eq!(k.key_columns(), 5);
    assert_eq!(k.image_size(), (72, 72));
    assert_eq!(k.image_mode(), ImageMode::Bmp);
    assert_eq!(k.image_mirror(), Mirroring::Y);
    assert_eq!(k.image_rotation(), Rotation::Rot0);
    assert_eq!(k.image_report_len(), 8191);
    assert_eq!(k.image_report_header_len(), 16);
    assert_eq!(k.image_size_bytes(), 15552);
    let base = k.image_base();
    assert_eq!(&base[0..2], &[0x42, 0x4d]);
    assert!(!k.is_v2());
    assert!(!k.is_module());
}

#[test]
fn second_generation_records() {
    assert_eq!(Kind::Xl.keys(), 32);
    assert_eq!(Kind::Xl.image_size(), (96, 96));
    assert_eq!(Kind::Plus.image_size(), (120, 120));
    assert_eq!(Kind::Plus.keys(), 8);
    assert_eq!(Kind::Mk2.image_mirror(), Mirroring::Both);
    assert_eq!(Kind::Mk2.image_report_header_len(), 8);
    assert!(Kind::Mk2.image_base().is_empty());
    assert_eq!(Kind::Mini.image_rotation(), Rotation::Rot270);
    assert_eq!(Kind::Module15Keys.image_rotation(), Rotation::Rot180);
    assert_eq!(Kind::RevisedMini.key_index_offset(), 1);
    assert_eq!(Kind::Module15Keys.key_data_offset(), 4);
    assert!(Kind::Module32Keys.is_module());
    assert!(Kind::Plus.is_v2());
}

#[test]
fn product_ids() {
    assert_eq!(kind_from_pid(0x0060).unwrap(), Kind::Original);
    assert_eq!(kind_from_pid(0x0063).unwrap(), Kind::Mini);
    assert_eq!(kind_from_pid(0x006d).unwrap(), Kind::OriginalV2);
    assert_eq!(kind_from_pid(0x006c).unwrap(), Kind::Xl);
    assert_eq!(kind_from_pid(0x0080).unwrap(), Kind::Mk2);
    assert_eq!(kind_from_pid(0x0090).unwrap(), Kind::RevisedMini);
    assert_eq!(kind_from_pid(0x0084).unwrap(), Kind::Plus);
    assert!(matches!(kind_from_pid(0x1234), Err(Error::UnrecognisedPID)));
    assert_eq!(probe_entry(0x0080).unwrap(), (Kind::Mk2, 0x0080));
    assert!(matches!(probe_entry(0), Err(Error::UnrecognisedPID)));
}

#[test]
fn hex_ids() {
    assert_eq!(u16_parse_hex("0fd9"), Some(0x0fd9));
    assert_eq!(u16_parse_hex("0063"), Some(pids::MINI));
    assert_eq!(u16_parse_hex("+63"), Some(0x63));
    assert_eq!(u16_parse_hex("FFFF"), Some(0xffff));
    assert_eq!(u16_parse_hex("00000080"), Some(pids::MK2));
    assert_eq!(u16_parse_hex("10000"), None);
    assert_eq!(u16_parse_hex(""), None);
    assert_eq!(u16_parse_hex("+"), None);
    assert_eq!(u16_parse_hex("0x60"), None);
    assert_eq!(u16_parse_hex("-1"), None);
}
