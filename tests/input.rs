use streamdeck::input::{decode_buttons, input_report_len};
use streamdeck::{Error, Kind};

#[test]
fn empty_report_is_no_data() {
    let report = vec![0u8; input_report_len(Kind::Mk2)];
    assert!(matches!(decode_buttons(Kind::Mk2, &report), Err(Error::NoData)));
}

#[test]
fn left_to_right_keys_in_order() {
    let kind = Kind::Mini;
    let mut report = vec![0u8; input_report_len(kind)];
    report[0] = 1;
    report[1..5].copy_from_slice(&[1, 0, 0, 1]);
    let keys = decode_buttons(kind, &report).unwrap();
    assert_eq!(keys, vec![1, 0, 0, 1, 0, 0]);

    let kind = Kind::Mk2;
    let mut report = vec![0u8; input_report_len(kind)];
    report[0] = 1;
    report[4..8].copy_from_slice(&[1, 0, 0, 1]);
    let keys = decode_buttons(kind, &report).unwrap();
    assert_eq!(&keys[0..4], &[1, 0, 0, 1]);
    assert_eq!(keys.len(), 15);
}

#[test]
fn right_to_left_keys_are_reordered() {
    let kind = Kind::Original;
    let mut report = vec![0u8; input_report_len(kind)];
    report[0] = 1;
    // hardware index 5 is logical key 0, hardware index 1 is logical key 4
    report[5] = 7;
    report[1] = 9;
    let keys = decode_buttons(kind, &report).unwrap();
    assert_eq!(keys[0], 7);
    assert_eq!(keys[4], 9);
    assert_eq!(keys.iter().filter(|b| **b != 0).count(), 2);
}

#[test]
fn dial_events_are_unsupported() {
    let kind = Kind::Plus;
    let mut report = vec![0u8; input_report_len(kind)];
    report[0] = 1;
    report[1] = 3;
    assert!(matches!(decode_buttons(kind, &report), Err(Error::UnsupportedInput)));
    report[1] = 0;
    report[4..12].copy_from_slice(&[1, 0, 0, 1, 0, 0, 0, 0]);
    assert_eq!(decode_buttons(kind, &report).unwrap(), vec![1, 0, 0, 1, 0, 0, 0, 0]);
}
