use streamdeck::commands::{brightness_report, reset_report, version_bytes, version_request};
use streamdeck::protocol::{image_reports, ImageTransfer};
use streamdeck::{Error, Kind};

fn payload(len: usize) -> Vec<u8> {
    (0..len).map(|i| (i % 251) as u8 + 1).collect()
}

#[test]
fn legacy_transfer_has_two_fixed_reports() {
    let kind = Kind::Original;
    let data = payload(kind.image_size_bytes());
    let reports = image_reports(kind, 0, &data).unwrap();
    assert_eq!(reports.len(), 2);
    let first = &reports[0];
    let second = &reports[1];
    assert_eq!(first.len(), 8191);
    assert_eq!(second.len(), 8191);
    // header: id, sub id, sequence 1, not last, hardware key 5
    assert_eq!(&first[0..6], &[0x02, 0x01, 1, 0, 0, 5]);
    assert_eq!(&second[0..6], &[0x02, 0x01, 2, 0, 1, 5]);
    assert!(first[6..16].iter().all(|b| *b == 0));
    assert_eq!(&first[16..70], kind.image_base().as_slice());
    assert_eq!(&first[70..70 + 7749], &data[0..7749]);
    assert_eq!(&second[16..16 + 7803], &data[7749..15552]);
    assert_eq!(7749 + 7803, kind.image_size_bytes());
    assert!(first[70 + 7749..].iter().all(|b| *b == 0));
    assert!(second[16 + 7803..].iter().all(|b| *b == 0));
}

#[test]
fn variable_transfer_chunks() {
    let kind = Kind::Mk2;
    let data = payload(2500);
    let reports = image_reports(kind, 2, &data).unwrap();
    assert_eq!(reports.len(), 3);
    let takes = [1016usize, 1016, 468];
    let mut offset = 0;
    for (i, r) in reports.iter().enumerate() {
        assert_eq!(r.len(), 1024);
        let take = takes[i];
        let last = i == 2;
        assert_eq!(r[0], 0x02);
        assert_eq!(r[1], 0x07);
        assert_eq!(r[2], 2);
        assert_eq!(r[3], if last { 1 } else { 0 });
        assert_eq!(u16::from_le_bytes([r[4], r[5]]) as usize, take);
        assert_eq!(u16::from_le_bytes([r[6], r[7]]) as usize, i);
        assert_eq!(&r[8..8 + take], &data[offset..offset + take]);
        assert!(r[8 + take..].iter().all(|b| *b == 0));
        offset += take;
    }
    assert_eq!(offset, data.len());
}

#[test]
fn variable_transfer_with_embedded_header() {
    let kind = Kind::Mini;
    let data = payload(kind.image_size_bytes());
    let reports = image_reports(kind, 0, &data).unwrap();
    // 954 bytes in the first report, 1008 in each later one
    assert_eq!(reports.len(), 1 + (19200 - 954 + 1007) / 1008);
    let first = &reports[0];
    assert_eq!(&first[0..6], &[0x02, 0x01, 0, 0, 0, 0]);
    assert_eq!(&first[16..70], kind.image_base().as_slice());
    assert_eq!(&first[70..1024], &data[0..954]);
    let second = &reports[1];
    assert_eq!(&second[0..6], &[0x02, 0x01, 1, 0, 0, 0]);
    assert_eq!(&second[16..1024], &data[954..1962]);
    let last = reports.last().unwrap();
    assert_eq!(last[4], 1);
    let total: usize = 954 + (reports.len() - 2) * 1008;
    let rest = 19200 - total;
    assert_eq!(&last[16..16 + rest], &data[total..]);
    assert!(last[16 + rest..].iter().all(|b| *b == 0));
}

#[test]
fn variable_transfer_exact_fit_and_empty() {
    let kind = Kind::Xl;
    let reports = image_reports(kind, 0, &payload(1016)).unwrap();
    assert_eq!(reports.len(), 1);
    assert_eq!(reports[0][3], 1);
    let reports = image_reports(kind, 0, &payload(1017)).unwrap();
    assert_eq!(reports.len(), 2);
    assert_eq!(reports[0][3], 0);
    assert_eq!(reports[1][3], 1);
    assert_eq!(u16::from_le_bytes([reports[1][4], reports[1][5]]), 1);
    assert!(image_reports(kind, 0, &[]).unwrap().is_empty());
}

#[test]
fn wrong_bitmap_size_is_refused() {
    let r = image_reports(Kind::Original, 0, &payload(100));
    assert!(matches!(r, Err(Error::InvalidImageSize)));
    let r = image_reports(Kind::Mini, 0, &payload(19199));
    assert!(matches!(r, Err(Error::InvalidImageSize)));
    assert!(matches!(
        ImageTransfer::new(Kind::Original, 0, payload(15551)),
        Err(Error::InvalidImageSize)
    ));
}

#[test]
fn bad_key_is_refused_before_framing() {
    let r = image_reports(Kind::Mk2, 15, &payload(10));
    assert!(matches!(r, Err(Error::InvalidKeyIndex)));
}

#[test]
fn transfer_steps_match_whole_framing() {
    for (kind, len) in [(Kind::Original, 15552usize), (Kind::Plus, 3000), (Kind::Module6Keys, 19200)] {
        let data = payload(len);
        let all = image_reports(kind, 1, &data).unwrap();
        let mut t = ImageTransfer::new(kind, 1, data.clone()).unwrap();
        assert_eq!(t.report_count(), all.len());
        let mut buf = Vec::new();
        let mut n = 0;
        while t.next_report(&mut buf) {
            assert_eq!(buf, all[n]);
            n += 1;
        }
        assert_eq!(n, all.len());
        assert!(!t.next_report(&mut buf));
    }
}

#[test]
fn command_reports() {
    let r = reset_report(Kind::Mk2);
    assert_eq!(r.len(), 17);
    assert_eq!(&r[0..3], &[0x03, 0x02, 0]);
    let r = reset_report(Kind::Original);
    assert_eq!(&r[0..3], &[0x0b, 0x63, 0]);
    let r = brightness_report(Kind::Xl, 250);
    assert_eq!(&r[0..4], &[0x03, 0x08, 100, 0]);
    let r = brightness_report(Kind::Mini, 42);
    assert_eq!(&r[0..7], &[0x05, 0x55, 0xaa, 0xd1, 0x01, 42, 0]);
    assert_eq!(version_request(Kind::Mk2)[0], 0x05);
    assert_eq!(version_request(Kind::Original)[0], 0x04);
    let mut answer = vec![0u8; 17];
    answer[6..11].copy_from_slice(b"1.0.0");
    let v = version_bytes(Kind::Mk2, &answer);
    assert_eq!(&v[0..5], b"1.0.0");
    assert_eq!(v.len(), 11);
    assert_eq!(version_bytes(Kind::Mini, &answer).len(), 12);
}
