use streamdeck::{Error, Kind};

const ALL: [Kind; 10] = [
    Kind::Original,
    Kind::OriginalV2,
    Kind::Mini,
    Kind::RevisedMini,
    Kind::Xl,
    Kind::Mk2,
    Kind::Plus,
    Kind::Module6Keys,
    Kind::Module15Keys,
    Kind::Module32Keys,
];

#[test]
fn right_to_left_scenario() {
    let k = Kind::Original;
    assert_eq!(k.translate_key_index(0).unwrap(), 5);
    assert_eq!(k.translate_key_index(4).unwrap(), 1);
    assert_eq!(k.translate_key_index(5).unwrap(), 10);
    assert_eq!(k.translate_key_index(14).unwrap(), 11);
}

#[test]
fn translation_round_trips_for_every_kind() {
    for kind in ALL {
        let mut seen = vec![false; 256];
        for i in 0..kind.keys() {
            let h = kind.translate_key_index(i).unwrap();
            assert!(!seen[h as usize]);
            seen[h as usize] = true;
            assert_eq!(kind.logical_key_index(h).unwrap(), i);
        }
    }
}

#[test]
fn left_to_right_offsets() {
    assert_eq!(Kind::Mk2.translate_key_index(3).unwrap(), 3);
    assert_eq!(Kind::RevisedMini.translate_key_index(0).unwrap(), 1);
    assert_eq!(Kind::RevisedMini.logical_key_index(6).unwrap(), 5);
    assert!(matches!(Kind::RevisedMini.logical_key_index(0), Err(Error::InvalidKeyIndex)));
}

#[test]
fn key_out_of_range() {
    assert!(matches!(Kind::Mk2.translate_key_index(15), Err(Error::InvalidKeyIndex)));
    assert!(matches!(Kind::Original.translate_key_index(15), Err(Error::InvalidKeyIndex)));
    assert!(matches!(Kind::Original.logical_key_index(0), Err(Error::InvalidKeyIndex)));
    assert!(matches!(Kind::Original.logical_key_index(16), Err(Error::InvalidKeyIndex)));
}
