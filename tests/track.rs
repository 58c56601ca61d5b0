use tdr2024::track::TrackMask;

#[test]
fn mask_rejects_wrong_cell_count() {
    assert!(TrackMask::new(2, 2, vec![true; 3]).is_none());
    assert!(TrackMask::new(2, 2, vec![true; 5]).is_none());
    assert!(TrackMask::new(0, 0, vec![]).is_some());
}

#[test]
fn mask_lookup_by_row() {
    // Row 0: on, off, off; row 1: off, off, on.
    let mask = TrackMask::new(3, 2, vec![true, false, false, false, false, true]).unwrap();
    assert_eq!(mask.width(), 3);
    assert_eq!(mask.height(), 2);
    assert!(mask.is_on_track(0, 0));
    assert!(!mask.is_on_track(1, 0));
    assert!(mask.is_on_track(2, 1));
    assert!(!mask.is_on_track(0, 1));
}

#[test]
fn mask_outside_is_off_track() {
    let mask = TrackMask::new(2, 2, vec![true; 4]).unwrap();
    assert!(!mask.is_on_track(-1, 0));
    assert!(!mask.is_on_track(0, -1));
    assert!(!mask.is_on_track(2, 0));
    assert!(!mask.is_on_track(0, 2));
    assert!(!mask.is_on_track(i32::MIN, i32::MAX));
}
