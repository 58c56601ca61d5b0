use tdr2024::laps::{checkpoint_bit, lap_mask, LapState, RACE_LAPS};

#[test]
fn lap_counted_after_full_circuit() {
    let mask = lap_mask(&vec![1, 2, 4]);
    assert_eq!(mask, 7);
    let mut car = LapState::new();
    for (i, bit) in [1u32, 2, 4].iter().enumerate() {
        car.touch(*bit, mask);
        assert_eq!(car.lap_count, 0, "after touch {}", i);
    }
    assert_eq!(car.start_finish, 1);
    assert_eq!(car.sub_mask, 7);
    car.touch(1, mask);
    assert_eq!(car.lap_count, 1);
    assert_eq!(car.sub_mask, 1);
    assert_eq!(car.start_finish, 1);
}

#[test]
fn first_touch_sets_start_finish() {
    let mask = 7;
    let mut car = LapState::new();
    car.touch(2, mask);
    assert_eq!(car.start_finish, 2);
    assert_eq!(car.sub_mask, 2);
    car.touch(1, mask);
    car.touch(4, mask);
    assert_eq!(car.sub_mask, 7);
    assert_eq!(car.lap_count, 0);
    car.touch(1, mask);
    assert_eq!(car.lap_count, 0);
    car.touch(2, mask);
    assert_eq!(car.lap_count, 1);
    assert_eq!(car.sub_mask, 2);
}

#[test]
fn no_lap_without_every_checkpoint() {
    let mut car = LapState::new();
    for bit in [1u32, 2, 1, 2, 1] {
        car.touch(bit, 7);
    }
    assert_eq!(car.lap_count, 0);
    assert_eq!(car.sub_mask, 3);
}

#[test]
fn touch_all_applies_in_order() {
    let mut car = LapState::new();
    car.touch_all(&vec![4, 1, 2], 7);
    assert_eq!(car, LapState { lap_count: 0, sub_mask: 7, start_finish: 4 });
    car.touch_all(&vec![], 7);
    assert_eq!(car.sub_mask, 7);
    car.touch_all(&vec![1, 4], 7);
    assert_eq!(car, LapState { lap_count: 1, sub_mask: 4, start_finish: 4 });
}

#[test]
fn single_checkpoint_counts_every_touch() {
    let mut car = LapState::new();
    car.touch(1, 1);
    assert_eq!(car.lap_count, 1);
    car.touch(1, 1);
    assert_eq!(car.lap_count, 2);
}

#[test]
fn lap_mask_of_no_checkpoints_is_zero() {
    assert_eq!(lap_mask(&vec![]), 0);
    assert_eq!(lap_mask(&vec![8, 8, 1]), 9);
}

#[test]
fn checkpoint_bits_by_position() {
    assert_eq!(checkpoint_bit(0), Some(1));
    assert_eq!(checkpoint_bit(2), Some(4));
    assert_eq!(checkpoint_bit(31), Some(1 << 31));
    assert_eq!(checkpoint_bit(32), None);
}

#[test]
fn race_finishes_after_five_laps() {
    let mut car = LapState::new();
    assert_eq!(RACE_LAPS, 5);
    for lap in 0..5u32 {
        assert!(!car.finished(), "lap {}", lap);
        car.touch(1, 1);
    }
    assert!(car.finished());
}
