use tdr2024::steering::{ai_controls, off_track_shortfall, Controls, Whiskers};

fn readings(left_far: i32, right_far: i32, left_near: i32, right_near: i32, front: i32) -> Whiskers {
    Whiskers { left_far, right_far, left_near, right_near, front }
}

#[test]
fn ai_turns_towards_brighter_side() {
    let c = ai_controls(&readings(200, 100, 0, 0, 0));
    assert_eq!(c, Controls { turn_left: true, turn_right: false, accelerate: false });
    assert_eq!(c.turn(), 1);
    let c = ai_controls(&readings(0, 0, 30, 41, 51));
    assert_eq!(c, Controls { turn_left: false, turn_right: true, accelerate: true });
    assert_eq!(c.turn(), -1);
}

#[test]
fn ai_ignores_differences_within_margin() {
    let c = ai_controls(&readings(110, 100, 90, 100, 50));
    assert_eq!(c, Controls { turn_left: false, turn_right: false, accelerate: false });
    assert_eq!(c.turn(), 0);
    let c = ai_controls(&readings(111, 100, 100, 100, 50));
    assert!(c.turn_left);
}

#[test]
fn ai_pairs_disagreeing_cancel_out() {
    let c = ai_controls(&readings(200, 0, 0, 200, 255));
    assert!(c.turn_left && c.turn_right);
    assert_eq!(c.turn(), 0);
    assert!(c.accelerate);
}

#[test]
fn ai_mirror_reverses_turn() {
    let w = readings(120, 40, 80, 85, 10);
    let m = readings(40, 120, 85, 80, 10);
    assert_eq!(ai_controls(&w).turn(), 1);
    assert_eq!(ai_controls(&m).turn(), -1);
    assert_eq!(ai_controls(&w).accelerate, ai_controls(&m).accelerate);
}

#[test]
fn ai_extreme_readings_do_not_overflow() {
    let c = ai_controls(&readings(i32::MIN, i32::MAX, i32::MAX, i32::MIN, i32::MAX));
    assert_eq!(c, Controls { turn_left: true, turn_right: true, accelerate: true });
}

#[test]
fn off_track_drag_rule() {
    assert_eq!(off_track_shortfall(140), None);
    assert_eq!(off_track_shortfall(255), None);
    assert_eq!(off_track_shortfall(139), Some(1));
    assert_eq!(off_track_shortfall(70), Some(70));
    assert_eq!(off_track_shortfall(0), Some(140));
    assert_eq!(off_track_shortfall(i32::MIN), Some(140 + 2147483648));
}
