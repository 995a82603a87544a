use actuator::session::{decode, ABS_MT_POSITION_X, ABS_MT_POSITION_Y, ABS_MT_SLOT, ABS_MT_TRACKING_ID};
use actuator::{Event, Geometry, GestureSession};

fn geometry() -> Geometry {
    Geometry { screen_width: 1000, screen_height: 1000, edge_tolerance: 50, min_distance: 50 }
}

fn down(slot: i32, id: i32, x: i32, y: i32) -> Vec<(u16, i32)> {
    vec![(ABS_MT_SLOT, slot), (ABS_MT_TRACKING_ID, id), (ABS_MT_POSITION_X, x), (ABS_MT_POSITION_Y, y)]
}

fn motion(slot: i32, x: i32, y: i32) -> Vec<(u16, i32)> {
    vec![(ABS_MT_SLOT, slot), (ABS_MT_POSITION_X, x), (ABS_MT_POSITION_Y, y)]
}

fn lift(slot: i32) -> Vec<(u16, i32)> {
    vec![(ABS_MT_SLOT, slot), (ABS_MT_TRACKING_ID, -1)]
}

#[test]
fn decode_recognises_codes() {
    assert_eq!(decode(ABS_MT_SLOT, 3), Event::SlotSelect(3));
    assert_eq!(decode(ABS_MT_POSITION_X, 17), Event::PositionX(17));
    assert_eq!(decode(ABS_MT_POSITION_Y, -2), Event::PositionY(-2));
    assert_eq!(decode(ABS_MT_TRACKING_ID, 42), Event::TouchDown);
    assert_eq!(decode(ABS_MT_TRACKING_ID, -1), Event::TouchUp);
    assert_eq!(decode(0x30, 5), Event::Other);
}

#[test]
fn one_finger_swipe_up() {
    let mut s = GestureSession::new();
    assert_eq!(s.handle_batch(&down(0, 7, 5, 500), &geometry(), false), None);
    assert_eq!(s.held(), 1);
    assert_eq!(s.handle_batch(&motion(0, 5, 300), &geometry(), false), None);
    assert_eq!(s.handle_batch(&motion(0, 5, 100), &geometry(), false), None);
    assert_eq!(s.handle_batch(&lift(0), &geometry(), false), Some("1_up".to_string()));
    assert_eq!(s.tracks().len(), 0);
    assert_eq!(s.held(), 0);
}

#[test]
fn one_finger_swipe_from_left() {
    let mut s = GestureSession::new();
    s.handle_batch(&down(0, 7, 5, 500), &geometry(), false);
    s.handle_batch(&motion(0, 400, 510), &geometry(), false);
    assert_eq!(s.handle_batch(&lift(0), &geometry(), false), Some("1_from_left".to_string()));
}

#[test]
fn two_finger_pinch_session() {
    let mut s = GestureSession::new();
    let mut start = down(0, 1, 0, 500);
    start.extend(down(1, 2, 200, 500));
    s.handle_batch(&start, &geometry(), false);
    assert_eq!(s.held(), 2);
    let mut end = motion(0, 100, 500);
    end.extend(motion(1, 100, 500));
    s.handle_batch(&end, &geometry(), false);
    assert_eq!(s.finger_count(), 2);
    assert_eq!(s.handle_batch(&lift(1), &geometry(), false), None);
    assert_eq!(s.handle_batch(&lift(0), &geometry(), false), Some("2_pinch".to_string()));
}

#[test]
fn two_finger_parallel_session() {
    let mut s = GestureSession::new();
    let mut start = down(0, 1, 500, 500);
    start.extend(down(1, 2, 500, 600));
    s.handle_batch(&start, &geometry(), false);
    let mut end = motion(0, 600, 500);
    end.extend(motion(1, 590, 605));
    end.extend(lift(0));
    end.extend(lift(1));
    assert_eq!(s.handle_batch(&end, &geometry(), false), Some("2_right".to_string()));
}

#[test]
fn tap_session_gives_no_key() {
    let mut s = GestureSession::new();
    s.handle_batch(&down(0, 1, 500, 500), &geometry(), false);
    s.handle_batch(&motion(0, 530, 540), &geometry(), false);
    assert_eq!(s.handle_batch(&lift(0), &geometry(), false), None);
    assert_eq!(s.tracks().len(), 0);
    assert!(!s.is_complete());
}

#[test]
fn finger_count_counts_touched_slots() {
    let mut s = GestureSession::new();
    let mut evs = down(0, 1, 500, 500);
    evs.extend(down(1, 2, 600, 500));
    evs.extend(lift(1));
    evs.push((ABS_MT_SLOT, 4));
    s.handle_batch(&evs, &geometry(), false);
    assert_eq!(s.held(), 1);
    assert_eq!(s.finger_count(), 2);
    assert_eq!(s.slots(), &vec![0, 1, 4]);
    assert_eq!(s.current_slot(), 4);
}

#[test]
fn lift_below_zero_is_clamped() {
    let mut s = GestureSession::new();
    s.on_touch_up();
    assert_eq!(s.held(), 0);
    s.on_touch_down();
    s.on_touch_down();
    s.on_touch_up();
    assert_eq!(s.held(), 1);
}

#[test]
fn complete_only_with_samples_and_no_touch() {
    let mut s = GestureSession::default();
    assert!(!s.is_complete());
    s.apply(Event::TouchDown);
    s.apply(Event::PositionX(10));
    assert!(!s.is_complete());
    s.apply(Event::TouchUp);
    assert!(s.is_complete());
    assert_eq!(s.finger_count(), 1);
}

#[test]
fn position_without_slot_goes_to_slot_zero() {
    let mut s = GestureSession::new();
    s.on_position_x(3);
    s.on_position_y(4);
    assert_eq!(s.slots(), &vec![0]);
    assert_eq!(s.tracks()[0].start(), (3, 4));
}

#[test]
fn reset_twice_changes_nothing() {
    let mut s = GestureSession::new();
    s.handle_batch(&down(0, 1, 5, 500), &geometry(), false);
    s.reset();
    assert_eq!(s.tracks().len(), 0);
    assert_eq!(s.slots().len(), 0);
    assert_eq!(s.held(), 0);
    assert_eq!(s.current_slot(), 0);
    s.reset();
    assert_eq!(s.tracks().len(), 0);
    assert_eq!(s.slots().len(), 0);
    assert_eq!(s.held(), 0);
    assert_eq!(s.current_slot(), 0);
    assert_eq!(s.finish(&geometry(), false), None);
}

#[test]
fn held_session_does_not_finish() {
    let mut s = GestureSession::new();
    s.handle_batch(&down(0, 1, 500, 500), &geometry(), false);
    assert_eq!(s.finish(&geometry(), false), None);
    assert_eq!(s.finger_count(), 1);
}
