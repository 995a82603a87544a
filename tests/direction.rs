use actuator::Direction;

#[test]
fn keys_name_count_and_directive() {
    assert_eq!(Direction::FromTop.to_key(1), "1_from_top");
    assert_eq!(Direction::FromBottom.to_key(2), "2_from_bottom");
    assert_eq!(Direction::FromLeft.to_key(3), "3_from_left");
    assert_eq!(Direction::FromRight.to_key(1), "1_from_right");
    assert_eq!(Direction::Left.to_key(2), "2_left");
    assert_eq!(Direction::Right.to_key(3), "3_right");
    assert_eq!(Direction::Up.to_key(1), "1_up");
    assert_eq!(Direction::Down.to_key(2), "2_down");
    assert_eq!(Direction::Pinch.to_key(2), "2_pinch");
    assert_eq!(Direction::Spread.to_key(3), "3_spread");
}

#[test]
fn keys_write_counts_in_decimal() {
    assert_eq!(Direction::Up.to_key(0), "0_up");
    assert_eq!(Direction::Up.to_key(10), "10_up");
    assert_eq!(Direction::Pinch.to_key(907), "907_pinch");
    assert_eq!(Direction::Down.to_key(usize::MAX), format!("{}_down", usize::MAX));
}
