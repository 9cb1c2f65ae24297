use led_life::status::{Status, WAIT_TIME};

#[test]
fn flip_from_normal_starts_a_full_hold() {
    assert_eq!(Status::Normal.flip(), Status::Wait(WAIT_TIME));
}

#[test]
fn waiting_w_times_counts_a_full_hold_down_to_zero() {
    let mut s = Status::Wait(WAIT_TIME);
    for _ in 0..WAIT_TIME {
        s = s.wait_one();
    }
    assert_eq!(s, Status::Wait(0));
}

#[test]
fn waiting_on_an_expired_hold_saturates_at_zero() {
    assert_eq!(Status::Wait(0).wait_one(), Status::Wait(0));
}

#[test]
fn flip_releases_any_hold_immediately() {
    assert_eq!(Status::Wait(0).flip(), Status::Normal);
    assert_eq!(Status::Wait(1).flip(), Status::Normal);
    assert_eq!(Status::Wait(WAIT_TIME).flip(), Status::Normal);
    assert_eq!(Status::Wait(u16::MAX).flip(), Status::Normal);
}

#[test]
fn wait_one_leaves_normal_alone() {
    assert_eq!(Status::Normal.wait_one(), Status::Normal);
}
