use progress_bar::tracker::{ProgressPos, POS_LIMIT, POS_SCALE};

#[test]
fn progress_pos_add() {
    let mut orig = ProgressPos::new(0);

    orig.add(1 * POS_SCALE);
    assert_eq!(orig.load(), 1 * POS_SCALE);
    orig.add(2 * POS_SCALE);
    assert_eq!(orig.load(), 3 * POS_SCALE);
    orig.add(10 * POS_SCALE);
    assert_eq!(orig.load(), 13 * POS_SCALE);
}

#[test]
fn new_keeps_the_given_value() {
    let pos = ProgressPos::new(7 * POS_SCALE);
    assert_eq!(pos.load(), 7 * POS_SCALE);
}

#[test]
fn clamp_engages_at_ceiling() {
    let mut pos = ProgressPos::new(95 * POS_SCALE);
    pos.add(10 * POS_SCALE);
    assert_eq!(pos.load(), POS_LIMIT);
}

#[test]
fn clamp_is_idempotent() {
    let mut pos = ProgressPos::new(0);
    pos.add(POS_LIMIT);
    assert_eq!(pos.load(), POS_LIMIT);
    pos.add(1);
    assert_eq!(pos.load(), POS_LIMIT);
    pos.add(u64::MAX);
    assert_eq!(pos.load(), POS_LIMIT);
}

#[test]
fn total_is_clamped_sum() {
    let mut pos = ProgressPos::new(0);
    pos.add(30 * POS_SCALE);
    pos.add(20 * POS_SCALE);
    pos.add(25 * POS_SCALE);
    assert_eq!(pos.load(), 75 * POS_SCALE);
    pos.add(40 * POS_SCALE);
    assert_eq!(pos.load(), POS_LIMIT);
}

#[test]
fn load_is_monotone() {
    let mut pos = ProgressPos::new(0);
    let mut last: u64 = pos.load();
    let deltas: [u64; 6] = [0, 40 * POS_SCALE, 0, 70 * POS_SCALE, 5, u64::MAX];
    for d in deltas {
        pos.add(d);
        let now = pos.load();
        assert!(now >= last);
        last = now;
    }
}

#[test]
fn overflow_saturates_at_ceiling() {
    let mut pos = ProgressPos::new(3);
    pos.add(u64::MAX);
    assert_eq!(pos.load(), POS_LIMIT);
}
