use sdiff::SplitState;

#[test]
fn negative_pointer_stores_its_absolute_value() {
    let mut split = SplitState::new(0);
    split.update(-5);
    assert_eq!(split.cut_at(), 5);
    assert_eq!(split.clamped_cut(400), 5);
}

#[test]
fn pointer_beyond_the_image_is_clamped_to_its_width() {
    let mut split = SplitState::new(0);
    split.update(1000);
    assert_eq!(split.cut_at(), 1000);
    assert_eq!(split.clamped_cut(400), 400);
}

#[test]
fn fractional_pointer_positions_lose_their_fraction() {
    let mut split = SplitState::new(0);
    split.update(-5.7_f64 as i64);
    assert_eq!(split.cut_at(), 5);
    split.update(123.999_f64 as i64);
    assert_eq!(split.cut_at(), 123);
    split.update(f64::NAN as i64);
    assert_eq!(split.cut_at(), 0);
    split.update(f64::NEG_INFINITY as i64);
    assert_eq!(split.cut_at(), u32::MAX);
}

#[test]
fn update_does_not_clamp() {
    let mut split = SplitState::centered(400);
    split.update(401);
    assert_eq!(split.cut_at(), 401);
    split.update(0);
    assert_eq!(split.cut_at(), 0);
}

#[test]
fn update_saturates_at_the_largest_offset() {
    let mut split = SplitState::new(7);
    split.update(4_294_967_295);
    assert_eq!(split.cut_at(), u32::MAX);
    split.update(4_294_967_296);
    assert_eq!(split.cut_at(), u32::MAX);
    split.update(-4_294_967_295);
    assert_eq!(split.cut_at(), u32::MAX);
    split.update(-4_294_967_294);
    assert_eq!(split.cut_at(), 4_294_967_294);
    split.update(-4_294_967_296);
    assert_eq!(split.cut_at(), u32::MAX);
    split.update(i64::MAX);
    assert_eq!(split.cut_at(), u32::MAX);
    split.update(i64::MIN);
    assert_eq!(split.cut_at(), u32::MAX);
}

#[test]
fn centered_is_half_the_width_rounded_down() {
    assert_eq!(SplitState::centered(400).cut_at(), 200);
    assert_eq!(SplitState::centered(401).cut_at(), 200);
    assert_eq!(SplitState::centered(1).cut_at(), 0);
    assert_eq!(SplitState::centered(0).cut_at(), 0);
    assert_eq!(SplitState::centered(u32::MAX).cut_at(), 2_147_483_647);
}

#[test]
fn clamped_cut_is_the_smaller_of_offset_and_width() {
    assert_eq!(SplitState::new(0).clamped_cut(400), 0);
    assert_eq!(SplitState::new(399).clamped_cut(400), 399);
    assert_eq!(SplitState::new(400).clamped_cut(400), 400);
    assert_eq!(SplitState::new(401).clamped_cut(400), 400);
    assert_eq!(SplitState::new(u32::MAX).clamped_cut(0), 0);
    assert_eq!(SplitState::new(u32::MAX).clamped_cut(u32::MAX), u32::MAX);
}

#[test]
fn clamped_cut_is_monotonic_and_in_range() {
    for width in [0u32, 1, 7, 400] {
        let mut previous = 0u32;
        for stored in 0u32..=(width + 20) {
            let cut = SplitState::new(stored).clamped_cut(width);
            assert!(cut <= width);
            assert!(previous <= cut);
            previous = cut;
        }
    }
}

#[test]
fn clamping_leaves_the_stored_offset_alone() {
    let mut split = SplitState::new(0);
    split.update(1000);
    assert_eq!(split.clamped_cut(400), 400);
    assert_eq!(split.cut_at(), 1000);
    assert_eq!(split.clamped_cut(2000), 1000);
}
