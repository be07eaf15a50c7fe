use gopher_overlay::jump::JumpState;

fn stepped(state: JumpState, jump_step: u64, jump_count: u64) -> JumpState {
    let mut next = state;
    next.next(jump_step, jump_count);
    next
}

#[test]
fn grounded_stays_grounded() {
    assert_eq!(stepped(JumpState::Grounded, 6, 15), JumpState::Grounded);
}

#[test]
fn ascending_climbs_a_full_step_below_the_band() {
    assert_eq!(stepped(JumpState::Ascending(0), 6, 15), JumpState::Ascending(6));
    assert_eq!(stepped(JumpState::Ascending(48), 6, 15), JumpState::Ascending(54));
    assert_eq!(stepped(JumpState::Ascending(53), 6, 15), JumpState::Ascending(59));
}

#[test]
fn ascending_climbs_a_quarter_step_inside_the_band() {
    assert_eq!(stepped(JumpState::Ascending(54), 6, 15), JumpState::Ascending(55));
    assert_eq!(stepped(JumpState::Ascending(89), 6, 15), JumpState::Ascending(90));
    assert_eq!(stepped(JumpState::Ascending(60), 15, 6), JumpState::Ascending(63));
}

#[test]
fn apex_turns_into_descent_one_step_below_the_limit() {
    assert_eq!(stepped(JumpState::Ascending(90), 6, 15), JumpState::Descending(84));
    assert_eq!(stepped(JumpState::Ascending(95), 6, 15), JumpState::Descending(84));
    assert_eq!(stepped(JumpState::Ascending(90), 15, 6), JumpState::Descending(75));
}

#[test]
fn descending_drops_a_quarter_step_inside_the_band() {
    assert_eq!(stepped(JumpState::Descending(84), 6, 15), JumpState::Descending(83));
    assert_eq!(stepped(JumpState::Descending(54), 6, 15), JumpState::Descending(53));
    assert_eq!(stepped(JumpState::Descending(75), 15, 6), JumpState::Descending(72));
}

#[test]
fn descending_drops_a_full_step_below_the_band() {
    assert_eq!(stepped(JumpState::Descending(53), 6, 15), JumpState::Descending(47));
    assert_eq!(stepped(JumpState::Descending(6), 6, 15), JumpState::Descending(0));
}

#[test]
fn descent_never_passes_below_the_ground() {
    assert_eq!(stepped(JumpState::Descending(3), 6, 15), JumpState::Descending(0));
    assert_eq!(stepped(JumpState::Descending(1), 15, 6), JumpState::Descending(0));
}

#[test]
fn descent_at_ground_level_lands() {
    assert_eq!(stepped(JumpState::Descending(0), 6, 15), JumpState::Grounded);
}

#[test]
fn band_begins_at_exactly_six_tenths_of_the_limit() {
    // limit 96: six tenths is 57.6, so 57 is below the band and 58 inside.
    assert_eq!(stepped(JumpState::Ascending(57), 16, 6), JumpState::Ascending(73));
    assert_eq!(stepped(JumpState::Ascending(58), 16, 6), JumpState::Ascending(62));
    // limit 5: six tenths is exactly 3.
    assert_eq!(stepped(JumpState::Ascending(2), 5, 1), JumpState::Ascending(7));
    assert_eq!(stepped(JumpState::Ascending(3), 5, 1), JumpState::Ascending(4));
}

#[test]
fn small_step_stalls_inside_the_band() {
    // A quarter of a step below four is zero.
    assert_eq!(stepped(JumpState::Ascending(6), 1, 10), JumpState::Ascending(6));
    assert_eq!(stepped(JumpState::Descending(9), 1, 10), JumpState::Descending(9));
}

#[test]
fn jump_of_no_height_goes_straight_down() {
    assert_eq!(stepped(JumpState::Ascending(0), 0, 0), JumpState::Descending(0));
    assert_eq!(stepped(JumpState::Descending(0), 0, 0), JumpState::Grounded);
}

#[test]
fn full_jump_with_step_six_and_fifteen_steps() {
    let mut state = JumpState::Ascending(0);
    let mut heights: Vec<u64> = vec![0];
    // Nine full steps reach the band at 54.
    for tick in 1..=9u64 {
        state.next(6, 15);
        assert_eq!(state, JumpState::Ascending(6 * tick));
        heights.push(state.height());
    }
    // Thirty-six quarter steps of one reach the apex.
    for tick in 1..=36u64 {
        state.next(6, 15);
        assert_eq!(state, JumpState::Ascending(54 + tick));
        heights.push(state.height());
    }
    assert_eq!(state, JumpState::Ascending(90));
    state.next(6, 15);
    assert_eq!(state, JumpState::Descending(84));
    // Down by one while in the band, then by six.
    for tick in 1..=30u64 {
        state.next(6, 15);
        assert_eq!(state, JumpState::Descending(84 - tick));
    }
    assert_eq!(state, JumpState::Descending(54));
    state.next(6, 15);
    assert_eq!(state, JumpState::Descending(53));
    let mut expected: u64 = 53;
    while expected > 0 {
        expected = expected.saturating_sub(6);
        state.next(6, 15);
        assert_eq!(state, JumpState::Descending(expected));
    }
    state.next(6, 15);
    assert_eq!(state, JumpState::Grounded);
    assert!(heights.iter().all(|h| *h <= 90));
}

#[test]
fn full_jump_with_step_fifteen_and_six_steps() {
    let mut state = JumpState::Ascending(0);
    let mut seen: Vec<JumpState> = Vec::new();
    for _ in 0..200 {
        state.next(15, 6);
        seen.push(state);
        if state == JumpState::Grounded {
            break;
        }
    }
    assert_eq!(seen[0], JumpState::Ascending(15));
    assert_eq!(seen[3], JumpState::Ascending(60));
    assert_eq!(seen[4], JumpState::Ascending(63));
    assert_eq!(seen[13], JumpState::Ascending(90));
    assert_eq!(seen[14], JumpState::Descending(75));
    assert_eq!(*seen.last().unwrap(), JumpState::Grounded);
    assert!(seen.iter().all(|s| s.height() <= 90));
}

#[test]
fn height_reads_the_state() {
    assert_eq!(JumpState::Grounded.height(), 0);
    assert_eq!(JumpState::Ascending(17).height(), 17);
    assert_eq!(JumpState::Descending(4).height(), 4);
}

#[test]
fn every_jump_lands_within_climb_and_descent() {
    for (jump_step, jump_count) in [(6u64, 15u64), (15, 6), (4, 1), (9, 3), (16, 6), (5, 40)] {
        let limit = jump_step * jump_count;
        let bound = limit + (limit - jump_step) + 2;
        let mut state = JumpState::Ascending(0);
        let mut highest: u64 = 0;
        for _ in 0..bound {
            state.next(jump_step, jump_count);
            highest = highest.max(state.height());
        }
        assert_eq!(state, JumpState::Grounded);
        assert!(highest >= limit);
        assert!(highest <= limit + jump_step);
    }
}
