use platformer::animation::{advance_frame, animate_sprite, AnimationTimer};

const TENTH: u64 = 100_000_000;

#[test]
fn new_timer_has_not_run() {
    let timer = AnimationTimer::new(TENTH, 11);
    assert_eq!(timer, AnimationTimer { elapsed_nanos: 0, period_nanos: TENTH, frame_count: 11 });
}

#[test]
fn frame_stays_until_the_period_is_reached() {
    let mut timer = AnimationTimer::new(TENTH, 11);
    assert_eq!(animate_sprite(&mut timer, 60_000_000, 3), 3);
    assert_eq!(timer.elapsed_nanos, 60_000_000);
    assert_eq!(animate_sprite(&mut timer, 39_999_999, 3), 3);
    assert_eq!(timer.elapsed_nanos, 99_999_999);
    assert_eq!(animate_sprite(&mut timer, 1, 3), 4);
    assert_eq!(timer.elapsed_nanos, 0);
    assert_eq!(timer.period_nanos, TENTH);
    assert_eq!(timer.frame_count, 11);
}

#[test]
fn timer_wraps_around_and_keeps_the_remainder() {
    let mut timer = AnimationTimer::new(TENTH, 11);
    assert_eq!(animate_sprite(&mut timer, 60_000_000, 0), 0);
    assert_eq!(animate_sprite(&mut timer, 60_000_000, 0), 1);
    assert_eq!(timer.elapsed_nanos, 20_000_000);
    assert_eq!(animate_sprite(&mut timer, 350_000_000, 1), 2);
    assert_eq!(timer.elapsed_nanos, 70_000_000);
}

#[test]
fn last_frame_is_followed_by_the_first() {
    let mut timer = AnimationTimer::new(TENTH, 11);
    let mut index = 0;
    let mut seen = vec![];
    for _ in 0..23 {
        index = animate_sprite(&mut timer, TENTH, index);
        seen.push(index);
    }
    assert_eq!(seen, vec![1, 2, 3, 4, 5, 6, 7, 8, 9, 10, 0, 1, 2, 3, 4, 5, 6, 7, 8, 9, 10, 0, 1]);
}

#[test]
fn frame_advances_once_per_tick_however_long() {
    let mut timer = AnimationTimer::new(TENTH, 11);
    assert_eq!(animate_sprite(&mut timer, 10 * TENTH + 5, 0), 1);
    assert_eq!(timer.elapsed_nanos, 5);
}

#[test]
fn sixty_frames_a_second_show_each_sprite_six_frames() {
    let mut timer = AnimationTimer::new(TENTH, 11);
    let mut index = 0;
    let mut changes = 0;
    for _ in 0..60 {
        let next = animate_sprite(&mut timer, 16_666_667, index);
        if next != index {
            changes += 1;
        }
        index = next;
    }
    assert_eq!(changes, 10);
    assert_eq!(index, 10);
    assert_eq!(timer.elapsed_nanos, 60 * 16_666_667 - 10 * TENTH);
}

#[test]
fn timer_without_a_period_finishes_on_every_tick() {
    let mut timer = AnimationTimer::new(0, 4);
    assert_eq!(animate_sprite(&mut timer, 0, 0), 1);
    assert_eq!(animate_sprite(&mut timer, 12345, 1), 2);
    assert_eq!(timer.elapsed_nanos, 0);
}

#[test]
fn finish_count_is_kept_in_thirty_two_bits() {
    let mut timer = AnimationTimer::new(1, 4);
    assert_eq!(animate_sprite(&mut timer, 1 << 32, 2), 2);
    assert_eq!(timer.elapsed_nanos, 0);
    assert_eq!(animate_sprite(&mut timer, (1 << 32) + 1, 2), 3);
    assert_eq!(animate_sprite(&mut timer, (1 << 32) - 1, 3), 0);
}

#[test]
fn largest_times_do_not_overflow() {
    let mut timer = AnimationTimer { elapsed_nanos: u64::MAX, period_nanos: u64::MAX, frame_count: 2 };
    assert_eq!(animate_sprite(&mut timer, u64::MAX, 0), 1);
    assert_eq!(timer.elapsed_nanos, 0);
    let mut timer = AnimationTimer { elapsed_nanos: u64::MAX - 1, period_nanos: u64::MAX, frame_count: 2 };
    assert_eq!(animate_sprite(&mut timer, 0, 0), 0);
    assert_eq!(timer.elapsed_nanos, u64::MAX - 1);
    assert_eq!(animate_sprite(&mut timer, 3, 0), 1);
    assert_eq!(timer.elapsed_nanos, 2);
}

#[test]
fn single_frame_sheet_stays_on_its_frame() {
    let mut timer = AnimationTimer::new(TENTH, 1);
    assert_eq!(animate_sprite(&mut timer, TENTH, 0), 0);
    assert_eq!(animate_sprite(&mut timer, TENTH, 7), 0);
}

#[test]
fn index_beyond_the_sheet_is_brought_back_into_it() {
    let mut timer = AnimationTimer::new(TENTH, 11);
    assert_eq!(animate_sprite(&mut timer, TENTH, 25), 4);
    assert_eq!(advance_frame(25, 11, true), 4);
    assert_eq!(advance_frame(25, 11, false), 25);
    assert_eq!(advance_frame(usize::MAX - 1, 11, true), usize::MAX % 11);
    assert_eq!(advance_frame(usize::MAX, 0, false), usize::MAX);
}

fn expected_tick(elapsed: u64, period: u64, delta: u64) -> (u64, bool) {
    let total = elapsed as u128 + delta as u128;
    if period == 0 {
        (0, true)
    } else {
        let laps = (total / period as u128) % (1u128 << 32);
        ((total % period as u128) as u64, laps > 0)
    }
}

#[test]
fn timer_follows_its_formula_on_many_inputs() {
    let corners = [0, 1, 2, 99, 100, 101, (1 << 32) - 1, 1 << 32, (1 << 32) + 1, u64::MAX - 1, u64::MAX];
    let mut cases = vec![];
    for &elapsed in corners.iter() {
        for &period in corners.iter() {
            for &delta in corners.iter() {
                cases.push((elapsed, period, delta));
            }
        }
    }
    let mut seed: u64 = 0x9e37_79b9_7f4a_7c15;
    for round in 0..5000 {
        let mut draw = || {
            seed ^= seed << 13;
            seed ^= seed >> 7;
            seed ^= seed << 17;
            seed >> (seed % 64)
        };
        let period = draw();
        let elapsed = if round % 2 == 0 { draw() } else { draw() % period.max(1) };
        let delta = draw();
        cases.push((elapsed, period, delta));
    }
    for (elapsed, period, delta) in cases {
        let mut timer = AnimationTimer { elapsed_nanos: elapsed, period_nanos: period, frame_count: 7 };
        let next = animate_sprite(&mut timer, delta, 6);
        let (wrapped, finished) = expected_tick(elapsed, period, delta);
        assert_eq!(timer.elapsed_nanos, wrapped, "elapsed {} period {} delta {}", elapsed, period, delta);
        assert_eq!(next, if finished { 0 } else { 6 }, "elapsed {} period {} delta {}", elapsed, period, delta);
        assert_eq!(timer.period_nanos, period);
        assert_eq!(timer.frame_count, 7);
    }
}
