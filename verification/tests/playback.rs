use rsvp_reader::playback::{
    interval, Mode, PlaybackState, MAX_RATE, MINUTE_MS, MIN_RATE, POLL_INTERVAL_MS, RATE_STEP,
};

fn state(words: usize, rate: u32, now: u64) -> PlaybackState {
    PlaybackState::new(words, rate, now).expect("a text with words")
}

#[test]
fn constants_have_their_values() {
    assert_eq!(MIN_RATE, 25);
    assert_eq!(RATE_STEP, 25);
    assert_eq!(MAX_RATE, u32::MAX);
    assert_eq!(MINUTE_MS, 60_000);
    assert_eq!(POLL_INTERVAL_MS, 100);
}

#[test]
fn interval_divides_a_minute_by_the_rate() {
    assert_eq!(interval(250), 240);
    assert_eq!(interval(60), 1000);
    assert_eq!(interval(25), 2400);
    assert_eq!(interval(300), 200);
    assert_eq!(interval(1), 60_000);
}

#[test]
fn interval_rounds_down_at_rates_that_do_not_divide_a_minute() {
    assert_eq!(interval(7), 8571);
    assert_eq!(interval(130), 461);
    assert_eq!(interval(275), 218);
    assert_eq!(interval(59_999), 1);
    assert_eq!(interval(60_000), 1);
    assert_eq!(interval(60_001), 0);
    assert_eq!(interval(u32::MAX), 0);
}

#[test]
fn interval_is_the_largest_that_fits_the_minute() {
    for rate in 25..2000u32 {
        let ms = interval(rate);
        assert!(ms * (rate as u64) <= 60_000, "rate {}", rate);
        assert!((ms + 1) * (rate as u64) > 60_000, "rate {}", rate);
    }
}

#[test]
fn new_state_is_paused_on_the_first_word() {
    let s = state(3, 250, 1234);
    assert_eq!(s.len(), 3);
    assert_eq!(s.index(), 0);
    assert_eq!(s.rate(), 250);
    assert!(s.is_paused());
    assert_eq!(s.last_advance(), 1234);
    assert!(!s.is_finished());
    assert_eq!(s.mode(), Mode::Paused);
    assert_eq!(s.interval(), 240);
}

#[test]
fn new_state_needs_a_word() {
    assert!(PlaybackState::new(0, 250, 0).is_none());
    assert!(PlaybackState::new(1, 250, 0).is_some());
}

#[test]
fn new_state_raises_a_rate_below_the_minimum() {
    assert_eq!(state(3, 0, 0).rate(), 25);
    assert_eq!(state(3, 10, 0).rate(), 25);
    assert_eq!(state(3, 24, 0).rate(), 25);
    assert_eq!(state(3, 25, 0).rate(), 25);
    assert_eq!(state(3, 26, 0).rate(), 26);
    assert_eq!(state(3, u32::MAX, 0).rate(), u32::MAX);
}

#[test]
fn rate_never_drops_below_the_minimum() {
    let mut s = state(3, 250, 0);
    let mut expected: u32 = 250;
    for _ in 0..40 {
        s.decrease_rate();
        expected = if expected >= 50 { expected - 25 } else { 25 };
        assert_eq!(s.rate(), expected);
        assert!(s.rate() >= 25);
    }
    assert_eq!(s.rate(), 25);
}

#[test]
fn rate_just_above_the_minimum_drops_to_it() {
    let mut s = state(3, 49, 0);
    s.decrease_rate();
    assert_eq!(s.rate(), 25);
    let mut s = state(3, 50, 0);
    s.decrease_rate();
    assert_eq!(s.rate(), 25);
    let mut s = state(3, 51, 0);
    s.decrease_rate();
    assert_eq!(s.rate(), 26);
}

#[test]
fn rate_rises_without_a_ceiling() {
    let mut s = state(3, 250, 0);
    for step in 1..=1000u32 {
        s.increase_rate();
        assert_eq!(s.rate(), 250 + 25 * step);
    }
}

#[test]
fn rate_stops_at_the_largest_value() {
    let mut s = state(3, u32::MAX - 26, 0);
    s.increase_rate();
    assert_eq!(s.rate(), u32::MAX - 1);
    s.increase_rate();
    assert_eq!(s.rate(), u32::MAX);
    s.increase_rate();
    assert_eq!(s.rate(), u32::MAX);
    s.decrease_rate();
    assert_eq!(s.rate(), u32::MAX - 25);
}

#[test]
fn rate_changes_leave_position_pause_and_clock() {
    let mut s = state(3, 250, 77);
    s.step_forward(80);
    s.increase_rate();
    assert_eq!((s.index(), s.is_paused(), s.last_advance()), (1, true, 80));
    s.decrease_rate();
    assert_eq!((s.index(), s.is_paused(), s.last_advance()), (1, true, 80));
}

#[test]
fn step_forward_moves_and_restarts_the_clock() {
    let mut s = state(3, 250, 0);
    s.step_forward(10);
    assert_eq!((s.index(), s.last_advance()), (1, 10));
    s.step_forward(20);
    assert_eq!((s.index(), s.last_advance()), (2, 20));
}

#[test]
fn step_forward_at_the_last_index_is_a_no_op() {
    let mut s = state(3, 250, 0);
    s.step_forward(1);
    s.step_forward(2);
    assert_eq!(s.index(), 2);
    s.step_forward(3);
    assert_eq!(s.index(), 2);
    assert_eq!(s.rate(), 250);
    assert!(s.is_paused());
    assert_eq!(s.mode(), Mode::Paused);
    assert_eq!(s.last_advance(), 3);
}

#[test]
fn step_backward_at_index_zero_is_a_no_op() {
    let mut s = state(3, 250, 0);
    s.step_backward(5);
    assert_eq!(s.index(), 0);
    assert_eq!(s.rate(), 250);
    assert!(s.is_paused());
    assert_eq!(s.last_advance(), 5);
}

#[test]
fn step_backward_moves_and_restarts_the_clock() {
    let mut s = state(3, 250, 0);
    s.step_forward(1);
    s.step_forward(2);
    s.step_backward(9);
    assert_eq!((s.index(), s.last_advance()), (1, 9));
}

#[test]
fn steps_on_a_single_word_stay_on_it() {
    let mut s = state(1, 250, 0);
    s.step_forward(1);
    assert_eq!(s.index(), 0);
    s.step_backward(2);
    assert_eq!(s.index(), 0);
}

#[test]
fn steps_keep_a_playing_reader_playing() {
    let mut s = state(3, 60, 0);
    s.toggle_pause(0);
    s.step_forward(10);
    assert_eq!(s.mode(), Mode::Playing);
    s.step_backward(20);
    assert_eq!(s.mode(), Mode::Playing);
    assert_eq!(s.index(), 0);
}

#[test]
fn toggle_pause_flips_and_restarts_the_clock() {
    let mut s = state(3, 250, 0);
    s.toggle_pause(40);
    assert!(!s.is_paused());
    assert_eq!(s.mode(), Mode::Playing);
    assert_eq!(s.last_advance(), 40);
    s.toggle_pause(50);
    assert!(s.is_paused());
    assert_eq!(s.last_advance(), 50);
}

#[test]
fn two_toggles_restore_the_pause_flag() {
    let mut s = state(3, 250, 0);
    let before = s.is_paused();
    s.toggle_pause(1);
    s.toggle_pause(2);
    assert_eq!(s.is_paused(), before);
    s.toggle_pause(3);
    let playing = s.is_paused();
    s.toggle_pause(4);
    s.toggle_pause(5);
    assert_eq!(s.is_paused(), playing);
    assert_eq!(s.index(), 0);
    assert_eq!(s.rate(), 250);
}

#[test]
fn tick_does_nothing_while_paused() {
    let mut s = state(3, 60, 0);
    s.tick(1_000_000);
    assert_eq!((s.index(), s.is_paused(), s.last_advance()), (0, true, 0));
}

#[test]
fn tick_waits_for_the_whole_interval() {
    let mut s = state(3, 60, 0);
    s.toggle_pause(500);
    s.tick(1499);
    assert_eq!((s.index(), s.last_advance()), (0, 500));
    s.tick(1500);
    assert_eq!((s.index(), s.last_advance()), (1, 1500));
}

#[test]
fn tick_before_the_clock_started_does_nothing() {
    let mut s = state(3, 60, 0);
    s.toggle_pause(5000);
    s.tick(10);
    assert_eq!((s.index(), s.is_paused(), s.last_advance()), (0, false, 5000));
    assert_eq!(s.elapsed(10), 0);
}

#[test]
fn tick_never_advances_past_the_end() {
    let mut s = state(3, 60, 0);
    s.toggle_pause(0);
    let mut now: u64 = 0;
    for _ in 0..20 {
        now += 1000;
        s.tick(now);
        assert!(s.index() <= s.len());
        if s.index() == s.len() {
            assert!(s.is_paused());
        }
    }
    assert_eq!(s.index(), 3);
    assert!(s.is_paused());
    assert_eq!(s.mode(), Mode::Finished);
}

#[test]
fn tick_that_reaches_the_end_pauses_and_keeps_the_clock() {
    let mut s = state(1, 60, 0);
    s.toggle_pause(100);
    s.tick(1100);
    assert_eq!(s.index(), 1);
    assert!(s.is_paused());
    assert!(s.is_finished());
    assert_eq!(s.last_advance(), 100);
}

#[test]
fn tick_uses_the_rate_of_the_moment() {
    let mut s = state(5, 60, 0);
    s.toggle_pause(0);
    s.tick(999);
    assert_eq!(s.index(), 0);
    s.increase_rate();
    assert_eq!(s.interval(), 705);
    s.tick(999);
    assert_eq!(s.index(), 1);
    assert_eq!(s.last_advance(), 999);
}

#[test]
fn tick_with_an_interval_of_zero_advances_at_once() {
    let mut s = state(3, 60_001, 0);
    assert_eq!(s.interval(), 0);
    s.toggle_pause(7);
    s.tick(7);
    assert_eq!(s.index(), 1);
}

#[test]
fn reading_three_words_at_sixty_per_minute() {
    let mut s = state(3, 60, 0);
    assert_eq!(s.interval(), 1000);
    assert!(s.is_paused());
    assert_eq!(s.index(), 0);
    s.toggle_pause(0);
    s.tick(999);
    assert_eq!(s.index(), 0);
    s.tick(1000);
    assert_eq!(s.index(), 1);
    assert!(!s.is_paused());
    s.tick(2000);
    assert_eq!(s.index(), 2);
    assert!(!s.is_paused());
    s.tick(3000);
    assert_eq!(s.index(), 3);
    assert!(s.is_paused());
    assert_eq!(s.mode(), Mode::Finished);
}

#[test]
fn finished_reader_stays_finished_without_a_step() {
    let mut s = state(2, 60, 0);
    s.toggle_pause(0);
    s.tick(1000);
    s.tick(2000);
    assert_eq!(s.mode(), Mode::Finished);
    s.toggle_pause(2500);
    assert_eq!(s.mode(), Mode::Finished);
    assert!(s.is_paused());
    assert_eq!(s.last_advance(), 2500);
    s.tick(9000);
    assert_eq!(s.mode(), Mode::Finished);
    s.increase_rate();
    s.decrease_rate();
    assert_eq!(s.mode(), Mode::Finished);
    assert_eq!(s.index(), 2);
}

#[test]
fn step_backward_leaves_the_finished_state_paused_on_the_last_word() {
    let mut s = state(2, 60, 0);
    s.toggle_pause(0);
    s.tick(1000);
    s.tick(2000);
    assert!(s.is_finished());
    s.step_backward(2100);
    assert_eq!(s.index(), 1);
    assert_eq!(s.mode(), Mode::Paused);
    assert_eq!(s.last_advance(), 2100);
}

#[test]
fn step_forward_leaves_the_finished_state_paused_on_the_last_word() {
    let mut s = state(2, 60, 0);
    s.toggle_pause(0);
    s.tick(1000);
    s.tick(2000);
    assert!(s.is_finished());
    s.step_forward(2100);
    assert_eq!(s.index(), 1);
    assert_eq!(s.mode(), Mode::Paused);
    assert_eq!(s.last_advance(), 2100);
}

#[test]
fn wait_budget_while_paused_is_the_poll_interval() {
    let s = state(3, 60, 0);
    assert_eq!(s.wait_budget(0), 100);
    assert_eq!(s.wait_budget(123_456), 100);
}

#[test]
fn wait_budget_while_playing_is_what_is_left_of_the_interval() {
    let mut s = state(3, 60, 0);
    s.toggle_pause(200);
    assert_eq!(s.wait_budget(200), 1000);
    assert_eq!(s.wait_budget(500), 700);
    assert_eq!(s.wait_budget(1199), 1);
    assert_eq!(s.wait_budget(1200), 0);
    assert_eq!(s.wait_budget(99_999), 0);
    assert_eq!(s.wait_budget(100), 1000);
}

#[test]
fn elapsed_counts_from_the_last_restart() {
    let mut s = state(3, 60, 50);
    assert_eq!(s.elapsed(50), 0);
    assert_eq!(s.elapsed(175), 125);
    s.step_forward(175);
    assert_eq!(s.elapsed(175), 0);
    assert_eq!(s.elapsed(u64::MAX), u64::MAX - 175);
}
