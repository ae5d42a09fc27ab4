use bevy_toolbox::tools_3d::tween_service::{FrameWork, PlaybackControl, PlaybackState};

fn fresh() -> PlaybackControl {
    PlaybackControl::new(false)
}

#[test]
fn new_tween_waits_only_when_it_has_a_delay() {
    let c = PlaybackControl::new(true);
    assert_eq!(c.state, PlaybackState::Delayed);
    assert_eq!(c.frame_work(), FrameWork::CountDelay);
    let c = PlaybackControl::new(false);
    assert_eq!(c.state, PlaybackState::Playing);
    assert_eq!(c.frame_work(), FrameWork::Advance);
    assert_eq!(c.repetitions, 0);
    assert!(!c.is_reversing);
    assert_eq!(PlaybackState::default(), PlaybackState::Delayed);
}

#[test]
fn delay_ends_only_when_reached() {
    let mut c = PlaybackControl::new(true);
    c.end_delay(false);
    assert_eq!(c.state, PlaybackState::Delayed);
    c.end_delay(true);
    assert_eq!(c.state, PlaybackState::Playing);
    let mut p = fresh();
    p.pause();
    p.end_delay(true);
    assert_eq!(p.state, PlaybackState::Paused);
}

#[test]
fn play_once_completes_after_one_cycle() {
    let mut c = fresh();
    c.finish_cycle(0, false);
    assert_eq!(c.state, PlaybackState::Completed);
    assert_eq!(c.repetitions, 0);
    assert_eq!(c.frame_work(), FrameWork::Idle);
}

#[test]
fn repeat_count_two_plays_three_cycles() {
    let mut c = fresh();
    c.finish_cycle(2, false);
    assert_eq!((c.state, c.repetitions), (PlaybackState::Playing, 1));
    c.finish_cycle(2, false);
    assert_eq!((c.state, c.repetitions), (PlaybackState::Playing, 2));
    c.finish_cycle(2, false);
    assert_eq!((c.state, c.repetitions), (PlaybackState::Completed, 2));
}

#[test]
fn reversing_tween_turns_around_before_counting() {
    let mut c = fresh();
    c.finish_cycle(1, true);
    assert_eq!((c.state, c.repetitions, c.is_reversing), (PlaybackState::Playing, 0, true));
    c.finish_cycle(1, true);
    assert_eq!((c.state, c.repetitions, c.is_reversing), (PlaybackState::Playing, 1, false));
    c.finish_cycle(1, true);
    assert_eq!((c.state, c.repetitions, c.is_reversing), (PlaybackState::Playing, 1, true));
    c.finish_cycle(1, true);
    assert_eq!((c.state, c.repetitions, c.is_reversing), (PlaybackState::Completed, 1, true));
}

#[test]
fn negative_repeat_count_repeats_forever() {
    let mut c = fresh();
    for k in 1..=1000 {
        c.finish_cycle(-1, false);
        assert_eq!((c.state, c.repetitions), (PlaybackState::Playing, k));
    }
    let mut r = fresh();
    for k in 1..=1000 {
        r.finish_cycle(-1, true);
        assert_eq!(r.state, PlaybackState::Playing);
        assert_eq!(r.repetitions, k / 2);
        assert_eq!(r.is_reversing, k % 2 == 1);
    }
}

#[test]
fn pause_then_play_resumes_where_it_was() {
    let mut c = fresh();
    c.finish_cycle(3, true);
    let before = c;
    c.pause();
    assert_eq!(c.state, PlaybackState::Paused);
    assert_eq!(c.frame_work(), FrameWork::Idle);
    assert!(!c.restarts_on_play());
    c.play(false);
    assert_eq!(c, before);

    let mut d = PlaybackControl::new(true);
    d.pause();
    d.play(true);
    assert_eq!(d, PlaybackControl::new(true));
}

#[test]
fn pause_leaves_stopped_tweens_alone() {
    let mut c = fresh();
    c.finish_cycle(0, false);
    c.pause();
    assert_eq!(c.state, PlaybackState::Completed);
    c.cancel();
    c.pause();
    assert_eq!(c.state, PlaybackState::Cancelled);
}

#[test]
fn play_after_completion_starts_over() {
    let mut c = fresh();
    c.finish_cycle(0, true);
    c.finish_cycle(0, true);
    assert_eq!((c.state, c.is_reversing), (PlaybackState::Completed, true));
    assert!(c.restarts_on_play());
    c.play(true);
    assert_eq!(c, PlaybackControl { state: PlaybackState::Delayed, repetitions: 0, is_reversing: false });
}

#[test]
fn cancel_stops_the_tween_until_played_again() {
    let mut c = fresh();
    c.finish_cycle(5, false);
    c.finish_cycle(5, false);
    c.cancel();
    assert_eq!(c.state, PlaybackState::Cancelled);
    assert_eq!(c.repetitions, 2);
    assert_eq!(c.frame_work(), FrameWork::Idle);
    c.end_delay(true);
    assert_eq!(c.state, PlaybackState::Cancelled);
    assert!(c.restarts_on_play());
    c.play(false);
    assert_eq!(c, fresh());
}

#[test]
fn counts_repetition_says_when_the_clock_restarts() {
    let c = fresh();
    assert!(c.counts_repetition(1, false));
    assert!(!c.counts_repetition(0, false));
    assert!(!c.counts_repetition(1, true));
    assert!(c.counts_repetition(-1, false));
    let mut r = fresh();
    r.finish_cycle(1, true);
    assert!(r.counts_repetition(1, true));
    assert!(!r.counts_repetition(0, true));
}
