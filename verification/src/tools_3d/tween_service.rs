//! Playback control of tweens: the states a tween moves through, how many
//! cycles it plays, and when it turns around. The clock (elapsed and delay
//! seconds, interpolation ratios) is kept by the caller, which hands the
//! outcome of each clock comparison to the functions here.
use vstd::prelude::*;

verus! {

/// Where a tween stands in its playback.
#[derive(Clone, Copy, Debug, PartialEq, Eq, Structural)]
pub enum PlaybackState {
    Delayed,
    Playing,
    Paused,
    Completed,
    Cancelled,
}

impl Default for PlaybackState {
    fn default() -> (state: Self)
        ensures
            state == PlaybackState::Delayed,
    {
        PlaybackState::Delayed
    }
}

/// What one frame of the update system does with a tween.
#[derive(Clone, Copy, Debug, PartialEq, Eq, Structural)]
pub enum FrameWork {
    /// Count the frame's time towards the start delay.
    CountDelay,
    /// Move the elapsed time on and write the interpolated value.
    Advance,
    /// Leave the tween alone.
    Idle,
}

/// The clock-free part of a tween's playback.
#[derive(Clone, Copy, Debug, PartialEq, Eq, Structural)]
pub struct PlaybackControl {
    pub state: PlaybackState,
    /// Number of repetitions already started after the first cycle.
    pub repetitions: i32,
    /// True while the tween runs from its goal back to its start.
    pub is_reversing: bool,
}

pub open spec fn spec_frame_work(state: PlaybackState) -> FrameWork {
    match state {
        PlaybackState::Delayed => FrameWork::CountDelay,
        PlaybackState::Playing => FrameWork::Advance,
        _ => FrameWork::Idle,
    }
}

/// The control of a freshly created tween.
pub open spec fn spec_new(has_delay: bool) -> PlaybackControl {
    PlaybackControl {
        state: if has_delay { PlaybackState::Delayed } else { PlaybackState::Playing },
        repetitions: 0,
        is_reversing: false,
    }
}

/// A tween that has completed or was cancelled starts over when played.
pub open spec fn spec_restarts_on_play(c: PlaybackControl) -> bool {
    c.state == PlaybackState::Completed || c.state == PlaybackState::Cancelled
}

/// `play`, where `delay_pending` says whether the delay clock (after a
/// restart, the reset one) is still short of the delay time.
pub open spec fn spec_play(c: PlaybackControl, delay_pending: bool) -> PlaybackControl {
    let restarted = spec_restarts_on_play(c);
    PlaybackControl {
        state: if delay_pending { PlaybackState::Delayed } else { PlaybackState::Playing },
        repetitions: if restarted { 0 } else { c.repetitions },
        is_reversing: if restarted { false } else { c.is_reversing },
    }
}

pub open spec fn spec_pause(c: PlaybackControl) -> PlaybackControl {
    if c.state == PlaybackState::Playing || c.state == PlaybackState::Delayed {
        PlaybackControl { state: PlaybackState::Paused, ..c }
    } else {
        c
    }
}

pub open spec fn spec_cancel(c: PlaybackControl) -> PlaybackControl {
    PlaybackControl { state: PlaybackState::Cancelled, ..c }
}

pub open spec fn spec_end_delay(c: PlaybackControl, delay_reached: bool) -> PlaybackControl {
    if c.state == PlaybackState::Delayed && delay_reached {
        PlaybackControl { state: PlaybackState::Playing, ..c }
    } else {
        c
    }
}

/// Whether finishing a cycle turns the tween around rather than counting a repetition.
pub open spec fn spec_turns_around(c: PlaybackControl, reverses: bool) -> bool {
    reverses && !c.is_reversing
}

/// Whether finishing a cycle starts another repetition
/// (`repeat_count < 0` repeats forever).
pub open spec fn spec_repeats(c: PlaybackControl, repeat_count: i32, reverses: bool) -> bool {
    !spec_turns_around(c, reverses) && (repeat_count < 0 || c.repetitions < repeat_count)
}

/// What finishing a cycle does: turn around, start another repetition, or complete.
pub open spec fn spec_finish_cycle(c: PlaybackControl, repeat_count: i32, reverses: bool) -> PlaybackControl {
    if spec_turns_around(c, reverses) {
        PlaybackControl { is_reversing: true, ..c }
    } else if repeat_count < 0 || c.repetitions < repeat_count {
        PlaybackControl { repetitions: (c.repetitions + 1) as i32, is_reversing: false, ..c }
    } else {
        PlaybackControl { state: PlaybackState::Completed, ..c }
    }
}

/// Finishing a cycle is defined unless it would count a repetition past `i32::MAX`.
pub open spec fn spec_finish_cycle_defined(c: PlaybackControl, repeat_count: i32, reverses: bool) -> bool {
    spec_repeats(c, repeat_count, reverses) ==> c.repetitions < i32::MAX
}


/// The control after `k` cycles have been finished in a row.
pub open spec fn spec_cycles(c: PlaybackControl, repeat_count: i32, reverses: bool, k: nat) -> PlaybackControl
    decreases k,
{
    if k == 0 {
        c
    } else {
        spec_finish_cycle(spec_cycles(c, repeat_count, reverses, (k - 1) as nat), repeat_count, reverses)
    }
}

/// A tween at the start of its playback: playing its first repetition forwards.
pub open spec fn spec_at_start(c: PlaybackControl) -> bool {
    c == PlaybackControl { state: PlaybackState::Playing, repetitions: 0, is_reversing: false }
}

/// A tween that does not reverse and has `repeat_count = n >= 0` plays exactly
/// `n + 1` cycles: after `k <= n` finished cycles it is playing repetition `k`,
/// and from the `(n + 1)`-th on it is completed, with `n` repetitions counted.
pub proof fn law_plays_repeat_count_plus_one_cycles(c: PlaybackControl, repeat_count: i32, k: nat)
    requires
        spec_at_start(c),
        repeat_count >= 0,
    ensures
        k <= repeat_count ==> spec_cycles(c, repeat_count, false, k)
            == (PlaybackControl { state: PlaybackState::Playing, repetitions: k as i32, is_reversing: false }),
        k > repeat_count ==> spec_cycles(c, repeat_count, false, k)
            == (PlaybackControl { state: PlaybackState::Completed, repetitions: repeat_count, is_reversing: false }),
        forall|j: nat| j < k ==> #[trigger] spec_finish_cycle_defined(spec_cycles(c, repeat_count, false, j), repeat_count, false),
    decreases k,
{
    if k > 0 {
        law_plays_repeat_count_plus_one_cycles(c, repeat_count, (k - 1) as nat);
        assert forall|j: nat| j < k implies #[trigger] spec_finish_cycle_defined(spec_cycles(c, repeat_count, false, j), repeat_count, false) by {
            if j == k - 1 {
            }
        }
    }
}

/// A reversing tween with `repeat_count = n >= 0` runs forwards and back
/// `n + 1` times: after `k <= 2n + 1` finished cycles it is playing
/// repetition `k / 2`, backwards exactly when `k` is odd, and from the
/// `(2n + 2)`-th on it is completed.
pub proof fn law_reversing_plays_twice_per_repetition(c: PlaybackControl, repeat_count: i32, k: nat)
    requires
        spec_at_start(c),
        repeat_count >= 0,
    ensures
        k <= 2 * repeat_count + 1 ==> spec_cycles(c, repeat_count, true, k)
            == (PlaybackControl { state: PlaybackState::Playing, repetitions: (k / 2) as i32, is_reversing: k % 2 == 1 }),
        k >= 2 * repeat_count + 2 ==> spec_cycles(c, repeat_count, true, k)
            == (PlaybackControl { state: PlaybackState::Completed, repetitions: repeat_count, is_reversing: true }),
        forall|j: nat| j < k ==> #[trigger] spec_finish_cycle_defined(spec_cycles(c, repeat_count, true, j), repeat_count, true),
    decreases k,
{
    if k > 0 {
        law_reversing_plays_twice_per_repetition(c, repeat_count, (k - 1) as nat);
        assert forall|j: nat| j < k implies #[trigger] spec_finish_cycle_defined(spec_cycles(c, repeat_count, true, j), repeat_count, true) by {
            if j == k - 1 {
            }
        }
    }
}

/// With `repeat_count < 0` a tween never completes: every finished cycle of a
/// non-reversing tween starts the next repetition, as long as the count of
/// repetitions fits in an `i32`.
pub proof fn law_negative_repeat_count_never_completes(c: PlaybackControl, repeat_count: i32, k: nat)
    requires
        spec_at_start(c),
        repeat_count < 0,
        k <= i32::MAX,
    ensures
        spec_cycles(c, repeat_count, false, k)
            == (PlaybackControl { state: PlaybackState::Playing, repetitions: k as i32, is_reversing: false }),
        forall|j: nat| j < k ==> #[trigger] spec_finish_cycle_defined(spec_cycles(c, repeat_count, false, j), repeat_count, false),
    decreases k,
{
    if k > 0 {
        law_negative_repeat_count_never_completes(c, repeat_count, (k - 1) as nat);
        assert forall|j: nat| j < k implies #[trigger] spec_finish_cycle_defined(spec_cycles(c, repeat_count, false, j), repeat_count, false) by {
            if j == k - 1 {
            }
        }
    }
}

/// With `repeat_count < 0` a reversing tween never completes either: it
/// alternates between running forwards and backwards, counting a repetition
/// each time it comes back, as long as that count fits in an `i32`.
pub proof fn law_negative_repeat_count_reversing_never_completes(c: PlaybackControl, repeat_count: i32, k: nat)
    requires
        spec_at_start(c),
        repeat_count < 0,
        k / 2 <= i32::MAX,
    ensures
        spec_cycles(c, repeat_count, true, k)
            == (PlaybackControl { state: PlaybackState::Playing, repetitions: (k / 2) as i32, is_reversing: k % 2 == 1 }),
        forall|j: nat| j < k ==> #[trigger] spec_finish_cycle_defined(spec_cycles(c, repeat_count, true, j), repeat_count, true),
    decreases k,
{
    if k > 0 {
        law_negative_repeat_count_reversing_never_completes(c, repeat_count, (k - 1) as nat);
        assert forall|j: nat| j < k implies #[trigger] spec_finish_cycle_defined(spec_cycles(c, repeat_count, true, j), repeat_count, true) by {
            if j == k - 1 {
            }
        }
    }
}

/// Pausing a playing or delayed tween and playing it again (with the delay
/// still pending exactly when it was delayed) gives back the control it had:
/// a pause keeps the repetition count and direction.
pub proof fn law_pause_then_play_resumes(c: PlaybackControl)
    requires
        c.state == PlaybackState::Playing || c.state == PlaybackState::Delayed,
    ensures
        spec_play(spec_pause(c), c.state == PlaybackState::Delayed) == c,
        spec_pause(c).state == PlaybackState::Paused,
{
}

/// Playing a completed or cancelled tween starts it over: no repetitions
/// counted and running forwards; playing any other tween keeps both.
pub proof fn law_play_restarts_only_finished_tweens(c: PlaybackControl, delay_pending: bool)
    ensures
        spec_restarts_on_play(c) ==> spec_play(c, delay_pending).repetitions == 0
            && !spec_play(c, delay_pending).is_reversing,
        !spec_restarts_on_play(c) ==> spec_play(c, delay_pending).repetitions == c.repetitions
            && spec_play(c, delay_pending).is_reversing == c.is_reversing,
        spec_play(c, delay_pending).state == (if delay_pending { PlaybackState::Delayed } else { PlaybackState::Playing }),
{
}

/// Paused, completed and cancelled tweens are left alone by the update
/// system, and only `play` moves them: pausing, ending a delay, or (for a
/// cancelled tween) cancelling again leaves their control unchanged.
pub proof fn law_stopped_tweens_stay_stopped(c: PlaybackControl, delay_reached: bool)
    requires
        c.state == PlaybackState::Paused || c.state == PlaybackState::Completed || c.state == PlaybackState::Cancelled,
    ensures
        spec_frame_work(c.state) == FrameWork::Idle,
        spec_pause(c) == c,
        spec_end_delay(c, delay_reached) == c,
        c.state == PlaybackState::Cancelled ==> spec_cancel(c) == c,
{
}

/// A new tween waits for its delay exactly when it has one, and starts at the
/// beginning of its first repetition.
pub proof fn law_new_tween_starts_at_first_repetition(has_delay: bool)
    ensures
        spec_new(has_delay).state == (if has_delay { PlaybackState::Delayed } else { PlaybackState::Playing }),
        !has_delay ==> spec_at_start(spec_new(has_delay)),
        spec_end_delay(spec_new(has_delay), true) == spec_new(false),
        spec_end_delay(spec_new(has_delay), false) == spec_new(has_delay),
{
}

/// A cycle end counts a repetition (and so restarts the cycle clock) exactly
/// when the tween does not turn around there and has repetitions left: any
/// when `repeat_count < 0`, else while fewer than `repeat_count` were counted.
/// It counts one exactly when finishing the cycle adds one to the count;
/// otherwise the count stays.
pub proof fn law_repetition_counted_iff_repetitions_left(c: PlaybackControl, repeat_count: i32, reverses: bool)
    requires
        spec_finish_cycle_defined(c, repeat_count, reverses),
    ensures
        spec_repeats(c, repeat_count, reverses) == (!(reverses && !c.is_reversing)
            && (repeat_count < 0 || c.repetitions < repeat_count)),
        spec_repeats(c, repeat_count, reverses) ==> spec_finish_cycle(c, repeat_count, reverses).repetitions
            == c.repetitions + 1,
        !spec_repeats(c, repeat_count, reverses) ==> spec_finish_cycle(c, repeat_count, reverses).repetitions
            == c.repetitions,
        !reverses && 0 <= c.repetitions < repeat_count ==> spec_repeats(c, repeat_count, reverses),
        !reverses && repeat_count >= 0 && c.repetitions >= repeat_count ==> !spec_repeats(c, repeat_count, reverses)
            && spec_finish_cycle(c, repeat_count, reverses).state == PlaybackState::Completed,
{
}

/// `play` starts over (clearing the repetition count and the direction) only
/// a completed or cancelled tween; a playing, delayed or paused tween keeps
/// its repetition count and direction, and its clocks are kept.
pub proof fn law_play_keeps_progress_of_live_tweens(c: PlaybackControl, delay_pending: bool)
    ensures
        spec_restarts_on_play(c) == (c.state == PlaybackState::Completed || c.state == PlaybackState::Cancelled),
        c.state == PlaybackState::Playing || c.state == PlaybackState::Delayed || c.state == PlaybackState::Paused
            ==> !spec_restarts_on_play(c) && spec_play(c, delay_pending).repetitions == c.repetitions
            && spec_play(c, delay_pending).is_reversing == c.is_reversing,
        c.state == PlaybackState::Completed || c.state == PlaybackState::Cancelled
            ==> spec_play(c, delay_pending).repetitions == 0 && !spec_play(c, delay_pending).is_reversing,
{
}

/// Cancelling stops a tween whatever its state (delayed ones included): the
/// update system then leaves it idle, and only the state changes.
pub proof fn law_cancel_always_stops(c: PlaybackControl)
    ensures
        spec_cancel(c).state == PlaybackState::Cancelled,
        spec_cancel(c).repetitions == c.repetitions,
        spec_cancel(c).is_reversing == c.is_reversing,
        spec_frame_work(spec_cancel(c).state) == FrameWork::Idle,
        spec_end_delay(spec_cancel(c), true) == spec_cancel(c),
{
}

/// Pausing stops exactly the playing and delayed tweens, keeping their
/// progress; the update system then leaves them idle.
pub proof fn law_pause_stops_live_tweens(c: PlaybackControl)
    ensures
        spec_pause(c).repetitions == c.repetitions,
        spec_pause(c).is_reversing == c.is_reversing,
        c.state == PlaybackState::Playing || c.state == PlaybackState::Delayed
            ==> spec_pause(c).state == PlaybackState::Paused,
        !(c.state == PlaybackState::Playing || c.state == PlaybackState::Delayed) ==> spec_pause(c) == c,
        spec_frame_work(spec_pause(c).state) == FrameWork::Idle,
{
}

/// Only a delayed tween counts its delay, only a playing one advances, and a
/// reached delay turns a delayed tween into a playing one and nothing else.
pub proof fn law_frame_work_follows_state(c: PlaybackControl, delay_reached: bool)
    ensures
        (spec_frame_work(c.state) == FrameWork::CountDelay) == (c.state == PlaybackState::Delayed),
        (spec_frame_work(c.state) == FrameWork::Advance) == (c.state == PlaybackState::Playing),
        (spec_frame_work(c.state) == FrameWork::Idle) == (c.state != PlaybackState::Delayed
            && c.state != PlaybackState::Playing),
        c.state == PlaybackState::Delayed && delay_reached ==> spec_end_delay(c, delay_reached)
            == (PlaybackControl { state: PlaybackState::Playing, ..c }),
        !(c.state == PlaybackState::Delayed && delay_reached) ==> spec_end_delay(c, delay_reached) == c,
{
}

/// Finishing a cycle of a reversing tween that runs forwards turns it around
/// and changes nothing else; otherwise it never leaves it running backwards.
pub proof fn law_finish_cycle_turns_around_first(c: PlaybackControl, repeat_count: i32, reverses: bool)
    ensures
        reverses && !c.is_reversing ==> spec_finish_cycle(c, repeat_count, reverses)
            == (PlaybackControl { is_reversing: true, ..c }),
        !(reverses && !c.is_reversing) && (repeat_count < 0 || c.repetitions < repeat_count)
            ==> !spec_finish_cycle(c, repeat_count, reverses).is_reversing
            && spec_finish_cycle(c, repeat_count, reverses).state == c.state,
        !(reverses && !c.is_reversing) && !(repeat_count < 0 || c.repetitions < repeat_count)
            ==> spec_finish_cycle(c, repeat_count, reverses)
            == (PlaybackControl { state: PlaybackState::Completed, ..c }),
{
}

impl PlaybackControl {
    /// The control of a new tween: delayed when it has a start delay, else playing.
    pub fn new(has_delay: bool) -> (c: Self)
        ensures
            c == spec_new(has_delay),
            c.state == (if has_delay { PlaybackState::Delayed } else { PlaybackState::Playing }),
            c.repetitions == 0,
            !c.is_reversing,
    {
        PlaybackControl {
            state: if has_delay { PlaybackState::Delayed } else { PlaybackState::Playing },
            repetitions: 0,
            is_reversing: false,
        }
    }

    /// What the update system does with the tween this frame.
    pub fn frame_work(&self) -> (work: FrameWork)
        ensures
            work == spec_frame_work(self.state),
            (work == FrameWork::CountDelay) == (self.state == PlaybackState::Delayed),
            (work == FrameWork::Advance) == (self.state == PlaybackState::Playing),
    {
        match self.state {
            PlaybackState::Delayed => FrameWork::CountDelay,
            PlaybackState::Playing => FrameWork::Advance,
            _ => FrameWork::Idle,
        }
    }

    /// Whether `play` starts the tween over (its clocks must then be reset to zero).
    pub fn restarts_on_play(&self) -> (r: bool)
        ensures
            r == spec_restarts_on_play(*self),
            r == (self.state == PlaybackState::Completed || self.state == PlaybackState::Cancelled),
    {
        match self.state {
            PlaybackState::Completed | PlaybackState::Cancelled => true,
            _ => false,
        }
    }

    /// Plays the tween: a completed or cancelled tween starts over from its
    /// first repetition, running forwards; the tween waits for its delay while
    /// `delay_pending`, else plays.
    pub fn play(&mut self, delay_pending: bool)
        ensures
            *final(self) == spec_play(*old(self), delay_pending),
            final(self).state == (if delay_pending { PlaybackState::Delayed } else { PlaybackState::Playing }),
            old(self).state != PlaybackState::Completed && old(self).state != PlaybackState::Cancelled
                ==> final(self).repetitions == old(self).repetitions
                && final(self).is_reversing == old(self).is_reversing,
            old(self).state == PlaybackState::Completed || old(self).state == PlaybackState::Cancelled
                ==> final(self).repetitions == 0 && !final(self).is_reversing,
    {
        if self.restarts_on_play() {
            self.repetitions = 0;
            self.is_reversing = false;
        }
        self.state = if delay_pending { PlaybackState::Delayed } else { PlaybackState::Playing };
    }

    /// Pauses a playing or delayed tween; any other tween is left as it is.
    pub fn pause(&mut self)
        ensures
            *final(self) == spec_pause(*old(self)),
            final(self).repetitions == old(self).repetitions,
            final(self).is_reversing == old(self).is_reversing,
            final(self).state == (if old(self).state == PlaybackState::Playing || old(self).state == PlaybackState::Delayed {
                PlaybackState::Paused
            } else {
                old(self).state
            }),
    {
        match self.state {
            PlaybackState::Playing | PlaybackState::Delayed => {
                self.state = PlaybackState::Paused;
            },
            _ => {},
        }
    }

    /// Cancels the tween, whatever its state.
    pub fn cancel(&mut self)
        ensures
            *final(self) == spec_cancel(*old(self)),
            final(self).state == PlaybackState::Cancelled,
            final(self).repetitions == old(self).repetitions,
            final(self).is_reversing == old(self).is_reversing,
    {
        self.state = PlaybackState::Cancelled;
    }

    /// Ends the start delay of a delayed tween once the delay clock has reached
    /// the delay time.
    pub fn end_delay(&mut self, delay_reached: bool)
        ensures
            *final(self) == spec_end_delay(*old(self), delay_reached),
            final(self).repetitions == old(self).repetitions,
            final(self).is_reversing == old(self).is_reversing,
            final(self).state == (if old(self).state == PlaybackState::Delayed && delay_reached {
                PlaybackState::Playing
            } else {
                old(self).state
            }),
    {
        if delay_reached {
            if let PlaybackState::Delayed = self.state {
                self.state = PlaybackState::Playing;
            }
        }
    }

    /// Whether finishing the current cycle starts another repetition, which
    /// restarts the elapsed clock at zero.
    pub fn counts_repetition(&self, repeat_count: i32, reverses: bool) -> (r: bool)
        ensures
            r == spec_repeats(*self, repeat_count, reverses),
            r == (!(reverses && !self.is_reversing) && (repeat_count < 0 || self.repetitions < repeat_count)),
    {
        !(reverses && !self.is_reversing) && (repeat_count < 0 || self.repetitions < repeat_count)
    }

    /// Called when the elapsed clock has run past the end of the current cycle:
    /// turns a reversing tween around, else counts another repetition while
    /// any are left (all of them when `repeat_count < 0`), else completes it.
    pub fn finish_cycle(&mut self, repeat_count: i32, reverses: bool)
        requires
            spec_finish_cycle_defined(*old(self), repeat_count, reverses),
        ensures
            *final(self) == spec_finish_cycle(*old(self), repeat_count, reverses),
            reverses && !old(self).is_reversing ==> *final(self) == (PlaybackControl { is_reversing: true, ..*old(self) }),
            !(reverses && !old(self).is_reversing) && (repeat_count < 0 || old(self).repetitions < repeat_count)
                ==> final(self).state == old(self).state && final(self).repetitions == old(self).repetitions + 1
                && !final(self).is_reversing,
            !(reverses && !old(self).is_reversing) && !(repeat_count < 0 || old(self).repetitions < repeat_count)
                ==> *final(self) == (PlaybackControl { state: PlaybackState::Completed, ..*old(self) }),
    {
        if reverses && !self.is_reversing {
            self.is_reversing = true;
        } else if repeat_count < 0 || self.repetitions < repeat_count {
            self.repetitions = self.repetitions + 1;
            self.is_reversing = false;
        } else {
            self.state = PlaybackState::Completed;
        }
    }
}

} // verus!
