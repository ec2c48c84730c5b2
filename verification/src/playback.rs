//! Decisions of the render loop: the playback state, the keys that drive it
//! and the pacing of frames.
//!
//! While playing, the loop pulls a frame, composes and draws it, and waits
//! out what is left of the frame interval. The wait is cut into slices no
//! longer than the input-poll interval, with a look at the keyboard between
//! two slices, so that a quit is noticed within one poll interval. While
//! paused, the loop only polls for input.

use crate::failure::{policy_of, FailureKind};
use vstd::prelude::*;

verus! {

/// Target time from one frame to the next, in milliseconds.
pub const FRAME_INTERVAL_MS: u64 = 33;

/// Longest time between two looks at the keyboard, in milliseconds.
pub const INPUT_POLL_INTERVAL_MS: u64 = 1;

/// Key that ends the session.
pub const QUIT_KEY: char = 'q';

/// Key that pauses and resumes.
pub const TOGGLE_KEY: char = ' ';

/// State of the render loop.
#[derive(Clone, Copy, Debug, PartialEq, Eq, Structural)]
pub enum PlaybackState {
    /// Not started yet.
    Idle,
    /// Frames are pulled and drawn.
    Playing,
    /// Frames are left on the queue.
    Paused,
    /// The session is over.
    Quitting,
}

/// What moves the render loop from one state to another.
#[derive(Clone, Copy, Debug, PartialEq, Eq, Structural)]
pub enum PlaybackEvent {
    /// The session starts.
    Start,
    /// The toggle key was pressed.
    Toggle,
    /// The quit key was pressed.
    Quit,
    /// The frame queue is closed and empty: the producer has ended.
    QueueClosed,
}

/// What the render loop does in a state.
#[derive(Clone, Copy, Debug, PartialEq, Eq, Structural)]
pub enum Activity {
    /// Wait for the start.
    Standby,
    /// Pull the next frame, compose it, draw it and pace.
    PullAndDraw,
    /// Poll for input only.
    PollInput,
    /// Restore the terminal and leave.
    Shutdown,
}

/// The state that follows `state` on `event`.
pub open spec fn next_state(state: PlaybackState, event: PlaybackEvent) -> PlaybackState {
    match (state, event) {
        (PlaybackState::Quitting, _) => PlaybackState::Quitting,
        (_, PlaybackEvent::Quit) => PlaybackState::Quitting,
        (_, PlaybackEvent::QueueClosed) => PlaybackState::Quitting,
        (PlaybackState::Idle, PlaybackEvent::Start) => PlaybackState::Playing,
        (PlaybackState::Playing, PlaybackEvent::Toggle) => PlaybackState::Paused,
        (PlaybackState::Paused, PlaybackEvent::Toggle) => PlaybackState::Playing,
        _ => state,
    }
}

/// What the loop does in `state`.
pub open spec fn activity_in(state: PlaybackState) -> Activity {
    match state {
        PlaybackState::Idle => Activity::Standby,
        PlaybackState::Playing => Activity::PullAndDraw,
        PlaybackState::Paused => Activity::PollInput,
        PlaybackState::Quitting => Activity::Shutdown,
    }
}

/// The event that a key stands for, if it stands for one.
pub open spec fn key_event(key: char) -> Option<PlaybackEvent> {
    if key == QUIT_KEY {
        Some(PlaybackEvent::Quit)
    } else if key == TOGGLE_KEY {
        Some(PlaybackEvent::Toggle)
    } else {
        None
    }
}

/// Time still to wait after `elapsed` of a frame interval of `target`.
pub open spec fn wait_left(elapsed: int, target: int) -> int {
    if elapsed < target {
        target - elapsed
    } else {
        0
    }
}

/// The next slice of a wait of `remaining`, with a look at the keyboard at
/// least every `poll_interval`.
pub open spec fn wait_slice(remaining: int, poll_interval: int) -> int {
    if remaining < poll_interval {
        remaining
    } else {
        poll_interval
    }
}

/// Slices that a wait of `remaining` is cut into.
pub open spec fn slice_count(remaining: int, poll_interval: int) -> int
    decreases remaining,
{
    if remaining <= 0 || poll_interval <= 0 {
        0
    } else {
        1 + slice_count(remaining - wait_slice(remaining, poll_interval), poll_interval)
    }
}

/// Longest time that a frame spends on a queue of `capacity` frames that is
/// drained at one frame per `frame_interval`.
pub open spec fn queue_latency(capacity: int, frame_interval: int) -> int {
    capacity * frame_interval
}

/// Computes the bound that a full frame queue puts on the time from decoding
/// a frame to drawing it, in milliseconds. There is no bound to give when it
/// does not fit in 64 bits.
pub fn latency_bound_ms(capacity: usize, frame_interval_ms: u64) -> (bound_ms: Option<u64>)
    ensures
        bound_ms.is_some() <==> queue_latency(capacity as int, frame_interval_ms as int)
            <= u64::MAX,
        bound_ms matches Some(ms) ==> ms == queue_latency(
            capacity as int,
            frame_interval_ms as int,
        ),
{
    (capacity as u64).checked_mul(frame_interval_ms)
}

/// Moves the render loop to its next state.
pub fn on_event(state: PlaybackState, event: PlaybackEvent) -> (next: PlaybackState)
    ensures
        next == next_state(state, event),
{
    match state {
        PlaybackState::Quitting => PlaybackState::Quitting,
        _ => match event {
            PlaybackEvent::Quit => PlaybackState::Quitting,
            PlaybackEvent::QueueClosed => PlaybackState::Quitting,
            PlaybackEvent::Start => match state {
                PlaybackState::Idle => PlaybackState::Playing,
                _ => state,
            },
            PlaybackEvent::Toggle => match state {
                PlaybackState::Playing => PlaybackState::Paused,
                PlaybackState::Paused => PlaybackState::Playing,
                _ => state,
            },
        },
    }
}

/// Tells what the render loop does in a state.
pub fn activity(state: PlaybackState) -> (act: Activity)
    ensures
        act == activity_in(state),
{
    match state {
        PlaybackState::Idle => Activity::Standby,
        PlaybackState::Playing => Activity::PullAndDraw,
        PlaybackState::Paused => Activity::PollInput,
        PlaybackState::Quitting => Activity::Shutdown,
    }
}

/// Maps a key to the event it stands for.
pub fn event_for_key(key: char) -> (event: Option<PlaybackEvent>)
    ensures
        event == key_event(key),
{
    if key == QUIT_KEY {
        Some(PlaybackEvent::Quit)
    } else if key == TOGGLE_KEY {
        Some(PlaybackEvent::Toggle)
    } else {
        None
    }
}

/// Moves the render loop on a key: to the state after the key's event, or
/// nowhere if the key stands for none.
pub fn on_key(state: PlaybackState, key: char) -> (next: PlaybackState)
    ensures
        next == match key_event(key) {
            Some(event) => next_state(state, event),
            None => state,
        },
{
    match event_for_key(key) {
        Some(event) => on_event(state, event),
        None => state,
    }
}

/// Computes how long to wait after a frame took `elapsed_ms` to pull, compose
/// and draw: the rest of the frame interval, or nothing if the frame took
/// longer than that. A late frame is never made up for by skipping one.
pub fn remaining_wait(elapsed_ms: u64, target_ms: u64) -> (wait_ms: u64)
    ensures
        wait_ms == wait_left(elapsed_ms as int, target_ms as int),
{
    if elapsed_ms < target_ms {
        target_ms - elapsed_ms
    } else {
        0
    }
}

/// Computes the next slice of a wait: as long as the poll interval, or as
/// what is left of the wait if that is less.
pub fn next_wait_slice(remaining_ms: u64, poll_interval_ms: u64) -> (slice_ms: u64)
    ensures
        slice_ms == wait_slice(remaining_ms as int, poll_interval_ms as int),
        slice_ms <= remaining_ms,
        slice_ms <= poll_interval_ms,
{
    if remaining_ms < poll_interval_ms {
        remaining_ms
    } else {
        poll_interval_ms
    }
}

/// The quit key ends the session from every state, and so does the closing
/// of the frame queue; a session that is over stays over.
pub proof fn lemma_quit_is_final(state: PlaybackState, event: PlaybackEvent)
    ensures
        next_state(state, PlaybackEvent::Quit) == PlaybackState::Quitting,
        next_state(state, PlaybackEvent::QueueClosed) == PlaybackState::Quitting,
        next_state(PlaybackState::Quitting, event) == PlaybackState::Quitting,
        next_state(state, event) is Quitting <==> state is Quitting || event is Quit || event
            is QueueClosed,
{
}

/// The failure that an event reports, if it reports one.
pub open spec fn failure_of(event: PlaybackEvent) -> Option<FailureKind> {
    match event {
        PlaybackEvent::QueueClosed => Some(FailureKind::ChannelClosed),
        _ => None,
    }
}

/// The closing of the frame queue is the ordinary end of the stream: the
/// loop shuts down, and no failure is reported.
pub proof fn lemma_closed_queue_shuts_down(state: PlaybackState, event: PlaybackEvent)
    requires
        failure_of(event).is_some(),
    ensures
        policy_of(failure_of(event).unwrap()) is Shutdown,
        activity_in(next_state(state, event)) is Shutdown,
{
}

/// The toggle key flips between playing and paused and does nothing else:
/// pressed twice, it leaves every state as it was.
pub proof fn lemma_toggle_flips(state: PlaybackState)
    ensures
        next_state(PlaybackState::Playing, PlaybackEvent::Toggle) == PlaybackState::Paused,
        next_state(PlaybackState::Paused, PlaybackEvent::Toggle) == PlaybackState::Playing,
        state is Idle || state is Quitting ==> next_state(state, PlaybackEvent::Toggle) == state,
        next_state(next_state(state, PlaybackEvent::Toggle), PlaybackEvent::Toggle) == state,
{
}

/// Playing is entered from idle by the start and from paused by the toggle
/// key, and in no other way.
pub proof fn lemma_entering_play(state: PlaybackState, event: PlaybackEvent)
    ensures
        next_state(PlaybackState::Idle, PlaybackEvent::Start) == PlaybackState::Playing,
        next_state(state, event) is Playing && !(state is Playing) ==> (state is Idle && event
            is Start) || (state is Paused && event is Toggle),
{
}

/// Frames are pulled while playing and in no other state.
pub proof fn lemma_only_playing_pulls(state: PlaybackState)
    ensures
        activity_in(state) is PullAndDraw <==> state is Playing,
        activity_in(state) is Shutdown <==> state is Quitting,
{
}

/// The cadence slips but never runs ahead: the time a frame takes and the
/// wait after it add up to the frame interval, or to the time the frame took
/// if that was longer.
pub proof fn lemma_pacing(elapsed: int, target: int)
    requires
        0 <= elapsed,
        0 <= target,
    ensures
        0 <= wait_left(elapsed, target) <= target,
        elapsed + wait_left(elapsed, target) == if elapsed < target {
            target
        } else {
            elapsed
        },
{
}

/// A wait is used up slice by slice: each slice is no longer than the poll
/// interval and shortens the wait, and the number of slices is the wait
/// divided by the poll interval, rounded up.
pub proof fn lemma_wait_in_slices(remaining: int, poll_interval: int)
    requires
        0 <= remaining,
        0 < poll_interval,
    ensures
        0 <= wait_slice(remaining, poll_interval) <= poll_interval,
        remaining > 0 ==> 0 < wait_slice(remaining, poll_interval) <= remaining,
        slice_count(remaining, poll_interval) == (remaining + poll_interval - 1) / poll_interval,
    decreases remaining,
{
    if remaining > 0 {
        let rest = remaining - wait_slice(remaining, poll_interval);
        lemma_wait_in_slices(rest, poll_interval);
        if remaining < poll_interval {
            assert(rest == 0);
            assert(slice_count(rest, poll_interval) == 0);
            assert((remaining + poll_interval - 1) / poll_interval == 1) by (nonlinear_arith)
                requires
                    0 < remaining < poll_interval,
            ;
        } else {
            assert((remaining + poll_interval - 1) / poll_interval == 1 + (remaining
                - poll_interval + poll_interval - 1) / poll_interval) by (nonlinear_arith)
                requires
                    0 < poll_interval <= remaining,
            ;
        }
    } else {
        assert((remaining + poll_interval - 1) / poll_interval == 0) by (nonlinear_arith)
            requires
                remaining == 0,
                0 < poll_interval,
        ;
    }
}

} // verus!
