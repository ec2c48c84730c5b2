use ascii_video::playback::{
    activity, event_for_key, latency_bound_ms, next_wait_slice, on_event, on_key, remaining_wait,
    Activity, PlaybackEvent, PlaybackState, FRAME_INTERVAL_MS, INPUT_POLL_INTERVAL_MS, QUIT_KEY,
    TOGGLE_KEY,
};

const STATES: [PlaybackState; 4] =
    [PlaybackState::Idle, PlaybackState::Playing, PlaybackState::Paused, PlaybackState::Quitting];

const EVENTS: [PlaybackEvent; 4] =
    [PlaybackEvent::Start, PlaybackEvent::Toggle, PlaybackEvent::Quit, PlaybackEvent::QueueClosed];

#[test]
fn cadence_and_keys() {
    assert_eq!(FRAME_INTERVAL_MS, 33);
    assert_eq!(INPUT_POLL_INTERVAL_MS, 1);
    assert_eq!(QUIT_KEY, 'q');
    assert_eq!(TOGGLE_KEY, ' ');
}

#[test]
fn start_begins_playing() {
    assert_eq!(on_event(PlaybackState::Idle, PlaybackEvent::Start), PlaybackState::Playing);
    assert_eq!(on_event(PlaybackState::Paused, PlaybackEvent::Start), PlaybackState::Paused);
    assert_eq!(on_event(PlaybackState::Playing, PlaybackEvent::Start), PlaybackState::Playing);
}

#[test]
fn toggle_flips_between_playing_and_paused() {
    assert_eq!(on_event(PlaybackState::Playing, PlaybackEvent::Toggle), PlaybackState::Paused);
    assert_eq!(on_event(PlaybackState::Paused, PlaybackEvent::Toggle), PlaybackState::Playing);
    assert_eq!(on_event(PlaybackState::Idle, PlaybackEvent::Toggle), PlaybackState::Idle);
    assert_eq!(on_event(PlaybackState::Quitting, PlaybackEvent::Toggle), PlaybackState::Quitting);
}

#[test]
fn toggle_twice_changes_nothing() {
    for state in STATES.iter() {
        let once: PlaybackState = on_event(*state, PlaybackEvent::Toggle);
        assert_eq!(on_event(once, PlaybackEvent::Toggle), *state);
    }
}

#[test]
fn quit_ends_the_session_from_every_state() {
    for state in STATES.iter() {
        assert_eq!(on_event(*state, PlaybackEvent::Quit), PlaybackState::Quitting);
    }
}

#[test]
fn closed_queue_ends_the_session_from_every_state() {
    for state in STATES.iter() {
        assert_eq!(on_event(*state, PlaybackEvent::QueueClosed), PlaybackState::Quitting);
    }
}

#[test]
fn session_that_is_over_stays_over() {
    for event in EVENTS.iter() {
        assert_eq!(on_event(PlaybackState::Quitting, *event), PlaybackState::Quitting);
    }
}

#[test]
fn each_state_has_its_activity() {
    assert_eq!(activity(PlaybackState::Idle), Activity::Standby);
    assert_eq!(activity(PlaybackState::Playing), Activity::PullAndDraw);
    assert_eq!(activity(PlaybackState::Paused), Activity::PollInput);
    assert_eq!(activity(PlaybackState::Quitting), Activity::Shutdown);
}

#[test]
fn keys_stand_for_quit_and_toggle() {
    assert_eq!(event_for_key('q'), Some(PlaybackEvent::Quit));
    assert_eq!(event_for_key(' '), Some(PlaybackEvent::Toggle));
    assert_eq!(event_for_key('Q'), None);
    assert_eq!(event_for_key('p'), None);
    assert_eq!(event_for_key('\n'), None);
}

#[test]
fn keys_move_the_loop() {
    assert_eq!(on_key(PlaybackState::Playing, ' '), PlaybackState::Paused);
    assert_eq!(on_key(PlaybackState::Paused, ' '), PlaybackState::Playing);
    assert_eq!(on_key(PlaybackState::Paused, 'q'), PlaybackState::Quitting);
    assert_eq!(on_key(PlaybackState::Playing, 'x'), PlaybackState::Playing);
    assert_eq!(on_key(PlaybackState::Idle, ' '), PlaybackState::Idle);
}

#[test]
fn session_from_start_to_quit() {
    let mut state: PlaybackState = PlaybackState::Idle;
    assert_eq!(activity(state), Activity::Standby);
    state = on_event(state, PlaybackEvent::Start);
    assert_eq!(activity(state), Activity::PullAndDraw);
    state = on_key(state, ' ');
    assert_eq!(activity(state), Activity::PollInput);
    state = on_key(state, ' ');
    assert_eq!(activity(state), Activity::PullAndDraw);
    state = on_event(state, PlaybackEvent::QueueClosed);
    assert_eq!(activity(state), Activity::Shutdown);
}

#[test]
fn fast_frame_waits_out_the_rest_of_the_interval() {
    assert_eq!(remaining_wait(0, 33), 33);
    assert_eq!(remaining_wait(5, 33), 28);
    assert_eq!(remaining_wait(32, 33), 1);
    assert_eq!(remaining_wait(12, 30), 18);
}

#[test]
fn late_frame_waits_for_nothing() {
    assert_eq!(remaining_wait(33, 33), 0);
    assert_eq!(remaining_wait(90, 33), 0);
    assert_eq!(remaining_wait(u64::MAX, 33), 0);
    assert_eq!(remaining_wait(0, 0), 0);
}

#[test]
fn wait_is_cut_into_slices_of_the_poll_interval() {
    assert_eq!(next_wait_slice(28, 5), 5);
    assert_eq!(next_wait_slice(5, 5), 5);
    assert_eq!(next_wait_slice(3, 5), 3);
    assert_eq!(next_wait_slice(0, 5), 0);
    assert_eq!(next_wait_slice(28, 0), 0);
}

#[test]
fn slices_add_up_to_the_wait() {
    let mut remaining: u64 = remaining_wait(5, 33);
    let mut slices: u64 = 0;
    let mut waited: u64 = 0;
    while remaining > 0 {
        let slice: u64 = next_wait_slice(remaining, 5);
        assert!(slice > 0 && slice <= 5);
        waited += slice;
        remaining -= slice;
        slices += 1;
    }
    assert_eq!(waited, 28);
    assert_eq!(slices, 6);
}

#[test]
fn full_queue_bounds_the_latency() {
    assert_eq!(latency_bound_ms(10, 33), Some(330));
    assert_eq!(latency_bound_ms(10, 30), Some(300));
    assert_eq!(latency_bound_ms(0, 33), Some(0));
    assert_eq!(latency_bound_ms(1, u64::MAX), Some(u64::MAX));
    assert_eq!(latency_bound_ms(2, u64::MAX), None);
}
