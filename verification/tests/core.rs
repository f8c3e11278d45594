//! The playback core: control loop, prefetch queue, fetch retry and
//! progress coalescing.

use lowfi::control::{Action, Config, Input, Message, PlayerState, UIEvent, MAX_VOLUME};
use lowfi::fetch::{fetch_until_ready, FetchOutcome};
use lowfi::progress::ProgressBroadcaster;
use lowfi::queue::PrefetchQueue;
use lowfi::track::{ReadyTrack, TrackMeta};

fn meta(name: &str) -> TrackMeta {
    TrackMeta {
        name: name.to_string(),
        display_name: name.to_string(),
        width: name.len(),
        duration_secs: Some(120),
        full_path: format!("tracks/{name}"),
        custom_name: false,
    }
}

fn ready(name: &str) -> ReadyTrack {
    ReadyTrack {
        meta: meta(name),
        data: name.as_bytes().to_vec(),
    }
}

fn fresh_state() -> PlayerState {
    PlayerState::new(&Config {
        buffer_size: 2,
        paused: false,
        volume: 90,
        fetch_timeout_secs: 3,
    })
}

#[test]
fn backpressure_len_never_exceeds_capacity() {
    let mut q = PrefetchQueue::new(2);
    assert!(q.try_push(ready("a")).is_none());
    assert!(q.try_push(ready("b")).is_none());
    // The queue is full: the third push is refused and handed back.
    let refused = q.try_push(ready("c"));
    assert!(refused.is_some());
    assert_eq!(refused.unwrap().meta.name, "c");
    assert_eq!(q.len(), 2);
    assert_eq!(q.capacity(), 2);
    assert!(q.is_full());
}

#[test]
fn fifo_pop_order_is_push_order() {
    let mut q = PrefetchQueue::new(3);
    assert!(q.try_push(ready("first")).is_none());
    assert!(q.try_push(ready("second")).is_none());
    assert!(q.try_push(ready("third")).is_none());
    assert_eq!(q.pop_front().unwrap().meta.name, "first");
    assert_eq!(q.pop_front().unwrap().meta.name, "second");
    assert_eq!(q.pop_front().unwrap().meta.name, "third");
    assert!(q.pop_front().is_none());
}

#[test]
fn retry_converges_on_first_success() {
    let attempts = vec![
        FetchOutcome::Failed,
        FetchOutcome::Failed,
        FetchOutcome::Ready(ready("winner")),
        FetchOutcome::Ready(ready("late")),
    ];
    let (track, discarded) = fetch_until_ready(attempts).unwrap();
    assert_eq!(track.meta.name, "winner");
    assert_eq!(discarded, 2);

    assert!(fetch_until_ready(vec![FetchOutcome::Failed]).is_none());
    assert!(fetch_until_ready(Vec::new()).is_none());
}

#[test]
fn scenario_prefetch_and_three_advances() {
    // Capacity 2; the source yields C1 (succeeds), C2 (fails once, then
    // succeeds as C2'), C3 (succeeds). Three advance commands install
    // C1, C2', C3 in order; exactly one failed attempt is discarded and
    // no event is emitted for it.
    let mut state = fresh_state();
    let mut queue = PrefetchQueue::new(2);
    let mut events: Vec<UIEvent> = Vec::new();

    let (c1, d1) = fetch_until_ready(vec![FetchOutcome::Ready(ready("C1"))]).unwrap();
    assert_eq!(d1, 0);
    assert!(queue.try_push(c1).is_none());

    let (c2, d2) = fetch_until_ready(vec![
        FetchOutcome::Failed,
        FetchOutcome::Ready(ready("C2'")),
    ])
    .unwrap();
    assert_eq!(d2, 1, "exactly one discarded failed attempt");
    assert!(queue.try_push(c2).is_none());
    assert!(queue.is_full());

    let mut installed: Vec<String> = Vec::new();

    let outcome = state.handle_input(Input::Control(Message::Init));
    events.extend(outcome.event);
    assert_eq!(outcome.action, Action::Advance);
    state.install_next(&mut queue).unwrap();
    installed.push(state.current.as_ref().unwrap().name.clone());

    // Room opened up: the worker fetches C3 and fills the buffer again.
    let (c3, d3) = fetch_until_ready(vec![FetchOutcome::Ready(ready("C3"))]).unwrap();
    assert_eq!(d3, 0);
    assert!(queue.try_push(c3).is_none());

    let outcome = state.handle_input(Input::Control(Message::Next));
    events.extend(outcome.event);
    assert_eq!(outcome.action, Action::Advance);
    state.install_next(&mut queue).unwrap();
    installed.push(state.current.as_ref().unwrap().name.clone());

    let outcome = state.handle_input(Input::Control(Message::Next));
    events.extend(outcome.event);
    assert_eq!(outcome.action, Action::Advance);
    state.install_next(&mut queue).unwrap();
    installed.push(state.current.as_ref().unwrap().name.clone());

    assert_eq!(installed, vec!["C1", "C2'", "C3"]);
    // One TrackChanged per command, none for the failed attempt.
    assert_eq!(
        events,
        vec![UIEvent::TrackChanged, UIEvent::TrackChanged, UIEvent::TrackChanged]
    );
}

#[test]
fn scenario_volume_clamped_with_one_event() {
    // ChangeVolume(0.3) from volume 0.9 yields 1.0, clamped, with exactly
    // one VolumeChanged event (volumes in hundredths here).
    let mut state = fresh_state();
    assert_eq!(state.volume, 90);
    let outcome = state.handle_input(Input::Control(Message::ChangeVolume(30)));
    assert_eq!(state.volume, 100);
    assert_eq!(outcome.event, Some(UIEvent::VolumeChanged));
    assert_eq!(outcome.action, Action::EngineSetVolume(100));
    assert!(!outcome.quit);
}

#[test]
fn volume_never_leaves_range() {
    let mut state = fresh_state();
    for delta in [300, -1000, 7, -7, i32::MAX, i32::MIN, 55] {
        state.handle_input(Input::Control(Message::ChangeVolume(delta)));
        assert!(state.volume <= MAX_VOLUME);
    }
    state.handle_input(Input::Control(Message::ChangeVolume(i32::MIN)));
    assert_eq!(state.volume, 0);
    state.handle_input(Input::Control(Message::ChangeVolume(i32::MAX)));
    assert_eq!(state.volume, 100);
}

#[test]
fn scenario_bookmark_without_track_is_noop() {
    // Bookmark sent with no current track is a no-op producing no event.
    let mut state = fresh_state();
    assert!(!state.current_exists());
    let outcome = state.handle_input(Input::Control(Message::Bookmark));
    assert_eq!(outcome.event, None);
    assert_eq!(outcome.action, Action::Nothing);
    assert!(!outcome.quit);
    assert!(state.current.is_none());
    assert!(!state.bookmarked);
    assert!(!state.armed);
    assert!(!state.paused);
    assert_eq!(state.volume, 90);
    assert!(state.bookmark_request().is_none());
}

#[test]
fn exhaustion_before_arming_advances_nothing() {
    // An exhaustion signal received before a NewSong-armed transition
    // produces no track change.
    let mut state = fresh_state();
    assert!(!state.armed);
    let outcome = state.handle_input(Input::TrackExhausted);
    assert_eq!(outcome.event, None);
    assert_eq!(outcome.action, Action::Nothing);

    // Armed by NewSong, the same signal advances like Next.
    let mut queue = PrefetchQueue::new(1);
    assert!(queue.try_push(ready("t1")).is_none());
    state.install_next(&mut queue).unwrap();
    let outcome = state.handle_input(Input::Control(Message::NewSong));
    assert_eq!(outcome.event, Some(UIEvent::TrackChanged));
    assert!(state.armed);
    let outcome = state.handle_input(Input::TrackExhausted);
    assert_eq!(outcome.event, Some(UIEvent::TrackChanged));
    assert_eq!(outcome.action, Action::Advance);
    assert!(!state.armed, "the advance disarms until the next NewSong");
}

#[test]
fn bookmark_resets_on_track_transition() {
    let mut state = fresh_state();
    let mut queue = PrefetchQueue::new(2);
    assert!(queue.try_push(ready("one")).is_none());
    assert!(queue.try_push(ready("two")).is_none());

    state.install_next(&mut queue).unwrap();
    assert!(!state.bookmarked);
    let event = state.complete_bookmark(true);
    assert_eq!(event, UIEvent::BookmarkChanged);
    assert!(state.bookmarked);

    // Any track transition clears the flag until the next Bookmark.
    state.handle_input(Input::Control(Message::Next));
    state.install_next(&mut queue).unwrap();
    assert!(!state.bookmarked);
}

#[test]
fn bookmark_request_uses_origin_and_custom_name() {
    let mut state = fresh_state();
    let mut custom = meta("named");
    custom.custom_name = true;
    custom.display_name = "My Name".to_string();
    let mut queue = PrefetchQueue::new(1);
    assert!(queue
        .try_push(ReadyTrack { meta: custom, data: vec![1, 2, 3] })
        .is_none());
    state.install_next(&mut queue).unwrap();

    let (path, display) = state.bookmark_request().unwrap();
    assert_eq!(path, "tracks/named");
    assert_eq!(display.as_deref(), Some("My Name"));

    let outcome = state.handle_input(Input::Control(Message::Bookmark));
    assert_eq!(outcome.action, Action::PersistBookmark);
    assert_eq!(outcome.event, None, "the event follows persistence, not the command");
}

#[test]
fn play_pause_toggle_and_quit() {
    let mut state = fresh_state();
    let outcome = state.handle_input(Input::Control(Message::Pause));
    assert!(state.paused);
    assert_eq!(outcome.event, Some(UIEvent::PlaybackStateChanged));
    assert_eq!(outcome.action, Action::EnginePause);

    let outcome = state.handle_input(Input::Control(Message::PlayPause));
    assert!(!state.paused);
    assert_eq!(outcome.action, Action::EnginePlay);

    let outcome = state.handle_input(Input::Control(Message::Play));
    assert!(!state.paused);
    assert_eq!(outcome.action, Action::EnginePlay);

    let outcome = state.handle_input(Input::Control(Message::Quit));
    assert!(outcome.quit);
    assert_eq!(outcome.event, None);
}

#[test]
fn next_without_current_is_noop() {
    let mut state = fresh_state();
    let outcome = state.handle_input(Input::Control(Message::Next));
    assert_eq!(outcome.event, None);
    assert_eq!(outcome.action, Action::Nothing);
}

#[test]
fn playback_info_snapshot() {
    let mut state = fresh_state();
    let info = state.get_playback_info(17);
    assert!(!info.is_paused);
    assert!(!info.is_playing, "nothing is playing while the slot is empty");
    assert_eq!(info.volume, 90);
    assert_eq!(info.position_secs, 17);
    assert!(!info.is_bookmarked);

    let mut queue = PrefetchQueue::new(1);
    assert!(queue.try_push(ready("t")).is_none());
    state.install_next(&mut queue).unwrap();
    let info = state.get_playback_info(3);
    assert!(info.is_playing);
}

#[test]
fn set_volume_clamps_absolute_levels() {
    let mut state = fresh_state();
    state.set_volume(250);
    assert_eq!(state.volume, 100);
    state.set_volume(40);
    assert_eq!(state.volume, 40);
}

#[test]
fn progress_broadcaster_coalesces_ticks() {
    let mut b = ProgressBroadcaster::new();
    // Nothing current: no notification.
    assert_eq!(b.tick(false, false, 5), None);
    // Playing: the first rendering goes out.
    assert_eq!(b.tick(true, false, 5), Some(UIEvent::ProgressUpdate));
    // Same rendered position: coalesced away.
    assert_eq!(b.tick(true, false, 5), None);
    // Paused: quiet even on a new position.
    assert_eq!(b.tick(true, true, 6), None);
    // New position while playing: one notification.
    assert_eq!(b.tick(true, false, 6), Some(UIEvent::ProgressUpdate));
    // Disabled: quiet.
    b.set_progress_emit(false);
    assert_eq!(b.tick(true, false, 7), None);
}

#[test]
fn install_from_empty_queue_waits() {
    let mut state = fresh_state();
    let mut queue = PrefetchQueue::new(1);
    assert!(state.install_next(&mut queue).is_none());
    assert!(!state.current_exists());
}
