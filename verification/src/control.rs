//! The control loop's state machine.
//!
//! The orchestrator consumes control messages and engine-exhaustion
//! signals, drives the prefetch queue, advances the now-playing slot and
//! emits events. The decisions live here as a pure step function from
//! state and input to new state, event and action; the runtime shell
//! performs the action (engine calls, persistence, waiting) and feeds the
//! next input back in.

use vstd::prelude::*;

use crate::queue::PrefetchQueue;
use crate::track::TrackMeta;

verus! {

/// Volume is kept in hundredths of full scale: 0 is silent, 100 is full.
pub const MAX_VOLUME: u32 = 100;

/// What a volume change request clamps to: the new level stays in
/// `[0, MAX_VOLUME]`.
pub open spec fn clamped_volume(current: int, delta: int) -> int {
    let raw = current + delta;
    if raw < 0 {
        0
    } else if raw > MAX_VOLUME {
        MAX_VOLUME as int
    } else {
        raw
    }
}

/// Apply a volume delta (in hundredths), clamping the result to
/// `[0, MAX_VOLUME]`.
pub fn apply_volume_delta(current: u32, delta: i32) -> (r: u32)
    requires
        current <= MAX_VOLUME,
    ensures
        r == clamped_volume(current as int, delta as int),
        r <= MAX_VOLUME,
{
    let raw: i64 = current as i64 + delta as i64;
    if raw < 0 {
        0
    } else if raw > MAX_VOLUME as i64 {
        MAX_VOLUME
    } else {
        raw as u32
    }
}

/// The closed set of control messages, delivered over an ordered channel.
/// Volume deltas are in hundredths of full scale.
#[derive(Debug, Clone, Copy, PartialEq, Eq)]
pub enum Message {
    /// Start playback of the first track.
    Init,
    /// Skip to the next track; a no-op when nothing is playing.
    Next,
    /// Retry after a failed advance.
    TryAgain,
    /// Resume the engine.
    Play,
    /// Pause the engine.
    Pause,
    /// Toggle the engine's pause state.
    PlayPause,
    /// Add the delta to the engine volume, clamped to `[0, MAX_VOLUME]`.
    ChangeVolume(i32),
    /// A newly installed track has actually started: arm the
    /// exhaustion-driven advance.
    NewSong,
    /// Persist a bookmark for the current track.
    Bookmark,
    /// Stop all background work and leave the loop.
    Quit,
}

/// Everything the control loop wakes up for: a control message, or the
/// engine reporting that the current track ran out. On simultaneous
/// readiness the runtime shell hands the message in first.
#[derive(Debug, Clone, Copy, PartialEq, Eq)]
pub enum Input {
    /// An explicit control message.
    Control(Message),
    /// The playback engine exhausted the current track.
    TrackExhausted,
}

/// The closed set of notifications fanned out to observers; delivery is
/// best-effort and never blocks the loop.
#[derive(Debug, Clone, Copy, PartialEq, Eq)]
pub enum UIEvent {
    Redraw,
    VolumeChanged,
    TrackChanged,
    PlaybackStateChanged,
    ProgressUpdate,
    BookmarkChanged,
}

/// What the runtime shell must do after a step.
#[derive(Debug, Clone, Copy, PartialEq, Eq)]
pub enum Action {
    /// Nothing to perform.
    Nothing,
    /// Dequeue-or-wait for the next ready track and install it
    /// (`install_next`), then start the engine on it and send `NewSong`.
    Advance,
    /// Resume the engine sink.
    EnginePlay,
    /// Pause the engine sink.
    EnginePause,
    /// Set the engine volume to the given level (hundredths).
    EngineSetVolume(u32),
    /// Persist a bookmark for the current track (`bookmark_request` gives
    /// the key), then report back through `complete_bookmark`.
    PersistBookmark,
}

/// The result of one step of the control loop.
pub struct Outcome {
    /// At most one notification per step.
    pub event: Option<UIEvent>,
    /// What the runtime shell performs next.
    pub action: Action,
    /// Whether the loop terminates.
    pub quit: bool,
}

/// The configuration surface the core consumes.
pub struct Config {
    /// Capacity of the prefetch queue; positive.
    pub buffer_size: usize,
    /// Whether playback starts paused.
    pub paused: bool,
    /// Initial volume in hundredths, within `[0, MAX_VOLUME]`.
    pub volume: u32,
    /// Per-attempt fetch timeout in seconds.
    pub fetch_timeout_secs: u64,
}

impl Config {
    /// A usable configuration.
    pub open spec fn wf(&self) -> bool {
        &&& self.buffer_size >= 1
        &&& self.volume <= MAX_VOLUME
    }
}

/// The playback-control state. Only the control loop mutates it; other
/// tasks read snapshots of it or request changes via messages.
pub struct PlayerState {
    /// The now-playing slot: metadata of the track currently handed to the
    /// engine, or `None` while loading.
    pub current: Option<TrackMeta>,
    /// Whether the current track is bookmarked; reset on every track
    /// transition.
    pub bookmarked: bool,
    /// Whether an engine-exhaustion signal may advance playback; armed by
    /// `NewSong` once a track has genuinely started.
    pub armed: bool,
    /// Mirror of the engine's pause state.
    pub paused: bool,
    /// Mirror of the engine's volume, in hundredths.
    pub volume: u32,
}

/// The state invariant: the volume stays in range.
pub open spec fn wf_state(s: PlayerState) -> bool {
    s.volume <= MAX_VOLUME
}

/// How one control message transforms the state. `Next` without a current
/// track is a no-op; a track transition itself happens in `install_next`,
/// driven by the `Advance` action.
pub open spec fn message_effect(s: PlayerState, m: Message) -> PlayerState {
    match m {
        Message::Init | Message::TryAgain => PlayerState { bookmarked: false, armed: false, ..s },
        Message::Next => if s.current is Some {
            PlayerState { bookmarked: false, armed: false, ..s }
        } else {
            s
        },
        Message::Play => PlayerState { paused: false, ..s },
        Message::Pause => PlayerState { paused: true, ..s },
        Message::PlayPause => PlayerState { paused: !s.paused, ..s },
        Message::ChangeVolume(d) => PlayerState {
            volume: clamped_volume(s.volume as int, d as int) as u32,
            ..s
        },
        Message::NewSong => PlayerState { armed: true, ..s },
        Message::Bookmark => s,
        Message::Quit => s,
    }
}

/// The notification one control message emits: exactly one per effective
/// command, none for no-ops. `Bookmark` reports only once persistence
/// completes (`complete_bookmark`).
pub open spec fn message_event(s: PlayerState, m: Message) -> Option<UIEvent> {
    match m {
        Message::Init | Message::TryAgain => Some(UIEvent::TrackChanged),
        Message::Next => if s.current is Some {
            Some(UIEvent::TrackChanged)
        } else {
            None
        },
        Message::Play | Message::Pause | Message::PlayPause => Some(
            UIEvent::PlaybackStateChanged,
        ),
        Message::ChangeVolume(_) => Some(UIEvent::VolumeChanged),
        Message::NewSong => Some(UIEvent::TrackChanged),
        Message::Bookmark => None,
        Message::Quit => None,
    }
}

/// The action one control message asks of the runtime shell.
pub open spec fn message_action(s: PlayerState, m: Message) -> Action {
    match m {
        Message::Init | Message::TryAgain => Action::Advance,
        Message::Next => if s.current is Some {
            Action::Advance
        } else {
            Action::Nothing
        },
        Message::Play => Action::EnginePlay,
        Message::Pause => Action::EnginePause,
        Message::PlayPause => if s.paused {
            Action::EnginePlay
        } else {
            Action::EnginePause
        },
        Message::ChangeVolume(d) => Action::EngineSetVolume(
            clamped_volume(s.volume as int, d as int) as u32,
        ),
        Message::NewSong => Action::Nothing,
        Message::Bookmark => if s.current is Some {
            Action::PersistBookmark
        } else {
            Action::Nothing
        },
        Message::Quit => Action::Nothing,
    }
}

/// How one input transforms the state: an exhaustion signal acts like
/// `Next`, but only when a prior `NewSong` armed the advance.
pub open spec fn input_effect(s: PlayerState, i: Input) -> PlayerState {
    match i {
        Input::Control(m) => message_effect(s, m),
        Input::TrackExhausted => if s.armed {
            message_effect(s, Message::Next)
        } else {
            s
        },
    }
}

/// The notification one input emits.
pub open spec fn input_event(s: PlayerState, i: Input) -> Option<UIEvent> {
    match i {
        Input::Control(m) => message_event(s, m),
        Input::TrackExhausted => if s.armed {
            message_event(s, Message::Next)
        } else {
            None
        },
    }
}

/// The action one input asks of the runtime shell.
pub open spec fn input_action(s: PlayerState, i: Input) -> Action {
    match i {
        Input::Control(m) => message_action(s, m),
        Input::TrackExhausted => if s.armed {
            message_action(s, Message::Next)
        } else {
            Action::Nothing
        },
    }
}

impl PlayerState {
    /// The initial state: nothing playing, nothing bookmarked, advance
    /// unarmed, pause state and volume from the configuration.
    pub fn new(config: &Config) -> (s: PlayerState)
        requires
            config.wf(),
        ensures
            wf_state(s),
            s.current is None,
            !s.bookmarked,
            !s.armed,
            s.paused == config.paused,
            s.volume == config.volume,
    {
        PlayerState {
            current: None,
            bookmarked: false,
            armed: false,
            paused: config.paused,
            volume: config.volume,
        }
    }

    /// Whether a current track exists.
    pub fn current_exists(&self) -> (b: bool)
        ensures
            b <==> self.current is Some,
    {
        self.current.is_some()
    }

    /// One step of the control loop: apply an input, returning the
    /// notification to fan out and the action the runtime shell performs.
    pub fn handle_input(&mut self, input: Input) -> (r: Outcome)
        requires
            wf_state(*old(self)),
        ensures
            wf_state(*final(self)),
            *final(self) == input_effect(*old(self), input),
            r.event == input_event(*old(self), input),
            r.action == input_action(*old(self), input),
            r.quit <==> input == Input::Control(Message::Quit),
    {
        let msg = match input {
            Input::Control(m) => m,
            Input::TrackExhausted => {
                if !self.armed {
                    return Outcome { event: None, action: Action::Nothing, quit: false };
                }
                Message::Next
            },
        };
        match msg {
            Message::Init | Message::TryAgain => {
                self.bookmarked = false;
                self.armed = false;
                Outcome {
                    event: Some(UIEvent::TrackChanged),
                    action: Action::Advance,
                    quit: false,
                }
            },
            Message::Next => {
                if self.current.is_some() {
                    self.bookmarked = false;
                    self.armed = false;
                    Outcome {
                        event: Some(UIEvent::TrackChanged),
                        action: Action::Advance,
                        quit: false,
                    }
                } else {
                    Outcome { event: None, action: Action::Nothing, quit: false }
                }
            },
            Message::Play => {
                self.paused = false;
                Outcome {
                    event: Some(UIEvent::PlaybackStateChanged),
                    action: Action::EnginePlay,
                    quit: false,
                }
            },
            Message::Pause => {
                self.paused = true;
                Outcome {
                    event: Some(UIEvent::PlaybackStateChanged),
                    action: Action::EnginePause,
                    quit: false,
                }
            },
            Message::PlayPause => {
                let action = if self.paused {
                    Action::EnginePlay
                } else {
                    Action::EnginePause
                };
                self.paused = !self.paused;
                Outcome {
                    event: Some(UIEvent::PlaybackStateChanged),
                    action,
                    quit: false,
                }
            },
            Message::ChangeVolume(delta) => {
                let v = apply_volume_delta(self.volume, delta);
                self.volume = v;
                Outcome {
                    event: Some(UIEvent::VolumeChanged),
                    action: Action::EngineSetVolume(v),
                    quit: false,
                }
            },
            Message::NewSong => {
                self.armed = true;
                Outcome {
                    event: Some(UIEvent::TrackChanged),
                    action: Action::Nothing,
                    quit: false,
                }
            },
            Message::Bookmark => {
                if self.current.is_some() {
                    Outcome { event: None, action: Action::PersistBookmark, quit: false }
                } else {
                    Outcome { event: None, action: Action::Nothing, quit: false }
                }
            },
            Message::Quit => {
                Outcome { event: None, action: Action::Nothing, quit: true }
            },
        }
    }

    /// Install the next ready track from the prefetch queue as the
    /// now-playing track, clearing the bookmark flag, and hand its payload
    /// out for the engine. Returns `None` — leaving everything untouched —
    /// while the queue is empty; the runtime shell then waits and retries.
    /// After starting the engine on the payload, the shell sends `NewSong`
    /// so that a genuine start arms the exhaustion-driven advance.
    pub fn install_next(&mut self, queue: &mut PrefetchQueue) -> (r: Option<Vec<u8>>)
        requires
            wf_state(*old(self)),
            old(queue).wf(),
        ensures
            wf_state(*final(self)),
            final(queue).wf(),
            final(queue).cap() == old(queue).cap(),
            old(queue).contents().len() == 0 ==> {
                &&& r is None
                &&& *final(self) == *old(self)
                &&& final(queue).contents() == old(queue).contents()
            },
            old(queue).contents().len() > 0 ==> {
                &&& r matches Some(data) && data@ == old(queue).contents()[0].data@
                &&& final(self).current == Some(old(queue).contents()[0].meta)
                &&& !final(self).bookmarked
                &&& final(self).armed == old(self).armed
                &&& final(self).paused == old(self).paused
                &&& final(self).volume == old(self).volume
                &&& final(queue).contents() == old(queue).contents().drop_first()
            },
    {
        match queue.pop_front() {
            Some(track) => {
                self.current = Some(track.meta);
                self.bookmarked = false;
                Some(track.data)
            },
            None => None,
        }
    }

    /// The key under which the current track is bookmarked: its origin,
    /// and its display name when that name was chosen by the user.
    pub fn bookmark_request(&self) -> (r: Option<(String, Option<String>)>)
        ensures
            r is Some <==> self.current is Some,
            self.current matches Some(meta) ==> {
                &&& r matches Some(p)
                &&& p.0 == meta.full_path
                &&& (meta.custom_name ==> p.1 == Some(meta.display_name))
                &&& (!meta.custom_name ==> p.1 is None)
            },
    {
        match &self.current {
            Some(meta) => {
                let name = if meta.custom_name {
                    Some(meta.display_name.clone())
                } else {
                    None
                };
                Some((meta.full_path.clone(), name))
            },
            None => None,
        }
    }

    /// Record the outcome of bookmark persistence: the flag takes the new
    /// persisted state, and observers are told.
    pub fn complete_bookmark(&mut self, persisted: bool) -> (r: UIEvent)
        requires
            wf_state(*old(self)),
        ensures
            wf_state(*final(self)),
            *final(self) == (PlayerState { bookmarked: persisted, ..*old(self) }),
            r == UIEvent::BookmarkChanged,
    {
        self.bookmarked = persisted;
        UIEvent::BookmarkChanged
    }

    /// Set the mirrored engine volume outright, clamped to
    /// `[0, MAX_VOLUME]`; the runtime shell applies the same level to the
    /// engine.
    pub fn set_volume(&mut self, volume: u32)
        ensures
            final(self).volume == (if volume <= MAX_VOLUME {
                volume as int
            } else {
                MAX_VOLUME as int
            }),
            wf_state(*final(self)),
            *final(self) == (PlayerState { volume: final(self).volume, ..*old(self) }),
    {
        self.volume = if volume <= MAX_VOLUME {
            volume
        } else {
            MAX_VOLUME
        };
    }

    /// A snapshot of playback control state for observers, with the
    /// engine-reported position threaded in.
    pub fn get_playback_info(&self, position_secs: u64) -> (r: PlaybackInfo)
        ensures
            r.is_paused == self.paused,
            r.is_playing == (self.current is Some && !self.paused),
            r.volume == self.volume,
            r.position_secs == position_secs,
            r.is_bookmarked == self.bookmarked,
    {
        PlaybackInfo {
            is_paused: self.paused,
            is_playing: self.current.is_some() && !self.paused,
            volume: self.volume,
            position_secs,
            is_bookmarked: self.bookmarked,
        }
    }
}

/// Playback information for observers: one coherent snapshot.
#[derive(Debug, Clone, Copy, PartialEq, Eq, Structural)]
pub struct PlaybackInfo {
    /// Whether the engine is paused.
    pub is_paused: bool,
    /// Whether a track is current and the engine is not paused.
    pub is_playing: bool,
    /// Engine volume in hundredths.
    pub volume: u32,
    /// Engine-reported position in whole seconds.
    pub position_secs: u64,
    /// Whether the current track is bookmarked.
    pub is_bookmarked: bool,
}

/// The state after a whole run of inputs.
pub open spec fn apply_inputs(s: PlayerState, inputs: Seq<Input>) -> PlayerState
    decreases inputs.len(),
{
    if inputs.len() == 0 {
        s
    } else {
        apply_inputs(input_effect(s, inputs[0]), inputs.drop_first())
    }
}

/// Volume clamp: every run of inputs — volume changes of any deltas
/// included — keeps the volume within `[0, MAX_VOLUME]`.
pub proof fn lemma_volume_clamped(s: PlayerState, inputs: Seq<Input>)
    requires
        wf_state(s),
    ensures
        wf_state(apply_inputs(s, inputs)),
        apply_inputs(s, inputs).volume <= MAX_VOLUME,
    decreases inputs.len(),
{
    if inputs.len() > 0 {
        lemma_volume_clamped(input_effect(s, inputs[0]), inputs.drop_first());
    }
}

/// No double-advance: an engine-exhaustion signal received while the
/// advance is not armed by a prior `NewSong` changes nothing — no state
/// change, no event, no action, hence no track change.
pub proof fn lemma_no_double_advance(s: PlayerState)
    requires
        !s.armed,
    ensures
        input_effect(s, Input::TrackExhausted) == s,
        input_event(s, Input::TrackExhausted) is None,
        input_action(s, Input::TrackExhausted) == Action::Nothing,
{
}

/// Bookmark reset: no input sets the bookmark flag — after a track
/// transition cleared it, it reads false through any further run of
/// inputs, until an explicit `Bookmark` command's persistence completes
/// (`complete_bookmark`).
pub proof fn lemma_bookmark_reset(s: PlayerState, inputs: Seq<Input>)
    requires
        !s.bookmarked,
    ensures
        !apply_inputs(s, inputs).bookmarked,
    decreases inputs.len(),
{
    if inputs.len() > 0 {
        lemma_bookmark_reset(input_effect(s, inputs[0]), inputs.drop_first());
    }
}

} // verus!
