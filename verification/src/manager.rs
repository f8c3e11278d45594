//! The interface manager: keeps the window, the widget layout and the
//! volume flash timer together, and turns playback snapshots and events
//! into rendered frames. The timer is owned state threaded through the
//! update cycle, not a process-wide counter.

use vstd::prelude::*;

use crate::context::{PlaybackState, RenderContext, TrackInfo};
use crate::control::{PlaybackInfo, UIEvent};
use crate::layout::{Component, DynamicComponent, VStack, Widget};
use crate::widgets::{controls_total, ControlBar, ProgressBar, StatusBar, VolumeBar};
use crate::window::ComponentWindow;

verus! {

/// How many update cycles the volume bar stays visible after the volume
/// was adjusted.
pub const AUDIO_BAR_DURATION: usize = 10;

/// Counts the update cycles since the volume was last adjusted; zero means
/// the volume bar is hidden.
pub struct VolumeTimer {
    ticks: usize,
}

impl VolumeTimer {
    /// Cycles since the last volume adjustment (zero: none pending).
    pub closed spec fn ticks(&self) -> int {
        self.ticks as int
    }

    /// The count never runs past the visibility window.
    pub open spec fn wf(&self) -> bool {
        self.ticks() <= AUDIO_BAR_DURATION + 1
    }

    /// A quiet timer.
    pub fn new() -> (t: VolumeTimer)
        ensures
            t.wf(),
            t.ticks() == 0,
    {
        VolumeTimer { ticks: 0 }
    }

    /// One update cycle: while running, the volume bar shows and the count
    /// advances until the window is over; then it resets.
    pub fn step(&mut self) -> (show_volume: bool)
        requires
            old(self).wf(),
        ensures
            final(self).wf(),
            show_volume == (old(self).ticks() > 0),
            old(self).ticks() > 0 ==> final(self).ticks() == (if old(self).ticks()
                <= AUDIO_BAR_DURATION {
                old(self).ticks() + 1
            } else {
                0int
            }),
            old(self).ticks() == 0 ==> final(self).ticks() == 0,
    {
        if self.ticks > 0 {
            if self.ticks <= AUDIO_BAR_DURATION {
                self.ticks = self.ticks + 1;
            } else {
                self.ticks = 0;
            }
            true
        } else {
            false
        }
    }
}

/// Start the volume display window: the next update cycles show the
/// volume bar.
pub fn flash_audio(timer: &mut VolumeTimer)
    ensures
        final(timer).wf(),
        final(timer).ticks() == 1,
{
    timer.ticks = 1;
}

/// The playback state widgets display for a snapshot: loading without a
/// track, else the engine's pause state.
pub open spec fn spec_playback_state(info: PlaybackInfo, track: Option<TrackInfo>) -> PlaybackState {
    if track is None {
        PlaybackState::Loading
    } else if info.is_paused {
        PlaybackState::Paused
    } else {
        PlaybackState::Playing
    }
}

/// The interface manager.
pub struct UIManager {
    window: ComponentWindow,
    minimalist: bool,
    /// The volume flash timer; `flash_audio` pokes it when the volume is
    /// adjusted.
    pub timer: VolumeTimer,
    progress_bar_idx: usize,
    volume_bar_idx: usize,
}

impl UIManager {
    /// Cycles on the volume flash timer (zero: the volume bar is hidden).
    pub closed spec fn timer_ticks(&self) -> int {
        self.timer.ticks()
    }

    /// The window's content width.
    pub closed spec fn spec_width(&self) -> usize {
        self.window.width
    }

    /// Whether the window draws borders.
    pub closed spec fn spec_borderless(&self) -> bool {
        self.window.borderless
    }

    /// The context the window last rendered from.
    pub closed spec fn spec_context(&self) -> RenderContext {
        self.window.context
    }

    /// What the window renders as, in its current state.
    pub closed spec fn spec_rendered(&self) -> Seq<char> {
        self.window.spec_rendered()
    }

    /// Whether the middle slot currently shows the volume bar (else the
    /// progress bar).
    pub closed spec fn shows_volume(&self) -> bool {
        self.window.root.children@[1] matches Component::Dynamic(d) && d.current_state == 1
    }

    /// The manager's invariant: a well-formed window holding the stock
    /// layout — status bar, a progress/volume slot, and (unless
    /// minimalist) the control hints — wide enough for all of them.
    pub closed spec fn wf(&self) -> bool {
        &&& self.window.wf()
        &&& self.timer.wf()
        &&& 19 <= self.window.width <= 0xFFFF_FFF0
        &&& self.progress_bar_idx == 0
        &&& self.volume_bar_idx == 1
        &&& self.window.root.spacing == 0
        &&& self.window.root.children@.len() == (if self.minimalist {
            2int
        } else {
            3int
        })
        &&& (self.window.root.children@[0] matches Component::Widget(w) && w is Status)
        &&& (self.window.root.children@[1] matches Component::Dynamic(d) && {
            &&& d.components@.len() == 2
            &&& d.components@[0] is Progress
            &&& d.components@[1] is Volume
        })
        &&& (!self.minimalist ==> (self.window.root.children@[2] matches Component::Widget(w) && (
        w matches Widget::Control(b) && b.controls@.len() == 3 && controls_total(b.controls@)
            == 19)))
    }

    /// A manager over a fresh window with the stock layout: status bar on
    /// top, the progress bar in the middle slot, and the control hints
    /// below unless minimalist.
    pub fn new(width: usize, borderless: bool, minimalist: bool) -> (r: UIManager)
        requires
            19 <= width <= 0xFFFF_FFF0,
        ensures
            r.wf(),
            r.spec_width() == width,
            r.spec_borderless() == borderless,
            r.timer_ticks() == 0,
            !r.shows_volume(),
    {
        let mut window = ComponentWindow::new(width, borderless);

        let mut layout = VStack::new();
        layout.add_child(Component::Widget(Widget::Status(StatusBar::new())));

        let mut middle = DynamicComponent::new();
        let progress_idx = middle.add_state(Widget::Progress(ProgressBar::new()));
        let volume_idx = middle.add_state(Widget::Volume(VolumeBar::new()));
        middle.set_state(progress_idx);
        layout.add_child(Component::Dynamic(middle));

        if !minimalist {
            let bar = ControlBar::new();
            proof {
                reveal_strlit("[s]");
                reveal_strlit("kip");
                reveal_strlit("[p]");
                reveal_strlit("ause");
                reveal_strlit("[q]");
                reveal_strlit("uit");
                assert(controls_total(bar.controls@) == 19);
            }
            layout.add_child(Component::Widget(Widget::Control(bar)));
        }

        window.set_root(layout);

        UIManager {
            window,
            minimalist,
            timer: VolumeTimer::new(),
            progress_bar_idx: progress_idx,
            volume_bar_idx: volume_idx,
        }
    }

    /// Render a frame from a playback snapshot: the context takes the
    /// snapshot, the middle slot shows the volume bar while the flash
    /// timer runs, and the framed window comes back ready to print.
    pub fn update(&mut self, info: PlaybackInfo, track: Option<TrackInfo>) -> (r: String)
        requires
            old(self).wf(),
            info.volume <= 100,
            track matches Some(t) ==> t.width <= 0xFFFF_FFFF,
        ensures
            final(self).wf(),
            r@ == final(self).spec_rendered(),
            final(self).spec_width() == old(self).spec_width(),
            final(self).spec_context() == (RenderContext {
                width: old(self).spec_width(),
                playback_state: spec_playback_state(info, track),
                track_info: track,
                volume: info.volume,
                position_secs: if track is Some {
                    info.position_secs
                } else {
                    0
                },
                is_bookmarked: info.is_bookmarked,
                borderless: old(self).spec_borderless(),
            }),
            final(self).shows_volume() == (old(self).timer_ticks() > 0),
            old(self).timer_ticks() > 0 ==> final(self).timer_ticks() == (if old(
                self,
            ).timer_ticks() <= AUDIO_BAR_DURATION {
                old(self).timer_ticks() + 1
            } else {
                0int
            }),
            old(self).timer_ticks() == 0 ==> final(self).timer_ticks() == 0,
    {
        let playback_state = if track.is_none() {
            PlaybackState::Loading
        } else if info.is_paused {
            PlaybackState::Paused
        } else {
            PlaybackState::Playing
        };
        let position_secs = if track.is_some() {
            info.position_secs
        } else {
            0
        };
        let context = RenderContext {
            width: self.window.width,
            playback_state,
            track_info: track,
            volume: info.volume,
            position_secs,
            is_bookmarked: info.is_bookmarked,
            borderless: self.window.borderless,
        };
        self.window.update_context(context);

        let show_volume = self.timer.step();
        let state = if show_volume {
            self.volume_bar_idx
        } else {
            self.progress_bar_idx
        };
        let middle = &mut self.window.root.children[1];
        match middle {
            Component::Dynamic(d) => {
                d.set_state(state);
            },
            _ => {},
        }

        proof {
            let ctx = self.window.context;
            let cs = self.window.root.children@;
            assert forall|i: int| 0 <= i < cs.len() implies #[trigger] cs[i].fits(&ctx) by {
                assert(cs[0].fits(&ctx));
                assert(cs[1].fits(&ctx));
                if cs.len() == 3 {
                    assert(cs[2].fits(&ctx));
                }
            }
        }
        self.window.render()
    }

    /// React to an interface event: progress updates redraw only while a
    /// track is actually playing; every other event redraws outright. The
    /// returned frame, when there is one, is ready to print.
    pub fn handle_event(&mut self, event: UIEvent, info: PlaybackInfo, track: Option<TrackInfo>)
        -> (r: Option<String>)
        requires
            old(self).wf(),
            info.volume <= 100,
            track matches Some(t) ==> t.width <= 0xFFFF_FFFF,
        ensures
            final(self).wf(),
            final(self).spec_width() == old(self).spec_width(),
            (event == UIEvent::ProgressUpdate && !(track is Some && !info.is_paused)) ==> (r
                is None && *final(self) == *old(self)),
            (event != UIEvent::ProgressUpdate || (track is Some && !info.is_paused)) ==> (
            r matches Some(s) && s@ == final(self).spec_rendered()),
    {
        match event {
            UIEvent::ProgressUpdate => {
                if track.is_some() && !info.is_paused {
                    Some(self.update(info, track))
                } else {
                    None
                }
            },
            _ => Some(self.update(info, track)),
        }
    }
}

} // verus!
