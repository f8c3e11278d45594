//! What widgets render from: playback state, track information and the
//! rendering context handed down the widget tree.

use vstd::prelude::*;

verus! {

/// Result of handling a component event.
#[derive(Debug, Clone, Copy, PartialEq, Eq)]
pub enum EventResult {
    /// Event was consumed.
    Consumed,
    /// Event was ignored and should bubble up.
    Ignored,
    /// Request a redraw.
    Redraw,
}

/// Playback state as widgets display it.
#[derive(Debug, Clone, Copy, PartialEq, Eq)]
pub enum PlaybackState {
    Playing,
    Paused,
    Stopped,
    Loading,
}

/// Track information handed to widgets.
pub struct TrackInfo {
    /// Raw track name.
    pub name: String,
    /// Name meant for display.
    pub display_name: String,
    /// Display width of `display_name`, in terminal cells.
    pub width: usize,
    /// Duration in whole seconds, when known.
    pub duration_secs: Option<u64>,
}

impl Clone for TrackInfo {
    /// Field-for-field copy; the clone equals the original.
    fn clone(&self) -> (r: Self)
        ensures
            r == *self,
    {
        TrackInfo {
            name: self.name.clone(),
            display_name: self.display_name.clone(),
            width: self.width,
            duration_secs: self.duration_secs,
        }
    }
}

/// Events that widgets can handle. Volume is in hundredths of full scale;
/// positions and durations are whole seconds.
pub enum ComponentEvent {
    /// Volume changed.
    VolumeChanged(u32),
    /// Playback state changed.
    PlaybackStateChanged(PlaybackState),
    /// Track changed.
    TrackChanged(TrackInfo),
    /// Progress update: position, and duration when known.
    ProgressUpdate(u64, Option<u64>),
    /// Bookmark state changed.
    BookmarkChanged(bool),
    /// Custom event with a tag.
    Custom(String),
}

/// Context provided to widgets for rendering.
pub struct RenderContext {
    /// Available width for rendering, in terminal cells.
    pub width: usize,
    /// Current playback state.
    pub playback_state: PlaybackState,
    /// Current track info, if any.
    pub track_info: Option<TrackInfo>,
    /// Current volume in hundredths of full scale, within `[0, 100]`.
    pub volume: u32,
    /// Current playback position in whole seconds.
    pub position_secs: u64,
    /// Whether the current track is bookmarked.
    pub is_bookmarked: bool,
    /// Whether borders should be shown.
    pub borderless: bool,
}

impl RenderContext {
    /// A usable context: the volume is in range and the width fits well
    /// inside the arithmetic the renderers do.
    pub open spec fn wf(&self) -> bool {
        &&& self.volume <= 100
        &&& self.width <= 0xFFFF_FFFF
    }

    /// Whether the track's claimed name width stays inside the renderers'
    /// arithmetic.
    pub open spec fn track_width_bounded(&self) -> bool {
        self.track_info matches Some(t) ==> t.width <= 0xFFFF_FFFF
    }

    /// The same context narrowed to a different width.
    pub open spec fn spec_with_width(&self, width: usize) -> RenderContext {
        RenderContext { width, ..*self }
    }

    /// Narrow the context to a different width, for layout containers
    /// that divide their space.
    pub fn with_width(&self, width: usize) -> (r: RenderContext)
        ensures
            r == self.spec_with_width(width),
    {
        RenderContext {
            width,
            playback_state: self.playback_state,
            track_info: match &self.track_info {
                Some(t) => Some(t.clone()),
                None => None,
            },
            volume: self.volume,
            position_secs: self.position_secs,
            is_bookmarked: self.is_bookmarked,
            borderless: self.borderless,
        }
    }
}

impl Clone for RenderContext {
    /// Field-for-field copy; the clone equals the original.
    fn clone(&self) -> (r: Self)
        ensures
            r == *self,
    {
        self.with_width(self.width)
    }
}

} // verus!
