//! The progress broadcaster: a fixed timer tick turned into a
//! low-frequency, meaningful event stream.
//!
//! Each tick, if a track is current and playback is not paused, the
//! position is rendered and a notification goes out only when that
//! rendering actually changed since the last tick — redundant downstream
//! redraws are coalesced away.

use vstd::prelude::*;

use crate::control::UIEvent;
use crate::text::{duration_rep, format_duration};

verus! {

/// State of the progress broadcaster task.
pub struct ProgressBroadcaster {
    emit_progress: bool,
    last: Option<String>,
}

impl ProgressBroadcaster {
    /// Whether progress notifications are enabled at all.
    pub closed spec fn emitting(&self) -> bool {
        self.emit_progress
    }

    /// The position rendering sent with the most recent notification.
    pub closed spec fn last_repr(&self) -> Option<Seq<char>> {
        match self.last {
            Some(s) => Some(s@),
            None => None,
        }
    }

    /// Whether a tick at the given position must notify: enabled, a track
    /// current, not paused, and the rendered position changed.
    pub open spec fn should_emit(
        &self,
        current_exists: bool,
        paused: bool,
        position_secs: u64,
    ) -> bool {
        &&& self.emitting()
        &&& current_exists
        &&& !paused
        &&& self.last_repr() != Some(duration_rep(position_secs as nat))
    }

    /// A fresh broadcaster: enabled, nothing sent yet.
    pub fn new() -> (b: ProgressBroadcaster)
        ensures
            b.emitting(),
            b.last_repr() is None,
    {
        ProgressBroadcaster { emit_progress: true, last: None }
    }

    /// Enable or disable progress notifications.
    pub fn set_progress_emit(&mut self, emit: bool)
        ensures
            final(self).emitting() == emit,
            final(self).last_repr() == old(self).last_repr(),
    {
        self.emit_progress = emit;
    }

    /// One timer tick: notify exactly when the rendered position is new
    /// and playback is actually running, remembering what was sent.
    pub fn tick(&mut self, current_exists: bool, paused: bool, position_secs: u64) -> (r: Option<
        UIEvent,
    >)
        ensures
            final(self).emitting() == old(self).emitting(),
            old(self).should_emit(current_exists, paused, position_secs) ==> {
                &&& r == Some(UIEvent::ProgressUpdate)
                &&& final(self).last_repr() == Some(duration_rep(position_secs as nat))
            },
            !old(self).should_emit(current_exists, paused, position_secs) ==> {
                &&& r is None
                &&& final(self).last_repr() == old(self).last_repr()
            },
    {
        if !self.emit_progress || !current_exists || paused {
            return None;
        }
        let repr = format_duration(position_secs);
        let changed = match &self.last {
            Some(prev) => !(*prev == repr),
            None => true,
        };
        if changed {
            self.last = Some(repr);
            Some(UIEvent::ProgressUpdate)
        } else {
            None
        }
    }
}

} // verus!
