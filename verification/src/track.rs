//! Track data: candidates coming from the track source, fully fetched
//! ready-to-play units, and the metadata kept in the now-playing slot.

use vstd::prelude::*;

verus! {

/// An identifier for a track that has not been fetched yet, together with
/// whatever metadata the track source already knows.
pub struct TrackCandidate {
    /// Identifier understood by the track source (typically a path or URL
    /// fragment).
    pub id: String,
    /// Pre-fetched display name, when the source supplies one.
    pub display_name: Option<String>,
    /// Pre-fetched duration in whole seconds, when known.
    pub duration_secs: Option<u64>,
}

/// Metadata of a track, as kept in the now-playing slot once the track is
/// installed.
pub struct TrackMeta {
    /// Raw track name.
    pub name: String,
    /// Name meant for display.
    pub display_name: String,
    /// Display width of `display_name`, in terminal cells.
    pub width: usize,
    /// Duration in whole seconds, when known.
    pub duration_secs: Option<u64>,
    /// Full path or origin of the track; the key under which bookmarks are
    /// persisted.
    pub full_path: String,
    /// Whether `display_name` was chosen by the user rather than derived
    /// from the origin.
    pub custom_name: bool,
}

/// A fully fetched, playable unit: decoded audio payload plus final
/// metadata. Owned by the prefetch queue until dequeued.
pub struct ReadyTrack {
    /// Metadata retained in the now-playing slot on installation.
    pub meta: TrackMeta,
    /// Audio payload handed to the playback engine on installation.
    pub data: Vec<u8>,
}

impl Clone for TrackMeta {
    /// Field-for-field copy; the clone equals the original.
    fn clone(&self) -> (r: Self)
        ensures
            r == *self,
    {
        TrackMeta {
            name: self.name.clone(),
            display_name: self.display_name.clone(),
            width: self.width,
            duration_secs: self.duration_secs,
            full_path: self.full_path.clone(),
            custom_name: self.custom_name,
        }
    }
}

} // verus!
