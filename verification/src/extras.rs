//! Further widgets: playlist view, lyrics display, network status
//! indicator, equalizer preset selector and spectrum analyzer.

use vstd::prelude::*;

use crate::context::{ComponentEvent, EventResult, RenderContext};
use crate::text::{
    bold, bold_of, char_repeat, duration_rep, format_duration, is_prefix, italic, italic_of,
    join_seqs, join_strings, push_char, repeat_char, str_starts_with, string_views,
};

verus! {

/// A playlist component showing upcoming tracks.
pub struct PlaylistView {
    /// The track names.
    pub tracks: Vec<String>,
    /// Index of the playing track within `tracks`.
    pub current_index: usize,
    /// How many rows the view may fill.
    pub max_visible: usize,
}

impl PlaylistView {
    /// First visible row: half a page above the current track, clamped at
    /// the top.
    pub open spec fn start(&self) -> int {
        if self.current_index >= self.max_visible / 2 {
            self.current_index - self.max_visible / 2
        } else {
            0int
        }
    }

    /// One past the last visible row.
    pub open spec fn end(&self) -> int {
        if self.start() + self.max_visible <= self.tracks@.len() {
            self.start() + self.max_visible
        } else {
            self.tracks@.len() as int
        }
    }

    /// A row's marker: an arrow on the current track.
    pub open spec fn row_prefix(&self, j: int) -> Seq<char> {
        if j == self.current_index {
            bold_of("\u{25b6} "@)
        } else {
            "  "@
        }
    }

    /// A row's name, shortened with an ellipsis when it overflows the
    /// width.
    pub open spec fn row_name(&self, j: int, width: int) -> Seq<char> {
        let t = self.tracks@[j]@;
        if t.len() > width - 3 {
            t.take(width - 6) + "..."@
        } else {
            t
        }
    }

    /// How the playlist renders: a placeholder when empty, else the
    /// visible rows joined on newlines.
    pub open spec fn rendered(&self, ctx: &RenderContext) -> Seq<char> {
        if self.tracks@.len() == 0 {
            "No tracks in playlist"@
        } else {
            let rows = Seq::new(
                (self.end() - self.start()) as nat,
                |i: int| self.row_prefix(self.start() + i) + self.row_name(
                    self.start() + i,
                    ctx.width as int,
                ),
            );
            join_seqs(rows, seq!['\n'])
        }
    }

    /// Whether the view's arithmetic stays in bounds for this context.
    pub open spec fn fits(&self, ctx: &RenderContext) -> bool {
        &&& ctx.width >= 6
        &&& (self.tracks@.len() > 0 ==> self.current_index < self.tracks@.len())
    }

    /// An empty playlist filling at most `max_visible` rows.
    pub fn new(max_visible: usize) -> (r: PlaylistView)
        ensures
            r.tracks@.len() == 0,
            r.current_index == 0,
            r.max_visible == max_visible,
    {
        PlaylistView { tracks: Vec::new(), current_index: 0, max_visible }
    }

    /// Replace the track names.
    pub fn set_tracks(&mut self, tracks: Vec<String>)
        ensures
            final(self).tracks == tracks,
            final(self).current_index == old(self).current_index,
            final(self).max_visible == old(self).max_visible,
    {
        self.tracks = tracks;
    }

    /// Point at the playing track.
    pub fn set_current(&mut self, index: usize)
        ensures
            final(self).tracks == old(self).tracks,
            final(self).current_index == index,
            final(self).max_visible == old(self).max_visible,
    {
        self.current_index = index;
    }

    /// Render the playlist.
    pub fn render(&self, context: &RenderContext) -> (r: String)
        requires
            context.wf(),
            self.fits(context),
        ensures
            r@ == self.rendered(context),
    {
        if self.tracks.len() == 0 {
            return "No tracks in playlist".to_owned();
        }
        let start: usize = if self.current_index >= self.max_visible / 2 {
            self.current_index - self.max_visible / 2
        } else {
            0
        };
        let end: usize = if self.max_visible <= self.tracks.len() - start {
            start + self.max_visible
        } else {
            self.tracks.len()
        };

        let mut rows: Vec<String> = Vec::new();
        let mut j: usize = start;
        while j < end
            invariant
                start <= j <= end,
                start == self.start(),
                end == self.end(),
                end <= self.tracks@.len(),
                context.wf(),
                self.fits(context),
                rows@.len() == j - start,
                forall|t: int|
                    0 <= t < j - start ==> #[trigger] rows@[t]@ == self.row_prefix(start + t)
                        + self.row_name(start + t, context.width as int),
            decreases end - j,
        {
            let mut row = if j == self.current_index {
                bold("\u{25b6} ")
            } else {
                "  ".to_owned()
            };
            let track = &self.tracks[j];
            if track.as_str().unicode_len() > context.width - 3 {
                let cut = track.as_str().substring_char(0, context.width - 6);
                row.append(cut);
                row.append("...");
            } else {
                row.append(track.as_str());
            }
            rows.push(row);
            j = j + 1;
        }
        let r = join_strings(&rows, "\n");
        proof {
            reveal_strlit("\n");
            let expected = Seq::new(
                (self.end() - self.start()) as nat,
                |i: int| self.row_prefix(self.start() + i) + self.row_name(
                    self.start() + i,
                    context.width as int,
                ),
            );
            assert(string_views(rows@) =~= expected);
            assert("\n"@ =~= seq!['\n']);
        }
        r
    }

    /// The rows the view fills: at most `max_visible`, at most the track
    /// count.
    pub fn height(&self) -> (n: usize)
        ensures
            n == if self.max_visible <= self.tracks@.len() {
                self.max_visible as int
            } else {
                self.tracks@.len() as int
            },
    {
        if self.max_visible <= self.tracks.len() {
            self.max_visible
        } else {
            self.tracks.len()
        }
    }
}

/// How many leading lyric lines start at or before the position.
pub open spec fn leading_at_or_before(ls: Seq<(u64, String)>, pos: u64) -> nat
    decreases ls.len(),
{
    if ls.len() == 0 {
        0
    } else if ls[0].0 > pos {
        0
    } else {
        1 + leading_at_or_before(ls.drop_first(), pos)
    }
}

/// The lyric line current at a position: the last of the leading lines
/// starting at or before it.
pub open spec fn current_line_at(ls: Seq<(u64, String)>, pos: u64) -> Option<int> {
    let n = leading_at_or_before(ls, pos);
    if n == 0 {
        None
    } else {
        Some(n - 1)
    }
}

/// A scan that stops at the first line starting after the position counts
/// exactly the leading lines at or before it.
proof fn lemma_leading_count(ls: Seq<(u64, String)>, pos: u64, i: int)
    requires
        0 <= i <= ls.len(),
        forall|j: int| 0 <= j < i ==> ls[j].0 <= pos,
        i == ls.len() || ls[i].0 > pos,
    ensures
        leading_at_or_before(ls, pos) == i,
    decreases i,
{
    if i > 0 {
        lemma_leading_count(ls.drop_first(), pos, i - 1);
    }
}

/// A lyrics display following the playback position.
pub struct LyricsDisplay {
    /// The lines, each with the second it starts at.
    pub lyrics: Vec<(u64, String)>,
    /// The line most recently reported current by an event.
    pub current_line: Option<usize>,
    /// Whether the current line's timestamp is shown.
    pub show_timestamp: bool,
}

impl LyricsDisplay {
    /// How the display renders: a placeholder without lyrics, a note mark
    /// before the first line starts, else the current line in bold, with
    /// its timestamp when shown.
    pub open spec fn rendered(&self, ctx: &RenderContext) -> Seq<char> {
        if self.lyrics@.len() == 0 {
            italic_of("No lyrics available"@)
        } else {
            match current_line_at(self.lyrics@, ctx.position_secs) {
                Some(idx) => if self.show_timestamp {
                    seq!['['] + duration_rep(self.lyrics@[idx].0 as nat) + seq![']'] + seq![' ']
                        + bold_of(self.lyrics@[idx].1@)
                } else {
                    bold_of(self.lyrics@[idx].1@)
                },
                None => "\u{266a} \u{266a} \u{266a}"@,
            }
        }
    }

    /// An empty display without timestamps.
    pub fn new() -> (r: LyricsDisplay)
        ensures
            r.lyrics@.len() == 0,
            r.current_line is None,
            !r.show_timestamp,
    {
        LyricsDisplay { lyrics: Vec::new(), current_line: None, show_timestamp: false }
    }

    /// Replace the lyrics.
    pub fn load_lyrics(&mut self, lyrics: Vec<(u64, String)>)
        ensures
            final(self).lyrics == lyrics,
            final(self).current_line == old(self).current_line,
            final(self).show_timestamp == old(self).show_timestamp,
    {
        self.lyrics = lyrics;
    }

    /// The same display with the timestamp display switched.
    pub fn with_timestamps(self, show: bool) -> (r: Self)
        ensures
            r.lyrics == self.lyrics,
            r.current_line == self.current_line,
            r.show_timestamp == show,
    {
        LyricsDisplay { show_timestamp: show, ..self }
    }

    /// Index of the line current at the position, if any.
    fn scan_current(&self, position: u64) -> (r: Option<usize>)
        ensures
            match r {
                Some(i) => i < self.lyrics@.len() && current_line_at(self.lyrics@, position)
                    == Some(i as int),
                None => current_line_at(self.lyrics@, position) is None,
            },
    {
        let mut i: usize = 0;
        while i < self.lyrics.len() && self.lyrics[i].0 <= position
            invariant
                i <= self.lyrics@.len(),
                forall|j: int| 0 <= j < i ==> self.lyrics@[j].0 <= position,
            decreases self.lyrics@.len() - i,
        {
            i = i + 1;
        }
        proof {
            lemma_leading_count(self.lyrics@, position, i as int);
        }
        if i == 0 {
            None
        } else {
            Some(i - 1)
        }
    }

    /// Render the display.
    pub fn render(&self, context: &RenderContext) -> (r: String)
        ensures
            r@ == self.rendered(context),
    {
        if self.lyrics.len() == 0 {
            return italic("No lyrics available");
        }
        match self.scan_current(context.position_secs) {
            Some(idx) => {
                let line = &self.lyrics[idx].1;
                if self.show_timestamp {
                    let mut r = String::new();
                    push_char(&mut r, '[');
                    let time = format_duration(self.lyrics[idx].0);
                    r.append(time.as_str());
                    push_char(&mut r, ']');
                    push_char(&mut r, ' ');
                    let styled = bold(line.as_str());
                    r.append(styled.as_str());
                    proof {
                        assert(r@ =~= self.rendered(context));
                    }
                    r
                } else {
                    bold(line.as_str())
                }
            },
            None => "\u{266a} \u{266a} \u{266a}".to_owned(),
        }
    }

    /// Follow a progress update: remember the line now current and ask for
    /// a redraw exactly when it changed.
    pub fn handle_event(&mut self, event: ComponentEvent) -> (r: EventResult)
        ensures
            lyrics_event_post(*old(self), *final(self), event, r),
    {
        match event {
            ComponentEvent::ProgressUpdate(pos, _) => {
                let new_line = self.scan_current(pos);
                let changed = match (new_line, self.current_line) {
                    (Some(a), Some(b)) => a != b,
                    (None, None) => false,
                    _ => true,
                };
                self.current_line = new_line;
                if changed {
                    EventResult::Redraw
                } else {
                    EventResult::Ignored
                }
            },
            _ => EventResult::Ignored,
        }
    }
}

/// Whether two optional line indices agree.
pub open spec fn same_line(a: Option<usize>, b: Option<usize>) -> bool {
    match (a, b) {
        (Some(x), Some(y)) => x == y,
        (None, None) => true,
        _ => false,
    }
}

/// What handling one event does to a lyrics display: a progress update
/// re-aims the current line and asks for a redraw exactly when it
/// changed; everything else bubbles up untouched.
pub open spec fn lyrics_event_post(
    l0: LyricsDisplay,
    l1: LyricsDisplay,
    event: ComponentEvent,
    r: EventResult,
) -> bool {
    match event {
        ComponentEvent::ProgressUpdate(pos, _) => {
            let line = current_line_at(l0.lyrics@, pos);
            &&& (match l1.current_line {
                Some(i) => line == Some(i as int),
                None => line is None,
            })
            &&& l1.lyrics == l0.lyrics
            &&& l1.show_timestamp == l0.show_timestamp
            &&& r == (if same_line(l1.current_line, l0.current_line) {
                EventResult::Ignored
            } else {
                EventResult::Redraw
            })
        },
        _ => l1 == l0 && r == EventResult::Ignored,
    }
}

/// What handling one event does to a spectrum analyzer: it consumes
/// spectrum data tags and ignores everything else, changing nothing.
pub open spec fn spectrum_event_post(
    s0: SpectrumAnalyzer,
    s1: SpectrumAnalyzer,
    event: ComponentEvent,
    r: EventResult,
) -> bool {
    &&& s1 == s0
    &&& r == (match event {
        ComponentEvent::Custom(data) => if is_prefix(data@, "spectrum:"@) {
            EventResult::Consumed
        } else {
            EventResult::Ignored
        },
        _ => EventResult::Ignored,
    })
}

/// Connection state shown by the network indicator.
#[derive(Debug, Clone, Copy, PartialEq, Eq)]
pub enum ConnectionStatus {
    Connected,
    Buffering,
    Disconnected,
    Connecting,
}

/// Network status indicator.
pub struct NetworkStatus {
    /// The connection state shown.
    pub status: ConnectionStatus,
    /// Whether the state's name is shown beside the icon.
    pub show_details: bool,
}

impl NetworkStatus {
    /// Icon and name of the current state.
    pub open spec fn parts(&self) -> (Seq<char>, Seq<char>) {
        match self.status {
            ConnectionStatus::Connected => ("\u{25cf}"@, "Connected"@),
            ConnectionStatus::Buffering => ("\u{25d0}"@, "Buffering"@),
            ConnectionStatus::Disconnected => ("\u{25cb}"@, "Disconnected"@),
            ConnectionStatus::Connecting => ("\u{25d1}"@, "Connecting"@),
        }
    }

    /// How the indicator renders: the icon, with the state's name when
    /// details are shown.
    pub open spec fn rendered(&self) -> Seq<char> {
        if self.show_details {
            self.parts().0 + seq![' '] + self.parts().1
        } else {
            self.parts().0
        }
    }

    /// A connected indicator without details.
    pub fn new() -> (r: NetworkStatus)
        ensures
            r.status == ConnectionStatus::Connected,
            !r.show_details,
    {
        NetworkStatus { status: ConnectionStatus::Connected, show_details: false }
    }

    /// Show another connection state.
    pub fn update_status(&mut self, status: ConnectionStatus)
        ensures
            final(self).status == status,
            final(self).show_details == old(self).show_details,
    {
        self.status = status;
    }

    /// Render the indicator; the context plays no part.
    pub fn render(&self, _context: &RenderContext) -> (r: String)
        ensures
            r@ == self.rendered(),
    {
        let parts: (&str, &str) = match self.status {
            ConnectionStatus::Connected => ("\u{25cf}", "Connected"),
            ConnectionStatus::Buffering => ("\u{25d0}", "Buffering"),
            ConnectionStatus::Disconnected => ("\u{25cb}", "Disconnected"),
            ConnectionStatus::Connecting => ("\u{25d1}", "Connecting"),
        };
        if self.show_details {
            let mut r = parts.0.to_owned();
            push_char(&mut r, ' ');
            r.append(parts.1);
            proof {
                assert(r@ =~= self.rendered());
            }
            r
        } else {
            parts.0.to_owned()
        }
    }

    /// The width the indicator needs.
    pub fn min_width(&self) -> (n: usize)
        ensures
            n == if self.show_details {
                15int
            } else {
                1int
            },
    {
        if self.show_details {
            15
        } else {
            1
        }
    }
}

/// Equalizer preset selector.
pub struct EqualizerPreset {
    /// The preset names.
    pub presets: Vec<String>,
    /// Index of the selected preset.
    pub current: usize,
}

impl EqualizerPreset {
    /// The selection points at a preset.
    pub open spec fn wf(&self) -> bool {
        self.current < self.presets@.len()
    }

    /// How the selector renders: the selected preset's name in bold after
    /// a caption.
    pub open spec fn rendered(&self) -> Seq<char> {
        "EQ: "@ + bold_of(self.presets@[self.current as int]@)
    }

    /// The stock presets, the first selected.
    pub fn new() -> (r: EqualizerPreset)
        ensures
            r.wf(),
            r.current == 0,
            r.presets@.len() == 5,
            r.presets@[0]@ == "Flat"@,
            r.presets@[1]@ == "Bass Boost"@,
            r.presets@[2]@ == "Vocal"@,
            r.presets@[3]@ == "Classical"@,
            r.presets@[4]@ == "Rock"@,
    {
        let mut presets: Vec<String> = Vec::new();
        presets.push("Flat".to_owned());
        presets.push("Bass Boost".to_owned());
        presets.push("Vocal".to_owned());
        presets.push("Classical".to_owned());
        presets.push("Rock".to_owned());
        EqualizerPreset { presets, current: 0 }
    }

    /// Select the next preset, wrapping around.
    pub fn next_preset(&mut self)
        requires
            old(self).wf(),
        ensures
            final(self).wf(),
            final(self).presets == old(self).presets,
            final(self).current == (old(self).current + 1) as int % old(self).presets@.len() as int,
    {
        let n = self.presets.len();
        self.current = (self.current + 1) % n;
    }

    /// Select the previous preset, wrapping around.
    pub fn previous_preset(&mut self)
        requires
            old(self).wf(),
        ensures
            final(self).wf(),
            final(self).presets == old(self).presets,
            final(self).current == if old(self).current == 0 {
                old(self).presets@.len() - 1
            } else {
                old(self).current - 1
            },
    {
        if self.current == 0 {
            self.current = self.presets.len() - 1;
        } else {
            self.current = self.current - 1;
        }
    }

    /// Render the selector; the context plays no part.
    pub fn render(&self, _context: &RenderContext) -> (r: String)
        requires
            self.wf(),
        ensures
            r@ == self.rendered(),
    {
        let mut r = "EQ: ".to_owned();
        let styled = bold(self.presets[self.current].as_str());
        r.append(styled.as_str());
        r
    }
}

/// The level characters of the spectrum analyzer, lowest first.
pub open spec fn spectrum_chars() -> Seq<char> {
    seq!['\u{2581}', '\u{2582}', '\u{2583}', '\u{2584}', '\u{2585}', '\u{2586}', '\u{2587}', '\u{2588}']
}

/// The character for a level in thousandths of full scale.
pub open spec fn spectrum_char(level: u32) -> char {
    let idx = (level * 7) as int / 1000;
    if idx <= 7 {
        spectrum_chars()[idx]
    } else {
        spectrum_chars()[7]
    }
}

/// The rendering of the levels from index `i` on, each as a run of its
/// level character.
pub open spec fn spectrum_from(heights: Seq<u32>, i: int, run: nat) -> Seq<char>
    decreases heights.len() - i,
{
    if i < 0 || i >= heights.len() {
        Seq::empty()
    } else {
        char_repeat(spectrum_char(heights[i]), run) + spectrum_from(heights, i + 1, run)
    }
}

/// A spectrum analyzer visualization, levels in thousandths of full
/// scale.
pub struct SpectrumAnalyzer {
    /// Number of bars shown.
    pub bars: usize,
    /// The levels, one per bar, in thousandths of full scale.
    pub heights: Vec<u32>,
}

impl SpectrumAnalyzer {
    /// How the analyzer renders: each level as a run of its level
    /// character, the runs dividing the width evenly.
    pub open spec fn rendered(&self, ctx: &RenderContext) -> Seq<char> {
        spectrum_from(self.heights@, 0, (ctx.width as nat) / (self.bars as nat))
    }

    /// The analyzer divides by its bar count.
    pub open spec fn fits(&self) -> bool {
        self.bars >= 1
    }

    /// An analyzer with the given number of silent bars.
    pub fn new(bars: usize) -> (r: SpectrumAnalyzer)
        ensures
            r.bars == bars,
            r.heights@ == Seq::new(bars as nat, |i: int| 0u32),
    {
        let mut heights: Vec<u32> = Vec::new();
        let mut i: usize = 0;
        while i < bars
            invariant
                i <= bars,
                heights@ =~= Seq::new(i as nat, |t: int| 0u32),
            decreases bars - i,
        {
            heights.push(0);
            proof {
                assert(heights@ =~= Seq::new((i + 1) as nat, |t: int| 0u32));
            }
            i = i + 1;
        }
        SpectrumAnalyzer { bars, heights }
    }

    /// Take new levels: the first `bars` of the data, padded with silence.
    pub fn update_spectrum(&mut self, data: Vec<u32>)
        ensures
            final(self).bars == old(self).bars,
            final(self).heights@ == Seq::new(
                old(self).bars as nat,
                |i: int| if i < data@.len() {
                    data@[i]
                } else {
                    0u32
                },
            ),
    {
        let ghost goal = Seq::new(
            self.bars as nat,
            |i: int| if i < data@.len() {
                data@[i]
            } else {
                0u32
            },
        );
        let mut heights: Vec<u32> = Vec::new();
        let mut i: usize = 0;
        while i < self.bars
            invariant
                i <= self.bars,
                heights@ =~= goal.take(i as int),
                goal == Seq::new(
                    self.bars as nat,
                    |t: int| if t < data@.len() {
                        data@[t]
                    } else {
                        0u32
                    },
                ),
            decreases self.bars - i,
        {
            let h = if i < data.len() {
                data[i]
            } else {
                0
            };
            heights.push(h);
            proof {
                assert(heights@ =~= goal.take(i + 1));
            }
            i = i + 1;
        }
        proof {
            assert(goal.take(self.bars as int) =~= goal);
        }
        self.heights = heights;
    }

    /// Render the analyzer.
    pub fn render(&self, context: &RenderContext) -> (r: String)
        requires
            self.fits(),
        ensures
            r@ == self.rendered(context),
    {
        let bar_width = context.width / self.bars;
        let mut r = String::new();
        let mut i: usize = 0;
        while i < self.heights.len()
            invariant
                i <= self.heights@.len(),
                self.fits(),
                bar_width == (context.width as nat) / (self.bars as nat),
                r@ + spectrum_from(self.heights@, i as int, bar_width as nat) == self.rendered(
                    context,
                ),
            decreases self.heights@.len() - i,
        {
            let h = self.heights[i];
            let idx_w: u64 = (h as u64) * 7 / 1000;
            let idx: usize = if idx_w <= 7 {
                idx_w as usize
            } else {
                7
            };
            let c: char = if idx == 0 {
                '\u{2581}'
            } else if idx == 1 {
                '\u{2582}'
            } else if idx == 2 {
                '\u{2583}'
            } else if idx == 3 {
                '\u{2584}'
            } else if idx == 4 {
                '\u{2585}'
            } else if idx == 5 {
                '\u{2586}'
            } else if idx == 6 {
                '\u{2587}'
            } else {
                '\u{2588}'
            };
            proof {
                assert(c == spectrum_char(h));
            }
            let run = repeat_char(c, bar_width);
            r.append(run.as_str());
            proof {
                assert(r@ + spectrum_from(self.heights@, i + 1, bar_width as nat)
                    =~= self.rendered(context));
            }
            i = i + 1;
        }
        r
    }

    /// The width the analyzer needs: two cells per bar.
    pub fn min_width(&self) -> (n: usize)
        requires
            self.bars <= 0x7FFF_FFFF,
        ensures
            n == self.bars * 2,
    {
        self.bars * 2
    }

    /// Consume spectrum data tags; everything else bubbles up.
    pub fn handle_event(&mut self, event: ComponentEvent) -> (r: EventResult)
        ensures
            spectrum_event_post(*old(self), *final(self), event, r),
    {
        match event {
            ComponentEvent::Custom(data) => {
                if str_starts_with(data.as_str(), "spectrum:") {
                    EventResult::Consumed
                } else {
                    EventResult::Ignored
                }
            },
            _ => EventResult::Ignored,
        }
    }
}

} // verus!
