//! The leaf widgets of the terminal interface: label, progress bar,
//! volume bar, status bar and control-hint bar. Each renders to a plain
//! string from a `RenderContext`, and each render has an exact
//! description as a spec function.

use vstd::prelude::*;

use crate::context::{PlaybackState, RenderContext};
use crate::text::{
    bold, bold_of, char_repeat, count_graphemes, dec_rep, duration_rep, format_duration,
    graphemes_of, italic, italic_of, join_seqs, join_strings, left_padded, pad_left, push_char,
    repeat_char, string_views, take_graphemes, underlined, underlined_of,
};

verus! {

/// Text decoration of a label.
#[derive(Debug, Clone, Copy, PartialEq, Eq)]
pub enum TextStyle {
    Normal,
    Bold,
    Italic,
    Underline,
}

/// A simple text label.
pub struct Label {
    /// The text shown.
    pub text: String,
    /// Its decoration.
    pub style: TextStyle,
}

impl Label {
    /// How the label renders: its text, decorated as the terminal prints
    /// the chosen attribute.
    pub open spec fn rendered(&self) -> Seq<char> {
        match self.style {
            TextStyle::Normal => self.text@,
            TextStyle::Bold => bold_of(self.text@),
            TextStyle::Italic => italic_of(self.text@),
            TextStyle::Underline => underlined_of(self.text@),
        }
    }

    /// An undecorated label.
    pub fn new(text: String) -> (l: Label)
        ensures
            l.text == text,
            l.style == TextStyle::Normal,
    {
        Label { text, style: TextStyle::Normal }
    }

    /// The same label with another decoration.
    pub fn with_style(self, style: TextStyle) -> (l: Label)
        ensures
            l.text == self.text,
            l.style == style,
    {
        Label { style, ..self }
    }

    /// Render the label; the context plays no part.
    pub fn render(&self, _context: &RenderContext) -> (r: String)
        ensures
            r@ == self.rendered(),
    {
        match self.style {
            TextStyle::Normal => self.text.clone(),
            TextStyle::Bold => bold(self.text.as_str()),
            TextStyle::Italic => italic(self.text.as_str()),
            TextStyle::Underline => underlined(self.text.as_str()),
        }
    }

    /// The width the label needs: its number of grapheme clusters.
    pub fn min_width(&self) -> (n: usize)
        ensures
            n == graphemes_of(self.text@).len(),
    {
        count_graphemes(self.text.as_str())
    }
}

/// The filled cell count of a ratio bar: `round(pos / dur * width)`,
/// capped at the bar width; an unknown or zero duration fills nothing.
pub open spec fn filled_cells(pos: nat, dur: nat, bar_width: nat) -> nat {
    if dur == 0 {
        0
    } else if pos >= dur {
        bar_width
    } else {
        let q = (2 * pos * bar_width + dur) / (2 * dur);
        if q <= bar_width {
            q
        } else {
            bar_width
        }
    }
}

/// The body of a ratio bar: filled cells, then empty cells, inside
/// brackets.
pub open spec fn bar_body(fill: char, empty: char, filled: nat, bar_width: nat) -> Seq<char>
    recommends
        filled <= bar_width,
{
    seq!['['] + char_repeat(fill, filled) + char_repeat(empty, (bar_width - filled) as nat)
        + seq![']']
}

/// Progress bar for the current track.
pub struct ProgressBar {
    /// Character of the elapsed part.
    pub fill_char: char,
    /// Character of the remaining part.
    pub empty_char: char,
    /// Whether elapsed/total times are shown beside the bar.
    pub show_time: bool,
}

impl Default for ProgressBar {
    /// Slash-filled bar with times shown.
    fn default() -> (r: Self)
        ensures
            r.fill_char == '/',
            r.empty_char == ' ',
            r.show_time,
    {
        ProgressBar { fill_char: '/', empty_char: ' ', show_time: true }
    }
}

impl ProgressBar {
    /// The bar's cell count within the given width: time display costs 16
    /// cells when shown.
    pub open spec fn bar_width(&self, width: nat) -> nat {
        if self.show_time {
            if width >= 16 {
                (width - 16) as nat
            } else {
                0
            }
        } else {
            width
        }
    }

    /// How many cells are filled: position against duration, when a track
    /// with a known duration is current.
    pub open spec fn filled(&self, ctx: &RenderContext) -> nat {
        match ctx.track_info {
            Some(t) => match t.duration_secs {
                Some(d) => filled_cells(
                    ctx.position_secs as nat,
                    d as nat,
                    self.bar_width(ctx.width as nat),
                ),
                None => 0,
            },
            None => 0,
        }
    }

    /// The total-time text: the track's duration, or `00:00` when none is
    /// known.
    pub open spec fn total_rep(&self, ctx: &RenderContext) -> Seq<char> {
        match ctx.track_info {
            Some(t) => match t.duration_secs {
                Some(d) => duration_rep(d as nat),
                None => "00:00"@,
            },
            None => "00:00"@,
        }
    }

    /// How the progress bar renders: the bracketed bar, with elapsed and
    /// total times beside it when shown.
    pub open spec fn rendered(&self, ctx: &RenderContext) -> Seq<char> {
        let bw = self.bar_width(ctx.width as nat);
        let bar = bar_body(self.fill_char, self.empty_char, self.filled(ctx), bw);
        if self.show_time {
            seq![' '] + bar + seq![' '] + duration_rep(ctx.position_secs as nat) + seq!['/']
                + self.total_rep(ctx) + seq![' ']
        } else {
            seq![' '] + bar + seq![' ']
        }
    }

    /// The default bar.
    pub fn new() -> (r: Self)
        ensures
            r.fill_char == '/',
            r.empty_char == ' ',
            r.show_time,
    {
        Self::default()
    }

    /// The same bar with other fill characters.
    pub fn with_chars(self, fill: char, empty: char) -> (r: Self)
        ensures
            r.fill_char == fill,
            r.empty_char == empty,
            r.show_time == self.show_time,
    {
        ProgressBar { fill_char: fill, empty_char: empty, ..self }
    }

    /// The same bar with the time display switched.
    pub fn with_time_display(self, show: bool) -> (r: Self)
        ensures
            r.fill_char == self.fill_char,
            r.empty_char == self.empty_char,
            r.show_time == show,
    {
        ProgressBar { show_time: show, ..self }
    }

    /// Format a duration in seconds as `mm:ss`.
    pub fn format_duration(total_secs: u64) -> (r: String)
        ensures
            r@ == duration_rep(total_secs as nat),
    {
        format_duration(total_secs)
    }

    /// Render the progress bar.
    pub fn render(&self, context: &RenderContext) -> (r: String)
        requires
            context.wf(),
        ensures
            r@ == self.rendered(context),
    {
        let bar_width: usize = if self.show_time {
            if context.width >= 16 {
                context.width - 16
            } else {
                0
            }
        } else {
            context.width
        };

        let filled: usize = match &context.track_info {
            Some(t) => match t.duration_secs {
                Some(d) => {
                    if d == 0 {
                        0
                    } else if context.position_secs >= d {
                        bar_width
                    } else {
                        proof {
                            assert((2 * (context.position_secs as int)) * (bar_width as int)
                                <= 2 * 0xFFFF_FFFF_FFFF_FFFF * 0xFFFF_FFFF) by (nonlinear_arith)
                                requires
                                    context.position_secs <= 0xFFFF_FFFF_FFFF_FFFF,
                                    bar_width <= 0xFFFF_FFFF,
                            ;
                        }
                        let q: u128 = (2 * (context.position_secs as u128)
                            * (bar_width as u128) + (d as u128)) / (2 * (d as u128));
                        if q <= bar_width as u128 {
                            q as usize
                        } else {
                            bar_width
                        }
                    }
                },
                None => 0,
            },
            None => 0,
        };
        proof {
            assert(filled == self.filled(context));
            assert(filled <= bar_width);
        }

        let mut bar = String::new();
        push_char(&mut bar, '[');
        let fill_part = repeat_char(self.fill_char, filled);
        bar.append(fill_part.as_str());
        let empty_part = repeat_char(self.empty_char, bar_width - filled);
        bar.append(empty_part.as_str());
        push_char(&mut bar, ']');
        proof {
            assert(bar@ =~= bar_body(
                self.fill_char,
                self.empty_char,
                self.filled(context),
                self.bar_width(context.width as nat),
            ));
        }

        let mut r = String::new();
        push_char(&mut r, ' ');
        r.append(bar.as_str());
        if self.show_time {
            push_char(&mut r, ' ');
            let current = format_duration(context.position_secs);
            r.append(current.as_str());
            push_char(&mut r, '/');
            match &context.track_info {
                Some(t) => match t.duration_secs {
                    Some(d) => {
                        let total = format_duration(d);
                        r.append(total.as_str());
                    },
                    None => {
                        r.append("00:00");
                    },
                },
                None => {
                    r.append("00:00");
                },
            }
            proof {
                assert(r@.subrange(1 + bar@.len() as int, r@.len() as int) =~= seq![' ']
                    + duration_rep(context.position_secs as nat) + seq!['/'] + self.total_rep(
                    context,
                ));
            }
            push_char(&mut r, ' ');
        } else {
            push_char(&mut r, ' ');
        }
        proof {
            assert(r@ =~= self.rendered(context));
        }
        r
    }

    /// The width the bar needs.
    pub fn min_width(&self) -> (n: usize)
        ensures
            n == if self.show_time {
                20int
            } else {
                5int
            },
    {
        if self.show_time {
            20
        } else {
            5
        }
    }
}

/// Volume bar, shown while the volume was recently adjusted.
pub struct VolumeBar {
    /// Character of the set part.
    pub fill_char: char,
    /// Character of the remaining part.
    pub empty_char: char,
    /// Whether the percentage is shown beside the bar.
    pub show_percentage: bool,
}

impl Default for VolumeBar {
    /// Slash-filled bar with the percentage shown.
    fn default() -> (r: Self)
        ensures
            r.fill_char == '/',
            r.empty_char == ' ',
            r.show_percentage,
    {
        VolumeBar { fill_char: '/', empty_char: ' ', show_percentage: true }
    }
}

impl VolumeBar {
    /// The bar's cell count within the given width: the `volume:` caption
    /// costs 10 cells, the percentage 7 more.
    pub open spec fn bar_width(&self, width: nat) -> nat {
        let used: nat = if self.show_percentage {
            17
        } else {
            10
        };
        if width >= used {
            (width - used) as nat
        } else {
            0
        }
    }

    /// How many cells are set: the volume against full scale.
    pub open spec fn filled(&self, ctx: &RenderContext) -> nat {
        filled_cells(ctx.volume as nat, 100, self.bar_width(ctx.width as nat))
    }

    /// How the volume bar renders: caption, bracketed bar, and the
    /// percentage right-aligned to four cells when shown.
    pub open spec fn rendered(&self, ctx: &RenderContext) -> Seq<char> {
        let bw = self.bar_width(ctx.width as nat);
        let bar = " volume: "@ + bar_body(self.fill_char, self.empty_char, self.filled(ctx), bw);
        if self.show_percentage {
            let pct = dec_rep(ctx.volume as nat) + seq!['%'];
            bar + seq![' '] + left_padded(pct, 4, ' ') + seq![' ']
        } else {
            bar + seq![' ']
        }
    }

    /// The default bar.
    pub fn new() -> (r: Self)
        ensures
            r.fill_char == '/',
            r.empty_char == ' ',
            r.show_percentage,
    {
        Self::default()
    }

    /// Render the volume bar.
    pub fn render(&self, context: &RenderContext) -> (r: String)
        requires
            context.wf(),
        ensures
            r@ == self.rendered(context),
    {
        let used: usize = if self.show_percentage {
            17
        } else {
            10
        };
        let bar_width: usize = if context.width >= used {
            context.width - used
        } else {
            0
        };
        let filled: usize = if context.volume >= 100 {
            bar_width
        } else {
            proof {
                assert((2 * (context.volume as int)) * (bar_width as int) <= 200 * 0xFFFF_FFFF)
                    by (nonlinear_arith)
                    requires
                        context.volume <= 100,
                        bar_width <= 0xFFFF_FFFF,
                ;
            }
            let q: u64 = (2 * (context.volume as u64) * (bar_width as u64) + 100) / 200;
            if q <= bar_width as u64 {
                q as usize
            } else {
                bar_width
            }
        };
        proof {
            assert(filled == self.filled(context));
            assert(filled <= bar_width);
        }

        let mut r = String::new();
        r.append(" volume: ");
        push_char(&mut r, '[');
        let fill_part = repeat_char(self.fill_char, filled);
        r.append(fill_part.as_str());
        let empty_part = repeat_char(self.empty_char, bar_width - filled);
        r.append(empty_part.as_str());
        push_char(&mut r, ']');
        if self.show_percentage {
            push_char(&mut r, ' ');
            let mut pct = crate::text::u64_to_dec(context.volume as u64);
            push_char(&mut pct, '%');
            let padded = pad_left(pct.as_str(), 4, ' ');
            r.append(padded.as_str());
            push_char(&mut r, ' ');
        } else {
            push_char(&mut r, ' ');
        }
        proof {
            assert(r@ =~= self.rendered(context));
        }
        r
    }

    /// The width the bar needs.
    pub fn min_width(&self) -> (n: usize)
        ensures
            n == if self.show_percentage {
                20int
            } else {
                12int
            },
    {
        if self.show_percentage {
            20
        } else {
            12
        }
    }
}

/// Status bar showing playback state, track name and bookmark mark.
pub struct StatusBar {
    /// Whether a bookmarked track gets a `*` mark.
    pub show_bookmark_indicator: bool,
}

impl StatusBar {
    /// Status word, track name (when current) and claimed name width for
    /// the given context.
    pub open spec fn status_parts(ctx: &RenderContext) -> (Seq<char>, Option<Seq<char>>, int) {
        match ctx.playback_state {
            PlaybackState::Playing => match ctx.track_info {
                Some(t) => ("playing"@, Some(t.display_name@), t.width as int),
                None => ("playing"@, None, 7),
            },
            PlaybackState::Paused => match ctx.track_info {
                Some(t) => ("paused"@, Some(t.display_name@), t.width as int),
                None => ("paused"@, None, 6),
            },
            PlaybackState::Stopped => ("stopped"@, None, 7),
            PlaybackState::Loading => ("loading"@, None, 7),
        }
    }

    /// The bookmark mark: `*` when shown and the track is bookmarked.
    pub open spec fn bookmark_mark(&self, ctx: &RenderContext) -> Seq<char> {
        if self.show_bookmark_indicator && ctx.is_bookmarked {
            "*"@
        } else {
            ""@
        }
    }

    /// The unpadded line: status word, and — when a track is current — a
    /// space, the mark, and the name in bold.
    pub open spec fn full_text(&self, ctx: &RenderContext) -> Seq<char> {
        let parts = Self::status_parts(ctx);
        match parts.1 {
            Some(name) => parts.0 + seq![' '] + self.bookmark_mark(ctx) + bold_of(name),
            None => parts.0,
        }
    }

    /// The claimed cell width of the line, counting the track's claimed
    /// name width rather than the styled text.
    pub open spec fn text_width(&self, ctx: &RenderContext) -> int {
        let parts = Self::status_parts(ctx);
        parts.0.len() + self.bookmark_mark(ctx).len() + parts.2 + (if parts.1 is Some {
            1int
        } else {
            0int
        })
    }

    /// How the status bar renders: the line padded to the width, or — when
    /// the claimed width overflows — its leading grapheme clusters with an
    /// ellipsis.
    pub open spec fn rendered(&self, ctx: &RenderContext) -> Seq<char> {
        let ft = self.full_text(ctx);
        let tw = self.text_width(ctx);
        if tw > ctx.width {
            let g = graphemes_of(ft);
            let n = ctx.width - 3;
            let k = if n <= g.len() {
                n as int
            } else {
                g.len() as int
            };
            g.take(k).flatten() + "..."@
        } else {
            ft + char_repeat(' ', (ctx.width - tw) as nat)
        }
    }

    /// Whether the widget's arithmetic stays in bounds for this context.
    pub open spec fn fits(&self, ctx: &RenderContext) -> bool {
        &&& ctx.width >= 3
        &&& (ctx.track_info matches Some(t) ==> t.width <= 0xFFFF_FFFF)
    }

    /// A status bar with the bookmark mark shown.
    pub fn new() -> (r: Self)
        ensures
            r.show_bookmark_indicator,
    {
        StatusBar { show_bookmark_indicator: true }
    }

    /// Render the status bar.
    pub fn render(&self, context: &RenderContext) -> (r: String)
        requires
            context.wf(),
            self.fits(context),
        ensures
            r@ == self.rendered(context),
    {
        let parts: (&str, Option<&String>, usize) = match context.playback_state {
            PlaybackState::Playing => match &context.track_info {
                Some(t) => ("playing", Some(&t.display_name), t.width),
                None => ("playing", None, 7),
            },
            PlaybackState::Paused => match &context.track_info {
                Some(t) => ("paused", Some(&t.display_name), t.width),
                None => ("paused", None, 6),
            },
            PlaybackState::Stopped => ("stopped", None, 7),
            PlaybackState::Loading => ("loading", None, 7),
        };
        let status = parts.0;
        let width = parts.2;

        let mark: &str = if self.show_bookmark_indicator && context.is_bookmarked {
            "*"
        } else {
            ""
        };

        let mut full_text = status.to_owned();
        let has_name: bool = match parts.1 {
            Some(name) => {
                push_char(&mut full_text, ' ');
                full_text.append(mark);
                let styled = bold(name.as_str());
                full_text.append(styled.as_str());
                true
            },
            None => false,
        };
        proof {
            assert(full_text@ == self.full_text(context));
        }

        proof {
            reveal_strlit("playing");
            reveal_strlit("paused");
            reveal_strlit("stopped");
            reveal_strlit("loading");
            reveal_strlit("*");
            reveal_strlit("");
            assert(status@.len() <= 7);
            assert(mark@.len() <= 1);
        }
        let status_len = status.unicode_len();
        let mark_len = mark.unicode_len();
        let extra: u64 = if has_name {
            1
        } else {
            0
        };
        let text_width: u64 = status_len as u64 + mark_len as u64 + width as u64 + extra;
        proof {
            assert(text_width == self.text_width(context));
        }

        if text_width > context.width as u64 {
            let mut r = take_graphemes(full_text.as_str(), context.width - 3);
            r.append("...");
            proof {
                assert(r@ =~= self.rendered(context));
            }
            r
        } else {
            let pad = repeat_char(' ', context.width - (text_width as usize));
            let mut r = full_text;
            r.append(pad.as_str());
            proof {
                assert(r@ =~= self.rendered(context));
            }
            r
        }
    }
}

/// One keyboard hint: highlighted key, then the rest of the word.
pub open spec fn control_views(cs: Seq<(String, String)>) -> Seq<Seq<char>> {
    cs.map_values(|p: (String, String)| bold_of(p.0@) + p.1@)
}

/// The cell count of the hints themselves, keys plus words.
pub open spec fn controls_total(cs: Seq<(String, String)>) -> int
    decreases cs.len(),
{
    if cs.len() == 0 {
        0int
    } else {
        cs[0].0@.len() + cs[0].1@.len() + controls_total(cs.drop_first())
    }
}

/// The total is never negative.
pub proof fn lemma_controls_total_nonneg(cs: Seq<(String, String)>)
    ensures
        controls_total(cs) >= 0,
    decreases cs.len(),
{
    if cs.len() > 0 {
        lemma_controls_total_nonneg(cs.drop_first());
    }
}

/// Dropping leading hints never raises the total.
pub proof fn lemma_controls_total_skip(cs: Seq<(String, String)>, i: int)
    requires
        0 <= i <= cs.len(),
    ensures
        0 <= controls_total(cs.skip(i)) <= controls_total(cs),
    decreases i,
{
    if i == 0 {
        assert(cs.skip(0) =~= cs);
        lemma_controls_total_nonneg(cs);
    } else {
        lemma_controls_total_skip(cs.drop_first(), i - 1);
        assert(cs.drop_first().skip(i - 1) =~= cs.skip(i));
    }
}

/// Control-hint bar showing keyboard shortcuts.
pub struct ControlBar {
    /// The hints: highlighted key, rest of the word.
    pub controls: Vec<(String, String)>,
}

impl Default for ControlBar {
    /// Skip, pause and quit hints.
    fn default() -> (r: Self)
        ensures
            control_views(r.controls@) =~= seq![
                bold_of("[s]"@) + "kip"@,
                bold_of("[p]"@) + "ause"@,
                bold_of("[q]"@) + "uit"@,
            ],
            controls_total(r.controls@) == "[s]"@.len() + "kip"@.len() + "[p]"@.len()
                + "ause"@.len() + "[q]"@.len() + "uit"@.len(),
            r.controls@.len() == 3,
    {
        let mut controls: Vec<(String, String)> = Vec::new();
        controls.push(("[s]".to_owned(), "kip".to_owned()));
        controls.push(("[p]".to_owned(), "ause".to_owned()));
        controls.push(("[q]".to_owned(), "uit".to_owned()));
        proof {
            let cs = controls@;
            assert(controls_total(Seq::<(String, String)>::empty()) == 0);
            assert(cs.skip(2).drop_first() =~= Seq::<(String, String)>::empty());
            assert(cs.skip(2)[0] == cs[2]);
            assert(controls_total(cs.skip(2)) == cs[2].0@.len() + cs[2].1@.len());
            assert(cs.skip(1).drop_first() =~= cs.skip(2));
            assert(cs.skip(1)[0] == cs[1]);
            assert(controls_total(cs.skip(1)) == cs[1].0@.len() + cs[1].1@.len()
                + controls_total(cs.skip(2)));
            assert(cs.drop_first() =~= cs.skip(1));
            assert(controls_total(cs) == cs[0].0@.len() + cs[0].1@.len() + controls_total(
                cs.skip(1),
            ));
        }
        ControlBar { controls }
    }
}

impl ControlBar {
    /// The spacing between hints: the spare width split evenly between the
    /// gaps.
    pub open spec fn spacing(&self, width: int) -> int {
        if self.controls@.len() > 1 {
            (width - controls_total(self.controls@)) / (self.controls@.len() - 1)
        } else {
            0int
        }
    }

    /// How the control bar renders: the hints joined with even spacing,
    /// and one more space on even widths.
    pub open spec fn rendered(&self, ctx: &RenderContext) -> Seq<char> {
        let joined = join_seqs(
            control_views(self.controls@),
            char_repeat(' ', self.spacing(ctx.width as int) as nat),
        );
        if ctx.width % 2 == 0 {
            joined + seq![' ']
        } else {
            joined
        }
    }

    /// Whether the hints fit the context's width.
    pub open spec fn fits(&self, ctx: &RenderContext) -> bool {
        &&& controls_total(self.controls@) <= 0xFFFF_FFFF
        &&& (self.controls@.len() > 1 ==> controls_total(self.controls@) <= ctx.width)
    }

    /// The default bar.
    pub fn new() -> (r: Self)
        ensures
            control_views(r.controls@) =~= seq![
                bold_of("[s]"@) + "kip"@,
                bold_of("[p]"@) + "ause"@,
                bold_of("[q]"@) + "uit"@,
            ],
            controls_total(r.controls@) == "[s]"@.len() + "kip"@.len() + "[p]"@.len()
                + "ause"@.len() + "[q]"@.len() + "uit"@.len(),
            r.controls@.len() == 3,
    {
        Self::default()
    }

    /// The same bar with other hints.
    pub fn with_controls(self, controls: Vec<(String, String)>) -> (r: Self)
        ensures
            r.controls == controls,
    {
        ControlBar { controls }
    }

    /// Render the control bar.
    pub fn render(&self, context: &RenderContext) -> (r: String)
        requires
            context.wf(),
            self.fits(context),
        ensures
            r@ == self.rendered(context),
    {
        // Total width of the hints, summed back to front so each partial
        // sum is a suffix total, bounded by the whole.
        let mut total: u64 = 0;
        let mut i: usize = self.controls.len();
        proof {
            assert(self.controls@.skip(i as int) =~= Seq::<(String, String)>::empty());
        }
        while i > 0
            invariant
                i <= self.controls@.len(),
                total == controls_total(self.controls@.skip(i as int)),
                controls_total(self.controls@) <= 0xFFFF_FFFF,
            decreases i,
        {
            proof {
                lemma_controls_total_skip(self.controls@, i - 1);
                assert(self.controls@.skip(i - 1).drop_first() =~= self.controls@.skip(i as int));
                assert(controls_total(self.controls@.skip(i - 1)) == self.controls@[i - 1].0@.len()
                    + self.controls@[i - 1].1@.len() + total);
            }
            let k_len = self.controls[i - 1].0.as_str().unicode_len();
            let v_len = self.controls[i - 1].1.as_str().unicode_len();
            total = k_len as u64 + v_len as u64 + total;
            i = i - 1;
        }
        proof {
            assert(self.controls@.skip(0) =~= self.controls@);
        }

        let spacing: usize = if self.controls.len() > 1 {
            (context.width - total as usize) / (self.controls.len() - 1)
        } else {
            0
        };
        proof {
            assert(spacing == self.spacing(context.width as int));
        }

        let mut parts: Vec<String> = Vec::new();
        let mut j: usize = 0;
        while j < self.controls.len()
            invariant
                j <= self.controls@.len(),
                parts@.len() == j,
                forall|t: int|
                    0 <= t < j ==> #[trigger] parts@[t]@ == bold_of(self.controls@[t].0@)
                        + self.controls@[t].1@,
            decreases self.controls@.len() - j,
        {
            let mut part = bold(self.controls[j].0.as_str());
            part.append(self.controls[j].1.as_str());
            parts.push(part);
            j = j + 1;
        }
        proof {
            assert(string_views(parts@) =~= control_views(self.controls@));
        }

        let sep = repeat_char(' ', spacing);
        let mut r = join_strings(&parts, sep.as_str());
        if context.width % 2 == 0 {
            push_char(&mut r, ' ');
        }
        proof {
            assert(r@ =~= self.rendered(context));
        }
        r
    }
}

} // verus!
