//! Widget composition: the closed set of widgets, horizontal and vertical
//! stacks, the state-switching component, and a factory for the stock
//! layouts. The widget set is small and fixed, so composition is a closed
//! set of tagged variants rather than open-ended dispatch.

use vstd::prelude::*;

use crate::context::{ComponentEvent, EventResult, RenderContext};
use crate::extras::{
    lyrics_event_post, spectrum_event_post, ConnectionStatus, EqualizerPreset, LyricsDisplay,
    NetworkStatus, PlaylistView, SpectrumAnalyzer,
};
use crate::text::{join_seqs, join_strings, string_views};
use crate::widgets::{ControlBar, Label, ProgressBar, StatusBar, VolumeBar};

verus! {

/// The closed set of leaf widgets.
pub enum Widget {
    Label(Label),
    Progress(ProgressBar),
    Volume(VolumeBar),
    Status(StatusBar),
    Control(ControlBar),
    Playlist(PlaylistView),
    Lyrics(LyricsDisplay),
    Network(NetworkStatus),
    Equalizer(EqualizerPreset),
    Spectrum(SpectrumAnalyzer),
}

/// What handling one event does to a widget: lyrics and spectrum widgets
/// react, every other widget ignores it untouched.
pub open spec fn widget_event_post(
    w0: Widget,
    w1: Widget,
    event: ComponentEvent,
    r: EventResult,
) -> bool {
    match w0 {
        Widget::Lyrics(l0) => w1 matches Widget::Lyrics(l1) && lyrics_event_post(l0, l1, event, r),
        Widget::Spectrum(s0) => w1 matches Widget::Spectrum(s1) && spectrum_event_post(
            s0,
            s1,
            event,
            r,
        ),
        _ => w1 == w0 && r == EventResult::Ignored,
    }
}

impl Widget {
    /// Whether the widget's arithmetic stays in bounds for this context.
    pub open spec fn fits(&self, ctx: &RenderContext) -> bool {
        match self {
            Widget::Status(w) => w.fits(ctx),
            Widget::Control(w) => w.fits(ctx),
            Widget::Playlist(w) => w.fits(ctx),
            Widget::Equalizer(w) => w.wf(),
            Widget::Spectrum(w) => w.fits(),
            _ => true,
        }
    }

    /// How the widget renders in this context.
    pub open spec fn rendered(&self, ctx: &RenderContext) -> Seq<char> {
        match self {
            Widget::Label(w) => w.rendered(),
            Widget::Progress(w) => w.rendered(ctx),
            Widget::Volume(w) => w.rendered(ctx),
            Widget::Status(w) => w.rendered(ctx),
            Widget::Control(w) => w.rendered(ctx),
            Widget::Playlist(w) => w.rendered(ctx),
            Widget::Lyrics(w) => w.rendered(ctx),
            Widget::Network(w) => w.rendered(),
            Widget::Equalizer(w) => w.rendered(),
            Widget::Spectrum(w) => w.rendered(ctx),
        }
    }

    /// Render the widget.
    pub fn render(&self, context: &RenderContext) -> (r: String)
        requires
            context.wf(),
            self.fits(context),
        ensures
            r@ == self.rendered(context),
    {
        match self {
            Widget::Label(w) => w.render(context),
            Widget::Progress(w) => w.render(context),
            Widget::Volume(w) => w.render(context),
            Widget::Status(w) => w.render(context),
            Widget::Control(w) => w.render(context),
            Widget::Playlist(w) => w.render(context),
            Widget::Lyrics(w) => w.render(context),
            Widget::Network(w) => w.render(context),
            Widget::Equalizer(w) => w.render(context),
            Widget::Spectrum(w) => w.render(context),
        }
    }

    /// The rows the widget fills.
    pub open spec fn spec_height(&self) -> int {
        match self {
            Widget::Playlist(w) => if w.max_visible <= w.tracks@.len() {
                w.max_visible as int
            } else {
                w.tracks@.len() as int
            },
            _ => 1,
        }
    }

    /// The rows the widget fills; one for everything but the playlist.
    pub fn height(&self) -> (n: usize)
        ensures
            n == self.spec_height(),
    {
        match self {
            Widget::Playlist(w) => w.height(),
            _ => 1,
        }
    }

    /// Hand an event to the widget.
    pub fn handle_event(&mut self, event: ComponentEvent) -> (r: EventResult)
        ensures
            widget_event_post(*old(self), *final(self), event, r),
    {
        match self {
            Widget::Lyrics(w) => w.handle_event(event),
            Widget::Spectrum(w) => w.handle_event(event),
            _ => EventResult::Ignored,
        }
    }
}

/// A horizontal stack: its children divide the width evenly and render
/// side by side.
pub struct HStack {
    /// The children, left to right.
    pub children: Vec<Widget>,
}

impl HStack {
    /// Each child's share of the width.
    pub open spec fn child_width(&self, width: nat) -> nat
        recommends
            self.children@.len() > 0,
    {
        width / self.children@.len()
    }

    /// Whether every child fits its share of the width.
    pub open spec fn fits(&self, ctx: &RenderContext) -> bool {
        forall|i: int|
            0 <= i < self.children@.len() ==> #[trigger] self.children@[i].fits(
                &ctx.spec_with_width(self.child_width(ctx.width as nat) as usize),
            )
    }

    /// How the stack renders: the children's renderings at their share of
    /// the width, joined with single spaces; nothing when empty.
    pub open spec fn rendered(&self, ctx: &RenderContext) -> Seq<char> {
        if self.children@.len() == 0 {
            Seq::empty()
        } else {
            let narrow = ctx.spec_with_width(self.child_width(ctx.width as nat) as usize);
            join_seqs(
                Seq::new(self.children@.len(), |i: int| self.children@[i].rendered(&narrow)),
                seq![' '],
            )
        }
    }

    /// An empty stack.
    pub fn new() -> (r: HStack)
        ensures
            r.children@.len() == 0,
    {
        HStack { children: Vec::new() }
    }

    /// Append a child.
    pub fn add_child(&mut self, component: Widget)
        ensures
            final(self).children@ == old(self).children@.push(component),
    {
        self.children.push(component);
    }

    /// Remove and return the child at the index, when there is one.
    pub fn remove_child(&mut self, index: usize) -> (r: Option<Widget>)
        ensures
            index < old(self).children@.len() ==> r == Some(old(self).children@[index as int])
                && final(self).children@ == old(self).children@.remove(index as int),
            index >= old(self).children@.len() ==> r is None && *final(self) == *old(self),
    {
        if index < self.children.len() {
            Some(self.children.remove(index))
        } else {
            None
        }
    }

    /// The number of children.
    pub fn child_count(&self) -> (n: usize)
        ensures
            n == self.children@.len(),
    {
        self.children.len()
    }

    /// Render the stack.
    pub fn render(&self, context: &RenderContext) -> (r: String)
        requires
            context.wf(),
            self.fits(context),
        ensures
            r@ == self.rendered(context),
    {
        if self.children.len() == 0 {
            return String::new();
        }
        let width_per_child = context.width / self.children.len();
        let child_context = context.with_width(width_per_child);
        let ghost narrow = context.spec_with_width(
            self.child_width(context.width as nat) as usize,
        );
        proof {
            assert(child_context == narrow);
        }
        let mut parts: Vec<String> = Vec::new();
        let mut i: usize = 0;
        while i < self.children.len()
            invariant
                i <= self.children@.len(),
                0 < self.children@.len(),
                parts@.len() == i,
                context.wf(),
                self.fits(context),
                child_context == context.spec_with_width(
                    self.child_width(context.width as nat) as usize,
                ),
                child_context.wf(),
                forall|t: int|
                    0 <= t < i ==> #[trigger] parts@[t]@ == self.children@[t].rendered(
                        &child_context,
                    ),
            decreases self.children@.len() - i,
        {
            let part = self.children[i].render(&child_context);
            parts.push(part);
            i = i + 1;
        }
        let r = join_strings(&parts, " ");
        proof {
            reveal_strlit(" ");
            assert(" "@ =~= seq![' ']);
            assert(string_views(parts@) =~= Seq::new(
                self.children@.len(),
                |t: int| self.children@[t].rendered(&child_context),
            ));
        }
        r
    }
}

/// A component that switches between alternative widgets.
pub struct DynamicComponent {
    /// Index of the widget currently shown.
    pub current_state: usize,
    /// The alternatives.
    pub components: Vec<Widget>,
}

impl DynamicComponent {
    /// Whether the shown alternative (if any) fits the context; switching
    /// is free, so all alternatives must.
    pub open spec fn fits(&self, ctx: &RenderContext) -> bool {
        forall|i: int|
            0 <= i < self.components@.len() ==> #[trigger] self.components@[i].fits(ctx)
    }

    /// How the component renders: as its shown alternative, or as nothing
    /// while it has none.
    pub open spec fn rendered(&self, ctx: &RenderContext) -> Seq<char> {
        if self.current_state < self.components@.len() {
            self.components@[self.current_state as int].rendered(ctx)
        } else {
            Seq::empty()
        }
    }

    /// An empty component.
    pub fn new() -> (r: DynamicComponent)
        ensures
            r.current_state == 0,
            r.components@.len() == 0,
    {
        DynamicComponent { current_state: 0, components: Vec::new() }
    }

    /// Add an alternative, returning its state index.
    pub fn add_state(&mut self, component: Widget) -> (idx: usize)
        ensures
            final(self).components@ == old(self).components@.push(component),
            final(self).current_state == old(self).current_state,
            idx == old(self).components@.len(),
    {
        self.components.push(component);
        self.components.len() - 1
    }

    /// Show the alternative at the index; out-of-range indices are
    /// ignored.
    pub fn set_state(&mut self, state: usize)
        ensures
            final(self).components == old(self).components,
            final(self).current_state == if state < old(self).components@.len() {
                state as int
            } else {
                old(self).current_state as int
            },
    {
        if state < self.components.len() {
            self.current_state = state;
        }
    }

    /// The index of the alternative currently shown.
    pub fn current_state(&self) -> (n: usize)
        ensures
            n == self.current_state,
    {
        self.current_state
    }

    /// Render the shown alternative.
    pub fn render(&self, context: &RenderContext) -> (r: String)
        requires
            context.wf(),
            self.fits(context),
        ensures
            r@ == self.rendered(context),
    {
        if self.current_state < self.components.len() {
            self.components[self.current_state].render(context)
        } else {
            String::new()
        }
    }

    /// Hand an event to the shown alternative.
    pub fn handle_event(&mut self, event: ComponentEvent) -> (r: EventResult)
        ensures
            final(self).current_state == old(self).current_state,
            final(self).components@.len() == old(self).components@.len(),
            old(self).current_state < old(self).components@.len() ==> {
                &&& widget_event_post(
                    old(self).components@[old(self).current_state as int],
                    final(self).components@[old(self).current_state as int],
                    event,
                    r,
                )
                &&& forall|i: int|
                    0 <= i < old(self).components@.len() && i != old(self).current_state
                        ==> final(self).components@[i] == #[trigger] old(self).components@[i]
            },
            old(self).current_state >= old(self).components@.len() ==> *final(self) == *old(self)
                && r == EventResult::Ignored,
    {
        if self.current_state < self.components.len() {
            let idx = self.current_state;
            let w = &mut self.components[idx];
            w.handle_event(event)
        } else {
            EventResult::Ignored
        }
    }

    /// Whether anything is shown: the component is visible exactly when an
    /// alternative is.
    pub fn is_visible(&self) -> (b: bool)
        ensures
            b == (self.current_state < self.components@.len()),
    {
        self.current_state < self.components.len()
    }
}

/// One entry of a vertical stack: a leaf widget, a horizontal stack, or a
/// state-switching component.
pub enum Component {
    Widget(Widget),
    Stack(HStack),
    Dynamic(DynamicComponent),
}

impl Component {
    /// Whether the entry's arithmetic stays in bounds for this context.
    pub open spec fn fits(&self, ctx: &RenderContext) -> bool {
        match self {
            Component::Widget(w) => w.fits(ctx),
            Component::Stack(s) => s.fits(ctx),
            Component::Dynamic(d) => d.fits(ctx),
        }
    }

    /// How the entry renders in this context.
    pub open spec fn rendered(&self, ctx: &RenderContext) -> Seq<char> {
        match self {
            Component::Widget(w) => w.rendered(ctx),
            Component::Stack(s) => s.rendered(ctx),
            Component::Dynamic(d) => d.rendered(ctx),
        }
    }

    /// Whether the entry shows at all: only a dynamic component without a
    /// shown alternative hides.
    pub open spec fn visible(&self) -> bool {
        match self {
            Component::Dynamic(d) => d.current_state < d.components@.len(),
            _ => true,
        }
    }

    /// Render the entry.
    pub fn render(&self, context: &RenderContext) -> (r: String)
        requires
            context.wf(),
            self.fits(context),
        ensures
            r@ == self.rendered(context),
    {
        match self {
            Component::Widget(w) => w.render(context),
            Component::Stack(s) => s.render(context),
            Component::Dynamic(d) => d.render(context),
        }
    }

    /// Whether the entry shows at all.
    pub fn is_visible(&self) -> (b: bool)
        ensures
            b == self.visible(),
    {
        match self {
            Component::Dynamic(d) => d.is_visible(),
            _ => true,
        }
    }

    /// The rows the entry fills.
    pub open spec fn spec_height(&self) -> int {
        match self {
            Component::Widget(w) => w.spec_height(),
            _ => 1,
        }
    }

    /// The rows the entry fills.
    pub fn height(&self) -> (n: usize)
        ensures
            n == self.spec_height(),
    {
        match self {
            Component::Widget(w) => w.height(),
            _ => 1,
        }
    }
}

/// `n` blank lines.
pub open spec fn blank_lines(n: nat) -> Seq<Seq<char>> {
    Seq::new(n, |i: int| Seq::<char>::empty())
}

/// The lines the stack entries from index `i` on contribute: each visible
/// entry's rendering followed by `spacing` blank lines.
pub open spec fn stack_lines(
    children: Seq<Component>,
    ctx: &RenderContext,
    spacing: nat,
    i: int,
) -> Seq<Seq<char>>
    decreases children.len() - i,
{
    if i < 0 || i >= children.len() {
        Seq::empty()
    } else {
        (if children[i].visible() {
            seq![children[i].rendered(ctx)] + blank_lines(spacing)
        } else {
            Seq::empty()
        }) + stack_lines(children, ctx, spacing, i + 1)
    }
}

/// A sequence without its last `n` entries (all of it when shorter).
pub open spec fn drop_last_n<A>(s: Seq<A>, n: nat) -> Seq<A> {
    if s.len() >= n {
        s.take((s.len() - n) as int)
    } else {
        s.take(0)
    }
}

/// The rows the stack entries from index `i` on fill, spacing included.
pub open spec fn stack_heights(children: Seq<Component>, i: int) -> int
    decreases children.len() - i,
{
    if i < 0 || i >= children.len() {
        0int
    } else {
        (if children[i].visible() {
            children[i].spec_height()
        } else {
            0int
        }) + stack_heights(children, i + 1)
    }
}

/// Entry heights are never negative.
pub proof fn lemma_stack_heights_nonneg(children: Seq<Component>, i: int)
    ensures
        stack_heights(children, i) >= 0,
    decreases children.len() - i,
{
    if 0 <= i < children.len() {
        lemma_stack_heights_nonneg(children, i + 1);
    }
}

/// A vertical stack: the root layout, children rendered one per line with
/// optional blank spacing lines between them.
pub struct VStack {
    /// The children, top to bottom.
    pub children: Vec<Component>,
    /// Blank lines after each child.
    pub spacing: usize,
}

impl VStack {
    /// Whether every child fits the context.
    pub open spec fn fits(&self, ctx: &RenderContext) -> bool {
        forall|i: int|
            0 <= i < self.children@.len() ==> #[trigger] self.children@[i].fits(ctx)
    }

    /// How the stack renders: the visible children's lines with the
    /// spacing between them (trailing spacing trimmed), joined on
    /// newlines.
    pub open spec fn rendered(&self, ctx: &RenderContext) -> Seq<char> {
        let all = stack_lines(self.children@, ctx, self.spacing as nat, 0);
        join_seqs(drop_last_n(all, self.spacing as nat), seq!['\n'])
    }

    /// The rows the stack fills: the visible children's rows plus the
    /// spacing between children.
    pub open spec fn spec_height(&self) -> int {
        stack_heights(self.children@, 0) + self.spacing * (
        if self.children@.len() >= 1 {
            self.children@.len() - 1
        } else {
            0int
        })
    }

    /// An empty stack without spacing.
    pub fn new() -> (r: VStack)
        ensures
            r.children@.len() == 0,
            r.spacing == 0,
    {
        VStack { children: Vec::new(), spacing: 0 }
    }

    /// The same stack with the given spacing.
    pub fn with_spacing(self, spacing: usize) -> (r: VStack)
        ensures
            r.children == self.children,
            r.spacing == spacing,
    {
        VStack { spacing, ..self }
    }

    /// Append a child.
    pub fn add_child(&mut self, component: Component)
        ensures
            final(self).children@ == old(self).children@.push(component),
            final(self).spacing == old(self).spacing,
    {
        self.children.push(component);
    }

    /// Remove and return the child at the index, when there is one.
    pub fn remove_child(&mut self, index: usize) -> (r: Option<Component>)
        ensures
            index < old(self).children@.len() ==> r == Some(old(self).children@[index as int])
                && final(self).children@ == old(self).children@.remove(index as int)
                && final(self).spacing == old(self).spacing,
            index >= old(self).children@.len() ==> r is None && *final(self) == *old(self),
    {
        if index < self.children.len() {
            Some(self.children.remove(index))
        } else {
            None
        }
    }

    /// The number of children.
    pub fn child_count(&self) -> (n: usize)
        ensures
            n == self.children@.len(),
    {
        self.children.len()
    }

    /// Render the stack.
    pub fn render(&self, context: &RenderContext) -> (r: String)
        requires
            context.wf(),
            self.fits(context),
        ensures
            r@ == self.rendered(context),
    {
        let ghost all = stack_lines(self.children@, context, self.spacing as nat, 0);
        let mut lines: Vec<String> = Vec::new();
        let mut i: usize = 0;
        while i < self.children.len()
            invariant
                i <= self.children@.len(),
                context.wf(),
                self.fits(context),
                all == stack_lines(self.children@, context, self.spacing as nat, 0),
                string_views(lines@) + stack_lines(
                    self.children@,
                    context,
                    self.spacing as nat,
                    i as int,
                ) =~= all,
            decreases self.children@.len() - i,
        {
            let child = &self.children[i];
            if child.is_visible() {
                let ghost before = string_views(lines@);
                let rendered_child = child.render(context);
                lines.push(rendered_child);
                let mut k: usize = 0;
                while k < self.spacing
                    invariant
                        k <= self.spacing,
                        string_views(lines@) =~= before + seq![
                            self.children@[i as int].rendered(context),
                        ] + blank_lines(k as nat),
                    decreases self.spacing - k,
                {
                    let ghost lv = lines@;
                    lines.push(String::new());
                    proof {
                        assert(string_views(lines@) =~= string_views(lv).push(
                            Seq::<char>::empty(),
                        ));
                        assert(string_views(lines@) =~= before + seq![
                            self.children@[i as int].rendered(context),
                        ] + blank_lines((k + 1) as nat));
                    }
                    k = k + 1;
                }
                proof {
                    assert(string_views(lines@) + stack_lines(
                        self.children@,
                        context,
                        self.spacing as nat,
                        i + 1,
                    ) =~= all);
                }
            } else {
                proof {
                    assert(string_views(lines@) + stack_lines(
                        self.children@,
                        context,
                        self.spacing as nat,
                        i + 1,
                    ) =~= all);
                }
            }
            i = i + 1;
        }
        proof {
            assert(string_views(lines@) =~= all);
        }

        // Trim the trailing spacing lines.
        let mut k: usize = 0;
        while k < self.spacing
            invariant
                k <= self.spacing,
                string_views(lines@) =~= drop_last_n(all, k as nat),
            decreases self.spacing - k,
        {
            let ghost lv = lines@;
            lines.pop();
            proof {
                assert(lv.len() == drop_last_n(all, k as nat).len());
                if lv.len() > 0 {
                    assert(lines@ =~= lv.subrange(0, lv.len() - 1));
                    assert(string_views(lines@) =~= string_views(lv).take(lv.len() - 1));
                    assert(all.len() >= k + 1);
                    assert(drop_last_n(all, (k + 1) as nat) =~= drop_last_n(
                        all,
                        k as nat,
                    ).take(lv.len() - 1));
                } else {
                    assert(lines@ =~= lv);
                    assert(all.len() <= k);
                    assert(drop_last_n(all, (k + 1) as nat) =~= drop_last_n(all, k as nat));
                }
                assert(string_views(lines@) =~= drop_last_n(all, (k + 1) as nat));
            }
            k = k + 1;
        }

        let r = join_strings(&lines, "\n");
        proof {
            reveal_strlit("\n");
            assert("\n"@ =~= seq!['\n']);
            assert(string_views(lines@) == drop_last_n(all, self.spacing as nat));
        }
        r
    }

    /// The rows the stack fills.
    pub fn height(&self) -> (n: usize)
        requires
            self.spec_height() <= usize::MAX,
        ensures
            n == self.spec_height(),
    {
        let ghost whole = stack_heights(self.children@, 0);
        let mut sum: usize = 0;
        let mut i: usize = 0;
        while i < self.children.len()
            invariant
                i <= self.children@.len(),
                whole == stack_heights(self.children@, 0),
                sum + stack_heights(self.children@, i as int) == whole,
                self.spec_height() <= usize::MAX,
            decreases self.children@.len() - i,
        {
            proof {
                lemma_stack_heights_nonneg(self.children@, i + 1);
            }
            let child = &self.children[i];
            if child.is_visible() {
                sum = sum + child.height();
            }
            i = i + 1;
        }
        proof {
            lemma_stack_heights_nonneg(self.children@, 0);
        }
        if self.children.len() >= 1 {
            sum + self.spacing * (self.children.len() - 1)
        } else {
            sum
        }
    }
}

/// Factory for the stock layouts and components.
pub struct ComponentFactory;

impl ComponentFactory {
    /// The default layout: status bar, a dynamic middle slot, and — unless
    /// minimalist — the control hints.
    pub fn create_default_layout(minimalist: bool) -> (r: VStack)
        ensures
            r.spacing == 0,
            r.children@.len() == (if minimalist {
                2int
            } else {
                3int
            }),
            forall|ctx: RenderContext|
                ctx.wf() && ctx.width >= 19 && ctx.track_width_bounded() ==> #[trigger] r.fits(
                    &ctx,
                ),
    {
        let mut stack = VStack::new();
        stack.add_child(Component::Widget(Widget::Status(StatusBar::new())));
        let dynamic = DynamicComponent::new();
        stack.add_child(Component::Dynamic(dynamic));
        if !minimalist {
            let bar = ControlBar::new();
            proof {
                reveal_strlit("[s]");
                reveal_strlit("kip");
                reveal_strlit("[p]");
                reveal_strlit("ause");
                reveal_strlit("[q]");
                reveal_strlit("uit");
                assert(crate::widgets::controls_total(bar.controls@) == 19);
            }
            stack.add_child(Component::Widget(Widget::Control(bar)));
        }
        stack
    }

    /// A plain label.
    pub fn label(text: String) -> (r: Component)
        ensures
            r matches Component::Widget(w) && w matches Widget::Label(l) && l.text == text,
    {
        Component::Widget(Widget::Label(Label::new(text)))
    }

    /// A default progress bar.
    pub fn progress_bar() -> (r: Component)
        ensures
            r matches Component::Widget(w) && w is Progress,
    {
        Component::Widget(Widget::Progress(ProgressBar::new()))
    }

    /// A default volume bar.
    pub fn volume_bar() -> (r: Component)
        ensures
            r matches Component::Widget(w) && w is Volume,
    {
        Component::Widget(Widget::Volume(VolumeBar::new()))
    }

    /// A default status bar.
    pub fn status_bar() -> (r: Component)
        ensures
            r matches Component::Widget(w) && w is Status,
    {
        Component::Widget(Widget::Status(StatusBar::new()))
    }

    /// A control bar with the given hints.
    pub fn control_bar(controls: Vec<(String, String)>) -> (r: Component)
        ensures
            r matches Component::Widget(w) && w matches Widget::Control(b) && b.controls
                == controls,
    {
        Component::Widget(Widget::Control(ControlBar::new().with_controls(controls)))
    }
}

/// A showcase layout with every widget: status and network on top, then
/// spectrum, progress, lyrics, playlist, and controls with the equalizer
/// at the bottom.
pub fn create_advanced_layout() -> (r: VStack)
    ensures
        r.spacing == 1,
        r.children@.len() == 6,
        forall|ctx: RenderContext|
            ctx.wf() && ctx.width >= 38 && ctx.track_width_bounded() ==> #[trigger] r.fits(&ctx),
{
    let mut main_layout = VStack::new().with_spacing(1);

    let mut top_bar = HStack::new();
    top_bar.add_child(Widget::Status(StatusBar::new()));
    top_bar.add_child(Widget::Network(NetworkStatus::new()));
    let c0 = Component::Stack(top_bar);
    let ghost g0 = c0;
    main_layout.add_child(c0);

    let c1 = Component::Widget(Widget::Spectrum(SpectrumAnalyzer::new(20)));
    let ghost g1 = c1;
    main_layout.add_child(c1);

    let c2 = Component::Widget(Widget::Progress(ProgressBar::new()));
    let ghost g2 = c2;
    main_layout.add_child(c2);

    let c3 = Component::Widget(Widget::Lyrics(LyricsDisplay::new()));
    let ghost g3 = c3;
    main_layout.add_child(c3);

    let c4 = Component::Widget(Widget::Playlist(PlaylistView::new(3)));
    let ghost g4 = c4;
    main_layout.add_child(c4);

    let mut bottom_bar = HStack::new();
    let control = ControlBar::new();
    proof {
        reveal_strlit("[s]");
        reveal_strlit("kip");
        reveal_strlit("[p]");
        reveal_strlit("ause");
        reveal_strlit("[q]");
        reveal_strlit("uit");
        assert(crate::widgets::controls_total(control.controls@) == 19);
    }
    bottom_bar.add_child(Widget::Control(control));
    bottom_bar.add_child(Widget::Equalizer(EqualizerPreset::new()));
    let c5 = Component::Stack(bottom_bar);
    let ghost g5 = c5;
    main_layout.add_child(c5);

    proof {
        let cs = main_layout.children@;
        assert(cs =~= seq![g0, g1, g2, g3, g4, g5]);
        assert forall|ctx: RenderContext|
            ctx.wf() && ctx.width >= 38 && ctx.track_width_bounded() implies #[trigger]
        main_layout.fits(&ctx) by {
            let half = ctx.width as nat / 2;
            let narrow = ctx.spec_with_width(half as usize);
            assert(g0 matches Component::Stack(top) && {
                &&& top.children@.len() == 2
                &&& top.child_width(ctx.width as nat) == half
                &&& forall|j: int| 0 <= j < 2 ==> #[trigger] top.children@[j].fits(&narrow)
            });
            assert(g5 matches Component::Stack(bot) && {
                &&& bot.children@.len() == 2
                &&& bot.child_width(ctx.width as nat) == half
                &&& forall|j: int| 0 <= j < 2 ==> #[trigger] bot.children@[j].fits(&narrow)
            });
            assert forall|i: int| 0 <= i < cs.len() implies #[trigger] cs[i].fits(&ctx) by {
                assert(cs[0].fits(&ctx));
                assert(cs[1].fits(&ctx));
                assert(cs[2].fits(&ctx));
                assert(cs[3].fits(&ctx));
                assert(cs[4].fits(&ctx));
                assert(cs[5].fits(&ctx));
            }
        }
    }
    main_layout
}

} // verus!
