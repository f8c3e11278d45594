//! The terminal window: frames the widget tree's lines with borders and
//! padding into one string, ready to print. Writing it to the terminal is
//! the runtime shell's business.

use vstd::prelude::*;

use crate::context::{PlaybackState, RenderContext};
use crate::layout::{ComponentFactory, VStack};
use crate::text::{char_repeat, count_graphemes, graphemes_of, lines_of, lines_spec, push_char,
    repeat_char, string_views};

verus! {

/// The padding cells a framed line needs after its content: the window
/// width less the line's grapheme clusters.
pub open spec fn filler_len(width: nat, line: Seq<char>) -> nat {
    let g = graphemes_of(line).len();
    if width >= g {
        (width - g) as nat
    } else {
        0
    }
}

/// One framed line: the border (or blank) padding, a space, the content,
/// filler to the window width when asked, a space, the padding again, and
/// a terminal line break.
pub open spec fn frame_line(line: Seq<char>, width: nat, borderless: bool, space: bool) -> Seq<
    char,
> {
    let pad: Seq<char> = if borderless {
        " "@
    } else {
        "\u{2502}"@
    };
    let filler: Seq<char> = if space {
        char_repeat(' ', filler_len(width, line))
    } else {
        Seq::empty()
    };
    pad + seq![' '] + line + filler + seq![' '] + pad + seq!['\r', '\n']
}

/// The framed lines from index `i` on, concatenated.
pub open spec fn menu_from(
    lines: Seq<Seq<char>>,
    width: nat,
    borderless: bool,
    space: bool,
    i: int,
) -> Seq<char>
    decreases lines.len() - i,
{
    if i < 0 || i >= lines.len() {
        Seq::empty()
    } else {
        frame_line(lines[i], width, borderless, space) + menu_from(
            lines,
            width,
            borderless,
            space,
            i + 1,
        )
    }
}

/// The top or bottom border of a window: the corner pieces around a rule
/// two cells wider than the content, or nothing when borderless.
pub open spec fn border_rep(width: nat, borderless: bool, top: bool) -> Seq<char> {
    if borderless {
        Seq::empty()
    } else {
        let corners: (char, char) = if top {
            ('\u{250c}', '\u{2510}')
        } else {
            ('\u{2514}', '\u{2518}')
        };
        seq![corners.0] + char_repeat('\u{2500}', width + 2) + seq![corners.1]
    }
}

/// The window around the widget tree.
pub struct ComponentWindow {
    /// The widget tree rendered inside the frame.
    pub root: VStack,
    /// Whether borders are drawn.
    pub borderless: bool,
    /// Pre-rendered top border.
    pub border_top: String,
    /// Pre-rendered bottom border.
    pub border_bottom: String,
    /// Window content width, in cells.
    pub width: usize,
    /// The context the tree renders from.
    pub context: RenderContext,
}

impl ComponentWindow {
    /// The window's invariant: the pre-rendered borders match its width,
    /// the context is usable, and every widget fits it.
    pub open spec fn wf(&self) -> bool {
        &&& self.border_top@ == border_rep(self.width as nat, self.borderless, true)
        &&& self.border_bottom@ == border_rep(self.width as nat, self.borderless, false)
        &&& self.context.wf()
    }

    /// The whole frame around the given content lines.
    pub open spec fn framed(&self, lines: Seq<Seq<char>>, space: bool) -> Seq<char> {
        self.border_top@ + seq!['\r', '\n'] + menu_from(
            lines,
            self.width as nat,
            self.borderless,
            space,
            0,
        ) + self.border_bottom@
    }

    /// How the window renders: the widget tree's lines, framed.
    pub open spec fn spec_rendered(&self) -> Seq<char> {
        self.framed(lines_spec(self.root.rendered(&self.context)), true)
    }

    /// A window of the given width, holding the default layout and a
    /// loading context at full volume.
    pub fn new(width: usize, borderless: bool) -> (w: ComponentWindow)
        requires
            width <= 0xFFFF_FFF0,
        ensures
            w.wf(),
            w.width == width,
            w.borderless == borderless,
            w.context == (RenderContext {
                width,
                playback_state: PlaybackState::Loading,
                track_info: None,
                volume: 100,
                position_secs: 0,
                is_bookmarked: false,
                borderless,
            }),
            w.root.children@.len() == 3,
    {
        let (border_top, border_bottom) = if borderless {
            (String::new(), String::new())
        } else {
            let middle = repeat_char('\u{2500}', width + 2);
            let mut top = String::new();
            push_char(&mut top, '\u{250c}');
            top.append(middle.as_str());
            push_char(&mut top, '\u{2510}');
            let mut bottom = String::new();
            push_char(&mut bottom, '\u{2514}');
            bottom.append(middle.as_str());
            push_char(&mut bottom, '\u{2518}');
            proof {
                assert(top@ =~= border_rep(width as nat, borderless, true));
                assert(bottom@ =~= border_rep(width as nat, borderless, false));
            }
            (top, bottom)
        };
        let context = RenderContext {
            width,
            playback_state: PlaybackState::Loading,
            track_info: None,
            volume: 100,
            position_secs: 0,
            is_bookmarked: false,
            borderless,
        };
        ComponentWindow {
            root: ComponentFactory::create_default_layout(false),
            borderless,
            border_top,
            border_bottom,
            width,
            context,
        }
    }

    /// Replace the widget tree.
    pub fn set_root(&mut self, component: VStack)
        ensures
            *final(self) == (ComponentWindow { root: component, ..*old(self) }),
    {
        self.root = component;
    }

    /// Replace the render context.
    pub fn update_context(&mut self, context: RenderContext)
        ensures
            *final(self) == (ComponentWindow { context, ..*old(self) }),
    {
        self.context = context;
    }

    /// Frame content lines: each line between padding and borders, the
    /// whole between the top and bottom border.
    fn frame(&self, content: &Vec<String>, space: bool) -> (r: String)
        requires
            self.wf(),
        ensures
            r@ == self.framed(string_views(content@), space),
    {
        let ghost lines = string_views(content@);
        let mut r = self.border_top.clone();
        push_char(&mut r, '\r');
        push_char(&mut r, '\n');

        let mut i: usize = 0;
        while i < content.len()
            invariant
                i <= content@.len(),
                self.wf(),
                lines == string_views(content@),
                r@ + menu_from(lines, self.width as nat, self.borderless, space, i as int)
                    =~= self.border_top@ + seq!['\r', '\n'] + menu_from(
                    lines,
                    self.width as nat,
                    self.borderless,
                    space,
                    0,
                ),
            decreases content@.len() - i,
        {
            let pad: &str = if self.borderless {
                " "
            } else {
                "\u{2502}"
            };
            let line = &content[i];
            r.append(pad);
            push_char(&mut r, ' ');
            r.append(line.as_str());
            if space {
                let g = count_graphemes(line.as_str());
                let filler = repeat_char(' ', if self.width >= g {
                    self.width - g
                } else {
                    0
                });
                r.append(filler.as_str());
            }
            push_char(&mut r, ' ');
            r.append(pad);
            push_char(&mut r, '\r');
            push_char(&mut r, '\n');
            proof {
                assert(r@ + menu_from(lines, self.width as nat, self.borderless, space, i + 1)
                    =~= self.border_top@ + seq!['\r', '\n'] + menu_from(
                    lines,
                    self.width as nat,
                    self.borderless,
                    space,
                    0,
                ));
            }
            i = i + 1;
        }
        r.append(self.border_bottom.as_str());
        proof {
            assert(r@ =~= self.framed(lines, space));
        }
        r
    }

    /// Render the window: the widget tree's lines, framed, as one string
    /// ready to print.
    pub fn render(&self) -> (r: String)
        requires
            self.wf(),
            self.root.fits(&self.context),
        ensures
            r@ == self.spec_rendered(),
    {
        let rendered_content = self.root.render(&self.context);
        let lines = lines_of(rendered_content.as_str());
        self.frame(&lines, true)
    }
}

} // verus!
