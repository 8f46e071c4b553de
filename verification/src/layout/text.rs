//! Inline text layout: greedy word wrap of styled inlines within a width.
//!
//! The walk over the inlines carries a [`Wrap`]: the lines finished so far,
//! the line being built and the number of text characters on it. Its model,
//! [`WrapState`], and the `place_*` functions on it say what the layout of a
//! sequence of inlines is; the executable functions are proved to compute it.

use super::types::{
    clamp_u16, lemma_images_view_push, lemma_lines_view_push, images_view, lines_view,
    usize_to_u16, ImageReference, ImageView, Line, SegmentView, TextStyle,
};
use crate::ir::{clone_opt_string, inlines_view, opt_view, push_str_chars, Inline, InlineView};
use crate::text::{chars_of, split_words, string_of, words_of, words_view};
use crate::theme::{FontStyle, FontWeight, Theme, UrlDisplayMode};
use vstd::prelude::*;

verus! {

/// Where the block layout pass is to put an image of a paragraph: below the
/// line with index `line_index`.
#[derive(Debug, Clone)]
pub struct ImagePlacement {
    pub line_index: usize,
    pub url: String,
    pub alt: String,
}

/// Model of an [`ImagePlacement`].
pub struct PlacementView {
    pub line_index: usize,
    pub url: Seq<char>,
    pub alt: Seq<char>,
}

impl View for ImagePlacement {
    type V = PlacementView;

    open spec fn view(&self) -> PlacementView {
        PlacementView { line_index: self.line_index, url: self.url@, alt: self.alt@ }
    }
}

/// Models of a sequence of placements, element by element.
pub open spec fn placements_view(s: Seq<ImagePlacement>) -> Seq<PlacementView> {
    Seq::new(s.len(), |i: int| s[i]@)
}

/// The models of placements with one more placement.
proof fn lemma_placements_view_push(s: Seq<ImagePlacement>, x: ImagePlacement)
    ensures
        placements_view(s.push(x)) == placements_view(s).push(x@),
{
}

/// `a + b`, or `u16::MAX` where the sum does not fit.
pub open spec fn sat_add(a: u16, b: u16) -> u16 {
    if a + b > u16::MAX {
        u16::MAX
    } else {
        (a + b) as u16
    }
}

/// `a - b`, or 0 where `b` is the larger.
pub open spec fn sat_sub(a: u16, b: u16) -> u16 {
    if a < b {
        0
    } else {
        (a - b) as u16
    }
}

/// The width that lines are broken at: `max_width`, but 1 where that is 0,
/// so that every chunk of a word holds a character.
pub open spec fn effective_width(max_width: u16) -> int {
    if max_width == 0 {
        1
    } else {
        max_width as int
    }
}

/// A segment of text that is no image placeholder.
pub open spec fn text_segment(text: Seq<char>, style: TextStyle, link: Option<Seq<char>>) -> SegmentView {
    SegmentView { text, style, link_url: link, image_url: None, image_alt: None }
}

/// `style` in bold.
pub open spec fn bold(style: TextStyle) -> TextStyle {
    TextStyle { weight: FontWeight::Bold, ..style }
}

/// `style` in italics.
pub open spec fn italic(style: TextStyle) -> TextStyle {
    TextStyle { style: FontStyle::Italic, ..style }
}

/// `style` with the theme's colors for inline code.
pub open spec fn code_style(style: TextStyle, theme: Theme) -> TextStyle {
    TextStyle {
        foreground: theme.inlines.code.foreground,
        background: theme.inlines.code.background,
        ..style
    }
}

/// `style` with the theme's link color.
pub open spec fn link_style(style: TextStyle, theme: Theme) -> TextStyle {
    TextStyle { foreground: Some(theme.inlines.link.foreground), ..style }
}

/// `style` with the theme's muted color.
pub open spec fn muted_style(style: TextStyle, theme: Theme) -> TextStyle {
    TextStyle { foreground: Some(theme.colors.muted), ..style }
}

/// Text shown in place of an image: `[IMAGE: alt]`.
pub open spec fn image_placeholder(alt: Seq<char>) -> Seq<char> {
    "[IMAGE: "@ + alt + "]"@
}

/// Text shown after a link whose target is displayed: ` (url)`.
pub open spec fn url_suffix(url: Seq<char>) -> Seq<char> {
    " ("@ + url + ")"@
}

/// Model of a [`Wrap`].
pub struct WrapState {
    /// Lines finished so far.
    pub lines: Seq<Seq<SegmentView>>,
    /// The line being built.
    pub cur: Seq<SegmentView>,
    /// Characters of text on the line being built.
    pub width: int,
    /// Images met so far, for a sidebar.
    pub images: Seq<ImageView>,
    /// Images met so far, for the block layout pass to place.
    pub hints: Seq<PlacementView>,
}

impl WrapState {
    /// Nothing laid out yet.
    pub open spec fn start() -> WrapState {
        WrapState {
            lines: Seq::empty(),
            cur: Seq::empty(),
            width: 0,
            images: Seq::empty(),
            hints: Seq::empty(),
        }
    }

    /// Ends the line being built and begins an empty one.
    pub open spec fn flush(self) -> WrapState {
        WrapState { lines: self.lines.push(self.cur), cur: Seq::empty(), width: 0, ..self }
    }

    /// Appends a segment of text to the line being built.
    pub open spec fn put(self, text: Seq<char>, style: TextStyle, link: Option<Seq<char>>) -> WrapState {
        WrapState {
            cur: self.cur.push(text_segment(text, style, link)),
            width: self.width + text.len(),
            ..self
        }
    }

    /// Ends the line being built if it holds any segment.
    pub open spec fn line_break(self) -> WrapState {
        if self.cur.len() > 0 {
            self.flush()
        } else {
            self
        }
    }

    /// Records an image for the block layout pass; no text is emitted.
    pub open spec fn hint(self, url: Seq<char>, alt: Seq<char>) -> WrapState {
        WrapState {
            hints: self.hints.push(
                PlacementView { line_index: self.lines.len() as usize, url, alt },
            ),
            ..self
        }
    }

    /// Records an image for a sidebar, at the document row of the line being
    /// built, and emits its placeholder, which takes no width.
    pub open spec fn placeholder(
        self,
        url: Seq<char>,
        alt: Seq<char>,
        style: TextStyle,
        y_offset: u16,
    ) -> WrapState {
        WrapState {
            images: self.images.push(
                ImageView {
                    path: url,
                    alt_text: alt,
                    y_position: sat_add(y_offset, clamp_u16(self.lines.len() as int)),
                },
            ),
            cur: self.cur.push(
                SegmentView {
                    text: image_placeholder(alt),
                    style,
                    link_url: None,
                    image_url: Some(url),
                    image_alt: Some(alt),
                },
            ),
            ..self
        }
    }

    /// The lines of the finished layout: the line being built counts if it
    /// holds any segment, and a layout without any line is one empty line.
    pub open spec fn finish(self) -> Seq<Seq<SegmentView>> {
        let lines = if self.cur.len() > 0 {
            self.lines.push(self.cur)
        } else {
            self.lines
        };
        if lines.len() == 0 {
            seq![Seq::<SegmentView>::empty()]
        } else {
            lines
        }
    }
}

/// Lays out a word that is longer than a line, from the start of a line:
/// chunks of `weff` characters, each on a line of its own, the last one left
/// on the line being built.
pub open spec fn place_chunks(
    s: WrapState,
    rest: Seq<char>,
    weff: int,
    style: TextStyle,
    link: Option<Seq<char>>,
) -> WrapState
    decreases rest.len(),
{
    if weff <= 0 || rest.len() <= weff {
        s.put(rest, style, link)
    } else {
        place_chunks(s.put(rest.take(weff), style, link).flush(), rest.skip(weff), weff, style, link)
    }
}

/// Lays out one word. A word that does not fit behind the text on the line
/// being built begins a new line; a space precedes a word that follows text
/// on its line; a word longer than a line is cut into chunks.
pub open spec fn place_word(
    s: WrapState,
    word: Seq<char>,
    max_width: u16,
    style: TextStyle,
    link: Option<Seq<char>>,
) -> WrapState {
    let weff = effective_width(max_width);
    if word.len() > weff {
        place_chunks(if s.width > 0 { s.flush() } else { s }, word, weff, style, link)
    } else {
        let s1 = if s.width > 0 && s.width + 1 + word.len() > max_width {
            s.flush()
        } else {
            s
        };
        let s2 = if s1.width > 0 {
            s1.put(seq![' '], style, link)
        } else {
            s1
        };
        s2.put(word, style, link)
    }
}

/// Lays out the first `n` of `words`, in order.
pub open spec fn place_words(
    s: WrapState,
    words: Seq<Seq<char>>,
    n: int,
    max_width: u16,
    style: TextStyle,
    link: Option<Seq<char>>,
) -> WrapState
    decreases n,
{
    if n <= 0 || n > words.len() {
        s
    } else {
        place_word(
            place_words(s, words, n - 1, max_width, style, link),
            words[n - 1],
            max_width,
            style,
            link,
        )
    }
}

/// Lays out the words of `text`.
pub open spec fn place_text(
    s: WrapState,
    text: Seq<char>,
    max_width: u16,
    style: TextStyle,
    link: Option<Seq<char>>,
) -> WrapState {
    place_words(s, words_of(text), words_of(text).len() as int, max_width, style, link)
}

/// Lays out one inline in the style `style`, as part of the link `link` if
/// there is one.
pub open spec fn place_inline(
    s: WrapState,
    inline: InlineView,
    max_width: u16,
    style: TextStyle,
    link: Option<Seq<char>>,
    theme: Theme,
    y_offset: u16,
    inline_images: bool,
) -> WrapState
    decreases inline,
{
    match inline {
        InlineView::Text(t) => place_text(s, t, max_width, style, link),
        InlineView::Strong(v) => place_inlines(
            s,
            v,
            v.len() as int,
            max_width,
            bold(style),
            link,
            theme,
            y_offset,
            inline_images,
        ),
        InlineView::Emphasis(v) => place_inlines(
            s,
            v,
            v.len() as int,
            max_width,
            italic(style),
            link,
            theme,
            y_offset,
            inline_images,
        ),
        InlineView::Strikethrough(v) => place_inlines(
            s,
            v,
            v.len() as int,
            max_width,
            style,
            link,
            theme,
            y_offset,
            inline_images,
        ),
        InlineView::Code(c) => place_text(s, c, max_width, code_style(style, theme), link),
        InlineView::Link { url, title, text } => {
            let s1 = place_inlines(
                s,
                text,
                text.len() as int,
                max_width,
                link_style(style, theme),
                Some(url),
                theme,
                y_offset,
                inline_images,
            );
            if theme.inlines.link.show_url == UrlDisplayMode::Inline {
                place_text(s1, url_suffix(url), max_width, muted_style(style, theme), None)
            } else {
                s1
            }
        },
        InlineView::Image { url, alt, title } => {
            if inline_images {
                s.hint(url, alt)
            } else {
                s.placeholder(url, alt, muted_style(style, theme), y_offset)
            }
        },
        InlineView::LineBreak => s.line_break(),
        InlineView::SoftBreak => s.line_break(),
    }
}

/// Lays out the first `n` inlines of `v`, in order.
pub open spec fn place_inlines(
    s: WrapState,
    v: Seq<InlineView>,
    n: int,
    max_width: u16,
    style: TextStyle,
    link: Option<Seq<char>>,
    theme: Theme,
    y_offset: u16,
    inline_images: bool,
) -> WrapState
    decreases v, n,
{
    if n <= 0 || n > v.len() {
        s
    } else {
        place_inline(
            place_inlines(s, v, n - 1, max_width, style, link, theme, y_offset, inline_images),
            v[n - 1],
            max_width,
            style,
            link,
            theme,
            y_offset,
            inline_images,
        )
    }
}

/// State after laying out all of `inlines` from nothing, unstyled.
pub open spec fn wrapped(
    inlines: Seq<InlineView>,
    max_width: u16,
    theme: Theme,
    y_offset: u16,
    inline_images: bool,
) -> WrapState {
    place_inlines(
        WrapState::start(),
        inlines,
        inlines.len() as int,
        max_width,
        super::types::plain_style(),
        None,
        theme,
        y_offset,
        inline_images,
    )
}

/// Characters of text in the first `n` segments of a line; image
/// placeholders do not count.
pub open spec fn text_width(line: Seq<SegmentView>, n: int) -> int
    decreases n,
{
    if n <= 0 || n > line.len() {
        0
    } else {
        text_width(line, n - 1) + if line[n - 1].image_url is None {
            line[n - 1].text.len() as int
        } else {
            0
        }
    }
}

/// Characters of text in a line.
pub open spec fn line_text_width(line: Seq<SegmentView>) -> int {
    text_width(line, line.len() as int)
}

/// What holds of a wrap state throughout a layout at width `max_width`: the
/// recorded width is that of the text on the line being built, and neither
/// that line nor a finished one is wider than the effective width.
pub open spec fn wrap_inv(s: WrapState, max_width: u16) -> bool {
    &&& s.width == line_text_width(s.cur)
    &&& 0 <= s.width <= effective_width(max_width)
    &&& forall|i: int|
        0 <= i < s.lines.len() ==> line_text_width(#[trigger] s.lines[i]) <= effective_width(
            max_width,
        )
}

/// One more segment leaves the text width of the segments before it.
proof fn lemma_text_width_prefix(line: Seq<SegmentView>, x: SegmentView, n: int)
    requires
        0 <= n <= line.len(),
    ensures
        text_width(line.push(x), n) == text_width(line, n),
    decreases n,
{
    if n > 0 {
        lemma_text_width_prefix(line, x, n - 1);
    }
}

/// One more segment adds its text, unless it is an image placeholder.
proof fn lemma_text_width_push(line: Seq<SegmentView>, x: SegmentView)
    ensures
        line_text_width(line.push(x)) == line_text_width(line) + if x.image_url is None {
            x.text.len() as int
        } else {
            0
        },
{
    lemma_text_width_prefix(line, x, line.len() as int);
}

/// Ending a line keeps what holds of a wrap state.
proof fn lemma_flush_inv(s: WrapState, max_width: u16)
    requires
        wrap_inv(s, max_width),
    ensures
        wrap_inv(s.flush(), max_width),
        s.flush().width == 0,
{
}

/// Text that fits on the line keeps what holds of a wrap state.
proof fn lemma_put_inv(
    s: WrapState,
    text: Seq<char>,
    style: TextStyle,
    link: Option<Seq<char>>,
    max_width: u16,
)
    requires
        wrap_inv(s, max_width),
        s.width + text.len() <= effective_width(max_width),
    ensures
        wrap_inv(s.put(text, style, link), max_width),
{
    lemma_text_width_push(s.cur, text_segment(text, style, link));
}

/// The chunks of a long word keep what holds of a wrap state.
proof fn lemma_place_chunks_inv(
    s: WrapState,
    rest: Seq<char>,
    max_width: u16,
    style: TextStyle,
    link: Option<Seq<char>>,
)
    requires
        wrap_inv(s, max_width),
        s.width == 0,
    ensures
        wrap_inv(place_chunks(s, rest, effective_width(max_width), style, link), max_width),
    decreases rest.len(),
{
    let weff = effective_width(max_width);
    if rest.len() <= weff {
        lemma_put_inv(s, rest, style, link, max_width);
    } else {
        lemma_put_inv(s, rest.take(weff), style, link, max_width);
        let s1 = s.put(rest.take(weff), style, link);
        lemma_flush_inv(s1, max_width);
        lemma_place_chunks_inv(s1.flush(), rest.skip(weff), max_width, style, link);
    }
}

/// A word keeps what holds of a wrap state.
proof fn lemma_place_word_inv(
    s: WrapState,
    word: Seq<char>,
    max_width: u16,
    style: TextStyle,
    link: Option<Seq<char>>,
)
    requires
        wrap_inv(s, max_width),
    ensures
        wrap_inv(place_word(s, word, max_width, style, link), max_width),
{
    let weff = effective_width(max_width);
    lemma_flush_inv(s, max_width);
    if word.len() > weff {
        lemma_place_chunks_inv(if s.width > 0 { s.flush() } else { s }, word, max_width, style, link);
    } else {
        let s1 = if s.width > 0 && s.width + 1 + word.len() > max_width {
            s.flush()
        } else {
            s
        };
        if s1.width > 0 {
            lemma_put_inv(s1, seq![' '], style, link, max_width);
            lemma_put_inv(s1.put(seq![' '], style, link), word, style, link, max_width);
        } else {
            lemma_put_inv(s1, word, style, link, max_width);
        }
    }
}

/// Words keep what holds of a wrap state.
proof fn lemma_place_words_inv(
    s: WrapState,
    words: Seq<Seq<char>>,
    n: int,
    max_width: u16,
    style: TextStyle,
    link: Option<Seq<char>>,
)
    requires
        wrap_inv(s, max_width),
    ensures
        wrap_inv(place_words(s, words, n, max_width, style, link), max_width),
    decreases n,
{
    if 0 < n <= words.len() {
        lemma_place_words_inv(s, words, n - 1, max_width, style, link);
        lemma_place_word_inv(
            place_words(s, words, n - 1, max_width, style, link),
            words[n - 1],
            max_width,
            style,
            link,
        );
    }
}

/// An inline keeps what holds of a wrap state.
proof fn lemma_place_inline_inv(
    s: WrapState,
    inline: InlineView,
    max_width: u16,
    style: TextStyle,
    link: Option<Seq<char>>,
    theme: Theme,
    y_offset: u16,
    inline_images: bool,
)
    requires
        wrap_inv(s, max_width),
    ensures
        wrap_inv(
            place_inline(s, inline, max_width, style, link, theme, y_offset, inline_images),
            max_width,
        ),
    decreases inline,
{
    match inline {
        InlineView::Text(t) => {
            lemma_place_words_inv(s, words_of(t), words_of(t).len() as int, max_width, style, link);
        },
        InlineView::Strong(v) => {
            lemma_place_inlines_inv(
                s,
                v,
                v.len() as int,
                max_width,
                bold(style),
                link,
                theme,
                y_offset,
                inline_images,
            );
        },
        InlineView::Emphasis(v) => {
            lemma_place_inlines_inv(
                s,
                v,
                v.len() as int,
                max_width,
                italic(style),
                link,
                theme,
                y_offset,
                inline_images,
            );
        },
        InlineView::Strikethrough(v) => {
            lemma_place_inlines_inv(
                s,
                v,
                v.len() as int,
                max_width,
                style,
                link,
                theme,
                y_offset,
                inline_images,
            );
        },
        InlineView::Code(c) => {
            lemma_place_words_inv(
                s,
                words_of(c),
                words_of(c).len() as int,
                max_width,
                code_style(style, theme),
                link,
            );
        },
        InlineView::Link { url, title, text } => {
            lemma_place_inlines_inv(
                s,
                text,
                text.len() as int,
                max_width,
                link_style(style, theme),
                Some(url),
                theme,
                y_offset,
                inline_images,
            );
            let s1 = place_inlines(
                s,
                text,
                text.len() as int,
                max_width,
                link_style(style, theme),
                Some(url),
                theme,
                y_offset,
                inline_images,
            );
            lemma_place_words_inv(
                s1,
                words_of(url_suffix(url)),
                words_of(url_suffix(url)).len() as int,
                max_width,
                muted_style(style, theme),
                None,
            );
        },
        InlineView::Image { url, alt, title } => {
            if !inline_images {
                lemma_text_width_push(
                    s.cur,
                    SegmentView {
                        text: image_placeholder(alt),
                        style: muted_style(style, theme),
                        link_url: None,
                        image_url: Some(url),
                        image_alt: Some(alt),
                    },
                );
            }
        },
        InlineView::LineBreak => {},
        InlineView::SoftBreak => {},
    }
}

/// Inlines keep what holds of a wrap state.
proof fn lemma_place_inlines_inv(
    s: WrapState,
    v: Seq<InlineView>,
    n: int,
    max_width: u16,
    style: TextStyle,
    link: Option<Seq<char>>,
    theme: Theme,
    y_offset: u16,
    inline_images: bool,
)
    requires
        wrap_inv(s, max_width),
    ensures
        wrap_inv(
            place_inlines(s, v, n, max_width, style, link, theme, y_offset, inline_images),
            max_width,
        ),
    decreases v, n,
{
    if 0 < n <= v.len() {
        lemma_place_inlines_inv(s, v, n - 1, max_width, style, link, theme, y_offset, inline_images);
        lemma_place_inline_inv(
            place_inlines(s, v, n - 1, max_width, style, link, theme, y_offset, inline_images),
            v[n - 1],
            max_width,
            style,
            link,
            theme,
            y_offset,
            inline_images,
        );
    }
}

/// No line of a finished layout holds more text than the effective width:
/// a word that is wider than a line is cut into chunks that fit. Image
/// placeholders take no width and are not counted.
pub proof fn lemma_wrapped_lines_fit(
    inlines: Seq<InlineView>,
    max_width: u16,
    theme: Theme,
    y_offset: u16,
    inline_images: bool,
)
    ensures
        forall|i: int|
            0 <= i < wrapped(inlines, max_width, theme, y_offset, inline_images).finish().len()
                ==> line_text_width(
                #[trigger] wrapped(inlines, max_width, theme, y_offset, inline_images).finish()[i],
            ) <= effective_width(max_width),
{
    let start = WrapState::start();
    lemma_place_inlines_inv(
        start,
        inlines,
        inlines.len() as int,
        max_width,
        super::types::plain_style(),
        None,
        theme,
        y_offset,
        inline_images,
    );
}

/// Running state of an inline layout.
#[derive(Debug)]
pub struct Wrap {
    /// Lines finished so far.
    pub lines: Vec<Line>,
    /// The line being built.
    pub cur: Line,
    /// Characters of text on the line being built.
    pub width: u16,
    /// Images met so far, for a sidebar.
    pub images: Vec<ImageReference>,
    /// Images met so far, for the block layout pass to place.
    pub hints: Vec<ImagePlacement>,
}

impl View for Wrap {
    type V = WrapState;

    open spec fn view(&self) -> WrapState {
        WrapState {
            lines: lines_view(self.lines@),
            cur: self.cur@,
            width: self.width as int,
            images: images_view(self.images@),
            hints: placements_view(self.hints@),
        }
    }
}

/// The characters of `v` from index `from` up to, not including, `to`.
pub fn sub_vec(v: &Vec<char>, from: usize, to: usize) -> (r: Vec<char>)
    requires
        from <= to <= v.len(),
    ensures
        r@ == v@.subrange(from as int, to as int),
{
    let mut r: Vec<char> = Vec::new();
    let mut i: usize = from;
    while i < to
        invariant
            from <= i <= to <= v.len(),
            r@ == v@.subrange(from as int, i as int),
        decreases to - i,
    {
        r.push(v[i]);
        i += 1;
    }
    r
}

impl Wrap {
    /// A layout with nothing laid out yet.
    pub fn new() -> (w: Wrap)
        ensures
            w@ == WrapState::start(),
    {
        let w = Wrap {
            lines: Vec::new(),
            cur: Line::new(),
            width: 0,
            images: Vec::new(),
            hints: Vec::new(),
        };
        assert(w@.lines =~= Seq::empty());
        assert(w@.images =~= Seq::empty());
        assert(w@.hints =~= Seq::empty());
        w
    }

    /// Ends the line being built and begins an empty one.
    pub fn flush(&mut self)
        ensures
            final(self)@ == old(self)@.flush(),
    {
        let mut line = Line::new();
        std::mem::swap(&mut self.cur, &mut line);
        proof {
            lemma_lines_view_push(self.lines@, line);
        }
        self.lines.push(line);
        self.width = 0;
    }

    /// Appends a segment of text to the line being built.
    pub fn put(&mut self, text: &Vec<char>, style: TextStyle, link_url: &Option<String>)
        requires
            old(self).width + text.len() <= u16::MAX,
        ensures
            final(self)@ == old(self)@.put(text@, style, opt_view(*link_url)),
    {
        let segment_text = string_of(text);
        let link = clone_opt_string(link_url);
        self.cur.add_segment_with_link(segment_text, style, link);
        self.width = self.width + text.len() as u16;
    }

    /// Ends the line being built if it holds any segment.
    pub fn line_break(&mut self)
        ensures
            final(self)@ == old(self)@.line_break(),
    {
        if !self.cur.is_empty() {
            self.flush();
        }
    }

    /// Records an image for the block layout pass.
    pub fn hint(&mut self, url: &String, alt: &String)
        ensures
            final(self)@ == old(self)@.hint(url@, alt@),
    {
        let placement = ImagePlacement {
            line_index: self.lines.len(),
            url: url.clone(),
            alt: alt.clone(),
        };
        proof {
            lemma_placements_view_push(self.hints@, placement);
        }
        self.hints.push(placement);
    }

    /// Records an image for a sidebar and emits its placeholder.
    pub fn placeholder(&mut self, url: &String, alt: &String, style: TextStyle, y_offset: u16)
        ensures
            final(self)@ == old(self)@.placeholder(url@, alt@, style, y_offset),
    {
        let image = ImageReference {
            path: url.clone(),
            alt_text: alt.clone(),
            y_position: y_offset.saturating_add(usize_to_u16(self.lines.len())),
        };
        proof {
            lemma_images_view_push(self.images@, image);
        }
        self.images.push(image);
        let mut text: Vec<char> = Vec::new();
        push_str_chars(&mut text, "[IMAGE: ");
        push_str_chars(&mut text, alt.as_str());
        push_str_chars(&mut text, "]");
        self.cur.add_segment_full(
            string_of(&text),
            style,
            None,
            Some(url.clone()),
            Some(alt.clone()),
        );
    }

    /// The lines of the finished layout, with the images and placements
    /// recorded on the way.
    pub fn finish(self) -> (r: (Vec<Line>, Vec<ImageReference>, Vec<ImagePlacement>))
        ensures
            lines_view(r.0@) == self@.finish(),
            images_view(r.1@) == self@.images,
            placements_view(r.2@) == self@.hints,
            r.0@.len() >= 1,
    {
        let mut lines = self.lines;
        if !self.cur.is_empty() {
            proof {
                lemma_lines_view_push(lines@, self.cur);
            }
            lines.push(self.cur);
        }
        if lines.is_empty() {
            let empty = Line::new();
            proof {
                lemma_lines_view_push(lines@, empty);
            }
            lines.push(empty);
        }
        (lines, self.images, self.hints)
    }
}

/// The width that lines are broken at.
fn effective(max_width: u16) -> (weff: usize)
    ensures
        weff == effective_width(max_width),
        1 <= weff <= u16::MAX,
{
    if max_width == 0 {
        1
    } else {
        max_width as usize
    }
}

/// Lays out a word that is longer than a line, from the start of a line.
fn layout_chunks(
    ctx: &mut Wrap,
    word: &Vec<char>,
    max_width: u16,
    style: TextStyle,
    link_url: &Option<String>,
)
    requires
        wrap_inv(old(ctx)@, max_width),
        old(ctx).width == 0,
    ensures
        final(ctx)@ == place_chunks(
            old(ctx)@,
            word@,
            effective_width(max_width),
            style,
            opt_view(*link_url),
        ),
        wrap_inv(final(ctx)@, max_width),
{
    let weff = effective(max_width);
    let ghost link = opt_view(*link_url);
    let ghost goal = place_chunks(ctx@, word@, weff as int, style, link);
    proof {
        lemma_place_chunks_inv(ctx@, word@, max_width, style, link);
        assert(word@.skip(0) =~= word@);
    }
    let mut start: usize = 0;
    while word.len() - start > weff
        invariant
            start <= word.len(),
            weff == effective_width(max_width),
            link == opt_view(*link_url),
            ctx.width == 0,
            place_chunks(ctx@, word@.skip(start as int), weff as int, style, link) == goal,
        decreases word.len() - start,
    {
        let chunk = sub_vec(word, start, start + weff);
        assert(chunk@ =~= word@.skip(start as int).take(weff as int));
        ctx.put(&chunk, style, link_url);
        ctx.flush();
        assert(word@.skip(start as int).skip(weff as int) =~= word@.skip(start as int + weff as int));
        start = start + weff;
    }
    let rest = sub_vec(word, start, word.len());
    ctx.put(&rest, style, link_url);
}

/// Lays out one word.
fn layout_word(
    ctx: &mut Wrap,
    word: &Vec<char>,
    max_width: u16,
    style: TextStyle,
    link_url: &Option<String>,
)
    requires
        wrap_inv(old(ctx)@, max_width),
    ensures
        final(ctx)@ == place_word(old(ctx)@, word@, max_width, style, opt_view(*link_url)),
        wrap_inv(final(ctx)@, max_width),
{
    let weff = effective(max_width);
    proof {
        lemma_place_word_inv(ctx@, word@, max_width, style, opt_view(*link_url));
        lemma_flush_inv(ctx@, max_width);
    }
    if word.len() > weff {
        if ctx.width > 0 {
            ctx.flush();
        }
        layout_chunks(ctx, word, max_width, style, link_url);
    } else {
        if ctx.width > 0 && ctx.width as usize + 1 + word.len() > max_width as usize {
            ctx.flush();
        }
        if ctx.width > 0 {
            let mut space: Vec<char> = Vec::new();
            space.push(' ');
            ctx.put(&space, style, link_url);
        }
        ctx.put(word, style, link_url);
    }
}

/// Lays out the words of `text` in one style.
pub fn layout_text_content(
    ctx: &mut Wrap,
    text: &str,
    max_width: u16,
    style: TextStyle,
    link_url: &Option<String>,
)
    requires
        wrap_inv(old(ctx)@, max_width),
    ensures
        final(ctx)@ == place_text(old(ctx)@, text@, max_width, style, opt_view(*link_url)),
        wrap_inv(final(ctx)@, max_width),
{
    let chars = chars_of(text);
    let words = split_words(&chars);
    let ghost s0 = ctx@;
    let ghost link = opt_view(*link_url);
    let ghost all = words_of(text@);
    let mut i: usize = 0;
    while i < words.len()
        invariant
            i <= words.len(),
            words_view(words@) == all,
            link == opt_view(*link_url),
            ctx@ == place_words(s0, all, i as int, max_width, style, link),
            wrap_inv(ctx@, max_width),
        decreases words.len() - i,
    {
        layout_word(ctx, &words[i], max_width, style, link_url);
        i += 1;
    }
}

/// Lays out every inline of `v`, in order.
pub fn layout_inline_all(
    ctx: &mut Wrap,
    v: &Vec<Inline>,
    max_width: u16,
    style: TextStyle,
    link_url: &Option<String>,
    theme: &Theme,
    y_offset: u16,
    inline_images: bool,
)
    requires
        wrap_inv(old(ctx)@, max_width),
    ensures
        final(ctx)@ == place_inlines(
            old(ctx)@,
            inlines_view(v@),
            v@.len() as int,
            max_width,
            style,
            opt_view(*link_url),
            *theme,
            y_offset,
            inline_images,
        ),
        wrap_inv(final(ctx)@, max_width),
    decreases v,
{
    let ghost s0 = ctx@;
    let ghost link = opt_view(*link_url);
    let ghost all = inlines_view(v@);
    let mut k: usize = 0;
    while k < v.len()
        invariant
            k <= v.len(),
            all == inlines_view(v@),
            link == opt_view(*link_url),
            ctx@ == place_inlines(s0, all, k as int, max_width, style, link, *theme, y_offset, inline_images),
            wrap_inv(ctx@, max_width),
        decreases v.len() - k,
    {
        layout_inline(ctx, &v[k], max_width, style, link_url, theme, y_offset, inline_images);
        k += 1;
    }
}

/// Lays out one inline in the style `style`, as part of the link `link_url`
/// if there is one.
pub fn layout_inline(
    ctx: &mut Wrap,
    inline: &Inline,
    max_width: u16,
    style: TextStyle,
    link_url: &Option<String>,
    theme: &Theme,
    y_offset: u16,
    inline_images: bool,
)
    requires
        wrap_inv(old(ctx)@, max_width),
    ensures
        final(ctx)@ == place_inline(
            old(ctx)@,
            inline@,
            max_width,
            style,
            opt_view(*link_url),
            *theme,
            y_offset,
            inline_images,
        ),
        wrap_inv(final(ctx)@, max_width),
    decreases inline,
{
    proof {
        lemma_place_inline_inv(
            ctx@,
            inline@,
            max_width,
            style,
            opt_view(*link_url),
            *theme,
            y_offset,
            inline_images,
        );
    }
    match inline {
        Inline::Text(text) => {
            layout_text_content(ctx, text.as_str(), max_width, style, link_url);
        },
        Inline::Strong(nested) => {
            let nested_style = TextStyle { weight: FontWeight::Bold, ..style };
            layout_inline_all(
                ctx,
                nested,
                max_width,
                nested_style,
                link_url,
                theme,
                y_offset,
                inline_images,
            );
        },
        Inline::Emphasis(nested) => {
            let nested_style = TextStyle { style: FontStyle::Italic, ..style };
            layout_inline_all(
                ctx,
                nested,
                max_width,
                nested_style,
                link_url,
                theme,
                y_offset,
                inline_images,
            );
        },
        Inline::Strikethrough(nested) => {
            layout_inline_all(ctx, nested, max_width, style, link_url, theme, y_offset, inline_images);
        },
        Inline::Code(code) => {
            let code_style = TextStyle {
                foreground: theme.inlines.code.foreground,
                background: theme.inlines.code.background,
                ..style
            };
            layout_text_content(ctx, code.as_str(), max_width, code_style, link_url);
        },
        Inline::Link { url, title, text } => {
            let nested_style = TextStyle { foreground: Some(theme.inlines.link.foreground), ..style };
            let target = Some(url.clone());
            layout_inline_all(
                ctx,
                text,
                max_width,
                nested_style,
                &target,
                theme,
                y_offset,
                inline_images,
            );
            match theme.inlines.link.show_url {
                UrlDisplayMode::Inline => {
                    let mut shown: Vec<char> = Vec::new();
                    push_str_chars(&mut shown, " (");
                    push_str_chars(&mut shown, url.as_str());
                    push_str_chars(&mut shown, ")");
                    let shown_text = string_of(&shown);
                    let muted = TextStyle { foreground: Some(theme.colors.muted), ..style };
                    layout_text_content(ctx, shown_text.as_str(), max_width, muted, &None);
                },
                _ => {},
            }
        },
        Inline::Image { url, alt, title } => {
            if inline_images {
                ctx.hint(url, alt);
            } else {
                let muted = TextStyle { foreground: Some(theme.colors.muted), ..style };
                ctx.placeholder(url, alt, muted, y_offset);
            }
        },
        Inline::LineBreak => {
            ctx.line_break();
        },
        Inline::SoftBreak => {
            ctx.line_break();
        },
    }
}

/// Result of an inline layout: the wrapped lines and, where images are to
/// be placed inline, the lines they follow.
#[derive(Debug)]
pub struct TextLayout {
    pub lines: Vec<Line>,
    pub placements: Vec<ImagePlacement>,
}

/// Lays out inline elements into wrapped lines of at most `max_width`
/// characters of text. With `inline_images` an image leaves a placement for
/// the block layout pass; without it, the image is appended to `images` with
/// the document row of its line, and a placeholder stands in the text.
pub fn layout_inlines(
    inlines: &Vec<Inline>,
    max_width: u16,
    theme: &Theme,
    y_offset: u16,
    images: &mut Vec<ImageReference>,
    inline_images: bool,
) -> (r: TextLayout)
    ensures
        lines_view(r.lines@) == wrapped(
            inlines_view(inlines@),
            max_width,
            *theme,
            y_offset,
            inline_images,
        ).finish(),
        placements_view(r.placements@) == wrapped(
            inlines_view(inlines@),
            max_width,
            *theme,
            y_offset,
            inline_images,
        ).hints,
        images_view(final(images)@) == images_view(old(images)@) + wrapped(
            inlines_view(inlines@),
            max_width,
            *theme,
            y_offset,
            inline_images,
        ).images,
        r.lines@.len() >= 1,
{
    let mut ctx = Wrap::new();
    let style = TextStyle::default();
    layout_inline_all(&mut ctx, inlines, max_width, style, &None, theme, y_offset, inline_images);
    let (lines, mut found, placements) = ctx.finish();
    images.append(&mut found);
    TextLayout { lines, placements }
}

/// Lays out inline elements into wrapped lines; images go to `images`, with
/// a placeholder in the text.
pub fn layout_text(
    inlines: &Vec<Inline>,
    max_width: u16,
    theme: &Theme,
    y_offset: u16,
    images: &mut Vec<ImageReference>,
) -> (lines: Vec<Line>)
    ensures
        lines_view(lines@) == wrapped(inlines_view(inlines@), max_width, *theme, y_offset, false).finish(),
        images_view(final(images)@) == images_view(old(images)@) + wrapped(
            inlines_view(inlines@),
            max_width,
            *theme,
            y_offset,
            false,
        ).images,
        lines@.len() >= 1,
{
    let r = layout_inlines(inlines, max_width, theme, y_offset, images, false);
    r.lines
}

} // verus!
