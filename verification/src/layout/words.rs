//! The words of a paragraph survive its layout: the text of the wrapped
//! lines, read line after line, holds every word of the paragraph's
//! inlines, in order.

use super::text::{
    place_chunks, place_inline, place_inlines, place_text, place_word, place_words, wrapped,
    WrapState,
};
use super::engine::{
    image_nodes, margin_top, next_id, place_block, place_blocks, place_cells, place_code_block,
    place_document, place_heading, place_items, place_paragraph, place_row, place_rows,
    place_table, Acc, Flow,
};
use super::text::{sat_add, sat_sub};
use super::types::{ElementView, NodeView, SegmentView, TextStyle, Viewport};
use crate::ir::{plain_text, plain_text_of, BlockView, DocumentView, InlineView, ListItemView};
use crate::text::{is_space, scan_words, words_of};
use crate::theme::{Theme, UrlDisplayMode};
use vstd::prelude::*;

verus! {

/// Text of the first `n` segments of a line, one after the other.
pub open spec fn line_text(line: Seq<SegmentView>, n: int) -> Seq<char>
    decreases n,
{
    if n <= 0 || n > line.len() {
        Seq::empty()
    } else {
        line_text(line, n - 1) + line[n - 1].text
    }
}

/// Text of the first `n` lines, one after the other.
pub open spec fn lines_text(lines: Seq<Seq<SegmentView>>, n: int) -> Seq<char>
    decreases n,
{
    if n <= 0 || n > lines.len() {
        Seq::empty()
    } else {
        lines_text(lines, n - 1) + line_text(lines[n - 1], lines[n - 1].len() as int)
    }
}

/// All text laid out so far: that of the finished lines, then that of the
/// line being built.
pub open spec fn state_text(s: WrapState) -> Seq<char> {
    lines_text(s.lines, s.lines.len() as int) + line_text(s.cur, s.cur.len() as int)
}

/// The words of an inline's text: those of text and code, those of the
/// content of styled spans and links; images and breaks have none.
pub open spec fn inline_words(i: InlineView) -> Seq<Seq<char>>
    decreases i,
{
    match i {
        InlineView::Text(t) => words_of(t),
        InlineView::Strong(v) => inlines_words(v, v.len() as int),
        InlineView::Emphasis(v) => inlines_words(v, v.len() as int),
        InlineView::Strikethrough(v) => inlines_words(v, v.len() as int),
        InlineView::Code(c) => words_of(c),
        InlineView::Link { url, title, text } => inlines_words(text, text.len() as int),
        InlineView::Image { .. } => Seq::empty(),
        InlineView::LineBreak => Seq::empty(),
        InlineView::SoftBreak => Seq::empty(),
    }
}

/// The words of the first `n` inlines of `v`, in order.
pub open spec fn inlines_words(v: Seq<InlineView>, n: int) -> Seq<Seq<char>>
    decreases v, n,
{
    if n <= 0 || n > v.len() {
        Seq::empty()
    } else {
        inlines_words(v, n - 1) + inline_words(v[n - 1])
    }
}

/// Whether `hay` holds the `tokens` in order, each after the one before it.
#[verifier::opaque]
pub open spec fn embeds(hay: Seq<char>, tokens: Seq<Seq<char>>) -> bool
    decreases tokens.len(),
{
    if tokens.len() == 0 {
        true
    } else {
        exists|p: int| #[trigger]
            found_at(hay, tokens[0], p) && embeds(
                hay.skip(p + tokens[0].len()),
                tokens.skip(1),
            )
    }
}

/// Whether `token` stands in `hay` at index `p`.
pub open spec fn found_at(hay: Seq<char>, token: Seq<char>, p: int) -> bool {
    0 <= p && p + token.len() <= hay.len() && hay.subrange(p, p + token.len()) == token
}

/// Whether `after` is `before` with more text behind it that holds the
/// `tokens` in order.
pub open spec fn grown(before: Seq<char>, after: Seq<char>, tokens: Seq<Seq<char>>) -> bool {
    &&& before.len() <= after.len()
    &&& after.take(before.len() as int) == before
    &&& embeds(after.skip(before.len() as int), tokens)
}

proof fn lemma_embeds_after(x: Seq<char>, hay: Seq<char>, tokens: Seq<Seq<char>>)
    requires
        embeds(hay, tokens),
    ensures
        embeds(x + hay, tokens),
{
    reveal_with_fuel(embeds, 2);    if tokens.len() > 0 {
        let p = choose|p: int| #[trigger]
            found_at(hay, tokens[0], p) && embeds(hay.skip(p + tokens[0].len()), tokens.skip(1));
        let q = x.len() + p;
        assert((x + hay).subrange(q, q + tokens[0].len()) =~= hay.subrange(p, p + tokens[0].len()));
        assert((x + hay).skip(q + tokens[0].len()) =~= hay.skip(p + tokens[0].len()));
        assert(found_at(x + hay, tokens[0], q));
    }
}

proof fn lemma_embeds_append(
    h1: Seq<char>,
    t1: Seq<Seq<char>>,
    h2: Seq<char>,
    t2: Seq<Seq<char>>,
)
    requires
        embeds(h1, t1),
        embeds(h2, t2),
    ensures
        embeds(h1 + h2, t1 + t2),
    decreases t1.len(),
{
    reveal_with_fuel(embeds, 2);    if t1.len() == 0 {
        lemma_embeds_after(h1, h2, t2);
    } else {
        let p = choose|p: int| #[trigger]
            found_at(h1, t1[0], p) && embeds(h1.skip(p + t1[0].len()), t1.skip(1));
        let q = p + t1[0].len();
        lemma_embeds_append(h1.skip(q), t1.skip(1), h2, t2);
        assert((h1 + h2).skip(q) =~= h1.skip(q) + h2);
        assert((t1 + t2).skip(1) =~= t1.skip(1) + t2);
        assert((h1 + h2).subrange(p, q) =~= h1.subrange(p, q));
        assert(found_at(h1 + h2, (t1 + t2)[0], p));
    }
}

proof fn lemma_grown_same(a: Seq<char>)
    ensures
        grown(a, a, Seq::empty()),
{
    reveal_with_fuel(embeds, 2);    assert(a.take(a.len() as int) =~= a);
}

proof fn lemma_grown_then(
    a: Seq<char>,
    b: Seq<char>,
    c: Seq<char>,
    t1: Seq<Seq<char>>,
    t2: Seq<Seq<char>>,
)
    requires
        grown(a, b, t1),
        grown(b, c, t2),
    ensures
        grown(a, c, t1 + t2),
{
    assert(c.take(a.len() as int) =~= b.take(a.len() as int)) by {}
    let added1 = b.skip(a.len() as int);
    let added2 = c.skip(b.len() as int);
    lemma_embeds_append(added1, t1, added2, t2);
    assert(c.skip(a.len() as int) =~= added1 + added2) by {}
}

proof fn lemma_grown_by(a: Seq<char>, sep: Seq<char>, w: Seq<char>)
    ensures
        grown(a, a + sep + w, seq![w]),
{
    reveal_with_fuel(embeds, 2);    let after = a + sep + w;
    assert(after.take(a.len() as int) =~= a);
    let added = after.skip(a.len() as int);
    let p = sep.len() as int;
    assert(added.subrange(p, p + w.len()) =~= w);
    assert(found_at(added, seq![w][0], p));
}

proof fn lemma_grown_more(a: Seq<char>, b: Seq<char>, x: Seq<char>, t: Seq<Seq<char>>)
    requires
        grown(a, b, t),
    ensures
        grown(a, b + x, t),
{
    reveal_with_fuel(embeds, 2);    lemma_grown_same(b);
    assert((b + x).take(b.len() as int) =~= b);
    lemma_grown_then(a, b, b + x, t, Seq::empty());
}

proof fn lemma_line_text_prefix(line: Seq<SegmentView>, x: SegmentView, n: int)
    requires
        0 <= n <= line.len(),
    ensures
        line_text(line.push(x), n) == line_text(line, n),
    decreases n,
{
    if n > 0 {
        lemma_line_text_prefix(line, x, n - 1);
    }
}

proof fn lemma_lines_text_prefix(lines: Seq<Seq<SegmentView>>, x: Seq<SegmentView>, n: int)
    requires
        0 <= n <= lines.len(),
    ensures
        lines_text(lines.push(x), n) == lines_text(lines, n),
    decreases n,
{
    if n > 0 {
        lemma_lines_text_prefix(lines, x, n - 1);
    }
}

proof fn lemma_flush_text(s: WrapState)
    ensures
        state_text(s.flush()) == state_text(s),
{
    lemma_lines_text_prefix(s.lines, s.cur, s.lines.len() as int);
}

proof fn lemma_push_text(s: WrapState, seg: SegmentView)
    ensures
        state_text(WrapState { cur: s.cur.push(seg), ..s }) == state_text(s) + seg.text,
{
    lemma_line_text_prefix(s.cur, seg, s.cur.len() as int);
}

proof fn lemma_put_text(s: WrapState, text: Seq<char>, style: TextStyle, link: Option<Seq<char>>)
    ensures
        state_text(s.put(text, style, link)) == state_text(s) + text,
{
    lemma_push_text(s, super::text::text_segment(text, style, link));
}

proof fn lemma_chunks_text(
    s: WrapState,
    rest: Seq<char>,
    weff: int,
    style: TextStyle,
    link: Option<Seq<char>>,
)
    ensures
        state_text(place_chunks(s, rest, weff, style, link)) == state_text(s) + rest,
    decreases rest.len(),
{
    if weff <= 0 || rest.len() <= weff {
        lemma_put_text(s, rest, style, link);
    } else {
        let s1 = s.put(rest.take(weff), style, link);
        lemma_put_text(s, rest.take(weff), style, link);
        lemma_flush_text(s1);
        lemma_chunks_text(s1.flush(), rest.skip(weff), weff, style, link);
    }
}

proof fn lemma_word_text(
    s: WrapState,
    word: Seq<char>,
    max_width: u16,
    style: TextStyle,
    link: Option<Seq<char>>,
)
    ensures
        grown(state_text(s), state_text(place_word(s, word, max_width, style, link)), seq![word]),
{
    let weff = super::text::effective_width(max_width);
    let before = state_text(s);
    lemma_flush_text(s);
    if word.len() > weff {
        let s0 = if s.width > 0 {
            s.flush()
        } else {
            s
        };
        lemma_chunks_text(s0, word, weff, style, link);
        lemma_grown_by(before, Seq::empty(), word);
    } else {
        let s1 = if s.width > 0 && s.width + 1 + word.len() > max_width {
            s.flush()
        } else {
            s
        };
        if s1.width > 0 {
            let s2 = s1.put(seq![' '], style, link);
            lemma_put_text(s1, seq![' '], style, link);
            lemma_put_text(s2, word, style, link);
            lemma_grown_by(before, seq![' '], word);
        } else {
            lemma_put_text(s1, word, style, link);
            lemma_grown_by(before, Seq::empty(), word);
        }
    }
}

proof fn lemma_words_text(
    s: WrapState,
    words: Seq<Seq<char>>,
    n: int,
    max_width: u16,
    style: TextStyle,
    link: Option<Seq<char>>,
)
    requires
        0 <= n <= words.len(),
    ensures
        grown(
            state_text(s),
            state_text(place_words(s, words, n, max_width, style, link)),
            words.take(n),
        ),
    decreases n,
{
    if n == 0 {
        lemma_grown_same(state_text(s));
        assert(words.take(0) =~= Seq::<Seq<char>>::empty());
    } else {
        lemma_words_text(s, words, n - 1, max_width, style, link);
        let prev = place_words(s, words, n - 1, max_width, style, link);
        lemma_word_text(prev, words[n - 1], max_width, style, link);
        lemma_grown_then(
            state_text(s),
            state_text(prev),
            state_text(place_word(prev, words[n - 1], max_width, style, link)),
            words.take(n - 1),
            seq![words[n - 1]],
        );
        assert(words.take(n) =~= words.take(n - 1) + seq![words[n - 1]]);
    }
}

proof fn lemma_text_text(
    s: WrapState,
    text: Seq<char>,
    max_width: u16,
    style: TextStyle,
    link: Option<Seq<char>>,
)
    ensures
        grown(
            state_text(s),
            state_text(place_text(s, text, max_width, style, link)),
            words_of(text),
        ),
{
    let words = words_of(text);
    lemma_words_text(s, words, words.len() as int, max_width, style, link);
    assert(words.take(words.len() as int) =~= words);
}

/// Laying out an inline adds text that holds the inline's words in order.
pub proof fn lemma_inline_text(
    s: WrapState,
    inline: InlineView,
    max_width: u16,
    style: TextStyle,
    link: Option<Seq<char>>,
    theme: Theme,
    y_offset: u16,
    inline_images: bool,
)
    ensures
        grown(
            state_text(s),
            state_text(
                place_inline(s, inline, max_width, style, link, theme, y_offset, inline_images),
            ),
            inline_words(inline),
        ),
    decreases inline,
{
    match inline {
        InlineView::Text(t) => {
            lemma_text_text(s, t, max_width, style, link);
        },
        InlineView::Strong(v) => {
            lemma_inlines_text(
                s,
                v,
                v.len() as int,
                max_width,
                super::text::bold(style),
                link,
                theme,
                y_offset,
                inline_images,
            );
        },
        InlineView::Emphasis(v) => {
            lemma_inlines_text(
                s,
                v,
                v.len() as int,
                max_width,
                super::text::italic(style),
                link,
                theme,
                y_offset,
                inline_images,
            );
        },
        InlineView::Strikethrough(v) => {
            lemma_inlines_text(
                s,
                v,
                v.len() as int,
                max_width,
                style,
                link,
                theme,
                y_offset,
                inline_images,
            );
        },
        InlineView::Code(c) => {
            lemma_text_text(s, c, max_width, super::text::code_style(style, theme), link);
        },
        InlineView::Link { url, title, text } => {
            lemma_inlines_text(
                s,
                text,
                text.len() as int,
                max_width,
                super::text::link_style(style, theme),
                Some(url),
                theme,
                y_offset,
                inline_images,
            );
            let s1 = place_inlines(
                s,
                text,
                text.len() as int,
                max_width,
                super::text::link_style(style, theme),
                Some(url),
                theme,
                y_offset,
                inline_images,
            );
            if theme.inlines.link.show_url == UrlDisplayMode::Inline {
                let suffix = super::text::url_suffix(url);
                let s2 = place_text(
                    s1,
                    suffix,
                    max_width,
                    super::text::muted_style(style, theme),
                    None,
                );
                lemma_text_text(s1, suffix, max_width, super::text::muted_style(style, theme), None);
                // The shown target follows the link's words.
                let a = state_text(s);
                let b = state_text(s1);
                let c = state_text(s2);
                assert(c =~= b + c.skip(b.len() as int)) by {}
                lemma_grown_more(a, b, c.skip(b.len() as int), inline_words(inline));
            }
        },
        InlineView::Image { url, alt, title } => {
            lemma_grown_same(state_text(s));
            if !inline_images {
                let seg = SegmentView {
                    text: super::text::image_placeholder(alt),
                    style: super::text::muted_style(style, theme),
                    link_url: None,
                    image_url: Some(url),
                    image_alt: Some(alt),
                };
                lemma_push_text(s, seg);
                lemma_grown_more(state_text(s), state_text(s), seg.text, Seq::empty());
            }
        },
        InlineView::LineBreak => {
            lemma_flush_text(s);
            lemma_grown_same(state_text(s));
        },
        InlineView::SoftBreak => {
            lemma_flush_text(s);
            lemma_grown_same(state_text(s));
        },
    }
}

/// Laying out inlines adds text that holds their words in order.
pub proof fn lemma_inlines_text(
    s: WrapState,
    v: Seq<InlineView>,
    n: int,
    max_width: u16,
    style: TextStyle,
    link: Option<Seq<char>>,
    theme: Theme,
    y_offset: u16,
    inline_images: bool,
)
    requires
        0 <= n <= v.len(),
    ensures
        grown(
            state_text(s),
            state_text(
                place_inlines(s, v, n, max_width, style, link, theme, y_offset, inline_images),
            ),
            inlines_words(v, n),
        ),
    decreases v, n,
{
    if n == 0 {
        lemma_grown_same(state_text(s));
    } else {
        lemma_inlines_text(s, v, n - 1, max_width, style, link, theme, y_offset, inline_images);
        let prev = place_inlines(
            s,
            v,
            n - 1,
            max_width,
            style,
            link,
            theme,
            y_offset,
            inline_images,
        );
        lemma_inline_text(prev, v[n - 1], max_width, style, link, theme, y_offset, inline_images);
        lemma_grown_then(
            state_text(s),
            state_text(prev),
            state_text(
                place_inline(prev, v[n - 1], max_width, style, link, theme, y_offset, inline_images),
            ),
            inlines_words(v, n - 1),
            inline_words(v[n - 1]),
        );
    }
}

/// The text of the wrapped lines of a paragraph, read line after line,
/// holds every word of the paragraph's inlines, in order: layout loses no
/// word and changes none, whatever the width.
pub proof fn lemma_wrapped_holds_words(
    inlines: Seq<InlineView>,
    max_width: u16,
    theme: Theme,
    y_offset: u16,
    inline_images: bool,
)
    ensures
        ({
            let lines = wrapped(inlines, max_width, theme, y_offset, inline_images).finish();
            embeds(lines_text(lines, lines.len() as int), inlines_words(inlines, inlines.len() as int))
        }),
{
    let start = WrapState::start();
    let end = wrapped(inlines, max_width, theme, y_offset, inline_images);
    lemma_inlines_text(
        start,
        inlines,
        inlines.len() as int,
        max_width,
        super::types::plain_style(),
        None,
        theme,
        y_offset,
        inline_images,
    );
    assert(state_text(end).skip(0) =~= state_text(end));
    let lines = end.finish();
    if end.cur.len() > 0 {
        lemma_flush_text(end);
    } else {
        if end.lines.len() == 0 {
            assert(lines_text(lines, 0) =~= Seq::<char>::empty());
        }
    }
}

proof fn lemma_embeds_none(hay: Seq<char>)
    ensures
        embeds(hay, Seq::empty()),
{
    reveal_with_fuel(embeds, 1);
}

proof fn lemma_embeds_push(hay: Seq<char>, tokens: Seq<Seq<char>>, w: Seq<char>)
    requires
        embeds(hay, tokens),
    ensures
        embeds(hay + w, tokens.push(w)),
{
    lemma_grown_by(Seq::empty(), Seq::empty(), w);
    assert(w.skip(0) =~= w);
    lemma_embeds_append(hay, tokens, w, seq![w]);
    assert(tokens + seq![w] =~= tokens.push(w));
}

proof fn lemma_embeds_more(hay: Seq<char>, tokens: Seq<Seq<char>>, x: Seq<char>)
    requires
        embeds(hay, tokens),
    ensures
        embeds(hay + x, tokens),
{
    lemma_embeds_none(x);
    lemma_embeds_append(hay, tokens, x, Seq::empty());
}

proof fn lemma_scan_words(s: Seq<char>, n: int)
    requires
        0 <= n <= s.len(),
    ensures
        ({
            let sc = scan_words(s, n);
            &&& sc.cur.len() <= n
            &&& sc.cur == s.subrange(n - sc.cur.len(), n)
            &&& embeds(s.take(n - sc.cur.len()), sc.done)
        }),
    decreases n,
{
    if n == 0 {
        lemma_embeds_none(s.take(0));
    } else {
        lemma_scan_words(s, n - 1);
        let prev = scan_words(s, n - 1);
        let c = s[n - 1];
        let read = s.take(n - 1 - prev.cur.len());
        if is_space(c) {
            if prev.cur.len() > 0 {
                lemma_embeds_push(read, prev.done, prev.cur);
                lemma_embeds_more(read + prev.cur, prev.done.push(prev.cur), seq![c]);
                assert(s.take(n) =~= read + prev.cur + seq![c]);
            } else {
                lemma_embeds_more(read, prev.done, seq![c]);
                assert(s.take(n) =~= read + seq![c]);
            }
        }
    }
}

/// A text holds its words in order.
pub proof fn lemma_text_holds_words(s: Seq<char>)
    ensures
        embeds(s, words_of(s)),
{
    lemma_scan_words(s, s.len() as int);
    let end = scan_words(s, s.len() as int);
    let read = s.take(s.len() - end.cur.len());
    if end.cur.len() > 0 {
        lemma_embeds_push(read, end.done, end.cur);
        assert(read + end.cur =~= s);
    }
}

/// The plain text of an inline holds the inline's words in order.
pub proof fn lemma_plain_text_holds_words(i: InlineView)
    ensures
        embeds(plain_text(i), inline_words(i)),
    decreases i,
{
    match i {
        InlineView::Text(t) => lemma_text_holds_words(t),
        InlineView::Strong(v) => lemma_plain_texts_hold_words(v, v.len() as int),
        InlineView::Emphasis(v) => lemma_plain_texts_hold_words(v, v.len() as int),
        InlineView::Strikethrough(v) => lemma_plain_texts_hold_words(v, v.len() as int),
        InlineView::Code(c) => lemma_text_holds_words(c),
        InlineView::Link { url, title, text } => lemma_plain_texts_hold_words(
            text,
            text.len() as int,
        ),
        _ => lemma_embeds_none(plain_text(i)),
    }
}

/// The plain text of inlines holds their words in order.
pub proof fn lemma_plain_texts_hold_words(v: Seq<InlineView>, n: int)
    ensures
        embeds(plain_text_of(v, n), inlines_words(v, n)),
    decreases v, n,
{
    if n <= 0 || n > v.len() {
        lemma_embeds_none(plain_text_of(v, n));
    } else {
        lemma_plain_texts_hold_words(v, n - 1);
        lemma_plain_text_holds_words(v[n - 1]);
        lemma_embeds_append(
            plain_text_of(v, n - 1),
            inlines_words(v, n - 1),
            plain_text(v[n - 1]),
            inline_words(v[n - 1]),
        );
    }
}

/// The text that a node itself shows: a heading's text, a paragraph's
/// lines one after the other.
pub open spec fn own_text(node: NodeView) -> Seq<char> {
    match node.element {
        ElementView::Heading { level, text } => text,
        ElementView::Paragraph { lines } => lines_text(lines, lines.len() as int),
        _ => Seq::empty(),
    }
}

/// The text of the headings and paragraphs in `node` and below it, in
/// pre-order.
pub open spec fn tree_text(node: NodeView) -> Seq<char>
    decreases node,
{
    own_text(node) + nodes_text(node.children, node.children.len() as int)
}

/// The text of the headings and paragraphs in the first `n` of `nodes` and
/// below them, in pre-order.
pub open spec fn nodes_text(nodes: Seq<NodeView>, n: int) -> Seq<char>
    decreases nodes, n,
{
    if n <= 0 || n > nodes.len() {
        Seq::empty()
    } else {
        nodes_text(nodes, n - 1) + tree_text(nodes[n - 1])
    }
}

/// The words in the cells of the first `n` cells of a row.
pub open spec fn cells_words(cells: Seq<Seq<InlineView>>, n: int) -> Seq<Seq<char>>
    decreases n,
{
    if n <= 0 || n > cells.len() {
        Seq::empty()
    } else {
        cells_words(cells, n - 1) + inlines_words(cells[n - 1], cells[n - 1].len() as int)
    }
}

/// The words in the first `n` rows of a table body.
pub open spec fn rows_words(rows: Seq<Seq<Seq<InlineView>>>, n: int) -> Seq<Seq<char>>
    decreases n,
{
    if n <= 0 || n > rows.len() {
        Seq::empty()
    } else {
        rows_words(rows, n - 1) + cells_words(rows[n - 1], rows[n - 1].len() as int)
    }
}

/// The words of a block's inline content, in document order. Code blocks
/// hold code, not words.
pub open spec fn block_words(b: BlockView) -> Seq<Seq<char>>
    decreases b,
{
    match b {
        BlockView::Heading { level, content } => inlines_words(content, content.len() as int),
        BlockView::Paragraph { content } => inlines_words(content, content.len() as int),
        BlockView::CodeBlock { .. } => Seq::empty(),
        BlockView::BlockQuote { blocks } => blocks_words(blocks, blocks.len() as int),
        BlockView::List { ordered, start, items } => items_words(items, items.len() as int),
        BlockView::Table { headers, rows, alignment } => cells_words(headers, headers.len() as int)
            + rows_words(rows, rows.len() as int),
        BlockView::HorizontalRule => Seq::empty(),
        BlockView::Callout { kind, title, content } => blocks_words(content, content.len() as int),
    }
}

/// The words of the first `n` of `blocks`, in document order.
pub open spec fn blocks_words(blocks: Seq<BlockView>, n: int) -> Seq<Seq<char>>
    decreases blocks, n,
{
    if n <= 0 || n > blocks.len() {
        Seq::empty()
    } else {
        blocks_words(blocks, n - 1) + block_words(blocks[n - 1])
    }
}

/// The words of the first `n` items of a list, in document order.
pub open spec fn items_words(items: Seq<ListItemView>, n: int) -> Seq<Seq<char>>
    decreases items, n,
{
    if n <= 0 || n > items.len() {
        Seq::empty()
    } else {
        items_words(items, n - 1) + blocks_words(
            items[n - 1].content,
            items[n - 1].content.len() as int,
        )
    }
}

proof fn lemma_nodes_text_prefix(nodes: Seq<NodeView>, x: NodeView, n: int)
    requires
        0 <= n <= nodes.len(),
    ensures
        nodes_text(nodes.push(x), n) == nodes_text(nodes, n),
    decreases n,
{
    if n > 0 {
        lemma_nodes_text_prefix(nodes, x, n - 1);
    }
}

proof fn lemma_nodes_text_push(nodes: Seq<NodeView>, x: NodeView)
    ensures
        nodes_text(nodes.push(x), nodes.push(x).len() as int) == nodes_text(
            nodes,
            nodes.len() as int,
        ) + tree_text(x),
{
    lemma_nodes_text_prefix(nodes, x, nodes.len() as int);
}

proof fn lemma_image_nodes_text(
    hints: Seq<super::text::PlacementView>,
    n: int,
    x: u16,
    y: u16,
    width: u16,
    counter: usize,
)
    ensures
        nodes_text(
            image_nodes(hints, n, x, y, width, counter).0,
            image_nodes(hints, n, x, y, width, counter).0.len() as int,
        ) == Seq::<char>::empty(),
    decreases n,
{
    if 0 < n <= hints.len() {
        lemma_image_nodes_text(hints, n - 1, x, y, width, counter);
        let prev = image_nodes(hints, n - 1, x, y, width, counter);
        let all = image_nodes(hints, n, x, y, width, counter);
        let last = all.0.last();
        lemma_nodes_text_push(prev.0, last);
    }
}

proof fn lemma_cells_text(
    cells: Seq<Seq<InlineView>>,
    n: int,
    widths: Seq<u16>,
    x: u16,
    y: u16,
    theme: Theme,
    inline_images: bool,
    acc: Acc,
)
    requires
        0 <= n <= cells.len(),
    ensures
        ({
            let f = place_cells(cells, n, widths, x, y, theme, inline_images, acc);
            embeds(nodes_text(f.nodes, f.nodes.len() as int), cells_words(cells, n))
        }),
    decreases n,
{
    if n == 0 {
        lemma_embeds_none(Seq::empty());
    } else {
        lemma_cells_text(cells, n - 1, widths, x, y, theme, inline_images, acc);
        let prev = place_cells(cells, n - 1, widths, x, y, theme, inline_images, acc);
        let f = place_cells(cells, n, widths, x, y, theme, inline_images, acc);
        let cell = f.nodes.last();
        let padding = theme.blocks.table.padding;
        let both = sat_add(padding, padding);
        let cell_width = if n - 1 < widths.len() {
            widths[n - 1]
        } else {
            super::engine::EXTRA_CELL_WIDTH
        };
        let content_width = sat_sub(cell_width, both);
        lemma_wrapped_holds_words(
            cells[n - 1],
            content_width,
            theme,
            sat_add(y, padding),
            inline_images,
        );
        let paragraph = cell.children[0];
        assert(tree_text(paragraph) =~= own_text(paragraph));
        assert(nodes_text(cell.children, 0) =~= Seq::<char>::empty());
        lemma_nodes_text_push(prev.nodes, cell);
        lemma_embeds_append(
            nodes_text(prev.nodes, prev.nodes.len() as int),
            cells_words(cells, n - 1),
            tree_text(cell),
            inlines_words(cells[n - 1], cells[n - 1].len() as int),
        );
    }
}

proof fn lemma_row_text(
    cells: Seq<Seq<InlineView>>,
    widths: Seq<u16>,
    x: u16,
    y: u16,
    table_width: u16,
    theme: Theme,
    inline_images: bool,
    is_header: bool,
    acc: Acc,
)
    ensures
        embeds(
            tree_text(
                place_row(cells, widths, x, y, table_width, theme, inline_images, is_header, acc).node,
            ),
            cells_words(cells, cells.len() as int),
        ),
{
    let id = next_id(acc.counter);
    lemma_cells_text(
        cells,
        cells.len() as int,
        widths,
        x,
        y,
        theme,
        inline_images,
        Acc { counter: id, ..acc },
    );
}

proof fn lemma_rows_text(
    rows: Seq<Seq<Seq<InlineView>>>,
    n: int,
    widths: Seq<u16>,
    x: u16,
    y: u16,
    table_width: u16,
    theme: Theme,
    inline_images: bool,
    nodes: Seq<NodeView>,
    words: Seq<Seq<char>>,
    acc: Acc,
)
    requires
        0 <= n <= rows.len(),
        embeds(nodes_text(nodes, nodes.len() as int), words),
    ensures
        ({
            let f = place_rows(rows, n, widths, x, y, table_width, theme, inline_images, nodes, acc);
            embeds(nodes_text(f.nodes, f.nodes.len() as int), words + rows_words(rows, n))
        }),
    decreases n,
{
    if n != 0 {
        lemma_rows_text(
            rows,
            n - 1,
            widths,
            x,
            y,
            table_width,
            theme,
            inline_images,
            nodes,
            words,
            acc,
        );
        let prev = place_rows(
            rows,
            n - 1,
            widths,
            x,
            y,
            table_width,
            theme,
            inline_images,
            nodes,
            acc,
        );
        let row = place_row(
            rows[n - 1],
            widths,
            x,
            prev.y,
            table_width,
            theme,
            inline_images,
            false,
            prev.acc,
        );
        lemma_row_text(rows[n - 1], widths, x, prev.y, table_width, theme, inline_images, false, prev.acc);
        lemma_nodes_text_push(prev.nodes, row.node);
        lemma_embeds_append(
            nodes_text(prev.nodes, prev.nodes.len() as int),
            words + rows_words(rows, n - 1),
            tree_text(row.node),
            cells_words(rows[n - 1], rows[n - 1].len() as int),
        );
        assert(words + rows_words(rows, n - 1) + cells_words(rows[n - 1], rows[n - 1].len() as int)
            =~= words + rows_words(rows, n));
    }
}

proof fn lemma_table_text(
    headers: Seq<Seq<InlineView>>,
    rows: Seq<Seq<Seq<InlineView>>>,
    x: u16,
    y: u16,
    width: u16,
    theme: Theme,
    inline_images: bool,
    acc: Acc,
)
    ensures
        embeds(
            tree_text(place_table(headers, rows, x, y, width, theme, inline_images, acc).node),
            cells_words(headers, headers.len() as int) + rows_words(rows, rows.len() as int),
        ),
{
    reveal(place_table);
    let widths = super::engine::column_widths(headers, rows, theme.blocks.table.padding, width);
    let table_width = super::types::clamp_u16(
        super::engine::widths_sum(widths, widths.len() as int),
    );
    let head_words = cells_words(headers, headers.len() as int);
    let head = if headers.len() > 0 {
        let row = place_row(headers, widths, x, y, table_width, theme, inline_images, true, acc);
        lemma_row_text(headers, widths, x, y, table_width, theme, inline_images, true, acc);
        let nodes = seq![row.node];
        assert(nodes_text(nodes, 0) =~= Seq::<char>::empty());
        Flow { nodes, y: sat_add(y, row.node.rect.height), acc: row.acc }
    } else {
        lemma_embeds_none(Seq::empty());
        Flow { nodes: Seq::empty(), y, acc }
    };
    lemma_rows_text(
        rows,
        rows.len() as int,
        widths,
        x,
        head.y,
        table_width,
        theme,
        inline_images,
        head.nodes,
        head_words,
        head.acc,
    );
}

/// The text of a block's layout holds the block's words in order.
pub proof fn lemma_block_text(
    b: BlockView,
    x: u16,
    y: u16,
    width: u16,
    theme: Theme,
    inline_images: bool,
    acc: Acc,
)
    ensures
        embeds(
            tree_text(place_block(b, x, y, width, theme, inline_images, acc).node),
            block_words(b),
        ),
    decreases b,
{
    let id = next_id(acc.counter);
    let own = Acc { counter: id, ..acc };
    let node = place_block(b, x, y, width, theme, inline_images, acc).node;
    match b {
        BlockView::Heading { level, content } => {
            reveal(place_heading);
            lemma_plain_texts_hold_words(content, content.len() as int);
        },
        BlockView::Paragraph { content } => {
            reveal(place_paragraph);
            lemma_wrapped_holds_words(content, width, theme, y, inline_images);
            let text = wrapped(content, width, theme, y, inline_images);
            lemma_image_nodes_text(text.hints, text.hints.len() as int, x, y, width, id);
        },
        BlockView::CodeBlock { lang, code } => {
            reveal(place_code_block);
            lemma_embeds_none(tree_text(node));
        },
        BlockView::BlockQuote { blocks } => {
            let indent = theme.spacing.blockquote_indent;
            lemma_blocks_text(
                blocks,
                blocks.len() as int,
                sat_add(x, indent),
                y,
                sat_sub(width, indent),
                theme,
                inline_images,
                false,
                own,
            );
        },
        BlockView::List { ordered, start, items } => {
            let gap = sat_add(super::engine::marker_width(ordered, start, items.len() as int), 1);
            lemma_items_text(
                items,
                items.len() as int,
                ordered,
                start,
                x,
                y,
                width,
                gap,
                theme,
                inline_images,
                own,
            );
        },
        BlockView::Table { headers, rows, alignment } => {
            lemma_table_text(headers, rows, x, y, width, theme, inline_images, own);
        },
        BlockView::HorizontalRule => {
            lemma_embeds_none(tree_text(node));
        },
        BlockView::Callout { kind, title, content } => {
            lemma_blocks_text(
                content,
                content.len() as int,
                sat_add(x, super::engine::CALLOUT_INDENT),
                y,
                sat_sub(width, super::engine::CALLOUT_INDENT),
                theme,
                inline_images,
                false,
                own,
            );
        },
    }
}

/// The text of a flow of blocks holds the blocks' words in order.
pub proof fn lemma_blocks_text(
    blocks: Seq<BlockView>,
    n: int,
    x: u16,
    y: u16,
    width: u16,
    theme: Theme,
    inline_images: bool,
    tight: bool,
    acc: Acc,
)
    requires
        0 <= n <= blocks.len(),
    ensures
        ({
            let f = place_blocks(blocks, n, x, y, width, theme, inline_images, tight, acc);
            embeds(nodes_text(f.nodes, f.nodes.len() as int), blocks_words(blocks, n))
        }),
    decreases blocks, n,
{
    if n == 0 {
        lemma_embeds_none(Seq::empty());
    } else {
        lemma_blocks_text(blocks, n - 1, x, y, width, theme, inline_images, tight, acc);
        let prev = place_blocks(blocks, n - 1, x, y, width, theme, inline_images, tight, acc);
        let b = blocks[n - 1];
        let top = sat_add(prev.y, margin_top(b, theme));
        let placed = place_block(b, x, top, width, theme, inline_images, prev.acc);
        lemma_block_text(b, x, top, width, theme, inline_images, prev.acc);
        lemma_nodes_text_push(prev.nodes, placed.node);
        lemma_embeds_append(
            nodes_text(prev.nodes, prev.nodes.len() as int),
            blocks_words(blocks, n - 1),
            tree_text(placed.node),
            block_words(b),
        );
    }
}

/// The text of the items of a list holds the items' words in order.
pub proof fn lemma_items_text(
    items: Seq<ListItemView>,
    n: int,
    ordered: bool,
    start: usize,
    x: u16,
    y: u16,
    width: u16,
    gap: u16,
    theme: Theme,
    inline_images: bool,
    acc: Acc,
)
    requires
        0 <= n <= items.len(),
    ensures
        ({
            let f = place_items(
                items,
                n,
                ordered,
                start,
                x,
                y,
                width,
                gap,
                theme,
                inline_images,
                acc,
            );
            embeds(nodes_text(f.nodes, f.nodes.len() as int), items_words(items, n))
        }),
    decreases items, n,
{
    if n == 0 {
        lemma_embeds_none(Seq::empty());
    } else {
        lemma_items_text(items, n - 1, ordered, start, x, y, width, gap, theme, inline_images, acc);
        let prev = place_items(
            items,
            n - 1,
            ordered,
            start,
            x,
            y,
            width,
            gap,
            theme,
            inline_images,
            acc,
        );
        let item = items[n - 1];
        let id = next_id(prev.acc.counter);
        lemma_blocks_text(
            item.content,
            item.content.len() as int,
            sat_add(x, gap),
            prev.y,
            sat_sub(width, gap),
            theme,
            inline_images,
            true,
            Acc { counter: id, ..prev.acc },
        );
        let f = place_items(items, n, ordered, start, x, y, width, gap, theme, inline_images, acc);
        let node = f.nodes.last();
        lemma_nodes_text_push(prev.nodes, node);
        lemma_embeds_append(
            nodes_text(prev.nodes, prev.nodes.len() as int),
            items_words(items, n - 1),
            tree_text(node),
            blocks_words(item.content, item.content.len() as int),
        );
    }
}

/// The text of a document's layout, read heading by heading and line by
/// line in document order, holds every word of the document's inline
/// content, in order.
pub proof fn lemma_layout_holds_words(
    doc: DocumentView,
    theme: Theme,
    viewport: Viewport,
    inline_images: bool,
)
    ensures
        embeds(
            tree_text(place_document(doc, theme, viewport, inline_images).root),
            blocks_words(doc.blocks, doc.blocks.len() as int),
        ),
{
    lemma_blocks_text(
        doc.blocks,
        doc.blocks.len() as int,
        0,
        0,
        viewport.width,
        theme,
        inline_images,
        false,
        Acc { counter: 0, hits: Seq::empty(), images: Seq::empty() },
    );
}

} // verus!
