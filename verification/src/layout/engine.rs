//! The block layout engine.
//!
//! `place_document` and the `place_*` functions below it say, over the
//! models of the IR and of the layout tree, where every block of a document
//! goes; `layout_document` is proved to compute exactly that tree.
//! Coordinates and sizes are `u16` and saturate: a sum that does not fit is
//! `u16::MAX`, a difference below zero is 0.

use super::text::{layout_inlines, sat_add, sat_sub, wrapped, PlacementView};
use super::types::{
    clamp_u16, default_style, hits_view, images_view, lemma_hits_view_push, lemma_nodes_view_push,
    lemma_strings_view_push, nodes_view, strings_view, usize_to_u16, ComputedStyle, ElementView,
    HitElement, HitElementView, HitRegion, HitRegionView, ImageReference, ImageView,
    LayoutElement, LayoutNode, LayoutTree, NodeId, NodeView, Rectangle, TreeView, Viewport,
};
use crate::ir::{
    blocks_view, cells_view, clone_opt_string, inlines_view, items_view, opt_view, plain_text_all,
    push_plain_text_all, push_str_chars, rows_view, Block, BlockView, CalloutKind, Document,
    DocumentView, Inline, InlineView, ListItem, ListItemView, TableCell,
};
use crate::text::{
    chars_of, decimal_len, decimal_of, lines_of, lower_char, push_decimal, split_lines, string_of,
    to_lower_char, words_view,
};
use crate::theme::Theme;
use vstd::prelude::*;

verus! {

/// Rows given to an image that is placed inline.
pub const IMAGE_ROWS: u16 = 12;

/// Width that an image counts for in a table cell.
pub const IMAGE_CELL_WIDTH: u16 = 8;

/// Least width of a table column.
pub const MIN_COLUMN_WIDTH: u16 = 3;

/// Width of a cell that stands beyond the table's columns.
pub const EXTRA_CELL_WIDTH: u16 = 10;

/// Width of the icon column of a callout.
pub const CALLOUT_INDENT: u16 = 2;

/// What a layout pass has produced besides nodes: the last node identifier
/// given out, the hit regions and the image references, in document order.
pub struct Acc {
    pub counter: NodeId,
    pub hits: Seq<HitRegionView>,
    pub images: Seq<ImageView>,
}

/// A laid-out block, with what the pass has produced up to and with it.
pub struct Placed {
    pub node: NodeView,
    pub acc: Acc,
}

/// Laid-out blocks in flow, with the cursor below the last of them.
pub struct Flow {
    pub nodes: Seq<NodeView>,
    pub y: u16,
    pub acc: Acc,
}

/// The identifier after `c`.
pub open spec fn next_id(c: NodeId) -> NodeId {
    if c < usize::MAX {
        (c + 1) as usize
    } else {
        c
    }
}

/// The larger of two numbers.
pub open spec fn max_u16(a: u16, b: u16) -> u16 {
    if a >= b {
        a
    } else {
        b
    }
}

/// A node without children, in the default style.
pub open spec fn leaf(id: NodeId, rect: Rectangle, element: ElementView) -> NodeView {
    NodeView { id, rect, element, children: Seq::empty(), style: default_style() }
}

/// Margin above a block: that of the theme for a heading, none otherwise.
pub open spec fn margin_top(b: BlockView, theme: Theme) -> u16 {
    match b {
        BlockView::Heading { .. } => theme.spacing.heading_margin_top,
        _ => 0,
    }
}

/// Margin below a block. In a list item (`tight`) paragraphs have none.
pub open spec fn margin_bottom(b: BlockView, theme: Theme, tight: bool) -> u16 {
    match b {
        BlockView::Heading { .. } => theme.spacing.heading_margin_bottom,
        BlockView::Paragraph { .. } => if tight {
            0
        } else {
            theme.spacing.paragraph_spacing
        },
        BlockView::CodeBlock { .. } => 1,
        BlockView::BlockQuote { .. } => 1,
        BlockView::Table { .. } => 1,
        BlockView::List { .. } => 0,
        BlockView::HorizontalRule => 0,
        BlockView::Callout { .. } => 0,
    }
}

/// Anchor text of a heading: lowercase, with `-` for each space.
pub open spec fn slug(text: Seq<char>) -> Seq<char> {
    Seq::new(
        text.len(),
        |i: int|
            if text[i] == ' ' {
                '-'
            } else {
                lower_char(text[i])
            },
    )
}

/// Identifier of a heading's hit region: `h`, the level, `-`, the slug.
pub open spec fn heading_id(level: u8, text: Seq<char>) -> Seq<char> {
    "h"@ + decimal_of(level as nat) + "-"@ + slug(text)
}

/// Sum of the heights of the first `n` nodes.
pub open spec fn heights_sum(nodes: Seq<NodeView>, n: int) -> u16
    decreases n,
{
    if n <= 0 || n > nodes.len() {
        0
    } else {
        sat_add(heights_sum(nodes, n - 1), nodes[n - 1].rect.height)
    }
}

/// Lowest row below any of the first `n` nodes.
pub open spec fn max_bottom(nodes: Seq<NodeView>, n: int) -> u16
    decreases n,
{
    if n <= 0 || n > nodes.len() {
        0
    } else {
        max_u16(max_bottom(nodes, n - 1), sat_add(nodes[n - 1].rect.y, nodes[n - 1].rect.height))
    }
}

/// Image nodes for the first `n` placements of a paragraph at `(x, y)`:
/// each below the line that it follows, as wide as the paragraph.
pub open spec fn image_nodes(
    hints: Seq<PlacementView>,
    n: int,
    x: u16,
    y: u16,
    width: u16,
    counter: NodeId,
) -> (Seq<NodeView>, NodeId)
    decreases n,
{
    if n <= 0 || n > hints.len() {
        (Seq::empty(), counter)
    } else {
        let prev = image_nodes(hints, n - 1, x, y, width, counter);
        let h = hints[n - 1];
        let id = next_id(prev.1);
        let rect = Rectangle {
            x,
            y: sat_add(sat_add(y, clamp_u16(h.line_index as int)), 1),
            width,
            height: IMAGE_ROWS,
        };
        (prev.0.push(leaf(id, rect, ElementView::Image { path: h.url, alt_text: h.alt })), id)
    }
}

/// Height of a paragraph with `n` images below its lines.
pub open spec fn with_images(height: u16, n: int) -> u16
    decreases n,
{
    if n <= 0 {
        height
    } else {
        sat_add(with_images(height, n - 1), IMAGE_ROWS)
    }
}

/// Number that the marker of item `i` of an ordered list shows.
pub open spec fn item_number(start: usize, i: int) -> usize {
    if start + i > usize::MAX {
        usize::MAX
    } else if i < 0 {
        start
    } else {
        (start + i) as usize
    }
}

/// Marker of item `i`: its number and `. `, or a bullet and a space.
pub open spec fn marker_text(ordered: bool, start: usize, i: int) -> Seq<char> {
    if ordered {
        decimal_of(item_number(start, i) as nat) + ". "@
    } else {
        "• "@
    }
}

/// Cells that the widest marker of a list takes: the digits of the last
/// number and the dot, or one for a bullet.
pub open spec fn marker_width(ordered: bool, start: usize, count: int) -> u16 {
    if ordered {
        clamp_u16((decimal_of(item_number(start, count - 1) as nat).len() + 1) as int)
    } else {
        1
    }
}

/// Height of a list item with the children `nodes`: from the top of the
/// first to the bottom of the last, or 1 without children.
pub open spec fn item_height(nodes: Seq<NodeView>) -> u16 {
    if nodes.len() == 0 {
        1
    } else {
        sat_sub(sat_add(nodes.last().rect.y, nodes.last().rect.height), nodes[0].rect.y)
    }
}

/// Characters that an inline takes in a table cell: text and code as they
/// are, an image 8, a break none, the content of anything else summed.
pub open spec fn inline_len(i: InlineView) -> int
    decreases i,
{
    match i {
        InlineView::Text(s) => s.len() as int,
        InlineView::Strong(v) => inlines_len(v, v.len() as int),
        InlineView::Emphasis(v) => inlines_len(v, v.len() as int),
        InlineView::Strikethrough(v) => inlines_len(v, v.len() as int),
        InlineView::Code(s) => s.len() as int,
        InlineView::Link { url, title, text } => inlines_len(text, text.len() as int),
        InlineView::Image { url, alt, title } => IMAGE_CELL_WIDTH as int,
        InlineView::LineBreak => 0,
        InlineView::SoftBreak => 0,
    }
}

/// Characters that the first `n` inlines of `v` take in a table cell.
pub open spec fn inlines_len(v: Seq<InlineView>, n: int) -> int
    decreases v, n,
{
    if n <= 0 || n > v.len() {
        0
    } else {
        inlines_len(v, n - 1) + inline_len(v[n - 1])
    }
}

/// Characters that a cell's content takes.
pub open spec fn cell_len(cell: Seq<InlineView>) -> int {
    inlines_len(cell, cell.len() as int)
}

/// Longest content in column `c` among the first `n` rows.
pub open spec fn rows_max_len(rows: Seq<Seq<Seq<InlineView>>>, n: int, c: int) -> int
    decreases n,
{
    if n <= 0 || n > rows.len() {
        0
    } else {
        let prev = rows_max_len(rows, n - 1, c);
        let here = if 0 <= c < rows[n - 1].len() {
            cell_len(rows[n - 1][c])
        } else {
            0
        };
        if here > prev {
            here
        } else {
            prev
        }
    }
}

/// Natural width of column `c`: its longest content, header included, and
/// the padding on both sides; at least 3.
pub open spec fn natural_width(
    headers: Seq<Seq<InlineView>>,
    rows: Seq<Seq<Seq<InlineView>>>,
    c: int,
    padding: u16,
) -> u16 {
    let head = if 0 <= c < headers.len() {
        cell_len(headers[c])
    } else {
        0
    };
    let body = rows_max_len(rows, rows.len() as int, c);
    let longest = if head > body {
        head
    } else {
        body
    };
    max_u16(MIN_COLUMN_WIDTH, clamp_u16(longest + 2 * padding))
}

/// Number of columns of a table: that of its header or of its first row,
/// whichever is larger.
pub open spec fn column_count(headers: Seq<Seq<InlineView>>, rows: Seq<Seq<Seq<InlineView>>>) -> int {
    let first = if rows.len() > 0 {
        rows[0].len() as int
    } else {
        0
    };
    if headers.len() > first {
        headers.len() as int
    } else {
        first
    }
}

/// Sum of the first `n` widths.
pub open spec fn widths_sum(widths: Seq<u16>, n: int) -> int
    decreases n,
{
    if n <= 0 || n > widths.len() {
        0
    } else {
        widths_sum(widths, n - 1) + widths[n - 1]
    }
}

/// A natural width, scaled to a table of `available` cells where the natural
/// widths, `total` together, do not fit; at least 3.
pub open spec fn scaled_width(natural: u16, available: u16, total: int) -> u16 {
    if total > available && total > 0 {
        max_u16(MIN_COLUMN_WIDTH, clamp_u16((natural * available) / total))
    } else {
        natural
    }
}

/// Natural widths of the columns of a table.
pub open spec fn natural_widths(
    headers: Seq<Seq<InlineView>>,
    rows: Seq<Seq<Seq<InlineView>>>,
    padding: u16,
) -> Seq<u16> {
    Seq::new(
        column_count(headers, rows) as nat,
        |c: int| natural_width(headers, rows, c, padding),
    )
}

/// Widths of the columns of a table in `available` cells.
pub open spec fn column_widths(
    headers: Seq<Seq<InlineView>>,
    rows: Seq<Seq<Seq<InlineView>>>,
    padding: u16,
    available: u16,
) -> Seq<u16> {
    let natural = natural_widths(headers, rows, padding);
    let total = widths_sum(natural, natural.len() as int);
    Seq::new(natural.len(), |c: int| scaled_width(natural[c], available, total))
}

/// Result of laying out cells of a row: the cell nodes, the column after
/// the last cell, the height of the highest cell.
pub struct RowFlow {
    pub nodes: Seq<NodeView>,
    pub x: u16,
    pub height: u16,
    pub acc: Acc,
}

/// Lays out the first `n` cells of a row at row `y`, from column `x` on.
/// Each cell holds one paragraph, inset by the padding on all sides.
pub open spec fn place_cells(
    cells: Seq<Seq<InlineView>>,
    n: int,
    widths: Seq<u16>,
    x: u16,
    y: u16,
    theme: Theme,
    inline_images: bool,
    acc: Acc,
) -> RowFlow
    decreases n,
{
    if n <= 0 || n > cells.len() {
        RowFlow { nodes: Seq::empty(), x, height: 1, acc }
    } else {
        let prev = place_cells(cells, n - 1, widths, x, y, theme, inline_images, acc);
        let padding = theme.blocks.table.padding;
        let both = sat_add(padding, padding);
        let cell_width = if n - 1 < widths.len() {
            widths[n - 1]
        } else {
            EXTRA_CELL_WIDTH
        };
        let content_width = sat_sub(cell_width, both);
        let content_y = sat_add(y, padding);
        let cell_id = next_id(prev.acc.counter);
        let text = wrapped(cells[n - 1], content_width, theme, content_y, inline_images);
        let lines = text.finish();
        let text_height = clamp_u16(lines.len() as int);
        let cell_height = sat_add(text_height, both);
        let paragraph = leaf(
            next_id(cell_id),
            Rectangle {
                x: sat_add(prev.x, padding),
                y: content_y,
                width: content_width,
                height: text_height,
            },
            ElementView::Paragraph { lines },
        );
        let cell = NodeView {
            id: cell_id,
            rect: Rectangle { x: prev.x, y, width: cell_width, height: cell_height },
            element: ElementView::TableCell,
            children: seq![paragraph],
            style: default_style(),
        };
        RowFlow {
            nodes: prev.nodes.push(cell),
            x: sat_add(prev.x, cell_width),
            height: max_u16(prev.height, cell_height),
            acc: Acc {
                counter: next_id(cell_id),
                hits: prev.acc.hits,
                images: prev.acc.images + text.images,
            },
        }
    }
}

/// Lays out one row of a table `table_width` wide.
pub open spec fn place_row(
    cells: Seq<Seq<InlineView>>,
    widths: Seq<u16>,
    x: u16,
    y: u16,
    table_width: u16,
    theme: Theme,
    inline_images: bool,
    is_header: bool,
    acc: Acc,
) -> Placed {
    let id = next_id(acc.counter);
    let row = place_cells(
        cells,
        cells.len() as int,
        widths,
        x,
        y,
        theme,
        inline_images,
        Acc { counter: id, ..acc },
    );
    Placed {
        node: NodeView {
            id,
            rect: Rectangle { x, y, width: table_width, height: row.height },
            element: ElementView::TableRow { is_header },
            children: row.nodes,
            style: default_style(),
        },
        acc: row.acc,
    }
}

/// Lays out the first `n` body rows of a table, one below the other.
pub open spec fn place_rows(
    rows: Seq<Seq<Seq<InlineView>>>,
    n: int,
    widths: Seq<u16>,
    x: u16,
    y: u16,
    table_width: u16,
    theme: Theme,
    inline_images: bool,
    nodes: Seq<NodeView>,
    acc: Acc,
) -> Flow
    decreases n,
{
    if n <= 0 || n > rows.len() {
        Flow { nodes, y, acc }
    } else {
        let prev = place_rows(
            rows,
            n - 1,
            widths,
            x,
            y,
            table_width,
            theme,
            inline_images,
            nodes,
            acc,
        );
        let row = place_row(
            rows[n - 1],
            widths,
            x,
            prev.y,
            table_width,
            theme,
            inline_images,
            false,
            prev.acc,
        );
        Flow {
            nodes: prev.nodes.push(row.node),
            y: sat_add(prev.y, row.node.rect.height),
            acc: row.acc,
        }
    }
}

/// Lays out a table: the header row, if the table has headers, then the
/// body rows. The table's node has the identifier `acc.counter`.
#[verifier::opaque]
pub open spec fn place_table(
    headers: Seq<Seq<InlineView>>,
    rows: Seq<Seq<Seq<InlineView>>>,
    x: u16,
    y: u16,
    width: u16,
    theme: Theme,
    inline_images: bool,
    acc: Acc,
) -> Placed {
    let widths = column_widths(headers, rows, theme.blocks.table.padding, width);
    let table_width = clamp_u16(widths_sum(widths, widths.len() as int));
    let head = if headers.len() > 0 {
        let row = place_row(headers, widths, x, y, table_width, theme, inline_images, true, acc);
        Flow { nodes: seq![row.node], y: sat_add(y, row.node.rect.height), acc: row.acc }
    } else {
        Flow { nodes: Seq::empty(), y, acc }
    };
    let body = place_rows(
        rows,
        rows.len() as int,
        widths,
        x,
        head.y,
        table_width,
        theme,
        inline_images,
        head.nodes,
        head.acc,
    );
    Placed {
        node: NodeView {
            id: acc.counter,
            rect: Rectangle { x, y, width: table_width, height: sat_sub(body.y, y) },
            element: ElementView::Table { column_widths: widths },
            children: body.nodes,
            style: default_style(),
        },
        acc: body.acc,
    }
}

/// Lays out a heading: its content wrapped at the full width, one row per
/// line, and a hit region over it. The node has the identifier
/// `acc.counter`.
#[verifier::opaque]
pub open spec fn place_heading(
    level: u8,
    content: Seq<InlineView>,
    x: u16,
    y: u16,
    width: u16,
    theme: Theme,
    inline_images: bool,
    acc: Acc,
) -> Placed {
    let text = wrapped(content, width, theme, y, inline_images);
    let rect = Rectangle { x, y, width, height: clamp_u16(text.finish().len() as int) };
    let plain = plain_text_all(content);
    Placed {
        node: leaf(acc.counter, rect, ElementView::Heading { level, text: plain }),
        acc: Acc {
            counter: acc.counter,
            hits: acc.hits.push(
                HitRegionView {
                    rect,
                    element: HitElementView::Heading { level, id: heading_id(level, plain) },
                },
            ),
            images: acc.images + text.images,
        },
    }
}

/// Lays out a paragraph: its content wrapped at the full width, one row per
/// line, and twelve rows more for each image that is placed inline, which
/// becomes a child node.
#[verifier::opaque]
pub open spec fn place_paragraph(
    content: Seq<InlineView>,
    x: u16,
    y: u16,
    width: u16,
    theme: Theme,
    inline_images: bool,
    acc: Acc,
) -> Placed {
    let text = wrapped(content, width, theme, y, inline_images);
    let lines = text.finish();
    let images = image_nodes(text.hints, text.hints.len() as int, x, y, width, acc.counter);
    let height = with_images(clamp_u16(lines.len() as int), text.hints.len() as int);
    Placed {
        node: NodeView {
            id: acc.counter,
            rect: Rectangle { x, y, width, height },
            element: ElementView::Paragraph { lines },
            children: images.0,
            style: default_style(),
        },
        acc: Acc { counter: images.1, hits: acc.hits, images: acc.images + text.images },
    }
}

/// Lays out a code block: one row per line of code and the theme's padding
/// above and below, and a hit region over it.
#[verifier::opaque]
pub open spec fn place_code_block(
    lang: Option<Seq<char>>,
    code: Seq<char>,
    x: u16,
    y: u16,
    width: u16,
    theme: Theme,
    acc: Acc,
) -> Placed {
    let lines = lines_of(code);
    let padding = theme.spacing.code_block_padding;
    let height = sat_add(clamp_u16(lines.len() as int), sat_add(padding, padding));
    let rect = Rectangle { x, y, width, height };
    Placed {
        node: leaf(acc.counter, rect, ElementView::CodeBlock { lang, lines }),
        acc: Acc {
            hits: acc.hits.push(HitRegionView { rect, element: HitElementView::CodeBlock { lang } }),
            ..acc
        },
    }
}

/// Lays out a horizontal rule: one row at the full width.
pub open spec fn place_rule(x: u16, y: u16, width: u16, acc: Acc) -> Placed {
    Placed {
        node: leaf(acc.counter, Rectangle { x, y, width, height: 1 }, ElementView::HorizontalRule),
        acc,
    }
}

/// A node that holds the blocks of `inner`, indented.
pub open spec fn container(
    id: NodeId,
    x: u16,
    y: u16,
    width: u16,
    height: u16,
    element: ElementView,
    inner: Flow,
) -> Placed {
    Placed {
        node: NodeView {
            id,
            rect: Rectangle { x, y, width, height },
            element,
            children: inner.nodes,
            style: default_style(),
        },
        acc: inner.acc,
    }
}

/// Lays out one block at `(x, y)`, `width` cells wide. The block's node
/// takes the identifier after `acc.counter`; its descendants follow in
/// pre-order.
pub open spec fn place_block(
    b: BlockView,
    x: u16,
    y: u16,
    width: u16,
    theme: Theme,
    inline_images: bool,
    acc: Acc,
) -> Placed
    decreases b,
{
    let id = next_id(acc.counter);
    let own = Acc { counter: id, ..acc };
    match b {
        BlockView::Heading { level, content } => place_heading(
            level,
            content,
            x,
            y,
            width,
            theme,
            inline_images,
            own,
        ),
        BlockView::Paragraph { content } => place_paragraph(
            content,
            x,
            y,
            width,
            theme,
            inline_images,
            own,
        ),
        BlockView::CodeBlock { lang, code } => place_code_block(lang, code, x, y, width, theme, own),
        BlockView::BlockQuote { blocks } => place_quote(
            blocks,
            x,
            y,
            width,
            theme,
            inline_images,
            own,
        ),
        BlockView::List { ordered, start, items } => place_list(
            ordered,
            start,
            items,
            x,
            y,
            width,
            theme,
            inline_images,
            own,
        ),
        BlockView::Table { headers, rows, alignment } => place_table(
            headers,
            rows,
            x,
            y,
            width,
            theme,
            inline_images,
            own,
        ),
        BlockView::HorizontalRule => place_rule(x, y, width, own),
        BlockView::Callout { kind, title, content } => place_callout(
            kind,
            content,
            x,
            y,
            width,
            theme,
            inline_images,
            own,
        ),
    }
}

/// Lays out a block quote: its blocks in flow, indented by the theme's
/// block quote indent. The quote is as high as its blocks together. The
/// node has the identifier `acc.counter`.
pub open spec fn place_quote(
    blocks: Seq<BlockView>,
    x: u16,
    y: u16,
    width: u16,
    theme: Theme,
    inline_images: bool,
    acc: Acc,
) -> Placed
    decreases blocks, blocks.len() + 1,
{
    let indent = theme.spacing.blockquote_indent;
    let inner = place_blocks(
        blocks,
        blocks.len() as int,
        sat_add(x, indent),
        y,
        sat_sub(width, indent),
        theme,
        inline_images,
        false,
        acc,
    );
    let height = heights_sum(inner.nodes, inner.nodes.len() as int);
    container(acc.counter, x, y, width, height, ElementView::BlockQuote, inner)
}

/// Lays out a callout: its blocks in flow, right of a two-cell icon column.
/// The callout is as high as its blocks together, and at least one row.
pub open spec fn place_callout(
    kind: CalloutKind,
    content: Seq<BlockView>,
    x: u16,
    y: u16,
    width: u16,
    theme: Theme,
    inline_images: bool,
    acc: Acc,
) -> Placed
    decreases content, content.len() + 1,
{
    let inner = place_blocks(
        content,
        content.len() as int,
        sat_add(x, CALLOUT_INDENT),
        y,
        sat_sub(width, CALLOUT_INDENT),
        theme,
        inline_images,
        false,
        acc,
    );
    let height = max_u16(1, heights_sum(inner.nodes, inner.nodes.len() as int));
    container(acc.counter, x, y, width, height, ElementView::Callout { kind }, inner)
}

/// Lays out a list: its items one below the other. The content of every
/// item begins one cell right of the widest marker, so that the items'
/// content is aligned whatever their markers' widths.
pub open spec fn place_list(
    ordered: bool,
    start: usize,
    items: Seq<ListItemView>,
    x: u16,
    y: u16,
    width: u16,
    theme: Theme,
    inline_images: bool,
    acc: Acc,
) -> Placed
    decreases items, items.len() + 1,
{
    let gap = sat_add(marker_width(ordered, start, items.len() as int), 1);
    let inner = place_items(
        items,
        items.len() as int,
        ordered,
        start,
        x,
        y,
        width,
        gap,
        theme,
        inline_images,
        acc,
    );
    container(
        acc.counter,
        x,
        y,
        width,
        sat_sub(inner.y, y),
        ElementView::List { ordered, start },
        inner,
    )
}

/// Lays out the first `n` of `blocks` in flow from row `y` on: each block
/// below the one before it, with its margins above and below.
pub open spec fn place_blocks(
    blocks: Seq<BlockView>,
    n: int,
    x: u16,
    y: u16,
    width: u16,
    theme: Theme,
    inline_images: bool,
    tight: bool,
    acc: Acc,
) -> Flow
    decreases blocks, n,
{
    if n <= 0 || n > blocks.len() {
        Flow { nodes: Seq::empty(), y, acc }
    } else {
        let prev = place_blocks(blocks, n - 1, x, y, width, theme, inline_images, tight, acc);
        let b = blocks[n - 1];
        let top = sat_add(prev.y, margin_top(b, theme));
        let placed = place_block(b, x, top, width, theme, inline_images, prev.acc);
        Flow {
            nodes: prev.nodes.push(placed.node),
            y: sat_add(sat_add(top, placed.node.rect.height), margin_bottom(b, theme, tight)),
            acc: placed.acc,
        }
    }
}

/// Lays out the first `n` items of a list from row `y` on. The content of
/// every item begins `gap` cells right of the list.
pub open spec fn place_items(
    items: Seq<ListItemView>,
    n: int,
    ordered: bool,
    start: usize,
    x: u16,
    y: u16,
    width: u16,
    gap: u16,
    theme: Theme,
    inline_images: bool,
    acc: Acc,
) -> Flow
    decreases items, n,
{
    if n <= 0 || n > items.len() {
        Flow { nodes: Seq::empty(), y, acc }
    } else {
        let prev = place_items(
            items,
            n - 1,
            ordered,
            start,
            x,
            y,
            width,
            gap,
            theme,
            inline_images,
            acc,
        );
        let item = items[n - 1];
        let id = next_id(prev.acc.counter);
        let inner = place_blocks(
            item.content,
            item.content.len() as int,
            sat_add(x, gap),
            prev.y,
            sat_sub(width, gap),
            theme,
            inline_images,
            true,
            Acc { counter: id, ..prev.acc },
        );
        let height = item_height(inner.nodes);
        let node = NodeView {
            id,
            rect: Rectangle { x, y: prev.y, width, height },
            element: ElementView::ListItem {
                marker: marker_text(ordered, start, n - 1),
                task: item.task,
            },
            children: inner.nodes,
            style: default_style(),
        };
        Flow { nodes: prev.nodes.push(node), y: sat_add(prev.y, height), acc: inner.acc }
    }
}

/// The layout of a document in a viewport: its blocks in flow from the top
/// left, `viewport.width` cells wide, below a root node that takes the last
/// identifier and is as high as the lowest of its children reaches.
pub open spec fn place_document(
    doc: DocumentView,
    theme: Theme,
    viewport: Viewport,
    inline_images: bool,
) -> TreeView {
    let flow = place_blocks(
        doc.blocks,
        doc.blocks.len() as int,
        0,
        0,
        viewport.width,
        theme,
        inline_images,
        false,
        Acc { counter: 0, hits: Seq::empty(), images: Seq::empty() },
    );
    TreeView {
        root: NodeView {
            id: next_id(flow.acc.counter),
            rect: Rectangle {
                x: 0,
                y: 0,
                width: viewport.width,
                height: max_bottom(flow.nodes, flow.nodes.len() as int),
            },
            element: ElementView::Document,
            children: flow.nodes,
            style: default_style(),
        },
        viewport,
        hit_regions: flow.acc.hits,
        images: flow.acc.images,
    }
}

/// Running state of a layout pass: the last node identifier given out, the
/// hit regions and the image references found so far.
#[derive(Debug)]
pub struct LayoutCtx {
    pub counter: NodeId,
    pub hit_regions: Vec<HitRegion>,
    pub images: Vec<ImageReference>,
}

impl View for LayoutCtx {
    type V = Acc;

    open spec fn view(&self) -> Acc {
        Acc {
            counter: self.counter,
            hits: hits_view(self.hit_regions@),
            images: images_view(self.images@),
        }
    }
}

impl LayoutCtx {
    /// The state before anything is laid out.
    pub fn new() -> (ctx: LayoutCtx)
        ensures
            ctx@ == (Acc { counter: 0, hits: Seq::empty(), images: Seq::empty() }),
    {
        let ctx = LayoutCtx { counter: 0, hit_regions: Vec::new(), images: Vec::new() };
        assert(ctx@.hits =~= Seq::empty());
        assert(ctx@.images =~= Seq::empty());
        ctx
    }

    /// Gives out the next node identifier.
    pub fn take_id(&mut self) -> (id: NodeId)
        ensures
            id == next_id(old(self).counter),
            final(self)@ == (Acc { counter: id, ..old(self)@ }),
    {
        if self.counter < usize::MAX {
            self.counter = self.counter + 1;
        }
        self.counter
    }

    /// Records a hit region.
    pub fn push_hit(&mut self, rect: Rectangle, element: HitElement)
        ensures
            final(self)@ == (Acc {
                hits: old(self)@.hits.push(HitRegionView { rect, element: element@ }),
                ..old(self)@
            }),
    {
        let region = HitRegion { rect, element };
        proof {
            lemma_hits_view_push(self.hit_regions@, region);
        }
        self.hit_regions.push(region);
    }
}

/// A node in the default style.
fn make_node(id: NodeId, rect: Rectangle, element: LayoutElement, children: Vec<LayoutNode>) -> (n:
    LayoutNode)
    ensures
        n@ == (NodeView {
            id,
            rect,
            element: element@,
            children: nodes_view(children@),
            style: default_style(),
        }),
{
    LayoutNode { id, rect, element, children, style: ComputedStyle::default() }
}

/// A node without children, in the default style.
fn make_leaf(id: NodeId, rect: Rectangle, element: LayoutElement) -> (n: LayoutNode)
    ensures
        n@ == leaf(id, rect, element@),
{
    let children: Vec<LayoutNode> = Vec::new();
    assert(nodes_view(children@) =~= Seq::empty());
    make_node(id, rect, element, children)
}

/// Margin above a block.
pub fn block_margin_top(block: &Block, theme: &Theme) -> (m: u16)
    ensures
        m == margin_top(block@, *theme),
{
    match block {
        Block::Heading { .. } => theme.spacing.heading_margin_top,
        _ => 0,
    }
}

/// Margin below a block; `tight` in a list item.
pub fn block_margin_bottom(block: &Block, theme: &Theme, tight: bool) -> (m: u16)
    ensures
        m == margin_bottom(block@, *theme, tight),
{
    match block {
        Block::Heading { .. } => theme.spacing.heading_margin_bottom,
        Block::Paragraph { .. } => if tight {
            0
        } else {
            theme.spacing.paragraph_spacing
        },
        Block::CodeBlock { .. } => 1,
        Block::BlockQuote { .. } => 1,
        Block::Table { .. } => 1,
        Block::List { .. } => 0,
        Block::HorizontalRule => 0,
        Block::Callout { .. } => 0,
    }
}

/// Identifier of a heading's hit region.
fn heading_id_text(level: u8, plain: &Vec<char>) -> (id: String)
    ensures
        id@ == heading_id(level, plain@),
{
    let mut out: Vec<char> = Vec::new();
    push_str_chars(&mut out, "h");
    push_decimal(&mut out, level as usize);
    push_str_chars(&mut out, "-");
    let ghost head = out@;
    let mut i: usize = 0;
    while i < plain.len()
        invariant
            i <= plain.len(),
            out@ == head + slug(plain@).take(i as int),
        decreases plain.len() - i,
    {
        let c = plain[i];
        let mapped = if c == ' ' {
            '-'
        } else {
            to_lower_char(c)
        };
        out.push(mapped);
        i += 1;
    }
    string_of(&out)
}

/// Lays out a heading under the identifier `ctx.counter`.
pub fn layout_heading(
    level: u8,
    content: &Vec<Inline>,
    x: u16,
    y: u16,
    width: u16,
    theme: &Theme,
    ctx: &mut LayoutCtx,
    inline_images: bool,
) -> (node: LayoutNode)
    ensures
        node@ == place_heading(
            level,
            inlines_view(content@),
            x,
            y,
            width,
            *theme,
            inline_images,
            old(ctx)@,
        ).node,
        final(ctx)@ == place_heading(
            level,
            inlines_view(content@),
            x,
            y,
            width,
            *theme,
            inline_images,
            old(ctx)@,
        ).acc,
{
    reveal(place_heading);    let laid = layout_inlines(content, width, theme, y, &mut ctx.images, inline_images);
    let height = usize_to_u16(laid.lines.len());
    let mut plain: Vec<char> = Vec::new();
    push_plain_text_all(content, &mut plain);
    let text = string_of(&plain);
    let id_text = heading_id_text(level, &plain);
    let rect = Rectangle::new(x, y, width, height);
    ctx.push_hit(rect, HitElement::Heading { level, id: id_text });
    make_leaf(ctx.counter, rect, LayoutElement::Heading { level, text })
}

/// Lays out a paragraph under the identifier `ctx.counter`.
pub fn layout_paragraph(
    content: &Vec<Inline>,
    x: u16,
    y: u16,
    width: u16,
    theme: &Theme,
    ctx: &mut LayoutCtx,
    inline_images: bool,
) -> (node: LayoutNode)
    ensures
        node@ == place_paragraph(
            inlines_view(content@),
            x,
            y,
            width,
            *theme,
            inline_images,
            old(ctx)@,
        ).node,
        final(ctx)@ == place_paragraph(
            inlines_view(content@),
            x,
            y,
            width,
            *theme,
            inline_images,
            old(ctx)@,
        ).acc,
{
    reveal(place_paragraph);    let id = ctx.counter;
    let laid = layout_inlines(content, width, theme, y, &mut ctx.images, inline_images);
    let ghost hints = super::text::placements_view(laid.placements@);
    let mut height = usize_to_u16(laid.lines.len());
    let mut children: Vec<LayoutNode> = Vec::new();
    let mut k: usize = 0;
    while k < laid.placements.len()
        invariant
            k <= laid.placements.len(),
            hints == super::text::placements_view(laid.placements@),
            nodes_view(children@) == image_nodes(hints, k as int, x, y, width, id).0,
            ctx.counter == image_nodes(hints, k as int, x, y, width, id).1,
            height == with_images(clamp_u16(laid.lines@.len() as int), k as int),
            hits_view(ctx.hit_regions@) == hits_view(old(ctx).hit_regions@),
            images_view(ctx.images@) == place_paragraph(
                inlines_view(content@),
                x,
                y,
                width,
                *theme,
                inline_images,
                old(ctx)@,
            ).acc.images,
        decreases laid.placements.len() - k,
    {
        let placement = &laid.placements[k];
        let image_id = ctx.take_id();
        let image_y = y.saturating_add(usize_to_u16(placement.line_index)).saturating_add(1);
        let image = make_leaf(
            image_id,
            Rectangle::new(x, image_y, width, IMAGE_ROWS),
            LayoutElement::Image { path: placement.url.clone(), alt_text: placement.alt.clone() },
        );
        proof {
            lemma_nodes_view_push(children@, image);
        }
        children.push(image);
        height = height.saturating_add(IMAGE_ROWS);
        k += 1;
    }
    make_node(id, Rectangle::new(x, y, width, height), LayoutElement::Paragraph { lines: laid.lines }, children)
}

/// The strings made of the characters of each buffer.
fn strings_of(lines: &Vec<Vec<char>>) -> (r: Vec<String>)
    ensures
        strings_view(r@) == words_view(lines@),
{
    let mut r: Vec<String> = Vec::new();
    let mut i: usize = 0;
    while i < lines.len()
        invariant
            i <= lines.len(),
            strings_view(r@) == words_view(lines@).take(i as int),
        decreases lines.len() - i,
    {
        let line = string_of(&lines[i]);
        proof {
            lemma_strings_view_push(r@, line);
        }
        r.push(line);
        i += 1;
    }
    r
}

/// Lays out a code block under the identifier `ctx.counter`.
pub fn layout_code_block(
    lang: &Option<String>,
    code: &String,
    x: u16,
    y: u16,
    width: u16,
    theme: &Theme,
    ctx: &mut LayoutCtx,
) -> (node: LayoutNode)
    ensures
        node@ == place_code_block(opt_view(*lang), code@, x, y, width, *theme, old(ctx)@).node,
        final(ctx)@ == place_code_block(opt_view(*lang), code@, x, y, width, *theme, old(ctx)@).acc,
{
    reveal(place_code_block);    let padding = theme.spacing.code_block_padding;
    let chars = chars_of(code.as_str());
    let split = split_lines(&chars);
    let lines = strings_of(&split);
    let height = usize_to_u16(lines.len()).saturating_add(padding.saturating_add(padding));
    let rect = Rectangle::new(x, y, width, height);
    ctx.push_hit(rect, HitElement::CodeBlock { lang: clone_opt_string(lang) });
    make_leaf(ctx.counter, rect, LayoutElement::CodeBlock { lang: clone_opt_string(lang), lines })
}

/// Lays out a horizontal rule under the identifier `ctx.counter`.
pub fn layout_horizontal_rule(x: u16, y: u16, width: u16, ctx: &LayoutCtx) -> (node: LayoutNode)
    ensures
        node@ == place_rule(x, y, width, ctx@).node,
{
    make_leaf(ctx.counter, Rectangle::new(x, y, width, 1), LayoutElement::HorizontalRule)
}

/// Sum of the heights of `nodes`.
fn total_height(nodes: &Vec<LayoutNode>) -> (h: u16)
    ensures
        h == heights_sum(nodes_view(nodes@), nodes@.len() as int),
{
    let mut h: u16 = 0;
    let mut i: usize = 0;
    while i < nodes.len()
        invariant
            i <= nodes.len(),
            h == heights_sum(nodes_view(nodes@), i as int),
        decreases nodes.len() - i,
    {
        h = h.saturating_add(nodes[i].rect.height);
        i += 1;
    }
    h
}

/// Lowest row below any of `nodes`.
fn lowest_bottom(nodes: &Vec<LayoutNode>) -> (h: u16)
    ensures
        h == max_bottom(nodes_view(nodes@), nodes@.len() as int),
{
    let mut h: u16 = 0;
    let mut i: usize = 0;
    while i < nodes.len()
        invariant
            i <= nodes.len(),
            h == max_bottom(nodes_view(nodes@), i as int),
        decreases nodes.len() - i,
    {
        let bottom = nodes[i].rect.y.saturating_add(nodes[i].rect.height);
        if bottom > h {
            h = bottom;
        }
        i += 1;
    }
    h
}

/// Lays out `blocks` in flow from row `y` on.
pub fn layout_blocks(
    blocks: &Vec<Block>,
    x: u16,
    y: u16,
    width: u16,
    theme: &Theme,
    ctx: &mut LayoutCtx,
    inline_images: bool,
    tight: bool,
) -> (nodes: Vec<LayoutNode>)
    ensures
        nodes_view(nodes@) == place_blocks(
            blocks_view(blocks@),
            blocks@.len() as int,
            x,
            y,
            width,
            *theme,
            inline_images,
            tight,
            old(ctx)@,
        ).nodes,
        final(ctx)@ == place_blocks(
            blocks_view(blocks@),
            blocks@.len() as int,
            x,
            y,
            width,
            *theme,
            inline_images,
            tight,
            old(ctx)@,
        ).acc,
    decreases blocks, 0nat,
{
    let ghost all = blocks_view(blocks@);
    let ghost acc = ctx@;
    let mut nodes: Vec<LayoutNode> = Vec::new();
    let mut cursor: u16 = y;
    let mut i: usize = 0;
    while i < blocks.len()
        invariant
            i <= blocks.len(),
            all == blocks_view(blocks@),
            nodes_view(nodes@) == place_blocks(
                all,
                i as int,
                x,
                y,
                width,
                *theme,
                inline_images,
                tight,
                acc,
            ).nodes,
            cursor == place_blocks(all, i as int, x, y, width, *theme, inline_images, tight, acc).y,
            ctx@ == place_blocks(all, i as int, x, y, width, *theme, inline_images, tight, acc).acc,
        decreases blocks.len() - i,
    {
        let block = &blocks[i];
        let top = cursor.saturating_add(block_margin_top(block, theme));
        let node = layout_block(block, x, top, width, theme, ctx, inline_images);
        cursor = top.saturating_add(node.rect.height).saturating_add(
            block_margin_bottom(block, theme, tight),
        );
        proof {
            lemma_nodes_view_push(nodes@, node);
        }
        nodes.push(node);
        i += 1;
    }
    nodes
}

/// Lays out one block at `(x, y)`, `width` cells wide.
pub fn layout_block(
    block: &Block,
    x: u16,
    y: u16,
    width: u16,
    theme: &Theme,
    ctx: &mut LayoutCtx,
    inline_images: bool,
) -> (node: LayoutNode)
    ensures
        node@ == place_block(block@, x, y, width, *theme, inline_images, old(ctx)@).node,
        final(ctx)@ == place_block(block@, x, y, width, *theme, inline_images, old(ctx)@).acc,
    decreases block, 0nat,
{
    ctx.take_id();
    match block {
        Block::Heading { level, content } => {
            layout_heading(*level, content, x, y, width, theme, ctx, inline_images)
        },
        Block::Paragraph { content } => {
            layout_paragraph(content, x, y, width, theme, ctx, inline_images)
        },
        Block::CodeBlock { lang, code } => {
            layout_code_block(lang, code, x, y, width, theme, ctx)
        },
        Block::BlockQuote { blocks } => {
            layout_blockquote(blocks, x, y, width, theme, ctx, inline_images)
        },
        Block::List { ordered, start, items } => {
            layout_list(*ordered, *start, items, x, y, width, theme, ctx, inline_images)
        },
        Block::Table { headers, rows, alignment } => {
            layout_table(headers, rows, x, y, width, theme, ctx, inline_images)
        },
        Block::HorizontalRule => {
            layout_horizontal_rule(x, y, width, ctx)
        },
        Block::Callout { kind, title, content } => {
            layout_callout(*kind, content, x, y, width, theme, ctx, inline_images)
        },
    }
}

/// Lays out a block quote under the identifier `ctx.counter`.
pub fn layout_blockquote(
    blocks: &Vec<Block>,
    x: u16,
    y: u16,
    width: u16,
    theme: &Theme,
    ctx: &mut LayoutCtx,
    inline_images: bool,
) -> (node: LayoutNode)
    ensures
        node@ == place_quote(blocks_view(blocks@), x, y, width, *theme, inline_images, old(ctx)@).node,
        final(ctx)@ == place_quote(
            blocks_view(blocks@),
            x,
            y,
            width,
            *theme,
            inline_images,
            old(ctx)@,
        ).acc,
    decreases blocks, 1nat,
{    let id = ctx.counter;
    let indent = theme.spacing.blockquote_indent;
    let children = layout_blocks(
        blocks,
        x.saturating_add(indent),
        y,
        width.saturating_sub(indent),
        theme,
        ctx,
        inline_images,
        false,
    );
    let height = total_height(&children);
    make_node(id, Rectangle::new(x, y, width, height), LayoutElement::BlockQuote, children)
}

/// Lays out a callout under the identifier `ctx.counter`.
pub fn layout_callout(
    kind: CalloutKind,
    content: &Vec<Block>,
    x: u16,
    y: u16,
    width: u16,
    theme: &Theme,
    ctx: &mut LayoutCtx,
    inline_images: bool,
) -> (node: LayoutNode)
    ensures
        node@ == place_callout(
            kind,
            blocks_view(content@),
            x,
            y,
            width,
            *theme,
            inline_images,
            old(ctx)@,
        ).node,
        final(ctx)@ == place_callout(
            kind,
            blocks_view(content@),
            x,
            y,
            width,
            *theme,
            inline_images,
            old(ctx)@,
        ).acc,
    decreases content, 1nat,
{    let id = ctx.counter;
    let children = layout_blocks(
        content,
        x.saturating_add(CALLOUT_INDENT),
        y,
        width.saturating_sub(CALLOUT_INDENT),
        theme,
        ctx,
        inline_images,
        false,
    );
    let sum = total_height(&children);
    let height = if sum >= 1 {
        sum
    } else {
        1
    };
    make_node(id, Rectangle::new(x, y, width, height), LayoutElement::Callout { kind }, children)
}

/// Marker of item `i` of a list.
fn make_marker(ordered: bool, start: usize, i: usize) -> (marker: String)
    ensures
        marker@ == marker_text(ordered, start, i as int),
{
    let mut out: Vec<char> = Vec::new();
    if ordered {
        push_decimal(&mut out, start.saturating_add(i));
        push_str_chars(&mut out, ". ");
    } else {
        push_str_chars(&mut out, "• ");
    }
    string_of(&out)
}

/// Cells that the widest marker of a list of `count` items takes.
fn widest_marker(ordered: bool, start: usize, count: usize) -> (w: u16)
    ensures
        w == marker_width(ordered, start, count as int),
{
    if ordered {
        let last = if count == 0 {
            start
        } else {
            start.saturating_add(count - 1)
        };
        let digits = decimal_len(last);
        if digits >= u16::MAX as usize {
            u16::MAX
        } else {
            (digits + 1) as u16
        }
    } else {
        1
    }
}

/// Height of a list item with the children `nodes`.
fn span_height(nodes: &Vec<LayoutNode>) -> (h: u16)
    ensures
        h == item_height(nodes_view(nodes@)),
{
    if nodes.len() == 0 {
        1
    } else {
        let first = &nodes[0];
        let last = &nodes[nodes.len() - 1];
        last.rect.y.saturating_add(last.rect.height).saturating_sub(first.rect.y)
    }
}

/// Lays out a list under the identifier `ctx.counter`.
pub fn layout_list(
    ordered: bool,
    start: usize,
    items: &Vec<ListItem>,
    x: u16,
    y: u16,
    width: u16,
    theme: &Theme,
    ctx: &mut LayoutCtx,
    inline_images: bool,
) -> (node: LayoutNode)
    ensures
        node@ == place_list(
            ordered,
            start,
            items_view(items@),
            x,
            y,
            width,
            *theme,
            inline_images,
            old(ctx)@,
        ).node,
        final(ctx)@ == place_list(
            ordered,
            start,
            items_view(items@),
            x,
            y,
            width,
            *theme,
            inline_images,
            old(ctx)@,
        ).acc,
    decreases items, 0nat,
{    let id = ctx.counter;
    let ghost all = items_view(items@);
    let ghost acc = ctx@;
    let gap = widest_marker(ordered, start, items.len()).saturating_add(1);
    let content_x = x.saturating_add(gap);
    let content_width = width.saturating_sub(gap);
    let mut children: Vec<LayoutNode> = Vec::new();
    let mut cursor: u16 = y;
    let mut i: usize = 0;
    while i < items.len()
        invariant
            i <= items.len(),
            all == items_view(items@),
            content_x == sat_add(x, gap),
            content_width == sat_sub(width, gap),
            nodes_view(children@) == place_items(
                all,
                i as int,
                ordered,
                start,
                x,
                y,
                width,
                gap,
                *theme,
                inline_images,
                acc,
            ).nodes,
            cursor == place_items(
                all,
                i as int,
                ordered,
                start,
                x,
                y,
                width,
                gap,
                *theme,
                inline_images,
                acc,
            ).y,
            ctx@ == place_items(
                all,
                i as int,
                ordered,
                start,
                x,
                y,
                width,
                gap,
                *theme,
                inline_images,
                acc,
            ).acc,
        decreases items.len() - i,
    {
        let item = &items[i];
        let item_id = ctx.take_id();
        let marker = make_marker(ordered, start, i);
        let item_children = layout_blocks(
            &item.content,
            content_x,
            cursor,
            content_width,
            theme,
            ctx,
            inline_images,
            true,
        );
        let height = span_height(&item_children);
        let node = make_node(
            item_id,
            Rectangle::new(x, cursor, width, height),
            LayoutElement::ListItem { marker, task: item.task },
            item_children,
        );
        cursor = cursor.saturating_add(height);
        proof {
            lemma_nodes_view_push(children@, node);
        }
        children.push(node);
        i += 1;
    }
    make_node(
        id,
        Rectangle::new(x, y, width, cursor.saturating_sub(y)),
        LayoutElement::List { ordered, start },
        children,
    )
}

/// An inline takes no less than no cell.
proof fn lemma_inline_len_nonneg(i: InlineView)
    ensures
        inline_len(i) >= 0,
    decreases i,
{
    match i {
        InlineView::Strong(v) => lemma_inlines_len_nonneg(v, v.len() as int),
        InlineView::Emphasis(v) => lemma_inlines_len_nonneg(v, v.len() as int),
        InlineView::Strikethrough(v) => lemma_inlines_len_nonneg(v, v.len() as int),
        InlineView::Link { url, title, text } => lemma_inlines_len_nonneg(text, text.len() as int),
        _ => {},
    }
}

/// Inlines take no less than no cell.
proof fn lemma_inlines_len_nonneg(v: Seq<InlineView>, n: int)
    ensures
        inlines_len(v, n) >= 0,
    decreases v, n,
{
    if 0 < n <= v.len() {
        lemma_inlines_len_nonneg(v, n - 1);
        lemma_inline_len_nonneg(v[n - 1]);
    }
}

/// The longest content of a column is no shorter than nothing.
proof fn lemma_rows_max_len_nonneg(rows: Seq<Seq<Seq<InlineView>>>, n: int, c: int)
    ensures
        rows_max_len(rows, n, c) >= 0,
    decreases n,
{
    if 0 < n <= rows.len() {
        lemma_rows_max_len_nonneg(rows, n - 1, c);
    }
}

/// Characters that an inline takes in a table cell, at most `u16::MAX`.
fn inline_cells(inline: &Inline) -> (n: u16)
    ensures
        n == clamp_u16(inline_len(inline@)),
    decreases inline,
{
    match inline {
        Inline::Text(s) => usize_to_u16(s.as_str().unicode_len()),
        Inline::Strong(v) => inlines_cells(v),
        Inline::Emphasis(v) => inlines_cells(v),
        Inline::Strikethrough(v) => inlines_cells(v),
        Inline::Code(s) => usize_to_u16(s.as_str().unicode_len()),
        Inline::Link { url, title, text } => inlines_cells(text),
        Inline::Image { url, alt, title } => IMAGE_CELL_WIDTH,
        Inline::LineBreak => 0,
        Inline::SoftBreak => 0,
    }
}

/// Characters that the inlines of `v` take in a table cell, at most
/// `u16::MAX`.
fn inlines_cells(v: &Vec<Inline>) -> (n: u16)
    ensures
        n == clamp_u16(inlines_len(inlines_view(v@), v@.len() as int)),
    decreases v,
{
    let ghost all = inlines_view(v@);
    let mut n: u16 = 0;
    let mut k: usize = 0;
    while k < v.len()
        invariant
            k <= v.len(),
            all == inlines_view(v@),
            n == clamp_u16(inlines_len(all, k as int)),
        decreases v.len() - k,
    {
        proof {
            lemma_inlines_len_nonneg(all, k as int);
            lemma_inline_len_nonneg(all[k as int]);
        }
        n = n.saturating_add(inline_cells(&v[k]));
        k += 1;
    }
    n
}

/// Natural width of column `c` of a table.
fn natural_column_width(
    headers: &Vec<TableCell>,
    rows: &Vec<Vec<TableCell>>,
    c: usize,
    padding: u16,
) -> (w: u16)
    ensures
        w == natural_width(cells_view(headers@), rows_view(rows@), c as int, padding),
{
    let ghost hv = cells_view(headers@);
    let ghost rv = rows_view(rows@);
    let head: u16 = if c < headers.len() {
        inlines_cells(&headers[c].content)
    } else {
        0
    };
    let mut body: u16 = 0;
    let mut r: usize = 0;
    while r < rows.len()
        invariant
            r <= rows.len(),
            rv == rows_view(rows@),
            body == clamp_u16(rows_max_len(rv, r as int, c as int)),
        decreases rows.len() - r,
    {
        let row = &rows[r];
        proof {
            lemma_rows_max_len_nonneg(rv, r as int, c as int);
        }
        if c < row.len() {
            proof {
                lemma_inlines_len_nonneg(rv[r as int][c as int], rv[r as int][c as int].len() as int);
            }
            let here = inlines_cells(&row[c].content);
            if here > body {
                body = here;
            }
        }
        r += 1;
    }
    proof {
        lemma_rows_max_len_nonneg(rv, rows.len() as int, c as int);
        if c < headers.len() {
            lemma_inlines_len_nonneg(hv[c as int], hv[c as int].len() as int);
        }
    }
    let longest = if head > body {
        head
    } else {
        body
    };
    let w = longest.saturating_add(padding.saturating_add(padding));
    if w < MIN_COLUMN_WIDTH {
        MIN_COLUMN_WIDTH
    } else {
        w
    }
}

/// The sum of `n` widths is at most `n` times the greatest width.
proof fn lemma_widths_sum_bound(widths: Seq<u16>, n: int)
    requires
        0 <= n <= widths.len(),
    ensures
        0 <= widths_sum(widths, n) <= n * 65535,
    decreases n,
{
    if n > 0 {
        lemma_widths_sum_bound(widths, n - 1);
    }
}

/// Sum of `widths`.
fn sum_widths(widths: &Vec<u16>) -> (total: u128)
    ensures
        total == widths_sum(widths@, widths@.len() as int),
{
    let mut total: u128 = 0;
    let mut i: usize = 0;
    while i < widths.len()
        invariant
            i <= widths.len(),
            total == widths_sum(widths@, i as int),
        decreases widths.len() - i,
    {
        proof {
            lemma_widths_sum_bound(widths@, i as int);
        }
        total = total + widths[i] as u128;
        i += 1;
    }
    total
}

/// Widths of the columns of a table in `available` cells: the natural
/// widths where they fit, else each scaled in proportion and at least 3.
pub fn compute_column_widths(
    headers: &Vec<TableCell>,
    rows: &Vec<Vec<TableCell>>,
    padding: u16,
    available: u16,
) -> (widths: Vec<u16>)
    ensures
        widths@ == column_widths(cells_view(headers@), rows_view(rows@), padding, available),
{
    let ghost hv = cells_view(headers@);
    let ghost rv = rows_view(rows@);
    let first = if rows.len() > 0 {
        rows[0].len()
    } else {
        0
    };
    let count = if headers.len() > first {
        headers.len()
    } else {
        first
    };
    let ghost natural_all = natural_widths(hv, rv, padding);
    let mut natural: Vec<u16> = Vec::new();
    let mut c: usize = 0;
    while c < count
        invariant
            c <= count,
            count == column_count(hv, rv),
            hv == cells_view(headers@),
            rv == rows_view(rows@),
            natural_all == natural_widths(hv, rv, padding),
            natural@ == natural_all.take(c as int),
        decreases count - c,
    {
        let w = natural_column_width(headers, rows, c, padding);
        natural.push(w);
        c += 1;
    }
    assert(natural@ =~= natural_all);
    let total = sum_widths(&natural);
    let ghost all = column_widths(hv, rv, padding, available);
    let mut widths: Vec<u16> = Vec::new();
    let mut k: usize = 0;
    while k < count
        invariant
            k <= count,
            count == natural@.len(),
            natural@ == natural_all,
            natural_all == natural_widths(hv, rv, padding),
            total == widths_sum(natural_all, natural_all.len() as int),
            all == column_widths(hv, rv, padding, available),
            widths@ == all.take(k as int),
        decreases count - k,
    {
        let n = natural[k];
        let w = if total > available as u128 && total > 0 {
            assert(n as int * available as int <= 65535 * 65535) by (nonlinear_arith)
                requires
                    0 <= n <= 65535,
                    0 <= available <= 65535,
            ;
            let scaled: u128 = (n as u128 * available as u128) / total;
            let capped: u16 = if scaled > u16::MAX as u128 {
                u16::MAX
            } else {
                scaled as u16
            };
            if capped < MIN_COLUMN_WIDTH {
                MIN_COLUMN_WIDTH
            } else {
                capped
            }
        } else {
            n
        };
        assert(w == scaled_width(n, available, total as int)) by {
            assert((n as u128 * available as u128) as int == n as int * available as int)
                by (nonlinear_arith)
                requires
                    0 <= n <= 65535,
                    0 <= available <= 65535,
            ;
        }
        widths.push(w);
        k += 1;
    }
    widths
}

/// Lays out one row of a table `table_width` wide.
pub fn layout_table_row(
    cells: &Vec<TableCell>,
    widths: &Vec<u16>,
    x: u16,
    y: u16,
    table_width: u16,
    theme: &Theme,
    ctx: &mut LayoutCtx,
    inline_images: bool,
    is_header: bool,
) -> (node: LayoutNode)
    ensures
        node@ == place_row(
            cells_view(cells@),
            widths@,
            x,
            y,
            table_width,
            *theme,
            inline_images,
            is_header,
            old(ctx)@,
        ).node,
        final(ctx)@ == place_row(
            cells_view(cells@),
            widths@,
            x,
            y,
            table_width,
            *theme,
            inline_images,
            is_header,
            old(ctx)@,
        ).acc,
{
    let id = ctx.take_id();
    let ghost all = cells_view(cells@);
    let ghost acc = ctx@;
    let padding = theme.blocks.table.padding;
    let both = padding.saturating_add(padding);
    let content_y = y.saturating_add(padding);
    let mut children: Vec<LayoutNode> = Vec::new();
    let mut cursor: u16 = x;
    let mut highest: u16 = 1;
    let mut i: usize = 0;
    while i < cells.len()
        invariant
            i <= cells.len(),
            all == cells_view(cells@),
            padding == theme.blocks.table.padding,
            both == sat_add(padding, padding),
            content_y == sat_add(y, padding),
            nodes_view(children@) == place_cells(
                all,
                i as int,
                widths@,
                x,
                y,
                *theme,
                inline_images,
                acc,
            ).nodes,
            cursor == place_cells(all, i as int, widths@, x, y, *theme, inline_images, acc).x,
            highest == place_cells(all, i as int, widths@, x, y, *theme, inline_images, acc).height,
            ctx@ == place_cells(all, i as int, widths@, x, y, *theme, inline_images, acc).acc,
        decreases cells.len() - i,
    {
        let cell = &cells[i];
        let cell_width = if i < widths.len() {
            widths[i]
        } else {
            EXTRA_CELL_WIDTH
        };
        let content_width = cell_width.saturating_sub(both);
        let cell_id = ctx.take_id();
        let laid = layout_inlines(
            &cell.content,
            content_width,
            theme,
            content_y,
            &mut ctx.images,
            inline_images,
        );
        let text_height = usize_to_u16(laid.lines.len());
        let cell_height = text_height.saturating_add(both);
        let paragraph_id = ctx.take_id();
        let paragraph = make_leaf(
            paragraph_id,
            Rectangle::new(cursor.saturating_add(padding), content_y, content_width, text_height),
            LayoutElement::Paragraph { lines: laid.lines },
        );
        let mut inner: Vec<LayoutNode> = Vec::new();
        proof {
            lemma_nodes_view_push(inner@, paragraph);
            assert(nodes_view(inner@).push(paragraph@) =~= seq![paragraph@]);
        }
        inner.push(paragraph);
        let node = make_node(
            cell_id,
            Rectangle::new(cursor, y, cell_width, cell_height),
            LayoutElement::TableCell,
            inner,
        );
        cursor = cursor.saturating_add(cell_width);
        if cell_height > highest {
            highest = cell_height;
        }
        proof {
            lemma_nodes_view_push(children@, node);
        }
        children.push(node);
        i += 1;
    }
    make_node(
        id,
        Rectangle::new(x, y, table_width, highest),
        LayoutElement::TableRow { is_header },
        children,
    )
}

/// Lays out a table under the identifier `ctx.counter`.
pub fn layout_table(
    headers: &Vec<TableCell>,
    rows: &Vec<Vec<TableCell>>,
    x: u16,
    y: u16,
    width: u16,
    theme: &Theme,
    ctx: &mut LayoutCtx,
    inline_images: bool,
) -> (node: LayoutNode)
    ensures
        node@ == place_table(
            cells_view(headers@),
            rows_view(rows@),
            x,
            y,
            width,
            *theme,
            inline_images,
            old(ctx)@,
        ).node,
        final(ctx)@ == place_table(
            cells_view(headers@),
            rows_view(rows@),
            x,
            y,
            width,
            *theme,
            inline_images,
            old(ctx)@,
        ).acc,
{
    reveal(place_table);    let id = ctx.counter;
    let ghost rv = rows_view(rows@);
    let widths = compute_column_widths(headers, rows, theme.blocks.table.padding, width);
    let total = sum_widths(&widths);
    let table_width: u16 = if total > u16::MAX as u128 {
        u16::MAX
    } else {
        total as u16
    };
    let mut children: Vec<LayoutNode> = Vec::new();
    let mut cursor: u16 = y;
    assert(nodes_view(children@) =~= Seq::empty());
    if headers.len() > 0 {
        let row = layout_table_row(
            headers,
            &widths,
            x,
            cursor,
            table_width,
            theme,
            ctx,
            inline_images,
            true,
        );
        cursor = cursor.saturating_add(row.rect.height);
        proof {
            lemma_nodes_view_push(children@, row);
        }
        children.push(row);
    }
    let ghost head_nodes = nodes_view(children@);
    let ghost head_y = cursor;
    let ghost head_acc = ctx@;
    let mut i: usize = 0;
    while i < rows.len()
        invariant
            i <= rows.len(),
            rv == rows_view(rows@),
            nodes_view(children@) == place_rows(
                rv,
                i as int,
                widths@,
                x,
                head_y,
                table_width,
                *theme,
                inline_images,
                head_nodes,
                head_acc,
            ).nodes,
            cursor == place_rows(
                rv,
                i as int,
                widths@,
                x,
                head_y,
                table_width,
                *theme,
                inline_images,
                head_nodes,
                head_acc,
            ).y,
            ctx@ == place_rows(
                rv,
                i as int,
                widths@,
                x,
                head_y,
                table_width,
                *theme,
                inline_images,
                head_nodes,
                head_acc,
            ).acc,
        decreases rows.len() - i,
    {
        let row = layout_table_row(
            &rows[i],
            &widths,
            x,
            cursor,
            table_width,
            theme,
            ctx,
            inline_images,
            false,
        );
        cursor = cursor.saturating_add(row.rect.height);
        proof {
            lemma_nodes_view_push(children@, row);
        }
        children.push(row);
        i += 1;
    }
    make_node(
        id,
        Rectangle::new(x, y, table_width, cursor.saturating_sub(y)),
        LayoutElement::Table { column_widths: widths },
        children,
    )
}

/// Layout a document into a positioned tree. With `inline_images`, images
/// get an area of their own below the line they stand on; without it, they
/// are collected in the tree's `images` for a sidebar.
pub fn layout_document(
    document: &Document,
    theme: &Theme,
    viewport: Viewport,
    inline_images: bool,
) -> (tree: LayoutTree)
    ensures
        tree@ == place_document(document@, *theme, viewport, inline_images),
{
    let mut ctx = LayoutCtx::new();
    let children = layout_blocks(
        &document.blocks,
        0,
        0,
        viewport.width,
        theme,
        &mut ctx,
        inline_images,
        false,
    );
    let height = lowest_bottom(&children);
    let id = ctx.take_id();
    let root = make_node(
        id,
        Rectangle::new(0, 0, viewport.width, height),
        LayoutElement::Document,
        children,
    );
    LayoutTree { root, viewport, hit_regions: ctx.hit_regions, images: ctx.images }
}

} // verus!
