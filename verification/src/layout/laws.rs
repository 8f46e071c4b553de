//! Laws of the layout engine, proved of `place_document` and so of every
//! tree that `layout_document` returns.

use super::engine::{
    image_nodes, leaf, margin_top, max_bottom, max_u16, next_id, place_block, place_blocks,
    place_cells, place_code_block, place_document, place_heading, place_items, place_paragraph,
    place_row, place_rows, place_table, Acc, Flow,
};
use super::text::{
    effective_width, lemma_wrapped_lines_fit, line_text_width, sat_add, sat_sub, wrapped,
};
use super::types::{ElementView, NodeView, Rectangle, TreeView, Viewport};
use crate::ir::{BlockView, DocumentView, InlineView, ListItemView};
use crate::theme::Theme;
use vstd::prelude::*;

verus! {

/// Whether each of `nodes` begins at or below the row where the one before
/// it ends.
pub open spec fn stacked(nodes: Seq<NodeView>) -> bool {
    forall|i: int, j: int|
        0 <= i && j == i + 1 && j < nodes.len() ==> (#[trigger] nodes[j]).rect.y >= sat_add(
            (#[trigger] nodes[i]).rect.y,
            nodes[i].rect.height,
        )
}

/// Whether a node lays its children out one below the other: the document,
/// block quotes, callouts, lists, list items and tables do.
pub open spec fn is_flow(e: ElementView) -> bool {
    e is Document || e is BlockQuote || e is Callout || e is List || e is ListItem || e is Table
}

/// The children of a node that lays them out one below the other do not
/// overlap.
pub open spec fn stacked_here(n: NodeView) -> bool {
    is_flow(n.element) ==> stacked(n.children)
}

/// The content of all items of a list begins in the same column.
pub open spec fn aligned_here(n: NodeView) -> bool {
    n.element is List ==> forall|i: int, j: int, k: int, l: int|
        0 <= i < n.children.len() && 0 <= j < n.children[i].children.len() && 0 <= k
            < n.children.len() && 0 <= l < n.children[k].children.len() ==> (
        #[trigger] n.children[i].children[j]).rect.x == (#[trigger] n.children[k].children[l]).rect.x
}

/// No line of a paragraph holds more text than the paragraph is wide (one
/// character where the paragraph has no width at all).
pub open spec fn fits_here(n: NodeView) -> bool {
    n.element is Paragraph ==> forall|l: int|
        0 <= l < n.element->Paragraph_lines.len() ==> line_text_width(
            #[trigger] n.element->Paragraph_lines[l],
        ) <= effective_width(n.rect.width)
}

/// What holds of every node of a layout.
pub open spec fn sound_node(n: NodeView) -> bool {
    stacked_here(n) && aligned_here(n) && fits_here(n)
}

/// Whether `node` and every node below it is sound.
pub open spec fn sound_tree(node: NodeView) -> bool
    decreases node,
{
    sound_node(node) && forall|i: int|
        0 <= i < node.children.len() ==> sound_tree(#[trigger] node.children[i])
}

/// Whether every node of `nodes` is the root of a sound tree that begins in
/// column `x`.
pub open spec fn sound_column(nodes: Seq<NodeView>, x: u16) -> bool {
    forall|i: int|
        0 <= i < nodes.len() ==> sound_tree(#[trigger] nodes[i]) && nodes[i].rect.x == x
}

proof fn lemma_leaf_sound(id: usize, rect: Rectangle, element: ElementView)
    requires
        !(element is Paragraph),
    ensures
        sound_tree(leaf(id, rect, element)),
{
}

proof fn lemma_image_nodes_sound(
    hints: Seq<super::text::PlacementView>,
    n: int,
    x: u16,
    y: u16,
    width: u16,
    counter: usize,
)
    ensures
        forall|i: int|
            0 <= i < image_nodes(hints, n, x, y, width, counter).0.len() ==> sound_tree(
                #[trigger] image_nodes(hints, n, x, y, width, counter).0[i],
            ),
    decreases n,
{
    if 0 < n <= hints.len() {
        lemma_image_nodes_sound(hints, n - 1, x, y, width, counter);
        let prev = image_nodes(hints, n - 1, x, y, width, counter);
        let h = hints[n - 1];
        let id = next_id(prev.1);
        let rect = Rectangle {
            x,
            y: sat_add(sat_add(y, super::types::clamp_u16(h.line_index as int)), 1),
            width,
            height: super::engine::IMAGE_ROWS,
        };
        lemma_leaf_sound(id, rect, ElementView::Image { path: h.url, alt_text: h.alt });
    }
}

proof fn lemma_place_paragraph_sound(
    content: Seq<InlineView>,
    x: u16,
    y: u16,
    width: u16,
    theme: Theme,
    inline_images: bool,
    acc: Acc,
)
    ensures
        sound_tree(place_paragraph(content, x, y, width, theme, inline_images, acc).node),
        place_paragraph(content, x, y, width, theme, inline_images, acc).node.rect.x == x,
        place_paragraph(content, x, y, width, theme, inline_images, acc).node.rect.y == y,
{
    reveal(place_paragraph);
    let text = wrapped(content, width, theme, y, inline_images);
    lemma_wrapped_lines_fit(content, width, theme, y, inline_images);
    lemma_image_nodes_sound(text.hints, text.hints.len() as int, x, y, width, acc.counter);
}

proof fn lemma_place_cells_sound(
    cells: Seq<Seq<InlineView>>,
    n: int,
    widths: Seq<u16>,
    x: u16,
    y: u16,
    theme: Theme,
    inline_images: bool,
    acc: Acc,
)
    ensures
        0 <= n <= cells.len() ==> place_cells(
            cells,
            n,
            widths,
            x,
            y,
            theme,
            inline_images,
            acc,
        ).nodes.len() == n,
        forall|i: int|
            0 <= i < place_cells(cells, n, widths, x, y, theme, inline_images, acc).nodes.len()
                ==> sound_tree(
                #[trigger] place_cells(cells, n, widths, x, y, theme, inline_images, acc).nodes[i],
            ),
    decreases n,
{
    if 0 < n <= cells.len() {
        lemma_place_cells_sound(cells, n - 1, widths, x, y, theme, inline_images, acc);
        let flow = place_cells(cells, n, widths, x, y, theme, inline_images, acc);
        let cell = flow.nodes.last();
        let padding = theme.blocks.table.padding;
        let both = sat_add(padding, padding);
        let cell_width = if n - 1 < widths.len() {
            widths[n - 1]
        } else {
            super::engine::EXTRA_CELL_WIDTH
        };
        let content_width = sat_sub(cell_width, both);
        lemma_wrapped_lines_fit(cells[n - 1], content_width, theme, sat_add(y, padding), inline_images);
        let paragraph = cell.children[0];
        assert(sound_tree(paragraph));
    }
}

proof fn lemma_place_row_sound(
    cells: Seq<Seq<InlineView>>,
    widths: Seq<u16>,
    x: u16,
    y: u16,
    table_width: u16,
    theme: Theme,
    inline_images: bool,
    is_header: bool,
    acc: Acc,
)
    ensures
        sound_tree(
            place_row(cells, widths, x, y, table_width, theme, inline_images, is_header, acc).node,
        ),
        place_row(cells, widths, x, y, table_width, theme, inline_images, is_header, acc).node.rect.y
            == y,
{
    let id = next_id(acc.counter);
    lemma_place_cells_sound(
        cells,
        cells.len() as int,
        widths,
        x,
        y,
        theme,
        inline_images,
        Acc { counter: id, ..acc },
    );
}

proof fn lemma_place_rows_sound(
    rows: Seq<Seq<Seq<InlineView>>>,
    n: int,
    widths: Seq<u16>,
    x: u16,
    y: u16,
    table_width: u16,
    theme: Theme,
    inline_images: bool,
    nodes: Seq<NodeView>,
    acc: Acc,
)
    requires
        stacked(nodes),
        forall|i: int| 0 <= i < nodes.len() ==> sound_tree(#[trigger] nodes[i]),
        nodes.len() > 0 ==> y >= sat_add(nodes.last().rect.y, nodes.last().rect.height),
    ensures
        ({
            let f = place_rows(rows, n, widths, x, y, table_width, theme, inline_images, nodes, acc);
            &&& stacked(f.nodes)
            &&& forall|i: int| 0 <= i < f.nodes.len() ==> sound_tree(#[trigger] f.nodes[i])
            &&& f.nodes.len() > 0 ==> f.y >= sat_add(f.nodes.last().rect.y, f.nodes.last().rect.height)
        }),
    decreases n,
{
    if 0 < n <= rows.len() {
        lemma_place_rows_sound(rows, n - 1, widths, x, y, table_width, theme, inline_images, nodes, acc);
        let prev = place_rows(
            rows,
            n - 1,
            widths,
            x,
            y,
            table_width,
            theme,
            inline_images,
            nodes,
            acc,
        );
        lemma_place_row_sound(
            rows[n - 1],
            widths,
            x,
            prev.y,
            table_width,
            theme,
            inline_images,
            false,
            prev.acc,
        );
    }
}

proof fn lemma_place_table_sound(
    headers: Seq<Seq<InlineView>>,
    rows: Seq<Seq<Seq<InlineView>>>,
    x: u16,
    y: u16,
    width: u16,
    theme: Theme,
    inline_images: bool,
    acc: Acc,
)
    ensures
        sound_tree(place_table(headers, rows, x, y, width, theme, inline_images, acc).node),
        place_table(headers, rows, x, y, width, theme, inline_images, acc).node.rect.x == x,
        place_table(headers, rows, x, y, width, theme, inline_images, acc).node.rect.y == y,
{
    reveal(place_table);
    let widths = super::engine::column_widths(headers, rows, theme.blocks.table.padding, width);
    let table_width = super::types::clamp_u16(
        super::engine::widths_sum(widths, widths.len() as int),
    );
    let head = if headers.len() > 0 {
        let row = place_row(headers, widths, x, y, table_width, theme, inline_images, true, acc);
        lemma_place_row_sound(headers, widths, x, y, table_width, theme, inline_images, true, acc);
        Flow { nodes: seq![row.node], y: sat_add(y, row.node.rect.height), acc: row.acc }
    } else {
        Flow { nodes: Seq::empty(), y, acc }
    };
    lemma_place_rows_sound(
        rows,
        rows.len() as int,
        widths,
        x,
        head.y,
        table_width,
        theme,
        inline_images,
        head.nodes,
        head.acc,
    );
}

/// Every block is laid out at the place it is given, as a sound tree.
pub proof fn lemma_place_block_sound(
    b: BlockView,
    x: u16,
    y: u16,
    width: u16,
    theme: Theme,
    inline_images: bool,
    acc: Acc,
)
    ensures
        sound_tree(place_block(b, x, y, width, theme, inline_images, acc).node),
        place_block(b, x, y, width, theme, inline_images, acc).node.rect.x == x,
        place_block(b, x, y, width, theme, inline_images, acc).node.rect.y == y,
    decreases b,
{
    let id = next_id(acc.counter);
    let own = Acc { counter: id, ..acc };
    match b {
        BlockView::Heading { level, content } => {
            reveal(place_heading);
            let p = place_heading(level, content, x, y, width, theme, inline_images, own);
            lemma_leaf_sound(p.node.id, p.node.rect, p.node.element);
        },
        BlockView::Paragraph { content } => {
            lemma_place_paragraph_sound(content, x, y, width, theme, inline_images, own);
        },
        BlockView::CodeBlock { lang, code } => {
            reveal(place_code_block);
            let p = place_code_block(lang, code, x, y, width, theme, own);
            lemma_leaf_sound(p.node.id, p.node.rect, p.node.element);
        },
        BlockView::BlockQuote { blocks } => {
            let indent = theme.spacing.blockquote_indent;
            lemma_place_blocks_sound(
                blocks,
                blocks.len() as int,
                sat_add(x, indent),
                y,
                sat_sub(width, indent),
                theme,
                inline_images,
                false,
                own,
            );
        },
        BlockView::List { ordered, start, items } => {
            let gap = sat_add(super::engine::marker_width(ordered, start, items.len() as int), 1);
            lemma_place_items_sound(
                items,
                items.len() as int,
                ordered,
                start,
                x,
                y,
                width,
                gap,
                theme,
                inline_images,
                own,
            );
        },
        BlockView::Table { headers, rows, alignment } => {
            lemma_place_table_sound(headers, rows, x, y, width, theme, inline_images, own);
        },
        BlockView::HorizontalRule => {
            lemma_leaf_sound(id, Rectangle { x, y, width, height: 1 }, ElementView::HorizontalRule);
        },
        BlockView::Callout { kind, title, content } => {
            lemma_place_blocks_sound(
                content,
                content.len() as int,
                sat_add(x, super::engine::CALLOUT_INDENT),
                y,
                sat_sub(width, super::engine::CALLOUT_INDENT),
                theme,
                inline_images,
                false,
                own,
            );
        },
    }
}

/// Blocks in flow do not overlap: each begins at or below the row where
/// the one before it ends. All begin in the column of the flow, and the
/// flow's cursor ends at or below the last of them.
pub proof fn lemma_place_blocks_sound(
    blocks: Seq<BlockView>,
    n: int,
    x: u16,
    y: u16,
    width: u16,
    theme: Theme,
    inline_images: bool,
    tight: bool,
    acc: Acc,
)
    ensures
        ({
            let f = place_blocks(blocks, n, x, y, width, theme, inline_images, tight, acc);
            &&& 0 <= n <= blocks.len() ==> f.nodes.len() == n
            &&& stacked(f.nodes)
            &&& sound_column(f.nodes, x)
            &&& f.nodes.len() > 0 ==> f.y >= sat_add(f.nodes.last().rect.y, f.nodes.last().rect.height)
        }),
    decreases blocks, n,
{
    if 0 < n <= blocks.len() {
        lemma_place_blocks_sound(blocks, n - 1, x, y, width, theme, inline_images, tight, acc);
        let prev = place_blocks(blocks, n - 1, x, y, width, theme, inline_images, tight, acc);
        let b = blocks[n - 1];
        let top = sat_add(prev.y, margin_top(b, theme));
        lemma_place_block_sound(b, x, top, width, theme, inline_images, prev.acc);
        // The flow with the block: the flow before it and the block's node.
        let f = place_blocks(blocks, n, x, y, width, theme, inline_images, tight, acc);
    }
}

/// The items of a list do not overlap, and the content of every item
/// begins `gap` cells right of the list.
pub proof fn lemma_place_items_sound(
    items: Seq<ListItemView>,
    n: int,
    ordered: bool,
    start: usize,
    x: u16,
    y: u16,
    width: u16,
    gap: u16,
    theme: Theme,
    inline_images: bool,
    acc: Acc,
)
    ensures
        ({
            let f = place_items(
                items,
                n,
                ordered,
                start,
                x,
                y,
                width,
                gap,
                theme,
                inline_images,
                acc,
            );
            &&& 0 <= n <= items.len() ==> f.nodes.len() == n
            &&& stacked(f.nodes)
            &&& sound_column(f.nodes, x)
            &&& f.nodes.len() > 0 ==> f.y >= sat_add(f.nodes.last().rect.y, f.nodes.last().rect.height)
            &&& forall|i: int, j: int|
                0 <= i < f.nodes.len() && 0 <= j < f.nodes[i].children.len() ==> (
                #[trigger] f.nodes[i].children[j]).rect.x == sat_add(x, gap)
        }),
    decreases items, n,
{
    if 0 < n <= items.len() {
        lemma_place_items_sound(
            items,
            n - 1,
            ordered,
            start,
            x,
            y,
            width,
            gap,
            theme,
            inline_images,
            acc,
        );
        let prev = place_items(
            items,
            n - 1,
            ordered,
            start,
            x,
            y,
            width,
            gap,
            theme,
            inline_images,
            acc,
        );
        let item = items[n - 1];
        let id = next_id(prev.acc.counter);
        lemma_place_blocks_sound(
            item.content,
            item.content.len() as int,
            sat_add(x, gap),
            prev.y,
            sat_sub(width, gap),
            theme,
            inline_images,
            true,
            Acc { counter: id, ..prev.acc },
        );
        let f = place_items(items, n, ordered, start, x, y, width, gap, theme, inline_images, acc);
        let node = f.nodes.last();
    }
}

/// Every node of the layout of a document is sound: blocks in flow do not
/// overlap, the content of all items of a list begins in one column, and no
/// line of a paragraph holds more text than the paragraph is wide.
///
/// Coordinates saturate, so "does not overlap" reads: a block begins at or
/// below the row where the one before it ends, or, where that row is beyond
/// `u16::MAX`, at `u16::MAX`.
pub proof fn lemma_layout_sound(
    doc: DocumentView,
    theme: Theme,
    viewport: Viewport,
    inline_images: bool,
)
    ensures
        sound_tree(place_document(doc, theme, viewport, inline_images).root),
{
    lemma_place_blocks_sound(
        doc.blocks,
        doc.blocks.len() as int,
        0,
        0,
        viewport.width,
        theme,
        inline_images,
        false,
        Acc { counter: 0, hits: Seq::empty(), images: Seq::empty() },
    );
}

/// The lowest row below any of the first `n` nodes is at or below the
/// bottom of each of them, and is the bottom of one of them.
pub proof fn lemma_max_bottom(nodes: Seq<NodeView>, n: int)
    requires
        0 <= n <= nodes.len(),
    ensures
        forall|i: int|
            0 <= i < n ==> sat_add((#[trigger] nodes[i]).rect.y, nodes[i].rect.height)
                <= max_bottom(nodes, n),
        n > 0 ==> exists|i: int|
            0 <= i < n && sat_add((#[trigger] nodes[i]).rect.y, nodes[i].rect.height)
                == max_bottom(nodes, n),
        n == 0 ==> max_bottom(nodes, n) == 0,
    decreases n,
{
    if n > 0 {
        lemma_max_bottom(nodes, n - 1);
    }
}

/// The height of a document is the lowest row that any of the root's
/// children reaches: no child ends below it, one ends at it, and without
/// children it is 0.
pub proof fn lemma_document_height(
    doc: DocumentView,
    theme: Theme,
    viewport: Viewport,
    inline_images: bool,
)
    ensures
        ({
            let root = place_document(doc, theme, viewport, inline_images).root;
            &&& forall|i: int|
                0 <= i < root.children.len() ==> sat_add(
                    (#[trigger] root.children[i]).rect.y,
                    root.children[i].rect.height,
                ) <= root.rect.height
            &&& root.children.len() > 0 ==> exists|i: int|
                0 <= i < root.children.len() && sat_add(
                    (#[trigger] root.children[i]).rect.y,
                    root.children[i].rect.height,
                ) == root.rect.height
            &&& root.children.len() == 0 ==> root.rect.height == 0
        }),
{
    let root = place_document(doc, theme, viewport, inline_images).root;
    lemma_max_bottom(root.children, root.children.len() as int);
}

/// Layout is a function of its inputs: documents with the same content
/// have the same layout in the same theme, viewport and image mode.
pub proof fn lemma_layout_deterministic(
    a: TreeView,
    b: TreeView,
    doc_a: DocumentView,
    doc_b: DocumentView,
    theme: Theme,
    viewport: Viewport,
    inline_images: bool,
)
    requires
        a == place_document(doc_a, theme, viewport, inline_images),
        b == place_document(doc_b, theme, viewport, inline_images),
        doc_a == doc_b,
    ensures
        a == b,
{
}

/// Whether no heading and no code block stands in `b` or below it, so that
/// the block has no hit region.
pub open spec fn region_free(b: BlockView) -> bool
    decreases b,
{
    match b {
        BlockView::Heading { .. } => false,
        BlockView::CodeBlock { .. } => false,
        BlockView::Paragraph { .. } => true,
        BlockView::Table { .. } => true,
        BlockView::HorizontalRule => true,
        BlockView::BlockQuote { blocks } => forall|i: int|
            0 <= i < blocks.len() ==> region_free(#[trigger] blocks[i]),
        BlockView::Callout { kind, title, content } => forall|i: int|
            0 <= i < content.len() ==> region_free(#[trigger] content[i]),
        BlockView::List { ordered, start, items } => forall|i: int, j: int|
            0 <= i < items.len() && 0 <= j < items[i].content.len() ==> region_free(
                #[trigger] items[i].content[j],
            ),
    }
}

/// Whether the headings and code blocks of a document all stand at its top
/// level, none inside a block quote, a callout or a list.
pub open spec fn regions_at_top(doc: DocumentView) -> bool {
    forall|i: int|
        0 <= i < doc.blocks.len() ==> (#[trigger] doc.blocks[i]) is Heading || doc.blocks[i] is CodeBlock
            || region_free(doc.blocks[i])
}

proof fn lemma_cells_keep_hits(
    cells: Seq<Seq<InlineView>>,
    n: int,
    widths: Seq<u16>,
    x: u16,
    y: u16,
    theme: Theme,
    inline_images: bool,
    acc: Acc,
)
    ensures
        place_cells(cells, n, widths, x, y, theme, inline_images, acc).acc.hits == acc.hits,
    decreases n,
{
    if 0 < n <= cells.len() {
        lemma_cells_keep_hits(cells, n - 1, widths, x, y, theme, inline_images, acc);
    }
}

proof fn lemma_rows_keep_hits(
    rows: Seq<Seq<Seq<InlineView>>>,
    n: int,
    widths: Seq<u16>,
    x: u16,
    y: u16,
    table_width: u16,
    theme: Theme,
    inline_images: bool,
    nodes: Seq<NodeView>,
    acc: Acc,
)
    ensures
        place_rows(rows, n, widths, x, y, table_width, theme, inline_images, nodes, acc).acc.hits
            == acc.hits,
    decreases n,
{
    if 0 < n <= rows.len() {
        lemma_rows_keep_hits(rows, n - 1, widths, x, y, table_width, theme, inline_images, nodes, acc);
        let prev = place_rows(
            rows,
            n - 1,
            widths,
            x,
            y,
            table_width,
            theme,
            inline_images,
            nodes,
            acc,
        );
        lemma_cells_keep_hits(
            rows[n - 1],
            rows[n - 1].len() as int,
            widths,
            x,
            prev.y,
            theme,
            inline_images,
            Acc { counter: next_id(prev.acc.counter), ..prev.acc },
        );
    }
}

/// A table adds no hit region.
pub(crate) proof fn lemma_table_keeps_hits(
    headers: Seq<Seq<InlineView>>,
    rows: Seq<Seq<Seq<InlineView>>>,
    x: u16,
    y: u16,
    width: u16,
    theme: Theme,
    inline_images: bool,
    acc: Acc,
)
    ensures
        place_table(headers, rows, x, y, width, theme, inline_images, acc).acc.hits == acc.hits,
{
    reveal(place_table);
    let widths = super::engine::column_widths(headers, rows, theme.blocks.table.padding, width);
    let table_width = super::types::clamp_u16(
        super::engine::widths_sum(widths, widths.len() as int),
    );
    let head = if headers.len() > 0 {
        lemma_cells_keep_hits(
            headers,
            headers.len() as int,
            widths,
            x,
            y,
            theme,
            inline_images,
            Acc { counter: next_id(acc.counter), ..acc },
        );
        let row = place_row(headers, widths, x, y, table_width, theme, inline_images, true, acc);
        Flow { nodes: seq![row.node], y: sat_add(y, row.node.rect.height), acc: row.acc }
    } else {
        Flow { nodes: Seq::empty(), y, acc }
    };
    lemma_rows_keep_hits(
        rows,
        rows.len() as int,
        widths,
        x,
        head.y,
        table_width,
        theme,
        inline_images,
        head.nodes,
        head.acc,
    );
}

/// A block without headings and code blocks adds no hit region.
pub proof fn lemma_region_free_block(
    b: BlockView,
    x: u16,
    y: u16,
    width: u16,
    theme: Theme,
    inline_images: bool,
    acc: Acc,
)
    requires
        region_free(b),
    ensures
        place_block(b, x, y, width, theme, inline_images, acc).acc.hits == acc.hits,
    decreases b,
{
    let own = Acc { counter: next_id(acc.counter), ..acc };
    match b {
        BlockView::Paragraph { content } => {
            reveal(place_paragraph);
        },
        BlockView::BlockQuote { blocks } => {
            let indent = theme.spacing.blockquote_indent;
            lemma_region_free_blocks(
                blocks,
                blocks.len() as int,
                sat_add(x, indent),
                y,
                sat_sub(width, indent),
                theme,
                inline_images,
                false,
                own,
            );
        },
        BlockView::List { ordered, start, items } => {
            let gap = sat_add(super::engine::marker_width(ordered, start, items.len() as int), 1);
            lemma_region_free_items(
                items,
                items.len() as int,
                ordered,
                start,
                x,
                y,
                width,
                gap,
                theme,
                inline_images,
                own,
            );
        },
        BlockView::Table { headers, rows, alignment } => {
            lemma_table_keeps_hits(headers, rows, x, y, width, theme, inline_images, own);
        },
        BlockView::Callout { kind, title, content } => {
            lemma_region_free_blocks(
                content,
                content.len() as int,
                sat_add(x, super::engine::CALLOUT_INDENT),
                y,
                sat_sub(width, super::engine::CALLOUT_INDENT),
                theme,
                inline_images,
                false,
                own,
            );
        },
        _ => {},
    }
}

proof fn lemma_region_free_blocks(
    blocks: Seq<BlockView>,
    n: int,
    x: u16,
    y: u16,
    width: u16,
    theme: Theme,
    inline_images: bool,
    tight: bool,
    acc: Acc,
)
    requires
        forall|i: int| 0 <= i < blocks.len() ==> region_free(#[trigger] blocks[i]),
    ensures
        place_blocks(blocks, n, x, y, width, theme, inline_images, tight, acc).acc.hits == acc.hits,
    decreases blocks, n,
{
    if 0 < n <= blocks.len() {
        lemma_region_free_blocks(blocks, n - 1, x, y, width, theme, inline_images, tight, acc);
        let prev = place_blocks(blocks, n - 1, x, y, width, theme, inline_images, tight, acc);
        let b = blocks[n - 1];
        lemma_region_free_block(
            b,
            x,
            sat_add(prev.y, margin_top(b, theme)),
            width,
            theme,
            inline_images,
            prev.acc,
        );
    }
}

proof fn lemma_region_free_items(
    items: Seq<ListItemView>,
    n: int,
    ordered: bool,
    start: usize,
    x: u16,
    y: u16,
    width: u16,
    gap: u16,
    theme: Theme,
    inline_images: bool,
    acc: Acc,
)
    requires
        forall|i: int, j: int|
            0 <= i < items.len() && 0 <= j < items[i].content.len() ==> region_free(
                #[trigger] items[i].content[j],
            ),
    ensures
        place_items(items, n, ordered, start, x, y, width, gap, theme, inline_images, acc).acc.hits
            == acc.hits,
    decreases items, n,
{
    if 0 < n <= items.len() {
        lemma_region_free_items(
            items,
            n - 1,
            ordered,
            start,
            x,
            y,
            width,
            gap,
            theme,
            inline_images,
            acc,
        );
        let prev = place_items(
            items,
            n - 1,
            ordered,
            start,
            x,
            y,
            width,
            gap,
            theme,
            inline_images,
            acc,
        );
        let item = items[n - 1];
        lemma_region_free_blocks(
            item.content,
            item.content.len() as int,
            sat_add(x, gap),
            prev.y,
            sat_sub(width, gap),
            theme,
            inline_images,
            true,
            Acc { counter: next_id(prev.acc.counter), ..prev.acc },
        );
    }
}

/// Whether the hit regions of `hits` from index `from` on span the columns
/// `x` to `x + width` and end at or above row `bottom`.
pub open spec fn regions_within(
    hits: Seq<super::types::HitRegionView>,
    from: int,
    x: u16,
    width: u16,
    bottom: u16,
) -> bool {
    forall|k: int|
        from <= k < hits.len() ==> (#[trigger] hits[k]).rect.x == x && hits[k].rect.width == width
            && sat_add(hits[k].rect.y, hits[k].rect.height) <= bottom
}

proof fn lemma_top_regions(
    blocks: Seq<BlockView>,
    n: int,
    x: u16,
    y: u16,
    width: u16,
    theme: Theme,
    inline_images: bool,
    tight: bool,
    acc: Acc,
)
    requires
        0 <= n <= blocks.len(),
        forall|i: int|
            0 <= i < blocks.len() ==> (#[trigger] blocks[i]) is Heading || blocks[i] is CodeBlock
                || region_free(blocks[i]),
    ensures
        ({
            let f = place_blocks(blocks, n, x, y, width, theme, inline_images, tight, acc);
            &&& f.nodes.len() == n
            &&& f.acc.hits.len() >= acc.hits.len()
            &&& f.acc.hits.take(acc.hits.len() as int) == acc.hits
            &&& regions_within(
                f.acc.hits,
                acc.hits.len() as int,
                x,
                width,
                max_bottom(f.nodes, f.nodes.len() as int),
            )
        }),
    decreases n,
{
    if n > 0 {
        lemma_top_regions(blocks, n - 1, x, y, width, theme, inline_images, tight, acc);
        let prev = place_blocks(blocks, n - 1, x, y, width, theme, inline_images, tight, acc);
        let b = blocks[n - 1];
        let top = sat_add(prev.y, margin_top(b, theme));
        let placed = place_block(b, x, top, width, theme, inline_images, prev.acc);
        lemma_place_block_sound(b, x, top, width, theme, inline_images, prev.acc);
        lemma_max_bottom_prefix(prev.nodes, placed.node, n - 1);
        if b is Heading {
            reveal(place_heading);
        } else if b is CodeBlock {
            reveal(place_code_block);
        } else {
            lemma_region_free_block(b, x, top, width, theme, inline_images, prev.acc);
        }
    }
}

proof fn lemma_max_bottom_prefix(nodes: Seq<NodeView>, x: NodeView, n: int)
    requires
        0 <= n <= nodes.len(),
    ensures
        max_bottom(nodes.push(x), n) == max_bottom(nodes, n),
    decreases n,
{
    if n > 0 {
        lemma_max_bottom_prefix(nodes, x, n - 1);
    }
}

/// In a document whose headings and code blocks all stand at its top
/// level, every hit region lies within the root rectangle: it spans the
/// root's columns and ends at or above the root's last row. (A heading
/// inside a block quote or a list item can lie below the rows that its
/// container, and so the root, is given.)
pub proof fn lemma_hit_regions_within_root(
    doc: DocumentView,
    theme: Theme,
    viewport: Viewport,
    inline_images: bool,
)
    requires
        regions_at_top(doc),
    ensures
        ({
            let tree = place_document(doc, theme, viewport, inline_images);
            forall|k: int|
                0 <= k < tree.hit_regions.len() ==> {
                    let r = (#[trigger] tree.hit_regions[k]).rect;
                    &&& r.x == tree.root.rect.x
                    &&& r.width == tree.root.rect.width
                    &&& sat_add(r.y, r.height) <= tree.root.rect.height
                    &&& r.y + r.height <= u16::MAX ==> r.within(tree.root.rect)
                }
        }),
{
    lemma_top_regions(
        doc.blocks,
        doc.blocks.len() as int,
        0,
        0,
        viewport.width,
        theme,
        inline_images,
        false,
        Acc { counter: 0, hits: Seq::empty(), images: Seq::empty() },
    );
}

} // verus!
