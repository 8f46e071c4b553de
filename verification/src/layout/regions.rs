//! Hit regions: a layout gives one to every heading and to every code
//! block, over the rectangle of its node, in the order of the nodes.

use super::engine::{
    heading_id, image_nodes, margin_top, next_id, place_block, place_blocks, place_cells,
    place_code_block, place_document, place_heading, place_items, place_paragraph, place_row,
    place_rows, place_table, Acc, Flow,
};
use super::laws::lemma_table_keeps_hits;
use super::text::{sat_add, sat_sub, wrapped, PlacementView};
use super::types::{ElementView, HitElementView, HitRegionView, NodeView, Viewport};
use crate::ir::{BlockView, DocumentView, InlineView, ListItemView};
use crate::theme::Theme;
use vstd::prelude::*;

verus! {

/// The hit region of `node` itself: one over its rectangle where it is a
/// heading or a code block, none otherwise.
pub open spec fn own_regions(node: NodeView) -> Seq<HitRegionView> {
    match node.element {
        ElementView::Heading { level, text } => seq![
            HitRegionView {
                rect: node.rect,
                element: HitElementView::Heading { level, id: heading_id(level, text) },
            },
        ],
        ElementView::CodeBlock { lang, lines } => seq![
            HitRegionView { rect: node.rect, element: HitElementView::CodeBlock { lang } },
        ],
        _ => Seq::empty(),
    }
}

/// The hit regions of `node` and of the nodes below it, in pre-order.
pub open spec fn tree_regions(node: NodeView) -> Seq<HitRegionView>
    decreases node,
{
    own_regions(node) + nodes_regions(node.children, node.children.len() as int)
}

/// The hit regions of the first `n` of `nodes` and of the nodes below them,
/// in pre-order.
pub open spec fn nodes_regions(nodes: Seq<NodeView>, n: int) -> Seq<HitRegionView>
    decreases nodes, n,
{
    if n <= 0 || n > nodes.len() {
        Seq::empty()
    } else {
        nodes_regions(nodes, n - 1) + tree_regions(nodes[n - 1])
    }
}

proof fn lemma_nodes_regions_prefix(nodes: Seq<NodeView>, x: NodeView, n: int)
    requires
        0 <= n <= nodes.len(),
    ensures
        nodes_regions(nodes.push(x), n) == nodes_regions(nodes, n),
    decreases n,
{
    if n > 0 {
        lemma_nodes_regions_prefix(nodes, x, n - 1);
    }
}

proof fn lemma_nodes_regions_push(nodes: Seq<NodeView>, x: NodeView)
    ensures
        nodes_regions(nodes.push(x), nodes.push(x).len() as int) == nodes_regions(
            nodes,
            nodes.len() as int,
        ) + tree_regions(x),
{
    lemma_nodes_regions_prefix(nodes, x, nodes.len() as int);
}

/// A node without children has no hit regions but its own.
proof fn lemma_leaf_regions(node: NodeView)
    requires
        node.children.len() == 0,
    ensures
        tree_regions(node) == own_regions(node),
{
    assert(tree_regions(node) =~= own_regions(node));
}

/// A node that is neither a heading nor a code block has the hit regions
/// of its children.
proof fn lemma_container_regions(node: NodeView)
    requires
        !(node.element is Heading),
        !(node.element is CodeBlock),
    ensures
        tree_regions(node) == nodes_regions(node.children, node.children.len() as int),
{
    assert(tree_regions(node) =~= nodes_regions(node.children, node.children.len() as int));
}

/// The image nodes of a paragraph have no hit regions.
proof fn lemma_image_regions(
    hints: Seq<PlacementView>,
    n: int,
    x: u16,
    y: u16,
    width: u16,
    counter: usize,
)
    requires
        0 <= n <= hints.len(),
    ensures
        ({
            let images = image_nodes(hints, n, x, y, width, counter);
            nodes_regions(images.0, images.0.len() as int) == Seq::<HitRegionView>::empty()
        }),
    decreases n,
{
    if n > 0 {
        lemma_image_regions(hints, n - 1, x, y, width, counter);
        let prev = image_nodes(hints, n - 1, x, y, width, counter);
        let all = image_nodes(hints, n, x, y, width, counter);
        let last = all.0.last();
        lemma_nodes_regions_push(prev.0, last);
        lemma_leaf_regions(last);
    }
}

/// The cells of a table row have no hit regions.
proof fn lemma_cells_regions(
    cells: Seq<Seq<InlineView>>,
    n: int,
    widths: Seq<u16>,
    x: u16,
    y: u16,
    theme: Theme,
    inline_images: bool,
    acc: Acc,
)
    requires
        0 <= n <= cells.len(),
    ensures
        ({
            let f = place_cells(cells, n, widths, x, y, theme, inline_images, acc);
            nodes_regions(f.nodes, f.nodes.len() as int) == Seq::<HitRegionView>::empty()
        }),
    decreases n,
{
    if n > 0 {
        lemma_cells_regions(cells, n - 1, widths, x, y, theme, inline_images, acc);
        let prev = place_cells(cells, n - 1, widths, x, y, theme, inline_images, acc);
        let f = place_cells(cells, n, widths, x, y, theme, inline_images, acc);
        let cell = f.nodes.last();
        let paragraph = cell.children[0];
        lemma_nodes_regions_push(prev.nodes, cell);
        lemma_leaf_regions(paragraph);
        lemma_nodes_regions_push(Seq::empty(), paragraph);
        assert(Seq::<NodeView>::empty().push(paragraph) =~= cell.children);
        lemma_container_regions(cell);
    }
}

/// A table row has no hit regions.
proof fn lemma_row_regions(
    cells: Seq<Seq<InlineView>>,
    widths: Seq<u16>,
    x: u16,
    y: u16,
    table_width: u16,
    theme: Theme,
    inline_images: bool,
    is_header: bool,
    acc: Acc,
)
    ensures
        ({
            let p = place_row(cells, widths, x, y, table_width, theme, inline_images, is_header, acc);
            tree_regions(p.node) == Seq::<HitRegionView>::empty()
        }),
{
    lemma_cells_regions(
        cells,
        cells.len() as int,
        widths,
        x,
        y,
        theme,
        inline_images,
        Acc { counter: next_id(acc.counter), ..acc },
    );
    let p = place_row(cells, widths, x, y, table_width, theme, inline_images, is_header, acc);
    lemma_container_regions(p.node);
}

/// Rows of a table that follow nodes without hit regions have none.
proof fn lemma_rows_regions(
    rows: Seq<Seq<Seq<InlineView>>>,
    n: int,
    widths: Seq<u16>,
    x: u16,
    y: u16,
    table_width: u16,
    theme: Theme,
    inline_images: bool,
    nodes: Seq<NodeView>,
    acc: Acc,
)
    requires
        0 <= n <= rows.len(),
        nodes_regions(nodes, nodes.len() as int) == Seq::<HitRegionView>::empty(),
    ensures
        ({
            let f = place_rows(rows, n, widths, x, y, table_width, theme, inline_images, nodes, acc);
            nodes_regions(f.nodes, f.nodes.len() as int) == Seq::<HitRegionView>::empty()
        }),
    decreases n,
{
    if n > 0 {
        lemma_rows_regions(rows, n - 1, widths, x, y, table_width, theme, inline_images, nodes, acc);
        let prev = place_rows(
            rows,
            n - 1,
            widths,
            x,
            y,
            table_width,
            theme,
            inline_images,
            nodes,
            acc,
        );
        let row = place_row(
            rows[n - 1],
            widths,
            x,
            prev.y,
            table_width,
            theme,
            inline_images,
            false,
            prev.acc,
        );
        lemma_row_regions(
            rows[n - 1],
            widths,
            x,
            prev.y,
            table_width,
            theme,
            inline_images,
            false,
            prev.acc,
        );
        lemma_nodes_regions_push(prev.nodes, row.node);
    }
}

/// A table has no hit regions.
proof fn lemma_table_regions(
    headers: Seq<Seq<InlineView>>,
    rows: Seq<Seq<Seq<InlineView>>>,
    x: u16,
    y: u16,
    width: u16,
    theme: Theme,
    inline_images: bool,
    acc: Acc,
)
    ensures
        ({
            let p = place_table(headers, rows, x, y, width, theme, inline_images, acc);
            &&& tree_regions(p.node) == Seq::<HitRegionView>::empty()
            &&& p.acc.hits == acc.hits
        }),
{
    lemma_table_keeps_hits(headers, rows, x, y, width, theme, inline_images, acc);
    reveal(place_table);
    let widths = super::engine::column_widths(headers, rows, theme.blocks.table.padding, width);
    let table_width = super::types::clamp_u16(
        super::engine::widths_sum(widths, widths.len() as int),
    );
    let head = if headers.len() > 0 {
        let row = place_row(headers, widths, x, y, table_width, theme, inline_images, true, acc);
        lemma_row_regions(headers, widths, x, y, table_width, theme, inline_images, true, acc);
        lemma_nodes_regions_push(Seq::empty(), row.node);
        assert(Seq::<NodeView>::empty().push(row.node) =~= seq![row.node]);
        Flow { nodes: seq![row.node], y: sat_add(y, row.node.rect.height), acc: row.acc }
    } else {
        Flow { nodes: Seq::empty(), y, acc }
    };
    lemma_rows_regions(
        rows,
        rows.len() as int,
        widths,
        x,
        head.y,
        table_width,
        theme,
        inline_images,
        head.nodes,
        head.acc,
    );
    let p = place_table(headers, rows, x, y, width, theme, inline_images, acc);
    lemma_container_regions(p.node);
}

/// A block adds the hit regions of its nodes to those found before it.
pub proof fn lemma_block_regions(
    b: BlockView,
    x: u16,
    y: u16,
    width: u16,
    theme: Theme,
    inline_images: bool,
    acc: Acc,
)
    ensures
        ({
            let p = place_block(b, x, y, width, theme, inline_images, acc);
            p.acc.hits == acc.hits + tree_regions(p.node)
        }),
    decreases b,
{
    let own = Acc { counter: next_id(acc.counter), ..acc };
    let p = place_block(b, x, y, width, theme, inline_images, acc);
    match b {
        BlockView::Heading { level, content } => {
            reveal(place_heading);
            lemma_leaf_regions(p.node);
            assert(p.acc.hits =~= acc.hits + own_regions(p.node));
        },
        BlockView::Paragraph { content } => {
            reveal(place_paragraph);
            let text = wrapped(content, width, theme, y, inline_images);
            lemma_image_regions(text.hints, text.hints.len() as int, x, y, width, own.counter);
            lemma_container_regions(p.node);
            assert(p.acc.hits =~= acc.hits + tree_regions(p.node));
        },
        BlockView::CodeBlock { lang, code } => {
            reveal(place_code_block);
            lemma_leaf_regions(p.node);
            assert(p.acc.hits =~= acc.hits + own_regions(p.node));
        },
        BlockView::BlockQuote { blocks } => {
            let indent = theme.spacing.blockquote_indent;
            lemma_blocks_regions(
                blocks,
                blocks.len() as int,
                sat_add(x, indent),
                y,
                sat_sub(width, indent),
                theme,
                inline_images,
                false,
                own,
            );
            lemma_container_regions(p.node);
        },
        BlockView::List { ordered, start, items } => {
            let gap = sat_add(super::engine::marker_width(ordered, start, items.len() as int), 1);
            lemma_items_regions(
                items,
                items.len() as int,
                ordered,
                start,
                x,
                y,
                width,
                gap,
                theme,
                inline_images,
                own,
            );
            lemma_container_regions(p.node);
        },
        BlockView::Table { headers, rows, alignment } => {
            lemma_table_regions(headers, rows, x, y, width, theme, inline_images, own);
            assert(p.acc.hits =~= acc.hits + tree_regions(p.node));
        },
        BlockView::HorizontalRule => {
            lemma_leaf_regions(p.node);
            assert(p.acc.hits =~= acc.hits + tree_regions(p.node));
        },
        BlockView::Callout { kind, title, content } => {
            lemma_blocks_regions(
                content,
                content.len() as int,
                sat_add(x, super::engine::CALLOUT_INDENT),
                y,
                sat_sub(width, super::engine::CALLOUT_INDENT),
                theme,
                inline_images,
                false,
                own,
            );
            lemma_container_regions(p.node);
        },
    }
}

/// Blocks in flow add the hit regions of their nodes to those found before
/// them.
pub proof fn lemma_blocks_regions(
    blocks: Seq<BlockView>,
    n: int,
    x: u16,
    y: u16,
    width: u16,
    theme: Theme,
    inline_images: bool,
    tight: bool,
    acc: Acc,
)
    requires
        0 <= n <= blocks.len(),
    ensures
        ({
            let f = place_blocks(blocks, n, x, y, width, theme, inline_images, tight, acc);
            f.acc.hits == acc.hits + nodes_regions(f.nodes, f.nodes.len() as int)
        }),
    decreases blocks, n,
{
    if n == 0 {
        assert(acc.hits =~= acc.hits + Seq::<HitRegionView>::empty());
    } else {
        lemma_blocks_regions(blocks, n - 1, x, y, width, theme, inline_images, tight, acc);
        let prev = place_blocks(blocks, n - 1, x, y, width, theme, inline_images, tight, acc);
        let b = blocks[n - 1];
        let top = sat_add(prev.y, margin_top(b, theme));
        let placed = place_block(b, x, top, width, theme, inline_images, prev.acc);
        lemma_block_regions(b, x, top, width, theme, inline_images, prev.acc);
        lemma_nodes_regions_push(prev.nodes, placed.node);
        assert(placed.acc.hits =~= acc.hits + (nodes_regions(prev.nodes, prev.nodes.len() as int)
            + tree_regions(placed.node)));
    }
}

/// The items of a list add the hit regions of their nodes to those found
/// before them.
pub proof fn lemma_items_regions(
    items: Seq<ListItemView>,
    n: int,
    ordered: bool,
    start: usize,
    x: u16,
    y: u16,
    width: u16,
    gap: u16,
    theme: Theme,
    inline_images: bool,
    acc: Acc,
)
    requires
        0 <= n <= items.len(),
    ensures
        ({
            let f = place_items(
                items,
                n,
                ordered,
                start,
                x,
                y,
                width,
                gap,
                theme,
                inline_images,
                acc,
            );
            f.acc.hits == acc.hits + nodes_regions(f.nodes, f.nodes.len() as int)
        }),
    decreases items, n,
{
    if n == 0 {
        assert(acc.hits =~= acc.hits + Seq::<HitRegionView>::empty());
    } else {
        lemma_items_regions(items, n - 1, ordered, start, x, y, width, gap, theme, inline_images, acc);
        let prev = place_items(
            items,
            n - 1,
            ordered,
            start,
            x,
            y,
            width,
            gap,
            theme,
            inline_images,
            acc,
        );
        let item = items[n - 1];
        lemma_blocks_regions(
            item.content,
            item.content.len() as int,
            sat_add(x, gap),
            prev.y,
            sat_sub(width, gap),
            theme,
            inline_images,
            true,
            Acc { counter: next_id(prev.acc.counter), ..prev.acc },
        );
        let f = place_items(items, n, ordered, start, x, y, width, gap, theme, inline_images, acc);
        let node = f.nodes.last();
        lemma_nodes_regions_push(prev.nodes, node);
        lemma_container_regions(node);
        assert(f.acc.hits =~= acc.hits + (nodes_regions(prev.nodes, prev.nodes.len() as int)
            + tree_regions(node)));
    }
}

/// The hit regions of a layout are those of its headings and code blocks:
/// one for each, over the rectangle of its node, in the order of the nodes;
/// that of a heading holds its level and its anchor, that of a code block
/// its language.
pub proof fn lemma_hit_regions_follow_nodes(
    doc: DocumentView,
    theme: Theme,
    viewport: Viewport,
    inline_images: bool,
)
    ensures
        ({
            let tree = place_document(doc, theme, viewport, inline_images);
            tree.hit_regions == tree_regions(tree.root)
        }),
{
    let start = Acc { counter: 0, hits: Seq::empty(), images: Seq::empty() };
    lemma_blocks_regions(
        doc.blocks,
        doc.blocks.len() as int,
        0,
        0,
        viewport.width,
        theme,
        inline_images,
        false,
        start,
    );
    let tree = place_document(doc, theme, viewport, inline_images);
    lemma_container_regions(tree.root);
    assert(tree.hit_regions =~= start.hits + tree_regions(tree.root));
}

} // verus!
