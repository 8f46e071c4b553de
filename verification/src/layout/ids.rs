//! Node identifiers: a layout numbers its nodes in pre-order, so that no
//! two nodes of a tree have the same identifier.

use super::engine::{
    image_nodes, margin_top, next_id, place_block, place_blocks, place_cells, place_code_block,
    place_document, place_heading, place_items, place_paragraph, place_row, place_rows,
    place_table, Acc, Flow,
};
use super::text::{sat_add, sat_sub, wrapped, PlacementView};
use super::types::{NodeId, NodeView, Viewport};
use crate::ir::{BlockView, DocumentView, InlineView, ListItemView};
use crate::theme::Theme;
use vstd::prelude::*;

verus! {

/// Identifiers of `node` and of the nodes below it, in pre-order.
pub open spec fn tree_ids(node: NodeView) -> Seq<NodeId>
    decreases node,
{
    seq![node.id] + nodes_ids(node.children, node.children.len() as int)
}

/// Identifiers of the first `n` of `nodes` and of the nodes below them, in
/// pre-order.
pub open spec fn nodes_ids(nodes: Seq<NodeView>, n: int) -> Seq<NodeId>
    decreases nodes, n,
{
    if n <= 0 || n > nodes.len() {
        Seq::empty()
    } else {
        nodes_ids(nodes, n - 1) + tree_ids(nodes[n - 1])
    }
}

/// The identifiers after `from` up to and with `to`, ascending.
pub open spec fn id_range(from: NodeId, to: NodeId) -> Seq<NodeId> {
    Seq::new(
        if to >= from {
            (to - from) as nat
        } else {
            0
        },
        |i: int| (from + 1 + i) as usize,
    )
}

/// Whether the identifiers given out from `from` to `to` are those of
/// `ids`, in order. Nothing is said of a pass that runs out of identifiers.
pub open spec fn numbered(ids: Seq<NodeId>, from: NodeId, to: NodeId) -> bool {
    from <= to && (to < usize::MAX ==> ids == id_range(from, to))
}

proof fn lemma_range_join(a: NodeId, b: NodeId, c: NodeId)
    requires
        a <= b <= c,
    ensures
        id_range(a, b) + id_range(b, c) == id_range(a, c),
{
}

proof fn lemma_range_one(a: NodeId)
    requires
        a < usize::MAX,
    ensures
        seq![next_id(a)] == id_range(a, next_id(a)),
{
}

proof fn lemma_numbered_join(
    first: Seq<NodeId>,
    second: Seq<NodeId>,
    a: NodeId,
    b: NodeId,
    c: NodeId,
)
    requires
        numbered(first, a, b),
        numbered(second, b, c),
    ensures
        numbered(first + second, a, c),
{
    if c < usize::MAX {
        lemma_range_join(a, b, c);
    }
}

/// A node with the identifier after `from` whose descendants are numbered
/// from there on is numbered from `from`.
proof fn lemma_numbered_node(node: NodeView, from: NodeId, to: NodeId)
    requires
        node.id == next_id(from),
        numbered(nodes_ids(node.children, node.children.len() as int), next_id(from), to),
    ensures
        numbered(tree_ids(node), from, to),
{
    if to < usize::MAX {
        lemma_range_one(from);
        lemma_range_join(from, next_id(from), to);
    }
}

proof fn lemma_nodes_ids_prefix(nodes: Seq<NodeView>, x: NodeView, n: int)
    requires
        0 <= n <= nodes.len(),
    ensures
        nodes_ids(nodes.push(x), n) == nodes_ids(nodes, n),
    decreases n,
{
    if n > 0 {
        lemma_nodes_ids_prefix(nodes, x, n - 1);
    }
}

proof fn lemma_nodes_ids_push(nodes: Seq<NodeView>, x: NodeView)
    ensures
        nodes_ids(nodes.push(x), nodes.push(x).len() as int) == nodes_ids(
            nodes,
            nodes.len() as int,
        ) + tree_ids(x),
{
    lemma_nodes_ids_prefix(nodes, x, nodes.len() as int);
}

proof fn lemma_leaf_ids(node: NodeView)
    requires
        node.children.len() == 0,
    ensures
        tree_ids(node) == seq![node.id],
{
}

proof fn lemma_image_ids(
    hints: Seq<PlacementView>,
    n: int,
    x: u16,
    y: u16,
    width: u16,
    counter: NodeId,
)
    requires
        0 <= n <= hints.len(),
    ensures
        ({
            let images = image_nodes(hints, n, x, y, width, counter);
            numbered(nodes_ids(images.0, images.0.len() as int), counter, images.1)
        }),
    decreases n,
{
    if n == 0 {
        assert(id_range(counter, counter) =~= Seq::<NodeId>::empty());
    } else {
        lemma_image_ids(hints, n - 1, x, y, width, counter);
        let prev = image_nodes(hints, n - 1, x, y, width, counter);
        let all = image_nodes(hints, n, x, y, width, counter);
        let last = all.0.last();
        lemma_nodes_ids_push(prev.0, last);
        lemma_leaf_ids(last);
        if all.1 < usize::MAX {
            lemma_range_one(prev.1);
        }
        lemma_numbered_join(
            nodes_ids(prev.0, prev.0.len() as int),
            tree_ids(last),
            counter,
            prev.1,
            all.1,
        );
    }
}

proof fn lemma_cells_ids(
    cells: Seq<Seq<InlineView>>,
    n: int,
    widths: Seq<u16>,
    x: u16,
    y: u16,
    theme: Theme,
    inline_images: bool,
    acc: Acc,
)
    requires
        0 <= n <= cells.len(),
    ensures
        ({
            let f = place_cells(cells, n, widths, x, y, theme, inline_images, acc);
            numbered(nodes_ids(f.nodes, f.nodes.len() as int), acc.counter, f.acc.counter)
        }),
    decreases n,
{
    if n == 0 {
        assert(id_range(acc.counter, acc.counter) =~= Seq::<NodeId>::empty());
    } else {
        lemma_cells_ids(cells, n - 1, widths, x, y, theme, inline_images, acc);
        let prev = place_cells(cells, n - 1, widths, x, y, theme, inline_images, acc);
        let f = place_cells(cells, n, widths, x, y, theme, inline_images, acc);
        let cell = f.nodes.last();
        let paragraph = cell.children[0];
        lemma_nodes_ids_push(prev.nodes, cell);
        lemma_leaf_ids(paragraph);
        assert(nodes_ids(cell.children, 0) =~= Seq::<NodeId>::empty());
        let cell_id = next_id(prev.acc.counter);
        if f.acc.counter < usize::MAX {
            lemma_range_one(cell_id);
        }
        lemma_numbered_node(cell, prev.acc.counter, f.acc.counter);
        lemma_numbered_join(
            nodes_ids(prev.nodes, prev.nodes.len() as int),
            tree_ids(cell),
            acc.counter,
            prev.acc.counter,
            f.acc.counter,
        );
    }
}

proof fn lemma_row_ids(
    cells: Seq<Seq<InlineView>>,
    widths: Seq<u16>,
    x: u16,
    y: u16,
    table_width: u16,
    theme: Theme,
    inline_images: bool,
    is_header: bool,
    acc: Acc,
)
    ensures
        ({
            let p = place_row(cells, widths, x, y, table_width, theme, inline_images, is_header, acc);
            numbered(tree_ids(p.node), acc.counter, p.acc.counter)
        }),
{
    let id = next_id(acc.counter);
    lemma_cells_ids(
        cells,
        cells.len() as int,
        widths,
        x,
        y,
        theme,
        inline_images,
        Acc { counter: id, ..acc },
    );
    let p = place_row(cells, widths, x, y, table_width, theme, inline_images, is_header, acc);
    lemma_numbered_node(p.node, acc.counter, p.acc.counter);
}

proof fn lemma_rows_ids(
    rows: Seq<Seq<Seq<InlineView>>>,
    n: int,
    widths: Seq<u16>,
    x: u16,
    y: u16,
    table_width: u16,
    theme: Theme,
    inline_images: bool,
    nodes: Seq<NodeView>,
    from: NodeId,
    acc: Acc,
)
    requires
        0 <= n <= rows.len(),
        numbered(nodes_ids(nodes, nodes.len() as int), from, acc.counter),
    ensures
        ({
            let f = place_rows(rows, n, widths, x, y, table_width, theme, inline_images, nodes, acc);
            numbered(nodes_ids(f.nodes, f.nodes.len() as int), from, f.acc.counter)
        }),
    decreases n,
{
    if n != 0 {
        lemma_rows_ids(
            rows,
            n - 1,
            widths,
            x,
            y,
            table_width,
            theme,
            inline_images,
            nodes,
            from,
            acc,
        );
        let prev = place_rows(
            rows,
            n - 1,
            widths,
            x,
            y,
            table_width,
            theme,
            inline_images,
            nodes,
            acc,
        );
        let row = place_row(
            rows[n - 1],
            widths,
            x,
            prev.y,
            table_width,
            theme,
            inline_images,
            false,
            prev.acc,
        );
        lemma_row_ids(rows[n - 1], widths, x, prev.y, table_width, theme, inline_images, false, prev.acc);
        lemma_nodes_ids_push(prev.nodes, row.node);
        lemma_numbered_join(
            nodes_ids(prev.nodes, prev.nodes.len() as int),
            tree_ids(row.node),
            from,
            prev.acc.counter,
            row.acc.counter,
        );
    }
}

proof fn lemma_table_ids(
    headers: Seq<Seq<InlineView>>,
    rows: Seq<Seq<Seq<InlineView>>>,
    x: u16,
    y: u16,
    width: u16,
    theme: Theme,
    inline_images: bool,
    from: NodeId,
    acc: Acc,
)
    requires
        acc.counter == next_id(from),
    ensures
        ({
            let p = place_table(headers, rows, x, y, width, theme, inline_images, acc);
            numbered(tree_ids(p.node), from, p.acc.counter)
        }),
{
    reveal(place_table);
    let widths = super::engine::column_widths(headers, rows, theme.blocks.table.padding, width);
    let table_width = super::types::clamp_u16(
        super::engine::widths_sum(widths, widths.len() as int),
    );
    let head = if headers.len() > 0 {
        let row = place_row(headers, widths, x, y, table_width, theme, inline_images, true, acc);
        lemma_row_ids(headers, widths, x, y, table_width, theme, inline_images, true, acc);
        let nodes = seq![row.node];
        assert(nodes_ids(nodes, 0) =~= Seq::<NodeId>::empty());
        Flow { nodes, y: sat_add(y, row.node.rect.height), acc: row.acc }
    } else {
        assert(id_range(acc.counter, acc.counter) =~= Seq::<NodeId>::empty());
        Flow { nodes: Seq::empty(), y, acc }
    };
    lemma_rows_ids(
        rows,
        rows.len() as int,
        widths,
        x,
        head.y,
        table_width,
        theme,
        inline_images,
        head.nodes,
        acc.counter,
        head.acc,
    );
    let p = place_table(headers, rows, x, y, width, theme, inline_images, acc);
    lemma_numbered_node(p.node, from, p.acc.counter);
}

/// A block's nodes take the identifiers after `acc.counter`, one after the
/// other in pre-order.
pub proof fn lemma_block_ids(
    b: BlockView,
    x: u16,
    y: u16,
    width: u16,
    theme: Theme,
    inline_images: bool,
    acc: Acc,
)
    ensures
        ({
            let p = place_block(b, x, y, width, theme, inline_images, acc);
            numbered(tree_ids(p.node), acc.counter, p.acc.counter)
        }),
    decreases b,
{
    let id = next_id(acc.counter);
    let own = Acc { counter: id, ..acc };
    let p = place_block(b, x, y, width, theme, inline_images, acc);
    match b {
        BlockView::Heading { level, content } => {
            reveal(place_heading);
            lemma_leaf_ids(p.node);
            if id < usize::MAX {
                lemma_range_one(acc.counter);
            }
        },
        BlockView::Paragraph { content } => {
            reveal(place_paragraph);
            let text = wrapped(content, width, theme, y, inline_images);
            lemma_image_ids(text.hints, text.hints.len() as int, x, y, width, id);
            lemma_numbered_node(p.node, acc.counter, p.acc.counter);
        },
        BlockView::CodeBlock { lang, code } => {
            reveal(place_code_block);
            lemma_leaf_ids(p.node);
            if id < usize::MAX {
                lemma_range_one(acc.counter);
            }
        },
        BlockView::BlockQuote { blocks } => {
            let indent = theme.spacing.blockquote_indent;
            lemma_blocks_ids(
                blocks,
                blocks.len() as int,
                sat_add(x, indent),
                y,
                sat_sub(width, indent),
                theme,
                inline_images,
                false,
                own,
            );
            lemma_numbered_node(p.node, acc.counter, p.acc.counter);
        },
        BlockView::List { ordered, start, items } => {
            let gap = sat_add(super::engine::marker_width(ordered, start, items.len() as int), 1);
            lemma_items_ids(
                items,
                items.len() as int,
                ordered,
                start,
                x,
                y,
                width,
                gap,
                theme,
                inline_images,
                own,
            );
            lemma_numbered_node(p.node, acc.counter, p.acc.counter);
        },
        BlockView::Table { headers, rows, alignment } => {
            lemma_table_ids(headers, rows, x, y, width, theme, inline_images, acc.counter, own);
        },
        BlockView::HorizontalRule => {
            lemma_leaf_ids(p.node);
            if id < usize::MAX {
                lemma_range_one(acc.counter);
            }
        },
        BlockView::Callout { kind, title, content } => {
            lemma_blocks_ids(
                content,
                content.len() as int,
                sat_add(x, super::engine::CALLOUT_INDENT),
                y,
                sat_sub(width, super::engine::CALLOUT_INDENT),
                theme,
                inline_images,
                false,
                own,
            );
            lemma_numbered_node(p.node, acc.counter, p.acc.counter);
        },
    }
}

/// The nodes of blocks in flow take the identifiers after `acc.counter`,
/// one after the other in pre-order.
pub proof fn lemma_blocks_ids(
    blocks: Seq<BlockView>,
    n: int,
    x: u16,
    y: u16,
    width: u16,
    theme: Theme,
    inline_images: bool,
    tight: bool,
    acc: Acc,
)
    requires
        0 <= n <= blocks.len(),
    ensures
        ({
            let f = place_blocks(blocks, n, x, y, width, theme, inline_images, tight, acc);
            numbered(nodes_ids(f.nodes, f.nodes.len() as int), acc.counter, f.acc.counter)
        }),
    decreases blocks, n,
{
    if n == 0 {
        assert(id_range(acc.counter, acc.counter) =~= Seq::<NodeId>::empty());
    } else {
        lemma_blocks_ids(blocks, n - 1, x, y, width, theme, inline_images, tight, acc);
        let prev = place_blocks(blocks, n - 1, x, y, width, theme, inline_images, tight, acc);
        let b = blocks[n - 1];
        let top = sat_add(prev.y, margin_top(b, theme));
        let placed = place_block(b, x, top, width, theme, inline_images, prev.acc);
        lemma_block_ids(b, x, top, width, theme, inline_images, prev.acc);
        lemma_nodes_ids_push(prev.nodes, placed.node);
        lemma_numbered_join(
            nodes_ids(prev.nodes, prev.nodes.len() as int),
            tree_ids(placed.node),
            acc.counter,
            prev.acc.counter,
            placed.acc.counter,
        );
    }
}

/// The nodes of the items of a list take the identifiers after
/// `acc.counter`, one after the other in pre-order.
pub proof fn lemma_items_ids(
    items: Seq<ListItemView>,
    n: int,
    ordered: bool,
    start: usize,
    x: u16,
    y: u16,
    width: u16,
    gap: u16,
    theme: Theme,
    inline_images: bool,
    acc: Acc,
)
    requires
        0 <= n <= items.len(),
    ensures
        ({
            let f = place_items(
                items,
                n,
                ordered,
                start,
                x,
                y,
                width,
                gap,
                theme,
                inline_images,
                acc,
            );
            numbered(nodes_ids(f.nodes, f.nodes.len() as int), acc.counter, f.acc.counter)
        }),
    decreases items, n,
{
    if n == 0 {
        assert(id_range(acc.counter, acc.counter) =~= Seq::<NodeId>::empty());
    } else {
        lemma_items_ids(items, n - 1, ordered, start, x, y, width, gap, theme, inline_images, acc);
        let prev = place_items(
            items,
            n - 1,
            ordered,
            start,
            x,
            y,
            width,
            gap,
            theme,
            inline_images,
            acc,
        );
        let item = items[n - 1];
        let id = next_id(prev.acc.counter);
        lemma_blocks_ids(
            item.content,
            item.content.len() as int,
            sat_add(x, gap),
            prev.y,
            sat_sub(width, gap),
            theme,
            inline_images,
            true,
            Acc { counter: id, ..prev.acc },
        );
        let f = place_items(items, n, ordered, start, x, y, width, gap, theme, inline_images, acc);
        let node = f.nodes.last();
        lemma_nodes_ids_push(prev.nodes, node);
        lemma_numbered_node(node, prev.acc.counter, f.acc.counter);
        lemma_numbered_join(
            nodes_ids(prev.nodes, prev.nodes.len() as int),
            tree_ids(node),
            acc.counter,
            prev.acc.counter,
            f.acc.counter,
        );
    }
}

/// The nodes of a layout have distinct identifiers: the nodes below the
/// root are numbered from 1 in pre-order, and the root takes the number
/// after the last of them. (This holds of every layout with fewer than
/// `usize::MAX` nodes, which is every layout that fits in memory.)
pub proof fn lemma_ids_unique(
    doc: DocumentView,
    theme: Theme,
    viewport: Viewport,
    inline_images: bool,
)
    requires
        place_document(doc, theme, viewport, inline_images).root.id < usize::MAX,
    ensures
        ({
            let root = place_document(doc, theme, viewport, inline_images).root;
            let ids = tree_ids(root);
            &&& nodes_ids(root.children, root.children.len() as int) == id_range(
                0,
                (root.id - 1) as usize,
            )
            &&& root.id == ids.len()
            &&& forall|i: int, j: int|
                0 <= i < ids.len() && 0 <= j < ids.len() && i != j ==> ids[i] != ids[j]
        }),
{
    let start = Acc { counter: 0, hits: Seq::empty(), images: Seq::empty() };
    lemma_blocks_ids(
        doc.blocks,
        doc.blocks.len() as int,
        0,
        0,
        viewport.width,
        theme,
        inline_images,
        false,
        start,
    );
    // The identifiers of the tree: that of the root, then those below it.
    let root = place_document(doc, theme, viewport, inline_images).root;
    let ids = tree_ids(root);
}

} // verus!
