//! Layout engine for positioning document elements.

pub mod engine;
pub mod ids;
pub mod laws;
pub mod regions;
pub mod text;
pub mod types;
pub mod words;

pub use engine::layout_document;
pub use text::layout_text;
pub use types::{
    ComputedStyle, EdgeSizes, HitElement, HitRegion, ImageReference, LayoutElement, LayoutNode,
    LayoutTree, Line, NodeId, Rectangle, TextSegment, TextStyle, Viewport,
};

use vstd::prelude::*;

verus! {

/// Row of each heading below `node`, the node included, in pre-order.
pub open spec fn heading_rows(node: types::NodeView) -> Seq<u16>
    decreases node,
{
    let own = if node.element is Heading {
        seq![node.rect.y]
    } else {
        Seq::empty()
    };
    own + heading_rows_of(node.children, node.children.len() as int)
}

/// Rows of the headings below the first `n` of `nodes`, in pre-order.
pub open spec fn heading_rows_of(nodes: Seq<types::NodeView>, n: int) -> Seq<u16>
    decreases nodes, n,
{
    if n <= 0 || n > nodes.len() {
        Seq::empty()
    } else {
        heading_rows_of(nodes, n - 1) + heading_rows(nodes[n - 1])
    }
}

/// Whether `target` is the row nearest to `from` among `rows` in the
/// direction asked for: the least row below `from`, or the greatest above.
pub open spec fn nearest_row(rows: Seq<u16>, from: u16, forward: bool, target: u16) -> bool {
    &&& rows.contains(target)
    &&& if forward {
        target > from && forall|i: int|
            0 <= i < rows.len() && #[trigger] rows[i] > from ==> target <= rows[i]
    } else {
        target < from && forall|i: int|
            0 <= i < rows.len() && #[trigger] rows[i] < from ==> target >= rows[i]
    }
}

/// Whether any of `rows` lies from `from` in the direction asked for.
pub open spec fn has_row(rows: Seq<u16>, from: u16, forward: bool) -> bool {
    exists|i: int|
        0 <= i < rows.len() && if forward {
            #[trigger] rows[i] > from
        } else {
            rows[i] < from
        }
}

/// Appends the rows of the headings below `node` to `rows`.
pub fn collect_headings(node: &LayoutNode, rows: &mut Vec<u16>)
    ensures
        final(rows)@ == old(rows)@ + heading_rows(node@),
    decreases node,
{
    match &node.element {
        LayoutElement::Heading { .. } => {
            rows.push(node.rect.y);
        },
        _ => {},
    }
    let ghost base = rows@;
    let ghost kids = types::nodes_view(node.children@);
    let mut i: usize = 0;
    while i < node.children.len()
        invariant
            i <= node.children.len(),
            kids == types::nodes_view(node.children@),
            rows@ == base + heading_rows_of(kids, i as int),
        decreases node.children.len() - i,
    {
        collect_headings(&node.children[i], rows);
        i += 1;
    }
}

/// The row among `rows` that is nearest to `from` in the direction asked
/// for, if any lies there.
pub fn find_nearest_row(rows: &Vec<u16>, from: u16, forward: bool) -> (r: Option<u16>)
    ensures
        r is Some <==> has_row(rows@, from, forward),
        r matches Some(target) ==> nearest_row(rows@, from, forward, target),
{
    let mut best: Option<u16> = None;
    let mut i: usize = 0;
    while i < rows.len()
        invariant
            i <= rows.len(),
            best is Some <==> has_row(rows@.take(i as int), from, forward),
            best matches Some(target) ==> nearest_row(rows@.take(i as int), from, forward, target),
        decreases rows.len() - i,
    {
        let row = rows[i];
        let ghost before = rows@.take(i as int);
        let ghost after = rows@.take(i as int + 1);
        let candidate = if forward {
            row > from
        } else {
            row < from
        };
        let better = candidate && match best {
            Some(b) => if forward {
                row < b
            } else {
                row > b
            },
            None => true,
        };
        proof {
            // A row of `before` is a row of `after`, and the other way round
            // but for the last.
            assert forall|k: int| 0 <= k < before.len() implies before[k] == after[k] by {}
            assert(after[i as int] == row);
        }
        if better {
            best = Some(row);
        }
        i += 1;
    }
    assert(rows@.take(rows.len() as int) =~= rows@);
    best
}

/// Scrolls to the nearest heading below the top of the viewport (`forward`)
/// or above it, not past the end of the document; without such a heading
/// the viewport stays where it is.
pub fn jump_to_next_heading(tree: &mut LayoutTree, forward: bool)
    ensures
        final(tree).root == old(tree).root,
        final(tree).hit_regions == old(tree).hit_regions,
        final(tree).images == old(tree).images,
        final(tree).viewport == (Viewport {
            scroll_y: final(tree).viewport.scroll_y,
            ..old(tree).viewport
        }),
        !has_row(heading_rows(old(tree).root@), old(tree).viewport.scroll_y, forward)
            ==> final(tree).viewport == old(tree).viewport,
        has_row(heading_rows(old(tree).root@), old(tree).viewport.scroll_y, forward)
            ==> exists|target: u16|
            #![trigger nearest_row(heading_rows(old(tree).root@), old(tree).viewport.scroll_y, forward, target)]
            nearest_row(heading_rows(old(tree).root@), old(tree).viewport.scroll_y, forward, target)
                && final(tree).viewport.scroll_y == types::clamp(
                target as int,
                0,
                types::max_scroll(old(tree).root.rect.height, old(tree).viewport.height),
            ),
{
    let current = tree.viewport.scroll_y;
    let doc_height = tree.document_height();
    let mut rows: Vec<u16> = Vec::new();
    collect_headings(&tree.root, &mut rows);
    match find_nearest_row(&rows, current, forward) {
        Some(target) => {
            tree.viewport.scroll_to_clamped(target, doc_height);
        },
        None => {},
    }
}

impl LayoutTree {
    /// Find hit region at given coordinates: the first one that covers the
    /// cell.
    pub fn hit_test(&self, x: u16, y: u16) -> (r: Option<&HitRegion>)
        ensures
            r is Some <==> exists|i: int|
                0 <= i < self.hit_regions@.len() && (#[trigger] self.hit_regions@[i]).rect.covers(
                    x as int,
                    y as int,
                ),
            r matches Some(region) ==> exists|i: int|
                0 <= i < self.hit_regions@.len() && *region == #[trigger] self.hit_regions@[i]
                    && region.rect.covers(x as int, y as int) && forall|j: int|
                    0 <= j < i ==> !(#[trigger] self.hit_regions@[j]).rect.covers(x as int, y as int),
    {
        let mut i: usize = 0;
        while i < self.hit_regions.len()
            invariant
                i <= self.hit_regions.len(),
                forall|j: int|
                    0 <= j < i ==> !(#[trigger] self.hit_regions@[j]).rect.covers(x as int, y as int),
            decreases self.hit_regions.len() - i,
        {
            if self.hit_regions[i].rect.contains(x, y) {
                return Some(&self.hit_regions[i]);
            }
            i += 1;
        }
        None
    }

    /// Get total document height.
    pub fn document_height(&self) -> (h: u16)
        ensures
            h == self.root.rect.height,
    {
        self.root.rect.height
    }

    /// Check if viewport can scroll down.
    pub fn can_scroll_down(&self) -> (b: bool)
        ensures
            b == (self.viewport.scroll_y + self.viewport.height < self.root.rect.height),
    {
        (self.viewport.scroll_y as u32) + (self.viewport.height as u32) < self.root.rect.height as u32
    }

    /// Check if viewport can scroll up.
    pub fn can_scroll_up(&self) -> (b: bool)
        ensures
            b == (self.viewport.scroll_y > 0),
    {
        self.viewport.scroll_y > 0
    }
}

} // verus!
