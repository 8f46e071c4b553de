//! What a renderer needs to know of a layout besides the tree: which nodes
//! are in view and on which screen row, what the status bar says, and where
//! overlays go. Drawing itself is the renderer's.

use crate::ir::{push_str_chars, CalloutKind};
use crate::layout::text::{sat_add, sat_sub};
use crate::layout::types::{max_scroll, ElementView, Rectangle};
use crate::layout::{LayoutElement, LayoutNode, LayoutTree};
use crate::text::{decimal_of, push_decimal, string_of};
use crate::theme::{CalloutStyle, HeadingStyle, Theme};
use vstd::prelude::*;

verus! {

/// Whether a node stays in view as long as any of its rows is: callouts,
/// block quotes, code blocks, lists, list items, tables and table rows do.
/// Any other node is in view only while its first row is.
pub open spec fn is_container(e: ElementView) -> bool {
    e is Callout || e is BlockQuote || e is CodeBlock || e is List || e is ListItem || e is Table
        || e is TableRow
}

/// The screen row on which a node begins, in a view of `rows` rows that is
/// scrolled to document row `scroll_y`; `None` where the node is out of
/// view. A container whose first row is above the view begins on screen
/// row 0.
pub open spec fn display_row(
    e: ElementView,
    rect: Rectangle,
    scroll_y: u16,
    rows: u16,
) -> Option<u16> {
    if is_container(e) {
        if rect.y < scroll_y + rows && rect.y + rect.height > scroll_y {
            Some(sat_sub(rect.y, scroll_y))
        } else {
            None
        }
    } else if rect.y >= scroll_y && rect.y - scroll_y < rows {
        Some((rect.y - scroll_y) as u16)
    } else {
        None
    }
}

/// The screen row on which `node` begins, if it is in view.
pub fn visible_row(node: &LayoutNode, scroll_y: u16, rows: u16) -> (row: Option<u16>)
    ensures
        row == display_row(node@.element, node.rect, scroll_y, rows),
{
    let container = match &node.element {
        LayoutElement::Callout { .. } => true,
        LayoutElement::BlockQuote => true,
        LayoutElement::CodeBlock { .. } => true,
        LayoutElement::List { .. } => true,
        LayoutElement::ListItem { .. } => true,
        LayoutElement::Table { .. } => true,
        LayoutElement::TableRow { .. } => true,
        _ => false,
    };
    let y = node.rect.y;
    if container {
        if (y as u32) < scroll_y as u32 + rows as u32 && y as u32 + node.rect.height as u32
            > scroll_y as u32 {
            Some(y.saturating_sub(scroll_y))
        } else {
            None
        }
    } else if y >= scroll_y && y - scroll_y < rows {
        Some(y - scroll_y)
    } else {
        None
    }
}

/// How many rows of a node at `rect` are in a view of `rows` rows that is
/// scrolled to document row `scroll_y`: those from the top of the view on,
/// as far as the view has room below the node's first row.
pub open spec fn rows_in_view(rect: Rectangle, scroll_y: u16, rows: u16) -> u16 {
    let left = sat_sub(rect.height, sat_sub(scroll_y, rect.y));
    let room = sat_sub(rows, sat_sub(rect.y, scroll_y));
    if left < room {
        left
    } else {
        room
    }
}

/// How many rows of `node` are in view.
pub fn shown_rows(node: &LayoutNode, scroll_y: u16, rows: u16) -> (n: u16)
    ensures
        n == rows_in_view(node.rect, scroll_y, rows),
{
    let left = node.rect.height.saturating_sub(scroll_y.saturating_sub(node.rect.y));
    let room = rows.saturating_sub(node.rect.y.saturating_sub(scroll_y));
    if left < room {
        left
    } else {
        room
    }
}

/// The screen row of line `index` of a text whose first line stands on
/// document row `first`; `None` where that line is out of view.
pub open spec fn line_row(first: u16, index: int, scroll_y: u16, rows: u16) -> Option<u16> {
    let row = first + index;
    if scroll_y <= row < scroll_y + rows {
        Some((row - scroll_y) as u16)
    } else {
        None
    }
}

/// The screen row of line `index` of a text that begins on document row
/// `first`, if that line is in view.
pub fn visible_line(first: u16, index: usize, scroll_y: u16, rows: u16) -> (row: Option<u16>)
    ensures
        row == line_row(first, index as int, scroll_y, rows),
{
    // A view ends before document row `2 * u16::MAX`.
    if index > 2 * (u16::MAX as usize) {
        return None;
    }
    let row: u32 = first as u32 + index as u32;
    if row >= scroll_y as u32 && row - (scroll_y as u32) < rows as u32 {
        Some((row - scroll_y as u32) as u16)
    } else {
        None
    }
}

/// Where in the document the view stands.
#[derive(Debug, Clone, Copy, PartialEq, Eq, Structural)]
pub enum Position {
    /// The whole document is in view.
    All,
    Top,
    Bottom,
    /// So many hundredths of the way down.
    Percent(u16),
}

/// Where the view of `height` rows, scrolled to `scroll_y`, stands in a
/// document of `doc_height` rows.
pub open spec fn position_of(scroll_y: u16, height: u16, doc_height: u16) -> Position {
    let last = max_scroll(doc_height, height);
    if doc_height <= height {
        Position::All
    } else if scroll_y == 0 {
        Position::Top
    } else if scroll_y >= last {
        Position::Bottom
    } else {
        Position::Percent(((scroll_y * 100) / last) as u16)
    }
}

/// The label of a position, as the status bar shows it.
pub open spec fn position_label(p: Position) -> Seq<char> {
    match p {
        Position::All => " All "@,
        Position::Top => " Top "@,
        Position::Bottom => " Bot "@,
        Position::Percent(n) => " "@ + decimal_of(n as nat) + "% "@,
    }
}

/// First document line in view, counted from 1.
pub open spec fn first_line(scroll_y: u16) -> u16 {
    sat_add(scroll_y, 1)
}

/// Last document line in view.
pub open spec fn last_line(scroll_y: u16, height: u16, doc_height: u16) -> u16 {
    let end = sat_add(scroll_y, height);
    if end < doc_height {
        end
    } else {
        doc_height
    }
}

/// The hint at the right end of the status bar.
pub open spec fn help_hint() -> Seq<char> {
    "Press 'h' for help"@
}

/// The position and the lines in view: ` Top Lines 1-24/100 `.
pub open spec fn status_head(scroll_y: u16, height: u16, doc_height: u16) -> Seq<char> {
    position_label(position_of(scroll_y, height, doc_height)) + "Lines "@ + decimal_of(
        first_line(scroll_y) as nat,
    ) + "-"@ + decimal_of(last_line(scroll_y, height, doc_height) as nat) + "/"@ + decimal_of(
        doc_height as nat,
    ) + " "@
}

/// `n` spaces.
pub open spec fn spaces(n: int) -> Seq<char> {
    Seq::new(
        if n < 0 {
            0
        } else {
            n as nat
        },
        |i: int| ' ',
    )
}

/// The text of the status bar in a terminal `width` cells wide: position
/// and lines at the left, the hint at the right, spaces between them as
/// far as there is room.
pub open spec fn status_text(scroll_y: u16, height: u16, doc_height: u16, width: u16) -> Seq<char> {
    let head = status_head(scroll_y, height, doc_height);
    head + spaces(width - head.len() - help_hint().len()) + help_hint()
}

/// Where the view stands in the document.
pub fn position(tree: &LayoutTree) -> (p: Position)
    ensures
        p == position_of(tree.viewport.scroll_y, tree.viewport.height, tree.root.rect.height),
{
    let doc_height = tree.document_height();
    let height = tree.viewport.height;
    let scroll_y = tree.viewport.scroll_y;
    if doc_height <= height {
        Position::All
    } else if scroll_y == 0 {
        Position::Top
    } else if scroll_y >= doc_height - height {
        Position::Bottom
    } else {
        let last: u32 = (doc_height - height) as u32;
        let percent: u32 = (scroll_y as u32 * 100) / last;
        assert(percent <= 100) by (nonlinear_arith)
            requires
                percent == (scroll_y as int * 100) / (last as int),
                0 < scroll_y < last,
        ;
        Position::Percent(percent as u16)
    }
}

/// The text of the status bar for `tree` in a terminal `width` cells wide.
pub fn status_line(tree: &LayoutTree, width: u16) -> (text: String)
    ensures
        text@ == status_text(
            tree.viewport.scroll_y,
            tree.viewport.height,
            tree.root.rect.height,
            width,
        ),
{
    let doc_height = tree.document_height();
    let height = tree.viewport.height;
    let scroll_y = tree.viewport.scroll_y;
    let mut out: Vec<char> = Vec::new();
    match position(tree) {
        Position::All => push_str_chars(&mut out, " All "),
        Position::Top => push_str_chars(&mut out, " Top "),
        Position::Bottom => push_str_chars(&mut out, " Bot "),
        Position::Percent(n) => {
            push_str_chars(&mut out, " ");
            push_decimal(&mut out, n as usize);
            push_str_chars(&mut out, "% ");
        },
    }
    let end = scroll_y.saturating_add(height);
    let last = if end < doc_height {
        end
    } else {
        doc_height
    };
    push_str_chars(&mut out, "Lines ");
    push_decimal(&mut out, scroll_y.saturating_add(1) as usize);
    push_str_chars(&mut out, "-");
    push_decimal(&mut out, last as usize);
    push_str_chars(&mut out, "/");
    push_decimal(&mut out, doc_height as usize);
    push_str_chars(&mut out, " ");
    let ghost head = status_head(scroll_y, height, doc_height);
    let hint = "Press 'h' for help";
    let hint_len = hint.unicode_len();
    let used = out.len();
    let mut pad: usize = 0;
    let room: usize = if width as usize > used {
        let left = width as usize - used;
        if left > hint_len {
            left - hint_len
        } else {
            0
        }
    } else {
        0
    };
    while pad < room
        invariant
            pad <= room,
            out@ == head + spaces(pad as int),
        decreases room - pad,
    {
        out.push(' ');
        pad += 1;
    }
    push_str_chars(&mut out, hint);
    string_of(&out)
}

/// The rectangle of an overlay of at most `width` by `height` cells,
/// centered in an area of `area_width` by `area_height` cells.
pub open spec fn centered_rect(area_width: u16, area_height: u16, width: u16, height: u16) -> Rectangle {
    let w = if width < area_width {
        width
    } else {
        area_width
    };
    let h = if height < area_height {
        height
    } else {
        area_height
    };
    Rectangle { x: ((area_width - w) / 2) as u16, y: ((area_height - h) / 2) as u16, width: w, height: h }
}

/// The rectangle of an overlay, centered in an area.
pub fn centered(area_width: u16, area_height: u16, width: u16, height: u16) -> (r: Rectangle)
    ensures
        r == centered_rect(area_width, area_height, width, height),
        r.x + r.width <= area_width,
        r.y + r.height <= area_height,
{
    let w = if width < area_width {
        width
    } else {
        area_width
    };
    let h = if height < area_height {
        height
    } else {
        area_height
    };
    Rectangle { x: (area_width - w) / 2, y: (area_height - h) / 2, width: w, height: h }
}

impl Theme {
    /// The style of headings of `level`; levels beyond 6 have the style of
    /// level 6.
    pub fn heading_style(&self, level: u8) -> (style: &HeadingStyle)
        ensures
            *style == if level == 1 {
                self.blocks.heading.h1
            } else if level == 2 {
                self.blocks.heading.h2
            } else if level == 3 {
                self.blocks.heading.h3
            } else if level == 4 {
                self.blocks.heading.h4
            } else if level == 5 {
                self.blocks.heading.h5
            } else {
                self.blocks.heading.h6
            },
    {
        if level == 1 {
            &self.blocks.heading.h1
        } else if level == 2 {
            &self.blocks.heading.h2
        } else if level == 3 {
            &self.blocks.heading.h3
        } else if level == 4 {
            &self.blocks.heading.h4
        } else if level == 5 {
            &self.blocks.heading.h5
        } else {
            &self.blocks.heading.h6
        }
    }

    /// The style of callouts of `kind`.
    pub fn callout_style(&self, kind: CalloutKind) -> (style: &CalloutStyle)
        ensures
            *style == match kind {
                CalloutKind::Note => self.blocks.callout.note,
                CalloutKind::Warning => self.blocks.callout.warning,
                CalloutKind::Important => self.blocks.callout.important,
                CalloutKind::Tip => self.blocks.callout.tip,
                CalloutKind::Caution => self.blocks.callout.caution,
            },
    {
        match kind {
            CalloutKind::Note => &self.blocks.callout.note,
            CalloutKind::Warning => &self.blocks.callout.warning,
            CalloutKind::Important => &self.blocks.callout.important,
            CalloutKind::Tip => &self.blocks.callout.tip,
            CalloutKind::Caution => &self.blocks.callout.caution,
        }
    }
}

/// Whether headings of `level` are drawn in bold: those of the first two
/// levels are.
pub fn heading_is_bold(level: u8) -> (bold: bool)
    ensures
        bold == (level <= 2),
{
    level <= 2
}

} // verus!
