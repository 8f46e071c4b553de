//! Intermediate representation (IR) of a document.
//!
//! The IR is semantic, not visual: a document is a sequence of blocks, a
//! block holds inlines or further blocks. Each type has a mathematical model
//! (its view), in which vectors are sequences and strings are sequences of
//! characters; the contracts of the parser and of the layout engine are
//! stated over these models.

use crate::text::{chars_of, string_of};
use vstd::prelude::*;

verus! {

/// Top-level document structure.
#[derive(Debug, PartialEq)]
pub struct Document {
    /// Document metadata (title, frontmatter, etc.).
    pub metadata: Metadata,
    /// Block-level content.
    pub blocks: Vec<Block>,
}

/// Document metadata.
#[derive(Debug, PartialEq)]
pub struct Metadata {
    /// Document title (if specified).
    pub title: Option<String>,
    /// Frontmatter key-value pairs, in source order.
    pub frontmatter: Vec<(String, String)>,
}

/// Block-level elements (vertical stacking).
#[derive(Debug, PartialEq)]
pub enum Block {
    /// Heading with level (1-6) and inline content.
    Heading { level: u8, content: Vec<Inline> },
    /// Paragraph with inline content.
    Paragraph { content: Vec<Inline> },
    /// Code block with optional language hint.
    CodeBlock { lang: Option<String>, code: String },
    /// Block quote containing other blocks.
    BlockQuote { blocks: Vec<Block> },
    /// List (ordered or unordered).
    List { ordered: bool, start: usize, items: Vec<ListItem> },
    /// Table with headers, rows, and column alignment.
    Table { headers: Vec<TableCell>, rows: Vec<Vec<TableCell>>, alignment: Vec<Alignment> },
    /// Horizontal rule / separator.
    HorizontalRule,
    /// Callout / admonition.
    Callout { kind: CalloutKind, title: Option<String>, content: Vec<Block> },
}

/// List item (can contain multiple blocks for nested content).
#[derive(Debug, PartialEq)]
pub struct ListItem {
    /// Block-level content of this item.
    pub content: Vec<Block>,
    /// Task list checkbox state: `Some(true)` = checked, `Some(false)` =
    /// unchecked, `None` = not a task.
    pub task: Option<bool>,
}

/// Table cell containing inline content.
#[derive(Debug, PartialEq)]
pub struct TableCell {
    pub content: Vec<Inline>,
}

/// Column alignment for tables.
#[derive(Debug, Clone, Copy, PartialEq, Eq, Structural)]
pub enum Alignment {
    Left,
    Center,
    Right,
    /// The column names no alignment.
    Unaligned,
}

/// Callout / admonition type.
#[derive(Debug, Clone, Copy, PartialEq, Eq, Structural)]
pub enum CalloutKind {
    Note,
    Warning,
    Important,
    Tip,
    Caution,
}

/// Inline elements (horizontal flow within blocks).
#[derive(Debug, PartialEq)]
pub enum Inline {
    /// Plain text.
    Text(String),
    /// Strong emphasis (semantic bold).
    Strong(Vec<Inline>),
    /// Emphasis (semantic italic).
    Emphasis(Vec<Inline>),
    /// Strikethrough text.
    Strikethrough(Vec<Inline>),
    /// Inline code.
    Code(String),
    /// Hyperlink.
    Link { url: String, title: Option<String>, text: Vec<Inline> },
    /// Image reference.
    Image { url: String, alt: String, title: Option<String> },
    /// Hard line break.
    LineBreak,
    /// Soft line break.
    SoftBreak,
}

/// Model of an [`Inline`].
pub enum InlineView {
    Text(Seq<char>),
    Strong(Seq<InlineView>),
    Emphasis(Seq<InlineView>),
    Strikethrough(Seq<InlineView>),
    Code(Seq<char>),
    Link { url: Seq<char>, title: Option<Seq<char>>, text: Seq<InlineView> },
    Image { url: Seq<char>, alt: Seq<char>, title: Option<Seq<char>> },
    LineBreak,
    SoftBreak,
}

/// Model of a [`ListItem`].
pub struct ListItemView {
    pub content: Seq<BlockView>,
    pub task: Option<bool>,
}

/// Model of a [`Block`]. A table cell is modelled by its content.
pub enum BlockView {
    Heading { level: u8, content: Seq<InlineView> },
    Paragraph { content: Seq<InlineView> },
    CodeBlock { lang: Option<Seq<char>>, code: Seq<char> },
    BlockQuote { blocks: Seq<BlockView> },
    List { ordered: bool, start: usize, items: Seq<ListItemView> },
    Table {
        headers: Seq<Seq<InlineView>>,
        rows: Seq<Seq<Seq<InlineView>>>,
        alignment: Seq<Alignment>,
    },
    HorizontalRule,
    Callout { kind: CalloutKind, title: Option<Seq<char>>, content: Seq<BlockView> },
}

/// Model of a [`Document`].
pub struct DocumentView {
    pub title: Option<Seq<char>>,
    pub frontmatter: Seq<(Seq<char>, Seq<char>)>,
    pub blocks: Seq<BlockView>,
}

/// Model of an optional string.
pub open spec fn opt_view(o: Option<String>) -> Option<Seq<char>> {
    match o {
        Some(s) => Some(s@),
        None => None,
    }
}

/// Models of a sequence of inlines, element by element.
pub open spec fn inlines_view(s: Seq<Inline>) -> Seq<InlineView>
    decreases s,
{
    Seq::new(
        s.len(),
        |i: int|
            if 0 <= i < s.len() {
                s[i].view()
            } else {
                InlineView::LineBreak
            },
    )
}

/// Models of a sequence of blocks, element by element.
pub open spec fn blocks_view(s: Seq<Block>) -> Seq<BlockView>
    decreases s,
{
    Seq::new(
        s.len(),
        |i: int|
            if 0 <= i < s.len() {
                s[i].view()
            } else {
                BlockView::HorizontalRule
            },
    )
}

/// Models of a sequence of list items, element by element.
pub open spec fn items_view(s: Seq<ListItem>) -> Seq<ListItemView>
    decreases s,
{
    Seq::new(
        s.len(),
        |i: int|
            if 0 <= i < s.len() {
                s[i].view()
            } else {
                ListItemView { content: Seq::empty(), task: None }
            },
    )
}

/// Models of a row of table cells.
pub open spec fn cells_view(s: Seq<TableCell>) -> Seq<Seq<InlineView>> {
    Seq::new(s.len(), |i: int| s[i].view())
}

/// Models of the rows of a table.
pub open spec fn rows_view(s: Seq<Vec<TableCell>>) -> Seq<Seq<Seq<InlineView>>> {
    Seq::new(s.len(), |i: int| cells_view(s[i]@))
}

/// Models of frontmatter pairs.
pub open spec fn pairs_view(s: Seq<(String, String)>) -> Seq<(Seq<char>, Seq<char>)> {
    Seq::new(s.len(), |i: int| (s[i].0@, s[i].1@))
}

impl View for Inline {
    type V = InlineView;

    open spec fn view(&self) -> InlineView
        decreases self,
    {
        match self {
            Inline::Text(s) => InlineView::Text(s@),
            Inline::Strong(v) => InlineView::Strong(inlines_view(v@)),
            Inline::Emphasis(v) => InlineView::Emphasis(inlines_view(v@)),
            Inline::Strikethrough(v) => InlineView::Strikethrough(inlines_view(v@)),
            Inline::Code(s) => InlineView::Code(s@),
            Inline::Link { url, title, text } => InlineView::Link {
                url: url@,
                title: opt_view(*title),
                text: inlines_view(text@),
            },
            Inline::Image { url, alt, title } => InlineView::Image {
                url: url@,
                alt: alt@,
                title: opt_view(*title),
            },
            Inline::LineBreak => InlineView::LineBreak,
            Inline::SoftBreak => InlineView::SoftBreak,
        }
    }
}

impl View for TableCell {
    type V = Seq<InlineView>;

    open spec fn view(&self) -> Seq<InlineView> {
        inlines_view(self.content@)
    }
}

impl View for ListItem {
    type V = ListItemView;

    open spec fn view(&self) -> ListItemView
        decreases self,
    {
        ListItemView { content: blocks_view(self.content@), task: self.task }
    }
}

impl View for Block {
    type V = BlockView;

    open spec fn view(&self) -> BlockView
        decreases self,
    {
        match self {
            Block::Heading { level, content } => BlockView::Heading {
                level: *level,
                content: inlines_view(content@),
            },
            Block::Paragraph { content } => BlockView::Paragraph { content: inlines_view(content@) },
            Block::CodeBlock { lang, code } => BlockView::CodeBlock {
                lang: opt_view(*lang),
                code: code@,
            },
            Block::BlockQuote { blocks } => BlockView::BlockQuote { blocks: blocks_view(blocks@) },
            Block::List { ordered, start, items } => BlockView::List {
                ordered: *ordered,
                start: *start,
                items: items_view(items@),
            },
            Block::Table { headers, rows, alignment } => BlockView::Table {
                headers: cells_view(headers@),
                rows: rows_view(rows@),
                alignment: alignment@,
            },
            Block::HorizontalRule => BlockView::HorizontalRule,
            Block::Callout { kind, title, content } => BlockView::Callout {
                kind: *kind,
                title: opt_view(*title),
                content: blocks_view(content@),
            },
        }
    }
}

impl View for Document {
    type V = DocumentView;

    open spec fn view(&self) -> DocumentView {
        DocumentView {
            title: opt_view(self.metadata.title),
            frontmatter: pairs_view(self.metadata.frontmatter@),
            blocks: blocks_view(self.blocks@),
        }
    }
}

/// Plain text of an inline: text and code literally, the content of styled
/// spans and links concatenated, the alternative text of an image, a newline
/// for a hard break and a space for a soft break.
pub open spec fn plain_text(i: InlineView) -> Seq<char>
    decreases i,
{
    match i {
        InlineView::Text(s) => s,
        InlineView::Strong(v) => plain_text_of(v, v.len() as int),
        InlineView::Emphasis(v) => plain_text_of(v, v.len() as int),
        InlineView::Strikethrough(v) => plain_text_of(v, v.len() as int),
        InlineView::Code(s) => s,
        InlineView::Link { url, title, text } => plain_text_of(text, text.len() as int),
        InlineView::Image { url, alt, title } => alt,
        InlineView::LineBreak => seq!['\n'],
        InlineView::SoftBreak => seq![' '],
    }
}

/// Concatenated plain text of the first `n` inlines of `v`.
pub open spec fn plain_text_of(v: Seq<InlineView>, n: int) -> Seq<char>
    decreases v, n,
{
    if n <= 0 || n > v.len() {
        Seq::empty()
    } else {
        plain_text_of(v, n - 1) + plain_text(v[n - 1])
    }
}

/// Concatenated plain text of all of `v`.
pub open spec fn plain_text_all(v: Seq<InlineView>) -> Seq<char> {
    plain_text_of(v, v.len() as int)
}

/// The model of a sequence with one more inline.
pub proof fn lemma_inlines_view_push(s: Seq<Inline>, x: Inline)
    ensures
        inlines_view(s.push(x)) == inlines_view(s).push(x@),
{
}

/// The model of a sequence with one more block.
pub proof fn lemma_blocks_view_push(s: Seq<Block>, x: Block)
    ensures
        blocks_view(s.push(x)) == blocks_view(s).push(x@),
{
}

/// The model of a sequence with one more list item.
pub proof fn lemma_items_view_push(s: Seq<ListItem>, x: ListItem)
    ensures
        items_view(s.push(x)) == items_view(s).push(x@),
{
}

/// The model of a row with one more cell.
pub proof fn lemma_cells_view_push(s: Seq<TableCell>, x: TableCell)
    ensures
        cells_view(s.push(x)) == cells_view(s).push(x@),
{
}

/// The model of a table body with one more row.
pub proof fn lemma_rows_view_push(s: Seq<Vec<TableCell>>, x: Vec<TableCell>)
    ensures
        rows_view(s.push(x)) == rows_view(s).push(cells_view(x@)),
{
}

impl Default for Metadata {
    fn default() -> (m: Metadata)
        ensures
            m.title is None,
            m.frontmatter@.len() == 0,
    {
        Metadata { title: None, frontmatter: Vec::new() }
    }
}

impl Document {
    /// Create a new empty document.
    pub fn new() -> (d: Document)
        ensures
            d@ == (DocumentView { title: None, frontmatter: Seq::empty(), blocks: Seq::empty() }),
            d.blocks@.len() == 0,
            d.metadata.title is None,
    {
        let d = Document { metadata: Metadata::default(), blocks: Vec::new() };
        assert(d@.frontmatter =~= Seq::empty());
        assert(d@.blocks =~= Seq::empty());
        d
    }

    /// Create a document with blocks.
    pub fn with_blocks(blocks: Vec<Block>) -> (d: Document)
        ensures
            d.blocks == blocks,
            d.metadata.title is None,
            d@ == (DocumentView {
                title: None,
                frontmatter: Seq::empty(),
                blocks: blocks_view(blocks@),
            }),
    {
        let d = Document { metadata: Metadata::default(), blocks };
        assert(d@.frontmatter =~= Seq::empty());
        d
    }
}

impl Default for Document {
    fn default() -> (d: Document)
        ensures
            d@ == (DocumentView { title: None, frontmatter: Seq::empty(), blocks: Seq::empty() }),
    {
        Document::new()
    }
}

/// Appends the characters of `s` to `out`.
pub fn push_str_chars(out: &mut Vec<char>, s: &str)
    ensures
        final(out)@ == old(out)@ + s@,
{
    let mut cs = chars_of(s);
    out.append(&mut cs);
}

/// Appends the plain text of every inline of `v` to `out`.
pub fn push_plain_text_all(v: &Vec<Inline>, out: &mut Vec<char>)
    ensures
        final(out)@ == old(out)@ + plain_text_all(inlines_view(v@)),
    decreases v,
{
    let ghost vv = inlines_view(v@);
    let mut k: usize = 0;
    while k < v.len()
        invariant
            k <= v.len(),
            vv == inlines_view(v@),
            out@ == old(out)@ + plain_text_of(vv, k as int),
        decreases v.len() - k,
    {
        v[k].push_plain_text(out);
        k += 1;
    }
}

impl Inline {
    /// Appends the plain text of this inline to `out`.
    pub fn push_plain_text(&self, out: &mut Vec<char>)
        ensures
            final(out)@ == old(out)@ + plain_text(self@),
        decreases self,
    {
        match self {
            Inline::Text(s) => push_str_chars(out, s.as_str()),
            Inline::Strong(v) => push_plain_text_all(v, out),
            Inline::Emphasis(v) => push_plain_text_all(v, out),
            Inline::Strikethrough(v) => push_plain_text_all(v, out),
            Inline::Code(s) => push_str_chars(out, s.as_str()),
            Inline::Link { url, title, text } => push_plain_text_all(text, out),
            Inline::Image { url, alt, title } => push_str_chars(out, alt.as_str()),
            Inline::LineBreak => {
                out.push('\n');
            },
            Inline::SoftBreak => {
                out.push(' ');
            },
        }
    }

    /// Extract plain text from inline content (recursive).
    pub fn to_plain_text(&self) -> (s: String)
        ensures
            s@ == plain_text(self@),
    {
        let mut out: Vec<char> = Vec::new();
        self.push_plain_text(&mut out);
        string_of(&out)
    }
}

/// A copy of an optional string.
pub fn clone_opt_string(o: &Option<String>) -> (r: Option<String>)
    ensures
        opt_view(r) == opt_view(*o),
{
    match o {
        Some(s) => Some(s.clone()),
        None => None,
    }
}

/// A copy of a sequence of inlines.
pub fn clone_inlines(v: &Vec<Inline>) -> (r: Vec<Inline>)
    ensures
        inlines_view(r@) == inlines_view(v@),
    decreases v,
{
    let mut r: Vec<Inline> = Vec::new();
    let mut k: usize = 0;
    while k < v.len()
        invariant
            k <= v.len(),
            inlines_view(r@) == inlines_view(v@).take(k as int),
        decreases v.len() - k,
    {
        let c = v[k].clone();
        proof {
            lemma_inlines_view_push(r@, c);
        }
        r.push(c);
        k += 1;
    }
    r
}

/// A copy of a sequence of blocks.
pub fn clone_blocks(v: &Vec<Block>) -> (r: Vec<Block>)
    ensures
        blocks_view(r@) == blocks_view(v@),
    decreases v,
{
    let mut r: Vec<Block> = Vec::new();
    let mut k: usize = 0;
    while k < v.len()
        invariant
            k <= v.len(),
            blocks_view(r@) == blocks_view(v@).take(k as int),
        decreases v.len() - k,
    {
        let c = v[k].clone();
        proof {
            lemma_blocks_view_push(r@, c);
        }
        r.push(c);
        k += 1;
    }
    r
}

/// A copy of a sequence of list items.
fn clone_items(v: &Vec<ListItem>) -> (r: Vec<ListItem>)
    ensures
        items_view(r@) == items_view(v@),
    decreases v,
{
    let mut r: Vec<ListItem> = Vec::new();
    let mut k: usize = 0;
    while k < v.len()
        invariant
            k <= v.len(),
            items_view(r@) == items_view(v@).take(k as int),
        decreases v.len() - k,
    {
        let c = ListItem { content: clone_blocks(&v[k].content), task: v[k].task };
        proof {
            lemma_items_view_push(r@, c);
        }
        r.push(c);
        k += 1;
    }
    r
}

/// A copy of a row of table cells.
fn clone_cells(v: &Vec<TableCell>) -> (r: Vec<TableCell>)
    ensures
        cells_view(r@) == cells_view(v@),
{
    let mut r: Vec<TableCell> = Vec::new();
    let mut k: usize = 0;
    while k < v.len()
        invariant
            k <= v.len(),
            cells_view(r@) == cells_view(v@).take(k as int),
        decreases v.len() - k,
    {
        let c = TableCell { content: clone_inlines(&v[k].content) };
        proof {
            lemma_cells_view_push(r@, c);
        }
        r.push(c);
        k += 1;
    }
    r
}

/// A copy of the rows of a table.
fn clone_rows(v: &Vec<Vec<TableCell>>) -> (r: Vec<Vec<TableCell>>)
    ensures
        rows_view(r@) == rows_view(v@),
{
    let mut r: Vec<Vec<TableCell>> = Vec::new();
    let mut k: usize = 0;
    while k < v.len()
        invariant
            k <= v.len(),
            rows_view(r@) == rows_view(v@).take(k as int),
        decreases v.len() - k,
    {
        let c = clone_cells(&v[k]);
        proof {
            lemma_rows_view_push(r@, c);
        }
        r.push(c);
        k += 1;
    }
    r
}

/// A copy of the column alignments of a table.
pub fn clone_alignment(v: &Vec<Alignment>) -> (r: Vec<Alignment>)
    ensures
        r@ == v@,
{
    let mut r: Vec<Alignment> = Vec::new();
    let mut k: usize = 0;
    while k < v.len()
        invariant
            k <= v.len(),
            r@ == v@.take(k as int),
        decreases v.len() - k,
    {
        r.push(v[k]);
        k += 1;
    }
    r
}

impl Clone for Inline {
    fn clone(&self) -> (r: Inline)
        ensures
            r@ == self@,
        decreases self,
    {
        match self {
            Inline::Text(s) => Inline::Text(s.clone()),
            Inline::Strong(v) => Inline::Strong(clone_inlines(v)),
            Inline::Emphasis(v) => Inline::Emphasis(clone_inlines(v)),
            Inline::Strikethrough(v) => Inline::Strikethrough(clone_inlines(v)),
            Inline::Code(s) => Inline::Code(s.clone()),
            Inline::Link { url, title, text } => Inline::Link {
                url: url.clone(),
                title: clone_opt_string(title),
                text: clone_inlines(text),
            },
            Inline::Image { url, alt, title } => Inline::Image {
                url: url.clone(),
                alt: alt.clone(),
                title: clone_opt_string(title),
            },
            Inline::LineBreak => Inline::LineBreak,
            Inline::SoftBreak => Inline::SoftBreak,
        }
    }
}

impl Clone for TableCell {
    fn clone(&self) -> (r: TableCell)
        ensures
            r@ == self@,
    {
        TableCell { content: clone_inlines(&self.content) }
    }
}

impl Clone for ListItem {
    fn clone(&self) -> (r: ListItem)
        ensures
            r@ == self@,
    {
        ListItem { content: clone_blocks(&self.content), task: self.task }
    }
}

impl Clone for Block {
    fn clone(&self) -> (r: Block)
        ensures
            r@ == self@,
        decreases self,
    {
        match self {
            Block::Heading { level, content } => Block::Heading {
                level: *level,
                content: clone_inlines(content),
            },
            Block::Paragraph { content } => Block::Paragraph { content: clone_inlines(content) },
            Block::CodeBlock { lang, code } => Block::CodeBlock {
                lang: clone_opt_string(lang),
                code: code.clone(),
            },
            Block::BlockQuote { blocks } => Block::BlockQuote { blocks: clone_blocks(blocks) },
            Block::List { ordered, start, items } => Block::List {
                ordered: *ordered,
                start: *start,
                items: clone_items(items),
            },
            Block::Table { headers, rows, alignment } => Block::Table {
                headers: clone_cells(headers),
                rows: clone_rows(rows),
                alignment: clone_alignment(alignment),
            },
            Block::HorizontalRule => Block::HorizontalRule,
            Block::Callout { kind, title, content } => Block::Callout {
                kind: *kind,
                title: clone_opt_string(title),
                content: clone_blocks(content),
            },
        }
    }
}

impl Clone for Metadata {
    fn clone(&self) -> (r: Metadata)
        ensures
            opt_view(r.title) == opt_view(self.title),
            pairs_view(r.frontmatter@) == pairs_view(self.frontmatter@),
    {
        let mut pairs: Vec<(String, String)> = Vec::new();
        let mut k: usize = 0;
        while k < self.frontmatter.len()
            invariant
                k <= self.frontmatter.len(),
                pairs_view(pairs@) == pairs_view(self.frontmatter@).take(k as int),
            decreases self.frontmatter.len() - k,
        {
            let pair = (self.frontmatter[k].0.clone(), self.frontmatter[k].1.clone());
            proof {
                assert(pairs_view(pairs@.push(pair)) =~= pairs_view(pairs@).push((pair.0@, pair.1@)));
            }
            pairs.push(pair);
            k += 1;
        }
        Metadata { title: clone_opt_string(&self.title), frontmatter: pairs }
    }
}

impl Clone for Document {
    fn clone(&self) -> (r: Document)
        ensures
            r@ == self@,
    {
        Document { metadata: self.metadata.clone(), blocks: clone_blocks(&self.blocks) }
    }
}

} // verus!
