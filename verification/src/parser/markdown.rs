//! The IR builder: a push-down automaton over the tokenizer's events.
//!
//! The builder keeps a stack of open blocks, a stack of open inline spans
//! and the inlines finished at the current depth. [`ConverterView`] and
//! its functions say what each event does to that state; the executable
//! [`MarkdownConverter`] is proved to do exactly that. Malformed nesting is
//! tolerated: an end tag takes the innermost open context off its stack,
//! and the context is dropped where it is of another kind.

use super::events::{events_view, EventView, MdCodeBlockKind, MdEvent, MdTag, MdTagEnd, TagView};
use super::fixup::{close_quote, fix_items, fix_list_items, quote_block};
use crate::ir::{
    blocks_view, cells_view, clone_alignment, inlines_view, items_view, lemma_blocks_view_push,
    lemma_cells_view_push, lemma_inlines_view_push, lemma_items_view_push, lemma_rows_view_push,
    opt_view, plain_text_all, push_plain_text_all, rows_view, Alignment, Block, BlockView,
    Document, DocumentView, Inline, InlineView, ListItem, ListItemView, TableCell,
};
use crate::text::string_of;
use vstd::prelude::*;
use vstd::string::StringExecFns;

verus! {

/// An open block.
#[derive(Debug)]
pub enum BlockContext {
    Paragraph,
    Heading { level: u8 },
    BlockQuote { blocks: Vec<Block> },
    List { ordered: bool, start: usize, items: Vec<ListItem> },
    ListItem { blocks: Vec<Block>, task: Option<bool> },
    CodeBlock { lang: Option<String>, code: String },
    Table {
        headers: Vec<TableCell>,
        rows: Vec<Vec<TableCell>>,
        current_row: Vec<TableCell>,
        alignment: Vec<Alignment>,
    },
    TableHead,
    TableRow,
    TableCell,
}

/// Model of a [`BlockContext`].
pub enum BlockCtxView {
    Paragraph,
    Heading { level: u8 },
    BlockQuote { blocks: Seq<BlockView> },
    List { ordered: bool, start: usize, items: Seq<ListItemView> },
    ListItem { blocks: Seq<BlockView>, task: Option<bool> },
    CodeBlock { lang: Option<Seq<char>>, code: Seq<char> },
    Table {
        headers: Seq<Seq<InlineView>>,
        rows: Seq<Seq<Seq<InlineView>>>,
        current_row: Seq<Seq<InlineView>>,
        alignment: Seq<Alignment>,
    },
    TableHead,
    TableRow,
    TableCell,
}

impl View for BlockContext {
    type V = BlockCtxView;

    open spec fn view(&self) -> BlockCtxView {
        match self {
            BlockContext::Paragraph => BlockCtxView::Paragraph,
            BlockContext::Heading { level } => BlockCtxView::Heading { level: *level },
            BlockContext::BlockQuote { blocks } => BlockCtxView::BlockQuote {
                blocks: blocks_view(blocks@),
            },
            BlockContext::List { ordered, start, items } => BlockCtxView::List {
                ordered: *ordered,
                start: *start,
                items: items_view(items@),
            },
            BlockContext::ListItem { blocks, task } => BlockCtxView::ListItem {
                blocks: blocks_view(blocks@),
                task: *task,
            },
            BlockContext::CodeBlock { lang, code } => BlockCtxView::CodeBlock {
                lang: opt_view(*lang),
                code: code@,
            },
            BlockContext::Table { headers, rows, current_row, alignment } => BlockCtxView::Table {
                headers: cells_view(headers@),
                rows: rows_view(rows@),
                current_row: cells_view(current_row@),
                alignment: alignment@,
            },
            BlockContext::TableHead => BlockCtxView::TableHead,
            BlockContext::TableRow => BlockCtxView::TableRow,
            BlockContext::TableCell => BlockCtxView::TableCell,
        }
    }
}

/// What an open inline span is.
#[derive(Debug, Clone, Copy, PartialEq, Eq, Structural)]
pub enum SpanKind {
    Strong,
    Emphasis,
    Strikethrough,
    Link,
    Image,
}

/// An open inline span, with the inlines that were finished before it
/// opened. Links and images hold their destination and title.
#[derive(Debug)]
pub struct InlineContext {
    pub kind: SpanKind,
    pub url: String,
    pub title: Option<String>,
    pub saved: Vec<Inline>,
}

/// Model of an [`InlineContext`].
pub struct InlineCtxView {
    pub kind: SpanKind,
    pub url: Seq<char>,
    pub title: Option<Seq<char>>,
    pub saved: Seq<InlineView>,
}

impl View for InlineContext {
    type V = InlineCtxView;

    open spec fn view(&self) -> InlineCtxView {
        InlineCtxView {
            kind: self.kind,
            url: self.url@,
            title: opt_view(self.title),
            saved: inlines_view(self.saved@),
        }
    }
}

/// Models of a stack of open blocks, bottom first.
pub open spec fn block_stack_view(s: Seq<BlockContext>) -> Seq<BlockCtxView> {
    Seq::new(s.len(), |i: int| s[i]@)
}

/// Models of a stack of open inline spans, bottom first.
pub open spec fn inline_stack_view(s: Seq<InlineContext>) -> Seq<InlineCtxView> {
    Seq::new(s.len(), |i: int| s[i]@)
}

/// The model of a stack of open blocks with one more block.
proof fn lemma_block_stack_push(s: Seq<BlockContext>, x: BlockContext)
    ensures
        block_stack_view(s.push(x)) == block_stack_view(s).push(x@),
{
}

/// The model of a stack of open blocks without its innermost block.
proof fn lemma_block_stack_pop(s: Seq<BlockContext>)
    requires
        s.len() > 0,
    ensures
        block_stack_view(s.drop_last()) == block_stack_view(s).drop_last(),
        block_stack_view(s).last() == s.last()@,
{
}

/// The model of a stack of open spans with one more span.
proof fn lemma_inline_stack_push(s: Seq<InlineContext>, x: InlineContext)
    ensures
        inline_stack_view(s.push(x)) == inline_stack_view(s).push(x@),
{
}

/// The model of a stack of open spans without its innermost span.
proof fn lemma_inline_stack_pop(s: Seq<InlineContext>)
    requires
        s.len() > 0,
    ensures
        inline_stack_view(s.drop_last()) == inline_stack_view(s).drop_last(),
        inline_stack_view(s).last() == s.last()@,
{
}

/// Model of a [`MarkdownConverter`].
pub struct ConverterView {
    /// Blocks of the document finished so far.
    pub blocks: Seq<BlockView>,
    /// Open blocks, innermost last.
    pub block_stack: Seq<BlockCtxView>,
    /// Open inline spans, innermost last.
    pub inline_stack: Seq<InlineCtxView>,
    /// Inlines finished at the current depth.
    pub current: Seq<InlineView>,
}

/// Number that an ordered list begins with.
pub open spec fn list_start(first: u64) -> usize {
    if first > usize::MAX {
        usize::MAX
    } else {
        first as usize
    }
}

/// A string, unless it is empty.
pub open spec fn non_empty(s: Seq<char>) -> Option<Seq<char>> {
    if s.len() == 0 {
        None
    } else {
        Some(s)
    }
}

/// Index of the innermost open table among the first `n` open blocks, or
/// -1.
pub open spec fn innermost_table(stack: Seq<BlockCtxView>, n: int) -> int
    decreases n,
{
    if n <= 0 || n > stack.len() {
        -1
    } else if stack[n - 1] is Table {
        n - 1
    } else {
        innermost_table(stack, n - 1)
    }
}

/// Whether a table head is among the first `n` open blocks.
pub open spec fn in_table_head(stack: Seq<BlockCtxView>, n: int) -> bool
    decreases n,
{
    if n <= 0 || n > stack.len() {
        false
    } else {
        stack[n - 1] is TableHead || in_table_head(stack, n - 1)
    }
}

/// The inline that a closed span of `kind` becomes.
pub open spec fn span_inline(ctx: InlineCtxView, nested: Seq<InlineView>) -> InlineView {
    match ctx.kind {
        SpanKind::Strong => InlineView::Strong(nested),
        SpanKind::Emphasis => InlineView::Emphasis(nested),
        SpanKind::Strikethrough => InlineView::Strikethrough(nested),
        SpanKind::Link => InlineView::Link { url: ctx.url, title: ctx.title, text: nested },
        SpanKind::Image => InlineView::Image {
            url: ctx.url,
            alt: plain_text_all(nested),
            title: ctx.title,
        },
    }
}

/// The kind of span that an end tag closes, if it closes one.
pub open spec fn span_of(tag: MdTagEnd) -> Option<SpanKind> {
    match tag {
        MdTagEnd::Strong => Some(SpanKind::Strong),
        MdTagEnd::Emphasis => Some(SpanKind::Emphasis),
        MdTagEnd::Strikethrough => Some(SpanKind::Strikethrough),
        MdTagEnd::Link => Some(SpanKind::Link),
        MdTagEnd::Image => Some(SpanKind::Image),
        _ => None,
    }
}

impl ConverterView {
    /// The state before any event.
    pub open spec fn start() -> ConverterView {
        ConverterView {
            blocks: Seq::empty(),
            block_stack: Seq::empty(),
            inline_stack: Seq::empty(),
            current: Seq::empty(),
        }
    }

    /// With the innermost open block replaced.
    pub open spec fn with_top(self, top: BlockCtxView) -> ConverterView {
        ConverterView { block_stack: self.block_stack.drop_last().push(top), ..self }
    }

    /// With one more open block.
    pub open spec fn open(self, ctx: BlockCtxView) -> ConverterView {
        ConverterView { block_stack: self.block_stack.push(ctx), ..self }
    }

    /// Without the innermost open block.
    pub open spec fn pop(self) -> ConverterView {
        ConverterView { block_stack: self.block_stack.drop_last(), ..self }
    }

    /// With one more finished inline.
    pub open spec fn add_inline(self, inline: InlineView) -> ConverterView {
        ConverterView { current: self.current.push(inline), ..self }
    }

    /// Without finished inlines at the current depth.
    pub open spec fn cleared(self) -> ConverterView {
        ConverterView { current: Seq::empty(), ..self }
    }

    /// With one more open span, which saves the finished inlines.
    pub open spec fn open_span(
        self,
        kind: SpanKind,
        url: Seq<char>,
        title: Option<Seq<char>>,
    ) -> ConverterView {
        ConverterView {
            inline_stack: self.inline_stack.push(
                InlineCtxView { kind, url, title, saved: self.current },
            ),
            current: Seq::empty(),
            ..self
        }
    }

    /// A finished block goes into the innermost open block where that is a
    /// block quote or a list item, and to the document otherwise.
    pub open spec fn push_block(self, block: BlockView) -> ConverterView {
        if self.block_stack.len() > 0 {
            match self.block_stack.last() {
                BlockCtxView::BlockQuote { blocks } => self.with_top(
                    BlockCtxView::BlockQuote { blocks: blocks.push(block) },
                ),
                BlockCtxView::ListItem { blocks, task } => self.with_top(
                    BlockCtxView::ListItem { blocks: blocks.push(block), task },
                ),
                _ => ConverterView { blocks: self.blocks.push(block), ..self },
            }
        } else {
            ConverterView { blocks: self.blocks.push(block), ..self }
        }
    }

    /// Text goes to the innermost open block where that is a code block,
    /// and becomes an inline otherwise.
    pub open spec fn on_text(self, text: Seq<char>) -> ConverterView {
        if self.block_stack.len() > 0 && self.block_stack.last() is CodeBlock {
            self.with_top(
                BlockCtxView::CodeBlock {
                    lang: self.block_stack.last()->CodeBlock_lang,
                    code: self.block_stack.last()->CodeBlock_code + text,
                },
            )
        } else {
            self.add_inline(InlineView::Text(text))
        }
    }

    /// A start tag opens a block or a span.
    pub open spec fn start_tag(self, tag: TagView) -> ConverterView {
        match tag {
            TagView::Paragraph => self.open(BlockCtxView::Paragraph),
            TagView::Heading { level } => self.open(BlockCtxView::Heading { level }),
            TagView::BlockQuote => self.open(BlockCtxView::BlockQuote { blocks: Seq::empty() }),
            TagView::IndentedCode => self.open(
                BlockCtxView::CodeBlock { lang: None, code: Seq::empty() },
            ),
            TagView::FencedCode(info) => self.open(
                BlockCtxView::CodeBlock { lang: non_empty(info), code: Seq::empty() },
            ),
            TagView::List(first) => self.open(
                match first {
                    Some(n) => BlockCtxView::List {
                        ordered: true,
                        start: list_start(n),
                        items: Seq::empty(),
                    },
                    None => BlockCtxView::List { ordered: false, start: 1, items: Seq::empty() },
                },
            ),
            TagView::Item => self.open(BlockCtxView::ListItem { blocks: Seq::empty(), task: None }),
            TagView::Table(alignment) => self.open(
                BlockCtxView::Table {
                    headers: Seq::empty(),
                    rows: Seq::empty(),
                    current_row: Seq::empty(),
                    alignment,
                },
            ),
            TagView::TableHead => self.open(BlockCtxView::TableHead),
            TagView::TableRow => self.open(BlockCtxView::TableRow),
            TagView::TableCell => self.open(BlockCtxView::TableCell),
            TagView::Strong => self.open_span(SpanKind::Strong, Seq::empty(), None),
            TagView::Emphasis => self.open_span(SpanKind::Emphasis, Seq::empty(), None),
            TagView::Strikethrough => self.open_span(SpanKind::Strikethrough, Seq::empty(), None),
            TagView::Link { dest_url, title } => self.open_span(
                SpanKind::Link,
                dest_url,
                non_empty(title),
            ),
            TagView::Image { dest_url, title } => self.open_span(
                SpanKind::Image,
                dest_url,
                non_empty(title),
            ),
            TagView::Other => self,
        }
    }

    /// The end of a span of `kind`: the innermost open span leaves its
    /// stack; where it is of that kind, it becomes an inline after those it
    /// had saved.
    pub open spec fn end_span(self, kind: SpanKind) -> ConverterView {
        if self.inline_stack.len() == 0 {
            self
        } else {
            let ctx = self.inline_stack.last();
            let popped = ConverterView { inline_stack: self.inline_stack.drop_last(), ..self };
            if ctx.kind == kind {
                ConverterView { current: ctx.saved.push(span_inline(ctx, self.current)), ..popped }
            } else {
                popped
            }
        }
    }

    /// The end of a list item: inlines that are still unfinished become a
    /// paragraph of the item; then the item joins the list that is open
    /// around it.
    pub open spec fn end_item(self) -> ConverterView {
        let s1 = if self.current.len() > 0 {
            self.cleared().push_block(BlockView::Paragraph { content: self.current })
        } else {
            self
        };
        if s1.block_stack.len() == 0 {
            s1
        } else {
            let top = s1.block_stack.last();
            let s2 = s1.pop();
            match top {
                BlockCtxView::ListItem { blocks, task } => {
                    if s2.block_stack.len() > 0 && s2.block_stack.last() is List {
                        let list = s2.block_stack.last();
                        s2.with_top(
                            BlockCtxView::List {
                                ordered: list->List_ordered,
                                start: list->List_start,
                                items: list->List_items.push(
                                    ListItemView { content: blocks, task },
                                ),
                            },
                        )
                    } else {
                        s2
                    }
                },
                _ => s2,
            }
        }
    }

    /// The end of a table cell: the finished inlines become a cell of the
    /// current row of the innermost open table.
    pub open spec fn end_cell(self) -> ConverterView {
        let at = innermost_table(self.block_stack, self.block_stack.len() as int);
        if at >= 0 {
            let table = self.block_stack[at];
            ConverterView {
                block_stack: self.block_stack.update(
                    at,
                    BlockCtxView::Table {
                        headers: table->Table_headers,
                        rows: table->Table_rows,
                        current_row: table->Table_current_row.push(self.current),
                        alignment: table->Table_alignment,
                    },
                ),
                current: Seq::empty(),
                ..self
            }
        } else {
            self.cleared()
        }
    }

    /// The end of a table head: the current row becomes the header row.
    pub open spec fn end_head(self) -> ConverterView {
        if self.block_stack.len() > 0 && self.block_stack.last() is Table {
            let table = self.block_stack.last();
            self.with_top(
                BlockCtxView::Table {
                    headers: table->Table_current_row,
                    rows: table->Table_rows,
                    current_row: Seq::empty(),
                    alignment: table->Table_alignment,
                },
            )
        } else {
            self
        }
    }

    /// The end of a table row: outside a table head, the current row joins
    /// the body rows.
    pub open spec fn end_row(self) -> ConverterView {
        if !in_table_head(self.block_stack, self.block_stack.len() as int)
            && self.block_stack.len() > 0 && self.block_stack.last() is Table {
            let table = self.block_stack.last();
            self.with_top(
                BlockCtxView::Table {
                    headers: table->Table_headers,
                    rows: table->Table_rows.push(table->Table_current_row),
                    current_row: Seq::empty(),
                    alignment: table->Table_alignment,
                },
            )
        } else {
            self
        }
    }

    /// The end of a block other than a list item: the innermost open block
    /// leaves its stack; where it is of the kind that the tag closes, it
    /// becomes a finished block.
    pub open spec fn end_block(self, tag: MdTagEnd) -> ConverterView {
        if self.block_stack.len() == 0 {
            self
        } else {
            let top = self.block_stack.last();
            let s1 = self.pop();
            match (tag, top) {
                (MdTagEnd::Paragraph, BlockCtxView::Paragraph) => if s1.current.len() > 0 {
                    s1.cleared().push_block(BlockView::Paragraph { content: s1.current })
                } else {
                    s1
                },
                (MdTagEnd::Heading, BlockCtxView::Heading { level }) => s1.cleared().push_block(
                    BlockView::Heading { level, content: s1.current },
                ),
                (MdTagEnd::BlockQuote, BlockCtxView::BlockQuote { blocks }) => s1.push_block(
                    quote_block(blocks),
                ),
                (MdTagEnd::CodeBlock, BlockCtxView::CodeBlock { lang, code }) => s1.push_block(
                    BlockView::CodeBlock { lang, code },
                ),
                (MdTagEnd::List, BlockCtxView::List { ordered, start, items }) => s1.push_block(
                    BlockView::List { ordered, start, items: fix_items(items) },
                ),
                (
                    MdTagEnd::Table,
                    BlockCtxView::Table { headers, rows, current_row, alignment },
                ) => s1.push_block(BlockView::Table { headers, rows, alignment }),
                (MdTagEnd::TableHead, BlockCtxView::TableHead) => s1.end_head(),
                (MdTagEnd::TableRow, BlockCtxView::TableRow) => s1.end_row(),
                (MdTagEnd::TableCell, BlockCtxView::TableCell) => s1.end_cell(),
                _ => s1,
            }
        }
    }

    /// An end tag closes a span, a list item or another block.
    pub open spec fn end_tag(self, tag: MdTagEnd) -> ConverterView {
        match span_of(tag) {
            Some(kind) => self.end_span(kind),
            None => match tag {
                MdTagEnd::Item => self.end_item(),
                MdTagEnd::Other => self,
                _ => self.end_block(tag),
            },
        }
    }

    /// What one event does to the state.
    pub open spec fn step(self, event: EventView) -> ConverterView {
        match event {
            EventView::Start(tag) => self.start_tag(tag),
            EventView::End(tag) => self.end_tag(tag),
            EventView::Text(text) => self.on_text(text),
            EventView::Code(code) => self.add_inline(InlineView::Code(code)),
            EventView::SoftBreak => self.add_inline(InlineView::SoftBreak),
            EventView::HardBreak => self.add_inline(InlineView::LineBreak),
            EventView::Rule => self.push_block(BlockView::HorizontalRule),
            EventView::Other => self,
        }
    }
}

/// The state that the first `n` of `events` lead to from the state `from`.
pub open spec fn run_events(from: ConverterView, events: Seq<EventView>, n: int) -> ConverterView
    decreases n,
{
    if n <= 0 || n > events.len() {
        from
    } else {
        run_events(from, events, n - 1).step(events[n - 1])
    }
}

/// The document that a sequence of events builds: the blocks that are
/// finished after the last event, without metadata.
pub open spec fn build_document(events: Seq<EventView>) -> DocumentView {
    DocumentView {
        title: None,
        frontmatter: Seq::empty(),
        blocks: run_events(ConverterView::start(), events, events.len() as int).blocks,
    }
}

/// Converter state machine.
#[derive(Debug)]
pub struct MarkdownConverter {
    /// Blocks of the document finished so far.
    pub blocks: Vec<Block>,
    /// Open blocks, innermost last.
    pub block_stack: Vec<BlockContext>,
    /// Open inline spans, innermost last.
    pub inline_stack: Vec<InlineContext>,
    /// Inlines finished at the current depth.
    pub current_inlines: Vec<Inline>,
}

impl View for MarkdownConverter {
    type V = ConverterView;

    open spec fn view(&self) -> ConverterView {
        ConverterView {
            blocks: blocks_view(self.blocks@),
            block_stack: block_stack_view(self.block_stack@),
            inline_stack: inline_stack_view(self.inline_stack@),
            current: inlines_view(self.current_inlines@),
        }
    }
}

/// A string, unless it is empty.
fn non_empty_string(s: &String) -> (r: Option<String>)
    ensures
        opt_view(r) == non_empty(s@),
{
    if s.as_str().unicode_len() == 0 {
        None
    } else {
        Some(s.clone())
    }
}

impl MarkdownConverter {
    /// A converter before any event.
    pub fn new() -> (c: MarkdownConverter)
        ensures
            c@ == ConverterView::start(),
    {
        let c = MarkdownConverter {
            blocks: Vec::new(),
            block_stack: Vec::new(),
            inline_stack: Vec::new(),
            current_inlines: Vec::new(),
        };
        assert(c@.blocks =~= Seq::empty());
        assert(c@.block_stack =~= Seq::empty());
        assert(c@.inline_stack =~= Seq::empty());
        assert(c@.current =~= Seq::empty());
        c
    }

    /// Takes the finished inlines, leaving none.
    fn take_inlines(&mut self) -> (taken: Vec<Inline>)
        ensures
            inlines_view(taken@) == old(self)@.current,
            final(self)@ == old(self)@.cleared(),
    {
        let mut taken: Vec<Inline> = Vec::new();
        std::mem::swap(&mut self.current_inlines, &mut taken);
        assert(inlines_view(self.current_inlines@) =~= Seq::empty());
        taken
    }

    /// Takes the innermost open block off its stack.
    fn pop_block(&mut self) -> (top: Option<BlockContext>)
        ensures
            old(self)@.block_stack.len() == 0 ==> top is None && final(self)@ == old(self)@,
            old(self)@.block_stack.len() > 0 ==> top is Some
                && top->0@ == old(self)@.block_stack.last() && final(self)@ == old(self)@.pop(),
    {
        proof {
            if self.block_stack@.len() > 0 {
                lemma_block_stack_pop(self.block_stack@);
            }
        }
        self.block_stack.pop()
    }

    /// Opens a block.
    fn open_block(&mut self, ctx: BlockContext)
        ensures
            final(self)@ == old(self)@.open(ctx@),
    {
        proof {
            lemma_block_stack_push(self.block_stack@, ctx);
        }
        self.block_stack.push(ctx);
    }

    /// Appends a finished inline.
    fn add_inline(&mut self, inline: Inline)
        ensures
            final(self)@ == old(self)@.add_inline(inline@),
    {
        proof {
            lemma_inlines_view_push(self.current_inlines@, inline);
        }
        self.current_inlines.push(inline);
    }

    /// Appends a block to the document.
    fn add_document_block(&mut self, block: Block)
        ensures
            final(self)@ == (ConverterView {
                blocks: old(self)@.blocks.push(block@),
                ..old(self)@
            }),
    {
        proof {
            lemma_blocks_view_push(self.blocks@, block);
        }
        self.blocks.push(block);
    }

    /// Opens an inline span.
    fn open_span(&mut self, kind: SpanKind, url: String, title: Option<String>)
        ensures
            final(self)@ == old(self)@.open_span(kind, url@, opt_view(title)),
    {
        let saved = self.take_inlines();
        let ctx = InlineContext { kind, url, title, saved };
        proof {
            lemma_inline_stack_push(self.inline_stack@, ctx);
        }
        self.inline_stack.push(ctx);
    }

    /// Puts a finished block where it belongs: into the innermost open
    /// block where that is a block quote or a list item, into the document
    /// otherwise.
    pub fn push_block(&mut self, block: Block)
        ensures
            final(self)@ == old(self)@.push_block(block@),
    {
        let ghost before = self@;
        match self.pop_block() {
            Some(BlockContext::BlockQuote { blocks }) => {
                let mut blocks = blocks;
                proof {
                    lemma_blocks_view_push(blocks@, block);
                }
                blocks.push(block);
                self.open_block(BlockContext::BlockQuote { blocks });
            },
            Some(BlockContext::ListItem { blocks, task }) => {
                let mut blocks = blocks;
                proof {
                    lemma_blocks_view_push(blocks@, block);
                }
                blocks.push(block);
                self.open_block(BlockContext::ListItem { blocks, task });
            },
            Some(other) => {
                self.open_block(other);
                assert(self@.block_stack =~= before.block_stack);
                self.add_document_block(block);
            },
            None => {
                self.add_document_block(block);
            },
        }
    }

    /// Text of the document: code where a code block is open, an inline
    /// otherwise.
    pub fn handle_text(&mut self, text: &str)
        ensures
            final(self)@ == old(self)@.on_text(text@),
    {
        let ghost before = self@;
        match self.pop_block() {
            Some(BlockContext::CodeBlock { lang, code }) => {
                let mut code = code;
                code.append(text);
                self.open_block(BlockContext::CodeBlock { lang, code });
            },
            Some(other) => {
                self.open_block(other);
                assert(self@.block_stack =~= before.block_stack);
                self.add_inline(Inline::Text(String::from_str(text)));
            },
            None => {
                self.add_inline(Inline::Text(String::from_str(text)));
            },
        }
    }

    /// Inline code.
    pub fn handle_code(&mut self, code: &str)
        ensures
            final(self)@ == old(self)@.add_inline(InlineView::Code(code@)),
    {
        self.add_inline(Inline::Code(String::from_str(code)));
    }

    /// A start tag opens a block or a span.
    pub fn handle_start_tag(&mut self, tag: &MdTag)
        ensures
            final(self)@ == old(self)@.start_tag(tag@),
    {
        match tag {
            MdTag::Paragraph => self.open_block(BlockContext::Paragraph),
            MdTag::Heading { level } => self.open_block(BlockContext::Heading { level: *level }),
            MdTag::BlockQuote => {
                let blocks: Vec<Block> = Vec::new();
                assert(blocks_view(blocks@) =~= Seq::empty());
                self.open_block(BlockContext::BlockQuote { blocks });
            },
            MdTag::CodeBlock(kind) => {
                let lang = match kind {
                    MdCodeBlockKind::Fenced(info) => non_empty_string(info),
                    MdCodeBlockKind::Indented => None,
                };
                self.open_block(BlockContext::CodeBlock { lang, code: String::new() });
            },
            MdTag::List(first) => {
                let items: Vec<ListItem> = Vec::new();
                assert(items_view(items@) =~= Seq::empty());
                let (ordered, start) = match first {
                    Some(n) => (
                        true,
                        if *n > usize::MAX as u64 {
                            usize::MAX
                        } else {
                            *n as usize
                        },
                    ),
                    None => (false, 1),
                };
                self.open_block(BlockContext::List { ordered, start, items });
            },
            MdTag::Item => {
                let blocks: Vec<Block> = Vec::new();
                assert(blocks_view(blocks@) =~= Seq::empty());
                self.open_block(BlockContext::ListItem { blocks, task: None });
            },
            MdTag::Table(alignment) => {
                let headers: Vec<TableCell> = Vec::new();
                let rows: Vec<Vec<TableCell>> = Vec::new();
                let current_row: Vec<TableCell> = Vec::new();
                assert(cells_view(headers@) =~= Seq::empty());
                assert(rows_view(rows@) =~= Seq::empty());
                self.open_block(
                    BlockContext::Table {
                        headers,
                        rows,
                        current_row,
                        alignment: clone_alignment(alignment),
                    },
                );
            },
            MdTag::TableHead => self.open_block(BlockContext::TableHead),
            MdTag::TableRow => self.open_block(BlockContext::TableRow),
            MdTag::TableCell => self.open_block(BlockContext::TableCell),
            MdTag::Strong => self.open_span(SpanKind::Strong, String::new(), None),
            MdTag::Emphasis => self.open_span(SpanKind::Emphasis, String::new(), None),
            MdTag::Strikethrough => self.open_span(SpanKind::Strikethrough, String::new(), None),
            MdTag::Link { dest_url, title } => self.open_span(
                SpanKind::Link,
                dest_url.clone(),
                non_empty_string(title),
            ),
            MdTag::Image { dest_url, title } => self.open_span(
                SpanKind::Image,
                dest_url.clone(),
                non_empty_string(title),
            ),
            MdTag::Other => {},
        }
    }

    /// The end of a span of `kind`.
    fn end_span(&mut self, kind: SpanKind)
        ensures
            final(self)@ == old(self)@.end_span(kind),
    {
        proof {
            if self.inline_stack@.len() > 0 {
                lemma_inline_stack_pop(self.inline_stack@);
            }
        }
        match self.inline_stack.pop() {
            Some(ctx) => {
                if ctx.kind == kind {
                    let nested = self.take_inlines();
                    let InlineContext { kind: _, url, title, saved } = ctx;
                    let inline = match kind {
                        SpanKind::Strong => Inline::Strong(nested),
                        SpanKind::Emphasis => Inline::Emphasis(nested),
                        SpanKind::Strikethrough => Inline::Strikethrough(nested),
                        SpanKind::Link => Inline::Link { url, title, text: nested },
                        SpanKind::Image => {
                            let mut alt: Vec<char> = Vec::new();
                            push_plain_text_all(&nested, &mut alt);
                            Inline::Image { url, alt: string_of(&alt), title }
                        },
                    };
                    let mut current = saved;
                    proof {
                        lemma_inlines_view_push(current@, inline);
                    }
                    current.push(inline);
                    self.current_inlines = current;
                }
            },
            None => {},
        }
    }

    /// The end of a list item.
    fn end_item(&mut self)
        ensures
            final(self)@ == old(self)@.end_item(),
    {
        if self.current_inlines.len() > 0 {
            let content = self.take_inlines();
            self.push_block(Block::Paragraph { content });
        }
        match self.pop_block() {
            Some(BlockContext::ListItem { blocks, task }) => {
                let ghost s2 = self@;
                match self.pop_block() {
                    Some(BlockContext::List { ordered, start, items }) => {
                        let mut items = items;
                        let item = ListItem { content: blocks, task };
                        proof {
                            lemma_items_view_push(items@, item);
                        }
                        items.push(item);
                        self.open_block(BlockContext::List { ordered, start, items });
                    },
                    Some(other) => {
                        self.open_block(other);
                        assert(self@.block_stack =~= s2.block_stack);
                    },
                    None => {},
                }
            },
            _ => {},
        }
    }

    /// Whether a table head is among the open blocks.
    fn is_in_table_head(&self) -> (r: bool)
        ensures
            r == in_table_head(self@.block_stack, self@.block_stack.len() as int),
    {
        let mut found = false;
        let mut i: usize = 0;
        while i < self.block_stack.len()
            invariant
                i <= self.block_stack.len(),
                found == in_table_head(self@.block_stack, i as int),
            decreases self.block_stack.len() - i,
        {
            match &self.block_stack[i] {
                BlockContext::TableHead => {
                    found = true;
                },
                _ => {},
            }
            i += 1;
        }
        found
    }

    /// The end of a table head, with the head off the stack.
    fn end_head(&mut self)
        ensures
            final(self)@ == old(self)@.end_head(),
    {
        let ghost before = self@;
        match self.pop_block() {
            Some(BlockContext::Table { headers, rows, current_row, alignment }) => {
                let fresh: Vec<TableCell> = Vec::new();
                assert(cells_view(fresh@) =~= Seq::empty());
                self.open_block(
                    BlockContext::Table { headers: current_row, rows, current_row: fresh, alignment },
                );
            },
            Some(other) => {
                self.open_block(other);
                assert(self@.block_stack =~= before.block_stack);
            },
            None => {},
        }
    }

    /// The end of a table row, with the row off the stack.
    fn end_row(&mut self)
        ensures
            final(self)@ == old(self)@.end_row(),
    {
        let ghost before = self@;
        if self.is_in_table_head() {
            return ;
        }
        match self.pop_block() {
            Some(BlockContext::Table { headers, rows, current_row, alignment }) => {
                let mut rows = rows;
                proof {
                    lemma_rows_view_push(rows@, current_row);
                }
                rows.push(current_row);
                let fresh: Vec<TableCell> = Vec::new();
                assert(cells_view(fresh@) =~= Seq::empty());
                self.open_block(BlockContext::Table { headers, rows, current_row: fresh, alignment });
            },
            Some(other) => {
                self.open_block(other);
                assert(self@.block_stack =~= before.block_stack);
            },
            None => {},
        }
    }

    /// Index of the innermost open table, if a table is open.
    fn find_table(&self) -> (r: Option<usize>)
        ensures
            match r {
                Some(at) => at == innermost_table(self@.block_stack, self@.block_stack.len() as int)
                    && at < self.block_stack@.len() && self@.block_stack[at as int] is Table,
                None => innermost_table(self@.block_stack, self@.block_stack.len() as int) == -1,
            },
    {
        let mut n: usize = self.block_stack.len();
        while n > 0
            invariant
                n <= self.block_stack.len(),
                innermost_table(self@.block_stack, self@.block_stack.len() as int)
                    == innermost_table(self@.block_stack, n as int),
            decreases n,
        {
            match &self.block_stack[n - 1] {
                BlockContext::Table { .. } => {
                    return Some(n - 1);
                },
                _ => {},
            }
            n -= 1;
        }
        None
    }

    /// The end of a table cell, with the cell off the stack.
    fn end_cell(&mut self)
        ensures
            final(self)@ == old(self)@.end_cell(),
    {
        let ghost before = self@;
        let content = self.take_inlines();
        match self.find_table() {
            Some(at) => {
                let ctx = self.block_stack.remove(at);
                match ctx {
                    BlockContext::Table { headers, rows, current_row, alignment } => {
                        let mut current_row = current_row;
                        let cell = TableCell { content };
                        proof {
                            lemma_cells_view_push(current_row@, cell);
                        }
                        current_row.push(cell);
                        let table = BlockContext::Table { headers, rows, current_row, alignment };
                        self.block_stack.insert(at, table);
                        assert(block_stack_view(self.block_stack@) =~= before.block_stack.update(
                            at as int,
                            table@,
                        ));
                    },
                    other => {
                        self.block_stack.insert(at, other);
                    },
                }
            },
            None => {},
        }
    }

    /// The end of a block other than a list item.
    fn end_block(&mut self, tag: MdTagEnd)
        ensures
            final(self)@ == old(self)@.end_block(tag),
    {
        match self.pop_block() {
            Some(top) => {
                match (tag, top) {
                    (MdTagEnd::Paragraph, BlockContext::Paragraph) => {
                        if self.current_inlines.len() > 0 {
                            let content = self.take_inlines();
                            self.push_block(Block::Paragraph { content });
                        }
                    },
                    (MdTagEnd::Heading, BlockContext::Heading { level }) => {
                        let content = self.take_inlines();
                        self.push_block(Block::Heading { level, content });
                    },
                    (MdTagEnd::BlockQuote, BlockContext::BlockQuote { blocks }) => {
                        self.push_block(close_quote(blocks));
                    },
                    (MdTagEnd::CodeBlock, BlockContext::CodeBlock { lang, code }) => {
                        self.push_block(Block::CodeBlock { lang, code });
                    },
                    (MdTagEnd::List, BlockContext::List { ordered, start, items }) => {
                        let fixed = fix_list_items(&items);
                        self.push_block(Block::List { ordered, start, items: fixed });
                    },
                    (
                        MdTagEnd::Table,
                        BlockContext::Table { headers, rows, current_row, alignment },
                    ) => {
                        self.push_block(Block::Table { headers, rows, alignment });
                    },
                    (MdTagEnd::TableHead, BlockContext::TableHead) => {
                        self.end_head();
                    },
                    (MdTagEnd::TableRow, BlockContext::TableRow) => {
                        self.end_row();
                    },
                    (MdTagEnd::TableCell, BlockContext::TableCell) => {
                        self.end_cell();
                    },
                    _ => {},
                }
            },
            None => {},
        }
    }

    /// An end tag closes a span, a list item or another block.
    pub fn handle_end_tag(&mut self, tag: MdTagEnd)
        ensures
            final(self)@ == old(self)@.end_tag(tag),
    {
        match tag {
            MdTagEnd::Strong => self.end_span(SpanKind::Strong),
            MdTagEnd::Emphasis => self.end_span(SpanKind::Emphasis),
            MdTagEnd::Strikethrough => self.end_span(SpanKind::Strikethrough),
            MdTagEnd::Link => self.end_span(SpanKind::Link),
            MdTagEnd::Image => self.end_span(SpanKind::Image),
            MdTagEnd::Item => self.end_item(),
            MdTagEnd::Other => {},
            _ => self.end_block(tag),
        }
    }

    /// Handles one event.
    pub fn handle_event(&mut self, event: &MdEvent)
        ensures
            final(self)@ == old(self)@.step(event@),
    {
        match event {
            MdEvent::Start(tag) => self.handle_start_tag(tag),
            MdEvent::End(tag) => self.handle_end_tag(*tag),
            MdEvent::Text(text) => self.handle_text(text.as_str()),
            MdEvent::Code(code) => self.handle_code(code.as_str()),
            MdEvent::SoftBreak => self.add_inline(Inline::SoftBreak),
            MdEvent::HardBreak => self.add_inline(Inline::LineBreak),
            MdEvent::Rule => self.push_block(Block::HorizontalRule),
            MdEvent::Other => {},
        }
    }

    /// Handles the events of a token stream, in order.
    pub fn process_events(&mut self, events: &Vec<MdEvent>)
        ensures
            final(self)@ == run_events(old(self)@, events_view(events@), events@.len() as int),
    {
        let ghost all = events_view(events@);
        let ghost from = self@;
        let mut i: usize = 0;
        while i < events.len()
            invariant
                i <= events.len(),
                all == events_view(events@),
                self@ == run_events(from, all, i as int),
            decreases events.len() - i,
        {
            self.handle_event(&events[i]);
            i += 1;
        }
    }

    /// The document built: the blocks finished so far. Blocks and spans
    /// that are still open are dropped.
    pub fn finish(self) -> (doc: Document)
        ensures
            doc@ == (DocumentView {
                title: None,
                frontmatter: Seq::empty(),
                blocks: self@.blocks,
            }),
    {
        Document::with_blocks(self.blocks)
    }
}

/// Builds the document of a token stream.
pub fn document_from_events(events: &Vec<MdEvent>) -> (doc: Document)
    ensures
        doc@ == build_document(events_view(events@)),
{
    let mut converter = MarkdownConverter::new();
    converter.process_events(events);
    converter.finish()
}

} // verus!
