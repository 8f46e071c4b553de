//! The tokenizer's events.
//!
//! The Markdown tokenizer is an outside crate; its events reach the IR
//! builder as values of the types below, which hold what the builder reads.

use crate::ir::Alignment;
use pulldown_cmark::{CodeBlockKind, Event, Options, Parser, Tag, TagEnd, TextMergeStream};
use vstd::prelude::*;

verus! {

/// An event of the outside tokenizer.
#[verifier::external_type_specification]
#[verifier::external_body]
pub struct ExEvent<'a>(Event<'a>);

/// How a code block is written in the source.
#[derive(Debug, Clone, PartialEq)]
pub enum MdCodeBlockKind {
    Indented,
    /// Fenced, with the text after the opening fence.
    Fenced(String),
}

/// A tag that opens a block or an inline span.
#[derive(Debug, Clone, PartialEq)]
pub enum MdTag {
    Paragraph,
    Heading { level: u8 },
    BlockQuote,
    CodeBlock(MdCodeBlockKind),
    /// A list; ordered lists hold the number of their first item.
    List(Option<u64>),
    Item,
    Table(Vec<Alignment>),
    TableHead,
    TableRow,
    TableCell,
    Emphasis,
    Strong,
    Strikethrough,
    Link { dest_url: String, title: String },
    Image { dest_url: String, title: String },
    /// A tag that the builder ignores (raw HTML, footnotes, metadata,
    /// definition lists).
    Other,
}

/// A tag that closes a block or an inline span.
#[derive(Debug, Clone, Copy, PartialEq, Eq, Structural)]
pub enum MdTagEnd {
    Paragraph,
    Heading,
    BlockQuote,
    CodeBlock,
    List,
    Item,
    Table,
    TableHead,
    TableRow,
    TableCell,
    Emphasis,
    Strong,
    Strikethrough,
    Link,
    Image,
    /// The end of a tag that the builder ignores.
    Other,
}

/// An event of the token stream.
#[derive(Debug, Clone, PartialEq)]
pub enum MdEvent {
    Start(MdTag),
    End(MdTagEnd),
    Text(String),
    /// Inline code.
    Code(String),
    SoftBreak,
    HardBreak,
    Rule,
    /// An event that the builder ignores (raw HTML, footnote references,
    /// math, task-list markers).
    Other,
}

/// Model of an [`MdTag`].
pub enum TagView {
    Paragraph,
    Heading { level: u8 },
    BlockQuote,
    IndentedCode,
    FencedCode(Seq<char>),
    List(Option<u64>),
    Item,
    Table(Seq<Alignment>),
    TableHead,
    TableRow,
    TableCell,
    Emphasis,
    Strong,
    Strikethrough,
    Link { dest_url: Seq<char>, title: Seq<char> },
    Image { dest_url: Seq<char>, title: Seq<char> },
    Other,
}

/// Model of an [`MdEvent`].
pub enum EventView {
    Start(TagView),
    End(MdTagEnd),
    Text(Seq<char>),
    Code(Seq<char>),
    SoftBreak,
    HardBreak,
    Rule,
    Other,
}

impl View for MdTag {
    type V = TagView;

    open spec fn view(&self) -> TagView {
        match self {
            MdTag::Paragraph => TagView::Paragraph,
            MdTag::Heading { level } => TagView::Heading { level: *level },
            MdTag::BlockQuote => TagView::BlockQuote,
            MdTag::CodeBlock(MdCodeBlockKind::Indented) => TagView::IndentedCode,
            MdTag::CodeBlock(MdCodeBlockKind::Fenced(info)) => TagView::FencedCode(info@),
            MdTag::List(start) => TagView::List(*start),
            MdTag::Item => TagView::Item,
            MdTag::Table(alignment) => TagView::Table(alignment@),
            MdTag::TableHead => TagView::TableHead,
            MdTag::TableRow => TagView::TableRow,
            MdTag::TableCell => TagView::TableCell,
            MdTag::Emphasis => TagView::Emphasis,
            MdTag::Strong => TagView::Strong,
            MdTag::Strikethrough => TagView::Strikethrough,
            MdTag::Link { dest_url, title } => TagView::Link { dest_url: dest_url@, title: title@ },
            MdTag::Image { dest_url, title } => TagView::Image {
                dest_url: dest_url@,
                title: title@,
            },
            MdTag::Other => TagView::Other,
        }
    }
}

impl View for MdEvent {
    type V = EventView;

    open spec fn view(&self) -> EventView {
        match self {
            MdEvent::Start(tag) => EventView::Start(tag@),
            MdEvent::End(tag) => EventView::End(*tag),
            MdEvent::Text(text) => EventView::Text(text@),
            MdEvent::Code(code) => EventView::Code(code@),
            MdEvent::SoftBreak => EventView::SoftBreak,
            MdEvent::HardBreak => EventView::HardBreak,
            MdEvent::Rule => EventView::Rule,
            MdEvent::Other => EventView::Other,
        }
    }
}

/// Models of a sequence of events, element by element.
pub open spec fn events_view(s: Seq<MdEvent>) -> Seq<EventView> {
    Seq::new(s.len(), |i: int| s[i]@)
}

/// The events that the tokenizer reads from the Markdown text `source`,
/// with tables, strikethrough, task lists and heading attributes enabled
/// and consecutive text events merged into one.
pub uninterp spec fn markdown_events(source: Seq<char>) -> Seq<EventView>;

/// What an outside event is, without the tag of a start or an end.
pub enum Shape {
    Start,
    End,
    Text(String),
    Code(String),
    SoftBreak,
    HardBreak,
    Rule,
    Other,
}

/// Model of a [`Shape`].
pub enum ShapeView {
    Start,
    End,
    Text(Seq<char>),
    Code(Seq<char>),
    SoftBreak,
    HardBreak,
    Rule,
    Other,
}

impl View for Shape {
    type V = ShapeView;

    open spec fn view(&self) -> ShapeView {
        match self {
            Shape::Start => ShapeView::Start,
            Shape::End => ShapeView::End,
            Shape::Text(text) => ShapeView::Text(text@),
            Shape::Code(code) => ShapeView::Code(code@),
            Shape::SoftBreak => ShapeView::SoftBreak,
            Shape::HardBreak => ShapeView::HardBreak,
            Shape::Rule => ShapeView::Rule,
            Shape::Other => ShapeView::Other,
        }
    }
}

/// Model of a tag that may be missing.
pub open spec fn opt_tag_view(tag: Option<MdTag>) -> Option<TagView> {
    match tag {
        Some(t) => Some(t@),
        None => None,
    }
}

/// Which variant of `pulldown_cmark::Event` an event is: a start, an end,
/// text or inline code with its characters, a soft or a hard break, a rule,
/// or any other.
pub uninterp spec fn event_kind(event: Event<'_>) -> ShapeView;

/// The tag of a `pulldown_cmark::Event::Start` that opens a paragraph, a
/// heading, a block quote, a code block, a list or a list item, with what
/// the tag holds; `None` for any other event.
pub uninterp spec fn block_start(event: Event<'_>) -> Option<TagView>;

/// The tag of a `pulldown_cmark::Event::Start` that opens the head, a row
/// or a cell of a table; `None` for any other event.
pub uninterp spec fn table_part_start(event: Event<'_>) -> Option<TagView>;

/// How many alignments a `pulldown_cmark::Event::Start` that opens a table
/// holds; `None` for any other event.
pub uninterp spec fn table_width(event: Event<'_>) -> Option<usize>;

/// The alignment that a `pulldown_cmark::Event::Start` that opens a table
/// holds for column `column`; unaligned where it holds none.
pub uninterp spec fn column_alignment(event: Event<'_>, column: usize) -> Alignment;

/// The tag of a `pulldown_cmark::Event::Start` that opens emphasis, strong
/// emphasis, strikethrough, a link or an image, with what the tag holds;
/// `None` for any other event.
pub uninterp spec fn inline_start(event: Event<'_>) -> Option<TagView>;

/// The tag of a `pulldown_cmark::Event::End` that closes a block; `None`
/// for any other event.
pub uninterp spec fn block_end(event: Event<'_>) -> Option<MdTagEnd>;

/// The tag of a `pulldown_cmark::Event::End` that closes an inline span;
/// `None` for any other event.
pub uninterp spec fn inline_end(event: Event<'_>) -> Option<MdTagEnd>;

/// The tag of a start event that opens a table: the alignment of each of
/// its columns, in order; `None` for any other event.
pub open spec fn table_start(event: Event<'_>) -> Option<TagView> {
    match table_width(event) {
        Some(columns) => Some(
            TagView::Table(
                Seq::new(columns as nat, |column: int| column_alignment(event, column as usize)),
            ),
        ),
        None => None,
    }
}

/// The tag of a start event as the builder reads it: that of a block, of a
/// part of a table, of a table or of an inline span, whichever the event
/// opens; any other tag is ignored.
pub open spec fn start_tag(event: Event<'_>) -> TagView {
    match block_start(event) {
        Some(tag) => tag,
        None => match table_part_start(event) {
            Some(tag) => tag,
            None => match table_start(event) {
                Some(tag) => tag,
                None => match inline_start(event) {
                    Some(tag) => tag,
                    None => TagView::Other,
                },
            },
        },
    }
}

/// The tag of an end event as the builder reads it: that of a block or of
/// an inline span, whichever the event closes; any other tag is ignored.
pub open spec fn end_tag(event: Event<'_>) -> MdTagEnd {
    match block_end(event) {
        Some(tag) => tag,
        None => match inline_end(event) {
            Some(tag) => tag,
            None => MdTagEnd::Other,
        },
    }
}

/// An outside event as the builder reads it: a start or an end with its
/// tag, text and inline code with their characters, breaks and rules as
/// they are; any other event is ignored.
pub open spec fn lowered(event: Event<'_>) -> EventView {
    match event_kind(event) {
        ShapeView::Start => EventView::Start(start_tag(event)),
        ShapeView::End => EventView::End(end_tag(event)),
        ShapeView::Text(text) => EventView::Text(text),
        ShapeView::Code(code) => EventView::Code(code),
        ShapeView::SoftBreak => EventView::SoftBreak,
        ShapeView::HardBreak => EventView::HardBreak,
        ShapeView::Rule => EventView::Rule,
        ShapeView::Other => EventView::Other,
    }
}

/// Tells the variants of `pulldown_cmark::Event` apart and copies the text
/// of text and code events. What comes back depends on the event alone.
#[verifier::external_body]
fn event_shape(event: &Event<'_>) -> (shape: Shape)
    ensures
        shape@ == event_kind(*event),
{
    match event {
        Event::Start(_) => Shape::Start,
        Event::End(_) => Shape::End,
        Event::Text(text) => Shape::Text(text.to_string()),
        Event::Code(code) => Shape::Code(code.to_string()),
        Event::SoftBreak => Shape::SoftBreak,
        Event::HardBreak => Shape::HardBreak,
        Event::Rule => Shape::Rule,
        _ => Shape::Other,
    }
}

/// The tag of a `pulldown_cmark::Event::Start` that opens a paragraph, a
/// heading (with its level, 1 to 6), a block quote, a code block (with its
/// info string where it is fenced), a list (with its first number where it
/// is ordered) or a list item; `None` for any other event. What comes back
/// depends on the event alone.
#[verifier::external_body]
fn start_of_block(event: &Event<'_>) -> (tag: Option<MdTag>)
    ensures
        opt_tag_view(tag) == block_start(*event),
{
    match event {
        Event::Start(Tag::Paragraph) => Some(MdTag::Paragraph),
        Event::Start(Tag::Heading { level, .. }) => Some(MdTag::Heading { level: *level as u8 }),
        Event::Start(Tag::BlockQuote(_)) => Some(MdTag::BlockQuote),
        Event::Start(Tag::CodeBlock(CodeBlockKind::Fenced(info))) => Some(
            MdTag::CodeBlock(MdCodeBlockKind::Fenced(info.to_string())),
        ),
        Event::Start(Tag::CodeBlock(CodeBlockKind::Indented)) => Some(
            MdTag::CodeBlock(MdCodeBlockKind::Indented),
        ),
        Event::Start(Tag::List(first)) => Some(MdTag::List(*first)),
        Event::Start(Tag::Item) => Some(MdTag::Item),
        _ => None,
    }
}

/// The tag of a `pulldown_cmark::Event::Start` that opens the head, a row
/// or a cell of a table; `None` for any other event. What comes back
/// depends on the event alone.
#[verifier::external_body]
fn start_of_table_part(event: &Event<'_>) -> (tag: Option<MdTag>)
    ensures
        opt_tag_view(tag) == table_part_start(*event),
{
    match event {
        Event::Start(Tag::TableHead) => Some(MdTag::TableHead),
        Event::Start(Tag::TableRow) => Some(MdTag::TableRow),
        Event::Start(Tag::TableCell) => Some(MdTag::TableCell),
        _ => None,
    }
}

/// The number of columns of a `pulldown_cmark::Event::Start` that opens a
/// table: the length of its alignments; `None` for any other event. What
/// comes back depends on the event alone.
#[verifier::external_body]
fn table_columns(event: &Event<'_>) -> (columns: Option<usize>)
    ensures
        columns == table_width(*event),
{
    match event {
        Event::Start(Tag::Table(alignments)) => Some(alignments.len()),
        _ => None,
    }
}

/// The alignment of column `column` in a `pulldown_cmark::Event::Start`
/// that opens a table; unaligned for a column that the table does not have
/// and for any other event. What comes back depends on the event and the
/// column alone.
#[verifier::external_body]
fn table_alignment(event: &Event<'_>, column: usize) -> (alignment: Alignment)
    ensures
        alignment == column_alignment(*event, column),
{
    match event {
        Event::Start(Tag::Table(alignments)) => match alignments.get(column) {
            Some(pulldown_cmark::Alignment::Left) => Alignment::Left,
            Some(pulldown_cmark::Alignment::Center) => Alignment::Center,
            Some(pulldown_cmark::Alignment::Right) => Alignment::Right,
            _ => Alignment::Unaligned,
        },
        _ => Alignment::Unaligned,
    }
}

/// The tag of a start event that opens a table, with the alignment of each
/// column; `None` for any other event.
fn start_of_table(event: &Event<'_>) -> (tag: Option<MdTag>)
    ensures
        opt_tag_view(tag) == table_start(*event),
{
    match table_columns(event) {
        Some(columns) => {
            let mut alignment: Vec<Alignment> = Vec::new();
            let mut column: usize = 0;
            while column < columns
                invariant
                    column <= columns,
                    alignment@ =~= Seq::new(
                        column as nat,
                        |c: int| column_alignment(*event, c as usize),
                    ),
                decreases columns - column,
            {
                alignment.push(table_alignment(event, column));
                column += 1;
            }
            Some(MdTag::Table(alignment))
        },
        None => None,
    }
}

/// The tag of a `pulldown_cmark::Event::Start` that opens an inline span:
/// emphasis, strong emphasis, strikethrough, a link or an image, the last
/// two with their destination and title; `None` for any other event. What
/// comes back depends on the event alone.
#[verifier::external_body]
fn start_of_inline(event: &Event<'_>) -> (tag: Option<MdTag>)
    ensures
        opt_tag_view(tag) == inline_start(*event),
{
    match event {
        Event::Start(Tag::Emphasis) => Some(MdTag::Emphasis),
        Event::Start(Tag::Strong) => Some(MdTag::Strong),
        Event::Start(Tag::Strikethrough) => Some(MdTag::Strikethrough),
        Event::Start(Tag::Link { dest_url, title, .. }) => Some(
            MdTag::Link { dest_url: dest_url.to_string(), title: title.to_string() },
        ),
        Event::Start(Tag::Image { dest_url, title, .. }) => Some(
            MdTag::Image { dest_url: dest_url.to_string(), title: title.to_string() },
        ),
        _ => None,
    }
}

/// The tag of a `pulldown_cmark::Event::End` that closes a block; `None`
/// for any other event. What comes back depends on the event alone.
#[verifier::external_body]
fn end_of_block(event: &Event<'_>) -> (tag: Option<MdTagEnd>)
    ensures
        tag == block_end(*event),
{
    match event {
        Event::End(TagEnd::Paragraph) => Some(MdTagEnd::Paragraph),
        Event::End(TagEnd::Heading(_)) => Some(MdTagEnd::Heading),
        Event::End(TagEnd::BlockQuote(_)) => Some(MdTagEnd::BlockQuote),
        Event::End(TagEnd::CodeBlock) => Some(MdTagEnd::CodeBlock),
        Event::End(TagEnd::List(_)) => Some(MdTagEnd::List),
        Event::End(TagEnd::Item) => Some(MdTagEnd::Item),
        Event::End(TagEnd::Table) => Some(MdTagEnd::Table),
        Event::End(TagEnd::TableHead) => Some(MdTagEnd::TableHead),
        Event::End(TagEnd::TableRow) => Some(MdTagEnd::TableRow),
        Event::End(TagEnd::TableCell) => Some(MdTagEnd::TableCell),
        _ => None,
    }
}

/// The tag of a `pulldown_cmark::Event::End` that closes an inline span;
/// `None` for any other event. What comes back depends on the event alone.
#[verifier::external_body]
fn end_of_inline(event: &Event<'_>) -> (tag: Option<MdTagEnd>)
    ensures
        tag == inline_end(*event),
{
    match event {
        Event::End(TagEnd::Emphasis) => Some(MdTagEnd::Emphasis),
        Event::End(TagEnd::Strong) => Some(MdTagEnd::Strong),
        Event::End(TagEnd::Strikethrough) => Some(MdTagEnd::Strikethrough),
        Event::End(TagEnd::Link) => Some(MdTagEnd::Link),
        Event::End(TagEnd::Image) => Some(MdTagEnd::Image),
        _ => None,
    }
}

/// The tag of a start event as the builder reads it.
fn lower_start(event: &Event<'_>) -> (tag: MdTag)
    ensures
        tag@ == start_tag(*event),
{
    match start_of_block(event) {
        Some(tag) => tag,
        None => match start_of_table_part(event) {
            Some(tag) => tag,
            None => match start_of_table(event) {
                Some(tag) => tag,
                None => match start_of_inline(event) {
                    Some(tag) => tag,
                    None => MdTag::Other,
                },
            },
        },
    }
}

/// The tag of an end event as the builder reads it.
fn lower_end(event: &Event<'_>) -> (tag: MdTagEnd)
    ensures
        tag == end_tag(*event),
{
    match end_of_block(event) {
        Some(tag) => tag,
        None => match end_of_inline(event) {
            Some(tag) => tag,
            None => MdTagEnd::Other,
        },
    }
}

/// An outside event as the builder reads it.
pub(crate) fn lower_event(event: &Event<'_>) -> (lowered_event: MdEvent)
    ensures
        lowered_event@ == lowered(*event),
{
    match event_shape(event) {
        Shape::Start => MdEvent::Start(lower_start(event)),
        Shape::End => MdEvent::End(lower_end(event)),
        Shape::Text(text) => MdEvent::Text(text),
        Shape::Code(code) => MdEvent::Code(code),
        Shape::SoftBreak => MdEvent::SoftBreak,
        Shape::HardBreak => MdEvent::HardBreak,
        Shape::Rule => MdEvent::Rule,
        Shape::Other => MdEvent::Other,
    }
}

/// Runs `pulldown_cmark::Parser` over `source`, with tables, strikethrough,
/// task lists and heading attributes enabled, merges consecutive text
/// events (`pulldown_cmark::TextMergeStream`) and hands each event out as
/// the builder reads it. The events depend on the text alone.
#[verifier::external_body]
pub(crate) fn tokenize(source: &str) -> (events: Vec<MdEvent>)
    ensures
        events_view(events@) == markdown_events(source@),
{
    let mut options = Options::empty();
    options.insert(Options::ENABLE_TABLES);
    options.insert(Options::ENABLE_STRIKETHROUGH);
    options.insert(Options::ENABLE_TASKLISTS);
    options.insert(Options::ENABLE_HEADING_ATTRIBUTES);
    let parser = Parser::new_ext(source, options);
    TextMergeStream::new(parser).map(|event| lower_event(&event)).collect()
}

} // verus!
