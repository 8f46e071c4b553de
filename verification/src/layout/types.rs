//! Core layout types: geometry, styled text, the positioned tree, and their
//! mathematical models.

use crate::ir::{clone_opt_string, opt_view, CalloutKind};
use crate::theme::{Color, FontStyle, FontWeight};
use vstd::prelude::*;
use vstd::string::*;

verus! {

/// Unique identifier for layout nodes.
pub type NodeId = usize;

/// Rectangle in terminal coordinate space (character cells), origin top-left.
#[derive(Debug, Clone, Copy, PartialEq, Eq, Structural)]
pub struct Rectangle {
    /// Column (0-based).
    pub x: u16,
    /// Row (0-based).
    pub y: u16,
    /// Width in columns.
    pub width: u16,
    /// Height in rows.
    pub height: u16,
}

impl Rectangle {
    /// Whether the cell `(x, y)` lies in the rectangle; the right and bottom
    /// edges are excluded.
    pub open spec fn covers(self, x: int, y: int) -> bool {
        self.x <= x < self.x + self.width && self.y <= y < self.y + self.height
    }

    /// Whether two rectangles share a cell's worth of area.
    pub open spec fn overlaps(self, other: Rectangle) -> bool {
        &&& self.x < other.x + other.width
        &&& self.x + self.width > other.x
        &&& self.y < other.y + other.height
        &&& self.y + self.height > other.y
    }

    /// Whether `self` lies within `outer`.
    pub open spec fn within(self, outer: Rectangle) -> bool {
        &&& outer.x <= self.x
        &&& self.x + self.width <= outer.x + outer.width
        &&& outer.y <= self.y
        &&& self.y + self.height <= outer.y + outer.height
    }

    /// The rectangle of `width` by `height` cells whose top left cell is
    /// `(x, y)`.
    pub fn new(x: u16, y: u16, width: u16, height: u16) -> (r: Rectangle)
        ensures
            r == (Rectangle { x, y, width, height }),
    {
        Rectangle { x, y, width, height }
    }

    /// Whether the cell `(x, y)` lies in the rectangle; the right and bottom
    /// edges are excluded.
    pub fn contains(&self, x: u16, y: u16) -> (b: bool)
        ensures
            b == self.covers(x as int, y as int),
    {
        x >= self.x && x - self.x < self.width && y >= self.y && y - self.y < self.height
    }

    /// Whether the two rectangles share any area.
    pub fn intersects(&self, other: &Rectangle) -> (b: bool)
        ensures
            b == self.overlaps(*other),
    {
        (self.x as u32) < other.x as u32 + other.width as u32 && self.x as u32 + self.width as u32
            > other.x as u32 && (self.y as u32) < other.y as u32 + other.height as u32
            && self.y as u32 + self.height as u32 > other.y as u32
    }
}

/// Text style of a segment.
#[derive(Debug, Clone, Copy, PartialEq, Eq, Structural)]
pub struct TextStyle {
    pub foreground: Option<Color>,
    pub background: Option<Color>,
    pub weight: FontWeight,
    pub style: FontStyle,
}

/// The style of unstyled text.
pub open spec fn plain_style() -> TextStyle {
    TextStyle {
        foreground: None,
        background: None,
        weight: FontWeight::Normal,
        style: FontStyle::Normal,
    }
}

impl Default for TextStyle {
    fn default() -> (t: TextStyle)
        ensures
            t == plain_style(),
    {
        TextStyle {
            foreground: None,
            background: None,
            weight: FontWeight::Normal,
            style: FontStyle::Normal,
        }
    }
}

/// A styled text segment within a line.
#[derive(Debug)]
pub struct TextSegment {
    pub text: String,
    pub style: TextStyle,
    /// Target of the link this segment belongs to.
    pub link_url: Option<String>,
    /// Set on the placeholder of an image.
    pub image_url: Option<String>,
    pub image_alt: Option<String>,
}

/// Model of a [`TextSegment`].
pub struct SegmentView {
    pub text: Seq<char>,
    pub style: TextStyle,
    pub link_url: Option<Seq<char>>,
    pub image_url: Option<Seq<char>>,
    pub image_alt: Option<Seq<char>>,
}

impl View for TextSegment {
    type V = SegmentView;

    open spec fn view(&self) -> SegmentView {
        SegmentView {
            text: self.text@,
            style: self.style,
            link_url: opt_view(self.link_url),
            image_url: opt_view(self.image_url),
            image_alt: opt_view(self.image_alt),
        }
    }
}

/// Models of a sequence of segments, element by element.
pub open spec fn segments_view(s: Seq<TextSegment>) -> Seq<SegmentView> {
    Seq::new(s.len(), |i: int| s[i]@)
}

/// The models of segments with one more segment.
proof fn lemma_segments_view_push(s: Seq<TextSegment>, x: TextSegment)
    ensures
        segments_view(s.push(x)) == segments_view(s).push(x@),
{
}

/// Number of characters in the first `n` segments of a line.
pub open spec fn segments_width(line: Seq<SegmentView>, n: int) -> int
    decreases n,
{
    if n <= 0 || n > line.len() {
        0
    } else {
        segments_width(line, n - 1) + line[n - 1].text.len()
    }
}

/// Number of characters in a line.
pub open spec fn line_width(line: Seq<SegmentView>) -> int {
    segments_width(line, line.len() as int)
}

/// `n` as a `u16`, or `u16::MAX` where it does not fit.
pub open spec fn clamp_u16(n: int) -> u16 {
    if n < 0 {
        0
    } else if n > u16::MAX {
        u16::MAX
    } else {
        n as u16
    }
}

/// `n` as a `u16`, or `u16::MAX` where it does not fit.
pub fn usize_to_u16(n: usize) -> (r: u16)
    ensures
        r == clamp_u16(n as int),
{
    if n > u16::MAX as usize {
        u16::MAX
    } else {
        n as u16
    }
}

/// A line of text (result of inline layout): a sequence of segments.
#[derive(Debug)]
pub struct Line {
    pub segments: Vec<TextSegment>,
}

impl View for Line {
    type V = Seq<SegmentView>;

    open spec fn view(&self) -> Seq<SegmentView> {
        segments_view(self.segments@)
    }
}

/// Models of a sequence of lines, element by element.
pub open spec fn lines_view(s: Seq<Line>) -> Seq<Seq<SegmentView>> {
    Seq::new(s.len(), |i: int| s[i]@)
}

/// The models of lines with one more line.
pub(crate) proof fn lemma_lines_view_push(s: Seq<Line>, x: Line)
    ensures
        lines_view(s.push(x)) == lines_view(s).push(x@),
{
}

/// Models of a sequence of strings, element by element.
pub open spec fn strings_view(s: Seq<String>) -> Seq<Seq<char>> {
    Seq::new(s.len(), |i: int| s[i]@)
}

/// The models of strings with one more string.
pub(crate) proof fn lemma_strings_view_push(s: Seq<String>, x: String)
    ensures
        strings_view(s.push(x)) == strings_view(s).push(x@),
{
}

impl Line {
    /// A line without segments.
    pub fn new() -> (l: Line)
        ensures
            l@ == Seq::<SegmentView>::empty(),
    {
        let l = Line { segments: Vec::new() };
        l
    }

    /// Appends a segment that belongs to no link and no image.
    pub fn add_segment(&mut self, text: String, style: TextStyle)
        ensures
            final(self)@ == old(self)@.push(
                SegmentView { text: text@, style, link_url: None, image_url: None, image_alt: None },
            ),
    {
        self.add_segment_full(text, style, None, None, None);
    }

    /// Appends a segment of the link `link_url`, if any.
    pub fn add_segment_with_link(&mut self, text: String, style: TextStyle, link_url: Option<String>)
        ensures
            final(self)@ == old(self)@.push(
                SegmentView {
                    text: text@,
                    style,
                    link_url: opt_view(link_url),
                    image_url: None,
                    image_alt: None,
                },
            ),
    {
        self.add_segment_full(text, style, link_url, None, None);
    }

    /// Appends a segment with every field given.
    pub fn add_segment_full(
        &mut self,
        text: String,
        style: TextStyle,
        link_url: Option<String>,
        image_url: Option<String>,
        image_alt: Option<String>,
    )
        ensures
            final(self)@ == old(self)@.push(
                SegmentView {
                    text: text@,
                    style,
                    link_url: opt_view(link_url),
                    image_url: opt_view(image_url),
                    image_alt: opt_view(image_alt),
                },
            ),
    {
        let segment = TextSegment { text, style, link_url, image_url, image_alt };
        proof {
            lemma_segments_view_push(self.segments@, segment);
        }
        self.segments.push(segment);
    }

    /// Number of characters in the line, at most `u16::MAX`.
    pub fn width(&self) -> (w: u16)
        ensures
            w == clamp_u16(line_width(self@)),
    {
        let mut total: u16 = 0;
        let mut i: usize = 0;
        while i < self.segments.len()
            invariant
                i <= self.segments.len(),
                total == clamp_u16(segments_width(self@, i as int)),
                segments_width(self@, i as int) >= 0,
            decreases self.segments.len() - i,
        {
            let n = usize_to_u16(self.segments[i].text.as_str().unicode_len());
            total = total.saturating_add(n);
            i += 1;
        }
        total
    }

    /// Whether the line holds no segment.
    pub fn is_empty(&self) -> (b: bool)
        ensures
            b == (self@.len() == 0),
    {
        self.segments.is_empty()
    }
}

/// Edge sizes (top, right, bottom, left).
#[derive(Debug, Clone, Copy, PartialEq, Eq, Structural)]
pub struct EdgeSizes {
    pub top: u16,
    pub right: u16,
    pub bottom: u16,
    pub left: u16,
}

impl EdgeSizes {
    /// No edge on any side.
    pub fn zero() -> (e: EdgeSizes)
        ensures
            e == (EdgeSizes { top: 0, right: 0, bottom: 0, left: 0 }),
    {
        EdgeSizes { top: 0, right: 0, bottom: 0, left: 0 }
    }

    /// The same edge on all sides.
    pub fn all(size: u16) -> (e: EdgeSizes)
        ensures
            e == (EdgeSizes { top: size, right: size, bottom: size, left: size }),
    {
        EdgeSizes { top: size, right: size, bottom: size, left: size }
    }

    /// The same edge at the top and at the bottom, none left and right.
    pub fn vertical(size: u16) -> (e: EdgeSizes)
        ensures
            e == (EdgeSizes { top: size, right: 0, bottom: size, left: 0 }),
    {
        EdgeSizes { top: size, right: 0, bottom: size, left: 0 }
    }

    /// The same edge left and right, none at the top and at the bottom.
    pub fn horizontal(size: u16) -> (e: EdgeSizes)
        ensures
            e == (EdgeSizes { top: 0, right: size, bottom: 0, left: size }),
    {
        EdgeSizes { top: 0, right: size, bottom: 0, left: size }
    }
}

/// Computed style for a layout node.
#[derive(Debug, Clone, Copy, PartialEq, Eq, Structural)]
pub struct ComputedStyle {
    pub foreground: Option<Color>,
    pub background: Option<Color>,
    pub weight: FontWeight,
    pub style: FontStyle,
    pub padding: EdgeSizes,
    pub margin: EdgeSizes,
}

/// The style every node is given: no colors, normal weight, no padding, no
/// margin.
pub open spec fn default_style() -> ComputedStyle {
    ComputedStyle {
        foreground: None,
        background: None,
        weight: FontWeight::Normal,
        style: FontStyle::Normal,
        padding: EdgeSizes { top: 0, right: 0, bottom: 0, left: 0 },
        margin: EdgeSizes { top: 0, right: 0, bottom: 0, left: 0 },
    }
}

impl Default for ComputedStyle {
    fn default() -> (s: ComputedStyle)
        ensures
            s == default_style(),
    {
        ComputedStyle {
            foreground: None,
            background: None,
            weight: FontWeight::Normal,
            style: FontStyle::Normal,
            padding: EdgeSizes::zero(),
            margin: EdgeSizes::zero(),
        }
    }
}

/// Viewport (terminal window).
#[derive(Debug, Clone, Copy, PartialEq, Eq, Structural)]
pub struct Viewport {
    /// Terminal width (columns).
    pub width: u16,
    /// Terminal height (rows).
    pub height: u16,
    /// Horizontal scroll offset.
    pub scroll_x: u16,
    /// Vertical scroll offset.
    pub scroll_y: u16,
}

/// Largest scroll offset that keeps the viewport within a document of
/// `doc_height` rows: `max(0, doc_height - height)`.
pub open spec fn max_scroll(doc_height: u16, height: u16) -> int {
    if doc_height > height {
        doc_height - height
    } else {
        0
    }
}

/// `v` limited to the range `lo..=hi`.
pub open spec fn clamp(v: int, lo: int, hi: int) -> int {
    if v < lo {
        lo
    } else if v > hi {
        hi
    } else {
        v
    }
}

impl Viewport {
    /// A viewport of `width` by `height` cells at the top left of the
    /// document.
    pub fn new(width: u16, height: u16) -> (v: Viewport)
        ensures
            v == (Viewport { width, height, scroll_x: 0, scroll_y: 0 }),
    {
        Viewport { width, height, scroll_x: 0, scroll_y: 0 }
    }

    /// The part of the document that the viewport shows.
    pub open spec fn visible(self) -> Rectangle {
        Rectangle { x: self.scroll_x, y: self.scroll_y, width: self.width, height: self.height }
    }

    /// The part of the document that the viewport shows.
    pub fn visible_rect(&self) -> (r: Rectangle)
        ensures
            r == self.visible(),
    {
        Rectangle { x: self.scroll_x, y: self.scroll_y, width: self.width, height: self.height }
    }

    /// Sets the vertical scroll offset, unclamped.
    pub fn scroll_to(&mut self, y: u16)
        ensures
            *final(self) == (Viewport { scroll_y: y, ..*old(self) }),
    {
        self.scroll_y = y;
    }

    /// Sets the vertical scroll offset to `y`, limited so that the viewport
    /// does not pass the end of the document.
    pub fn scroll_to_clamped(&mut self, y: u16, doc_height: u16)
        ensures
            final(self).scroll_y == clamp(y as int, 0, max_scroll(doc_height, old(self).height)),
            0 <= final(self).scroll_y <= max_scroll(doc_height, old(self).height),
            *final(self) == (Viewport { scroll_y: final(self).scroll_y, ..*old(self) }),
    {
        let max_scroll: u16 = doc_height.saturating_sub(self.height);
        self.scroll_y = if y < max_scroll { y } else { max_scroll };
    }

    /// Moves the vertical scroll offset by `delta_y` rows, not above the top
    /// and not past `u16::MAX`.
    pub fn scroll_by(&mut self, delta_y: i16)
        ensures
            final(self).scroll_y == clamp(old(self).scroll_y + delta_y, 0, u16::MAX as int),
            *final(self) == (Viewport { scroll_y: final(self).scroll_y, ..*old(self) }),
    {
        let moved: i32 = self.scroll_y as i32 + delta_y as i32;
        self.scroll_y = if moved < 0 {
            0
        } else if moved > u16::MAX as i32 {
            u16::MAX
        } else {
            moved as u16
        };
    }

    /// Moves the vertical scroll offset by `delta_y` rows, not above the top
    /// and not past the end of the document.
    pub fn scroll_by_clamped(&mut self, delta_y: i16, doc_height: u16)
        ensures
            final(self).scroll_y == clamp(
                old(self).scroll_y + delta_y,
                0,
                max_scroll(doc_height, old(self).height),
            ),
            0 <= final(self).scroll_y <= max_scroll(doc_height, old(self).height),
            *final(self) == (Viewport { scroll_y: final(self).scroll_y, ..*old(self) }),
    {
        let moved: i32 = self.scroll_y as i32 + delta_y as i32;
        let max_scroll: u16 = doc_height.saturating_sub(self.height);
        self.scroll_y = if moved < 0 {
            0
        } else if moved > max_scroll as i32 {
            max_scroll
        } else {
            moved as u16
        };
    }

    /// Whether the document cell `(x, y)` is visible.
    pub fn contains_point(&self, x: u16, y: u16) -> (b: bool)
        ensures
            b == self.visible().covers(x as int, y as int),
    {
        let rect = self.visible_rect();
        rect.contains(x, y)
    }
}

/// Layout element types.
#[derive(Debug)]
pub enum LayoutElement {
    Document,
    Heading { level: u8, text: String },
    Paragraph { lines: Vec<Line> },
    CodeBlock { lang: Option<String>, lines: Vec<String> },
    BlockQuote,
    List { ordered: bool, start: usize },
    ListItem { marker: String, task: Option<bool> },
    Table { column_widths: Vec<u16> },
    TableRow { is_header: bool },
    TableCell,
    HorizontalRule,
    Callout { kind: CalloutKind },
    Image { path: String, alt_text: String },
}

/// Model of a [`LayoutElement`].
pub enum ElementView {
    Document,
    Heading { level: u8, text: Seq<char> },
    Paragraph { lines: Seq<Seq<SegmentView>> },
    CodeBlock { lang: Option<Seq<char>>, lines: Seq<Seq<char>> },
    BlockQuote,
    List { ordered: bool, start: usize },
    ListItem { marker: Seq<char>, task: Option<bool> },
    Table { column_widths: Seq<u16> },
    TableRow { is_header: bool },
    TableCell,
    HorizontalRule,
    Callout { kind: CalloutKind },
    Image { path: Seq<char>, alt_text: Seq<char> },
}

impl View for LayoutElement {
    type V = ElementView;

    open spec fn view(&self) -> ElementView {
        match self {
            LayoutElement::Document => ElementView::Document,
            LayoutElement::Heading { level, text } => ElementView::Heading {
                level: *level,
                text: text@,
            },
            LayoutElement::Paragraph { lines } => ElementView::Paragraph {
                lines: lines_view(lines@),
            },
            LayoutElement::CodeBlock { lang, lines } => ElementView::CodeBlock {
                lang: opt_view(*lang),
                lines: strings_view(lines@),
            },
            LayoutElement::BlockQuote => ElementView::BlockQuote,
            LayoutElement::List { ordered, start } => ElementView::List {
                ordered: *ordered,
                start: *start,
            },
            LayoutElement::ListItem { marker, task } => ElementView::ListItem {
                marker: marker@,
                task: *task,
            },
            LayoutElement::Table { column_widths } => ElementView::Table {
                column_widths: column_widths@,
            },
            LayoutElement::TableRow { is_header } => ElementView::TableRow { is_header: *is_header },
            LayoutElement::TableCell => ElementView::TableCell,
            LayoutElement::HorizontalRule => ElementView::HorizontalRule,
            LayoutElement::Callout { kind } => ElementView::Callout { kind: *kind },
            LayoutElement::Image { path, alt_text } => ElementView::Image {
                path: path@,
                alt_text: alt_text@,
            },
        }
    }
}

/// A positioned and sized layout node.
#[derive(Debug)]
pub struct LayoutNode {
    pub id: NodeId,
    pub rect: Rectangle,
    pub element: LayoutElement,
    pub children: Vec<LayoutNode>,
    pub style: ComputedStyle,
}

/// Model of a [`LayoutNode`].
pub struct NodeView {
    pub id: NodeId,
    pub rect: Rectangle,
    pub element: ElementView,
    pub children: Seq<NodeView>,
    pub style: ComputedStyle,
}

/// Models of a sequence of nodes, element by element.
pub open spec fn nodes_view(s: Seq<LayoutNode>) -> Seq<NodeView>
    decreases s,
{
    Seq::new(
        s.len(),
        |i: int|
            if 0 <= i < s.len() {
                s[i].view()
            } else {
                NodeView {
                    id: 0,
                    rect: Rectangle { x: 0, y: 0, width: 0, height: 0 },
                    element: ElementView::Document,
                    children: Seq::empty(),
                    style: default_style(),
                }
            },
    )
}

impl View for LayoutNode {
    type V = NodeView;

    open spec fn view(&self) -> NodeView
        decreases self,
    {
        NodeView {
            id: self.id,
            rect: self.rect,
            element: self.element@,
            children: nodes_view(self.children@),
            style: self.style,
        }
    }
}

/// The models of nodes with one more node.
pub(crate) proof fn lemma_nodes_view_push(s: Seq<LayoutNode>, x: LayoutNode)
    ensures
        nodes_view(s.push(x)) == nodes_view(s).push(x@),
{
}

/// Interactive elements.
#[derive(Debug)]
pub enum HitElement {
    Link { url: String, text: String },
    CodeBlock { lang: Option<String> },
    Heading { level: u8, id: String },
}

/// Model of a [`HitElement`].
pub enum HitElementView {
    Link { url: Seq<char>, text: Seq<char> },
    CodeBlock { lang: Option<Seq<char>> },
    Heading { level: u8, id: Seq<char> },
}

impl View for HitElement {
    type V = HitElementView;

    open spec fn view(&self) -> HitElementView {
        match self {
            HitElement::Link { url, text } => HitElementView::Link { url: url@, text: text@ },
            HitElement::CodeBlock { lang } => HitElementView::CodeBlock { lang: opt_view(*lang) },
            HitElement::Heading { level, id } => HitElementView::Heading { level: *level, id: id@ },
        }
    }
}

/// Hit testing region.
#[derive(Debug)]
pub struct HitRegion {
    pub rect: Rectangle,
    pub element: HitElement,
}

/// Model of a [`HitRegion`].
pub struct HitRegionView {
    pub rect: Rectangle,
    pub element: HitElementView,
}

impl View for HitRegion {
    type V = HitRegionView;

    open spec fn view(&self) -> HitRegionView {
        HitRegionView { rect: self.rect, element: self.element@ }
    }
}

/// Models of a sequence of hit regions, element by element.
pub open spec fn hits_view(s: Seq<HitRegion>) -> Seq<HitRegionView> {
    Seq::new(s.len(), |i: int| s[i]@)
}

/// The models of hit regions with one more region.
pub(crate) proof fn lemma_hits_view_push(s: Seq<HitRegion>, x: HitRegion)
    ensures
        hits_view(s.push(x)) == hits_view(s).push(x@),
{
}

/// Pointer from document content to an image, with the document row it
/// stands on.
#[derive(Debug)]
pub struct ImageReference {
    pub path: String,
    pub alt_text: String,
    pub y_position: u16,
}

/// Model of an [`ImageReference`].
pub struct ImageView {
    pub path: Seq<char>,
    pub alt_text: Seq<char>,
    pub y_position: u16,
}

impl View for ImageReference {
    type V = ImageView;

    open spec fn view(&self) -> ImageView {
        ImageView { path: self.path@, alt_text: self.alt_text@, y_position: self.y_position }
    }
}

/// Models of a sequence of image references, element by element.
pub open spec fn images_view(s: Seq<ImageReference>) -> Seq<ImageView> {
    Seq::new(s.len(), |i: int| s[i]@)
}

/// The models of image references with one more reference.
pub(crate) proof fn lemma_images_view_push(s: Seq<ImageReference>, x: ImageReference)
    ensures
        images_view(s.push(x)) == images_view(s).push(x@),
{
}

/// Complete layout tree with viewport.
#[derive(Debug)]
pub struct LayoutTree {
    pub root: LayoutNode,
    pub viewport: Viewport,
    pub hit_regions: Vec<HitRegion>,
    pub images: Vec<ImageReference>,
}

/// Model of a [`LayoutTree`].
pub struct TreeView {
    pub root: NodeView,
    pub viewport: Viewport,
    pub hit_regions: Seq<HitRegionView>,
    pub images: Seq<ImageView>,
}

impl View for LayoutTree {
    type V = TreeView;

    open spec fn view(&self) -> TreeView {
        TreeView {
            root: self.root@,
            viewport: self.viewport,
            hit_regions: hits_view(self.hit_regions@),
            images: images_view(self.images@),
        }
    }
}

impl Clone for TextSegment {
    fn clone(&self) -> (r: TextSegment)
        ensures
            r@ == self@,
    {
        TextSegment {
            text: self.text.clone(),
            style: self.style,
            link_url: clone_opt_string(&self.link_url),
            image_url: clone_opt_string(&self.image_url),
            image_alt: clone_opt_string(&self.image_alt),
        }
    }
}

impl Clone for Line {
    fn clone(&self) -> (r: Line)
        ensures
            r@ == self@,
    {
        let mut segments: Vec<TextSegment> = Vec::new();
        let mut i: usize = 0;
        while i < self.segments.len()
            invariant
                i <= self.segments.len(),
                segments_view(segments@) == self@.take(i as int),
            decreases self.segments.len() - i,
        {
            let c = self.segments[i].clone();
            proof {
                lemma_segments_view_push(segments@, c);
            }
            segments.push(c);
            i += 1;
        }
        Line { segments }
    }
}

/// A copy of a sequence of lines.
pub fn clone_lines(v: &Vec<Line>) -> (r: Vec<Line>)
    ensures
        lines_view(r@) == lines_view(v@),
{
    let mut r: Vec<Line> = Vec::new();
    let mut i: usize = 0;
    while i < v.len()
        invariant
            i <= v.len(),
            lines_view(r@) == lines_view(v@).take(i as int),
        decreases v.len() - i,
    {
        let c = v[i].clone();
        proof {
            lemma_lines_view_push(r@, c);
        }
        r.push(c);
        i += 1;
    }
    r
}

/// A copy of a sequence of strings.
pub fn clone_strings(v: &Vec<String>) -> (r: Vec<String>)
    ensures
        strings_view(r@) == strings_view(v@),
{
    let mut r: Vec<String> = Vec::new();
    let mut i: usize = 0;
    while i < v.len()
        invariant
            i <= v.len(),
            strings_view(r@) == strings_view(v@).take(i as int),
        decreases v.len() - i,
    {
        let c = v[i].clone();
        proof {
            lemma_strings_view_push(r@, c);
        }
        r.push(c);
        i += 1;
    }
    r
}

/// A copy of a sequence of widths.
fn clone_widths(v: &Vec<u16>) -> (r: Vec<u16>)
    ensures
        r@ == v@,
{
    let mut r: Vec<u16> = Vec::new();
    let mut i: usize = 0;
    while i < v.len()
        invariant
            i <= v.len(),
            r@ == v@.take(i as int),
        decreases v.len() - i,
    {
        r.push(v[i]);
        i += 1;
    }
    r
}

impl Clone for LayoutElement {
    fn clone(&self) -> (r: LayoutElement)
        ensures
            r@ == self@,
    {
        match self {
            LayoutElement::Document => LayoutElement::Document,
            LayoutElement::Heading { level, text } => LayoutElement::Heading {
                level: *level,
                text: text.clone(),
            },
            LayoutElement::Paragraph { lines } => LayoutElement::Paragraph {
                lines: clone_lines(lines),
            },
            LayoutElement::CodeBlock { lang, lines } => LayoutElement::CodeBlock {
                lang: clone_opt_string(lang),
                lines: clone_strings(lines),
            },
            LayoutElement::BlockQuote => LayoutElement::BlockQuote,
            LayoutElement::List { ordered, start } => LayoutElement::List {
                ordered: *ordered,
                start: *start,
            },
            LayoutElement::ListItem { marker, task } => LayoutElement::ListItem {
                marker: marker.clone(),
                task: *task,
            },
            LayoutElement::Table { column_widths } => LayoutElement::Table {
                column_widths: clone_widths(column_widths),
            },
            LayoutElement::TableRow { is_header } => LayoutElement::TableRow {
                is_header: *is_header,
            },
            LayoutElement::TableCell => LayoutElement::TableCell,
            LayoutElement::HorizontalRule => LayoutElement::HorizontalRule,
            LayoutElement::Callout { kind } => LayoutElement::Callout { kind: *kind },
            LayoutElement::Image { path, alt_text } => LayoutElement::Image {
                path: path.clone(),
                alt_text: alt_text.clone(),
            },
        }
    }
}

/// A copy of a sequence of nodes.
pub fn clone_nodes(v: &Vec<LayoutNode>) -> (r: Vec<LayoutNode>)
    ensures
        nodes_view(r@) == nodes_view(v@),
    decreases v,
{
    let mut r: Vec<LayoutNode> = Vec::new();
    let mut i: usize = 0;
    while i < v.len()
        invariant
            i <= v.len(),
            nodes_view(r@) == nodes_view(v@).take(i as int),
        decreases v.len() - i,
    {
        let c = v[i].clone();
        proof {
            lemma_nodes_view_push(r@, c);
        }
        r.push(c);
        i += 1;
    }
    r
}

impl Clone for LayoutNode {
    fn clone(&self) -> (r: LayoutNode)
        ensures
            r@ == self@,
        decreases self,
    {
        LayoutNode {
            id: self.id,
            rect: self.rect,
            element: self.element.clone(),
            children: clone_nodes(&self.children),
            style: self.style,
        }
    }
}

impl Clone for HitElement {
    fn clone(&self) -> (r: HitElement)
        ensures
            r@ == self@,
    {
        match self {
            HitElement::Link { url, text } => HitElement::Link {
                url: url.clone(),
                text: text.clone(),
            },
            HitElement::CodeBlock { lang } => HitElement::CodeBlock { lang: clone_opt_string(lang) },
            HitElement::Heading { level, id } => HitElement::Heading {
                level: *level,
                id: id.clone(),
            },
        }
    }
}

impl Clone for HitRegion {
    fn clone(&self) -> (r: HitRegion)
        ensures
            r@ == self@,
    {
        HitRegion { rect: self.rect, element: self.element.clone() }
    }
}

impl Clone for ImageReference {
    fn clone(&self) -> (r: ImageReference)
        ensures
            r@ == self@,
    {
        ImageReference {
            path: self.path.clone(),
            alt_text: self.alt_text.clone(),
            y_position: self.y_position,
        }
    }
}

impl Clone for LayoutTree {
    fn clone(&self) -> (r: LayoutTree)
        ensures
            r@ == self@,
    {
        let mut hit_regions: Vec<HitRegion> = Vec::new();
        let mut i: usize = 0;
        while i < self.hit_regions.len()
            invariant
                i <= self.hit_regions.len(),
                hits_view(hit_regions@) == hits_view(self.hit_regions@).take(i as int),
            decreases self.hit_regions.len() - i,
        {
            let c = self.hit_regions[i].clone();
            proof {
                lemma_hits_view_push(hit_regions@, c);
            }
            hit_regions.push(c);
            i += 1;
        }
        assert(hits_view(self.hit_regions@).take(self.hit_regions.len() as int) =~= hits_view(
            self.hit_regions@,
        ));
        let mut images: Vec<ImageReference> = Vec::new();
        let mut k: usize = 0;
        while k < self.images.len()
            invariant
                k <= self.images.len(),
                images_view(images@) == images_view(self.images@).take(k as int),
            decreases self.images.len() - k,
        {
            let c = self.images[k].clone();
            proof {
                lemma_images_view_push(images@, c);
            }
            images.push(c);
            k += 1;
        }
        assert(images_view(self.images@).take(self.images.len() as int) =~= images_view(
            self.images@,
        ));
        LayoutTree { root: self.root.clone(), viewport: self.viewport, hit_regions, images }
    }
}

} // verus!
