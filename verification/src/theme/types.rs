//! Theme type definitions.

use super::color::Color;
use vstd::prelude::*;
use vstd::string::*;

verus! {

broadcast use vstd::string::group_string_axioms;

/// Complete theme definition.
#[derive(Debug, Clone)]
pub struct Theme {
    /// Theme name.
    pub name: String,
    /// Theme version.
    pub version: String,
    /// Color palette.
    pub colors: ColorPalette,
    /// Typography settings.
    pub typography: Typography,
    /// Spacing settings.
    pub spacing: Spacing,
    /// Block-level element styles.
    pub blocks: BlockStyles,
    /// Inline element styles.
    pub inlines: InlineStyles,
}

/// Version given to a theme that names none.
pub fn default_version() -> (v: String)
    ensures
        v@ == "1.0"@,
{
    "1.0".to_string()
}

/// Core color palette.
#[derive(Debug, Clone, Copy, PartialEq, Eq, Structural)]
pub struct ColorPalette {
    pub foreground: Color,
    pub background: Color,
    pub primary: Color,
    pub secondary: Color,
    pub accent: Color,
    pub muted: Color,
    pub error: Color,
    pub warning: Color,
    pub success: Color,
}

/// Typography configuration.
#[derive(Debug, Clone, Copy, PartialEq, Eq, Structural)]
pub struct Typography {
    /// Emphasis rendering strategy.
    pub emphasis: EmphasisStyle,
}

impl Default for Typography {
    fn default() -> (t: Typography)
        ensures
            t == (Typography { emphasis: EmphasisStyle::Native }),
    {
        Typography { emphasis: EmphasisStyle::Native }
    }
}

/// How to render emphasis (italic, bold, etc.).
#[derive(Debug, Clone, Copy, PartialEq, Eq, Structural)]
pub enum EmphasisStyle {
    /// Use terminal's native bold/italic.
    Native,
    /// Use color shifts.
    ColorShift,
    /// Use background highlighting.
    BackgroundBand,
}

impl Default for EmphasisStyle {
    fn default() -> (e: EmphasisStyle)
        ensures
            e == EmphasisStyle::Native,
    {
        EmphasisStyle::Native
    }
}

/// Spacing configuration (in lines/columns).
#[derive(Debug, Clone, Copy, PartialEq, Eq, Structural)]
pub struct Spacing {
    pub paragraph_spacing: u16,
    pub heading_margin_top: u16,
    pub heading_margin_bottom: u16,
    pub list_indent: u16,
    pub blockquote_indent: u16,
    pub code_block_padding: u16,
}

/// Rows below a paragraph in a theme that names none.
pub fn default_paragraph_spacing() -> (n: u16)
    ensures
        n == 1,
{
    1
}

/// Rows above a heading in a theme that names none.
pub fn default_heading_margin_top() -> (n: u16)
    ensures
        n == 2,
{
    2
}

/// Rows below a heading in a theme that names none.
pub fn default_heading_margin_bottom() -> (n: u16)
    ensures
        n == 1,
{
    1
}

/// Indent of a list in a theme that names none.
pub fn default_list_indent() -> (n: u16)
    ensures
        n == 2,
{
    2
}

/// Indent of a block quote in a theme that names none.
pub fn default_blockquote_indent() -> (n: u16)
    ensures
        n == 2,
{
    2
}

/// Padding of a code block in a theme that names none.
pub fn default_code_block_padding() -> (n: u16)
    ensures
        n == 1,
{
    1
}

/// What a switch is set to in a theme that leaves it out: on.
pub fn default_true() -> (b: bool)
    ensures
        b,
{
    true
}

/// The spacing every built-in theme uses.
pub open spec fn standard_spacing() -> Spacing {
    Spacing {
        paragraph_spacing: 1,
        heading_margin_top: 2,
        heading_margin_bottom: 1,
        list_indent: 2,
        blockquote_indent: 2,
        code_block_padding: 1,
    }
}

impl Default for Spacing {
    fn default() -> (s: Spacing)
        ensures
            s == standard_spacing(),
    {
        Spacing {
            paragraph_spacing: default_paragraph_spacing(),
            heading_margin_top: default_heading_margin_top(),
            heading_margin_bottom: default_heading_margin_bottom(),
            list_indent: default_list_indent(),
            blockquote_indent: default_blockquote_indent(),
            code_block_padding: default_code_block_padding(),
        }
    }
}

/// Block-level element styles.
#[derive(Debug, Clone)]
pub struct BlockStyles {
    pub heading: HeadingStyles,
    pub paragraph: ParagraphStyle,
    pub code_block: CodeBlockStyle,
    pub blockquote: BlockQuoteStyle,
    pub list: ListStyle,
    pub table: TableStyle,
    pub horizontal_rule: HorizontalRuleStyle,
    pub callout: CalloutStyles,
}

/// Styles for all heading levels.
#[derive(Debug, Clone)]
pub struct HeadingStyles {
    pub h1: HeadingStyle,
    pub h2: HeadingStyle,
    pub h3: HeadingStyle,
    pub h4: HeadingStyle,
    pub h5: HeadingStyle,
    pub h6: HeadingStyle,
}

/// Individual heading style.
#[derive(Debug)]
pub struct HeadingStyle {
    pub color: Color,
    pub background: Option<Color>,
    pub border: Option<BorderConfig>,
    /// (vertical, horizontal)
    pub padding: (u16, u16),
    /// (top, bottom)
    pub margin: (u16, u16),
    pub prefix: Option<String>,
}

/// What a heading style holds, with its border and prefix as plain values.
pub open spec fn heading_style_is(
    h: HeadingStyle,
    color: Color,
    border: Option<BorderModel>,
    margin: (u16, u16),
    prefix: Option<Seq<char>>,
) -> bool {
    &&& h.color == color
    &&& h.background is None
    &&& border_model(h.border) == border
    &&& h.padding == (0u16, 0u16)
    &&& h.margin == margin
    &&& match (h.prefix, prefix) {
        (Some(p), Some(q)) => p@ == q,
        (None, None) => true,
        _ => false,
    }
}

impl Default for HeadingStyle {
    fn default() -> (h: HeadingStyle)
        ensures
            heading_style_is(h, Color::Reset, None, (1u16, 1u16), None),
    {
        HeadingStyle {
            color: Color::Reset,
            background: None,
            border: None,
            padding: (0, 0),
            margin: (1, 1),
            prefix: None,
        }
    }
}

/// Paragraph style.
#[derive(Debug, Clone, Copy)]
pub struct ParagraphStyle {
    pub color: Color,
    pub margin: (u16, u16),
}

impl Default for ParagraphStyle {
    fn default() -> (p: ParagraphStyle)
        ensures
            p == (ParagraphStyle { color: Color::Reset, margin: (0u16, 1u16) }),
    {
        ParagraphStyle { color: Color::Reset, margin: (0, 1) }
    }
}

/// Code block style.
#[derive(Debug)]
pub struct CodeBlockStyle {
    pub background: Color,
    pub foreground: Color,
    pub border: Option<BorderConfig>,
    pub padding: (u16, u16),
    pub show_language_badge: bool,
}

/// A copy of an optional border.
pub fn clone_border(border: &Option<BorderConfig>) -> (b: Option<BorderConfig>)
    ensures
        border_model(b) == border_model(*border),
{
    match border {
        Some(config) => Some(config.clone()),
        None => None,
    }
}

impl Clone for CodeBlockStyle {
    fn clone(&self) -> (c: CodeBlockStyle)
        ensures
            c.background == self.background,
            c.foreground == self.foreground,
            border_model(c.border) == border_model(self.border),
            c.padding == self.padding,
            c.show_language_badge == self.show_language_badge,
    {
        CodeBlockStyle {
            background: self.background,
            foreground: self.foreground,
            border: clone_border(&self.border),
            padding: (self.padding.0, self.padding.1),
            show_language_badge: self.show_language_badge,
        }
    }
}

impl Clone for HeadingStyle {
    fn clone(&self) -> (h: HeadingStyle)
        ensures
            h.color == self.color,
            h.background == self.background,
            border_model(h.border) == border_model(self.border),
            h.padding == self.padding,
            h.margin == self.margin,
            h.prefix == self.prefix,
    {
        HeadingStyle {
            color: self.color,
            background: self.background,
            border: clone_border(&self.border),
            padding: (self.padding.0, self.padding.1),
            margin: (self.margin.0, self.margin.1),
            prefix: match &self.prefix {
                Some(p) => Some(p.clone()),
                None => None,
            },
        }
    }
}

/// Block quote style.
#[derive(Debug, Clone)]
pub struct BlockQuoteStyle {
    pub color: Color,
    pub background: Option<Color>,
    pub border: Option<BorderConfig>,
    pub indent: u16,
}

/// List style.
#[derive(Debug, Clone, Copy, PartialEq, Eq, Structural)]
pub struct ListStyle {
    pub marker_color: Color,
    pub indent: u16,
}

impl Default for ListStyle {
    fn default() -> (l: ListStyle)
        ensures
            l == (ListStyle { marker_color: Color::Reset, indent: 2 }),
    {
        ListStyle { marker_color: Color::Reset, indent: default_list_indent() }
    }
}

/// Table style.
#[derive(Debug, Clone, Copy, PartialEq, Eq, Structural)]
pub struct TableStyle {
    pub border_style: BorderStyle,
    pub header_background: Option<Color>,
    pub header_foreground: Option<Color>,
    pub row_separator: bool,
    pub padding: u16,
}

/// Horizontal rule style.
#[derive(Debug, Clone, Copy, PartialEq, Eq, Structural)]
pub struct HorizontalRuleStyle {
    pub style: BorderStyle,
    pub color: Color,
}

impl Default for HorizontalRuleStyle {
    fn default() -> (h: HorizontalRuleStyle)
        ensures
            h == (HorizontalRuleStyle { style: BorderStyle::Single, color: Color::Reset }),
    {
        HorizontalRuleStyle { style: BorderStyle::Single, color: Color::Reset }
    }
}

/// Style of one kind of callout.
#[derive(Debug, Clone)]
pub struct CalloutStyle {
    /// Shown in the two-cell icon column at the callout's top left.
    pub icon: String,
    pub color: Color,
    pub border_color: Color,
    pub background: Option<Color>,
}

/// Callout styles, one per kind.
#[derive(Debug, Clone)]
pub struct CalloutStyles {
    pub note: CalloutStyle,
    pub warning: CalloutStyle,
    pub important: CalloutStyle,
    pub tip: CalloutStyle,
    pub caution: CalloutStyle,
}

/// What a callout style holds: its icon, and one color for text and
/// border, without background.
pub open spec fn callout_style_is(c: CalloutStyle, icon: Seq<char>, color: Color) -> bool {
    &&& c.icon@ == icon
    &&& c.color == color
    &&& c.border_color == color
    &&& c.background is None
}

/// The callout styles every built-in theme uses: one ANSI color and one
/// ASCII icon per kind, no background.
pub open spec fn standard_callouts(c: CalloutStyles) -> bool {
    &&& callout_style_is(c.note, "i"@, Color::Ansi(super::color::AnsiColor::Blue))
    &&& callout_style_is(c.warning, "!"@, Color::Ansi(super::color::AnsiColor::Yellow))
    &&& callout_style_is(c.important, "*"@, Color::Ansi(super::color::AnsiColor::Magenta))
    &&& callout_style_is(c.tip, "+"@, Color::Ansi(super::color::AnsiColor::Green))
    &&& callout_style_is(c.caution, "x"@, Color::Ansi(super::color::AnsiColor::Red))
}

/// A callout style of one color, without background.
fn callout_style(icon: &str, color: Color) -> (c: CalloutStyle)
    ensures
        callout_style_is(c, icon@, color),
{
    CalloutStyle { icon: icon.to_string(), color, border_color: color, background: None }
}

impl Default for CalloutStyles {
    fn default() -> (c: CalloutStyles)
        ensures
            standard_callouts(c),
    {
        CalloutStyles {
            note: callout_style("i", Color::Ansi(super::color::AnsiColor::Blue)),
            warning: callout_style("!", Color::Ansi(super::color::AnsiColor::Yellow)),
            important: callout_style("*", Color::Ansi(super::color::AnsiColor::Magenta)),
            tip: callout_style("+", Color::Ansi(super::color::AnsiColor::Green)),
            caution: callout_style("x", Color::Ansi(super::color::AnsiColor::Red)),
        }
    }
}

/// Border configuration.
#[derive(Debug)]
pub struct BorderConfig {
    pub style: BorderStyle,
    pub color: Option<Color>,
    pub sides: Vec<BorderSide>,
}

impl Clone for BorderConfig {
    fn clone(&self) -> (b: BorderConfig)
        ensures
            b.style == self.style,
            b.color == self.color,
            b.sides@ == self.sides@,
    {
        let mut sides: Vec<BorderSide> = Vec::new();
        let mut i: usize = 0;
        while i < self.sides.len()
            invariant
                i <= self.sides.len(),
                sides@ == self.sides@.take(i as int),
            decreases self.sides.len() - i,
        {
            sides.push(self.sides[i]);
            i += 1;
        }
        BorderConfig { style: self.style, color: self.color, sides }
    }
}

/// A border configuration as plain values.
pub struct BorderModel {
    pub style: BorderStyle,
    pub color: Option<Color>,
    pub sides: Seq<BorderSide>,
}

/// An optional border configuration as plain values.
pub open spec fn border_model(b: Option<BorderConfig>) -> Option<BorderModel> {
    match b {
        Some(c) => Some(BorderModel { style: c.style, color: c.color, sides: c.sides@ }),
        None => None,
    }
}

/// The sides of a border in a theme that names none: all four.
pub fn default_all_sides() -> (sides: Vec<BorderSide>)
    ensures
        sides@ == seq![BorderSide::Top, BorderSide::Right, BorderSide::Bottom, BorderSide::Left],
{
    let mut sides: Vec<BorderSide> = Vec::new();
    sides.push(BorderSide::Top);
    sides.push(BorderSide::Right);
    sides.push(BorderSide::Bottom);
    sides.push(BorderSide::Left);
    sides
}

/// Border drawing style.
#[derive(Debug, Clone, Copy, PartialEq, Eq, Structural)]
pub enum BorderStyle {
    /// No border is drawn.
    NoBorder,
    Single,
    Double,
    Rounded,
    Heavy,
    Ascii,
}

impl Default for BorderStyle {
    fn default() -> (b: BorderStyle)
        ensures
            b == BorderStyle::Single,
    {
        BorderStyle::Single
    }
}

/// Which sides of a border to draw.
#[derive(Debug, Clone, Copy, PartialEq, Eq, Structural)]
pub enum BorderSide {
    Top,
    Right,
    Bottom,
    Left,
}

/// Inline element styles.
#[derive(Debug, Clone, Copy, PartialEq, Eq, Structural)]
pub struct InlineStyles {
    pub strong: TextStyle,
    pub emphasis: TextStyle,
    pub code: TextStyle,
    pub link: LinkStyle,
    pub strikethrough: TextStyle,
}

/// Text styling.
#[derive(Debug, Clone, Copy, PartialEq, Eq, Structural)]
pub struct TextStyle {
    pub foreground: Option<Color>,
    pub background: Option<Color>,
    pub weight: FontWeight,
    pub style: FontStyle,
}

impl Default for TextStyle {
    fn default() -> (t: TextStyle)
        ensures
            t == (TextStyle {
                foreground: None,
                background: None,
                weight: FontWeight::Normal,
                style: FontStyle::Normal,
            }),
    {
        TextStyle {
            foreground: None,
            background: None,
            weight: FontWeight::Normal,
            style: FontStyle::Normal,
        }
    }
}

/// Font weight.
#[derive(Debug, Clone, Copy, PartialEq, Eq, Structural)]
pub enum FontWeight {
    Normal,
    Bold,
}

impl Default for FontWeight {
    fn default() -> (w: FontWeight)
        ensures
            w == FontWeight::Normal,
    {
        FontWeight::Normal
    }
}

/// Font style.
#[derive(Debug, Clone, Copy, PartialEq, Eq, Structural)]
pub enum FontStyle {
    Normal,
    Italic,
}

impl Default for FontStyle {
    fn default() -> (s: FontStyle)
        ensures
            s == FontStyle::Normal,
    {
        FontStyle::Normal
    }
}

/// Link styling.
#[derive(Debug, Clone, Copy, PartialEq, Eq, Structural)]
pub struct LinkStyle {
    pub foreground: Color,
    pub underline: bool,
    pub show_url: UrlDisplayMode,
}

/// How to display link URLs.
#[derive(Debug, Clone, Copy, PartialEq, Eq, Structural)]
pub enum UrlDisplayMode {
    /// Show the URL after the link text.
    Inline,
    /// Show on hover (if the terminal supports it).
    Hover,
    /// Don't show the URL.
    Hidden,
}

impl Default for UrlDisplayMode {
    fn default() -> (m: UrlDisplayMode)
        ensures
            m == UrlDisplayMode::Hover,
    {
        UrlDisplayMode::Hover
    }
}

} // verus!
