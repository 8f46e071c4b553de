//! Built-in themes.

use super::color::{AnsiColor, Color};
use super::types::{
    border_model, default_all_sides, heading_style_is, standard_callouts, standard_spacing,
    BlockQuoteStyle, BlockStyles, BorderConfig, BorderModel, BorderSide, BorderStyle,
    CalloutStyles, CodeBlockStyle, ColorPalette, EmphasisStyle, FontStyle, FontWeight,
    HeadingStyle, HeadingStyles, HorizontalRuleStyle, InlineStyles, LinkStyle, ListStyle,
    ParagraphStyle, Spacing, TableStyle, TextStyle, Theme, Typography, UrlDisplayMode,
};
use vstd::prelude::*;
use vstd::string::*;

verus! {

broadcast use vstd::string::group_string_axioms;

/// What a code block style holds, with its border as plain values.
pub open spec fn code_block_is(
    c: CodeBlockStyle,
    background: Color,
    foreground: Color,
    border: Option<BorderModel>,
    padding: (u16, u16),
    show_language_badge: bool,
) -> bool {
    &&& c.background == background
    &&& c.foreground == foreground
    &&& border_model(c.border) == border
    &&& c.padding == padding
    &&& c.show_language_badge == show_language_badge
}

/// What a block quote style holds, with its border as plain values.
pub open spec fn blockquote_is(
    b: BlockQuoteStyle,
    color: Color,
    background: Option<Color>,
    border: Option<BorderModel>,
    indent: u16,
) -> bool {
    &&& b.color == color
    &&& b.background == background
    &&& border_model(b.border) == border
    &&& b.indent == indent
}

/// A border on one side.
pub open spec fn edge(style: BorderStyle, color: Option<Color>, side: BorderSide) -> Option<
    BorderModel,
> {
    Some(BorderModel { style, color, sides: seq![side] })
}

/// A border on all four sides.
pub open spec fn frame(style: BorderStyle, color: Option<Color>) -> Option<BorderModel> {
    Some(
        BorderModel {
            style,
            color,
            sides: seq![BorderSide::Top, BorderSide::Right, BorderSide::Bottom, BorderSide::Left],
        },
    )
}

/// A text style.
pub open spec fn text_style(
    foreground: Option<Color>,
    background: Option<Color>,
    weight: FontWeight,
    style: FontStyle,
) -> TextStyle {
    TextStyle { foreground, background, weight, style }
}

/// A border on one side.
fn edge_border(style: BorderStyle, color: Option<Color>, side: BorderSide) -> (b: Option<
    BorderConfig,
>)
    ensures
        border_model(b) == edge(style, color, side),
{
    let mut sides: Vec<BorderSide> = Vec::new();
    sides.push(side);
    Some(BorderConfig { style, color, sides })
}

/// A border on all four sides.
fn frame_border(style: BorderStyle, color: Option<Color>) -> (b: Option<BorderConfig>)
    ensures
        border_model(b) == frame(style, color),
{
    Some(BorderConfig { style, color, sides: default_all_sides() })
}

/// A text style.
fn make_text_style(
    foreground: Option<Color>,
    background: Option<Color>,
    weight: FontWeight,
    style: FontStyle,
) -> (t: TextStyle)
    ensures
        t == text_style(foreground, background, weight, style),
{
    TextStyle { foreground, background, weight, style }
}

/// A heading style without background and padding.
fn heading(color: Color, border: Option<BorderConfig>, margin: (u16, u16), prefix: Option<&str>) -> (h:
    HeadingStyle)
    ensures
        heading_style_is(
            h,
            color,
            border_model(border),
            margin,
            match prefix {
                Some(p) => Some(p@),
                None => None,
            },
        ),
{
    HeadingStyle {
        color,
        background: None,
        border,
        padding: (0, 0),
        margin,
        prefix: match prefix {
            Some(p) => Some(p.to_string()),
            None => None,
        },
    }
}

/// What the Docs theme holds.
pub open spec fn is_docs_theme(t: Theme) -> bool {
    &&& t.name@ == "Docs"@
    &&& t.version@ == "1.0"@
    &&& t.colors == (ColorPalette {
        foreground: Color::Rgb(220, 220, 220),
        background: Color::Rgb(30, 30, 30),
        primary: Color::Rgb(100, 180, 255),
        secondary: Color::Rgb(150, 150, 150),
        accent: Color::Rgb(255, 200, 100),
        muted: Color::Rgb(100, 100, 100),
        error: Color::Rgb(255, 100, 100),
        warning: Color::Rgb(255, 200, 100),
        success: Color::Rgb(100, 255, 150),
    })
    &&& t.typography == (Typography { emphasis: EmphasisStyle::Native })
    &&& t.spacing == standard_spacing()
    &&& heading_style_is(
        t.blocks.heading.h1,
        Color::Rgb(100, 180, 255),
        edge(BorderStyle::Double, Some(Color::Rgb(100, 180, 255)), BorderSide::Bottom),
        (2u16, 1u16),
        None,
    )
    &&& heading_style_is(
        t.blocks.heading.h2,
        Color::Rgb(100, 180, 255),
        edge(BorderStyle::Single, Some(Color::Rgb(100, 180, 255)), BorderSide::Bottom),
        (2u16, 1u16),
        None,
    )
    &&& heading_style_is(
        t.blocks.heading.h3,
        Color::Rgb(150, 200, 255),
        None,
        (1u16, 1u16),
        None,
    )
    &&& heading_style_is(
        t.blocks.heading.h4,
        Color::Rgb(150, 200, 255),
        None,
        (1u16, 1u16),
        None,
    )
    &&& heading_style_is(
        t.blocks.heading.h5,
        Color::Rgb(180, 200, 220),
        None,
        (1u16, 1u16),
        None,
    )
    &&& heading_style_is(
        t.blocks.heading.h6,
        Color::Rgb(180, 200, 220),
        None,
        (1u16, 1u16),
        None,
    )
    &&& t.blocks.paragraph.color == Color::Reset
    &&& t.blocks.paragraph.margin == (0u16, 1u16)
    &&& code_block_is(
        t.blocks.code_block,
        Color::Rgb(40, 40, 40),
        Color::Rgb(220, 220, 220),
        frame(BorderStyle::Rounded, Some(Color::Rgb(80, 80, 80))),
        (1u16, 2u16),
        true,
    )
    &&& blockquote_is(
        t.blocks.blockquote,
        Color::Rgb(180, 180, 200),
        None,
        edge(BorderStyle::Heavy, Some(Color::Rgb(100, 100, 150)), BorderSide::Left),
        2,
    )
    &&& t.blocks.list == (ListStyle { marker_color: Color::Rgb(100, 180, 255), indent: 2 })
    &&& t.blocks.table == (TableStyle {
        border_style: BorderStyle::Single,
        header_background: Some(Color::Rgb(50, 50, 80)),
        header_foreground: Some(Color::Rgb(255, 255, 255)),
        row_separator: true,
        padding: 1,
    })
    &&& t.blocks.horizontal_rule == (HorizontalRuleStyle {
        style: BorderStyle::Single,
        color: Color::Rgb(100, 100, 100),
    })
    &&& standard_callouts(t.blocks.callout)
    &&& t.inlines == (InlineStyles {
        strong: text_style(
            Some(Color::Rgb(255, 255, 255)),
            None,
            FontWeight::Bold,
            FontStyle::Normal,
        ),
        emphasis: text_style(
            Some(Color::Rgb(200, 200, 255)),
            None,
            FontWeight::Normal,
            FontStyle::Italic,
        ),
        code: text_style(
            Some(Color::Rgb(255, 150, 100)),
            Some(Color::Rgb(50, 50, 50)),
            FontWeight::Normal,
            FontStyle::Normal,
        ),
        link: LinkStyle {
            foreground: Color::Rgb(100, 180, 255),
            underline: true,
            show_url: UrlDisplayMode::Hover,
        },
        strikethrough: text_style(
            Some(Color::Rgb(150, 150, 150)),
            None,
            FontWeight::Normal,
            FontStyle::Normal,
        ),
    })
}

/// "Docs" theme: clean, documentation-focused.
pub fn docs_theme() -> (t: Theme)
    ensures
        is_docs_theme(t),
{
    Theme {
        name: "Docs".to_string(),
        version: "1.0".to_string(),
        colors: ColorPalette {
            foreground: Color::Rgb(220, 220, 220),
            background: Color::Rgb(30, 30, 30),
            primary: Color::Rgb(100, 180, 255),
            secondary: Color::Rgb(150, 150, 150),
            accent: Color::Rgb(255, 200, 100),
            muted: Color::Rgb(100, 100, 100),
            error: Color::Rgb(255, 100, 100),
            warning: Color::Rgb(255, 200, 100),
            success: Color::Rgb(100, 255, 150),
        },
        typography: Typography { emphasis: EmphasisStyle::Native },
        spacing: Spacing::default(),
        blocks: BlockStyles {
            heading: HeadingStyles {
                h1: heading(
                    Color::Rgb(100, 180, 255),
                    edge_border(BorderStyle::Double, Some(Color::Rgb(100, 180, 255)), BorderSide::Bottom),
                    (2, 1),
                    None,
                ),
                h2: heading(
                    Color::Rgb(100, 180, 255),
                    edge_border(BorderStyle::Single, Some(Color::Rgb(100, 180, 255)), BorderSide::Bottom),
                    (2, 1),
                    None,
                ),
                h3: heading(
                    Color::Rgb(150, 200, 255),
                    None,
                    (1, 1),
                    None,
                ),
                h4: heading(
                    Color::Rgb(150, 200, 255),
                    None,
                    (1, 1),
                    None,
                ),
                h5: heading(
                    Color::Rgb(180, 200, 220),
                    None,
                    (1, 1),
                    None,
                ),
                h6: heading(
                    Color::Rgb(180, 200, 220),
                    None,
                    (1, 1),
                    None,
                ),
            },
            paragraph: ParagraphStyle::default(),
            code_block: CodeBlockStyle {
                background: Color::Rgb(40, 40, 40),
                foreground: Color::Rgb(220, 220, 220),
                border: frame_border(BorderStyle::Rounded, Some(Color::Rgb(80, 80, 80))),
                padding: (1, 2),
                show_language_badge: true,
            },
            blockquote: BlockQuoteStyle {
                color: Color::Rgb(180, 180, 200),
                background: None,
                border: edge_border(BorderStyle::Heavy, Some(Color::Rgb(100, 100, 150)), BorderSide::Left),
                indent: 2,
            },
            list: ListStyle { marker_color: Color::Rgb(100, 180, 255), indent: 2 },
            table: TableStyle {
                border_style: BorderStyle::Single,
                header_background: Some(Color::Rgb(50, 50, 80)),
                header_foreground: Some(Color::Rgb(255, 255, 255)),
                row_separator: true,
                padding: 1,
            },
            horizontal_rule: HorizontalRuleStyle {
                style: BorderStyle::Single,
                color: Color::Rgb(100, 100, 100),
            },
            callout: CalloutStyles::default(),
        },
        inlines: InlineStyles {
            strong: make_text_style(
                Some(Color::Rgb(255, 255, 255)),
                None,
                FontWeight::Bold,
                FontStyle::Normal,
            ),
            emphasis: make_text_style(
                Some(Color::Rgb(200, 200, 255)),
                None,
                FontWeight::Normal,
                FontStyle::Italic,
            ),
            code: make_text_style(
                Some(Color::Rgb(255, 150, 100)),
                Some(Color::Rgb(50, 50, 50)),
                FontWeight::Normal,
                FontStyle::Normal,
            ),
            link: LinkStyle {
                foreground: Color::Rgb(100, 180, 255),
                underline: true,
                show_url: UrlDisplayMode::Hover,
            },
            strikethrough: make_text_style(
                Some(Color::Rgb(150, 150, 150)),
                None,
                FontWeight::Normal,
                FontStyle::Normal,
            ),
        },
    }
}

/// What the Neon theme holds.
pub open spec fn is_neon_theme(t: Theme) -> bool {
    &&& t.name@ == "Neon"@
    &&& t.version@ == "1.0"@
    &&& t.colors == (ColorPalette {
        foreground: Color::Rgb(240, 240, 255),
        background: Color::Rgb(10, 10, 20),
        primary: Color::Rgb(0, 255, 255),
        secondary: Color::Rgb(255, 0, 255),
        accent: Color::Rgb(255, 255, 0),
        muted: Color::Rgb(100, 100, 120),
        error: Color::Rgb(255, 50, 100),
        warning: Color::Rgb(255, 200, 0),
        success: Color::Rgb(0, 255, 150),
    })
    &&& t.typography == (Typography { emphasis: EmphasisStyle::Native })
    &&& t.spacing == standard_spacing()
    &&& heading_style_is(
        t.blocks.heading.h1,
        Color::Rgb(0, 255, 255),
        edge(BorderStyle::Rounded, Some(Color::Rgb(0, 255, 255)), BorderSide::Bottom),
        (2u16, 1u16),
        Some("▶ "@),
    )
    &&& heading_style_is(
        t.blocks.heading.h2,
        Color::Rgb(255, 0, 255),
        edge(BorderStyle::Rounded, Some(Color::Rgb(255, 0, 255)), BorderSide::Bottom),
        (2u16, 1u16),
        Some("■ "@),
    )
    &&& heading_style_is(
        t.blocks.heading.h3,
        Color::Rgb(255, 255, 0),
        None,
        (1u16, 1u16),
        Some("● "@),
    )
    &&& heading_style_is(
        t.blocks.heading.h4,
        Color::Rgb(0, 255, 200),
        None,
        (1u16, 1u16),
        None,
    )
    &&& heading_style_is(
        t.blocks.heading.h5,
        Color::Rgb(255, 150, 255),
        None,
        (1u16, 1u16),
        None,
    )
    &&& heading_style_is(
        t.blocks.heading.h6,
        Color::Rgb(200, 200, 255),
        None,
        (1u16, 1u16),
        None,
    )
    &&& t.blocks.paragraph.color == Color::Reset
    &&& t.blocks.paragraph.margin == (0u16, 1u16)
    &&& code_block_is(
        t.blocks.code_block,
        Color::Rgb(20, 20, 40),
        Color::Rgb(0, 255, 200),
        frame(BorderStyle::Rounded, Some(Color::Rgb(0, 200, 200))),
        (1u16, 2u16),
        true,
    )
    &&& blockquote_is(
        t.blocks.blockquote,
        Color::Rgb(200, 200, 255),
        Some(Color::Rgb(20, 20, 40)),
        edge(BorderStyle::Heavy, Some(Color::Rgb(255, 0, 255)), BorderSide::Left),
        2,
    )
    &&& t.blocks.list == (ListStyle { marker_color: Color::Rgb(0, 255, 255), indent: 2 })
    &&& t.blocks.table == (TableStyle {
        border_style: BorderStyle::Rounded,
        header_background: Some(Color::Rgb(50, 0, 100)),
        header_foreground: Some(Color::Rgb(255, 255, 255)),
        row_separator: true,
        padding: 1,
    })
    &&& t.blocks.horizontal_rule == (HorizontalRuleStyle {
        style: BorderStyle::Heavy,
        color: Color::Rgb(0, 255, 255),
    })
    &&& standard_callouts(t.blocks.callout)
    &&& t.inlines == (InlineStyles {
        strong: text_style(
            Some(Color::Rgb(255, 255, 255)),
            None,
            FontWeight::Bold,
            FontStyle::Normal,
        ),
        emphasis: text_style(
            Some(Color::Rgb(255, 200, 255)),
            None,
            FontWeight::Normal,
            FontStyle::Italic,
        ),
        code: text_style(
            Some(Color::Rgb(0, 255, 200)),
            Some(Color::Rgb(30, 30, 50)),
            FontWeight::Normal,
            FontStyle::Normal,
        ),
        link: LinkStyle {
            foreground: Color::Rgb(0, 255, 255),
            underline: true,
            show_url: UrlDisplayMode::Hover,
        },
        strikethrough: text_style(
            Some(Color::Rgb(120, 120, 140)),
            None,
            FontWeight::Normal,
            FontStyle::Normal,
        ),
    })
}

/// "Neon" theme: vibrant, modern, high-contrast.
pub fn neon_theme() -> (t: Theme)
    ensures
        is_neon_theme(t),
{
    Theme {
        name: "Neon".to_string(),
        version: "1.0".to_string(),
        colors: ColorPalette {
            foreground: Color::Rgb(240, 240, 255),
            background: Color::Rgb(10, 10, 20),
            primary: Color::Rgb(0, 255, 255),
            secondary: Color::Rgb(255, 0, 255),
            accent: Color::Rgb(255, 255, 0),
            muted: Color::Rgb(100, 100, 120),
            error: Color::Rgb(255, 50, 100),
            warning: Color::Rgb(255, 200, 0),
            success: Color::Rgb(0, 255, 150),
        },
        typography: Typography { emphasis: EmphasisStyle::Native },
        spacing: Spacing::default(),
        blocks: BlockStyles {
            heading: HeadingStyles {
                h1: heading(
                    Color::Rgb(0, 255, 255),
                    edge_border(BorderStyle::Rounded, Some(Color::Rgb(0, 255, 255)), BorderSide::Bottom),
                    (2, 1),
                    Some("▶ "),
                ),
                h2: heading(
                    Color::Rgb(255, 0, 255),
                    edge_border(BorderStyle::Rounded, Some(Color::Rgb(255, 0, 255)), BorderSide::Bottom),
                    (2, 1),
                    Some("■ "),
                ),
                h3: heading(
                    Color::Rgb(255, 255, 0),
                    None,
                    (1, 1),
                    Some("● "),
                ),
                h4: heading(
                    Color::Rgb(0, 255, 200),
                    None,
                    (1, 1),
                    None,
                ),
                h5: heading(
                    Color::Rgb(255, 150, 255),
                    None,
                    (1, 1),
                    None,
                ),
                h6: heading(
                    Color::Rgb(200, 200, 255),
                    None,
                    (1, 1),
                    None,
                ),
            },
            paragraph: ParagraphStyle::default(),
            code_block: CodeBlockStyle {
                background: Color::Rgb(20, 20, 40),
                foreground: Color::Rgb(0, 255, 200),
                border: frame_border(BorderStyle::Rounded, Some(Color::Rgb(0, 200, 200))),
                padding: (1, 2),
                show_language_badge: true,
            },
            blockquote: BlockQuoteStyle {
                color: Color::Rgb(200, 200, 255),
                background: Some(Color::Rgb(20, 20, 40)),
                border: edge_border(BorderStyle::Heavy, Some(Color::Rgb(255, 0, 255)), BorderSide::Left),
                indent: 2,
            },
            list: ListStyle { marker_color: Color::Rgb(0, 255, 255), indent: 2 },
            table: TableStyle {
                border_style: BorderStyle::Rounded,
                header_background: Some(Color::Rgb(50, 0, 100)),
                header_foreground: Some(Color::Rgb(255, 255, 255)),
                row_separator: true,
                padding: 1,
            },
            horizontal_rule: HorizontalRuleStyle {
                style: BorderStyle::Heavy,
                color: Color::Rgb(0, 255, 255),
            },
            callout: CalloutStyles::default(),
        },
        inlines: InlineStyles {
            strong: make_text_style(
                Some(Color::Rgb(255, 255, 255)),
                None,
                FontWeight::Bold,
                FontStyle::Normal,
            ),
            emphasis: make_text_style(
                Some(Color::Rgb(255, 200, 255)),
                None,
                FontWeight::Normal,
                FontStyle::Italic,
            ),
            code: make_text_style(
                Some(Color::Rgb(0, 255, 200)),
                Some(Color::Rgb(30, 30, 50)),
                FontWeight::Normal,
                FontStyle::Normal,
            ),
            link: LinkStyle {
                foreground: Color::Rgb(0, 255, 255),
                underline: true,
                show_url: UrlDisplayMode::Hover,
            },
            strikethrough: make_text_style(
                Some(Color::Rgb(120, 120, 140)),
                None,
                FontWeight::Normal,
                FontStyle::Normal,
            ),
        },
    }
}

/// What the Minimal theme holds.
pub open spec fn is_minimal_theme(t: Theme) -> bool {
    &&& t.name@ == "Minimal"@
    &&& t.version@ == "1.0"@
    &&& t.colors == (ColorPalette {
        foreground: Color::Ansi(AnsiColor::White),
        background: Color::Ansi(AnsiColor::Black),
        primary: Color::Ansi(AnsiColor::BrightWhite),
        secondary: Color::Ansi(AnsiColor::White),
        accent: Color::Ansi(AnsiColor::BrightWhite),
        muted: Color::Ansi(AnsiColor::BrightBlack),
        error: Color::Ansi(AnsiColor::Red),
        warning: Color::Ansi(AnsiColor::Yellow),
        success: Color::Ansi(AnsiColor::Green),
    })
    &&& t.typography == (Typography { emphasis: EmphasisStyle::Native })
    &&& t.spacing == standard_spacing()
    &&& heading_style_is(
        t.blocks.heading.h1,
        Color::Ansi(AnsiColor::BrightWhite),
        edge(BorderStyle::Ascii, None, BorderSide::Bottom),
        (2u16, 1u16),
        Some("# "@),
    )
    &&& heading_style_is(
        t.blocks.heading.h2,
        Color::Ansi(AnsiColor::BrightWhite),
        None,
        (1u16, 1u16),
        Some("## "@),
    )
    &&& heading_style_is(
        t.blocks.heading.h3,
        Color::Ansi(AnsiColor::White),
        None,
        (1u16, 1u16),
        Some("### "@),
    )
    &&& heading_style_is(
        t.blocks.heading.h4,
        Color::Reset,
        None,
        (1u16, 1u16),
        Some("#### "@),
    )
    &&& heading_style_is(
        t.blocks.heading.h5,
        Color::Reset,
        None,
        (1u16, 1u16),
        Some("##### "@),
    )
    &&& heading_style_is(
        t.blocks.heading.h6,
        Color::Reset,
        None,
        (1u16, 1u16),
        Some("###### "@),
    )
    &&& t.blocks.paragraph.color == Color::Reset
    &&& t.blocks.paragraph.margin == (0u16, 1u16)
    &&& code_block_is(
        t.blocks.code_block,
        Color::Reset,
        Color::Ansi(AnsiColor::White),
        frame(BorderStyle::Ascii, None),
        (0u16, 1u16),
        false,
    )
    &&& blockquote_is(
        t.blocks.blockquote,
        Color::Ansi(AnsiColor::BrightBlack),
        None,
        edge(BorderStyle::Ascii, None, BorderSide::Left),
        2,
    )
    &&& t.blocks.list == (ListStyle { marker_color: Color::Reset, indent: 2 })
    &&& t.blocks.table == (TableStyle {
        border_style: BorderStyle::Ascii,
        header_background: None,
        header_foreground: Some(Color::Ansi(AnsiColor::BrightWhite)),
        row_separator: true,
        padding: 1,
    })
    &&& t.blocks.horizontal_rule == (HorizontalRuleStyle {
        style: BorderStyle::Ascii,
        color: Color::Ansi(AnsiColor::BrightBlack),
    })
    &&& standard_callouts(t.blocks.callout)
    &&& t.inlines == (InlineStyles {
        strong: text_style(
            None,
            None,
            FontWeight::Bold,
            FontStyle::Normal,
        ),
        emphasis: text_style(
            None,
            None,
            FontWeight::Normal,
            FontStyle::Italic,
        ),
        code: text_style(
            Some(Color::Ansi(AnsiColor::BrightWhite)),
            None,
            FontWeight::Normal,
            FontStyle::Normal,
        ),
        link: LinkStyle {
            foreground: Color::Ansi(AnsiColor::White),
            underline: false,
            show_url: UrlDisplayMode::Inline,
        },
        strikethrough: text_style(
            None,
            None,
            FontWeight::Normal,
            FontStyle::Normal,
        ),
    })
}

/// "Minimal" theme: low visual noise, maximum compatibility.
pub fn minimal_theme() -> (t: Theme)
    ensures
        is_minimal_theme(t),
{
    Theme {
        name: "Minimal".to_string(),
        version: "1.0".to_string(),
        colors: ColorPalette {
            foreground: Color::Ansi(AnsiColor::White),
            background: Color::Ansi(AnsiColor::Black),
            primary: Color::Ansi(AnsiColor::BrightWhite),
            secondary: Color::Ansi(AnsiColor::White),
            accent: Color::Ansi(AnsiColor::BrightWhite),
            muted: Color::Ansi(AnsiColor::BrightBlack),
            error: Color::Ansi(AnsiColor::Red),
            warning: Color::Ansi(AnsiColor::Yellow),
            success: Color::Ansi(AnsiColor::Green),
        },
        typography: Typography { emphasis: EmphasisStyle::Native },
        spacing: Spacing::default(),
        blocks: BlockStyles {
            heading: HeadingStyles {
                h1: heading(
                    Color::Ansi(AnsiColor::BrightWhite),
                    edge_border(BorderStyle::Ascii, None, BorderSide::Bottom),
                    (2, 1),
                    Some("# "),
                ),
                h2: heading(
                    Color::Ansi(AnsiColor::BrightWhite),
                    None,
                    (1, 1),
                    Some("## "),
                ),
                h3: heading(
                    Color::Ansi(AnsiColor::White),
                    None,
                    (1, 1),
                    Some("### "),
                ),
                h4: heading(
                    Color::Reset,
                    None,
                    (1, 1),
                    Some("#### "),
                ),
                h5: heading(
                    Color::Reset,
                    None,
                    (1, 1),
                    Some("##### "),
                ),
                h6: heading(
                    Color::Reset,
                    None,
                    (1, 1),
                    Some("###### "),
                ),
            },
            paragraph: ParagraphStyle::default(),
            code_block: CodeBlockStyle {
                background: Color::Reset,
                foreground: Color::Ansi(AnsiColor::White),
                border: frame_border(BorderStyle::Ascii, None),
                padding: (0, 1),
                show_language_badge: false,
            },
            blockquote: BlockQuoteStyle {
                color: Color::Ansi(AnsiColor::BrightBlack),
                background: None,
                border: edge_border(BorderStyle::Ascii, None, BorderSide::Left),
                indent: 2,
            },
            list: ListStyle { marker_color: Color::Reset, indent: 2 },
            table: TableStyle {
                border_style: BorderStyle::Ascii,
                header_background: None,
                header_foreground: Some(Color::Ansi(AnsiColor::BrightWhite)),
                row_separator: true,
                padding: 1,
            },
            horizontal_rule: HorizontalRuleStyle {
                style: BorderStyle::Ascii,
                color: Color::Ansi(AnsiColor::BrightBlack),
            },
            callout: CalloutStyles::default(),
        },
        inlines: InlineStyles {
            strong: make_text_style(
                None,
                None,
                FontWeight::Bold,
                FontStyle::Normal,
            ),
            emphasis: make_text_style(
                None,
                None,
                FontWeight::Normal,
                FontStyle::Italic,
            ),
            code: make_text_style(
                Some(Color::Ansi(AnsiColor::BrightWhite)),
                None,
                FontWeight::Normal,
                FontStyle::Normal,
            ),
            link: LinkStyle {
                foreground: Color::Ansi(AnsiColor::White),
                underline: false,
                show_url: UrlDisplayMode::Inline,
            },
            strikethrough: make_text_style(
                None,
                None,
                FontWeight::Normal,
                FontStyle::Normal,
            ),
        },
    }
}

/// What a theme built from a palette holds: headings in the primary and
/// secondary colors, the first two underlined; code in a rounded border;
/// quotes behind a heavy bar; links in the primary color, their target not
/// shown.
pub open spec fn is_palette_theme(t: Theme, name: Seq<char>, colors: ColorPalette) -> bool {
    &&& t.name@ == name
    &&& t.version@ == "1.0"@
    &&& t.colors == colors
    &&& t.typography == (Typography { emphasis: EmphasisStyle::Native })
    &&& t.spacing == standard_spacing()
    &&& heading_style_is(
        t.blocks.heading.h1,
        colors.primary,
        edge(BorderStyle::Double, Some(colors.primary), BorderSide::Bottom),
        (2u16, 1u16),
        None,
    )
    &&& heading_style_is(
        t.blocks.heading.h2,
        colors.primary,
        edge(BorderStyle::Single, Some(colors.primary), BorderSide::Bottom),
        (2u16, 1u16),
        None,
    )
    &&& heading_style_is(t.blocks.heading.h3, colors.secondary, None, (1u16, 1u16), None)
    &&& heading_style_is(t.blocks.heading.h4, colors.secondary, None, (1u16, 1u16), None)
    &&& heading_style_is(t.blocks.heading.h5, colors.foreground, None, (1u16, 1u16), None)
    &&& heading_style_is(t.blocks.heading.h6, colors.foreground, None, (1u16, 1u16), None)
    &&& t.blocks.paragraph.color == Color::Reset
    &&& t.blocks.paragraph.margin == (0u16, 1u16)
    &&& code_block_is(
        t.blocks.code_block,
        colors.background,
        colors.foreground,
        frame(BorderStyle::Rounded, Some(colors.muted)),
        (1u16, 2u16),
        true,
    )
    &&& blockquote_is(
        t.blocks.blockquote,
        colors.muted,
        None,
        edge(BorderStyle::Heavy, Some(colors.muted), BorderSide::Left),
        2,
    )
    &&& t.blocks.list == (ListStyle { marker_color: colors.primary, indent: 2 })
    &&& t.blocks.table == (TableStyle {
        border_style: BorderStyle::Single,
        header_background: None,
        header_foreground: Some(colors.primary),
        row_separator: true,
        padding: 1,
    })
    &&& t.blocks.horizontal_rule == (HorizontalRuleStyle {
        style: BorderStyle::Single,
        color: colors.muted,
    })
    &&& standard_callouts(t.blocks.callout)
    &&& t.inlines == (InlineStyles {
        strong: TextStyle {
            foreground: Some(colors.foreground),
            background: None,
            weight: FontWeight::Bold,
            style: FontStyle::Normal,
        },
        emphasis: TextStyle {
            foreground: Some(colors.secondary),
            background: None,
            weight: FontWeight::Normal,
            style: FontStyle::Italic,
        },
        code: TextStyle {
            foreground: Some(colors.accent),
            background: None,
            weight: FontWeight::Normal,
            style: FontStyle::Normal,
        },
        link: LinkStyle {
            foreground: colors.primary,
            underline: true,
            show_url: UrlDisplayMode::Hover,
        },
        strikethrough: TextStyle {
            foreground: Some(colors.muted),
            background: None,
            weight: FontWeight::Normal,
            style: FontStyle::Normal,
        },
    })
}

/// A theme built from a palette.
pub fn palette_theme(name: &str, colors: ColorPalette) -> (t: Theme)
    ensures
        is_palette_theme(t, name@, colors),
{
    Theme {
        name: name.to_string(),
        version: "1.0".to_string(),
        colors,
        typography: Typography { emphasis: EmphasisStyle::Native },
        spacing: Spacing::default(),
        blocks: BlockStyles {
            heading: HeadingStyles {
                h1: heading(
                    colors.primary,
                    edge_border(BorderStyle::Double, Some(colors.primary), BorderSide::Bottom),
                    (2, 1),
                    None,
                ),
                h2: heading(
                    colors.primary,
                    edge_border(BorderStyle::Single, Some(colors.primary), BorderSide::Bottom),
                    (2, 1),
                    None,
                ),
                h3: heading(colors.secondary, None, (1, 1), None),
                h4: heading(colors.secondary, None, (1, 1), None),
                h5: heading(colors.foreground, None, (1, 1), None),
                h6: heading(colors.foreground, None, (1, 1), None),
            },
            paragraph: ParagraphStyle::default(),
            code_block: CodeBlockStyle {
                background: colors.background,
                foreground: colors.foreground,
                border: frame_border(BorderStyle::Rounded, Some(colors.muted)),
                padding: (1, 2),
                show_language_badge: true,
            },
            blockquote: BlockQuoteStyle {
                color: colors.muted,
                background: None,
                border: edge_border(BorderStyle::Heavy, Some(colors.muted), BorderSide::Left),
                indent: 2,
            },
            list: ListStyle { marker_color: colors.primary, indent: 2 },
            table: TableStyle {
                border_style: BorderStyle::Single,
                header_background: None,
                header_foreground: Some(colors.primary),
                row_separator: true,
                padding: 1,
            },
            horizontal_rule: HorizontalRuleStyle { style: BorderStyle::Single, color: colors.muted },
            callout: CalloutStyles::default(),
        },
        inlines: InlineStyles {
            strong: TextStyle {
                foreground: Some(colors.foreground),
                background: None,
                weight: FontWeight::Bold,
                style: FontStyle::Normal,
            },
            emphasis: TextStyle {
                foreground: Some(colors.secondary),
                background: None,
                weight: FontWeight::Normal,
                style: FontStyle::Italic,
            },
            code: TextStyle {
                foreground: Some(colors.accent),
                background: None,
                weight: FontWeight::Normal,
                style: FontStyle::Normal,
            },
            link: LinkStyle {
                foreground: colors.primary,
                underline: true,
                show_url: UrlDisplayMode::Hover,
            },
            strikethrough: TextStyle {
                foreground: Some(colors.muted),
                background: None,
                weight: FontWeight::Normal,
                style: FontStyle::Normal,
            },
        },
    }
}

/// Palette of the Dracula theme.
pub open spec fn dracula_palette() -> ColorPalette {
    ColorPalette {
        foreground: Color::Rgb(248, 248, 242),
        background: Color::Rgb(40, 42, 54),
        primary: Color::Rgb(189, 147, 249),
        secondary: Color::Rgb(255, 121, 198),
        accent: Color::Rgb(139, 233, 253),
        muted: Color::Rgb(98, 114, 164),
        error: Color::Rgb(255, 85, 85),
        warning: Color::Rgb(255, 184, 108),
        success: Color::Rgb(80, 250, 123),
    }
}

/// "Dracula" theme.
pub fn dracula_theme() -> (t: Theme)
    ensures
        is_palette_theme(t, "Dracula"@, dracula_palette()),
{
    palette_theme(
        "Dracula",
        ColorPalette {
            foreground: Color::Rgb(248, 248, 242),
            background: Color::Rgb(40, 42, 54),
            primary: Color::Rgb(189, 147, 249),
            secondary: Color::Rgb(255, 121, 198),
            accent: Color::Rgb(139, 233, 253),
            muted: Color::Rgb(98, 114, 164),
            error: Color::Rgb(255, 85, 85),
            warning: Color::Rgb(255, 184, 108),
            success: Color::Rgb(80, 250, 123),
        },
    )
}

/// Palette of the Monokai theme.
pub open spec fn monokai_palette() -> ColorPalette {
    ColorPalette {
        foreground: Color::Rgb(248, 248, 242),
        background: Color::Rgb(39, 40, 34),
        primary: Color::Rgb(102, 217, 239),
        secondary: Color::Rgb(249, 38, 114),
        accent: Color::Rgb(166, 226, 46),
        muted: Color::Rgb(117, 113, 94),
        error: Color::Rgb(249, 38, 114),
        warning: Color::Rgb(253, 151, 31),
        success: Color::Rgb(166, 226, 46),
    }
}

/// "Monokai" theme.
pub fn monokai_theme() -> (t: Theme)
    ensures
        is_palette_theme(t, "Monokai"@, monokai_palette()),
{
    palette_theme(
        "Monokai",
        ColorPalette {
            foreground: Color::Rgb(248, 248, 242),
            background: Color::Rgb(39, 40, 34),
            primary: Color::Rgb(102, 217, 239),
            secondary: Color::Rgb(249, 38, 114),
            accent: Color::Rgb(166, 226, 46),
            muted: Color::Rgb(117, 113, 94),
            error: Color::Rgb(249, 38, 114),
            warning: Color::Rgb(253, 151, 31),
            success: Color::Rgb(166, 226, 46),
        },
    )
}

/// Palette of the Solarized theme.
pub open spec fn solarized_palette() -> ColorPalette {
    ColorPalette {
        foreground: Color::Rgb(131, 148, 150),
        background: Color::Rgb(0, 43, 54),
        primary: Color::Rgb(38, 139, 210),
        secondary: Color::Rgb(42, 161, 152),
        accent: Color::Rgb(181, 137, 0),
        muted: Color::Rgb(88, 110, 117),
        error: Color::Rgb(220, 50, 47),
        warning: Color::Rgb(203, 75, 22),
        success: Color::Rgb(133, 153, 0),
    }
}

/// "Solarized" theme.
pub fn solarized_theme() -> (t: Theme)
    ensures
        is_palette_theme(t, "Solarized"@, solarized_palette()),
{
    palette_theme(
        "Solarized",
        ColorPalette {
            foreground: Color::Rgb(131, 148, 150),
            background: Color::Rgb(0, 43, 54),
            primary: Color::Rgb(38, 139, 210),
            secondary: Color::Rgb(42, 161, 152),
            accent: Color::Rgb(181, 137, 0),
            muted: Color::Rgb(88, 110, 117),
            error: Color::Rgb(220, 50, 47),
            warning: Color::Rgb(203, 75, 22),
            success: Color::Rgb(133, 153, 0),
        },
    )
}

/// Palette of the Gruvbox theme.
pub open spec fn gruvbox_palette() -> ColorPalette {
    ColorPalette {
        foreground: Color::Rgb(235, 219, 178),
        background: Color::Rgb(40, 40, 40),
        primary: Color::Rgb(250, 189, 47),
        secondary: Color::Rgb(131, 165, 152),
        accent: Color::Rgb(254, 128, 25),
        muted: Color::Rgb(146, 131, 116),
        error: Color::Rgb(251, 73, 52),
        warning: Color::Rgb(250, 189, 47),
        success: Color::Rgb(184, 187, 38),
    }
}

/// "Gruvbox" theme.
pub fn gruvbox_theme() -> (t: Theme)
    ensures
        is_palette_theme(t, "Gruvbox"@, gruvbox_palette()),
{
    palette_theme(
        "Gruvbox",
        ColorPalette {
            foreground: Color::Rgb(235, 219, 178),
            background: Color::Rgb(40, 40, 40),
            primary: Color::Rgb(250, 189, 47),
            secondary: Color::Rgb(131, 165, 152),
            accent: Color::Rgb(254, 128, 25),
            muted: Color::Rgb(146, 131, 116),
            error: Color::Rgb(251, 73, 52),
            warning: Color::Rgb(250, 189, 47),
            success: Color::Rgb(184, 187, 38),
        },
    )
}

/// Palette of the Nord theme.
pub open spec fn nord_palette() -> ColorPalette {
    ColorPalette {
        foreground: Color::Rgb(216, 222, 233),
        background: Color::Rgb(46, 52, 64),
        primary: Color::Rgb(136, 192, 208),
        secondary: Color::Rgb(129, 161, 193),
        accent: Color::Rgb(235, 203, 139),
        muted: Color::Rgb(76, 86, 106),
        error: Color::Rgb(191, 97, 106),
        warning: Color::Rgb(208, 135, 112),
        success: Color::Rgb(163, 190, 140),
    }
}

/// "Nord" theme.
pub fn nord_theme() -> (t: Theme)
    ensures
        is_palette_theme(t, "Nord"@, nord_palette()),
{
    palette_theme(
        "Nord",
        ColorPalette {
            foreground: Color::Rgb(216, 222, 233),
            background: Color::Rgb(46, 52, 64),
            primary: Color::Rgb(136, 192, 208),
            secondary: Color::Rgb(129, 161, 193),
            accent: Color::Rgb(235, 203, 139),
            muted: Color::Rgb(76, 86, 106),
            error: Color::Rgb(191, 97, 106),
            warning: Color::Rgb(208, 135, 112),
            success: Color::Rgb(163, 190, 140),
        },
    )
}

/// Palette of the Tokyo Night theme.
pub open spec fn tokyo_night_palette() -> ColorPalette {
    ColorPalette {
        foreground: Color::Rgb(192, 202, 245),
        background: Color::Rgb(26, 27, 38),
        primary: Color::Rgb(122, 162, 247),
        secondary: Color::Rgb(187, 154, 247),
        accent: Color::Rgb(224, 175, 104),
        muted: Color::Rgb(86, 95, 137),
        error: Color::Rgb(247, 118, 142),
        warning: Color::Rgb(224, 175, 104),
        success: Color::Rgb(158, 206, 106),
    }
}

/// "Tokyo Night" theme.
pub fn tokyo_night_theme() -> (t: Theme)
    ensures
        is_palette_theme(t, "Tokyo Night"@, tokyo_night_palette()),
{
    palette_theme(
        "Tokyo Night",
        ColorPalette {
            foreground: Color::Rgb(192, 202, 245),
            background: Color::Rgb(26, 27, 38),
            primary: Color::Rgb(122, 162, 247),
            secondary: Color::Rgb(187, 154, 247),
            accent: Color::Rgb(224, 175, 104),
            muted: Color::Rgb(86, 95, 137),
            error: Color::Rgb(247, 118, 142),
            warning: Color::Rgb(224, 175, 104),
            success: Color::Rgb(158, 206, 106),
        },
    )
}

/// Palette of the Catppuccin theme.
pub open spec fn catppuccin_palette() -> ColorPalette {
    ColorPalette {
        foreground: Color::Rgb(205, 214, 244),
        background: Color::Rgb(30, 30, 46),
        primary: Color::Rgb(137, 180, 250),
        secondary: Color::Rgb(203, 166, 247),
        accent: Color::Rgb(249, 226, 175),
        muted: Color::Rgb(108, 112, 134),
        error: Color::Rgb(243, 139, 168),
        warning: Color::Rgb(250, 179, 135),
        success: Color::Rgb(166, 227, 161),
    }
}

/// "Catppuccin" theme.
pub fn catppuccin_theme() -> (t: Theme)
    ensures
        is_palette_theme(t, "Catppuccin"@, catppuccin_palette()),
{
    palette_theme(
        "Catppuccin",
        ColorPalette {
            foreground: Color::Rgb(205, 214, 244),
            background: Color::Rgb(30, 30, 46),
            primary: Color::Rgb(137, 180, 250),
            secondary: Color::Rgb(203, 166, 247),
            accent: Color::Rgb(249, 226, 175),
            muted: Color::Rgb(108, 112, 134),
            error: Color::Rgb(243, 139, 168),
            warning: Color::Rgb(250, 179, 135),
            success: Color::Rgb(166, 227, 161),
        },
    )
}

} // verus!
