use lumen::ir::Inline;
use lumen::layout::text::{layout_inlines, layout_text};
use lumen::layout::{ImageReference, Line};
use lumen::theme;
use lumen::theme::{Color, FontStyle, FontWeight};

fn line_text(line: &Line) -> String {
    line.segments.iter().map(|s| s.text.as_str()).collect()
}

fn text_width(line: &Line) -> usize {
    line.segments.iter().filter(|s| s.image_url.is_none()).map(|s| s.text.chars().count()).sum()
}

#[test]
fn test_simple_text_layout() {
    let theme = theme::docs_theme();
    let inlines = vec![Inline::Text("Hello World".to_string())];
    let mut images = Vec::new();

    let lines = layout_text(&inlines, 80, &theme, 0, &mut images);
    assert_eq!(lines.len(), 1);
    // "Hello" + " " + "World" = 3 segments
    assert_eq!(lines[0].segments.len(), 3);
}

#[test]
fn test_text_wrapping() {
    let theme = theme::docs_theme();
    let inlines = vec![Inline::Text("This is a long line that should wrap".to_string())];
    let mut images = Vec::new();

    let lines = layout_text(&inlines, 20, &theme, 0, &mut images);
    assert!(lines.len() > 1, "Text should wrap into multiple lines");
}

#[test]
fn test_long_word_breaking() {
    let theme = theme::docs_theme();
    let inlines = vec![Inline::Text("Supercalifragilisticexpialidocious".to_string())];
    let mut images = Vec::new();

    let lines = layout_text(&inlines, 10, &theme, 0, &mut images);
    assert!(lines.len() > 1, "Long word should break across lines");
}

#[test]
fn test_strong_emphasis() {
    let theme = theme::docs_theme();
    let inlines = vec![Inline::Strong(vec![Inline::Text("Bold".to_string())])];
    let mut images = Vec::new();

    let lines = layout_text(&inlines, 80, &theme, 0, &mut images);
    assert_eq!(lines.len(), 1);
    assert_eq!(lines[0].segments[0].style.weight, FontWeight::Bold);
}

#[test]
fn test_line_break() {
    let theme = theme::docs_theme();
    let inlines = vec![
        Inline::Text("Line 1".to_string()),
        Inline::LineBreak,
        Inline::Text("Line 2".to_string()),
    ];
    let mut images = Vec::new();

    let lines = layout_text(&inlines, 80, &theme, 0, &mut images);
    assert_eq!(lines.len(), 2);
}

#[test]
fn test_empty_content() {
    let theme = theme::docs_theme();
    let inlines = vec![];
    let mut images = Vec::new();

    let lines = layout_text(&inlines, 80, &theme, 0, &mut images);
    assert_eq!(lines.len(), 1); // At least one empty line
}

#[test]
fn word_wrap_at_width_20_gives_exact_lines() {
    let theme = theme::docs_theme();
    let inlines = vec![Inline::Text("This is a long line that should wrap".to_string())];
    let mut images = Vec::new();
    let lines = layout_text(&inlines, 20, &theme, 0, &mut images);
    let texts: Vec<String> = lines.iter().map(line_text).collect();
    assert_eq!(texts, vec!["This is a long line".to_string(), "that should wrap".to_string()]);
    for line in &lines {
        assert!(text_width(line) <= 20);
    }
}

#[test]
fn long_word_is_cut_into_chunks_of_the_width() {
    let theme = theme::docs_theme();
    let inlines = vec![Inline::Text("Supercalifragilisticexpialidocious".to_string())];
    let mut images = Vec::new();
    let lines = layout_text(&inlines, 10, &theme, 0, &mut images);
    let texts: Vec<String> = lines.iter().map(line_text).collect();
    assert_eq!(texts, vec!["Supercalif", "ragilistic", "expialidoc", "ious"]);
    for line in &lines {
        assert!(text_width(line) <= 10);
    }
}

#[test]
fn word_after_a_chunked_word_shares_the_last_line() {
    let theme = theme::docs_theme();
    let inlines = vec![Inline::Text("ab abcdefghijkl cd".to_string())];
    let mut images = Vec::new();
    let lines = layout_text(&inlines, 5, &theme, 0, &mut images);
    let texts: Vec<String> = lines.iter().map(line_text).collect();
    assert_eq!(texts, vec!["ab", "abcde", "fghij", "kl cd"]);
}

#[test]
fn width_zero_lays_out_one_character_per_line() {
    let theme = theme::docs_theme();
    let inlines = vec![Inline::Text("abc d".to_string())];
    let mut images = Vec::new();
    let lines = layout_text(&inlines, 0, &theme, 0, &mut images);
    let texts: Vec<String> = lines.iter().map(line_text).collect();
    assert_eq!(texts, vec!["a", "b", "c", "d"]);
}

#[test]
fn soft_break_ends_the_line() {
    let theme = theme::docs_theme();
    let inlines = vec![
        Inline::Text("one".to_string()),
        Inline::SoftBreak,
        Inline::SoftBreak,
        Inline::Text("two".to_string()),
    ];
    let mut images = Vec::new();
    let lines = layout_text(&inlines, 80, &theme, 0, &mut images);
    let texts: Vec<String> = lines.iter().map(line_text).collect();
    assert_eq!(texts, vec!["one", "two"]);
}

#[test]
fn styles_of_nested_inlines() {
    let theme = theme::docs_theme();
    let inlines = vec![
        Inline::Emphasis(vec![Inline::Strong(vec![Inline::Text("x".to_string())])]),
        Inline::Code("y".to_string()),
        Inline::Strikethrough(vec![Inline::Text("z".to_string())]),
    ];
    let mut images = Vec::new();
    let lines = layout_text(&inlines, 80, &theme, 0, &mut images);
    assert_eq!(lines.len(), 1);
    let segs = &lines[0].segments;
    // x, space, y, space, z
    assert_eq!(segs.len(), 5);
    assert_eq!(segs[0].style.weight, FontWeight::Bold);
    assert_eq!(segs[0].style.style, FontStyle::Italic);
    assert_eq!(segs[2].style.foreground, Some(Color::Rgb(255, 150, 100)));
    assert_eq!(segs[2].style.background, Some(Color::Rgb(50, 50, 50)));
    assert_eq!(segs[4].style.weight, FontWeight::Normal);
    assert_eq!(segs[4].style.foreground, None);
}

#[test]
fn link_segments_carry_the_url() {
    let theme = theme::docs_theme();
    let inlines = vec![
        Inline::Text("see".to_string()),
        Inline::Link {
            url: "https://example.com".to_string(),
            title: None,
            text: vec![Inline::Text("the site".to_string())],
        },
    ];
    let mut images = Vec::new();
    let lines = layout_text(&inlines, 80, &theme, 0, &mut images);
    let segs = &lines[0].segments;
    assert_eq!(line_text(&lines[0]), "see the site");
    assert_eq!(segs[0].link_url, None);
    for seg in &segs[1..] {
        assert_eq!(seg.link_url.as_deref(), Some("https://example.com"));
        assert_eq!(seg.style.foreground, Some(Color::Rgb(100, 180, 255)));
    }
}

#[test]
fn inline_url_display_appends_the_target_without_link() {
    let theme = theme::minimal_theme();
    let inlines = vec![Inline::Link {
        url: "http://a.b".to_string(),
        title: None,
        text: vec![Inline::Text("home".to_string())],
    }];
    let mut images = Vec::new();
    let lines = layout_text(&inlines, 80, &theme, 0, &mut images);
    assert_eq!(line_text(&lines[0]), "home (http://a.b)");
    let segs = &lines[0].segments;
    assert_eq!(segs[0].link_url.as_deref(), Some("http://a.b"));
    let last = &segs[segs.len() - 1];
    assert_eq!(last.text, "(http://a.b)");
    assert_eq!(last.link_url, None);
    assert_eq!(last.style.foreground, Some(theme.colors.muted));
}

#[test]
fn sidebar_image_leaves_placeholder_and_reference() {
    let theme = theme::docs_theme();
    let inlines = vec![
        Inline::Text("first".to_string()),
        Inline::LineBreak,
        Inline::Image { url: "pic.png".to_string(), alt: "A pic".to_string(), title: None },
    ];
    let mut images: Vec<ImageReference> = Vec::new();
    let lines = layout_text(&inlines, 80, &theme, 7, &mut images);
    assert_eq!(lines.len(), 2);
    assert_eq!(lines[1].segments.len(), 1);
    let seg = &lines[1].segments[0];
    assert_eq!(seg.text, "[IMAGE: A pic]");
    assert_eq!(seg.image_url.as_deref(), Some("pic.png"));
    assert_eq!(seg.image_alt.as_deref(), Some("A pic"));
    assert_eq!(seg.style.foreground, Some(theme.colors.muted));
    assert_eq!(images.len(), 1);
    assert_eq!(images[0].path, "pic.png");
    assert_eq!(images[0].alt_text, "A pic");
    assert_eq!(images[0].y_position, 8);
}

#[test]
fn inline_image_leaves_a_placement_and_no_text() {
    let theme = theme::docs_theme();
    let inlines = vec![
        Inline::Text("first".to_string()),
        Inline::LineBreak,
        Inline::Image { url: "pic.png".to_string(), alt: "A pic".to_string(), title: None },
    ];
    let mut images: Vec<ImageReference> = Vec::new();
    let laid = layout_inlines(&inlines, 80, &theme, 7, &mut images, true);
    assert_eq!(laid.lines.len(), 1);
    assert_eq!(images.len(), 0);
    assert_eq!(laid.placements.len(), 1);
    assert_eq!(laid.placements[0].line_index, 1);
    assert_eq!(laid.placements[0].url, "pic.png");
    assert_eq!(laid.placements[0].alt, "A pic");
}

#[test]
fn layout_is_the_same_on_every_call() {
    let theme = theme::docs_theme();
    let inlines = vec![Inline::Text("alpha beta gamma delta".to_string())];
    let mut images = Vec::new();
    let a = layout_text(&inlines, 11, &theme, 0, &mut images);
    let b = layout_text(&inlines, 11, &theme, 0, &mut images);
    let ta: Vec<String> = a.iter().map(line_text).collect();
    let tb: Vec<String> = b.iter().map(line_text).collect();
    assert_eq!(ta, tb);
    assert_eq!(ta, vec!["alpha beta", "gamma delta"]);
}

#[test]
fn words_are_cut_at_whitespace_beyond_ascii() {
    let theme = theme::docs_theme();
    // An em space, a no-break space and a tab separate words like a space.
    let inlines = vec![Inline::Text("one\u{2003}two\u{a0}three\tfour".to_string())];
    let mut images = Vec::new();
    let lines = layout_text(&inlines, 80, &theme, 0, &mut images);
    assert_eq!(lines.len(), 1);
    assert_eq!(line_text(&lines[0]), "one two three four");
    // A zero-width joiner is no whitespace.
    let joined = vec![Inline::Text("a\u{200d}b".to_string())];
    let lines = layout_text(&joined, 80, &theme, 0, &mut images);
    assert_eq!(lines[0].segments.len(), 1);
    assert_eq!(text_width(&lines[0]), 3);
}
