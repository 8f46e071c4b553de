use lumen::ir::{Block, CalloutKind, Document, Inline};
use lumen::layout::{layout_document, Rectangle, Viewport};
use lumen::theme::Theme;
use lumen::view::{
    centered, heading_is_bold, position, shown_rows, status_line, visible_line, visible_row,
    Position,
};

fn paragraphs(n: usize) -> Document {
    Document::with_blocks(vec![
        Block::Paragraph { content: vec![Inline::Text("p".to_string())] };
        n
    ])
}

#[test]
fn leaves_are_in_view_while_their_first_row_is() {
    let theme = Theme::builtin("docs").unwrap();
    let tree = layout_document(&paragraphs(5), &theme, Viewport::new(80, 4), false);
    // Paragraphs at rows 0, 2, 4, 6, 8.
    let third = &tree.root.children[2];
    assert_eq!(visible_row(third, 0, 4), None);
    assert_eq!(visible_row(third, 1, 4), Some(3));
    assert_eq!(visible_row(third, 4, 4), Some(0));
    assert_eq!(visible_row(third, 5, 4), None);
}

#[test]
fn containers_are_in_view_while_any_row_is() {
    let theme = Theme::builtin("docs").unwrap();
    let doc = Document::with_blocks(vec![Block::CodeBlock {
        lang: None,
        code: "1\n2\n3\n4\n5\n6".to_string(),
    }]);
    let tree = layout_document(&doc, &theme, Viewport::new(80, 4), false);
    let code = &tree.root.children[0];
    assert_eq!(code.rect, Rectangle::new(0, 0, 80, 8));
    assert_eq!(visible_row(code, 0, 4), Some(0));
    assert_eq!(visible_row(code, 5, 4), Some(0));
    assert_eq!(visible_row(code, 7, 4), Some(0));
    assert_eq!(visible_row(code, 8, 4), None);
    assert_eq!(visible_row(code, 0, 0), None);
}

#[test]
fn status_bar_text() {
    let theme = Theme::builtin("docs").unwrap();
    let mut tree = layout_document(&paragraphs(50), &theme, Viewport::new(80, 24), false);
    assert_eq!(tree.document_height(), 99);
    assert_eq!(position(&tree), Position::Top);
    let top = status_line(&tree, 60);
    assert_eq!(top.chars().count(), 60);
    assert!(top.starts_with(" Top Lines 1-24/99 "));
    assert!(top.ends_with("Press 'h' for help"));
    tree.viewport.scroll_to(30);
    assert_eq!(position(&tree), Position::Percent(40));
    assert!(status_line(&tree, 60).starts_with(" 40% Lines 31-54/99 "));
    tree.viewport.scroll_to(75);
    assert_eq!(position(&tree), Position::Bottom);
    assert!(status_line(&tree, 60).starts_with(" Bot Lines 76-99/99 "));
    // A bar that is too narrow holds the text without padding.
    assert_eq!(status_line(&tree, 10), " Bot Lines 76-99/99 Press 'h' for help");

    let short = layout_document(&paragraphs(2), &theme, Viewport::new(80, 24), false);
    assert_eq!(position(&short), Position::All);
    assert!(status_line(&short, 80).starts_with(" All Lines 1-3/3 "));
}

#[test]
fn overlays_are_centered() {
    assert_eq!(centered(100, 40, 60, 24), Rectangle::new(20, 8, 60, 24));
    assert_eq!(centered(50, 10, 60, 24), Rectangle::new(0, 0, 50, 10));
    assert_eq!(centered(61, 25, 60, 24), Rectangle::new(0, 0, 60, 24));
}

#[test]
fn styles_by_level_and_kind() {
    let theme = Theme::builtin("neon").unwrap();
    assert_eq!(theme.heading_style(1).prefix.as_deref(), Some("▶ "));
    assert_eq!(theme.heading_style(3).prefix.as_deref(), Some("● "));
    assert_eq!(theme.heading_style(6).color, theme.blocks.heading.h6.color);
    assert_eq!(theme.heading_style(9).color, theme.blocks.heading.h6.color);
    assert_eq!(theme.callout_style(CalloutKind::Warning).icon, "!");
    assert_eq!(theme.callout_style(CalloutKind::Note).icon, "i");
    assert!(heading_is_bold(1));
    assert!(heading_is_bold(2));
    assert!(!heading_is_bold(3));
}

#[test]
fn rows_of_a_node_in_view() {
    let theme = Theme::builtin("docs").unwrap();
    let doc = Document::with_blocks(vec![Block::CodeBlock {
        lang: None,
        code: "1\n2\n3\n4\n5\n6".to_string(),
    }]);
    let tree = layout_document(&doc, &theme, Viewport::new(80, 4), false);
    let code = &tree.root.children[0];
    // The block takes rows 0 to 7.
    assert_eq!(shown_rows(code, 0, 4), 4);
    assert_eq!(shown_rows(code, 0, 20), 8);
    assert_eq!(shown_rows(code, 3, 20), 5);
    assert_eq!(shown_rows(code, 6, 4), 2);
    assert_eq!(shown_rows(code, 8, 4), 0);
    assert_eq!(shown_rows(code, 0, 0), 0);
}

#[test]
fn lines_are_in_view_between_the_first_and_the_last_row() {
    assert_eq!(visible_line(10, 0, 10, 5), Some(0));
    assert_eq!(visible_line(10, 4, 10, 5), Some(4));
    assert_eq!(visible_line(10, 5, 10, 5), None);
    assert_eq!(visible_line(10, 0, 11, 5), None);
    assert_eq!(visible_line(10, 3, 12, 5), Some(1));
    assert_eq!(visible_line(10, 0, 0, 0), None);
    assert_eq!(visible_line(65535, 65535, 65535, 65535), None);
    assert_eq!(visible_line(65535, 65534, 65535, 65535), Some(65534));
    assert_eq!(visible_line(0, usize::MAX, 0, 65535), None);
}
