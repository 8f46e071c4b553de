use lumen::ir::{Block, CalloutKind, Document, Inline, ListItem, TableCell};
use lumen::layout::{
    layout_document, HitElement, LayoutElement, LayoutNode, LayoutTree, Rectangle, Viewport,
};
use lumen::theme;

fn text(s: &str) -> Vec<Inline> {
    vec![Inline::Text(s.to_string())]
}

fn paragraph(s: &str) -> Block {
    Block::Paragraph { content: text(s) }
}

fn item(blocks: Vec<Block>) -> ListItem {
    ListItem { content: blocks, task: None }
}

fn cell(s: &str) -> TableCell {
    TableCell { content: text(s) }
}

fn collect_ids(node: &LayoutNode, ids: &mut Vec<usize>) {
    ids.push(node.id);
    for child in &node.children {
        collect_ids(child, ids);
    }
}

#[test]
fn test_layout_simple_document() {
    let theme = theme::docs_theme();
    let viewport = Viewport::new(80, 24);

    let doc = Document::with_blocks(vec![
        Block::Heading { level: 1, content: vec![Inline::Text("Title".to_string())] },
        Block::Paragraph { content: vec![Inline::Text("Content".to_string())] },
    ]);

    let tree = layout_document(&doc, &theme, viewport, false);

    assert_eq!(tree.root.children.len(), 2);
    assert!(matches!(tree.root.children[0].element, LayoutElement::Heading { level: 1, .. }));
    assert!(matches!(tree.root.children[1].element, LayoutElement::Paragraph { .. }));
}

#[test]
fn test_layout_heading_has_hit_region() {
    let theme = theme::docs_theme();
    let viewport = Viewport::new(80, 24);

    let doc = Document::with_blocks(vec![Block::Heading {
        level: 1,
        content: vec![Inline::Text("Test Heading".to_string())],
    }]);

    let tree = layout_document(&doc, &theme, viewport, false);

    assert_eq!(tree.hit_regions.len(), 1);
    assert!(matches!(tree.hit_regions[0].element, HitElement::Heading { level: 1, .. }));
}

#[test]
fn test_layout_code_block_has_hit_region() {
    let theme = theme::docs_theme();
    let viewport = Viewport::new(80, 24);

    let doc = Document::with_blocks(vec![Block::CodeBlock {
        lang: Some("rust".to_string()),
        code: "fn main() {}".to_string(),
    }]);

    let tree = layout_document(&doc, &theme, viewport, false);

    assert_eq!(tree.hit_regions.len(), 1);
    assert!(matches!(tree.hit_regions[0].element, HitElement::CodeBlock { .. }));
}

#[test]
fn test_hit_testing() {
    let theme = theme::docs_theme();
    let viewport = Viewport::new(80, 24);

    let doc = Document::with_blocks(vec![Block::Heading {
        level: 1,
        content: vec![Inline::Text("Title".to_string())],
    }]);

    let tree = layout_document(&doc, &theme, viewport, false);

    // Hit test on heading
    let hit = tree.hit_test(10, 2); // Assuming heading is around y=2
    assert!(hit.is_some());
}

#[test]
fn test_scroll_bounds() {
    let theme = theme::docs_theme();
    let mut viewport = Viewport::new(80, 24);

    let doc = Document::with_blocks(vec![
        Block::Paragraph { content: vec![Inline::Text("Line".to_string())] };
        50 // Many paragraphs to exceed viewport
    ]);

    let tree = layout_document(&doc, &theme, viewport, false);

    assert!(tree.can_scroll_down());
    assert!(!tree.can_scroll_up());

    viewport.scroll_to(100);
    let tree2 = LayoutTree { viewport, ..tree };

    assert!(tree2.can_scroll_up());
}

#[test]
fn heading_and_paragraph_positions() {
    let theme = theme::docs_theme();
    let doc = Document::with_blocks(vec![
        Block::Heading { level: 1, content: text("Title") },
        paragraph("Content"),
    ]);
    let tree = layout_document(&doc, &theme, Viewport::new(80, 24), false);
    let heading = &tree.root.children[0];
    let para = &tree.root.children[1];
    assert_eq!(heading.rect, Rectangle::new(0, 2, 80, 1));
    assert_eq!(para.rect, Rectangle::new(0, 4, 80, 1));
    assert_eq!(tree.document_height(), 5);
    assert_eq!(tree.root.rect, Rectangle::new(0, 0, 80, 5));
    match &heading.element {
        LayoutElement::Heading { level, text } => {
            assert_eq!(*level, 1);
            assert_eq!(text, "Title");
        }
        _ => panic!("expected a heading"),
    }
}

#[test]
fn heading_hit_region_has_slug_id() {
    let theme = theme::docs_theme();
    let doc = Document::with_blocks(vec![Block::Heading {
        level: 2,
        content: vec![
            Inline::Text("Getting ".to_string()),
            Inline::Strong(text("Started Now")),
        ],
    }]);
    let tree = layout_document(&doc, &theme, Viewport::new(40, 10), false);
    assert_eq!(tree.hit_regions.len(), 1);
    assert_eq!(tree.hit_regions[0].rect, Rectangle::new(0, 2, 40, 1));
    match &tree.hit_regions[0].element {
        HitElement::Heading { level, id } => {
            assert_eq!(*level, 2);
            assert_eq!(id, "h2-getting-started-now");
        }
        _ => panic!("expected a heading region"),
    }
}

#[test]
fn node_ids_are_unique_and_root_is_last() {
    let theme = theme::docs_theme();
    let doc = Document::with_blocks(vec![
        Block::Heading { level: 1, content: text("A") },
        Block::List {
            ordered: false,
            start: 1,
            items: vec![item(vec![paragraph("x")]), item(vec![paragraph("y"), paragraph("z")])],
        },
        Block::Table { headers: vec![cell("h")], rows: vec![vec![cell("c")]], alignment: vec![] },
        Block::BlockQuote { blocks: vec![paragraph("q")] },
    ]);
    let tree = layout_document(&doc, &theme, Viewport::new(80, 24), false);
    let mut ids = Vec::new();
    collect_ids(&tree.root, &mut ids);
    let count = ids.len();
    let mut sorted = ids.clone();
    sorted.sort();
    sorted.dedup();
    assert_eq!(sorted.len(), count);
    assert_eq!(tree.root.id, count);
    // Children are numbered in pre-order from 1.
    assert_eq!(&ids[1..], &(1..count).collect::<Vec<usize>>()[..]);
}

#[test]
fn nested_nodes_are_numbered_in_pre_order() {
    let theme = theme::docs_theme();
    let doc = Document::with_blocks(vec![
        Block::Callout {
            kind: CalloutKind::Note,
            title: None,
            content: vec![paragraph("a"), Block::BlockQuote { blocks: vec![paragraph("b")] }],
        },
        Block::Paragraph {
            content: vec![
                Inline::Image { url: "u".to_string(), alt: "x".to_string(), title: None },
                Inline::Image { url: "v".to_string(), alt: "y".to_string(), title: None },
            ],
        },
    ]);
    let tree = layout_document(&doc, &theme, Viewport::new(80, 24), true);
    let mut ids = Vec::new();
    collect_ids(&tree.root, &mut ids);
    // Root last; callout 1, paragraph 2, quote 3, paragraph 4; paragraph 5, images 6 and 7.
    assert_eq!(ids, vec![8, 1, 2, 3, 4, 5, 6, 7]);
}

#[test]
fn code_block_height_counts_lines_and_padding() {
    let theme = theme::docs_theme();
    let doc = Document::with_blocks(vec![
        Block::CodeBlock { lang: None, code: "a\nb\r\nc\n".to_string() },
        paragraph("after"),
    ]);
    let tree = layout_document(&doc, &theme, Viewport::new(80, 24), false);
    let code = &tree.root.children[0];
    assert_eq!(code.rect, Rectangle::new(0, 0, 80, 5));
    match &code.element {
        LayoutElement::CodeBlock { lang, lines } => {
            assert_eq!(lang, &None);
            assert_eq!(lines, &vec!["a".to_string(), "b".to_string(), "c".to_string()]);
        }
        _ => panic!("expected a code block"),
    }
    // One row of margin below the code block.
    assert_eq!(tree.root.children[1].rect.y, 6);
}

#[test]
fn block_quote_indents_and_sums_child_heights() {
    let theme = theme::docs_theme();
    let doc = Document::with_blocks(vec![
        Block::BlockQuote { blocks: vec![paragraph("one"), paragraph("two")] },
        Block::HorizontalRule,
    ]);
    let tree = layout_document(&doc, &theme, Viewport::new(30, 24), false);
    let quote = &tree.root.children[0];
    assert!(matches!(quote.element, LayoutElement::BlockQuote));
    assert_eq!(quote.rect, Rectangle::new(0, 0, 30, 2));
    assert_eq!(quote.children[0].rect, Rectangle::new(2, 0, 28, 1));
    assert_eq!(quote.children[1].rect, Rectangle::new(2, 2, 28, 1));
    let rule = &tree.root.children[1];
    assert!(matches!(rule.element, LayoutElement::HorizontalRule));
    assert_eq!(rule.rect, Rectangle::new(0, 3, 30, 1));
}

#[test]
fn callout_has_icon_column_and_height_at_least_one() {
    let theme = theme::docs_theme();
    let doc = Document::with_blocks(vec![
        Block::Callout { kind: CalloutKind::Tip, title: None, content: vec![] },
        Block::Callout { kind: CalloutKind::Note, title: None, content: vec![paragraph("body")] },
    ]);
    let tree = layout_document(&doc, &theme, Viewport::new(30, 24), false);
    let empty = &tree.root.children[0];
    assert!(matches!(empty.element, LayoutElement::Callout { kind: CalloutKind::Tip }));
    assert_eq!(empty.rect, Rectangle::new(0, 0, 30, 1));
    let note = &tree.root.children[1];
    assert_eq!(note.rect, Rectangle::new(0, 1, 30, 1));
    assert_eq!(note.children[0].rect, Rectangle::new(2, 1, 28, 1));
}

#[test]
fn ordered_list_aligns_item_content() {
    let theme = theme::docs_theme();
    let letters = ["a", "b", "c", "d", "e", "f", "g", "h", "i", "j"];
    let items: Vec<ListItem> = letters.iter().map(|l| item(vec![paragraph(l)])).collect();
    let doc = Document::with_blocks(vec![Block::List { ordered: true, start: 1, items }]);
    let tree = layout_document(&doc, &theme, Viewport::new(20, 24), false);
    let list = &tree.root.children[0];
    assert!(matches!(list.element, LayoutElement::List { ordered: true, start: 1 }));
    assert_eq!(list.children.len(), 10);
    assert_eq!(list.rect, Rectangle::new(0, 0, 20, 10));
    for (i, node) in list.children.iter().enumerate() {
        assert_eq!(node.rect, Rectangle::new(0, i as u16, 20, 1));
        assert_eq!(node.children[0].rect, Rectangle::new(4, i as u16, 16, 1));
        match &node.element {
            LayoutElement::ListItem { marker, task } => {
                assert_eq!(marker, &format!("{}. ", i + 1));
                assert_eq!(*task, None);
            }
            _ => panic!("expected a list item"),
        }
    }
}

#[test]
fn unordered_list_marker_is_one_cell_wide() {
    let theme = theme::docs_theme();
    let doc = Document::with_blocks(vec![Block::List {
        ordered: false,
        start: 1,
        items: vec![
            ListItem { content: vec![paragraph("x")], task: Some(true) },
            item(vec![]),
            item(vec![paragraph("y"), paragraph("z")]),
        ],
    }]);
    let tree = layout_document(&doc, &theme, Viewport::new(20, 24), false);
    let list = &tree.root.children[0];
    match &list.children[0].element {
        LayoutElement::ListItem { marker, task } => {
            assert_eq!(marker, "• ");
            assert_eq!(*task, Some(true));
        }
        _ => panic!("expected a list item"),
    }
    assert_eq!(list.children[0].children[0].rect, Rectangle::new(2, 0, 18, 1));
    // An item without children is one row high.
    assert_eq!(list.children[1].rect, Rectangle::new(0, 1, 20, 1));
    // Paragraphs in an item stand without spacing; the item spans them.
    assert_eq!(list.children[2].rect, Rectangle::new(0, 2, 20, 2));
    assert_eq!(list.children[2].children[1].rect.y, 3);
    assert_eq!(list.rect.height, 4);
}

#[test]
fn table_columns_use_natural_widths() {
    let theme = theme::docs_theme();
    let doc = Document::with_blocks(vec![Block::Table {
        headers: vec![cell("Name"), cell("Id")],
        rows: vec![vec![cell("Alexander"), cell("7")], vec![cell("Bo"), cell("12")]],
        alignment: vec![],
    }]);
    let tree = layout_document(&doc, &theme, Viewport::new(80, 24), false);
    let table = &tree.root.children[0];
    match &table.element {
        LayoutElement::Table { column_widths } => assert_eq!(column_widths, &vec![11u16, 4u16]),
        _ => panic!("expected a table"),
    }
    assert_eq!(table.rect, Rectangle::new(0, 0, 15, 9));
    assert_eq!(table.children.len(), 3);
    let header = &table.children[0];
    assert!(matches!(header.element, LayoutElement::TableRow { is_header: true }));
    assert_eq!(header.rect, Rectangle::new(0, 0, 15, 3));
    let first = &header.children[0];
    assert!(matches!(first.element, LayoutElement::TableCell));
    assert_eq!(first.rect, Rectangle::new(0, 0, 11, 3));
    assert_eq!(first.children.len(), 1);
    assert_eq!(first.children[0].rect, Rectangle::new(1, 1, 9, 1));
    assert!(matches!(first.children[0].element, LayoutElement::Paragraph { .. }));
    assert_eq!(header.children[1].rect, Rectangle::new(11, 0, 4, 3));
    assert!(matches!(table.children[1].element, LayoutElement::TableRow { is_header: false }));
    assert_eq!(table.children[2].rect.y, 6);
}

#[test]
fn table_columns_scale_down_with_floor_three() {
    let theme = theme::docs_theme();
    let doc = Document::with_blocks(vec![Block::Table {
        headers: vec![cell("aaaaaaaaaaaaaaaaaaaaaaaaaaaaaa"), cell("b")],
        rows: vec![],
        alignment: vec![],
    }]);
    // Natural widths 32 and 3, 35 together, in 20 cells: 32 * 20 / 35 = 18, 3 * 20 / 35 = 1 -> 3.
    let tree = layout_document(&doc, &theme, Viewport::new(20, 24), false);
    match &tree.root.children[0].element {
        LayoutElement::Table { column_widths } => assert_eq!(column_widths, &vec![18u16, 3u16]),
        _ => panic!("expected a table"),
    }
    assert_eq!(tree.root.children[0].rect.width, 21);
}

#[test]
fn image_counts_eight_cells_in_a_table() {
    let theme = theme::docs_theme();
    let doc = Document::with_blocks(vec![Block::Table {
        headers: vec![TableCell {
            content: vec![Inline::Image {
                url: "u".to_string(),
                alt: "a very long alternative text".to_string(),
                title: None,
            }],
        }],
        rows: vec![],
        alignment: vec![],
    }]);
    let tree = layout_document(&doc, &theme, Viewport::new(80, 24), false);
    match &tree.root.children[0].element {
        LayoutElement::Table { column_widths } => assert_eq!(column_widths, &vec![10u16]),
        _ => panic!("expected a table"),
    }
}

#[test]
fn inline_images_get_twelve_rows_below_their_line() {
    let theme = theme::docs_theme();
    let doc = Document::with_blocks(vec![
        Block::Paragraph {
            content: vec![
                Inline::Text("see".to_string()),
                Inline::Image { url: "a.png".to_string(), alt: "A".to_string(), title: None },
            ],
        },
        paragraph("after"),
    ]);
    let inline = layout_document(&doc, &theme, Viewport::new(40, 24), true);
    let para = &inline.root.children[0];
    assert_eq!(para.rect, Rectangle::new(0, 0, 40, 13));
    assert_eq!(para.children.len(), 1);
    assert_eq!(para.children[0].rect, Rectangle::new(0, 1, 40, 12));
    match &para.children[0].element {
        LayoutElement::Image { path, alt_text } => {
            assert_eq!(path, "a.png");
            assert_eq!(alt_text, "A");
        }
        _ => panic!("expected an image"),
    }
    assert_eq!(inline.images.len(), 0);
    assert_eq!(inline.root.children[1].rect.y, 14);

    let sidebar = layout_document(&doc, &theme, Viewport::new(40, 24), false);
    assert_eq!(sidebar.root.children[0].rect.height, 1);
    assert_eq!(sidebar.root.children[0].children.len(), 0);
    assert_eq!(sidebar.images.len(), 1);
    assert_eq!(sidebar.images[0].y_position, 0);
}

#[test]
fn siblings_do_not_overlap_and_height_is_lowest_bottom() {
    let theme = theme::docs_theme();
    let doc = Document::with_blocks(vec![
        Block::Heading { level: 1, content: text("One") },
        paragraph("a b c d e f g h i j k l m n o p q r s t u v w x y z"),
        Block::CodeBlock { lang: None, code: "x\ny".to_string() },
        Block::List { ordered: true, start: 9, items: vec![item(vec![paragraph("i")]), item(vec![])] },
        Block::HorizontalRule,
        paragraph("end"),
    ]);
    let tree = layout_document(&doc, &theme, Viewport::new(12, 24), false);
    let kids = &tree.root.children;
    for pair in kids.windows(2) {
        assert!(pair[1].rect.y >= pair[0].rect.y + pair[0].rect.height);
    }
    let lowest = kids.iter().map(|n| n.rect.y + n.rect.height).max().unwrap();
    assert_eq!(tree.document_height(), lowest);
    for region in &tree.hit_regions {
        assert!(region.rect.x + region.rect.width <= tree.root.rect.width);
        assert!(region.rect.y + region.rect.height <= tree.root.rect.height);
    }
}

#[test]
fn empty_document_has_no_height() {
    let theme = theme::docs_theme();
    let tree = layout_document(&Document::new(), &theme, Viewport::new(80, 24), false);
    assert_eq!(tree.root.children.len(), 0);
    assert_eq!(tree.document_height(), 0);
    assert!(!tree.can_scroll_down());
    assert_eq!(tree.root.id, 1);
}

#[test]
fn hit_test_finds_the_first_region_or_none() {
    let theme = theme::docs_theme();
    let doc = Document::with_blocks(vec![
        Block::Heading { level: 1, content: text("A") },
        Block::CodeBlock { lang: Some("rs".to_string()), code: "x".to_string() },
    ]);
    let tree = layout_document(&doc, &theme, Viewport::new(80, 24), false);
    assert!(tree.hit_test(0, 0).is_none());
    assert!(matches!(tree.hit_test(0, 2).unwrap().element, HitElement::Heading { .. }));
    assert!(matches!(tree.hit_test(79, 4).unwrap().element, HitElement::CodeBlock { .. }));
    assert!(tree.hit_test(0, 7).is_none());
}

#[test]
fn layout_document_is_deterministic() {
    let theme = theme::neon_theme();
    let doc = Document::with_blocks(vec![
        Block::Heading { level: 3, content: text("H") },
        paragraph("some words to wrap around the narrow viewport"),
    ]);
    let a = layout_document(&doc, &theme, Viewport::new(10, 5), false);
    let b = layout_document(&doc, &theme, Viewport::new(10, 5), false);
    assert_eq!(format!("{:?}", a), format!("{:?}", b));
}

#[test]
fn clone_of_a_tree_is_the_same_tree() {
    let theme = theme::docs_theme();
    let doc = Document::with_blocks(vec![
        Block::Heading { level: 1, content: text("A") },
        Block::Paragraph {
            content: vec![Inline::Image { url: "u".to_string(), alt: "a".to_string(), title: None }],
        },
    ]);
    let tree = layout_document(&doc, &theme, Viewport::new(80, 24), false);
    let copy = tree.clone();
    assert_eq!(format!("{:?}", tree), format!("{:?}", copy));
}

#[test]
fn jump_to_headings() {
    let theme = theme::docs_theme();
    let mut blocks = Vec::new();
    for i in 0..10 {
        blocks.push(Block::Heading { level: 2, content: text(&format!("H{}", i)) });
        for _ in 0..5 {
            blocks.push(paragraph("p"));
        }
    }
    let doc = Document::with_blocks(blocks);
    let mut tree = layout_document(&doc, &theme, Viewport::new(80, 10), false);
    // Headings stand at rows 2, 16, 30, ...
    lumen::layout::jump_to_next_heading(&mut tree, true);
    assert_eq!(tree.viewport.scroll_y, 2);
    lumen::layout::jump_to_next_heading(&mut tree, true);
    assert_eq!(tree.viewport.scroll_y, 16);
    lumen::layout::jump_to_next_heading(&mut tree, false);
    assert_eq!(tree.viewport.scroll_y, 2);
    lumen::layout::jump_to_next_heading(&mut tree, false);
    assert_eq!(tree.viewport.scroll_y, 2);
    tree.viewport.scroll_to(128);
    lumen::layout::jump_to_next_heading(&mut tree, true);
    // No heading below row 128: the viewport stays.
    assert_eq!(tree.viewport.scroll_y, 128);
    tree.viewport.scroll_to(127);
    lumen::layout::jump_to_next_heading(&mut tree, true);
    assert_eq!(tree.viewport.scroll_y, 128);
}

fn collect_region_rects(node: &LayoutNode, rects: &mut Vec<Rectangle>) {
    if matches!(node.element, LayoutElement::Heading { .. } | LayoutElement::CodeBlock { .. }) {
        rects.push(node.rect);
    }
    for child in &node.children {
        collect_region_rects(child, rects);
    }
}

#[test]
fn hit_regions_follow_heading_and_code_nodes() {
    let theme = theme::docs_theme();
    let doc = Document::with_blocks(vec![
        Block::BlockQuote {
            blocks: vec![paragraph("quoted"), Block::Heading { level: 2, content: text("In Quote") }],
        },
        Block::List {
            ordered: false,
            start: 1,
            items: vec![item(vec![
                paragraph("first"),
                Block::CodeBlock { lang: Some("rust".to_string()), code: "a\nb".to_string() },
            ])],
        },
        Block::Table { headers: vec![cell("h")], rows: vec![vec![cell("c")]], alignment: vec![] },
        Block::Heading { level: 1, content: text("Last") },
    ]);
    let tree = layout_document(&doc, &theme, Viewport::new(40, 24), false);
    let mut rects = Vec::new();
    collect_region_rects(&tree.root, &mut rects);
    assert_eq!(rects.len(), 3);
    let regions: Vec<Rectangle> = tree.hit_regions.iter().map(|r| r.rect).collect();
    assert_eq!(regions, rects);
    match &tree.hit_regions[0].element {
        HitElement::Heading { level, id } => {
            assert_eq!(*level, 2);
            assert_eq!(id, "h2-in-quote");
        },
        _ => panic!("expected the heading in the quote"),
    }
    match &tree.hit_regions[1].element {
        HitElement::CodeBlock { lang } => assert_eq!(lang.as_deref(), Some("rust")),
        _ => panic!("expected the code block in the list"),
    }
    assert!(matches!(tree.hit_regions[2].element, HitElement::Heading { level: 1, .. }));
}
