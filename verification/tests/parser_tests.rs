use lumen::ir::{Alignment, Block, CalloutKind, Inline};
use lumen::parser::{
    document_from_events, parse_markdown, MdCodeBlockKind, MdEvent, MdTag, MdTagEnd,
};

#[test]
fn test_parse_simple_paragraph() {
    let markdown = "Hello, world!";
    let doc = parse_markdown(markdown);

    assert_eq!(doc.blocks.len(), 1);
    match &doc.blocks[0] {
        Block::Paragraph { content } => {
            assert_eq!(content.len(), 1);
            match &content[0] {
                Inline::Text(text) => assert_eq!(text, "Hello, world!"),
                _ => panic!("Expected Text inline"),
            }
        }
        _ => panic!("Expected Paragraph block"),
    }
}

#[test]
fn test_parse_heading() {
    let markdown = "# Heading 1\n\n## Heading 2";
    let doc = parse_markdown(markdown);

    assert_eq!(doc.blocks.len(), 2);

    match &doc.blocks[0] {
        Block::Heading { level, content } => {
            assert_eq!(*level, 1);
            assert_eq!(content.len(), 1);
        }
        _ => panic!("Expected Heading block"),
    }

    match &doc.blocks[1] {
        Block::Heading { level, .. } => {
            assert_eq!(*level, 2);
        }
        _ => panic!("Expected Heading block"),
    }
}

#[test]
fn test_parse_emphasis() {
    let markdown = "Text with **bold** and *italic* and ***both***.";
    let doc = parse_markdown(markdown);

    assert_eq!(doc.blocks.len(), 1);
    match &doc.blocks[0] {
        Block::Paragraph { content } => {
            assert!(content.iter().any(|i| matches!(i, Inline::Strong(_))));
            assert!(content.iter().any(|i| matches!(i, Inline::Emphasis(_))));
        }
        _ => panic!("Expected Paragraph block"),
    }
}

#[test]
fn test_parse_code() {
    let markdown = "Inline `code` here.";
    let doc = parse_markdown(markdown);

    assert_eq!(doc.blocks.len(), 1);
    match &doc.blocks[0] {
        Block::Paragraph { content } => {
            assert!(content.iter().any(|i| matches!(i, Inline::Code(_))));
        }
        _ => panic!("Expected Paragraph block"),
    }
}

#[test]
fn test_parse_code_block() {
    let markdown = "```rust\nfn main() {}\n```";
    let doc = parse_markdown(markdown);

    assert_eq!(doc.blocks.len(), 1);
    match &doc.blocks[0] {
        Block::CodeBlock { lang, code } => {
            assert_eq!(lang.as_deref(), Some("rust"));
            assert!(code.contains("fn main()"));
        }
        _ => panic!("Expected CodeBlock"),
    }
}

#[test]
fn test_parse_list() {
    let markdown = "- Item 1\n- Item 2\n- Item 3";
    let doc = parse_markdown(markdown);

    assert_eq!(doc.blocks.len(), 1);
    match &doc.blocks[0] {
        Block::List { ordered, items, .. } => {
            assert!(!ordered);
            assert_eq!(items.len(), 3);
        }
        _ => panic!("Expected List block"),
    }
}

#[test]
fn test_parse_ordered_list() {
    let markdown = "1. First\n2. Second\n3. Third";
    let doc = parse_markdown(markdown);

    assert_eq!(doc.blocks.len(), 1);
    match &doc.blocks[0] {
        Block::List { ordered, items, start } => {
            assert!(ordered);
            assert_eq!(*start, 1);
            assert_eq!(items.len(), 3);
        }
        _ => panic!("Expected List block"),
    }
}

#[test]
fn test_parse_link() {
    let markdown = "[Link text](https://example.com)";
    let doc = parse_markdown(markdown);

    assert_eq!(doc.blocks.len(), 1);
    match &doc.blocks[0] {
        Block::Paragraph { content } => {
            assert!(content.iter().any(|i| matches!(i, Inline::Link { .. })));
        }
        _ => panic!("Expected Paragraph block"),
    }
}

#[test]
fn test_parse_image() {
    let markdown = "![Alt text](image.png)";
    let doc = parse_markdown(markdown);

    assert_eq!(doc.blocks.len(), 1);
    match &doc.blocks[0] {
        Block::Paragraph { content } => match &content[0] {
            Inline::Image { url, alt, .. } => {
                assert_eq!(url, "image.png");
                assert_eq!(alt, "Alt text");
            }
            _ => panic!("Expected Image inline"),
        },
        _ => panic!("Expected Paragraph block"),
    }
}

#[test]
fn test_parse_blockquote() {
    let markdown = "> This is a quote";
    let doc = parse_markdown(markdown);

    assert_eq!(doc.blocks.len(), 1);
    match &doc.blocks[0] {
        Block::BlockQuote { blocks } => {
            assert!(!blocks.is_empty());
        }
        _ => panic!("Expected BlockQuote block"),
    }
}

#[test]
fn test_parse_horizontal_rule() {
    let markdown = "Text above\n\n---\n\nText below";
    let doc = parse_markdown(markdown);

    assert!(doc.blocks.iter().any(|b| matches!(b, Block::HorizontalRule)));
}

#[test]
fn test_parse_table() {
    let markdown = "| A | B |\n|---|---|\n| 1 | 2 |";
    let doc = parse_markdown(markdown);

    assert_eq!(doc.blocks.len(), 1);
    match &doc.blocks[0] {
        Block::Table { headers, rows, .. } => {
            assert_eq!(headers.len(), 2);
            assert_eq!(rows.len(), 1);
            assert_eq!(rows[0].len(), 2);
        }
        _ => panic!("Expected Table block"),
    }
}

#[test]
fn nested_list_label_is_promoted() {
    let doc = parse_markdown("- **Label:**\n  - child");
    assert_eq!(doc.blocks.len(), 1);
    match &doc.blocks[0] {
        Block::List { ordered, items, .. } => {
            assert!(!ordered);
            assert_eq!(items.len(), 1);
            let content = &items[0].content;
            assert_eq!(content.len(), 2);
            match &content[0] {
                Block::Paragraph { content } => {
                    assert_eq!(content.len(), 1);
                    match &content[0] {
                        Inline::Strong(inner) => {
                            assert_eq!(inner.len(), 1);
                            assert!(matches!(&inner[0], Inline::Text(t) if t == "Label:"));
                        }
                        _ => panic!("expected strong text"),
                    }
                }
                _ => panic!("expected a paragraph"),
            }
            match &content[1] {
                Block::List { items: nested, .. } => {
                    assert_eq!(nested.len(), 1);
                    assert_eq!(nested[0].content.len(), 1);
                    match &nested[0].content[0] {
                        Block::Paragraph { content } => {
                            assert_eq!(content.len(), 1);
                            assert!(matches!(&content[0], Inline::Text(t) if t == "child"));
                        }
                        _ => panic!("expected a paragraph"),
                    }
                }
                _ => panic!("expected a nested list"),
            }
        }
        _ => panic!("expected a list"),
    }
}

#[test]
fn plain_label_is_promoted_too() {
    let doc = parse_markdown("- Label:\n  - child\n  - other");
    match &doc.blocks[0] {
        Block::List { items, .. } => {
            assert_eq!(items.len(), 1);
            assert_eq!(items[0].content.len(), 2);
            match &items[0].content[0] {
                Block::Paragraph { content } => {
                    assert!(matches!(&content[0], Inline::Text(t) if t == "Label:"));
                }
                _ => panic!("expected a paragraph"),
            }
            match &items[0].content[1] {
                Block::List { items: nested, .. } => assert_eq!(nested.len(), 2),
                _ => panic!("expected a nested list"),
            }
        }
        _ => panic!("expected a list"),
    }
}

fn start(tag: MdTag) -> MdEvent {
    MdEvent::Start(tag)
}

fn end(tag: MdTagEnd) -> MdEvent {
    MdEvent::End(tag)
}

fn text(s: &str) -> MdEvent {
    MdEvent::Text(s.to_string())
}

#[test]
fn item_with_only_a_nested_list_is_flattened() {
    let events = vec![
        start(MdTag::List(None)),
        start(MdTag::Item),
        start(MdTag::List(None)),
        start(MdTag::Item),
        text("a"),
        end(MdTagEnd::Item),
        start(MdTag::Item),
        text("b"),
        end(MdTagEnd::Item),
        end(MdTagEnd::List),
        end(MdTagEnd::Item),
        start(MdTag::Item),
        text("c"),
        end(MdTagEnd::Item),
        end(MdTagEnd::List),
    ];
    let doc = document_from_events(&events);
    match &doc.blocks[0] {
        Block::List { items, .. } => {
            assert_eq!(items.len(), 3);
            for (item, want) in items.iter().zip(["a", "b", "c"]) {
                match &item.content[0] {
                    Block::Paragraph { content } => {
                        assert!(matches!(&content[0], Inline::Text(t) if t == want));
                    }
                    _ => panic!("expected a paragraph"),
                }
            }
        }
        _ => panic!("expected a list"),
    }
}

#[test]
fn callouts_are_recognized_in_any_case() {
    for (source, kind) in [
        ("> [!NOTE]\n> body", CalloutKind::Note),
        ("> [!warning] Careful\n> more", CalloutKind::Warning),
        ("> [!Important]\n> body", CalloutKind::Important),
        ("> [!TIP] do this", CalloutKind::Tip),
        ("> [!caution]\n>\n> second paragraph", CalloutKind::Caution),
    ] {
        let doc = parse_markdown(source);
        assert_eq!(doc.blocks.len(), 1);
        match &doc.blocks[0] {
            Block::Callout { kind: found, title, content } => {
                assert_eq!(*found, kind);
                assert_eq!(*title, None);
                for block in content {
                    match block {
                        Block::Paragraph { content } => {
                            assert!(!content.is_empty());
                            let plain: String = content.iter().map(|i| i.to_plain_text()).collect();
                            assert!(!plain.contains("[!"));
                        }
                        _ => panic!("expected a paragraph"),
                    }
                }
            }
            _ => panic!("expected a callout for {:?}", source),
        }
    }
}

#[test]
fn callout_marker_and_following_whitespace_are_stripped() {
    let doc = parse_markdown("> [!warning] Careful\n> more");
    match &doc.blocks[0] {
        Block::Callout { content, .. } => {
            assert_eq!(content.len(), 1);
            match &content[0] {
                Block::Paragraph { content } => {
                    assert!(matches!(&content[0], Inline::Text(t) if t == "Careful"));
                    assert!(matches!(&content[1], Inline::SoftBreak));
                    assert!(matches!(&content[2], Inline::Text(t) if t == "more"));
                }
                _ => panic!("expected a paragraph"),
            }
        }
        _ => panic!("expected a callout"),
    }
}

#[test]
fn callout_of_marker_alone_has_no_content() {
    let events = vec![
        start(MdTag::BlockQuote),
        start(MdTag::Paragraph),
        text("[!NOTE]  "),
        end(MdTagEnd::Paragraph),
        end(MdTagEnd::BlockQuote),
    ];
    let doc = document_from_events(&events);
    match &doc.blocks[0] {
        Block::Callout { kind, content, .. } => {
            assert_eq!(*kind, CalloutKind::Note);
            assert!(content.is_empty());
        }
        _ => panic!("expected a callout"),
    }
}

#[test]
fn quote_with_other_text_stays_a_quote() {
    for source in ["> [!NOTES] x", "> not [!NOTE]", "> [!]"] {
        let doc = parse_markdown(source);
        assert!(matches!(doc.blocks[0], Block::BlockQuote { .. }), "{:?}", source);
    }
}

#[test]
fn table_parts_are_assembled() {
    let doc = parse_markdown("| A | B |\n|:--|--:|\n| 1 | 2 |\n| 3 | 4 |");
    match &doc.blocks[0] {
        Block::Table { headers, rows, alignment } => {
            assert_eq!(alignment, &vec![Alignment::Left, Alignment::Right]);
            assert_eq!(headers[0].content[0].to_plain_text(), "A");
            assert_eq!(headers[1].content[0].to_plain_text(), "B");
            assert_eq!(rows.len(), 2);
            assert_eq!(rows[1][0].content[0].to_plain_text(), "3");
            assert_eq!(rows[1][1].content[0].to_plain_text(), "4");
        }
        _ => panic!("expected a table"),
    }
}

#[test]
fn code_blocks_keep_text_verbatim() {
    let doc = parse_markdown("```\n# not *a* heading\n\n  indented\n```\n\n    four spaces\n");
    assert_eq!(doc.blocks.len(), 2);
    match &doc.blocks[0] {
        Block::CodeBlock { lang, code } => {
            assert_eq!(*lang, None);
            assert_eq!(code, "# not *a* heading\n\n  indented\n");
        }
        _ => panic!("expected a code block"),
    }
    match &doc.blocks[1] {
        Block::CodeBlock { lang, code } => {
            assert_eq!(*lang, None);
            assert_eq!(code, "four spaces\n");
        }
        _ => panic!("expected a code block"),
    }
}

#[test]
fn breaks_links_and_nesting() {
    let doc = parse_markdown("a\nb  \nc [~~x~~ *y*](u \"t\")");
    match &doc.blocks[0] {
        Block::Paragraph { content } => {
            assert!(matches!(&content[1], Inline::SoftBreak));
            assert!(matches!(&content[3], Inline::LineBreak));
            match &content[5] {
                Inline::Link { url, title, text } => {
                    assert_eq!(url, "u");
                    assert_eq!(title.as_deref(), Some("t"));
                    assert!(matches!(&text[0], Inline::Strikethrough(_)));
                    assert!(matches!(&text[2], Inline::Emphasis(_)));
                }
                _ => panic!("expected a link"),
            }
        }
        _ => panic!("expected a paragraph"),
    }
}

#[test]
fn ordered_list_start_and_loose_items() {
    let doc = parse_markdown("7. a\n\n   b\n8. c");
    match &doc.blocks[0] {
        Block::List { ordered, start, items } => {
            assert!(*ordered);
            assert_eq!(*start, 7);
            assert_eq!(items.len(), 2);
            assert_eq!(items[0].content.len(), 2);
            assert_eq!(items[0].task, None);
        }
        _ => panic!("expected a list"),
    }
}

#[test]
fn rule_goes_to_the_open_container() {
    let events = vec![
        start(MdTag::BlockQuote),
        MdEvent::Rule,
        end(MdTagEnd::BlockQuote),
        MdEvent::Rule,
    ];
    let doc = document_from_events(&events);
    assert_eq!(doc.blocks.len(), 2);
    match &doc.blocks[0] {
        Block::BlockQuote { blocks } => assert!(matches!(blocks[0], Block::HorizontalRule)),
        _ => panic!("expected a quote"),
    }
    assert!(matches!(doc.blocks[1], Block::HorizontalRule));
}

#[test]
fn malformed_nesting_is_tolerated() {
    // Ends without starts, a start without end, a mismatched end.
    let events = vec![
        end(MdTagEnd::Paragraph),
        end(MdTagEnd::Strong),
        end(MdTagEnd::TableCell),
        start(MdTag::Paragraph),
        text("kept"),
        end(MdTagEnd::Paragraph),
        start(MdTag::Heading { level: 2 }),
        text("dropped with its heading"),
        end(MdTagEnd::Paragraph),
        start(MdTag::Strong),
        MdEvent::Other,
        start(MdTag::Other),
        end(MdTagEnd::Other),
        start(MdTag::CodeBlock(MdCodeBlockKind::Fenced(String::new()))),
        text("open code"),
    ];
    let doc = document_from_events(&events);
    assert_eq!(doc.blocks.len(), 1);
    match &doc.blocks[0] {
        Block::Paragraph { content } => assert_eq!(content[0].to_plain_text(), "kept"),
        _ => panic!("expected a paragraph"),
    }
}

#[test]
fn empty_source_gives_an_empty_document() {
    let doc = parse_markdown("");
    assert!(doc.blocks.is_empty());
    assert_eq!(doc.metadata.title, None);
    assert!(doc.metadata.frontmatter.is_empty());
    assert!(document_from_events(&Vec::new()).blocks.is_empty());
}

#[test]
fn image_alt_is_the_plain_text_of_its_content() {
    let events = vec![
        start(MdTag::Paragraph),
        text("before"),
        start(MdTag::Image { dest_url: "i.png".to_string(), title: String::new() }),
        text("an "),
        start(MdTag::Emphasis),
        text("alt"),
        end(MdTagEnd::Emphasis),
        end(MdTagEnd::Image),
        end(MdTagEnd::Paragraph),
    ];
    let doc = document_from_events(&events);
    match &doc.blocks[0] {
        Block::Paragraph { content } => {
            assert_eq!(content.len(), 2);
            match &content[1] {
                Inline::Image { url, alt, title } => {
                    assert_eq!(url, "i.png");
                    assert_eq!(alt, "an alt");
                    assert_eq!(*title, None);
                }
                _ => panic!("expected an image"),
            }
        }
        _ => panic!("expected a paragraph"),
    }
}

#[test]
fn table_columns_keep_each_alignment() {
    let doc = parse_markdown("| A | B | C | D |\n|---|:-:|:--|--:|\n| 1 | 2 | 3 | 4 |");
    match &doc.blocks[0] {
        Block::Table { headers, rows, alignment } => {
            assert_eq!(
                alignment,
                &vec![Alignment::Unaligned, Alignment::Center, Alignment::Left, Alignment::Right]
            );
            assert_eq!(headers.len(), 4);
            assert_eq!(rows.len(), 1);
            assert_eq!(rows[0].len(), 4);
        }
        other => panic!("expected a table, found {:?}", other),
    }
}
