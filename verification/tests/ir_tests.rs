use lumen::ir::{Block, Document, Inline};

#[test]
fn test_inline_to_plain_text() {
    let inline = Inline::Strong(vec![
        Inline::Text("Hello ".to_string()),
        Inline::Emphasis(vec![Inline::Text("world".to_string())]),
    ]);
    assert_eq!(inline.to_plain_text(), "Hello world");
}

#[test]
fn test_document_creation() {
    let doc = Document::new();
    assert_eq!(doc.blocks.len(), 0);
    assert_eq!(doc.metadata.title, None);
}

#[test]
fn plain_text_of_breaks_links_and_images() {
    let link = Inline::Link {
        url: "https://example.com".to_string(),
        title: None,
        text: vec![Inline::Text("a".to_string()), Inline::Code("b".to_string())],
    };
    assert_eq!(link.to_plain_text(), "ab");
    let image = Inline::Image { url: "x.png".to_string(), alt: "Alt".to_string(), title: None };
    assert_eq!(image.to_plain_text(), "Alt");
    assert_eq!(Inline::LineBreak.to_plain_text(), "\n");
    assert_eq!(Inline::SoftBreak.to_plain_text(), " ");
    assert_eq!(Inline::Strikethrough(vec![]).to_plain_text(), "");
}

#[test]
fn clone_keeps_the_document() {
    let doc = Document::with_blocks(vec![
        Block::Heading { level: 2, content: vec![Inline::Text("T".to_string())] },
        Block::HorizontalRule,
    ]);
    let copy = doc.clone();
    assert_eq!(copy.blocks.len(), 2);
    match &copy.blocks[0] {
        Block::Heading { level, content } => {
            assert_eq!(*level, 2);
            assert_eq!(content[0].to_plain_text(), "T");
        }
        _ => panic!("expected a heading"),
    }
    assert!(matches!(copy.blocks[1], Block::HorizontalRule));
}
