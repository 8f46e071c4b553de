//! Markdown to IR conversion.

pub mod events;
pub mod fixup;
pub mod markdown;

pub use events::{MdCodeBlockKind, MdEvent, MdTag, MdTagEnd};
pub use markdown::{document_from_events, MarkdownConverter};

use crate::ir::Document;
use events::{markdown_events, tokenize};
use markdown::build_document;
use vstd::prelude::*;

verus! {

/// Parse a Markdown string into a document: the document that the
/// tokenizer's events for the text build.
pub fn parse_markdown(markdown: &str) -> (doc: Document)
    ensures
        doc@ == build_document(markdown_events(markdown@)),
{
    let events = tokenize(markdown);
    document_from_events(&events)
}

} // verus!
