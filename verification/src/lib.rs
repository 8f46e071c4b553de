//! Lumen: a Markdown document viewer for terminals.
//!
//! The document pipeline, verified: Markdown source becomes a semantic
//! document (`ir`, `parser`), the document becomes a tree of positioned
//! nodes for a viewport and a theme (`theme`, `layout`), and that tree is
//! searched and scrolled (`search`, `layout`). `file_manager` holds the set
//! of open documents.

pub mod file_manager;
pub mod ir;
pub mod layout;
pub mod parser;
pub mod preferences;
pub mod search;
pub mod session;
pub mod text;
pub mod theme;
pub mod view;

pub use file_manager::{FileManager, OpenFile};
pub use ir::Document;
pub use layout::{layout_document, LayoutTree};
pub use parser::parse_markdown;
pub use preferences::Preferences;
pub use search::SearchState;
pub use theme::Theme;
