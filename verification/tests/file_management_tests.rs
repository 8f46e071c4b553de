use lumen::file_manager::{display_name, OpenFile};
use lumen::{parse_markdown, FileManager};
use std::path::PathBuf;

#[test]
fn test_file_manager_basic_operations() {
    let mut manager = FileManager::new();
    assert_eq!(manager.file_count(), 0);
    assert!(manager.current_file().is_none());

    // Add first file
    let doc1 = parse_markdown("# File 1\n\nContent of file 1");
    manager.add_file(PathBuf::from("/test/file1.md"), doc1);

    assert_eq!(manager.file_count(), 1);
    assert!(manager.current_file().is_some());
    assert_eq!(manager.current_file().unwrap().name, "file1.md");

    // Add second file
    let doc2 = parse_markdown("# File 2\n\nContent of file 2");
    manager.add_file(PathBuf::from("/test/file2.md"), doc2);

    assert_eq!(manager.file_count(), 2);
    assert!(manager.has_multiple_files());
}

#[test]
fn test_file_navigation() {
    let mut manager = FileManager::new();

    let doc1 = parse_markdown("# File 1");
    let doc2 = parse_markdown("# File 2");
    let doc3 = parse_markdown("# File 3");

    manager.add_file(PathBuf::from("/file1.md"), doc1);
    manager.add_file(PathBuf::from("/file2.md"), doc2);
    manager.add_file(PathBuf::from("/file3.md"), doc3);

    // Test next navigation
    assert_eq!(manager.current_file().unwrap().name, "file1.md");

    manager.next_file();
    assert_eq!(manager.current_file().unwrap().name, "file2.md");

    manager.next_file();
    assert_eq!(manager.current_file().unwrap().name, "file3.md");

    // Test wrap around
    manager.next_file();
    assert_eq!(manager.current_file().unwrap().name, "file1.md");

    // Test previous navigation
    manager.prev_file();
    assert_eq!(manager.current_file().unwrap().name, "file3.md");

    manager.prev_file();
    assert_eq!(manager.current_file().unwrap().name, "file2.md");
}

#[test]
fn test_direct_file_switch() {
    let mut manager = FileManager::new();

    for i in 1..=5 {
        let doc = parse_markdown(&format!("# File {}", i));
        manager.add_file(PathBuf::from(format!("/file{}.md", i)), doc);
    }

    // Switch directly to file at index 3 (zero-based)
    manager.switch_to(3);
    assert_eq!(manager.current_file().unwrap().name, "file4.md");

    // Switch to first file
    manager.switch_to(0);
    assert_eq!(manager.current_file().unwrap().name, "file1.md");

    // Invalid index should be ignored
    manager.switch_to(99);
    assert_eq!(manager.current_file().unwrap().name, "file1.md");
}

#[test]
fn test_scroll_position_persistence() {
    let mut manager = FileManager::new();

    let doc1 = parse_markdown("# File 1");
    let doc2 = parse_markdown("# File 2");

    manager.add_file(PathBuf::from("/file1.md"), doc1);
    manager.add_file(PathBuf::from("/file2.md"), doc2);

    // Set scroll position for file 1
    manager.save_scroll_position(42);
    assert_eq!(manager.get_scroll_position(), 42);

    // Switch to file 2
    manager.next_file();
    assert_eq!(manager.get_scroll_position(), 0); // Default scroll for new file

    // Set scroll for file 2
    manager.save_scroll_position(100);
    assert_eq!(manager.get_scroll_position(), 100);

    // Switch back to file 1 - should restore scroll
    manager.prev_file();
    assert_eq!(manager.get_scroll_position(), 42);
}

#[test]
fn empty_manager_ignores_navigation() {
    let mut manager = FileManager::new();
    manager.next_file();
    manager.prev_file();
    manager.switch_to(0);
    manager.save_scroll_position(5);
    manager.reload_current("# x");
    assert_eq!(manager.current_index, 0);
    assert_eq!(manager.get_scroll_position(), 0);
    assert!(!manager.has_multiple_files());
    assert!(manager.current_file().is_none());
}

#[test]
fn path_without_file_name_is_untitled() {
    let mut manager = FileManager::new();
    manager.add_file(PathBuf::from("/"), parse_markdown(""));
    manager.add_file(PathBuf::from(".."), parse_markdown(""));
    assert_eq!(manager.files[0].name, "untitled");
    assert_eq!(manager.files[1].name, "untitled");
    assert_eq!(manager.files[0].scroll_position, 0);
    assert!(manager.files[0].layout.is_none());
}

#[test]
fn reload_replaces_the_document_and_drops_the_layout() {
    let mut manager = FileManager::new();
    manager.add_file(PathBuf::from("/a.md"), parse_markdown("# A"));
    manager.add_file(PathBuf::from("/b.md"), parse_markdown("# B"));
    manager.switch_to(1);
    manager.save_scroll_position(9);
    let theme = lumen::Theme::builtin("docs").unwrap();
    let tree = lumen::layout_document(
        &manager.files[1].document,
        &theme,
        lumen::layout::Viewport::new(80, 24),
        false,
    );
    manager.files[1].layout = Some(tree);
    manager.reload_current("one\n\ntwo\n\nthree");
    assert_eq!(manager.files[1].document.blocks.len(), 3);
    assert!(manager.files[1].layout.is_none());
    assert_eq!(manager.files[1].name, "b.md");
    assert_eq!(manager.files[1].path, PathBuf::from("/b.md"));
    assert_eq!(manager.get_scroll_position(), 9);
    assert_eq!(manager.files[0].document.blocks.len(), 1);
    let copy = manager.files[1].clone();
    assert_eq!(copy.name, "b.md");
    assert_eq!(copy.scroll_position, 9);
}

#[test]
fn switching_restores_the_saved_scroll_within_the_layout() {
    let theme = lumen::Theme::builtin("docs").unwrap();
    let viewport = lumen::layout::Viewport::new(80, 10);
    let mut manager = FileManager::new();
    manager.add_file(PathBuf::from("/a.md"), parse_markdown("a\n\nb\n\nc\n\nd\n\ne\n\nf\n\ng\n\nh"));
    manager.add_file(PathBuf::from("/b.md"), parse_markdown("short"));
    let tree_a = lumen::layout_document(&manager.files[0].document, &theme, viewport, false);
    assert_eq!(tree_a.document_height(), 15);
    manager.files[0].layout = Some(tree_a);

    let mut view = viewport;
    manager.save_scroll_position(40);
    manager.restore_scroll(&mut view);
    // The layout of the first file ends at row 15: five rows can scroll.
    assert_eq!(view.scroll_y, 5);
    manager.save_scroll_position(3);
    manager.next_file();
    manager.save_scroll_position(7);
    manager.restore_scroll(&mut view);
    // Without a cached layout the saved position is taken as it is.
    assert_eq!(view.scroll_y, 7);
    manager.prev_file();
    manager.restore_scroll(&mut view);
    assert_eq!(view.scroll_y, 3);
    if let Some(file) = manager.current_file_mut() {
        file.scroll_position = 1;
    }
    assert_eq!(manager.get_scroll_position(), 1);
    let copy = manager.files[0].clone();
    assert_eq!(copy.path, PathBuf::from("/a.md"));
    assert!(copy.layout.is_some());

    let empty = FileManager::new();
    empty.restore_scroll(&mut view);
    assert_eq!(view.scroll_y, 3);
}

#[test]
fn files_are_named_by_the_last_component_of_their_path() {
    let doc = parse_markdown("x");
    assert_eq!(OpenFile::new(PathBuf::from("a/b/notes.md"), doc.clone()).name, "notes.md");
    assert_eq!(OpenFile::new(PathBuf::from("notes.md"), doc.clone()).name, "notes.md");
    assert_eq!(OpenFile::new(PathBuf::from("a/b/"), doc.clone()).name, "b");
    assert_eq!(OpenFile::new(PathBuf::from("/"), doc.clone()).name, "untitled");
    assert_eq!(OpenFile::new(PathBuf::from("a/.."), doc.clone()).name, "untitled");
    assert_eq!(OpenFile::new(PathBuf::new(), doc).name, "untitled");
    assert_eq!(display_name(None), "untitled");
    assert_eq!(display_name(Some("x.md".to_string())), "x.md");
}
