use lumen::layout::Viewport;
use lumen::session::{handle_key, handle_mouse, Action, Command, Key, Mouse, Session};
use lumen::{layout_document, parse_markdown, LayoutTree, SearchState, Theme};

fn long_tree() -> LayoutTree {
    let mut source = String::new();
    for i in 0..30 {
        source.push_str(&format!("## Section {}\n\nneedle number {}\n\n", i, i));
    }
    let doc = parse_markdown(&source);
    let theme = Theme::builtin("docs").unwrap();
    layout_document(&doc, &theme, Viewport::new(80, 20), false)
}

#[test]
fn scrolling_keys_move_the_viewport() {
    let mut tree = long_tree();
    let mut search = SearchState::new();
    let height = tree.document_height();
    assert_eq!(height, 30 * 6 - 1);
    assert_eq!(handle_key(Key::Char('j'), &mut tree, &mut search), Action::Continue);
    assert_eq!(tree.viewport.scroll_y, 1);
    handle_key(Key::Down, &mut tree, &mut search);
    assert_eq!(tree.viewport.scroll_y, 2);
    handle_key(Key::Char('k'), &mut tree, &mut search);
    handle_key(Key::Up, &mut tree, &mut search);
    handle_key(Key::Up, &mut tree, &mut search);
    assert_eq!(tree.viewport.scroll_y, 0);
    handle_key(Key::Char('d'), &mut tree, &mut search);
    assert_eq!(tree.viewport.scroll_y, 10);
    handle_key(Key::Char(' '), &mut tree, &mut search);
    assert_eq!(tree.viewport.scroll_y, 30);
    handle_key(Key::PageDown, &mut tree, &mut search);
    assert_eq!(tree.viewport.scroll_y, 50);
    handle_key(Key::Char('u'), &mut tree, &mut search);
    assert_eq!(tree.viewport.scroll_y, 40);
    handle_key(Key::PageUp, &mut tree, &mut search);
    assert_eq!(tree.viewport.scroll_y, 20);
    handle_key(Key::End, &mut tree, &mut search);
    assert_eq!(tree.viewport.scroll_y, height - 20);
    handle_key(Key::Char('j'), &mut tree, &mut search);
    assert_eq!(tree.viewport.scroll_y, height - 20);
    handle_key(Key::Home, &mut tree, &mut search);
    assert_eq!(tree.viewport.scroll_y, 0);
    handle_key(Key::Char('G'), &mut tree, &mut search);
    assert_eq!(tree.viewport.scroll_y, height - 20);
    handle_key(Key::Char('g'), &mut tree, &mut search);
    assert_eq!(tree.viewport.scroll_y, 0);
    assert_eq!(handle_key(Key::Other, &mut tree, &mut search), Action::Continue);
    assert_eq!(handle_key(Key::Char('x'), &mut tree, &mut search), Action::Continue);
    assert_eq!(tree.viewport.scroll_y, 0);
}

#[test]
fn quit_keys() {
    let mut tree = long_tree();
    let mut search = SearchState::new();
    assert_eq!(handle_key(Key::Char('q'), &mut tree, &mut search), Action::Quit);
    assert_eq!(handle_key(Key::Esc, &mut tree, &mut search), Action::Quit);
    assert_eq!(handle_key(Key::Enter, &mut tree, &mut search), Action::Continue);
}

#[test]
fn heading_and_match_jumps() {
    let mut tree = long_tree();
    let mut search = SearchState::new();
    // Headings stand at rows 2, 8, 14, ...
    handle_key(Key::Char('n'), &mut tree, &mut search);
    assert_eq!(tree.viewport.scroll_y, 2);
    handle_key(Key::Char('n'), &mut tree, &mut search);
    assert_eq!(tree.viewport.scroll_y, 8);
    handle_key(Key::Char('p'), &mut tree, &mut search);
    assert_eq!(tree.viewport.scroll_y, 2);
    handle_key(Key::Char('N'), &mut tree, &mut search);
    assert_eq!(tree.viewport.scroll_y, 2);

    search.needle = "needle".to_string();
    search.execute_search(&tree.root);
    assert_eq!(search.match_count(), 30);
    // Matches stand at rows 4, 10, 16, ...; the view goes five rows above.
    handle_key(Key::Char('n'), &mut tree, &mut search);
    assert_eq!(search.current_index, Some(1));
    assert_eq!(tree.viewport.scroll_y, 5);
    handle_key(Key::Char('N'), &mut tree, &mut search);
    assert_eq!(search.current_index, Some(0));
    assert_eq!(tree.viewport.scroll_y, 0);
    handle_key(Key::Char('N'), &mut tree, &mut search);
    assert_eq!(search.current_index, Some(29));
    assert_eq!(tree.viewport.scroll_y, tree.document_height() - 20);
}

#[test]
fn mouse_wheel_scrolls_three_rows() {
    let mut tree = long_tree();
    assert!(handle_mouse(Mouse::ScrollDown, &mut tree));
    assert_eq!(tree.viewport.scroll_y, 3);
    assert!(handle_mouse(Mouse::ScrollUp, &mut tree));
    assert!(handle_mouse(Mouse::ScrollUp, &mut tree));
    assert_eq!(tree.viewport.scroll_y, 0);
    assert!(!handle_mouse(Mouse::Other, &mut tree));
}

#[test]
fn search_input_takes_keys_until_it_is_left() {
    let mut session = Session::new(long_tree());
    assert_eq!(session.on_key(Key::Char('/'), true), Command::Redraw);
    assert!(session.search.active);
    // In the input, letters are text, not commands.
    assert_eq!(session.on_key(Key::Char('q'), true), Command::Redraw);
    assert_eq!(session.search.needle, "q");
    assert_eq!(session.search.match_count(), 0);
    assert_eq!(session.on_key(Key::Backspace, true), Command::Redraw);
    assert_eq!(session.on_key(Key::Up, true), Command::Idle);
    // A match lies within one segment, and every word is a segment.
    for c in "number 7".chars() {
        session.on_key(Key::Char(c), true);
    }
    assert_eq!(session.search.match_count(), 0);
    for _ in 0..8 {
        session.on_key(Key::Backspace, true);
    }
    for c in "29".chars() {
        session.on_key(Key::Char(c), true);
    }
    // In the heading at row 176 and in the paragraph at row 178.
    assert_eq!(session.search.match_count(), 2);
    assert_eq!(session.search.current_index, Some(0));
    assert_eq!(session.tree.viewport.scroll_y, 159);
    session.tree.viewport.scroll_to(0);
    assert_eq!(session.on_key(Key::Enter, true), Command::Redraw);
    assert_eq!(session.tree.viewport.scroll_y, 159);
    assert!(!session.search.active);
    assert_eq!(session.search.needle, "29");
    // Esc clears the results before it would quit.
    assert_eq!(session.on_key(Key::Esc, true), Command::Redraw);
    assert_eq!(session.search.match_count(), 0);
    assert_eq!(session.search.needle, "");
    assert_eq!(session.on_key(Key::Esc, true), Command::Quit);
}

#[test]
fn escape_in_the_search_input_clears_the_search() {
    let mut session = Session::new(long_tree());
    session.on_key(Key::Char('/'), false);
    session.on_key(Key::Char('n'), false);
    assert!(session.search.match_count() > 0);
    assert_eq!(session.on_key(Key::Esc, false), Command::Redraw);
    assert!(!session.search.active);
    assert_eq!(session.search.match_count(), 0);
}

#[test]
fn help_mouse_and_reload_keys() {
    let mut session = Session::new(long_tree());
    assert_eq!(session.on_key(Key::Char('h'), true), Command::Redraw);
    assert!(session.show_help);
    // While the help is open other keys are ignored.
    assert_eq!(session.on_key(Key::Char('j'), true), Command::Idle);
    assert_eq!(session.on_key(Key::Char('q'), true), Command::Idle);
    assert_eq!(session.tree.viewport.scroll_y, 0);
    assert_eq!(session.on_mouse(Mouse::ScrollDown), Command::Idle);
    assert_eq!(session.on_key(Key::Esc, true), Command::Redraw);
    assert!(!session.show_help);

    assert_eq!(session.on_mouse(Mouse::ScrollDown), Command::Idle);
    assert_eq!(session.on_key(Key::Char('m'), true), Command::CaptureMouse(true));
    assert!(session.mouse_enabled);
    assert_eq!(session.on_mouse(Mouse::ScrollDown), Command::Redraw);
    assert_eq!(session.tree.viewport.scroll_y, 3);
    assert_eq!(session.on_mouse(Mouse::Other), Command::Idle);
    assert_eq!(session.on_key(Key::Char('m'), true), Command::CaptureMouse(false));

    assert_eq!(session.on_key(Key::Char('r'), true), Command::Reload);
    // Without a file to read, `r` is just another key.
    assert_eq!(session.on_key(Key::Char('r'), false), Command::Redraw);
    assert_eq!(session.on_key(Key::Char('q'), true), Command::Quit);
}

#[test]
fn resize_and_reload_lay_out_anew() {
    let theme = Theme::builtin("docs").unwrap();
    let mut session = Session::new(long_tree());
    session.tree.viewport.scroll_to(100);
    let doc = parse_markdown("# One\n\n![pic](p.png)\n\ntext");
    assert_eq!(session.reload(&doc, &theme, false, false), Command::Redraw);
    assert_eq!(session.tree.root.children.len(), 3);
    assert_eq!(session.tree.images.len(), 1);
    assert_eq!(session.tree.viewport.height, 20);
    // The new document is shorter than the view: scrolled to the top.
    assert_eq!(session.tree.viewport.scroll_y, 0);
    session.reload(&doc, &theme, false, true);
    assert_eq!(session.tree.images.len(), 0);

    assert_eq!(session.on_resize(&doc, &theme, 40, 11, false), Command::Redraw);
    assert_eq!(session.tree.viewport, Viewport::new(40, 10));
    assert_eq!(session.tree.root.rect.width, 40);
    session.on_resize(&doc, &theme, 40, 0, false);
    assert_eq!(session.tree.viewport.height, 0);
}

#[test]
fn scrolling_keys_bring_the_viewport_back_into_the_document() {
    let keys = [
        Key::Char('j'),
        Key::Down,
        Key::Char('k'),
        Key::Up,
        Key::Char('d'),
        Key::Char('u'),
        Key::PageDown,
        Key::Char(' '),
        Key::PageUp,
        Key::Home,
        Key::Char('g'),
        Key::End,
        Key::Char('G'),
    ];
    for key in keys {
        let mut tree = long_tree();
        let mut search = SearchState::new();
        let last = tree.document_height() - 20;
        tree.viewport.scroll_to(5000);
        handle_key(key, &mut tree, &mut search);
        assert!(tree.viewport.scroll_y <= last);
    }
    let doc = parse_markdown("short");
    let theme = Theme::builtin("docs").unwrap();
    let mut tree = layout_document(&doc, &theme, Viewport::new(80, 20), false);
    let mut search = SearchState::new();
    for key in keys {
        handle_key(key, &mut tree, &mut search);
        assert_eq!(tree.viewport.scroll_y, 0);
    }
    handle_mouse(Mouse::ScrollDown, &mut tree);
    assert_eq!(tree.viewport.scroll_y, 0);
}
