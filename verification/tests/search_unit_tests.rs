use lumen::search::{search_text, SearchMatch, SearchState};

#[test]
fn test_search_state_navigation() {
    let mut state = SearchState::new();
    state.needle = "test".to_string();
    state.matches = vec![
        SearchMatch { y: 0, x: 0, length: 4, text: "test".to_string() },
        SearchMatch { y: 5, x: 10, length: 4, text: "test".to_string() },
        SearchMatch { y: 10, x: 20, length: 4, text: "test".to_string() },
    ];

    state.current_index = Some(0);
    state.next_match();
    assert_eq!(state.current_index, Some(1));

    state.next_match();
    assert_eq!(state.current_index, Some(2));

    state.next_match(); // Wrap around
    assert_eq!(state.current_index, Some(0));

    state.prev_match();
    assert_eq!(state.current_index, Some(2));
}

#[test]
fn test_search_text() {
    let mut matches = Vec::new();
    search_text("Hello world, hello universe", "hello", 0, 0, &mut matches);

    assert_eq!(matches.len(), 2);
    assert_eq!(matches[0].x, 0);
    assert_eq!(matches[1].x, 13);
}

#[test]
fn overlapping_matches_are_all_found() {
    let mut matches = Vec::new();
    search_text("aaaa", "aa", 3, 9, &mut matches);
    assert_eq!(matches.len(), 3);
    assert_eq!(
        matches,
        vec![
            SearchMatch { y: 9, x: 3, length: 2, text: "aa".to_string() },
            SearchMatch { y: 9, x: 4, length: 2, text: "aa".to_string() },
            SearchMatch { y: 9, x: 5, length: 2, text: "aa".to_string() },
        ]
    );
}

#[test]
fn match_keeps_the_text_as_written() {
    let mut matches = Vec::new();
    search_text("A TeSt", "test", 0, 0, &mut matches);
    assert_eq!(matches.len(), 1);
    assert_eq!(matches[0].text, "TeSt");
    assert_eq!(matches[0].x, 2);
    assert_eq!(matches[0].length, 4);
}

#[test]
fn columns_count_characters_not_bytes() {
    let mut matches = Vec::new();
    search_text("ÉÉ été", "été", 0, 0, &mut matches);
    assert_eq!(matches.len(), 1);
    assert_eq!(matches[0].x, 3);
    assert_eq!(matches[0].length, 3);
    // Uppercase text is found by a lowercase needle beyond ASCII, too.
    let mut upper = Vec::new();
    search_text("ÉTÉ", "été", 0, 0, &mut upper);
    assert_eq!(upper.len(), 1);
    assert_eq!(upper[0].text, "ÉTÉ");
}

#[test]
fn empty_needle_and_long_needle_match_nowhere() {
    let mut matches = Vec::new();
    search_text("abc", "", 0, 0, &mut matches);
    assert!(matches.is_empty());
    search_text("abc", "abcd", 0, 0, &mut matches);
    assert!(matches.is_empty());
    search_text("", "a", 0, 0, &mut matches);
    assert!(matches.is_empty());
}

#[test]
fn navigation_without_selection_and_without_matches() {
    let mut state = SearchState::new();
    state.next_match();
    assert_eq!(state.current_index, None);
    state.prev_match();
    assert_eq!(state.current_index, None);
    assert!(state.current_match().is_none());
    assert_eq!(state.match_count(), 0);

    state.matches = vec![
        SearchMatch { y: 0, x: 0, length: 1, text: "a".to_string() },
        SearchMatch { y: 1, x: 0, length: 1, text: "a".to_string() },
    ];
    state.next_match();
    assert_eq!(state.current_index, Some(0));
    state.current_index = None;
    state.prev_match();
    assert_eq!(state.current_index, Some(1));
    assert_eq!(state.current_match().unwrap().y, 1);
    state.prev_match();
    assert_eq!(state.current_index, Some(0));
}

#[test]
fn query_editing() {
    let mut state = SearchState::new();
    assert!(!state.active);
    state.activate();
    assert!(state.active);
    state.add_char('a');
    state.add_char('é');
    assert_eq!(state.needle, "aé");
    state.backspace();
    assert_eq!(state.needle, "a");
    state.backspace();
    state.backspace();
    assert_eq!(state.needle, "");
    state.add_char('x');
    state.accept();
    assert!(!state.active);
    assert_eq!(state.needle, "x");
    state.deactivate();
    assert_eq!(state.needle, "");
    assert!(state.matches.is_empty());
    assert_eq!(state.current_index, None);
}
