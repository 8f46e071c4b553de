//! The viewer's decisions: what a key press, a mouse event or a resize does
//! to the state of a viewing session. The terminal is outside: whoever
//! runs the session reads the events, hands them in, and carries out the
//! command that comes back.

use crate::ir::Document;
use crate::layout::engine::place_document;
use crate::layout::types::{clamp, max_scroll, Viewport};
use crate::layout::{
    has_row, heading_rows, jump_to_next_heading, layout_document, nearest_row, LayoutTree,
};
use crate::layout::text::sat_sub;
use crate::search::{matches_view, search_results, SearchState};
use crate::theme::Theme;
use vstd::prelude::*;

verus! {

/// Rows kept above a search match that is scrolled to.
pub const MATCH_CONTEXT_ROWS: u16 = 5;

/// Rows that one turn of the mouse wheel scrolls.
pub const WHEEL_ROWS: i16 = 3;

/// A key press.
#[derive(Debug, Clone, Copy, PartialEq, Eq, Structural)]
pub enum Key {
    Char(char),
    Esc,
    Enter,
    Backspace,
    Up,
    Down,
    PageUp,
    PageDown,
    Home,
    End,
    /// Any other key.
    Other,
}

/// A mouse event.
#[derive(Debug, Clone, Copy, PartialEq, Eq, Structural)]
pub enum Mouse {
    ScrollDown,
    ScrollUp,
    /// Any other mouse event.
    Other,
}

/// What a key asks the viewer to do next.
#[derive(Debug, Clone, Copy, PartialEq, Eq, Structural)]
pub enum Action {
    Quit,
    Continue,
}

/// What the one who runs the session is to do after an event.
#[derive(Debug, Clone, Copy, PartialEq, Eq, Structural)]
pub enum Command {
    /// Nothing.
    Idle,
    /// Draw the session again.
    Redraw,
    /// End the session.
    Quit,
    /// Turn mouse capture on or off, then draw again.
    CaptureMouse(bool),
    /// Read the file again, hand it to [`Session::reload`], then draw again.
    Reload,
}

/// Rows of a page, as a scroll distance.
pub open spec fn page_rows(height: u16) -> int {
    if height > i16::MAX {
        i16::MAX as int
    } else {
        height as int
    }
}

/// The viewport scrolled by `delta` rows within a document of `doc_height`
/// rows.
pub open spec fn scrolled_by(v: Viewport, delta: int, doc_height: u16) -> Viewport {
    Viewport {
        scroll_y: clamp(v.scroll_y + delta, 0, max_scroll(doc_height, v.height)) as u16,
        ..v
    }
}

/// The viewport scrolled to row `y`, not past the end of a document of
/// `doc_height` rows.
pub open spec fn scrolled_to(v: Viewport, y: u16, doc_height: u16) -> Viewport {
    Viewport { scroll_y: clamp(y as int, 0, max_scroll(doc_height, v.height)) as u16, ..v }
}

/// Where a key that only scrolls leaves the viewport; `None` for any other
/// key.
pub open spec fn key_motion(key: Key, v: Viewport, doc_height: u16) -> Option<Viewport> {
    match key {
        Key::Char('j') => Some(scrolled_by(v, 1, doc_height)),
        Key::Down => Some(scrolled_by(v, 1, doc_height)),
        Key::Char('k') => Some(scrolled_by(v, -1, doc_height)),
        Key::Up => Some(scrolled_by(v, -1, doc_height)),
        Key::Char('d') => Some(scrolled_by(v, (v.height / 2) as int, doc_height)),
        Key::Char('u') => Some(scrolled_by(v, -((v.height / 2) as int), doc_height)),
        Key::PageDown => Some(scrolled_by(v, page_rows(v.height), doc_height)),
        Key::Char(' ') => Some(scrolled_by(v, page_rows(v.height), doc_height)),
        Key::PageUp => Some(scrolled_by(v, -page_rows(v.height), doc_height)),
        Key::Home => Some(Viewport { scroll_y: 0, ..v }),
        Key::Char('g') => Some(Viewport { scroll_y: 0, ..v }),
        Key::End => Some(scrolled_to(v, doc_height, doc_height)),
        Key::Char('G') => Some(scrolled_to(v, doc_height, doc_height)),
        _ => None,
    }
}

/// Whether a key ends the session when it reaches [`handle_key`].
pub open spec fn quits(key: Key) -> bool {
    key == Key::Char('q') || key == Key::Esc
}

/// Whether a key moves through search matches or headings.
pub open spec fn jumps(key: Key) -> bool {
    key == Key::Char('n') || key == Key::Char('N') || key == Key::Char('p')
}

/// Where the viewport stands once the selected match of `search`, if one is
/// selected, is scrolled to: five rows above the match, not past the end of
/// the document.
pub open spec fn at_match(v: Viewport, search: SearchState, doc_height: u16) -> Viewport {
    match search.current_index {
        Some(i) => if i < search.matches@.len() {
            scrolled_to(v, sat_sub(search.matches@[i as int].y, MATCH_CONTEXT_ROWS), doc_height)
        } else {
            v
        },
        None => v,
    }
}

/// Scrolls to the selected match of `search`, if one is selected.
fn scroll_to_match(tree: &mut LayoutTree, search: &SearchState)
    ensures
        final(tree).viewport == at_match(old(tree).viewport, *search, old(tree).root.rect.height),
        final(tree).root == old(tree).root,
        final(tree).hit_regions == old(tree).hit_regions,
        final(tree).images == old(tree).images,
{
    let doc_height = tree.document_height();
    match search.current_match() {
        Some(m) => {
            let row = m.y.saturating_sub(MATCH_CONTEXT_ROWS);
            tree.viewport.scroll_to_clamped(row, doc_height);
        },
        None => {},
    }
}

/// Rows of a page, as a scroll distance.
fn page_distance(height: u16) -> (rows: i16)
    ensures
        rows == page_rows(height),
{
    if height > i16::MAX as u16 {
        i16::MAX
    } else {
        height as i16
    }
}

/// What [`handle_key`] does to the viewport and the search: a key that
/// only scrolls leaves the viewport where [`key_motion`] says; `n` and `N`
/// select the next and the previous match and scroll to it; `p`, and `n`
/// without matches, jump to a heading; any other key changes nothing.
pub open spec fn navigated(
    key: Key,
    before: Viewport,
    after: Viewport,
    search_before: SearchState,
    search_after: SearchState,
    rows: Seq<u16>,
    doc_height: u16,
) -> bool {
    let count = search_before.matches@.len();
    &&& search_after.needle == search_before.needle
    &&& search_after.matches == search_before.matches
    &&& search_after.active == search_before.active
    &&& key_motion(key, before, doc_height) matches Some(v) ==> after == v
        && search_after.current_index == search_before.current_index
    &&& key_motion(key, before, doc_height) is None && !jumps(key) ==> after == before
        && search_after.current_index == search_before.current_index
    &&& key == Key::Char('n') && count > 0 ==> search_after.current_index == Some(
        match search_before.current_index {
            Some(i) => ((i + 1) % (count as int)) as usize,
            None => 0usize,
        },
    ) && after == at_match(before, search_after, doc_height)
    &&& key == Key::Char('N') && count > 0 ==> search_after.current_index == Some(
        match search_before.current_index {
            Some(i) => if i == 0 {
                (count - 1) as usize
            } else {
                (i - 1) as usize
            },
            None => (count - 1) as usize,
        },
    ) && after == at_match(before, search_after, doc_height)
    &&& key == Key::Char('N') && count == 0 ==> after == before && search_after.current_index
        == search_before.current_index
    &&& (key == Key::Char('p') || (key == Key::Char('n') && count == 0))
        ==> search_after.current_index == search_before.current_index && heading_jump(
        before,
        after,
        rows,
        key == Key::Char('n'),
        doc_height,
    )
}

/// What a key does while neither the search input nor the help is open:
/// `q` and Esc quit; `j`, `k`, the arrows, `d`, `u`, Space and the page keys
/// scroll; `g` and Home go to the top, `G` and End to the end; `n` and `N`
/// go to the next and the previous search match, `n` without matches to
/// the next heading, `p` to the previous heading.
pub fn handle_key(key: Key, tree: &mut LayoutTree, search_state: &mut SearchState) -> (action: Action)
    ensures
        action == if quits(key) {
            Action::Quit
        } else {
            Action::Continue
        },
        final(tree).root == old(tree).root,
        final(tree).hit_regions == old(tree).hit_regions,
        final(tree).images == old(tree).images,
        navigated(
            key,
            old(tree).viewport,
            final(tree).viewport,
            *old(search_state),
            *final(search_state),
            heading_rows(old(tree).root@),
            old(tree).root.rect.height,
        ),
{
    let doc_height = tree.document_height();
    let height = tree.viewport.height;
    match key {
        Key::Char(c) => {
            if c == 'q' {
                Action::Quit
            } else if c == 'j' {
                tree.viewport.scroll_by_clamped(1, doc_height);
                Action::Continue
            } else if c == 'k' {
                tree.viewport.scroll_by_clamped(-1, doc_height);
                Action::Continue
            } else if c == 'd' {
                tree.viewport.scroll_by_clamped((height / 2) as i16, doc_height);
                Action::Continue
            } else if c == 'u' {
                tree.viewport.scroll_by_clamped(-((height / 2) as i16), doc_height);
                Action::Continue
            } else if c == ' ' {
                tree.viewport.scroll_by_clamped(page_distance(height), doc_height);
                Action::Continue
            } else if c == 'g' {
                tree.viewport.scroll_to(0);
                Action::Continue
            } else if c == 'G' {
                tree.viewport.scroll_to_clamped(doc_height, doc_height);
                Action::Continue
            } else if c == 'n' {
                if search_state.matches.len() > 0 {
                    search_state.next_match();
                    scroll_to_match(tree, search_state);
                } else {
                    jump_to_next_heading(tree, true);
                }
                Action::Continue
            } else if c == 'N' {
                if search_state.matches.len() > 0 {
                    search_state.prev_match();
                    scroll_to_match(tree, search_state);
                }
                Action::Continue
            } else if c == 'p' {
                jump_to_next_heading(tree, false);
                Action::Continue
            } else {
                Action::Continue
            }
        },
        Key::Esc => Action::Quit,
        Key::Down => {
            tree.viewport.scroll_by_clamped(1, doc_height);
            Action::Continue
        },
        Key::Up => {
            tree.viewport.scroll_by_clamped(-1, doc_height);
            Action::Continue
        },
        Key::PageDown => {
            tree.viewport.scroll_by_clamped(page_distance(height), doc_height);
            Action::Continue
        },
        Key::PageUp => {
            tree.viewport.scroll_by_clamped(-page_distance(height), doc_height);
            Action::Continue
        },
        Key::Home => {
            tree.viewport.scroll_to(0);
            Action::Continue
        },
        Key::End => {
            tree.viewport.scroll_to_clamped(doc_height, doc_height);
            Action::Continue
        },
        _ => Action::Continue,
    }
}

/// Whether `after` is `before` after a jump to the nearest heading among
/// `rows` in the direction asked for: scrolled to it, not past the end of
/// the document, or unchanged where no heading lies there.
pub open spec fn heading_jump(
    before: Viewport,
    after: Viewport,
    rows: Seq<u16>,
    forward: bool,
    doc_height: u16,
) -> bool {
    if has_row(rows, before.scroll_y, forward) {
        exists|target: u16| #[trigger]
            nearest_row(rows, before.scroll_y, forward, target) && after == scrolled_to(
                before,
                target,
                doc_height,
            )
    } else {
        after == before
    }
}

/// What a mouse event does: the wheel scrolls three rows. Returns whether
/// anything may have changed.
pub fn handle_mouse(mouse: Mouse, tree: &mut LayoutTree) -> (changed: bool)
    ensures
        changed == (mouse != Mouse::Other),
        final(tree).root == old(tree).root,
        final(tree).hit_regions == old(tree).hit_regions,
        final(tree).images == old(tree).images,
        final(tree).viewport == match mouse {
            Mouse::ScrollDown => scrolled_by(
                old(tree).viewport,
                WHEEL_ROWS as int,
                old(tree).root.rect.height,
            ),
            Mouse::ScrollUp => scrolled_by(
                old(tree).viewport,
                -(WHEEL_ROWS as int),
                old(tree).root.rect.height,
            ),
            Mouse::Other => old(tree).viewport,
        },
{
    let doc_height = tree.document_height();
    match mouse {
        Mouse::ScrollDown => {
            tree.viewport.scroll_by_clamped(WHEEL_ROWS, doc_height);
            true
        },
        Mouse::ScrollUp => {
            tree.viewport.scroll_by_clamped(-WHEEL_ROWS, doc_height);
            true
        },
        Mouse::Other => false,
    }
}

/// Whether the viewport stands within a document of `doc_height` rows: not
/// scrolled past the row from which the document's end is still shown.
pub open spec fn in_document(v: Viewport, doc_height: u16) -> bool {
    0 <= v.scroll_y <= max_scroll(doc_height, v.height)
}

/// Scrolling by rows or to a row leaves the viewport within the document,
/// wherever it stood before.
pub proof fn lemma_scrolling_stays_in_document(v: Viewport, delta: int, y: u16, doc_height: u16)
    ensures
        in_document(scrolled_by(v, delta, doc_height), doc_height),
        in_document(scrolled_to(v, y, doc_height), doc_height),
{
}

/// Navigation keeps the viewport within the document: a key that scrolls
/// leaves it there wherever it stood before, and no other key takes it out.
pub proof fn lemma_navigation_stays_in_document(
    key: Key,
    before: Viewport,
    after: Viewport,
    search_before: SearchState,
    search_after: SearchState,
    rows: Seq<u16>,
    doc_height: u16,
)
    requires
        navigated(key, before, after, search_before, search_after, rows, doc_height),
    ensures
        key_motion(key, before, doc_height) is Some ==> in_document(after, doc_height),
        in_document(before, doc_height) ==> in_document(after, doc_height),
{
}

/// A viewing session: the tree that is shown, the search, and what is
/// switched on.
#[derive(Debug)]
pub struct Session {
    pub tree: LayoutTree,
    pub search: SearchState,
    pub show_help: bool,
    pub mouse_enabled: bool,
}

/// What happens to a key in a session.
#[derive(Debug, Clone, Copy, PartialEq, Eq, Structural)]
pub enum Route {
    /// The search input takes it.
    SearchInput,
    /// Esc clears the search results.
    ClearSearch,
    /// `/` opens the search input.
    OpenSearch,
    /// `h` opens or closes the help.
    ToggleHelp,
    /// `m` turns mouse mode on or off.
    ToggleMouse,
    /// `r` reloads the file.
    Reload,
    /// Esc closes the help.
    CloseHelp,
    /// The key moves through the document or quits.
    Navigate,
    /// The help is open and ignores the key.
    Ignored,
}

/// Which way a key goes, first rule first: to the search input while that
/// has the focus; Esc clears search results; `/`, `h`, `m` and, with a file
/// to read, `r` act at once; Esc closes the help; while the help is open
/// any other key is ignored; else the key navigates.
pub open spec fn route(
    key: Key,
    search_active: bool,
    has_matches: bool,
    show_help: bool,
    can_reload: bool,
) -> Route {
    if search_active {
        Route::SearchInput
    } else if key == Key::Esc && has_matches {
        Route::ClearSearch
    } else if key == Key::Char('/') {
        Route::OpenSearch
    } else if key == Key::Char('h') {
        Route::ToggleHelp
    } else if key == Key::Char('m') {
        Route::ToggleMouse
    } else if key == Key::Char('r') && can_reload {
        Route::Reload
    } else if show_help && key == Key::Esc {
        Route::CloseHelp
    } else if !show_help {
        Route::Navigate
    } else {
        Route::Ignored
    }
}

/// What a key does while the search input has the focus: Esc clears the
/// search and leaves it; Enter, Backspace and characters edit the query,
/// search the tree below `root` for it, select the first match and scroll
/// to it, and Enter leaves the input; any other key changes nothing.
pub open spec fn search_edited(
    key: Key,
    root: crate::layout::types::NodeView,
    doc_height: u16,
    before: Viewport,
    after: Viewport,
    search_before: SearchState,
    search_after: SearchState,
) -> bool {
    match key {
        Key::Esc => search_after.is_cleared() && !search_after.active && after == before,
        Key::Enter | Key::Backspace | Key::Char(_) => {
            &&& search_after.needle@ == match key {
                Key::Char(c) => search_before.needle@.push(c),
                Key::Backspace => if search_before.needle@.len() > 0 {
                    search_before.needle@.drop_last()
                } else {
                    search_before.needle@
                },
                _ => search_before.needle@,
            }
            &&& search_after.active == (search_before.active && !(key is Enter))
            &&& matches_view(search_after.matches@) == search_results(root, search_after.needle@)
            &&& search_after.current_index == if search_after.matches@.len() > 0 {
                Some(0usize)
            } else {
                None
            }
            &&& after == at_match(before, search_after, doc_height)
        },
        _ => search_after == search_before && after == before,
    }
}

/// Whether a key changes anything while the search input has the focus.
pub open spec fn edits_search(key: Key) -> bool {
    key is Esc || key is Enter || key is Backspace || key is Char
}

impl Session {
    /// A session that shows `tree`, with nothing searched and nothing
    /// switched on.
    pub fn new(tree: LayoutTree) -> (s: Session)
        ensures
            s.tree == tree,
            s.search.is_cleared(),
            !s.search.active,
            !s.show_help,
            !s.mouse_enabled,
    {
        Session { tree, search: SearchState::new(), show_help: false, mouse_enabled: false }
    }

    /// Which way `key` goes now.
    pub fn route_of(&self, key: Key, can_reload: bool) -> (r: Route)
        ensures
            r == route(
                key,
                self.search.active,
                self.search.matches@.len() > 0,
                self.show_help,
                can_reload,
            ),
    {
        let is_esc = match key {
            Key::Esc => true,
            _ => false,
        };
        let letter = match key {
            Key::Char(c) => Some(c),
            _ => None,
        };
        if self.search.active {
            Route::SearchInput
        } else if is_esc && self.search.matches.len() > 0 {
            Route::ClearSearch
        } else if letter == Some('/') {
            Route::OpenSearch
        } else if letter == Some('h') {
            Route::ToggleHelp
        } else if letter == Some('m') {
            Route::ToggleMouse
        } else if letter == Some('r') && can_reload {
            Route::Reload
        } else if self.show_help && is_esc {
            Route::CloseHelp
        } else if !self.show_help {
            Route::Navigate
        } else {
            Route::Ignored
        }
    }

    /// Searches for the query again and scrolls to the first match.
    fn search_again(&mut self)
        ensures
            matches_view(final(self).search.matches@) == search_results(
                old(self).tree.root@,
                old(self).search.needle@,
            ),
            final(self).search.needle == old(self).search.needle,
            final(self).search.active == old(self).search.active,
            final(self).search.current_index == if final(self).search.matches@.len() > 0 {
                Some(0usize)
            } else {
                None
            },
            final(self).tree.viewport == at_match(
                old(self).tree.viewport,
                final(self).search,
                old(self).tree.root.rect.height,
            ),
            final(self).tree.root == old(self).tree.root,
            final(self).tree.hit_regions == old(self).tree.hit_regions,
            final(self).tree.images == old(self).tree.images,
            final(self).show_help == old(self).show_help,
            final(self).mouse_enabled == old(self).mouse_enabled,
    {
        self.search.execute_search(&self.tree.root);
        scroll_to_match(&mut self.tree, &self.search);
    }

    /// A key while the search input has the focus: Esc leaves the search
    /// and clears it; Enter searches and leaves the input; Backspace and
    /// characters edit the query and search at once. Returns whether
    /// anything may have changed.
    pub fn search_key(&mut self, key: Key) -> (changed: bool)
        ensures
            final(self).tree.root == old(self).tree.root,
            final(self).tree.hit_regions == old(self).tree.hit_regions,
            final(self).tree.images == old(self).tree.images,
            final(self).show_help == old(self).show_help,
            final(self).mouse_enabled == old(self).mouse_enabled,
            changed == edits_search(key),
            search_edited(
                key,
                old(self).tree.root@,
                old(self).tree.root.rect.height,
                old(self).tree.viewport,
                final(self).tree.viewport,
                old(self).search,
                final(self).search,
            ),
    {
        match key {
            Key::Esc => {
                self.search.deactivate();
                true
            },
            Key::Enter => {
                self.search_again();
                self.search.accept();
                true
            },
            Key::Backspace => {
                self.search.backspace();
                self.search_again();
                true
            },
            Key::Char(c) => {
                self.search.add_char(c);
                self.search_again();
                true
            },
            _ => false,
        }
    }

    /// What a key press does to the session, and what is to be done next.
    pub fn on_key(&mut self, key: Key, can_reload: bool) -> (command: Command)
        ensures
            final(self).tree.root == old(self).tree.root,
            final(self).tree.hit_regions == old(self).tree.hit_regions,
            final(self).tree.images == old(self).tree.images,
            match route(
                key,
                old(self).search.active,
                old(self).search.matches@.len() > 0,
                old(self).show_help,
                can_reload,
            ) {
                Route::SearchInput => {
                    &&& command == if edits_search(key) {
                        Command::Redraw
                    } else {
                        Command::Idle
                    }
                    &&& search_edited(
                        key,
                        old(self).tree.root@,
                        old(self).tree.root.rect.height,
                        old(self).tree.viewport,
                        final(self).tree.viewport,
                        old(self).search,
                        final(self).search,
                    )
                    &&& final(self).show_help == old(self).show_help
                    &&& final(self).mouse_enabled == old(self).mouse_enabled
                },
                Route::ClearSearch => {
                    &&& command == Command::Redraw
                    &&& final(self).search.is_cleared()
                    &&& !final(self).search.active
                    &&& final(self).tree.viewport == old(self).tree.viewport
                    &&& final(self).show_help == old(self).show_help
                    &&& final(self).mouse_enabled == old(self).mouse_enabled
                },
                Route::OpenSearch => {
                    &&& command == Command::Redraw
                    &&& final(self).search.is_cleared()
                    &&& final(self).search.active
                    &&& final(self).tree.viewport == old(self).tree.viewport
                    &&& final(self).show_help == old(self).show_help
                    &&& final(self).mouse_enabled == old(self).mouse_enabled
                },
                Route::ToggleHelp => {
                    &&& command == Command::Redraw
                    &&& final(self).show_help == !old(self).show_help
                    &&& final(self).search == old(self).search
                    &&& final(self).tree.viewport == old(self).tree.viewport
                    &&& final(self).mouse_enabled == old(self).mouse_enabled
                },
                Route::ToggleMouse => {
                    &&& command == Command::CaptureMouse(!old(self).mouse_enabled)
                    &&& final(self).mouse_enabled == !old(self).mouse_enabled
                    &&& final(self).search == old(self).search
                    &&& final(self).tree.viewport == old(self).tree.viewport
                    &&& final(self).show_help == old(self).show_help
                },
                Route::Reload => {
                    &&& command == Command::Reload
                    &&& *final(self) == *old(self)
                },
                Route::CloseHelp => {
                    &&& command == Command::Redraw
                    &&& !final(self).show_help
                    &&& final(self).search == old(self).search
                    &&& final(self).tree.viewport == old(self).tree.viewport
                    &&& final(self).mouse_enabled == old(self).mouse_enabled
                },
                Route::Navigate => {
                    &&& command == if quits(key) {
                        Command::Quit
                    } else {
                        Command::Redraw
                    }
                    &&& navigated(
                        key,
                        old(self).tree.viewport,
                        final(self).tree.viewport,
                        old(self).search,
                        final(self).search,
                        heading_rows(old(self).tree.root@),
                        old(self).tree.root.rect.height,
                    )
                    &&& final(self).show_help == old(self).show_help
                    &&& final(self).mouse_enabled == old(self).mouse_enabled
                },
                Route::Ignored => {
                    &&& command == Command::Idle
                    &&& *final(self) == *old(self)
                },
            },
    {
        match self.route_of(key, can_reload) {
            Route::SearchInput => {
                if self.search_key(key) {
                    Command::Redraw
                } else {
                    Command::Idle
                }
            },
            Route::ClearSearch => {
                self.search.deactivate();
                Command::Redraw
            },
            Route::OpenSearch => {
                self.search.activate();
                Command::Redraw
            },
            Route::ToggleHelp => {
                self.show_help = !self.show_help;
                Command::Redraw
            },
            Route::ToggleMouse => {
                self.mouse_enabled = !self.mouse_enabled;
                Command::CaptureMouse(self.mouse_enabled)
            },
            Route::Reload => Command::Reload,
            Route::CloseHelp => {
                self.show_help = false;
                Command::Redraw
            },
            Route::Navigate => {
                match handle_key(key, &mut self.tree, &mut self.search) {
                    Action::Quit => Command::Quit,
                    Action::Continue => Command::Redraw,
                }
            },
            Route::Ignored => Command::Idle,
        }
    }

    /// What a mouse event does to the session: while mouse mode is on and
    /// the help is closed, the wheel scrolls.
    pub fn on_mouse(&mut self, mouse: Mouse) -> (command: Command)
        ensures
            final(self).search == old(self).search,
            final(self).show_help == old(self).show_help,
            final(self).mouse_enabled == old(self).mouse_enabled,
            final(self).tree.root == old(self).tree.root,
            final(self).tree.hit_regions == old(self).tree.hit_regions,
            final(self).tree.images == old(self).tree.images,
            if !old(self).show_help && old(self).mouse_enabled && mouse != Mouse::Other {
                &&& command == Command::Redraw
                &&& final(self).tree.viewport == scrolled_by(
                    old(self).tree.viewport,
                    if mouse == Mouse::ScrollDown {
                        WHEEL_ROWS as int
                    } else {
                        -(WHEEL_ROWS as int)
                    },
                    old(self).tree.root.rect.height,
                )
            } else {
                &&& command == Command::Idle
                &&& final(self).tree.viewport == old(self).tree.viewport
            },
    {
        if !self.show_help && self.mouse_enabled {
            if handle_mouse(mouse, &mut self.tree) {
                return Command::Redraw;
            }
        }
        Command::Idle
    }

    /// Lays `document` out anew for a terminal of `width` by `height`
    /// cells, the last row of which holds the status bar. The new layout
    /// starts at the top.
    pub fn on_resize(
        &mut self,
        document: &Document,
        theme: &Theme,
        width: u16,
        height: u16,
        inline_images: bool,
    ) -> (command: Command)
        ensures
            command == Command::Redraw,
            final(self).tree@ == place_document(
                document@,
                *theme,
                Viewport { width, height: sat_sub(height, 1), scroll_x: 0, scroll_y: 0 },
                inline_images,
            ),
            final(self).search == old(self).search,
            final(self).show_help == old(self).show_help,
            final(self).mouse_enabled == old(self).mouse_enabled,
    {
        let viewport = Viewport::new(width, height.saturating_sub(1));
        self.tree = layout_document(document, theme, viewport, inline_images);
        Command::Redraw
    }

    /// Shows `document` in place of what was shown, in the same viewport
    /// and, as far as the new document reaches, at the same scroll
    /// position. With `no_images` the layout holds no image references.
    pub fn reload(
        &mut self,
        document: &Document,
        theme: &Theme,
        inline_images: bool,
        no_images: bool,
    ) -> (command: Command)
        ensures
            command == Command::Redraw,
            final(self).search == old(self).search,
            final(self).show_help == old(self).show_help,
            final(self).mouse_enabled == old(self).mouse_enabled,
            ({
                let fresh = place_document(
                    document@,
                    *theme,
                    Viewport { scroll_x: 0, scroll_y: 0, ..old(self).tree.viewport },
                    inline_images,
                );
                &&& final(self).tree@.root == fresh.root
                &&& final(self).tree@.hit_regions == fresh.hit_regions
                &&& final(self).tree@.images == if no_images {
                    Seq::empty()
                } else {
                    fresh.images
                }
                &&& final(self).tree.viewport == scrolled_to(
                    fresh.viewport,
                    old(self).tree.viewport.scroll_y,
                    fresh.root.rect.height,
                )
            }),
    {
        let old_scroll = self.tree.viewport.scroll_y;
        let viewport = Viewport::new(self.tree.viewport.width, self.tree.viewport.height);
        let mut tree = layout_document(document, theme, viewport, inline_images);
        if no_images {
            tree.images.clear();
        }
        let doc_height = tree.document_height();
        tree.viewport.scroll_to_clamped(old_scroll, doc_height);
        self.tree = tree;
        Command::Redraw
    }
}

} // verus!
