//! Search: case-insensitive substring search over the positioned text of a
//! layout tree.
//!
//! Case is ignored character by character ([`lower_char`]), so a match has
//! as many characters as the needle and stands where its first character
//! does.

use crate::layout::text::{sat_add, sub_vec};
use crate::layout::types::{
    clamp_u16, lines_view, nodes_view, strings_view, usize_to_u16, ElementView, NodeView,
    SegmentView,
};
use crate::layout::{LayoutElement, LayoutNode, Line};
use crate::text::{chars_of, lower_char, lower_seq, string_of, to_lower};
use vstd::prelude::*;

verus! {

/// Search match position in the document.
#[derive(Debug, Clone, PartialEq)]
pub struct SearchMatch {
    /// Document row.
    pub y: u16,
    /// Column of the first matched character.
    pub x: u16,
    /// Number of matched characters.
    pub length: usize,
    /// Matched text, as it stands in the document.
    pub text: String,
}

/// Model of a [`SearchMatch`].
pub struct MatchView {
    pub y: u16,
    pub x: u16,
    pub length: usize,
    pub text: Seq<char>,
}

impl View for SearchMatch {
    type V = MatchView;

    open spec fn view(&self) -> MatchView {
        MatchView { y: self.y, x: self.x, length: self.length, text: self.text@ }
    }
}

/// Models of a sequence of matches, element by element.
pub open spec fn matches_view(s: Seq<SearchMatch>) -> Seq<MatchView> {
    Seq::new(s.len(), |i: int| s[i]@)
}

/// The models of matches with one more match.
proof fn lemma_matches_view_push(s: Seq<SearchMatch>, x: SearchMatch)
    ensures
        matches_view(s.push(x)) == matches_view(s).push(x@),
{
}

/// Whether the lowercase `needle` occurs in `text` at index `i`, case
/// ignored.
pub open spec fn occurs_at(text: Seq<char>, needle: Seq<char>, i: int) -> bool {
    &&& 0 <= i
    &&& i + needle.len() <= text.len()
    &&& lower_seq(text.subrange(i, i + needle.len())) == needle
}

/// The match of `needle` at index `i` of a text that stands at `(x, y)`.
pub open spec fn match_at(text: Seq<char>, needle: Seq<char>, x: u16, y: u16, i: int) -> MatchView {
    MatchView {
        y,
        x: sat_add(x, clamp_u16(i)),
        length: needle.len() as usize,
        text: text.subrange(i, i + needle.len()),
    }
}

/// Matches of `needle` in `text` that begin before index `n`, in order.
/// Matches may overlap.
pub open spec fn matches_before(
    text: Seq<char>,
    needle: Seq<char>,
    x: u16,
    y: u16,
    n: int,
) -> Seq<MatchView>
    decreases n,
{
    if n <= 0 {
        Seq::empty()
    } else {
        let prev = matches_before(text, needle, x, y, n - 1);
        if occurs_at(text, needle, n - 1) {
            prev.push(match_at(text, needle, x, y, n - 1))
        } else {
            prev
        }
    }
}

/// All matches of the lowercase `needle` in a text that stands at `(x, y)`.
/// An empty needle matches nowhere.
pub open spec fn matches_in_text(text: Seq<char>, needle: Seq<char>, x: u16, y: u16) -> Seq<MatchView> {
    if needle.len() == 0 || needle.len() > text.len() {
        Seq::empty()
    } else {
        matches_before(text, needle, x, y, text.len() - needle.len() + 1)
    }
}

/// Matches in the first `n` segments of a line that stands at `(x, y)`, and
/// the column after these segments. A match lies within one segment.
pub open spec fn matches_in_segments(
    line: Seq<SegmentView>,
    needle: Seq<char>,
    x: u16,
    y: u16,
    n: int,
) -> (Seq<MatchView>, u16)
    decreases n,
{
    if n <= 0 || n > line.len() {
        (Seq::empty(), x)
    } else {
        let prev = matches_in_segments(line, needle, x, y, n - 1);
        (
            prev.0 + matches_in_text(line[n - 1].text, needle, prev.1, y),
            sat_add(prev.1, clamp_u16(line[n - 1].text.len() as int)),
        )
    }
}

/// Matches in a line that stands at `(x, y)`.
pub open spec fn matches_in_line(line: Seq<SegmentView>, needle: Seq<char>, x: u16, y: u16) -> Seq<
    MatchView,
> {
    matches_in_segments(line, needle, x, y, line.len() as int).0
}

/// Matches in the first `n` lines of a paragraph at `(x, y)`, one row per
/// line.
pub open spec fn matches_in_lines(
    lines: Seq<Seq<SegmentView>>,
    needle: Seq<char>,
    x: u16,
    y: u16,
    n: int,
) -> Seq<MatchView>
    decreases n,
{
    if n <= 0 || n > lines.len() {
        Seq::empty()
    } else {
        matches_in_lines(lines, needle, x, y, n - 1) + matches_in_line(
            lines[n - 1],
            needle,
            x,
            sat_add(y, clamp_u16(n - 1)),
        )
    }
}

/// Matches in the first `n` lines of a code block whose first line stands
/// at `(x, y)`.
pub open spec fn matches_in_code(
    lines: Seq<Seq<char>>,
    needle: Seq<char>,
    x: u16,
    y: u16,
    n: int,
) -> Seq<MatchView>
    decreases n,
{
    if n <= 0 || n > lines.len() {
        Seq::empty()
    } else {
        matches_in_code(lines, needle, x, y, n - 1) + matches_in_text(
            lines[n - 1],
            needle,
            x,
            sat_add(y, clamp_u16(n - 1)),
        )
    }
}

/// Matches in the text that a node itself holds: a heading's text at the
/// node's origin, a paragraph's lines from it on, a code block's lines one
/// cell right and one row down, inside the border.
pub open spec fn matches_in_element(node: NodeView, needle: Seq<char>) -> Seq<MatchView> {
    match node.element {
        ElementView::Heading { level, text } => matches_in_text(
            text,
            needle,
            node.rect.x,
            node.rect.y,
        ),
        ElementView::Paragraph { lines } => matches_in_lines(
            lines,
            needle,
            node.rect.x,
            node.rect.y,
            lines.len() as int,
        ),
        ElementView::CodeBlock { lang, lines } => matches_in_code(
            lines,
            needle,
            sat_add(node.rect.x, 1),
            sat_add(node.rect.y, 1),
            lines.len() as int,
        ),
        _ => Seq::empty(),
    }
}

/// Matches of the lowercase `needle` in a node and below it, in pre-order.
pub open spec fn matches_in_node(node: NodeView, needle: Seq<char>) -> Seq<MatchView>
    decreases node,
{
    matches_in_element(node, needle) + matches_in_nodes(
        node.children,
        needle,
        node.children.len() as int,
    )
}

/// Matches in the first `n` of `nodes` and below them, in pre-order.
pub open spec fn matches_in_nodes(nodes: Seq<NodeView>, needle: Seq<char>, n: int) -> Seq<MatchView>
    decreases nodes, n,
{
    if n <= 0 || n > nodes.len() {
        Seq::empty()
    } else {
        matches_in_nodes(nodes, needle, n - 1) + matches_in_node(nodes[n - 1], needle)
    }
}

/// What a search for `needle` finds in the tree below `root`: nothing for
/// an empty needle, else the matches of the needle in lowercase.
pub open spec fn search_results(root: NodeView, needle: Seq<char>) -> Seq<MatchView> {
    if needle.len() == 0 {
        Seq::empty()
    } else {
        matches_in_node(root, lower_seq(needle))
    }
}

/// Appends the matches of the lowercase `needle` in `text`, which stands at
/// `(x, y)`, to `matches`.
pub fn search_chars(
    text: &Vec<char>,
    needle: &Vec<char>,
    x: u16,
    y: u16,
    matches: &mut Vec<SearchMatch>,
)
    ensures
        matches_view(final(matches)@) == matches_view(old(matches)@) + matches_in_text(
            text@,
            needle@,
            x,
            y,
        ),
{
    let n = needle.len();
    if n == 0 || n > text.len() {
        return ;
    }
    let lowered = to_lower(text);
    let last = text.len() - n;
    let ghost base = matches_view(matches@);
    let mut i: usize = 0;
    while i <= last
        invariant
            i <= last + 1,
            n == needle.len(),
            n >= 1,
            last == text.len() - n,
            lowered@ == lower_seq(text@),
            matches_view(matches@) == base + matches_before(text@, needle@, x, y, i as int),
        decreases last + 1 - i,
    {
        let mut k: usize = 0;
        while k < n && lowered[i + k] == needle[k]
            invariant
                k <= n,
                n == needle.len(),
                i + n <= text.len(),
                lowered@.len() == text@.len(),
                forall|j: int| 0 <= j < k ==> lowered@[i + j] == needle@[j],
            decreases n - k,
        {
            k += 1;
        }
        proof {
            let piece = lower_seq(text@.subrange(i as int, i + n));
            assert forall|j: int| 0 <= j < n implies piece[j] == lowered@[i + j] by {}
            if k == n {
                assert(piece =~= needle@);
            }
        }
        if k == n {
            let found = sub_vec(text, i, i + n);
            let hit = SearchMatch {
                y,
                x: x.saturating_add(usize_to_u16(i)),
                length: n,
                text: string_of(&found),
            };
            proof {
                lemma_matches_view_push(matches@, hit);
            }
            matches.push(hit);
        }
        i += 1;
    }
}

/// Appends the matches of the lowercase `needle` in `text`, which stands at
/// `(x, y)`, to `matches`.
pub fn search_text(text: &str, needle: &str, x: u16, y: u16, matches: &mut Vec<SearchMatch>)
    ensures
        matches_view(final(matches)@) == matches_view(old(matches)@) + matches_in_text(
            text@,
            needle@,
            x,
            y,
        ),
{
    let text_chars = chars_of(text);
    let needle_chars = chars_of(needle);
    search_chars(&text_chars, &needle_chars, x, y, matches);
}

/// Appends the matches in a line that stands at `(x, y)` to `matches`.
pub fn search_line(line: &Line, needle: &Vec<char>, x: u16, y: u16, matches: &mut Vec<SearchMatch>)
    ensures
        matches_view(final(matches)@) == matches_view(old(matches)@) + matches_in_line(
            line@,
            needle@,
            x,
            y,
        ),
{
    let ghost base = matches_view(matches@);
    let mut current_x: u16 = x;
    let mut i: usize = 0;
    while i < line.segments.len()
        invariant
            i <= line.segments.len(),
            matches_view(matches@) == base + matches_in_segments(line@, needle@, x, y, i as int).0,
            current_x == matches_in_segments(line@, needle@, x, y, i as int).1,
        decreases line.segments.len() - i,
    {
        let chars = chars_of(line.segments[i].text.as_str());
        search_chars(&chars, needle, current_x, y, matches);
        current_x = current_x.saturating_add(usize_to_u16(chars.len()));
        i += 1;
    }
}

/// Appends the matches in the text that `node` itself holds to `matches`.
fn search_element(node: &LayoutNode, needle: &Vec<char>, matches: &mut Vec<SearchMatch>)
    ensures
        matches_view(final(matches)@) == matches_view(old(matches)@) + matches_in_element(
            node@,
            needle@,
        ),
{
    let ghost base = matches_view(matches@);
    match &node.element {
        LayoutElement::Heading { level, text } => {
            let chars = chars_of(text.as_str());
            search_chars(&chars, needle, node.rect.x, node.rect.y, matches);
        },
        LayoutElement::Paragraph { lines } => {
            let ghost all = lines_view(lines@);
            let mut i: usize = 0;
            while i < lines.len()
                invariant
                    i <= lines.len(),
                    all == lines_view(lines@),
                    matches_view(matches@) == base + matches_in_lines(
                        all,
                        needle@,
                        node.rect.x,
                        node.rect.y,
                        i as int,
                    ),
                decreases lines.len() - i,
            {
                let row = node.rect.y.saturating_add(usize_to_u16(i));
                search_line(&lines[i], needle, node.rect.x, row, matches);
                i += 1;
            }
        },
        LayoutElement::CodeBlock { lang, lines } => {
            let ghost all = strings_view(lines@);
            let x = node.rect.x.saturating_add(1);
            let y = node.rect.y.saturating_add(1);
            let mut i: usize = 0;
            while i < lines.len()
                invariant
                    i <= lines.len(),
                    all == strings_view(lines@),
                    matches_view(matches@) == base + matches_in_code(all, needle@, x, y, i as int),
                decreases lines.len() - i,
            {
                let row = y.saturating_add(usize_to_u16(i));
                let chars = chars_of(lines[i].as_str());
                search_chars(&chars, needle, x, row, matches);
                i += 1;
            }
        },
        _ => {
        },
    }
}

/// Appends the matches of the lowercase `needle` in `node` and below it to
/// `matches`, in pre-order.
pub fn search_node(node: &LayoutNode, needle: &Vec<char>, matches: &mut Vec<SearchMatch>)
    ensures
        matches_view(final(matches)@) == matches_view(old(matches)@) + matches_in_node(
            node@,
            needle@,
        ),
    decreases node,
{
    search_element(node, needle, matches);
    let ghost own = matches_view(matches@);
    let ghost kids = nodes_view(node.children@);
    let mut i: usize = 0;
    while i < node.children.len()
        invariant
            i <= node.children.len(),
            kids == nodes_view(node.children@),
            matches_view(matches@) == own + matches_in_nodes(kids, needle@, i as int),
        decreases node.children.len() - i,
    {
        search_node(&node.children[i], needle, matches);
        i += 1;
    }
}

/// Search state.
#[derive(Debug, Clone)]
pub struct SearchState {
    /// Search query.
    pub needle: String,
    /// All matches found.
    pub matches: Vec<SearchMatch>,
    /// Currently selected match.
    pub current_index: Option<usize>,
    /// Whether the search input has the focus.
    pub active: bool,
}

impl Default for SearchState {
    fn default() -> (s: SearchState)
        ensures
            s.is_cleared(),
            !s.active,
    {
        SearchState::new()
    }
}

impl SearchState {
    /// Whether the selection is sound: no match is selected where there is
    /// none, and a selected index is that of a match.
    pub open spec fn wf(&self) -> bool {
        match self.current_index {
            Some(i) => i < self.matches@.len(),
            None => true,
        }
    }

    /// Whether the state holds no query, no match and no selection.
    pub open spec fn is_cleared(&self) -> bool {
        &&& self.needle@.len() == 0
        &&& self.matches@.len() == 0
        &&& self.current_index is None
    }

    /// A search without query, matches and selection.
    pub fn new() -> (s: SearchState)
        ensures
            s.is_cleared(),
            !s.active,
            s.wf(),
    {
        SearchState { needle: String::new(), matches: Vec::new(), current_index: None, active: false }
    }

    /// Gives the search input the focus, with an empty query.
    pub fn activate(&mut self)
        ensures
            final(self).is_cleared(),
            final(self).active,
            final(self).wf(),
    {
        self.active = true;
        self.needle = String::new();
        self.matches.clear();
        self.current_index = None;
    }

    /// Leaves the search input; query and results stay.
    pub fn accept(&mut self)
        ensures
            !final(self).active,
            final(self).needle == old(self).needle,
            final(self).matches == old(self).matches,
            final(self).current_index == old(self).current_index,
    {
        self.active = false;
    }

    /// Leaves the search and clears query and results.
    pub fn deactivate(&mut self)
        ensures
            final(self).is_cleared(),
            !final(self).active,
            final(self).wf(),
    {
        self.active = false;
        self.needle = String::new();
        self.matches.clear();
        self.current_index = None;
    }

    /// Appends a character to the query.
    pub fn add_char(&mut self, c: char)
        ensures
            final(self).needle@ == old(self).needle@.push(c),
            final(self).matches == old(self).matches,
            final(self).current_index == old(self).current_index,
            final(self).active == old(self).active,
    {
        let mut chars = chars_of(self.needle.as_str());
        chars.push(c);
        self.needle = string_of(&chars);
    }

    /// Removes the last character of the query, if there is one.
    pub fn backspace(&mut self)
        ensures
            old(self).needle@.len() > 0 ==> final(self).needle@ == old(self).needle@.drop_last(),
            old(self).needle@.len() == 0 ==> final(self).needle@ == old(self).needle@,
            final(self).matches == old(self).matches,
            final(self).current_index == old(self).current_index,
            final(self).active == old(self).active,
    {
        let mut chars = chars_of(self.needle.as_str());
        chars.pop();
        self.needle = string_of(&chars);
    }

    /// Searches the tree below `root` for the query and selects the first
    /// match, if there is one.
    pub fn execute_search(&mut self, root: &LayoutNode)
        ensures
            matches_view(final(self).matches@) == search_results(root@, old(self).needle@),
            final(self).current_index == if final(self).matches@.len() > 0 {
                Some(0usize)
            } else {
                None
            },
            final(self).needle == old(self).needle,
            final(self).active == old(self).active,
            final(self).wf(),
    {
        self.matches.clear();
        self.current_index = None;
        let chars = chars_of(self.needle.as_str());
        if chars.len() == 0 {
            return ;
        }
        let needle_lower = to_lower(&chars);
        search_node(root, &needle_lower, &mut self.matches);
        if self.matches.len() > 0 {
            self.current_index = Some(0);
        }
    }

    /// Selects the match after the selected one, the first after the last;
    /// the first where none is selected. Without matches nothing changes.
    pub fn next_match(&mut self)
        ensures
            final(self).needle == old(self).needle,
            final(self).matches == old(self).matches,
            final(self).active == old(self).active,
            old(self).matches@.len() == 0 ==> final(self).current_index == old(self).current_index,
            old(self).matches@.len() > 0 ==> final(self).current_index == Some(
                match old(self).current_index {
                    Some(i) => ((i + 1) % (old(self).matches@.len() as int)) as usize,
                    None => 0usize,
                },
            ),
            old(self).matches@.len() > 0 ==> final(self).wf(),
            old(self).wf() ==> final(self).wf(),
    {
        let count = self.matches.len();
        if count > 0 {
            self.current_index = Some(
                match self.current_index {
                    Some(current) => {
                        let here = current % count;
                        let next = if here + 1 == count {
                            0
                        } else {
                            here + 1
                        };
                        proof {
                            let q = current as int / count as int;
                            vstd::arithmetic::div_mod::lemma_fundamental_div_mod(
                                current as int,
                                count as int,
                            );
                            if here + 1 == count {
                                assert(current + 1 == (q + 1) * count + 0) by (nonlinear_arith)
                                    requires
                                        current == count * q + here,
                                        here + 1 == count,
                                ;
                                vstd::arithmetic::div_mod::lemma_fundamental_div_mod_converse(
                                    current + 1,
                                    count as int,
                                    q + 1,
                                    0,
                                );
                            } else {
                                assert(current + 1 == q * count + (here + 1)) by (nonlinear_arith)
                                    requires
                                        current == count * q + here,
                                ;
                                vstd::arithmetic::div_mod::lemma_fundamental_div_mod_converse(
                                    current + 1,
                                    count as int,
                                    q,
                                    here + 1,
                                );
                            }
                        }
                        next
                    },
                    None => 0,
                },
            );
        }
    }

    /// Selects the match before the selected one, the last before the
    /// first; the last where none is selected. Without matches nothing
    /// changes.
    pub fn prev_match(&mut self)
        ensures
            final(self).needle == old(self).needle,
            final(self).matches == old(self).matches,
            final(self).active == old(self).active,
            old(self).matches@.len() == 0 ==> final(self).current_index == old(self).current_index,
            old(self).matches@.len() > 0 ==> final(self).current_index == Some(
                match old(self).current_index {
                    Some(i) => if i == 0 {
                        (old(self).matches@.len() - 1) as usize
                    } else {
                        (i - 1) as usize
                    },
                    None => (old(self).matches@.len() - 1) as usize,
                },
            ),
            old(self).wf() ==> final(self).wf(),
    {
        let count = self.matches.len();
        if count > 0 {
            self.current_index = Some(
                match self.current_index {
                    Some(current) => if current == 0 {
                        count - 1
                    } else {
                        current - 1
                    },
                    None => count - 1,
                },
            );
        }
    }

    /// The selected match, if one is selected and exists.
    pub fn current_match(&self) -> (m: Option<&SearchMatch>)
        ensures
            m == match self.current_index {
                Some(i) => if i < self.matches@.len() {
                    Some(&self.matches@[i as int])
                } else {
                    None
                },
                None => None,
            },
    {
        match self.current_index {
            Some(i) => if i < self.matches.len() {
                Some(&self.matches[i])
            } else {
                None
            },
            None => None,
        }
    }

    /// Number of matches.
    pub fn match_count(&self) -> (n: usize)
        ensures
            n == self.matches@.len(),
    {
        self.matches.len()
    }
}

/// Whether `m` is a match of the lowercase `needle`: it has as many
/// characters as the needle, and its text in lowercase is the needle.
pub open spec fn true_match(m: MatchView, needle: Seq<char>) -> bool {
    &&& m.length == needle.len()
    &&& m.text.len() == needle.len()
    &&& lower_seq(m.text) == needle
}

/// Whether all of `ms` are matches of the lowercase `needle`.
pub open spec fn all_true(ms: Seq<MatchView>, needle: Seq<char>) -> bool {
    forall|k: int| 0 <= k < ms.len() ==> true_match(#[trigger] ms[k], needle)
}

proof fn lemma_all_true_add(a: Seq<MatchView>, b: Seq<MatchView>, needle: Seq<char>)
    requires
        all_true(a, needle),
        all_true(b, needle),
    ensures
        all_true(a + b, needle),
{
}

/// Whether `m` is the match at a place before index `n` where `needle`
/// occurs in `text`.
pub open spec fn is_occurrence(
    m: MatchView,
    text: Seq<char>,
    needle: Seq<char>,
    x: u16,
    y: u16,
    n: int,
) -> bool {
    exists|i: int|
        0 <= i < n && occurs_at(text, needle, i) && m == #[trigger] match_at(text, needle, x, y, i)
}

/// The matches in a text are exactly the places where the needle occurs:
/// each match stands at a place of occurrence, holds the text as it stands
/// there and the column of its first character; and each place of
/// occurrence has its match.
pub proof fn lemma_matches_in_text(text: Seq<char>, needle: Seq<char>, x: u16, y: u16, n: int)
    requires
        needle.len() <= usize::MAX,
    ensures
        forall|k: int|
            0 <= k < matches_before(text, needle, x, y, n).len() ==> is_occurrence(
                #[trigger] matches_before(text, needle, x, y, n)[k],
                text,
                needle,
                x,
                y,
                n,
            ),
        forall|i: int|
            0 <= i < n && occurs_at(text, needle, i) ==> matches_before(
                text,
                needle,
                x,
                y,
                n,
            ).contains(#[trigger] match_at(text, needle, x, y, i)),
        all_true(matches_before(text, needle, x, y, n), needle),
    decreases n,
{
    if n > 0 {
        lemma_matches_in_text(text, needle, x, y, n - 1);
        let prev = matches_before(text, needle, x, y, n - 1);
        let ms = matches_before(text, needle, x, y, n);
        let found = match_at(text, needle, x, y, n - 1);
        assert forall|k: int| 0 <= k < ms.len() implies is_occurrence(
            #[trigger] ms[k],
            text,
            needle,
            x,
            y,
            n,
        ) by {
            if k < prev.len() {
                let i = choose|i: int|
                    0 <= i < n - 1 && occurs_at(text, needle, i) && prev[k] == #[trigger] match_at(
                        text,
                        needle,
                        x,
                        y,
                        i,
                    );
            }
        }
        assert forall|i: int| 0 <= i < n && occurs_at(text, needle, i) implies ms.contains(
            #[trigger] match_at(text, needle, x, y, i),
        ) by {
            if i < n - 1 {
                let k = choose|k: int| 0 <= k < prev.len() && prev[k] == match_at(text, needle, x, y, i);
                assert(ms[k] == prev[k]);
            } else {
                assert(ms[ms.len() - 1] == found);
            }
        }
    }
}

proof fn lemma_text_matches_true(text: Seq<char>, needle: Seq<char>, x: u16, y: u16)
    requires
        needle.len() <= usize::MAX,
    ensures
        all_true(matches_in_text(text, needle, x, y), needle),
{
    if 0 < needle.len() <= text.len() {
        lemma_matches_in_text(text, needle, x, y, text.len() - needle.len() + 1);
    }
}

proof fn lemma_segment_matches_true(
    line: Seq<SegmentView>,
    needle: Seq<char>,
    x: u16,
    y: u16,
    n: int,
)
    requires
        needle.len() <= usize::MAX,
    ensures
        all_true(matches_in_segments(line, needle, x, y, n).0, needle),
    decreases n,
{
    if 0 < n <= line.len() {
        lemma_segment_matches_true(line, needle, x, y, n - 1);
        let prev = matches_in_segments(line, needle, x, y, n - 1);
        lemma_text_matches_true(line[n - 1].text, needle, prev.1, y);
        lemma_all_true_add(prev.0, matches_in_text(line[n - 1].text, needle, prev.1, y), needle);
    }
}

proof fn lemma_line_matches_true(
    lines: Seq<Seq<SegmentView>>,
    needle: Seq<char>,
    x: u16,
    y: u16,
    n: int,
)
    requires
        needle.len() <= usize::MAX,
    ensures
        all_true(matches_in_lines(lines, needle, x, y, n), needle),
    decreases n,
{
    if 0 < n <= lines.len() {
        lemma_line_matches_true(lines, needle, x, y, n - 1);
        let row = sat_add(y, clamp_u16(n - 1));
        lemma_segment_matches_true(lines[n - 1], needle, x, row, lines[n - 1].len() as int);
        lemma_all_true_add(
            matches_in_lines(lines, needle, x, y, n - 1),
            matches_in_line(lines[n - 1], needle, x, row),
            needle,
        );
    }
}

proof fn lemma_code_matches_true(lines: Seq<Seq<char>>, needle: Seq<char>, x: u16, y: u16, n: int)
    requires
        needle.len() <= usize::MAX,
    ensures
        all_true(matches_in_code(lines, needle, x, y, n), needle),
    decreases n,
{
    if 0 < n <= lines.len() {
        lemma_code_matches_true(lines, needle, x, y, n - 1);
        let row = sat_add(y, clamp_u16(n - 1));
        lemma_text_matches_true(lines[n - 1], needle, x, row);
        lemma_all_true_add(
            matches_in_code(lines, needle, x, y, n - 1),
            matches_in_text(lines[n - 1], needle, x, row),
            needle,
        );
    }
}

proof fn lemma_node_matches_true(node: NodeView, needle: Seq<char>)
    requires
        needle.len() <= usize::MAX,
    ensures
        all_true(matches_in_node(node, needle), needle),
    decreases node,
{
    match node.element {
        ElementView::Heading { level, text } => {
            lemma_text_matches_true(text, needle, node.rect.x, node.rect.y);
        },
        ElementView::Paragraph { lines } => {
            lemma_line_matches_true(lines, needle, node.rect.x, node.rect.y, lines.len() as int);
        },
        ElementView::CodeBlock { lang, lines } => {
            lemma_code_matches_true(
                lines,
                needle,
                sat_add(node.rect.x, 1),
                sat_add(node.rect.y, 1),
                lines.len() as int,
            );
        },
        _ => {},
    }
    lemma_nodes_matches_true(node.children, needle, node.children.len() as int);
    lemma_all_true_add(
        matches_in_element(node, needle),
        matches_in_nodes(node.children, needle, node.children.len() as int),
        needle,
    );
}

proof fn lemma_nodes_matches_true(nodes: Seq<NodeView>, needle: Seq<char>, n: int)
    requires
        needle.len() <= usize::MAX,
    ensures
        all_true(matches_in_nodes(nodes, needle, n), needle),
    decreases nodes, n,
{
    if 0 < n <= nodes.len() {
        lemma_nodes_matches_true(nodes, needle, n - 1);
        lemma_node_matches_true(nodes[n - 1], needle);
        lemma_all_true_add(
            matches_in_nodes(nodes, needle, n - 1),
            matches_in_node(nodes[n - 1], needle),
            needle,
        );
    }
}

/// Every match that a search returns has as many characters as the needle,
/// and its text, as it stands in the document, is the needle but for case.
pub proof fn lemma_search_results_match(root: NodeView, needle: Seq<char>)
    requires
        needle.len() <= usize::MAX,
    ensures
        forall|k: int|
            0 <= k < search_results(root, needle).len() ==> {
                let m = #[trigger] search_results(root, needle)[k];
                &&& m.length == needle.len()
                &&& m.text.len() == needle.len()
                &&& lower_seq(m.text) == lower_seq(needle)
            },
{
    if needle.len() > 0 {
        lemma_node_matches_true(root, lower_seq(needle));
    }
}

} // verus!
