//! Rewrites that the IR builder applies when it closes a list or a block
//! quote: label promotion and flattening in nested lists, and callouts.

use crate::ir::{
    blocks_view, inlines_view, items_view, lemma_blocks_view_push, lemma_inlines_view_push,
    lemma_items_view_push, Block, BlockView, CalloutKind, Inline, InlineView, ListItem,
    ListItemView,
};
use crate::layout::text::sub_vec;
use crate::text::{
    chars_equal, chars_of, is_space, is_whitespace, lower_char, lower_seq, string_of, to_lower,
};
use vstd::prelude::*;

verus! {

/// Whether a list item holds nothing but a nested list.
pub open spec fn only_list(item: ListItemView) -> bool {
    item.content.len() == 1 && item.content[0] is List
}

/// Whether the text of a list item has ended up in its nested list: the
/// item holds nothing but a nested list, and the first paragraph of that
/// list's first item has two inlines or more.
pub open spec fn promotes(item: ListItemView) -> bool {
    &&& only_list(item)
    &&& item.content[0]->List_items.len() > 0
    &&& item.content[0]->List_items[0].content.len() > 0
    &&& item.content[0]->List_items[0].content[0] is Paragraph
    &&& item.content[0]->List_items[0].content[0]->Paragraph_content.len() >= 2
}

/// The item with the first inline of its nested list's first paragraph as
/// a paragraph of its own, before the nested list.
pub open spec fn promote(item: ListItemView) -> ListItemView {
    if promotes(item) {
        let nested = item.content[0]->List_items;
        let first = nested[0];
        let content = first.content[0]->Paragraph_content;
        let label = BlockView::Paragraph { content: seq![content[0]] };
        let rest = BlockView::Paragraph { content: content.skip(1) };
        let list = BlockView::List {
            ordered: item.content[0]->List_ordered,
            start: item.content[0]->List_start,
            items: nested.update(
                0,
                ListItemView { content: first.content.update(0, rest), task: first.task },
            ),
        };
        ListItemView { content: seq![label, list], task: item.task }
    } else {
        item
    }
}

/// The first `n` items after promotion, with the items of each item that
/// holds nothing but a nested list in that item's place.
pub open spec fn flatten(items: Seq<ListItemView>, n: int) -> Seq<ListItemView>
    decreases n,
{
    if n <= 0 || n > items.len() {
        Seq::empty()
    } else {
        let item = promote(items[n - 1]);
        flatten(items, n - 1) + if only_list(item) {
            item.content[0]->List_items
        } else {
            seq![item]
        }
    }
}

/// The items of a list as the builder leaves them when the list closes.
pub open spec fn fix_items(items: Seq<ListItemView>) -> Seq<ListItemView> {
    flatten(items, items.len() as int)
}

/// Whether `text` begins with `marker`, case ignored; `marker` is in
/// lowercase.
pub open spec fn has_marker(text: Seq<char>, marker: Seq<char>) -> bool {
    text.len() >= marker.len() && lower_seq(text.take(marker.len() as int)) == marker
}

/// The kind of callout that `text` announces, if it begins with `[!NOTE]`,
/// `[!WARNING]`, `[!IMPORTANT]`, `[!TIP]` or `[!CAUTION]` in any case.
pub open spec fn callout_kind(text: Seq<char>) -> Option<CalloutKind> {
    if has_marker(text, "[!note]"@) {
        Some(CalloutKind::Note)
    } else if has_marker(text, "[!warning]"@) {
        Some(CalloutKind::Warning)
    } else if has_marker(text, "[!important]"@) {
        Some(CalloutKind::Important)
    } else if has_marker(text, "[!tip]"@) {
        Some(CalloutKind::Tip)
    } else if has_marker(text, "[!caution]"@) {
        Some(CalloutKind::Caution)
    } else {
        None
    }
}

/// The marker of a kind of callout, in lowercase.
pub open spec fn marker_of(kind: CalloutKind) -> Seq<char> {
    match kind {
        CalloutKind::Note => "[!note]"@,
        CalloutKind::Warning => "[!warning]"@,
        CalloutKind::Important => "[!important]"@,
        CalloutKind::Tip => "[!tip]"@,
        CalloutKind::Caution => "[!caution]"@,
    }
}

/// Number of whitespace characters from index `from` of `text` on.
pub open spec fn whitespace_run(text: Seq<char>, from: int) -> int
    decreases text.len() - from,
{
    if 0 <= from < text.len() && is_space(text[from]) {
        1 + whitespace_run(text, from + 1)
    } else {
        0
    }
}

/// `text` without its first `n` characters and the whitespace after them.
pub open spec fn strip_marker(text: Seq<char>, n: int) -> Seq<char> {
    text.skip(n + whitespace_run(text, n))
}

/// The first `n` of `blocks` without the paragraphs that hold nothing.
pub open spec fn without_empty_paragraphs(blocks: Seq<BlockView>, n: int) -> Seq<BlockView>
    decreases n,
{
    if n <= 0 || n > blocks.len() {
        Seq::empty()
    } else {
        let prev = without_empty_paragraphs(blocks, n - 1);
        if blocks[n - 1] == (BlockView::Paragraph { content: Seq::empty() }) {
            prev
        } else {
            prev.push(blocks[n - 1])
        }
    }
}

/// Whether the blocks of a quote begin with a paragraph whose first inline
/// is text that announces a callout.
pub open spec fn announces_callout(blocks: Seq<BlockView>) -> bool {
    &&& blocks.len() > 0
    &&& blocks[0] is Paragraph
    &&& blocks[0]->Paragraph_content.len() > 0
    &&& blocks[0]->Paragraph_content[0] is Text
    &&& callout_kind(blocks[0]->Paragraph_content[0]->Text_0) is Some
}

/// The block that a closed block quote becomes: a callout where its first
/// text announces one, with the marker and the whitespace after it taken
/// off that text and emptied paragraphs removed; a block quote otherwise.
pub open spec fn quote_block(blocks: Seq<BlockView>) -> BlockView {
    if announces_callout(blocks) {
        let content = blocks[0]->Paragraph_content;
        let text = content[0]->Text_0;
        let kind = callout_kind(text)->0;
        let rest = strip_marker(text, marker_of(kind).len() as int);
        let first = if rest.len() == 0 {
            content.skip(1)
        } else {
            content.update(0, InlineView::Text(rest))
        };
        let all = blocks.update(0, BlockView::Paragraph { content: first });
        BlockView::Callout {
            kind,
            title: None,
            content: without_empty_paragraphs(all, all.len() as int),
        }
    } else {
        BlockView::BlockQuote { blocks }
    }
}

/// Whether `item` holds nothing but a nested list.
fn is_only_list(item: &ListItem) -> (r: bool)
    ensures
        r == only_list(item@),
{
    if item.content.len() != 1 {
        return false;
    }
    match &item.content[0] {
        Block::List { .. } => true,
        _ => false,
    }
}

/// Whether the text of `item` has ended up in its nested list.
fn is_promotable(item: &ListItem) -> (r: bool)
    ensures
        r == promotes(item@),
{
    if item.content.len() != 1 {
        return false;
    }
    match &item.content[0] {
        Block::List { ordered, start, items } => {
            if items.len() == 0 {
                return false;
            }
            assert(items_view(items@)[0] == items@[0]@);
            let first = &items[0];
            if first.content.len() == 0 {
                return false;
            }
            match &first.content[0] {
                Block::Paragraph { content } => {
                    content.len() >= 2
                },
                _ => false,
            }
        },
        _ => false,
    }
}

/// A copy of the inlines of `v` from index `from` on.
fn clone_inlines_from(v: &Vec<Inline>, from: usize) -> (r: Vec<Inline>)
    requires
        from <= v.len(),
    ensures
        inlines_view(r@) == inlines_view(v@).skip(from as int),
{
    let mut r: Vec<Inline> = Vec::new();
    let mut k: usize = from;
    while k < v.len()
        invariant
            from <= k <= v.len(),
            inlines_view(r@) == inlines_view(v@).subrange(from as int, k as int),
        decreases v.len() - k,
    {
        let c = v[k].clone();
        proof {
            lemma_inlines_view_push(r@, c);
        }
        r.push(c);
        k += 1;
    }
    r
}

/// A copy of the blocks of `v` from index `from` on.
fn clone_blocks_from(v: &Vec<Block>, from: usize) -> (r: Vec<Block>)
    requires
        from <= v.len(),
    ensures
        blocks_view(r@) == blocks_view(v@).skip(from as int),
{
    let mut r: Vec<Block> = Vec::new();
    let mut k: usize = from;
    while k < v.len()
        invariant
            from <= k <= v.len(),
            blocks_view(r@) == blocks_view(v@).subrange(from as int, k as int),
        decreases v.len() - k,
    {
        let c = v[k].clone();
        proof {
            lemma_blocks_view_push(r@, c);
        }
        r.push(c);
        k += 1;
    }
    r
}

/// Appends copies of the items of `v` from index `from` on to `out`.
fn push_items_from(out: &mut Vec<ListItem>, v: &Vec<ListItem>, from: usize)
    requires
        from <= v.len(),
    ensures
        items_view(final(out)@) == items_view(old(out)@) + items_view(v@).skip(from as int),
{
    let ghost base = items_view(out@);
    let mut k: usize = from;
    while k < v.len()
        invariant
            from <= k <= v.len(),
            items_view(out@) == base + items_view(v@).subrange(from as int, k as int),
        decreases v.len() - k,
    {
        let c = v[k].clone();
        proof {
            lemma_items_view_push(out@, c);
        }
        out.push(c);
        k += 1;
    }
}

/// The item with its label promoted, if its text has ended up in its
/// nested list; a copy of the item otherwise.
fn promoted(item: &ListItem) -> (r: ListItem)
    ensures
        r@ == promote(item@),
{
    if !is_promotable(item) {
        return item.clone();
    }
    match &item.content[0] {
        Block::List { ordered, start, items } => {
            assert(items_view(items@)[0] == items@[0]@);
            let first = &items[0];
            match &first.content[0] {
                Block::Paragraph { content } => {
                    let mut label_content: Vec<Inline> = Vec::new();
                    let head = content[0].clone();
                    proof {
                        lemma_inlines_view_push(label_content@, head);
                        assert(inlines_view(label_content@).push(head@) =~= seq![head@]);
                    }
                    label_content.push(head);
                    let label = Block::Paragraph { content: label_content };
                    let rest = Block::Paragraph { content: clone_inlines_from(content, 1) };
                    // The first nested item, with the rest of its paragraph.
                    let mut first_content: Vec<Block> = Vec::new();
                    proof {
                        lemma_blocks_view_push(first_content@, rest);
                    }
                    first_content.push(rest);
                    let mut tail = clone_blocks_from(&first.content, 1);
                    assert(blocks_view(first_content@ + tail@) =~= blocks_view(first_content@)
                        + blocks_view(tail@));
                    first_content.append(&mut tail);
                    assert(blocks_view(first_content@) =~= first@.content.update(0, rest@));
                    let new_first = ListItem { content: first_content, task: first.task };
                    // The nested list, with that item first.
                    let mut nested: Vec<ListItem> = Vec::new();
                    proof {
                        lemma_items_view_push(nested@, new_first);
                    }
                    nested.push(new_first);
                    push_items_from(&mut nested, items, 1);
                    assert(items_view(nested@) =~= items_view(items@).update(0, new_first@));
                    let list = Block::List { ordered: *ordered, start: *start, items: nested };
                    let mut blocks: Vec<Block> = Vec::new();
                    proof {
                        lemma_blocks_view_push(blocks@, label);
                        lemma_blocks_view_push(blocks@.push(label), list);
                        assert(blocks_view(blocks@).push(label@).push(list@) =~= seq![
                            label@,
                            list@,
                        ]);
                    }
                    blocks.push(label);
                    blocks.push(list);
                    ListItem { content: blocks, task: item.task }
                },
                _ => item.clone(),
            }
        },
        _ => item.clone(),
    }
}

/// The items of a list as the builder leaves them when the list closes:
/// labels promoted, then items that hold nothing but a nested list
/// replaced by that list's items.
pub fn fix_list_items(items: &Vec<ListItem>) -> (r: Vec<ListItem>)
    ensures
        items_view(r@) == fix_items(items_view(items@)),
{
    let ghost all = items_view(items@);
    let mut r: Vec<ListItem> = Vec::new();
    let mut i: usize = 0;
    while i < items.len()
        invariant
            i <= items.len(),
            all == items_view(items@),
            items_view(r@) == flatten(all, i as int),
        decreases items.len() - i,
    {
        let item = promoted(&items[i]);
        if is_only_list(&item) {
            match &item.content[0] {
                Block::List { ordered, start, items: nested } => {
                    push_items_from(&mut r, nested, 0);
                },
                _ => {},
            }
        } else {
            proof {
                lemma_items_view_push(r@, item);
            }
            r.push(item);
        }
        i += 1;
    }
    r
}

/// Whether `text` begins with `marker`, case ignored.
fn begins_with(text: &Vec<char>, marker: &str) -> (r: bool)
    ensures
        r == has_marker(text@, marker@),
{
    let wanted = chars_of(marker);
    if text.len() < wanted.len() {
        return false;
    }
    let head = sub_vec(text, 0, wanted.len());
    let lowered = to_lower(&head);
    chars_equal(&lowered, marker)
}

/// The kind of callout that `text` announces, with the length of its
/// marker.
fn find_callout_kind(text: &Vec<char>) -> (r: Option<(CalloutKind, usize)>)
    ensures
        match r {
            Some((kind, n)) => callout_kind(text@) == Some(kind) && n == marker_of(kind).len()
                && n <= text@.len(),
            None => callout_kind(text@) is None,
        },
{
    proof {
        reveal_strlit("[!note]");
        reveal_strlit("[!warning]");
        reveal_strlit("[!important]");
        reveal_strlit("[!tip]");
        reveal_strlit("[!caution]");
    }
    if begins_with(text, "[!note]") {
        Some((CalloutKind::Note, 7))
    } else if begins_with(text, "[!warning]") {
        Some((CalloutKind::Warning, 10))
    } else if begins_with(text, "[!important]") {
        Some((CalloutKind::Important, 12))
    } else if begins_with(text, "[!tip]") {
        Some((CalloutKind::Tip, 6))
    } else if begins_with(text, "[!caution]") {
        Some((CalloutKind::Caution, 10))
    } else {
        None
    }
}

/// `text` without its first `n` characters and the whitespace after them.
fn strip_marker_chars(text: &Vec<char>, n: usize) -> (r: Vec<char>)
    requires
        n <= text.len(),
    ensures
        r@ == strip_marker(text@, n as int),
{
    let mut from: usize = n;
    while from < text.len() && is_whitespace(text[from])
        invariant
            n <= from <= text.len(),
            whitespace_run(text@, n as int) == (from - n) + whitespace_run(text@, from as int),
        decreases text.len() - from,
    {
        from += 1;
    }
    let r = sub_vec(text, from, text.len());
    r
}

/// Whether `block` is a paragraph that holds nothing.
fn is_empty_paragraph(block: &Block) -> (r: bool)
    ensures
        r == (block@ == (BlockView::Paragraph { content: Seq::empty() })),
{
    match block {
        Block::Paragraph { content } => {
            if content.len() == 0 {
                assert(inlines_view(content@) =~= Seq::empty());
                true
            } else {
                assert(inlines_view(content@).len() > 0);
                false
            }
        },
        _ => false,
    }
}

/// The block that a closed block quote with the blocks `blocks` becomes.
pub fn close_quote(blocks: Vec<Block>) -> (r: Block)
    ensures
        r@ == quote_block(blocks_view(blocks@)),
{
    let ghost all = blocks_view(blocks@);
    if blocks.len() == 0 {
        return Block::BlockQuote { blocks };
    }
    let found: Option<(CalloutKind, Vec<char>)> = match &blocks[0] {
        Block::Paragraph { content } => {
            if content.len() == 0 {
                None
            } else {
                match &content[0] {
                    Inline::Text(text) => {
                        let chars = chars_of(text.as_str());
                        match find_callout_kind(&chars) {
                            Some((kind, n)) => Some((kind, strip_marker_chars(&chars, n))),
                            None => None,
                        }
                    },
                    _ => None,
                }
            }
        },
        _ => None,
    };
    match found {
        None => {
            Block::BlockQuote { blocks }
        },
        Some((kind, rest)) => {
            let first: Vec<Inline> = match &blocks[0] {
                Block::Paragraph { content } => {
                    let mut first = Vec::new();
                    if rest.len() > 0 {
                        let text = Inline::Text(string_of(&rest));
                        proof {
                            lemma_inlines_view_push(first@, text);
                        }
                        first.push(text);
                    }
                    let mut tail = clone_inlines_from(content, 1);
                    assert(inlines_view(first@ + tail@) =~= inlines_view(first@) + inlines_view(
                        tail@,
                    ));
                    first.append(&mut tail);
                    assert(rest@.len() > 0 ==> inlines_view(first@) =~= inlines_view(
                        content@,
                    ).update(0, InlineView::Text(rest@)));
                    first
                },
                _ => Vec::new(),
            };
            let paragraph = Block::Paragraph { content: first };
            let ghost updated = all.update(0, paragraph@);
            let mut content: Vec<Block> = Vec::new();
            assert(blocks_view(content@) =~= without_empty_paragraphs(updated, 0));
            if !is_empty_paragraph(&paragraph) {
                proof {
                    lemma_blocks_view_push(content@, paragraph);
                }
                content.push(paragraph);
            }
            let mut i: usize = 1;
            while i < blocks.len()
                invariant
                    1 <= i <= blocks.len(),
                    all == blocks_view(blocks@),
                    updated == all.update(0, updated[0]),
                    blocks_view(content@) == without_empty_paragraphs(updated, i as int),
                decreases blocks.len() - i,
            {
                if !is_empty_paragraph(&blocks[i]) {
                    let copy = blocks[i].clone();
                    proof {
                        lemma_blocks_view_push(content@, copy);
                    }
                    content.push(copy);
                }
                i += 1;
            }
            Block::Callout { kind, title: None, content }
        },
    }
}

/// The marker of a kind of callout as it is written, in capitals.
pub open spec fn written_marker(kind: CalloutKind) -> Seq<char> {
    match kind {
        CalloutKind::Note => "[!NOTE]"@,
        CalloutKind::Warning => "[!WARNING]"@,
        CalloutKind::Important => "[!IMPORTANT]"@,
        CalloutKind::Tip => "[!TIP]"@,
        CalloutKind::Caution => "[!CAUTION]"@,
    }
}

proof fn lemma_marker(written: Seq<char>, lowered: Seq<char>, rest: Seq<char>)
    requires
        written.len() == lowered.len(),
        forall|j: int| 0 <= j < written.len() ==> lower_char(#[trigger] written[j]) == lowered[j],
    ensures
        has_marker(written + rest, lowered),
{
    let text = written + rest;
    assert(text.take(lowered.len() as int) =~= written);
    assert(lower_seq(written) =~= lowered);
}

proof fn lemma_not_marker(written: Seq<char>, other: Seq<char>, rest: Seq<char>, at: int)
    requires
        0 <= at < written.len(),
        at < other.len(),
        lower_char(written[at]) != other[at],
    ensures
        !has_marker(written + rest, other),
{
    // The text differs from the marker at index `at`.
    let text = written + rest;
}

proof fn lemma_marker_note(rest: Seq<char>)
    ensures
        has_marker("[!NOTE]"@ + rest, "[!note]"@),
{
    reveal_strlit("[!NOTE]");
    reveal_strlit("[!note]");
    lemma_marker("[!NOTE]"@, "[!note]"@, rest);
}

proof fn lemma_marker_warning(rest: Seq<char>)
    ensures
        has_marker("[!WARNING]"@ + rest, "[!warning]"@),
{
    reveal_strlit("[!WARNING]");
    reveal_strlit("[!warning]");
    lemma_marker("[!WARNING]"@, "[!warning]"@, rest);
}

proof fn lemma_marker_important(rest: Seq<char>)
    ensures
        has_marker("[!IMPORTANT]"@ + rest, "[!important]"@),
{
    reveal_strlit("[!IMPORTANT]");
    reveal_strlit("[!important]");
    lemma_marker("[!IMPORTANT]"@, "[!important]"@, rest);
}

proof fn lemma_marker_tip(rest: Seq<char>)
    ensures
        has_marker("[!TIP]"@ + rest, "[!tip]"@),
{
    reveal_strlit("[!TIP]");
    reveal_strlit("[!tip]");
    lemma_marker("[!TIP]"@, "[!tip]"@, rest);
}

proof fn lemma_marker_caution(rest: Seq<char>)
    ensures
        has_marker("[!CAUTION]"@ + rest, "[!caution]"@),
{
    reveal_strlit("[!CAUTION]");
    reveal_strlit("[!caution]");
    lemma_marker("[!CAUTION]"@, "[!caution]"@, rest);
}

/// A block quote that begins with a marker, written in capitals, announces
/// the callout of that marker's kind: reading back what was written for a
/// kind gives that kind.
pub proof fn lemma_callout_round_trip(kind: CalloutKind, rest: Seq<char>)
    ensures
        callout_kind(written_marker(kind) + rest) == Some(kind),
{
    match kind {
        CalloutKind::Note => {
            lemma_marker_note(rest);
        },
        CalloutKind::Warning => {
        reveal_strlit("[!WARNING]");
        reveal_strlit("[!note]");
        lemma_not_marker("[!WARNING]"@, "[!note]"@, rest, 2);
            lemma_marker_warning(rest);
        },
        CalloutKind::Important => {
        reveal_strlit("[!IMPORTANT]");
        reveal_strlit("[!note]");
        lemma_not_marker("[!IMPORTANT]"@, "[!note]"@, rest, 2);
        reveal_strlit("[!IMPORTANT]");
        reveal_strlit("[!warning]");
        lemma_not_marker("[!IMPORTANT]"@, "[!warning]"@, rest, 2);
            lemma_marker_important(rest);
        },
        CalloutKind::Tip => {
        reveal_strlit("[!TIP]");
        reveal_strlit("[!note]");
        lemma_not_marker("[!TIP]"@, "[!note]"@, rest, 2);
        reveal_strlit("[!TIP]");
        reveal_strlit("[!warning]");
        lemma_not_marker("[!TIP]"@, "[!warning]"@, rest, 2);
        reveal_strlit("[!TIP]");
        reveal_strlit("[!important]");
        lemma_not_marker("[!TIP]"@, "[!important]"@, rest, 2);
            lemma_marker_tip(rest);
        },
        CalloutKind::Caution => {
        reveal_strlit("[!CAUTION]");
        reveal_strlit("[!note]");
        lemma_not_marker("[!CAUTION]"@, "[!note]"@, rest, 2);
        reveal_strlit("[!CAUTION]");
        reveal_strlit("[!warning]");
        lemma_not_marker("[!CAUTION]"@, "[!warning]"@, rest, 2);
        reveal_strlit("[!CAUTION]");
        reveal_strlit("[!important]");
        lemma_not_marker("[!CAUTION]"@, "[!important]"@, rest, 2);
        reveal_strlit("[!CAUTION]");
        reveal_strlit("[!tip]");
        lemma_not_marker("[!CAUTION]"@, "[!tip]"@, rest, 2);
            lemma_marker_caution(rest);
        },
    }
}

/// A closed block quote becomes a callout exactly where its first text
/// announces one, and then one of the kind announced. In particular a
/// quote whose first text is a marker as written for `kind`, and anything
/// after it, becomes a callout of that kind.
pub proof fn lemma_quote_becomes_callout(blocks: Seq<BlockView>, kind: CalloutKind, rest: Seq<char>)
    ensures
        quote_block(blocks) is Callout <==> announces_callout(blocks),
        announces_callout(blocks) ==> quote_block(blocks)->Callout_kind == callout_kind(
            blocks[0]->Paragraph_content[0]->Text_0,
        )->0,
        blocks.len() > 0 && blocks[0] is Paragraph && blocks[0]->Paragraph_content.len() > 0
            && blocks[0]->Paragraph_content[0] == InlineView::Text(written_marker(kind) + rest)
            ==> quote_block(blocks) is Callout && quote_block(blocks)->Callout_kind == kind,
{
    lemma_callout_round_trip(kind, rest);
}

} // verus!
