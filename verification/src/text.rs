//! Character-level text utilities shared by the parser, the layout engine and
//! the search index.
//!
//! All widths and positions in this crate are counted in characters, so the
//! helpers here work on `Seq<char>` models and `Vec<char>` buffers.

use vstd::prelude::*;
use vstd::string::*;

verus! {

/// The lowercase mapping of `c` in the standard library's Unicode tables.
/// Most characters map to exactly one character; a few map to several.
/// The library asks for it beyond ASCII only.
pub uninterp spec fn unicode_lowercase(c: char) -> Seq<char>;

/// Whether `c` has the Unicode `White_Space` property. The library asks
/// for it beyond ASCII only.
pub uninterp spec fn unicode_whitespace(c: char) -> bool;

/// The characters that `char::to_lowercase` yields for `c`, in order.
#[verifier::external_body]
fn char_lowercase(c: char) -> (r: Vec<char>)
    ensures
        r@ == unicode_lowercase(c),
{
    c.to_lowercase().collect()
}

/// Whether `c` is whitespace as `char::is_whitespace` tells: whether it has
/// the Unicode `White_Space` property. The answer depends on `c` alone.
#[verifier::external_body]
fn char_is_whitespace(c: char) -> (r: bool)
    ensures
        r == unicode_whitespace(c),
{
    c.is_whitespace()
}

/// Builds a `String` holding exactly the characters of `v`, in order
/// (`String::from_iter`).
#[verifier::external_body]
fn string_from_iter(v: &Vec<char>) -> (s: String)
    ensures
        s@ == v@,
{
    String::from_iter(v)
}

/// Length-preserving lowercase: an ASCII capital maps to its small letter
/// and any other ASCII character to itself; beyond ASCII, a character whose
/// Unicode lowercase mapping is a single character maps to it, any other
/// character maps to itself.
pub open spec fn lower_char(c: char) -> char {
    if 'A' <= c <= 'Z' {
        ((c as u8) + 32) as char
    } else if (c as u32) < 128 {
        c
    } else {
        let l = unicode_lowercase(c);
        if l.len() == 1 {
            l[0]
        } else {
            c
        }
    }
}

/// Whether a character separates words: in ASCII the space, the tab, the
/// line feed, the vertical tab, the form feed and the carriage return;
/// beyond ASCII, any character with the Unicode `White_Space` property.
pub open spec fn is_space(c: char) -> bool {
    if (c as u32) < 128 {
        c == ' ' || (9 <= (c as u32) <= 13)
    } else {
        unicode_whitespace(c)
    }
}

/// Whether `c` separates words.
pub fn is_whitespace(c: char) -> (r: bool)
    ensures
        r == is_space(c),
{
    if (c as u32) < 128 {
        c == ' ' || (9 <= (c as u32) && (c as u32) <= 13)
    } else {
        char_is_whitespace(c)
    }
}

/// `lower_char` applied to every character.
pub open spec fn lower_seq(s: Seq<char>) -> Seq<char> {
    Seq::new(s.len(), |i: int| lower_char(s[i]))
}

/// `c` in lowercase.
pub fn to_lower_char(c: char) -> (r: char)
    ensures
        r == lower_char(c),
{
    if 'A' <= c && c <= 'Z' {
        ((c as u8) + 32) as char
    } else if (c as u32) < 128 {
        c
    } else {
        let l = char_lowercase(c);
        if l.len() == 1 {
            l[0]
        } else {
            c
        }
    }
}

/// The characters of `s`.
pub fn chars_of(s: &str) -> (v: Vec<char>)
    ensures
        v@ == s@,
{
    let mut v: Vec<char> = Vec::new();
    for c in it: s.chars()
        invariant
            v@ == it.seq().take(it.index()),
            it.seq() == s@,
            it.index() == it.seq().len() ==> v@ == s@,
    {
        v.push(c);
    }
    v
}

/// The string made of the characters of `v`.
pub fn string_of(v: &Vec<char>) -> (s: String)
    ensures
        s@ == v@,
{
    string_from_iter(v)
}

/// The characters of `v` in lowercase, one for one.
pub fn to_lower(v: &Vec<char>) -> (r: Vec<char>)
    ensures
        r@ == lower_seq(v@),
{
    let mut r: Vec<char> = Vec::new();
    let mut i: usize = 0;
    while i < v.len()
        invariant
            i <= v.len(),
            r@ == lower_seq(v@.take(i as int)),
        decreases v.len() - i,
    {
        r.push(to_lower_char(v[i]));
        i += 1;
    }
    r
}

/// Models of a sequence of character buffers, element by element.
pub open spec fn words_view(s: Seq<Vec<char>>) -> Seq<Seq<char>> {
    Seq::new(s.len(), |i: int| s[i]@)
}

/// The models of character buffers with one more buffer.
proof fn lemma_words_view_push(s: Seq<Vec<char>>, x: Vec<char>)
    ensures
        words_view(s.push(x)) == words_view(s).push(x@),
{
}

/// State of a left-to-right scan that cuts a text into pieces: the pieces
/// finished so far and the piece being read.
pub struct Scan {
    pub done: Seq<Seq<char>>,
    pub cur: Seq<char>,
}

/// Scan of the first `n` characters of `s` for words: whitespace ends the
/// word being read, if there is one; any other character extends it.
pub open spec fn scan_words(s: Seq<char>, n: int) -> Scan
    decreases n,
{
    if n <= 0 || n > s.len() {
        Scan { done: Seq::empty(), cur: Seq::empty() }
    } else {
        let prev = scan_words(s, n - 1);
        let c = s[n - 1];
        if is_space(c) {
            if prev.cur.len() > 0 {
                Scan { done: prev.done.push(prev.cur), cur: Seq::empty() }
            } else {
                prev
            }
        } else {
            Scan { done: prev.done, cur: prev.cur.push(c) }
        }
    }
}

/// The words of `s`: its maximal runs of characters that are not
/// whitespace, in order.
pub open spec fn words_of(s: Seq<char>) -> Seq<Seq<char>> {
    let end = scan_words(s, s.len() as int);
    if end.cur.len() > 0 {
        end.done.push(end.cur)
    } else {
        end.done
    }
}

/// A line without the carriage return that ends it, if one does.
pub open spec fn strip_cr(line: Seq<char>) -> Seq<char> {
    if line.len() > 0 && line.last() == '\r' {
        line.drop_last()
    } else {
        line
    }
}

/// Scan of the first `n` characters of `s` for lines: a newline ends the
/// line being read, which loses one carriage return just before the newline.
pub open spec fn scan_lines(s: Seq<char>, n: int) -> Scan
    decreases n,
{
    if n <= 0 || n > s.len() {
        Scan { done: Seq::empty(), cur: Seq::empty() }
    } else {
        let prev = scan_lines(s, n - 1);
        let c = s[n - 1];
        if c == '\n' {
            Scan { done: prev.done.push(strip_cr(prev.cur)), cur: Seq::empty() }
        } else {
            Scan { done: prev.done, cur: prev.cur.push(c) }
        }
    }
}

/// The lines of `s`: the pieces between newlines, each without its line
/// ending (`\n` or `\r\n`); text after the last newline is a line of its own
/// unless it is empty.
pub open spec fn lines_of(s: Seq<char>) -> Seq<Seq<char>> {
    let end = scan_lines(s, s.len() as int);
    if end.cur.len() > 0 {
        end.done.push(end.cur)
    } else {
        end.done
    }
}

/// Cuts `text` into its words.
pub fn split_words(text: &Vec<char>) -> (words: Vec<Vec<char>>)
    ensures
        words_view(words@) == words_of(text@),
{
    let mut words: Vec<Vec<char>> = Vec::new();
    let mut cur: Vec<char> = Vec::new();
    let mut i: usize = 0;
    while i < text.len()
        invariant
            i <= text.len(),
            words_view(words@) == scan_words(text@, i as int).done,
            cur@ == scan_words(text@, i as int).cur,
        decreases text.len() - i,
    {
        let c = text[i];
        if is_whitespace(c) {
            if cur.len() > 0 {
                let mut word: Vec<char> = Vec::new();
                std::mem::swap(&mut cur, &mut word);
                proof {
                    lemma_words_view_push(words@, word);
                }
                words.push(word);
            }
        } else {
            cur.push(c);
        }
        i += 1;
    }
    if cur.len() > 0 {
        proof {
            lemma_words_view_push(words@, cur);
        }
        words.push(cur);
    }
    words
}

/// Cuts `text` into its lines.
pub fn split_lines(text: &Vec<char>) -> (lines: Vec<Vec<char>>)
    ensures
        words_view(lines@) == lines_of(text@),
{
    let mut lines: Vec<Vec<char>> = Vec::new();
    let mut cur: Vec<char> = Vec::new();
    let mut i: usize = 0;
    while i < text.len()
        invariant
            i <= text.len(),
            words_view(lines@) == scan_lines(text@, i as int).done,
            cur@ == scan_lines(text@, i as int).cur,
        decreases text.len() - i,
    {
        let c = text[i];
        if c == '\n' {
            let mut line: Vec<char> = Vec::new();
            std::mem::swap(&mut cur, &mut line);
            if line.len() > 0 && line[line.len() - 1] == '\r' {
                line.pop();
            }
            proof {
                lemma_words_view_push(lines@, line);
            }
            lines.push(line);
        } else {
            cur.push(c);
        }
        i += 1;
    }
    if cur.len() > 0 {
        proof {
            lemma_words_view_push(lines@, cur);
        }
        lines.push(cur);
    }
    lines
}

/// The decimal digit `d` as a character.
pub open spec fn digit_char(d: int) -> char {
    if d == 0 {
        '0'
    } else if d == 1 {
        '1'
    } else if d == 2 {
        '2'
    } else if d == 3 {
        '3'
    } else if d == 4 {
        '4'
    } else if d == 5 {
        '5'
    } else if d == 6 {
        '6'
    } else if d == 7 {
        '7'
    } else if d == 8 {
        '8'
    } else {
        '9'
    }
}

/// Decimal notation of `n`, without leading zeros.
pub open spec fn decimal_of(n: nat) -> Seq<char>
    decreases n,
{
    if n < 10 {
        seq![digit_char(n as int)]
    } else {
        decimal_of(n / 10).push(digit_char((n % 10) as int))
    }
}

/// The decimal digit `d` as a character.
fn digit(d: usize) -> (c: char)
    requires
        d < 10,
    ensures
        c == digit_char(d as int),
{
    if d == 0 {
        '0'
    } else if d == 1 {
        '1'
    } else if d == 2 {
        '2'
    } else if d == 3 {
        '3'
    } else if d == 4 {
        '4'
    } else if d == 5 {
        '5'
    } else if d == 6 {
        '6'
    } else if d == 7 {
        '7'
    } else if d == 8 {
        '8'
    } else {
        '9'
    }
}

/// Appends the decimal notation of `n` to `out`.
pub fn push_decimal(out: &mut Vec<char>, n: usize)
    ensures
        final(out)@ == old(out)@ + decimal_of(n as nat),
    decreases n,
{
    if n < 10 {
        out.push(digit(n));
    } else {
        push_decimal(out, n / 10);
        out.push(digit(n % 10));
    }
}

/// Number of decimal digits of `n`.
pub fn decimal_len(n: usize) -> (len: usize)
    ensures
        len == decimal_of(n as nat).len(),
{
    let mut digits: Vec<char> = Vec::new();
    push_decimal(&mut digits, n);
    digits.len()
}

/// Whether `v` holds exactly the characters of `s`.
pub fn chars_equal(v: &Vec<char>, s: &str) -> (r: bool)
    ensures
        r == (v@ == s@),
{
    let other = chars_of(s);
    if v.len() != other.len() {
        return false;
    }
    let mut i: usize = 0;
    while i < v.len()
        invariant
            i <= v.len(),
            v.len() == other.len(),
            other@ == s@,
            forall|j: int| 0 <= j < i ==> v@[j] == other@[j],
        decreases v.len() - i,
    {
        if v[i] != other[i] {
            return false;
        }
        i += 1;
    }
    assert(v@ =~= other@);
    true
}

} // verus!
