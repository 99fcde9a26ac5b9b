//! A text editor buffer: lines of text, a cursor whose column is a byte
//! offset into its line, a scroll offset and a modified flag.
use vstd::prelude::*;

use crate::text::{
    byte_count, byte_len, char_col_to_byte, char_len, chars_in_bytes, chars_within, contains, cuttable,
    find, find_chars, find_from, from_chars, join_strings, join_with, lemma_byte_len_split,
    lemma_byte_len_step, lemma_chars_within_bounds, lemma_chars_within_start, lemma_encode_concat,
    lemma_floor_boundary, lemma_replace_all_absent, lemma_replace_first_len, lemma_replace_first_widths,
    lemma_same_widths, occurs_at, replace_all, replace_all_chars, replace_first, replace_first_chars,
    same_widths, splice_str, split_chars, split_on, strings_view, to_chars, utf8_width,
};

verus! {

/// The literal two-character sequence backslash, `n`.
pub open spec fn escaped_newline() -> Seq<char> {
    seq!['\\', 'n']
}

/// Text as the editor stores it: literal `\n` escapes become newlines, then
/// CRLF line endings become LF.
pub open spec fn normalize(content: Seq<char>) -> Seq<char> {
    replace_all(replace_all(content, escaped_newline(), seq!['\n']), seq!['\r', '\n'], seq!['\n'])
}

/// The line a checkbox toggle produces, if the line holds a checkbox:
/// the first U+2610 becomes U+2611, else the first U+2611 becomes U+2610,
/// else the first `[ ]` becomes `[x]`, else the first `[x]` and then the
/// first `[X]` become `[ ]`.
pub open spec fn toggled_line(l: Seq<char>) -> Option<Seq<char>> {
    if contains(l, seq!['\u{2610}']) {
        Some(replace_first(l, seq!['\u{2610}'], seq!['\u{2611}']))
    } else if contains(l, seq!['\u{2611}']) {
        Some(replace_first(l, seq!['\u{2611}'], seq!['\u{2610}']))
    } else if contains(l, seq!['[', ' ', ']']) {
        Some(replace_first(l, seq!['[', ' ', ']'], seq!['[', 'x', ']']))
    } else if contains(l, seq!['[', 'x', ']']) || contains(l, seq!['[', 'X', ']']) {
        Some(
            replace_first(
                replace_first(l, seq!['[', 'x', ']'], seq!['[', ' ', ']']),
                seq!['[', 'X', ']'],
                seq!['[', ' ', ']'],
            ),
        )
    } else {
        None
    }
}

/// Toggling a checkbox keeps the line's length.
pub proof fn lemma_toggled_line_len(l: Seq<char>)
    ensures
        toggled_line(l) matches Some(n) ==> n.len() == l.len(),
{
    lemma_replace_first_len(l, seq!['\u{2610}'], seq!['\u{2611}']);
    lemma_replace_first_len(l, seq!['\u{2611}'], seq!['\u{2610}']);
    lemma_replace_first_len(l, seq!['[', ' ', ']'], seq!['[', 'x', ']']);
    lemma_replace_first_len(l, seq!['[', 'x', ']'], seq!['[', ' ', ']']);
    lemma_replace_first_len(
        replace_first(l, seq!['[', 'x', ']'], seq!['[', ' ', ']']),
        seq!['[', 'X', ']'],
        seq!['[', ' ', ']'],
    );
}

/// Where a pattern is first found when its first character occurs in `s`
/// at most at `i`: at `i` if it occurs there, else nowhere.
proof fn lemma_find_at_unique(s: Seq<char>, pat: Seq<char>, i: int, j: int)
    requires
        pat.len() > 0,
        0 <= j,
        forall|k: int| 0 <= k < s.len() && s[k] == pat[0] ==> k == i,
    ensures
        find_from(s, pat, j) == (if j <= i && occurs_at(s, pat, i) { i } else { -1 }),
    decreases s.len() + 1 - j,
{
    if j + pat.len() > s.len() {
        if j <= i && occurs_at(s, pat, i) {
            assert(i + pat.len() <= s.len());
        }
    } else if occurs_at(s, pat, j) {
        assert(s.subrange(j, j + pat.len())[0] == s[j]);
        assert(s[j] == pat[0]);
    } else {
        lemma_find_at_unique(s, pat, i, j + 1);
        if j == i {
            assert(!occurs_at(s, pat, i));
        }
    }
}

/// The checkbox characters.
pub open spec fn box_char(c: char) -> bool {
    c == '\u{2610}' || c == '\u{2611}'
}

/// Whether an ASCII checkbox (`[ ]`, `[x]` or `[X]`) starts at `k`.
pub open spec fn ascii_box_at(s: Seq<char>, k: int) -> bool {
    &&& 0 <= k && k + 3 <= s.len()
    &&& s[k] == '[' && s[k + 2] == ']'
    &&& (s[k + 1] == ' ' || s[k + 1] == 'x' || s[k + 1] == 'X')
}

/// A line with a single checkbox: either exactly one `☐` or `☑`
/// character, or no such character and exactly one ASCII checkbox, which
/// is `[ ]` or `[x]` (other text, brackets included, may stand anywhere).
pub open spec fn single_checkbox(l: Seq<char>, i: int) -> bool {
    ||| {
        &&& 0 <= i < l.len()
        &&& box_char(l[i])
        &&& forall|k: int| 0 <= k < l.len() && k != i ==> !box_char(#[trigger] l[k])
    }
    ||| {
        &&& 0 <= i && i + 3 <= l.len()
        &&& l[i] == '[' && l[i + 2] == ']' && (l[i + 1] == ' ' || l[i + 1] == 'x')
        &&& forall|k: int| 0 <= k < l.len() ==> !box_char(#[trigger] l[k])
        &&& forall|k: int| #[trigger] ascii_box_at(l, k) ==> k == i
    }
}

/// Where a pattern is first found when it occurs in `s` at most at `i`:
/// at `i` if it occurs there, else nowhere.
proof fn lemma_find_only_at(s: Seq<char>, pat: Seq<char>, i: int, j: int)
    requires
        pat.len() > 0,
        0 <= j,
        forall|k: int| #[trigger] occurs_at(s, pat, k) ==> k == i,
    ensures
        find_from(s, pat, j) == (if j <= i && occurs_at(s, pat, i) { i } else { -1 }),
    decreases s.len() + 1 - j,
{
    if j + pat.len() > s.len() {
        if j <= i && occurs_at(s, pat, i) {
            assert(i + pat.len() <= s.len());
        }
    } else if occurs_at(s, pat, j) {
    } else {
        lemma_find_only_at(s, pat, i, j + 1);
    }
}

/// In a line whose only ASCII checkbox starts at `i`, each of `[ ]`, `[x]`
/// and `[X]` is found at `i` when the box there is that one, else nowhere.
proof fn lemma_ascii_finds(s: Seq<char>, i: int)
    requires
        0 <= i && i + 3 <= s.len(),
        s[i] == '[' && s[i + 2] == ']',
        forall|k: int| #[trigger] ascii_box_at(s, k) ==> k == i,
    ensures
        find(s, seq!['[', ' ', ']']) == (if s[i + 1] == ' ' { i } else { -1 }),
        find(s, seq!['[', 'x', ']']) == (if s[i + 1] == 'x' { i } else { -1 }),
        find(s, seq!['[', 'X', ']']) == (if s[i + 1] == 'X' { i } else { -1 }),
{
    let open = seq!['[', ' ', ']'];
    let lower = seq!['[', 'x', ']'];
    let upper = seq!['[', 'X', ']'];
    assert forall|k: int| #[trigger] occurs_at(s, open, k) implies k == i by {
        let w = s.subrange(k, k + 3);
        assert(w[0] == s[k] && w[1] == s[k + 1] && w[2] == s[k + 2]);
        assert(ascii_box_at(s, k));
    }
    assert forall|k: int| #[trigger] occurs_at(s, lower, k) implies k == i by {
        let w = s.subrange(k, k + 3);
        assert(w[0] == s[k] && w[1] == s[k + 1] && w[2] == s[k + 2]);
        assert(ascii_box_at(s, k));
    }
    assert forall|k: int| #[trigger] occurs_at(s, upper, k) implies k == i by {
        let w = s.subrange(k, k + 3);
        assert(w[0] == s[k] && w[1] == s[k + 1] && w[2] == s[k + 2]);
        assert(ascii_box_at(s, k));
    }
    lemma_find_only_at(s, open, i, 0);
    lemma_find_only_at(s, lower, i, 0);
    lemma_find_only_at(s, upper, i, 0);
    let w = s.subrange(i, i + 3);
    assert(w[0] == s[i] && w[1] == s[i + 1] && w[2] == s[i + 2]);
    if s[i + 1] == ' ' {
        assert(w =~= open);
    } else {
        assert(w != open);
    }
    if s[i + 1] == 'x' {
        assert(w =~= lower);
    } else {
        assert(w != lower);
    }
    if s[i + 1] == 'X' {
        assert(w =~= upper);
    } else {
        assert(w != upper);
    }
}

/// Replacing the ASCII checkbox at `i` by another one leaves it the line's
/// only ASCII checkbox.
proof fn lemma_box_replaced(l: Seq<char>, i: int, b: Seq<char>)
    requires
        0 <= i && i + 3 <= l.len(),
        forall|k: int| #[trigger] ascii_box_at(l, k) ==> k == i,
        b.len() == 3,
        b[0] == '[' && b[2] == ']' && (b[1] == ' ' || b[1] == 'x'),
    ensures
        ({
            let m = l.take(i) + b + l.skip(i + 3);
            &&& m.len() == l.len()
            &&& m[i] == '[' && m[i + 1] == b[1] && m[i + 2] == ']'
            &&& forall|k: int| 0 <= k < m.len() && !(i <= k < i + 3) ==> #[trigger] m[k] == l[k]
            &&& forall|k: int| #[trigger] ascii_box_at(m, k) ==> k == i
        }),
{
    let m = l.take(i) + b + l.skip(i + 3);
    assert forall|k: int| 0 <= k < m.len() && !(i <= k < i + 3) implies #[trigger] m[k] == l[k] by {
        if k < i {
            assert(m[k] == l.take(i)[k]);
        } else {
            assert(m[k] == l.skip(i + 3)[k - i - 3]);
        }
    }
    assert(m[i] == b[0] && m[i + 1] == b[1] && m[i + 2] == b[2]);
    assert forall|k: int| #[trigger] ascii_box_at(m, k) implies k == i by {
        if k + 3 <= i || k >= i + 3 {
            assert(m[k] == l[k] && m[k + 1] == l[k + 1] && m[k + 2] == l[k + 2]);
            assert(ascii_box_at(l, k));
        }
    }
}

/// Toggling a line with a single checkbox twice gives the line back: `☐`
/// and `☑` trade places, as do `[ ]` and `[x]`.
pub proof fn law_toggle_checkbox_twice(l: Seq<char>, i: int)
    requires
        single_checkbox(l, i),
    ensures
        toggled_line(l) matches Some(m) && toggled_line(m) == Some(l),
{
    let e = seq!['\u{2610}'];
    let c = seq!['\u{2611}'];
    let open = seq!['[', ' ', ']'];
    let lower = seq!['[', 'x', ']'];
    let upper = seq!['[', 'X', ']'];
    if 0 <= i < l.len() && box_char(l[i]) && forall|k: int| 0 <= k < l.len() && k != i ==> !box_char(#[trigger] l[k]) {
        let (from, to) = if l[i] == '\u{2610}' { (e, c) } else { (c, e) };
        assert forall|k: int| 0 <= k < l.len() && l[k] == from[0] implies k == i by {
            if k != i { assert(!box_char(l[k])); }
        }
        lemma_find_at_unique(l, from, i, 0);
        assert(l.subrange(i, i + 1) =~= from);
        let m = l.take(i) + to + l.skip(i + 1);
        assert(m.len() == l.len());
        assert forall|k: int| 0 <= k < m.len() && k != i implies m[k] == l[k] by {
            if k < i { assert(m[k] == l.take(i)[k]); } else { assert(m[k] == l.skip(i + 1)[k - i - 1]); }
        }
        assert(m[i] == to[0]);
        assert forall|k: int| 0 <= k < m.len() && m[k] == to[0] implies k == i by {
            if k != i { assert(m[k] == l[k]); assert(!box_char(l[k])); }
        }
        assert forall|k: int| 0 <= k < m.len() && m[k] == from[0] implies k == i by {
            if k != i { assert(m[k] == l[k]); assert(!box_char(l[k])); }
        }
        lemma_find_at_unique(m, from, i, 0);
        lemma_find_at_unique(m, to, i, 0);
        assert(m.subrange(i, i + 1) =~= to);
        assert(!occurs_at(m, from, i));
        assert(m.take(i) + from + m.skip(i + 1) =~= l);
        if l[i] == '\u{2610}' {
            assert(toggled_line(l) == Some(m));
            assert(find(m, e) == -1);
        } else {
            assert forall|k: int| 0 <= k < l.len() && l[k] == e[0] implies false by {
                if k != i { assert(!box_char(l[k])); }
            }
            lemma_find_at_unique(l, e, -1, 0);
            assert(toggled_line(l) == Some(m));
        }
    } else {
        let e = seq!['\u{2610}'];
        let c = seq!['\u{2611}'];
        let open = seq!['[', ' ', ']'];
        let lower = seq!['[', 'x', ']'];
        assert forall|k: int| 0 <= k < l.len() && l[k] == e[0] implies false by { assert(!box_char(l[k])); }
        assert forall|k: int| 0 <= k < l.len() && l[k] == c[0] implies false by { assert(!box_char(l[k])); }
        lemma_find_at_unique(l, e, -1, 0);
        lemma_find_at_unique(l, c, -1, 0);
        lemma_ascii_finds(l, i);
        let flipped = if l[i + 1] == ' ' { lower } else { open };
        lemma_box_replaced(l, i, flipped);
        let m = l.take(i) + flipped + l.skip(i + 3);
        assert forall|k: int| 0 <= k < m.len() && m[k] == e[0] implies false by {
            if !(i <= k < i + 3) { assert(m[k] == l[k]); assert(!box_char(l[k])); }
        }
        assert forall|k: int| 0 <= k < m.len() && m[k] == c[0] implies false by {
            if !(i <= k < i + 3) { assert(m[k] == l[k]); assert(!box_char(l[k])); }
        }
        lemma_find_at_unique(m, e, -1, 0);
        lemma_find_at_unique(m, c, -1, 0);
        lemma_ascii_finds(m, i);
        let back = if l[i + 1] == ' ' { open } else { lower };
        assert(m.take(i) + back + m.skip(i + 3) =~= l) by {
            assert(l.subrange(i, i + 3) =~= back);
            assert(l =~= l.take(i) + l.subrange(i, i + 3) + l.skip(i + 3));
        }
        if l[i + 1] == ' ' {
            assert(toggled_line(l) == Some(m));
            assert(toggled_line(m) == Some(l));
        } else {
            assert(replace_first(l, lower, open) == m);
            assert(replace_first(m, seq!['[', 'X', ']'], open) == m);
            assert(toggled_line(l) == Some(m));
            assert(toggled_line(m) == Some(l));
        }
    }
}

/// Toggles the checkbox of a line (see `toggled_line`); `None` if it has none.
pub fn toggle_checkbox_line(line: &str) -> (r: Option<String>)
    ensures
        match r {
            Some(s) => toggled_line(line@) == Some(s@),
            None => toggled_line(line@) is None,
        },
{
    let v = to_chars(line);
    let empty = vec!['\u{2610}'];
    let checked = vec!['\u{2611}'];
    let open = vec!['[', ' ', ']'];
    let lower = vec!['[', 'x', ']'];
    let upper = vec!['[', 'X', ']'];
    assert(empty@ =~= seq!['\u{2610}']);
    assert(checked@ =~= seq!['\u{2611}']);
    assert(open@ =~= seq!['[', ' ', ']']);
    assert(lower@ =~= seq!['[', 'x', ']']);
    assert(upper@ =~= seq!['[', 'X', ']']);
    if find_chars(&v, &empty).is_some() {
        Some(from_chars(&replace_first_chars(&v, &empty, &checked)))
    } else if find_chars(&v, &checked).is_some() {
        Some(from_chars(&replace_first_chars(&v, &checked, &empty)))
    } else if find_chars(&v, &open).is_some() {
        Some(from_chars(&replace_first_chars(&v, &open, &lower)))
    } else if find_chars(&v, &lower).is_some() || find_chars(&v, &upper).is_some() {
        let w = replace_first_chars(&v, &lower, &open);
        Some(from_chars(&replace_first_chars(&w, &upper, &open)))
    } else {
        None
    }
}

/// The byte offset at which the character with index `k` of `l` starts; the
/// byte length of `l` when `k` is its length.
pub open spec fn char_start(l: Seq<char>, k: int) -> int {
    byte_len(l.take(k)) as int
}

/// The index of the character in which byte offset `b` of `l` falls: the
/// number of whole characters before it.
pub open spec fn char_at_byte(l: Seq<char>, b: int) -> int {
    chars_within(l, b) as int
}

/// The last character boundary of `l` at or before byte offset `b`, and no
/// later than the end of `l`.
pub open spec fn floor_boundary(l: Seq<char>, b: int) -> int {
    char_start(l, char_at_byte(l, b))
}

/// Character starts are the boundaries of a line: each can be cut, lies
/// within the line, and holds its index's count of characters before it.
pub proof fn lemma_char_start(l: Seq<char>, k: int)
    requires
        0 <= k <= l.len(),
    ensures
        0 <= char_start(l, k) <= byte_len(l),
        cuttable(l, char_start(l, k)),
        char_at_byte(l, char_start(l, k)) == k,
        k == l.len() ==> char_start(l, k) == byte_len(l),
        k == 0 ==> char_start(l, k) == 0,
        k < l.len() ==> char_start(l, k) < byte_len(l),
{
    lemma_chars_within_start(l, k);
    lemma_byte_len_split(l, k);
    assert(l.take(l.len() as int) =~= l);
    assert(l.take(0) =~= Seq::<char>::empty());
    assert(vstd::utf8::encode_utf8(Seq::<char>::empty()) =~= Seq::<u8>::empty());
    if k < l.len() {
        lemma_byte_len_step(l, k);
    }
}

/// A byte offset that can be cut and lies within the line is the start of
/// the character it falls in.
pub proof fn lemma_on_boundary(l: Seq<char>, b: int)
    requires
        0 <= b <= byte_len(l),
        cuttable(l, b),
    ensures
        floor_boundary(l, b) == b,
        0 <= char_at_byte(l, b) <= l.len(),
        char_start(l, char_at_byte(l, b)) == b,
        b < byte_len(l) ==> char_at_byte(l, b) < l.len(),
        b > 0 ==> char_at_byte(l, b) > 0,
{
    lemma_floor_boundary(l, b);
    lemma_char_start(l, char_at_byte(l, b));
}

/// Toggling a checkbox keeps the width of every character, so the line
/// keeps its character boundaries.
pub proof fn lemma_toggled_widths(l: Seq<char>)
    ensures
        toggled_line(l) matches Some(n) ==> same_widths(l, n),
{
    assert(vstd::utf8::encode_utf8(Seq::<char>::empty()) =~= Seq::<u8>::empty());
    assert(seq!['\u{2610}'].drop_first() =~= Seq::<char>::empty());
    assert(seq!['\u{2611}'].drop_first() =~= Seq::<char>::empty());
    assert(seq![' '].drop_first() =~= Seq::<char>::empty());
    assert(seq!['x'].drop_first() =~= Seq::<char>::empty());
    assert(seq!['X'].drop_first() =~= Seq::<char>::empty());
    assert(byte_len(seq!['\u{2610}']) == 3);
    assert(byte_len(seq!['\u{2611}']) == 3);
    assert(byte_len(seq![' ']) == 1);
    assert(byte_len(seq!['x']) == 1);
    assert(byte_len(seq!['X']) == 1);
    let open = seq!['[', ' ', ']'];
    let lower = seq!['[', 'x', ']'];
    let upper = seq!['[', 'X', ']'];
    assert(same_widths(seq!['\u{2610}'], seq!['\u{2611}']));
    assert(same_widths(seq!['\u{2611}'], seq!['\u{2610}']));
    assert(same_widths(open, lower)) by {
        assert forall|i: int| 0 <= i < 3 implies byte_len(seq![#[trigger] open[i]]) == byte_len(seq![lower[i]]) by {
            if i != 1 { assert(open[i] == lower[i]); }
        }
    }
    assert(same_widths(lower, open)) by {
        assert forall|i: int| 0 <= i < 3 implies byte_len(seq![#[trigger] lower[i]]) == byte_len(seq![open[i]]) by {
            if i != 1 { assert(open[i] == lower[i]); }
        }
    }
    assert(same_widths(upper, open)) by {
        assert forall|i: int| 0 <= i < 3 implies byte_len(seq![#[trigger] upper[i]]) == byte_len(seq![open[i]]) by {
            if i != 1 { assert(open[i] == upper[i]); }
        }
    }
    lemma_replace_first_widths(l, seq!['\u{2610}'], seq!['\u{2611}']);
    lemma_replace_first_widths(l, seq!['\u{2611}'], seq!['\u{2610}']);
    lemma_replace_first_widths(l, open, lower);
    lemma_replace_first_widths(l, lower, open);
    let m = replace_first(l, lower, open);
    lemma_replace_first_widths(m, upper, open);
    let n = replace_first(m, upper, open);
    assert(same_widths(l, n)) by {
        assert forall|i: int| 0 <= i < l.len() implies byte_len(seq![#[trigger] l[i]]) == byte_len(seq![n[i]]) by {
            assert(byte_len(seq![l[i]]) == byte_len(seq![m[i]]));
        }
    }
}

/// The mathematical state of an editor. The cursor column is a byte offset
/// into the cursor's line.
pub struct EditorView {
    pub lines: Seq<Seq<char>>,
    pub cursor_row: int,
    pub cursor_col: int,
    pub scroll_offset: int,
    pub dirty: bool,
}

impl EditorView {
    /// The cursor stands on a line, at a character boundary of it (its end
    /// included).
    pub open spec fn well_formed(self) -> bool {
        &&& self.lines.len() > 0
        &&& 0 <= self.cursor_row < self.lines.len()
        &&& 0 <= self.cursor_col <= byte_len(self.lines[self.cursor_row])
        &&& cuttable(self.lines[self.cursor_row], self.cursor_col)
    }

    /// The column pulled back to the end of the cursor's line, and to the
    /// start of the character it falls in.
    pub open spec fn clamp_col(self) -> EditorView {
        EditorView { cursor_col: floor_boundary(self.lines[self.cursor_row], self.cursor_col), ..self }
    }

    /// At least one line, the row on a line, the column clamped.
    pub open spec fn fix_cursor(self) -> EditorView {
        let lines = if self.lines.len() == 0 { seq![Seq::<char>::empty()] } else { self.lines };
        let row = if self.cursor_row >= lines.len() { lines.len() - 1 } else { self.cursor_row };
        EditorView { lines, cursor_row: row, ..self }.clamp_col()
    }

    /// The character goes in at the cursor, which moves past its bytes.
    pub open spec fn insert_char(self, ch: char) -> EditorView {
        let f = self.fix_cursor();
        let l = f.lines[f.cursor_row];
        let k = char_at_byte(l, f.cursor_col);
        EditorView {
            lines: f.lines.update(f.cursor_row, l.take(k) + seq![ch] + l.skip(k)),
            cursor_col: f.cursor_col + byte_len(seq![ch]),
            dirty: true,
            ..f
        }
    }

    pub open spec fn insert_newline(self) -> EditorView {
        let f = self.fix_cursor();
        let r = f.cursor_row;
        let l = f.lines[r];
        let k = char_at_byte(l, f.cursor_col);
        EditorView {
            lines: f.lines.update(r, l.take(k)).insert(r + 1, l.skip(k)),
            cursor_row: r + 1,
            cursor_col: 0,
            dirty: true,
            ..f
        }
    }

    /// The character that ends at the cursor goes; at a line start the line
    /// joins the previous one and the cursor stands where they meet.
    pub open spec fn backspace(self) -> EditorView {
        let f = self.fix_cursor();
        let r = f.cursor_row;
        let c = f.cursor_col;
        let l = f.lines[r];
        let k = char_at_byte(l, c);
        if c > 0 {
            EditorView {
                lines: f.lines.update(r, l.take(k - 1) + l.skip(k)),
                cursor_col: char_start(l, k - 1),
                dirty: true,
                ..f
            }
        } else if r > 0 {
            let p = f.lines[r - 1];
            EditorView {
                lines: f.lines.remove(r).update(r - 1, p + l),
                cursor_row: r - 1,
                cursor_col: byte_len(p) as int,
                dirty: true,
                ..f
            }
        } else {
            f
        }
    }

    /// The character that starts at the cursor goes; at a line end the next
    /// line joins this one.
    pub open spec fn delete(self) -> EditorView {
        let f = self.fix_cursor();
        let r = f.cursor_row;
        let c = f.cursor_col;
        let l = f.lines[r];
        let k = char_at_byte(l, c);
        if c < byte_len(l) {
            EditorView { lines: f.lines.update(r, l.take(k) + l.skip(k + 1)), dirty: true, ..f }
        } else if r + 1 < f.lines.len() {
            EditorView { lines: f.lines.remove(r + 1).update(r, l + f.lines[r + 1]), dirty: true, ..f }
        } else {
            f
        }
    }

    pub open spec fn move_up(self) -> EditorView {
        if self.cursor_row > 0 {
            EditorView { cursor_row: self.cursor_row - 1, ..self }.clamp_col()
        } else {
            self
        }
    }

    pub open spec fn move_down(self) -> EditorView {
        if self.cursor_row + 1 < self.lines.len() {
            EditorView { cursor_row: self.cursor_row + 1, ..self }.clamp_col()
        } else {
            self
        }
    }

    /// Back to the start of the character before the cursor, or to the end
    /// of the previous line.
    pub open spec fn move_left(self) -> EditorView {
        if self.cursor_col > 0 {
            EditorView { cursor_col: floor_boundary(self.lines[self.cursor_row], self.cursor_col - 1), ..self }
        } else if self.cursor_row > 0 {
            EditorView {
                cursor_row: self.cursor_row - 1,
                cursor_col: byte_len(self.lines[self.cursor_row - 1]) as int,
                ..self
            }
        } else {
            self
        }
    }

    /// On past the character at the cursor, or to the start of the next line.
    pub open spec fn move_right(self) -> EditorView {
        let l = self.lines[self.cursor_row];
        if self.cursor_col < byte_len(l) {
            EditorView { cursor_col: char_start(l, char_at_byte(l, self.cursor_col) + 1), ..self }
        } else if self.cursor_row + 1 < self.lines.len() {
            EditorView { cursor_row: self.cursor_row + 1, cursor_col: 0, ..self }
        } else {
            self
        }
    }

    /// The column at the line's byte length.
    pub open spec fn move_end(self) -> EditorView {
        EditorView { cursor_col: byte_len(self.lines[self.cursor_row]) as int, ..self }
    }

    pub open spec fn page_up(self, h: int) -> EditorView {
        EditorView {
            cursor_row: if self.cursor_row >= h { self.cursor_row - h } else { 0 },
            ..self
        }.clamp_col()
    }

    pub open spec fn page_down(self, h: int) -> EditorView {
        let last = self.lines.len() - 1;
        EditorView {
            cursor_row: if self.cursor_row + h < last { self.cursor_row + h } else { last },
            ..self
        }.clamp_col()
    }

    pub open spec fn move_to_end(self) -> EditorView {
        let last = self.lines.len() - 1;
        EditorView { cursor_row: last, cursor_col: byte_len(self.lines[last]) as int, ..self }
    }

    pub open spec fn toggle_checkbox(self) -> EditorView {
        let f = self.fix_cursor();
        match toggled_line(f.lines[f.cursor_row]) {
            Some(n) => EditorView { lines: f.lines.update(f.cursor_row, n), dirty: true, ..f },
            None => f,
        }
    }

    pub open spec fn adjust_scroll(self, h: int) -> EditorView {
        let s1 = if self.cursor_row < self.scroll_offset { self.cursor_row } else { self.scroll_offset };
        let s2 = if self.cursor_row >= s1 + h { self.cursor_row - h + 1 } else { s1 };
        EditorView { scroll_offset: s2, ..self }
    }
}

/// A well-formed editor is left as it is by making its cursor valid.
pub proof fn lemma_fix_well_formed(v: EditorView)
    requires
        v.well_formed(),
    ensures
        v.fix_cursor() == v,
{
    lemma_on_boundary(v.lines[v.cursor_row], v.cursor_col);
}

/// Making the cursor valid makes the editor well-formed.
pub proof fn lemma_fix_cursor(v: EditorView)
    requires
        v.cursor_row >= 0,
        v.cursor_col >= 0,
    ensures
        v.fix_cursor().well_formed(),
{
    let lines = if v.lines.len() == 0 { seq![Seq::<char>::empty()] } else { v.lines };
    let row = if v.cursor_row >= lines.len() { lines.len() - 1 } else { v.cursor_row };
    lemma_floor_boundary(lines[row], v.cursor_col);
}

/// Toggling the checkbox of the cursor's line in an editor whose cursor is
/// valid changes that line alone and marks the editor modified; toggling
/// again gives back the lines and the cursor, when the line holds a single
/// checkbox. A line with no checkbox is left as it is, and so is the
/// modified flag.
pub proof fn law_editor_toggle_twice(v: EditorView, i: int)
    requires
        v.well_formed(),
    ensures
        toggled_line(v.lines[v.cursor_row]) is None ==> v.toggle_checkbox() == v,
        toggled_line(v.lines[v.cursor_row]) is Some ==> {
            let once = v.toggle_checkbox();
            &&& once.lines.len() == v.lines.len()
            &&& forall|r: int| 0 <= r < v.lines.len() && r != v.cursor_row ==> once.lines[r] == v.lines[r]
            &&& once.cursor_row == v.cursor_row && once.cursor_col == v.cursor_col
            &&& once.dirty
        },
        single_checkbox(v.lines[v.cursor_row], i) ==> v.toggle_checkbox().toggle_checkbox() == (EditorView { dirty: true, ..v }),
{
    lemma_fix_well_formed(v);
    let l = v.lines[v.cursor_row];
    lemma_toggled_line_len(l);
    if single_checkbox(l, i) {
        law_toggle_checkbox_twice(l, i);
        let m = toggled_line(l)->0;
        let once = v.toggle_checkbox();
        assert(once == EditorView { lines: v.lines.update(v.cursor_row, m), dirty: true, ..v });
        lemma_toggled_widths(l);
        lemma_same_widths(l, m, v.cursor_col);
        lemma_fix_well_formed(once);
        assert(once.lines.update(v.cursor_row, l) =~= v.lines);
    }
}

/// Opening text in an editor and reading it back gives the normalised text:
/// `Editor::new(c).content()` is `normalize(c)`, which is `c` itself when
/// `c` holds neither a literal `\n` escape nor a CRLF line ending.
pub proof fn law_new_then_content(content: Seq<char>)
    ensures
        join_with(split_on(normalize(content), '\n'), '\n') == normalize(content),
        !contains(content, escaped_newline()) && !contains(content, seq!['\r', '\n'])
            ==> normalize(content) == content,
{
    crate::text::lemma_join_split(normalize(content), '\n');
    if !contains(content, escaped_newline()) && !contains(content, seq!['\r', '\n']) {
        lemma_replace_all_absent(content, escaped_newline(), seq!['\n']);
        lemma_replace_all_absent(content, seq!['\r', '\n'], seq!['\n']);
    }
}

/// Typing a character and then pressing backspace restores the text and the
/// cursor (of the editor with its cursor made valid); only the modified flag
/// stays set.
pub proof fn law_insert_char_then_backspace(v: EditorView, ch: char)
    requires
        v.cursor_row >= 0,
        v.cursor_col >= 0,
    ensures
        v.insert_char(ch).backspace() == (EditorView { dirty: true, ..v.fix_cursor() }),
{
    let f = v.fix_cursor();
    lemma_fix_cursor(v);
    let r = f.cursor_row;
    let c = f.cursor_col;
    let l = f.lines[r];
    lemma_on_boundary(l, c);
    let k = char_at_byte(l, c);
    let w = v.insert_char(ch);
    let nl = l.take(k) + seq![ch] + l.skip(k);
    lemma_insert_char_col(l, k, ch);
    lemma_char_start(nl, k + 1);
    lemma_fix_well_formed(w);
    assert(nl.take(k) + nl.skip(k + 1) =~= l);
    assert(nl.take(k) =~= l.take(k));
    assert(w.lines.update(r, nl.take(k) + nl.skip(k + 1)) =~= f.lines);
}

/// The character put in at character index `k` ends where the byte offset
/// of index `k` moves on by its width.
pub proof fn lemma_insert_char_col(l: Seq<char>, k: int, ch: char)
    requires
        0 <= k <= l.len(),
    ensures
        ({
            let n = l.take(k) + seq![ch] + l.skip(k);
            &&& n.len() == l.len() + 1
            &&& char_start(n, k + 1) == char_start(l, k) + byte_len(seq![ch])
            &&& n.take(k) == l.take(k)
        }),
{
    let n = l.take(k) + seq![ch] + l.skip(k);
    assert(n.take(k + 1) =~= l.take(k) + seq![ch]);
    assert(n.take(k) =~= l.take(k));
    lemma_encode_concat(l.take(k), seq![ch]);
}

/// Splitting a line and then pressing backspace joins it again: the text
/// and the cursor are those of the editor with its cursor made valid.
pub proof fn law_insert_newline_then_backspace(v: EditorView)
    requires
        v.cursor_row >= 0,
        v.cursor_col >= 0,
    ensures
        v.insert_newline().backspace() == (EditorView { dirty: true, ..v.fix_cursor() }),
{
    let f = v.fix_cursor();
    lemma_fix_cursor(v);
    let r = f.cursor_row;
    let c = f.cursor_col;
    let l = f.lines[r];
    lemma_on_boundary(l, c);
    let k = char_at_byte(l, c);
    let w = v.insert_newline();
    assert(w.lines.len() == f.lines.len() + 1);
    assert(w.lines[r + 1] == l.skip(k));
    lemma_floor_boundary(l.skip(k), 0);
    assert(w.fix_cursor() == w);
    assert(l.take(k) + l.skip(k) =~= l);
    assert(w.lines.remove(r + 1).update(r, l.take(k) + l.skip(k)) =~= f.lines);
}

/// Delete at the end of a line that is not the last joins the next line
/// onto it: one line fewer, the cursor's line followed by the next line's
/// text, the other lines and the cursor kept; a newline typed there splits
/// the two lines again. At the end of the last line, delete changes
/// nothing.
pub proof fn law_delete_joins_lines(v: EditorView)
    requires
        v.well_formed(),
        v.cursor_col == byte_len(v.lines[v.cursor_row]),
    ensures
        v.cursor_row + 1 < v.lines.len() ==> {
            let d = v.delete();
            let r = v.cursor_row;
            &&& d.lines.len() == v.lines.len() - 1
            &&& d.lines[r] == v.lines[r] + v.lines[r + 1]
            &&& forall|i: int| 0 <= i < r ==> d.lines[i] == v.lines[i]
            &&& forall|i: int| r < i < d.lines.len() ==> d.lines[i] == v.lines[i + 1]
            &&& d.cursor_row == r && d.cursor_col == v.cursor_col
            &&& d.dirty
            &&& d.insert_newline().lines == v.lines
        },
        v.cursor_row + 1 == v.lines.len() ==> v.delete() == v,
{
    lemma_fix_well_formed(v);
    let r = v.cursor_row;
    let l = v.lines[r];
    if r + 1 < v.lines.len() {
        let d = v.delete();
        let n = l + v.lines[r + 1];
        law_edits_well_formed(v, ' ');
        lemma_fix_well_formed(d);
        assert(n.take(l.len() as int) =~= l);
        assert(n.skip(l.len() as int) =~= v.lines[r + 1]);
        lemma_char_start(n, l.len() as int);
        assert(d.lines.update(r, n.take(l.len() as int)).insert(r + 1, n.skip(l.len() as int)) =~= v.lines);
    }
}

/// Delete inside a line takes out the one character that starts at the
/// cursor and leaves the cursor where it was; typing that character again
/// gives back the lines.
pub proof fn law_delete_then_retype(v: EditorView)
    requires
        v.well_formed(),
        v.cursor_col < byte_len(v.lines[v.cursor_row]),
    ensures
        ({
            let r = v.cursor_row;
            let l = v.lines[r];
            let k = char_at_byte(l, v.cursor_col);
            let d = v.delete();
            &&& 0 <= k < l.len()
            &&& d.lines.len() == v.lines.len()
            &&& d.lines[r].len() == l.len() - 1
            &&& d.lines[r] == l.remove(k)
            &&& forall|i: int| 0 <= i < v.lines.len() && i != r ==> d.lines[i] == v.lines[i]
            &&& d.cursor_row == r && d.cursor_col == v.cursor_col
            &&& d.insert_char(l[k]).lines == v.lines
        }),
{
    lemma_fix_well_formed(v);
    let r = v.cursor_row;
    let l = v.lines[r];
    lemma_on_boundary(l, v.cursor_col);
    let k = char_at_byte(l, v.cursor_col);
    let d = v.delete();
    let n = l.take(k) + l.skip(k + 1);
    assert(n =~= l.remove(k));
    law_edits_well_formed(v, ' ');
    lemma_fix_well_formed(d);
    assert(n.take(k) =~= l.take(k));
    lemma_char_start(n, k);
    assert(n.take(k) + seq![l[k]] + n.skip(k) =~= l);
    assert(d.lines.update(r, n.take(k) + seq![l[k]] + n.skip(k)) =~= v.lines);
}

/// Cursor movements keep a well-formed editor well-formed.
pub proof fn law_moves_keep_well_formed(v: EditorView, h: int)
    requires
        v.well_formed(),
        h >= 0,
    ensures
        v.move_up().well_formed(),
        v.move_down().well_formed(),
        v.move_left().well_formed(),
        v.move_right().well_formed(),
        v.move_end().well_formed(),
        v.page_up(h).well_formed(),
        v.page_down(h).well_formed(),
        v.move_to_end().well_formed(),
        (EditorView { cursor_col: 0, ..v }).well_formed(),
        (EditorView { cursor_row: 0, cursor_col: 0, ..v }).well_formed(),
        v.adjust_scroll(h).well_formed(),
{
    let r = v.cursor_row;
    let l = v.lines[r];
    let c = v.cursor_col;
    let last = v.lines.len() - 1;
    lemma_on_boundary(l, c);
    lemma_char_start(l, 0);
    lemma_char_start(l, l.len() as int);
    lemma_char_start(v.lines[0], 0);
    lemma_char_start(v.lines[last], v.lines[last].len() as int);
    if r > 0 {
        lemma_floor_boundary(v.lines[r - 1], c);
        lemma_char_start(v.lines[r - 1], v.lines[r - 1].len() as int);
    }
    if r + 1 < v.lines.len() {
        lemma_floor_boundary(v.lines[r + 1], c);
        lemma_char_start(v.lines[r + 1], 0);
    }
    if c > 0 {
        lemma_floor_boundary(l, c - 1);
    }
    if c < byte_len(l) {
        lemma_char_start(l, char_at_byte(l, c) + 1);
    }
    let up = if r >= h { r - h } else { 0 };
    lemma_floor_boundary(v.lines[up], c);
    let down = if r + h < last { r + h } else { last };
    lemma_floor_boundary(v.lines[down], c);
}

/// Every editing operation leaves the cursor on a line, at a character
/// boundary of it.
pub proof fn law_edits_well_formed(v: EditorView, ch: char)
    requires
        v.cursor_row >= 0,
        v.cursor_col >= 0,
    ensures
        v.fix_cursor().well_formed(),
        v.insert_char(ch).well_formed(),
        v.insert_newline().well_formed(),
        v.backspace().well_formed(),
        v.delete().well_formed(),
        v.toggle_checkbox().well_formed(),
{
    let f = v.fix_cursor();
    lemma_fix_cursor(v);
    let r = f.cursor_row;
    let c = f.cursor_col;
    let l = f.lines[r];
    lemma_on_boundary(l, c);
    let k = char_at_byte(l, c);
    // typing
    lemma_insert_char_col(l, k, ch);
    lemma_char_start(l.take(k) + seq![ch] + l.skip(k), k + 1);
    // splitting
    lemma_char_start(l.skip(k), 0);
    // backspace
    if c > 0 {
        let n = l.take(k - 1) + l.skip(k);
        assert(n.take(k - 1) =~= l.take(k - 1));
        lemma_char_start(n, k - 1);
    } else if r > 0 {
        let p = f.lines[r - 1];
        assert((p + l).take(p.len() as int) =~= p);
        lemma_char_start(p + l, p.len() as int);
    }
    // delete
    if c < byte_len(l) {
        let n = l.take(k) + l.skip(k + 1);
        assert(n.take(k) =~= l.take(k));
        lemma_char_start(n, k);
    } else if r + 1 < f.lines.len() {
        let n = l + f.lines[r + 1];
        assert(n.take(l.len() as int) =~= l);
        lemma_char_start(n, l.len() as int);
    }
    // toggling
    lemma_toggled_line_len(l);
    lemma_toggled_widths(l);
    if toggled_line(l) is Some {
        lemma_same_widths(l, toggled_line(l)->0, c);
    }
}

/// A simple text editor buffer with cursor support.
#[derive(Debug, Clone)]
pub struct Editor {
    /// Lines of text.
    pub lines: Vec<String>,
    /// Cursor row (0-indexed line number).
    pub cursor_row: usize,
    /// Cursor column (0-indexed byte offset within the line).
    pub cursor_col: usize,
    /// Scroll offset (first visible line).
    pub scroll_offset: usize,
    /// Whether the content has been modified since last save.
    pub dirty: bool,
}

impl View for Editor {
    type V = EditorView;

    open spec fn view(&self) -> EditorView {
        EditorView {
            lines: strings_view(self.lines@),
            cursor_row: self.cursor_row as int,
            cursor_col: self.cursor_col as int,
            scroll_offset: self.scroll_offset as int,
            dirty: self.dirty,
        }
    }
}

impl Editor {
    /// An editor holding `content`, split into lines after normalisation,
    /// with the cursor at the start.
    pub fn new(content: &str) -> (e: Self)
        ensures
            e@.lines == split_on(normalize(content@), '\n'),
            e@.cursor_row == 0,
            e@.cursor_col == 0,
            e@.scroll_offset == 0,
            !e@.dirty,
            e@.well_formed(),
    {
        let lines: Vec<String> = if content.unicode_len() == 0 {
            let mut v: Vec<String> = Vec::new();
            v.push(String::new());
            proof {
                assert(content@ =~= Seq::<char>::empty());
                assert(replace_all(Seq::<char>::empty(), escaped_newline(), seq!['\n']) =~= Seq::<char>::empty());
                assert(replace_all(Seq::<char>::empty(), seq!['\r', '\n'], seq!['\n']) =~= Seq::<char>::empty());
                assert(strings_view(v@) =~= split_on(Seq::<char>::empty(), '\n'));
            }
            v
        } else {
            let chars = to_chars(content);
            let esc = vec!['\\', 'n'];
            assert(esc@ =~= escaped_newline());
            let once = replace_all_chars(&chars, &esc, &vec!['\n']);
            let crlf = vec!['\r', '\n'];
            let lf = vec!['\n'];
            assert(crlf@ =~= seq!['\r', '\n']);
            assert(lf@ =~= seq!['\n']);
            let twice = replace_all_chars(&once, &crlf, &lf);
            split_chars(&twice, '\n')
        };
        proof {
            crate::text::lemma_split_nonempty(normalize(content@), '\n');
        }
        Editor { lines, cursor_row: 0, cursor_col: 0, scroll_offset: 0, dirty: false }
    }

    /// The full content as a single string, lines joined by newlines.
    pub fn content(&self) -> (s: String)
        ensures
            s@ == join_with(self@.lines, '\n'),
    {
        join_strings(&self.lines, '\n')
    }
    /// Insert a character at the cursor position.
    pub fn insert_char(&mut self, c: char)
        ensures
            final(self)@ == old(self)@.insert_char(c),
            final(self)@.well_formed(),
    {
        proof {
            law_edits_well_formed(self@, c);
        }
        self.ensure_cursor_valid();
        let row = self.cursor_row;
        let col = self.cursor_col;
        let ghost l = self@.lines[row as int];
        proof {
            lemma_on_boundary(l, col as int);
        }
        let k = chars_in_bytes(self.lines[row].as_str(), col);
        let ins = vec![c];
        assert(ins@ =~= seq![c]);
        let new_line = splice_str(self.lines[row].as_str(), k, k, &ins);
        let total = byte_count(new_line.as_str());
        let w = utf8_width(c);
        proof {
            lemma_insert_char_col(l, k as int, c);
            lemma_char_start(new_line@, k + 1);
        }
        let ghost before = self@;
        self.lines[row] = new_line;
        self.cursor_col = col + w;
        self.dirty = true;
        assert(self@.lines =~= before.lines.update(row as int, new_line@));
    }

    /// Insert a newline at the cursor (split the current line).
    pub fn insert_newline(&mut self)
        ensures
            final(self)@ == old(self)@.insert_newline(),
            final(self)@.well_formed(),
    {
        proof {
            law_edits_well_formed(self@, ' ');
        }
        self.ensure_cursor_valid();
        let row = self.cursor_row;
        let col = self.cursor_col;
        let ghost l = self@.lines[row as int];
        proof {
            lemma_on_boundary(l, col as int);
        }
        let k = chars_in_bytes(self.lines[row].as_str(), col);
        let none: Vec<char> = Vec::new();
        let line_len = char_len(self.lines[row].as_str());
        let head = splice_str(self.lines[row].as_str(), k, line_len, &none);
        let rest = splice_str(self.lines[row].as_str(), 0, k, &none);
        assert(head@ =~= l.take(k as int));
        assert(rest@ =~= l.skip(k as int));
        let ghost before = self@;
        self.lines[row] = head;
        let ghost mid = strings_view(self.lines@);
        assert(mid =~= before.lines.update(row as int, head@));
        let n = self.lines.len();
        self.lines.insert(row + 1, rest);
        assert(strings_view(self.lines@) =~= mid.insert(row + 1, rest@));
        self.cursor_row = row + 1;
        self.cursor_col = 0;
        self.dirty = true;
    }

    /// Delete the character before the cursor (backspace); at the start of a
    /// line, merge it into the previous line.
    pub fn backspace(&mut self)
        ensures
            final(self)@ == old(self)@.backspace(),
            final(self)@.well_formed(),
    {
        proof {
            law_edits_well_formed(self@, ' ');
        }
        self.ensure_cursor_valid();
        let row = self.cursor_row;
        let col = self.cursor_col;
        let ghost before = self@;
        let ghost l = self@.lines[row as int];
        proof {
            lemma_on_boundary(l, col as int);
        }
        if col > 0 {
            let k = chars_in_bytes(self.lines[row].as_str(), col);
            let none: Vec<char> = Vec::new();
            let new_line = splice_str(self.lines[row].as_str(), k - 1, k, &none);
            let new_col = char_col_to_byte(self.lines[row].as_str(), k - 1);
            assert(new_line@ =~= l.take(k - 1) + l.skip(k as int));
            self.lines[row] = new_line;
            self.cursor_col = new_col;
            self.dirty = true;
            assert(self@.lines =~= before.lines.update(row as int, new_line@));
        } else if row > 0 {
            let current = self.lines.remove(row);
            let ghost mid = strings_view(self.lines@);
            assert(mid =~= before.lines.remove(row as int));
            let mut merged = self.lines[row - 1].clone();
            let plen = byte_count(merged.as_str());
            merged.append(current.as_str());
            self.lines[row - 1] = merged;
            assert(strings_view(self.lines@) =~= mid.update(row - 1, before.lines[row - 1] + before.lines[row as int]));
            self.cursor_row = row - 1;
            self.cursor_col = plen;
            self.dirty = true;
        }
    }

    /// Delete the character at the cursor (delete key); at the end of a line,
    /// merge the next line into it.
    pub fn delete(&mut self)
        ensures
            final(self)@ == old(self)@.delete(),
            final(self)@.well_formed(),
    {
        proof {
            law_edits_well_formed(self@, ' ');
        }
        self.ensure_cursor_valid();
        let row = self.cursor_row;
        let col = self.cursor_col;
        let ghost before = self@;
        let ghost l = self@.lines[row as int];
        proof {
            lemma_on_boundary(l, col as int);
        }
        let line_bytes = byte_count(self.lines[row].as_str());
        if col < line_bytes {
            let k = chars_in_bytes(self.lines[row].as_str(), col);
            let n = char_len(self.lines[row].as_str());
            let none: Vec<char> = Vec::new();
            let new_line = splice_str(self.lines[row].as_str(), k, k + 1, &none);
            assert(new_line@ =~= l.take(k as int) + l.skip(k + 1));
            self.lines[row] = new_line;
            self.dirty = true;
            assert(self@.lines =~= before.lines.update(row as int, new_line@));
        } else if self.lines.len() - row > 1 {
            let next = self.lines.remove(row + 1);
            let ghost mid = strings_view(self.lines@);
            assert(mid =~= before.lines.remove(row + 1));
            let mut merged = self.lines[row].clone();
            merged.append(next.as_str());
            self.lines[row] = merged;
            assert(strings_view(self.lines@) =~= mid.update(row as int, before.lines[row as int] + before.lines[row + 1]));
            self.dirty = true;
        }
    }

    /// Move the cursor up one line.
    pub fn move_up(&mut self)
        requires
            old(self).cursor_row > 0 ==> old(self).cursor_row - 1 < old(self).lines@.len(),
        ensures
            final(self)@ == old(self)@.move_up(),
    {
        if self.cursor_row > 0 {
            self.cursor_row -= 1;
            self.clamp_cursor_col();
        }
    }

    /// Move the cursor down one line.
    pub fn move_down(&mut self)
        ensures
            final(self)@ == old(self)@.move_down(),
    {
        if self.cursor_row < self.lines.len() && self.lines.len() - self.cursor_row > 1 {
            self.cursor_row += 1;
            self.clamp_cursor_col();
        }
    }

    /// Move the cursor left by one character, to the end of the previous
    /// line at a line start.
    pub fn move_left(&mut self)
        requires
            old(self).cursor_col > 0 ==> old(self).cursor_row < old(self).lines@.len(),
            old(self).cursor_col == 0 && old(self).cursor_row > 0 ==> old(self).cursor_row - 1
                < old(self).lines@.len(),
        ensures
            final(self)@ == old(self)@.move_left(),
    {
        if self.cursor_col > 0 {
            let k = chars_in_bytes(self.lines[self.cursor_row].as_str(), self.cursor_col - 1);
            let b = char_col_to_byte(self.lines[self.cursor_row].as_str(), k);
            self.cursor_col = b;
        } else if self.cursor_row > 0 {
            self.cursor_row -= 1;
            self.cursor_col = byte_count(self.lines[self.cursor_row].as_str());
        }
    }

    /// Move the cursor right by one character, to the start of the next line
    /// at a line end.
    pub fn move_right(&mut self)
        requires
            old(self).cursor_row < old(self).lines@.len(),
        ensures
            final(self)@ == old(self)@.move_right(),
    {
        let ghost l = self@.lines[self.cursor_row as int];
        let line_bytes = byte_count(self.lines[self.cursor_row].as_str());
        if self.cursor_col < line_bytes {
            let k = chars_in_bytes(self.lines[self.cursor_row].as_str(), self.cursor_col);
            let n = char_len(self.lines[self.cursor_row].as_str());
            proof {
                lemma_chars_within_bounds(l, self.cursor_col as int);
                assert(l.take(l.len() as int) =~= l);
            }
            let b = char_col_to_byte(self.lines[self.cursor_row].as_str(), k + 1);
            self.cursor_col = b;
        } else if self.lines.len() - self.cursor_row > 1 {
            self.cursor_row += 1;
            self.cursor_col = 0;
        }
    }

    /// Move the cursor to the start of the line.
    pub fn move_home(&mut self)
        ensures
            final(self)@ == (EditorView { cursor_col: 0, ..old(self)@ }),
    {
        self.cursor_col = 0;
    }

    /// Move the cursor to the end of the line: its byte length.
    pub fn move_end(&mut self)
        requires
            old(self).cursor_row < old(self).lines@.len(),
        ensures
            final(self)@ == old(self)@.move_end(),
    {
        self.cursor_col = byte_count(self.lines[self.cursor_row].as_str());
    }

    /// Move the cursor up by a page (`viewport_height` lines).
    pub fn page_up(&mut self, viewport_height: usize)
        requires
            (if old(self).cursor_row >= viewport_height {
                old(self).cursor_row - viewport_height
            } else {
                0
            }) < old(self).lines@.len(),
        ensures
            final(self)@ == old(self)@.page_up(viewport_height as int),
    {
        self.cursor_row = self.cursor_row.saturating_sub(viewport_height);
        self.clamp_cursor_col();
    }

    /// Move the cursor down by a page (`viewport_height` lines), stopping at
    /// the last line.
    pub fn page_down(&mut self, viewport_height: usize)
        requires
            old(self).lines@.len() > 0,
        ensures
            final(self)@ == old(self)@.page_down(viewport_height as int),
    {
        let last = self.lines.len() - 1;
        self.cursor_row = if self.cursor_row < last && viewport_height < last - self.cursor_row {
            self.cursor_row + viewport_height
        } else {
            last
        };
        self.clamp_cursor_col();
    }

    /// Move the cursor to the start of the document.
    pub fn move_to_start(&mut self)
        ensures
            final(self)@ == (EditorView { cursor_row: 0, cursor_col: 0, ..old(self)@ }),
    {
        self.cursor_row = 0;
        self.cursor_col = 0;
    }

    /// Move the cursor to the end of the document.
    pub fn move_to_end(&mut self)
        requires
            old(self).lines@.len() > 0,
        ensures
            final(self)@ == old(self)@.move_to_end(),
    {
        self.cursor_row = self.lines.len() - 1;
        self.cursor_col = byte_count(self.lines[self.cursor_row].as_str());
    }

    /// Toggle the checkbox on the current line (see `toggled_line`).
    pub fn toggle_checkbox(&mut self)
        ensures
            final(self)@ == old(self)@.toggle_checkbox(),
            final(self)@.well_formed(),
    {
        proof {
            law_edits_well_formed(self@, ' ');
        }
        self.ensure_cursor_valid();
        let row = self.cursor_row;
        let ghost before = self@;
        proof {
            lemma_toggled_line_len(before.lines[row as int]);
        }
        match toggle_checkbox_line(self.lines[row].as_str()) {
            Some(new_line) => {
                self.lines[row] = new_line;
                self.dirty = true;
                assert(self@.lines =~= before.lines.update(row as int, new_line@));
            },
            None => {},
        }
    }

    /// Adjust the scroll offset so that the cursor row is visible in a
    /// viewport of `viewport_height` lines.
    pub fn adjust_scroll(&mut self, viewport_height: usize)
        requires
            viewport_height > 0 || old(self).cursor_row < usize::MAX,
        ensures
            final(self)@ == old(self)@.adjust_scroll(viewport_height as int),
    {
        if self.cursor_row < self.scroll_offset {
            self.scroll_offset = self.cursor_row;
        }
        if self.cursor_row >= self.scroll_offset && self.cursor_row - self.scroll_offset
            >= viewport_height {
            self.scroll_offset = self.cursor_row - viewport_height + 1;
        }
    }

    /// Make the cursor valid: at least one line, the row on a line, the
    /// column at a character boundary within it.
    fn ensure_cursor_valid(&mut self)
        ensures
            final(self)@ == old(self)@.fix_cursor(),
            final(self)@.well_formed(),
    {
        proof {
            lemma_fix_cursor(self@);
        }
        if self.lines.len() == 0 {
            self.lines.push(String::new());
            assert(strings_view(self.lines@) =~= seq![Seq::<char>::empty()]);
        }
        if self.cursor_row >= self.lines.len() {
            self.cursor_row = self.lines.len() - 1;
        }
        self.clamp_cursor_col();
    }

    /// Pull the column back to the end of the cursor's line, and to the
    /// start of the character it falls in.
    fn clamp_cursor_col(&mut self)
        requires
            old(self).cursor_row < old(self).lines@.len(),
        ensures
            final(self)@ == old(self)@.clamp_col(),
    {
        let k = chars_in_bytes(self.lines[self.cursor_row].as_str(), self.cursor_col);
        let b = char_col_to_byte(self.lines[self.cursor_row].as_str(), k);
        self.cursor_col = b;
    }
}

} // verus!
