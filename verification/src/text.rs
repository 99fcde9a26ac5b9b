//! Character-level text operations with their mathematical specifications.
//!
//! Strings are modelled by their `Seq<char>` view. The spec functions here
//! state what std's `replace`, `split`, `join`, `contains` and `replacen`
//! compute; the executable functions are proved against them.
use vstd::prelude::*;

verus! {

/// Appends one character to a string (std `String::push`).
#[verifier::external_body]
pub(crate) fn push_char(s: &mut String, c: char)
    ensures
        final(s)@ == old(s)@.push(c),
{
    s.push(c);
}

/// The views of a sequence of strings.
pub open spec fn strings_view(v: Seq<String>) -> Seq<Seq<char>> {
    v.map_values(|s: String| s@)
}

/// `pat` occurs in `s` starting at index `i`.
pub open spec fn occurs_at(s: Seq<char>, pat: Seq<char>, i: int) -> bool {
    &&& 0 <= i
    &&& i + pat.len() <= s.len()
    &&& s.subrange(i, i + pat.len()) == pat
}

/// Every non-overlapping occurrence of a non-empty `pat` in `s`, scanned from
/// the left, replaced by `rep` (std `str::replace`).
pub open spec fn replace_all(s: Seq<char>, pat: Seq<char>, rep: Seq<char>) -> Seq<char>
    decreases s.len(),
{
    if s.len() == 0 {
        Seq::empty()
    } else if pat.len() > 0 && occurs_at(s, pat, 0) {
        rep + replace_all(s.subrange(pat.len() as int, s.len() as int), pat, rep)
    } else {
        seq![s[0]] + replace_all(s.subrange(1, s.len() as int), pat, rep)
    }
}

/// The pieces of `s` between occurrences of `sep` (std `str::split` on a char).
pub open spec fn split_on(s: Seq<char>, sep: char) -> Seq<Seq<char>>
    decreases s.len(),
{
    if s.len() == 0 {
        seq![Seq::<char>::empty()]
    } else {
        let prev = split_on(s.drop_last(), sep);
        if s.last() == sep {
            prev.push(Seq::<char>::empty())
        } else {
            prev.update(prev.len() - 1, prev.last().push(s.last()))
        }
    }
}

/// The pieces joined with `sep` between neighbours (std `join`).
pub open spec fn join_with(parts: Seq<Seq<char>>, sep: char) -> Seq<char>
    decreases parts.len(),
{
    if parts.len() == 0 {
        Seq::empty()
    } else if parts.len() == 1 {
        parts[0]
    } else {
        join_with(parts.drop_last(), sep).push(sep) + parts.last()
    }
}

/// Index of the first occurrence of `pat` in `s` at or after `i`, or -1.
pub open spec fn find_from(s: Seq<char>, pat: Seq<char>, i: int) -> int
    decreases s.len() + 1 - i,
{
    if i < 0 || i + pat.len() > s.len() {
        -1
    } else if occurs_at(s, pat, i) {
        i
    } else {
        find_from(s, pat, i + 1)
    }
}

/// Index of the first occurrence of `pat` in `s`, or -1 (std `str::find`).
pub open spec fn find(s: Seq<char>, pat: Seq<char>) -> int {
    find_from(s, pat, 0)
}

/// `pat` occurs in `s` (std `str::contains`).
pub open spec fn contains(s: Seq<char>, pat: Seq<char>) -> bool {
    find(s, pat) >= 0
}

/// The first occurrence of `pat` replaced by `rep` (std `replacen(.., 1)`).
pub open spec fn replace_first(s: Seq<char>, pat: Seq<char>, rep: Seq<char>) -> Seq<char> {
    let i = find(s, pat);
    if i < 0 {
        s
    } else {
        s.take(i) + rep + s.skip(i + pat.len())
    }
}

/// Splitting never yields an empty list of pieces.
pub proof fn lemma_split_nonempty(s: Seq<char>, sep: char)
    ensures
        split_on(s, sep).len() >= 1,
    decreases s.len(),
{
    if s.len() > 0 {
        lemma_split_nonempty(s.drop_last(), sep);
    }
}

/// Joining the pieces of a split with the same separator gives back the text.
pub proof fn lemma_join_split(s: Seq<char>, sep: char)
    ensures
        join_with(split_on(s, sep), sep) == s,
    decreases s.len(),
{
    if s.len() > 0 {
        let t = s.drop_last();
        let p = split_on(t, sep);
        lemma_join_split(t, sep);
        lemma_split_nonempty(t, sep);
        if s.last() == sep {
            assert(p.push(Seq::<char>::empty()).drop_last() =~= p);
            assert(s =~= t.push(sep));
        } else {
            let q = p.update(p.len() - 1, p.last().push(s.last()));
            if p.len() > 1 {
                assert(q.drop_last() =~= p.drop_last());
                assert(join_with(p, sep) == join_with(p.drop_last(), sep).push(sep) + p.last());
                assert(s =~= t.push(s.last()));
                assert(join_with(q, sep) =~= join_with(p, sep).push(s.last()));
            } else {
                assert(s =~= t.push(s.last()));
            }
        }
    }
}

/// A found index is a real occurrence, at or after the start of the search.
pub proof fn lemma_find_from(s: Seq<char>, pat: Seq<char>, i: int)
    ensures
        find_from(s, pat, i) >= 0 ==> find_from(s, pat, i) >= i && occurs_at(
            s,
            pat,
            find_from(s, pat, i),
        ),
    decreases s.len() + 1 - i,
{
    if !(i < 0 || i + pat.len() > s.len()) && !occurs_at(s, pat, i) {
        lemma_find_from(s, pat, i + 1);
    }
}

/// Replacing with a piece of the same length keeps the length.
pub proof fn lemma_replace_first_len(s: Seq<char>, pat: Seq<char>, rep: Seq<char>)
    requires
        pat.len() == rep.len(),
    ensures
        replace_first(s, pat, rep).len() == s.len(),
{
    lemma_find_from(s, pat, 0);
}

/// A string from its characters.
pub fn from_chars(v: &Vec<char>) -> (s: String)
    ensures
        s@ == v@,
{
    let mut s = String::new();
    let n = v.len();
    for i in 0..n
        invariant
            n == v@.len(),
            s@ == v@.take(i as int),
    {
        push_char(&mut s, v[i]);
        assert(v@.take(i + 1) =~= v@.take(i as int).push(v@[i as int]));
    }
    assert(v@.take(n as int) =~= v@);
    s
}

/// The characters of a string, in order.
pub fn to_chars(s: &str) -> (v: Vec<char>)
    ensures
        v@ == s@,
{
    let mut v: Vec<char> = Vec::new();
    for c in it: s.chars()
        invariant
            v@ == it.seq().take(it.index() as int),
    {
        v.push(c);
    }
    v
}

/// Number of characters (not bytes) in a string.
pub fn char_len(s: &str) -> (n: usize)
    ensures
        n == s@.len(),
{
    s.unicode_len()
}

/// Whether `pat` occurs in `s` at index `i`.
pub fn occurs_at_exec(s: &Vec<char>, pat: &Vec<char>, i: usize) -> (r: bool)
    ensures
        r == occurs_at(s@, pat@, i as int),
{
    if i > s.len() || pat.len() > s.len() - i {
        return false;
    }
    let slen = s.len();
    let mut j: usize = 0;
    while j < pat.len()
        invariant
            slen == s@.len(),
            i + pat@.len() <= s@.len(),
            j <= pat@.len(),
            forall|k: int| 0 <= k < j ==> s@[i + k] == pat@[k],
        decreases pat@.len() - j,
    {
        if s[i + j] != pat[j] {
            assert(s@.subrange(i as int, i + pat@.len())[j as int] != pat@[j as int]);
            return false;
        }
        j += 1;
    }
    assert(s@.subrange(i as int, i + pat@.len()) =~= pat@);
    true
}

/// All non-overlapping occurrences of a non-empty `pat` replaced by `rep`.
pub fn replace_all_chars(s: &Vec<char>, pat: &Vec<char>, rep: &Vec<char>) -> (out: Vec<char>)
    requires
        pat@.len() > 0,
    ensures
        out@ == replace_all(s@, pat@, rep@),
{
    let mut out: Vec<char> = Vec::new();
    let mut i: usize = 0;
    assert(s@.subrange(0, s@.len() as int) =~= s@);
    assert(out@ + s@ =~= s@);
    while i < s.len()
        invariant
            i <= s@.len(),
            pat@.len() > 0,
            replace_all(s@, pat@, rep@) == out@ + replace_all(
                s@.subrange(i as int, s@.len() as int),
                pat@,
                rep@,
            ),
        decreases s@.len() - i,
    {
        let ghost rest = s@.subrange(i as int, s@.len() as int);
        if occurs_at_exec(s, pat, i) {
            assert(rest.subrange(0, pat@.len() as int) =~= s@.subrange(
                i as int,
                i + pat@.len(),
            ));
            let mut k: usize = 0;
            let ghost out0 = out@;
            while k < rep.len()
                invariant
                    k <= rep@.len(),
                    out@ == out0 + rep@.take(k as int),
                decreases rep@.len() - k,
            {
                out.push(rep[k]);
                assert(rep@.take(k + 1) =~= rep@.take(k as int).push(rep@[k as int]));
                k += 1;
            }
            assert(rep@.take(rep@.len() as int) =~= rep@);
            assert(rest.subrange(pat@.len() as int, rest.len() as int) =~= s@.subrange(
                i + pat@.len(),
                s@.len() as int,
            ));
            assert(out0 + (rep@ + replace_all(
                s@.subrange(i + pat@.len(), s@.len() as int),
                pat@,
                rep@,
            )) =~= out@ + replace_all(
                s@.subrange(i + pat@.len(), s@.len() as int),
                pat@,
                rep@,
            ));
            i = i + pat.len();
        } else {
            proof {
                if pat@.len() <= rest.len() {
                    assert(rest.subrange(0, pat@.len() as int) =~= s@.subrange(
                        i as int,
                        i + pat@.len(),
                    ));
                }
            }
            assert(rest.subrange(1, rest.len() as int) =~= s@.subrange(
                i + 1,
                s@.len() as int,
            ));
            let ghost out0 = out@;
            out.push(s[i]);
            assert(out0 + (seq![s@[i as int]] + replace_all(
                s@.subrange(i + 1, s@.len() as int),
                pat@,
                rep@,
            )) =~= out@ + replace_all(s@.subrange(i + 1, s@.len() as int), pat@, rep@));
            i = i + 1;
        }
    }
    assert(out@ + replace_all(s@.subrange(i as int, s@.len() as int), pat@, rep@) =~= out@);
    out
}

/// The pieces of `s` between occurrences of `sep`, as strings.
pub fn split_chars(s: &Vec<char>, sep: char) -> (parts: Vec<String>)
    ensures
        strings_view(parts@) == split_on(s@, sep),
{
    let mut parts: Vec<String> = Vec::new();
    let mut cur: Vec<char> = Vec::new();
    let n = s.len();
    for i in 0..n
        invariant
            n == s@.len(),
            strings_view(parts@).push(cur@) == split_on(s@.take(i as int), sep),
    {
        let ghost before = s@.take(i as int);
        let ghost now = s@.take(i + 1);
        assert(now.drop_last() =~= before);
        proof {
            lemma_split_nonempty(before, sep);
        }
        if s[i] == sep {
            let piece = from_chars(&cur);
            parts.push(piece);
            cur = Vec::new();
            assert(strings_view(parts@) =~= strings_view(parts@.drop_last()).push(piece@));
            assert(strings_view(parts@).push(cur@) =~= split_on(now, sep));
        } else {
            let ghost pv = strings_view(parts@);
            cur.push(s[i]);
            assert(pv.push(cur@) =~= split_on(before, sep).update(
                split_on(before, sep).len() - 1,
                split_on(before, sep).last().push(s@[i as int]),
            ));
        }
    }
    let last = from_chars(&cur);
    let ghost pv = strings_view(parts@);
    parts.push(last);
    assert(strings_view(parts@) =~= pv.push(last@));
    assert(s@.take(n as int) =~= s@);
    parts
}

/// The strings joined with `sep` between neighbours.
pub fn join_strings(parts: &Vec<String>, sep: char) -> (s: String)
    ensures
        s@ == join_with(strings_view(parts@), sep),
{
    let mut s = String::new();
    let n = parts.len();
    for i in 0..n
        invariant
            n == parts@.len(),
            s@ == join_with(strings_view(parts@).take(i as int), sep),
    {
        let ghost v = strings_view(parts@);
        assert(v.take(i + 1).drop_last() =~= v.take(i as int));
        if i == 0 {
            s.append(parts[i].as_str());
            assert(s@ =~= v.take(1)[0]);
        } else {
            push_char(&mut s, sep);
            s.append(parts[i].as_str());
        }
    }
    assert(strings_view(parts@).take(n as int) =~= strings_view(parts@));
    s
}

/// Index of the first occurrence of `pat` in `s`, if any.
pub fn find_chars(s: &Vec<char>, pat: &Vec<char>) -> (r: Option<usize>)
    ensures
        match r {
            Some(i) => find(s@, pat@) == i as int,
            None => find(s@, pat@) == -1,
        },
{
    let mut i: usize = 0;
    if pat.len() > s.len() {
        return None;
    }
    if pat.len() == 0 {
        assert(s@.subrange(0, 0) =~= pat@);
        return Some(0);
    }
    let slen = s.len();
    let last = s.len() - pat.len();
    while i <= last
        invariant
            slen == s@.len(),
            pat@.len() > 0,
            last + pat@.len() == s@.len(),
            i <= last + 1,
            find(s@, pat@) == find_from(s@, pat@, i as int),
        decreases last + 1 - i,
    {
        if occurs_at_exec(s, pat, i) {
            return Some(i);
        }
        i += 1;
    }
    None
}

/// The characters of `s` with the first occurrence of `pat` replaced by `rep`.
pub fn replace_first_chars(s: &Vec<char>, pat: &Vec<char>, rep: &Vec<char>) -> (out: Vec<char>)
    ensures
        out@ == replace_first(s@, pat@, rep@),
{
    match find_chars(s, pat) {
        None => s.clone(),
        Some(i) => {
            proof {
                lemma_find_from(s@, pat@, 0);
            }
            let mut out: Vec<char> = Vec::new();
            let mut k: usize = 0;
            while k < i
                invariant
                    k <= i,
                    i + pat@.len() <= s@.len(),
                    out@ == s@.take(k as int),
                decreases i - k,
            {
                out.push(s[k]);
                assert(s@.take(k + 1) =~= s@.take(k as int).push(s@[k as int]));
                k += 1;
            }
            let mut k: usize = 0;
            while k < rep.len()
                invariant
                    k <= rep@.len(),
                    out@ == s@.take(i as int) + rep@.take(k as int),
                decreases rep@.len() - k,
            {
                out.push(rep[k]);
                assert(rep@.take(k + 1) =~= rep@.take(k as int).push(rep@[k as int]));
                k += 1;
            }
            assert(rep@.take(rep@.len() as int) =~= rep@);
            let slen = s.len();
            assert(i + pat@.len() <= slen);
            let start: usize = i + pat.len();
            let mut k: usize = start;
            while k < s.len()
                invariant
                    slen == s@.len(),
                    start <= k <= s@.len(),
                    out@ == s@.take(i as int) + rep@ + s@.subrange(start as int, k as int),
                decreases s@.len() - k,
            {
                out.push(s[k]);
                assert(s@.subrange(start as int, k + 1) =~= s@.subrange(start as int, k as int).push(
                    s@[k as int],
                ));
                k += 1;
            }
            assert(s@.subrange(start as int, s@.len() as int) =~= s@.skip(start as int));
            out
        },
    }
}

/// The decimal digit for `d < 10`.
pub open spec fn digit_char(d: nat) -> char {
    if d == 0 { '0' } else if d == 1 { '1' } else if d == 2 { '2' } else if d == 3 { '3' }
    else if d == 4 { '4' } else if d == 5 { '5' } else if d == 6 { '6' } else if d == 7 { '7' }
    else if d == 8 { '8' } else { '9' }
}

/// Decimal notation of a natural number, as `{}` formats it.
pub open spec fn decimal(n: nat) -> Seq<char>
    decreases n,
{
    if n < 10 {
        seq![digit_char(n)]
    } else {
        decimal(n / 10).push(digit_char(n % 10))
    }
}

fn digit_exec(d: usize) -> (c: char)
    requires
        d < 10,
    ensures
        c == digit_char(d as nat),
{
    if d == 0 { '0' } else if d == 1 { '1' } else if d == 2 { '2' } else if d == 3 { '3' }
    else if d == 4 { '4' } else if d == 5 { '5' } else if d == 6 { '6' } else if d == 7 { '7' }
    else if d == 8 { '8' } else { '9' }
}

/// Appends the decimal notation of `n` to `s`.
pub fn push_decimal(s: &mut String, n: usize)
    ensures
        final(s)@ == old(s)@ + decimal(n as nat),
    decreases n,
{
    if n < 10 {
        push_char(s, digit_exec(n));
    } else {
        push_decimal(s, n / 10);
        push_char(s, digit_exec(n % 10));
    }
}

/// Appends `t` to `s`.
pub fn push_str(s: &mut String, t: &str)
    ensures
        final(s)@ == old(s)@ + t@,
{
    s.append(t);
}

/// `v` with the characters in `[from, to)` replaced by `ins`.
pub fn splice_chars(v: &Vec<char>, from: usize, to: usize, ins: &Vec<char>) -> (out: Vec<char>)
    requires
        from <= to <= v@.len(),
    ensures
        out@ == v@.take(from as int) + ins@ + v@.skip(to as int),
{
    let mut out: Vec<char> = Vec::new();
    let mut k: usize = 0;
    while k < from
        invariant
            k <= from <= to <= v@.len(),
            out@ == v@.take(k as int),
        decreases from - k,
    {
        out.push(v[k]);
        assert(v@.take(k + 1) =~= v@.take(k as int).push(v@[k as int]));
        k += 1;
    }
    let mut k: usize = 0;
    while k < ins.len()
        invariant
            k <= ins@.len(),
            out@ == v@.take(from as int) + ins@.take(k as int),
        decreases ins@.len() - k,
    {
        out.push(ins[k]);
        assert(ins@.take(k + 1) =~= ins@.take(k as int).push(ins@[k as int]));
        k += 1;
    }
    assert(ins@.take(ins@.len() as int) =~= ins@);
    let n = v.len();
    let mut k: usize = to;
    while k < n
        invariant
            n == v@.len(),
            to <= k <= n,
            out@ == v@.take(from as int) + ins@ + v@.subrange(to as int, k as int),
        decreases n - k,
    {
        out.push(v[k]);
        assert(v@.subrange(to as int, k + 1) =~= v@.subrange(to as int, k as int).push(
            v@[k as int],
        ));
        k += 1;
    }
    assert(v@.subrange(to as int, n as int) =~= v@.skip(to as int));
    out
}

/// The string whose characters are `s` with `[from, to)` replaced by `ins`.
pub fn splice_str(s: &str, from: usize, to: usize, ins: &Vec<char>) -> (out: String)
    requires
        from <= to <= s@.len(),
    ensures
        out@ == s@.take(from as int) + ins@ + s@.skip(to as int),
{
    let v = to_chars(s);
    let w = splice_chars(&v, from, to, ins);
    from_chars(&w)
}

/// UTF-8 encoding distributes over concatenation.
pub proof fn lemma_encode_concat(a: Seq<char>, b: Seq<char>)
    ensures
        vstd::utf8::encode_utf8(a + b) == vstd::utf8::encode_utf8(a) + vstd::utf8::encode_utf8(b),
    decreases a.len(),
{
    if a.len() > 0 {
        lemma_encode_concat(a.drop_first(), b);
        assert((a + b).drop_first() =~= a.drop_first() + b);
        assert((a + b)[0] == a[0]);
        assert(vstd::utf8::encode_scalar(a[0] as u32) + (vstd::utf8::encode_utf8(a.drop_first())
            + vstd::utf8::encode_utf8(b)) =~= (vstd::utf8::encode_scalar(a[0] as u32)
            + vstd::utf8::encode_utf8(a.drop_first())) + vstd::utf8::encode_utf8(b));
    } else {
        assert(a + b =~= b);
    }
}

/// Number of bytes in the UTF-8 encoding of a character.
pub fn utf8_width(c: char) -> (n: usize)
    ensures
        n == vstd::utf8::encode_utf8(seq![c]).len(),
{
    let v = c as u32;
    assert(seq![c].drop_first() =~= Seq::<char>::empty());
    assert(vstd::utf8::encode_utf8(seq![c]) =~= vstd::utf8::encode_scalar(c as u32)
        + vstd::utf8::encode_utf8(Seq::<char>::empty()));
    assert(vstd::utf8::encode_utf8(Seq::<char>::empty()) =~= Seq::<u8>::empty());
    if v <= 0x7F {
        1
    } else if v <= 0x7FF {
        2
    } else if v <= 0xFFFF {
        3
    } else {
        4
    }
}

/// Byte offset of the character at column `col` of `s`, or the byte length of
/// `s` when the column is at or past its end.
pub fn char_col_to_byte(s: &str, col: usize) -> (b: usize)
    ensures
        b == vstd::utf8::encode_utf8(s@.take(if col < s@.len() { col as int } else { s@.len() as int })).len(),
{
    let total = s.as_bytes().len();
    let chars = to_chars(s);
    let n = chars.len();
    let stop = if col < n { col } else { n };
    let mut b: usize = 0;
    let mut k: usize = 0;
    proof {
        lemma_encode_concat(s@.take(0), s@.skip(0));
        assert(s@.take(0) + s@.skip(0) =~= s@);
    }
    while k < stop
        invariant
            stop <= n == chars@.len(),
            chars@ == s@,
            total == vstd::utf8::encode_utf8(s@).len(),
            k <= stop,
            b == vstd::utf8::encode_utf8(s@.take(k as int)).len(),
        decreases stop - k,
    {
        let w = utf8_width(chars[k]);
        proof {
            assert(s@.take(k + 1) =~= s@.take(k as int) + seq![s@[k as int]]);
            lemma_encode_concat(s@.take(k as int), seq![s@[k as int]]);
            lemma_encode_concat(s@.take(k + 1), s@.skip(k + 1));
            assert(s@.take(k + 1) + s@.skip(k + 1) =~= s@);
        }
        b = b + w;
        k += 1;
    }
    b
}

/// The lowercase mapping of a string, as std's `str::to_lowercase` computes
/// it from the Unicode tables.
pub uninterp spec fn lowercase(s: Seq<char>) -> Seq<char>;

/// std `str::to_lowercase`; its result is `lowercase` of the argument.
#[verifier::external_body]
pub(crate) fn to_lowercase(s: &str) -> (r: String)
    ensures
        r@ == lowercase(s@),
{
    s.to_lowercase()
}

/// The uppercase mapping of a string, as std's `str::to_uppercase`
/// computes it from the Unicode tables.
pub uninterp spec fn uppercase(s: Seq<char>) -> Seq<char>;

/// std `str::to_uppercase`; its result is `uppercase` of the argument.
#[verifier::external_body]
pub(crate) fn to_uppercase(s: &str) -> (r: String)
    ensures
        r@ == uppercase(s@),
{
    s.to_uppercase()
}

/// Whether two character sequences are equal.
pub fn chars_eq(a: &Vec<char>, b: &Vec<char>) -> (r: bool)
    ensures
        r == (a@ == b@),
{
    if a.len() != b.len() {
        return false;
    }
    let n = a.len();
    for i in 0..n
        invariant
            n == a@.len() == b@.len(),
            forall|k: int| 0 <= k < i ==> a@[k] == b@[k],
    {
        if a[i] != b[i] {
            return false;
        }
    }
    assert(a@ =~= b@);
    true
}

/// Whether two strings are equal.
pub fn str_eq(a: &str, b: &str) -> (r: bool)
    ensures
        r == (a@ == b@),
{
    chars_eq(&to_chars(a), &to_chars(b))
}

/// Lexicographic order of character sequences by code point; for UTF-8
/// strings this is the order of std's `Ord for str`.
pub open spec fn seq_lt(a: Seq<char>, b: Seq<char>) -> bool
    decreases a.len(),
{
    if a.len() == 0 {
        b.len() > 0
    } else if b.len() == 0 {
        false
    } else if a[0] != b[0] {
        (a[0] as int) < (b[0] as int)
    } else {
        seq_lt(a.drop_first(), b.drop_first())
    }
}

/// The order is a strict total order: exactly one of `a < b`, `a == b`,
/// `b < a` holds.
pub proof fn lemma_seq_lt_trichotomy(a: Seq<char>, b: Seq<char>)
    ensures
        seq_lt(a, b) || a == b || seq_lt(b, a),
        !(seq_lt(a, b) && seq_lt(b, a)),
        !(seq_lt(a, b) && a == b),
    decreases a.len(),
{
    if a.len() > 0 && b.len() > 0 && a[0] == b[0] {
        lemma_seq_lt_trichotomy(a.drop_first(), b.drop_first());
        if a.drop_first() == b.drop_first() {
            assert(a =~= seq![a[0]] + a.drop_first());
            assert(b =~= seq![b[0]] + b.drop_first());
        }
    } else if a.len() > 0 && b.len() > 0 {
        assert((a[0] as int) != (b[0] as int));
    } else if a.len() == 0 && b.len() == 0 {
        assert(a =~= b);
    }
}

/// The order is transitive.
pub proof fn lemma_seq_lt_transitive(a: Seq<char>, b: Seq<char>, c: Seq<char>)
    requires
        seq_lt(a, b),
        seq_lt(b, c),
    ensures
        seq_lt(a, c),
    decreases a.len(),
{
    if a.len() > 0 && b.len() > 0 && c.len() > 0 && a[0] == b[0] && b[0] == c[0] {
        lemma_seq_lt_transitive(a.drop_first(), b.drop_first(), c.drop_first());
    }
}

/// Whether `a` comes strictly before `b` in code-point order.
pub fn str_lt(a: &str, b: &str) -> (r: bool)
    ensures
        r == seq_lt(a@, b@),
{
    let x = to_chars(a);
    let y = to_chars(b);
    let mut i: usize = 0;
    assert(a@.skip(0) =~= a@);
    assert(b@.skip(0) =~= b@);
    while i < x.len() && i < y.len() && x[i] == y[i]
        invariant
            i <= x@.len(),
            i <= y@.len(),
            x@ == a@,
            y@ == b@,
            seq_lt(a@, b@) == seq_lt(a@.skip(i as int), b@.skip(i as int)),
        decreases x@.len() - i,
    {
        assert(a@.skip(i + 1) =~= a@.skip(i as int).drop_first());
        assert(b@.skip(i + 1) =~= b@.skip(i as int).drop_first());
        i += 1;
    }
    if i == x.len() {
        i < y.len()
    } else if i == y.len() {
        false
    } else {
        assert(a@.skip(i as int)[0] == x@[i as int]);
        assert(b@.skip(i as int)[0] == y@[i as int]);
        x[i] < y[i]
    }
}


/// Whether `c` is white space in Unicode's sense (the `White_Space`
/// property, which std's `char::is_whitespace` and `str::trim` use).
pub open spec fn is_white_space(c: char) -> bool {
    ('\t' <= c && c <= '\r') || c == ' ' || c == '\u{85}' || c == '\u{a0}' || c == '\u{1680}'
        || ('\u{2000}' <= c && c <= '\u{200a}') || c == '\u{2028}' || c == '\u{2029}'
        || c == '\u{202f}' || c == '\u{205f}' || c == '\u{3000}'
}

/// `s` without its leading white space.
pub open spec fn trim_start(s: Seq<char>) -> Seq<char>
    decreases s.len(),
{
    if s.len() > 0 && is_white_space(s[0]) {
        trim_start(s.drop_first())
    } else {
        s
    }
}

/// `s` without its trailing white space.
pub open spec fn trim_end(s: Seq<char>) -> Seq<char>
    decreases s.len(),
{
    if s.len() > 0 && is_white_space(s.last()) {
        trim_end(s.drop_last())
    } else {
        s
    }
}

/// `s` without leading and trailing white space (std `str::trim`).
pub open spec fn trim(s: Seq<char>) -> Seq<char> {
    trim_end(trim_start(s))
}

fn is_white_space_exec(c: char) -> (b: bool)
    ensures
        b == is_white_space(c),
{
    (c >= '\t' && c <= '\r') || c == ' ' || c == '\u{85}' || c == '\u{a0}' || c == '\u{1680}'
        || (c >= '\u{2000}' && c <= '\u{200a}') || c == '\u{2028}' || c == '\u{2029}'
        || c == '\u{202f}' || c == '\u{205f}' || c == '\u{3000}'
}

/// The characters of `s` without leading and trailing white space.
pub fn trim_chars(s: &Vec<char>) -> (out: Vec<char>)
    ensures
        out@ == trim(s@),
{
    let n = s.len();
    let mut i: usize = 0;
    assert(s@.subrange(0, n as int) =~= s@);
    while i < n && is_white_space_exec(s[i])
        invariant
            n == s@.len(),
            i <= n,
            trim_start(s@) == trim_start(s@.subrange(i as int, n as int)),
        decreases n - i,
    {
        assert(s@.subrange(i as int, n as int).drop_first() =~= s@.subrange(i + 1, n as int));
        i += 1;
    }
    assert(trim_start(s@) == s@.subrange(i as int, n as int));
    let mut j: usize = n;
    while j > i && is_white_space_exec(s[j - 1])
        invariant
            n == s@.len(),
            i <= j <= n,
            trim_start(s@) == s@.subrange(i as int, n as int),
            trim(s@) == trim_end(s@.subrange(i as int, j as int)),
        decreases j - i,
    {
        assert(s@.subrange(i as int, j as int).drop_last() =~= s@.subrange(i as int, j - 1));
        j -= 1;
    }
    let mut out: Vec<char> = Vec::new();
    let mut k: usize = i;
    while k < j
        invariant
            n == s@.len(),
            i <= k <= j <= n,
            out@ == s@.subrange(i as int, k as int),
        decreases j - k,
    {
        out.push(s[k]);
        assert(s@.subrange(i as int, k + 1) =~= s@.subrange(i as int, k as int).push(s@[k as int]));
        k += 1;
    }
    out
}

/// The non-empty trimmed pieces, in order.
pub open spec fn nonempty_trimmed(parts: Seq<Seq<char>>) -> Seq<Seq<char>>
    decreases parts.len(),
{
    if parts.len() == 0 {
        Seq::empty()
    } else {
        let prev = nonempty_trimmed(parts.drop_last());
        let t = trim(parts.last());
        if t.len() == 0 {
            prev
        } else {
            prev.push(t)
        }
    }
}

/// The records of a line-oriented text: its lines, each trimmed, without
/// the blank ones.
pub open spec fn text_records(text: Seq<char>) -> Seq<Seq<char>> {
    nonempty_trimmed(split_on(text, '\n'))
}

/// The records of a line-oriented text (see `text_records`).
pub fn records_of(text: &str) -> (recs: Vec<String>)
    ensures
        strings_view(recs@) == text_records(text@),
{
    let parts = split_chars(&to_chars(text), '\n');
    let ghost pv = strings_view(parts@);
    let mut recs: Vec<String> = Vec::new();
    let n = parts.len();
    for i in 0..n
        invariant
            n == parts@.len(),
            pv == strings_view(parts@),
            pv == split_on(text@, '\n'),
            strings_view(recs@) == nonempty_trimmed(pv.take(i as int)),
    {
        assert(pv.take(i + 1).drop_last() =~= pv.take(i as int));
        assert(pv.take(i + 1).last() == parts@[i as int]@);
        let t = trim_chars(&to_chars(parts[i].as_str()));
        if t.len() > 0 {
            recs.push(from_chars(&t));
            assert(strings_view(recs@) =~= nonempty_trimmed(pv.take(i as int)).push(t@));
        }
    }
    assert(pv.take(n as int) =~= pv);
    recs
}


/// The pieces joined with the string `sep` between neighbours (std
/// `join` with a `&str` separator).
pub open spec fn join_by(parts: Seq<Seq<char>>, sep: Seq<char>) -> Seq<char>
    decreases parts.len(),
{
    if parts.len() == 0 {
        Seq::empty()
    } else if parts.len() == 1 {
        parts[0]
    } else {
        join_by(parts.drop_last(), sep) + sep + parts.last()
    }
}

/// The strings joined with `sep` between neighbours (see `join_by`).
pub fn join_str(parts: &Vec<String>, sep: &str) -> (s: String)
    ensures
        s@ == join_by(strings_view(parts@), sep@),
{
    let ghost v = strings_view(parts@);
    let mut s = String::new();
    let n = parts.len();
    for i in 0..n
        invariant
            n == parts@.len(),
            v == strings_view(parts@),
            s@ == join_by(v.take(i as int), sep@),
    {
        assert(v.take(i + 1).drop_last() =~= v.take(i as int));
        if i == 0 {
            push_str(&mut s, parts[i].as_str());
            assert(s@ =~= v.take(1)[0]);
        } else {
            push_str(&mut s, sep);
            push_str(&mut s, parts[i].as_str());
        }
    }
    assert(v.take(n as int) =~= v);
    s
}


/// Whether `pat` occurs in `s` (std `str::contains`).
pub fn str_contains(s: &str, pat: &str) -> (b: bool)
    ensures
        b == contains(s@, pat@),
{
    find_chars(&to_chars(s), &to_chars(pat)).is_some()
}


/// An occurrence at or after `i` means the search from `i` finds one.
pub proof fn lemma_occurs_found(s: Seq<char>, pat: Seq<char>, i: int, j: int)
    requires
        0 <= i <= j,
        occurs_at(s, pat, j),
    ensures
        find_from(s, pat, i) >= 0,
    decreases j - i,
{
    if !occurs_at(s, pat, i) {
        lemma_occurs_found(s, pat, i + 1, j);
    }
}

/// Replacing a pattern that does not occur leaves the text unchanged.
pub proof fn lemma_replace_all_absent(s: Seq<char>, pat: Seq<char>, rep: Seq<char>)
    requires
        !contains(s, pat),
    ensures
        replace_all(s, pat, rep) == s,
    decreases s.len(),
{
    if s.len() > 0 {
        let t = s.subrange(1, s.len() as int);
        if pat.len() > 0 && occurs_at(s, pat, 0) {
            lemma_occurs_found(s, pat, 0, 0);
        }
        if contains(t, pat) {
            lemma_find_from(t, pat, 0);
            lemma_contains_suffix(seq![s[0]], t, pat, find(t, pat));
            assert(seq![s[0]] + t =~= s);
        }
        lemma_replace_all_absent(t, pat, rep);
        assert(seq![s[0]] + t =~= s);
    }
}

/// A pattern found in `b` is found in `a + b`.
pub proof fn lemma_contains_suffix(a: Seq<char>, b: Seq<char>, pat: Seq<char>, j: int)
    requires
        occurs_at(b, pat, j),
    ensures
        contains(a + b, pat),
{
    assert((a + b).subrange(a.len() + j, a.len() + j + pat.len()) =~= b.subrange(j, j + pat.len()));
    lemma_occurs_found(a + b, pat, 0, a.len() + j);
}


/// The length in bytes of the UTF-8 encoding of `s` (std `str::len`).
pub open spec fn byte_len(s: Seq<char>) -> nat {
    vstd::utf8::encode_utf8(s).len()
}

/// How many leading characters of `s` fit in `b` bytes.
pub open spec fn chars_within(s: Seq<char>, b: int) -> nat
    decreases s.len(),
{
    if s.len() == 0 {
        0
    } else if byte_len(seq![s[0]]) <= b {
        1 + chars_within(s.drop_first(), b - byte_len(seq![s[0]]))
    } else {
        0
    }
}

/// The leading characters of `s` that fit in `b` bytes; when `b` is a
/// character boundary of `s` this is std's `&s[..b]`.
pub open spec fn byte_prefix(s: Seq<char>, b: int) -> Seq<char> {
    s.take(chars_within(s, b) as int)
}

/// Whether `s` has at least `b` bytes and a character boundary at `b`, so
/// that std's `&s[..b]` does not panic.
pub open spec fn cuttable(s: Seq<char>, b: int) -> bool {
    byte_len(byte_prefix(s, b)) == b
}

/// The length of `s` in bytes (std `str::len`).
pub fn byte_count(s: &str) -> (n: usize)
    ensures
        n == byte_len(s@),
{
    s.as_bytes().len()
}

/// How many leading characters of `s` fit in `b` bytes (see `chars_within`).
pub fn chars_in_bytes(s: &str, b: usize) -> (k: usize)
    ensures
        k == chars_within(s@, b as int),
        k <= s@.len(),
{
    let c = to_chars(s);
    let n = c.len();
    let mut i: usize = 0;
    let mut rem: usize = b;
    assert(s@.skip(0) =~= s@);
    while i < n && utf8_width(c[i]) <= rem
        invariant
            n == c@.len(),
            c@ == s@,
            i <= n,
            chars_within(s@, b as int) == i + chars_within(s@.skip(i as int), rem as int),
        decreases n - i,
    {
        assert(s@.skip(i as int).drop_first() =~= s@.skip(i + 1));
        assert(s@.skip(i as int)[0] == c@[i as int]);
        rem -= utf8_width(c[i]);
        i += 1;
    }
    if i < n {
        assert(s@.skip(i as int)[0] == c@[i as int]);
    }
    i
}

/// The leading characters of `s` that fit in `b` bytes (see
/// `byte_prefix`).
pub fn prefix_bytes(s: &str, b: usize) -> (r: String)
    ensures
        r@ == byte_prefix(s@, b as int),
{
    let c = to_chars(s);
    let n = c.len();
    let i = chars_in_bytes(s, b);
    let mut r = String::new();
    let mut k: usize = 0;
    while k < i
        invariant
            i <= n == c@.len(),
            c@ == s@,
            k <= i,
            r@ == s@.take(k as int),
        decreases i - k,
    {
        push_char(&mut r, c[k]);
        assert(s@.take(k + 1) =~= s@.take(k as int).push(c@[k as int]));
        k += 1;
    }
    r
}

/// A character takes one to four bytes.
pub proof fn lemma_char_width(c: char)
    ensures
        1 <= byte_len(seq![c]) <= 4,
{
    assert(seq![c].drop_first() =~= Seq::<char>::empty());
    assert(vstd::utf8::encode_utf8(Seq::<char>::empty()) =~= Seq::<u8>::empty());
}

/// The bytes of the two halves of a cut add up to those of the whole.
pub proof fn lemma_byte_len_split(s: Seq<char>, k: int)
    requires
        0 <= k <= s.len(),
    ensures
        byte_len(s) == byte_len(s.take(k)) + byte_len(s.skip(k)),
{
    lemma_encode_concat(s.take(k), s.skip(k));
    assert(s.take(k) + s.skip(k) =~= s);
}

/// Each further character moves the byte offset of its end forward by its
/// width.
pub proof fn lemma_byte_len_step(s: Seq<char>, k: int)
    requires
        0 <= k < s.len(),
    ensures
        byte_len(s.take(k + 1)) == byte_len(s.take(k)) + byte_len(seq![s[k]]),
        byte_len(s.take(k)) < byte_len(s.take(k + 1)) <= byte_len(s),
{
    lemma_encode_concat(s.take(k), seq![s[k]]);
    assert(s.take(k + 1) =~= s.take(k) + seq![s[k]]);
    lemma_char_width(s[k]);
    lemma_byte_len_split(s, k + 1);
}

/// The byte offset at which character `k` starts holds exactly `k` whole
/// characters before it.
pub proof fn lemma_chars_within_start(s: Seq<char>, k: int)
    requires
        0 <= k <= s.len(),
    ensures
        chars_within(s, byte_len(s.take(k)) as int) == k,
    decreases k,
{
    if k == 0 {
        assert(s.take(0) =~= Seq::<char>::empty());
        assert(vstd::utf8::encode_utf8(Seq::<char>::empty()) =~= Seq::<u8>::empty());
        if s.len() > 0 {
            lemma_char_width(s[0]);
        }
    } else {
        let t = s.drop_first();
        lemma_chars_within_start(t, k - 1);
        assert(s.take(k) =~= seq![s[0]] + t.take(k - 1));
        lemma_encode_concat(seq![s[0]], t.take(k - 1));
    }
}

/// `chars_within(s, b)` counts the characters that end at or before byte
/// `b`: they fit, and one more would not.
pub proof fn lemma_chars_within_bounds(s: Seq<char>, b: int)
    requires
        b >= 0,
    ensures
        chars_within(s, b) <= s.len(),
        byte_len(s.take(chars_within(s, b) as int)) <= b,
        chars_within(s, b) < s.len() ==> b < byte_len(s.take(chars_within(s, b) + 1int)),
    decreases s.len(),
{
    assert(s.take(0) =~= Seq::<char>::empty());
    assert(vstd::utf8::encode_utf8(Seq::<char>::empty()) =~= Seq::<u8>::empty());
    if s.len() > 0 {
        let t = s.drop_first();
        let w = byte_len(seq![s[0]]);
        lemma_char_width(s[0]);
        if w <= b {
            lemma_chars_within_bounds(t, b - w);
            let k = chars_within(t, b - w) as int;
            assert(s.take(k + 1) =~= seq![s[0]] + t.take(k));
            lemma_encode_concat(seq![s[0]], t.take(k));
            if k < t.len() {
                assert(s.take(k + 2) =~= seq![s[0]] + t.take(k + 1));
                lemma_encode_concat(seq![s[0]], t.take(k + 1));
            }
        } else {
            assert(s.take(1) =~= seq![s[0]]);
        }
    }
}

/// The last character boundary of `s` at or before byte `b` is a boundary
/// that can be cut, no later than `b` and no later than the end.
pub proof fn lemma_floor_boundary(s: Seq<char>, b: int)
    requires
        b >= 0,
    ensures
        cuttable(s, byte_len(byte_prefix(s, b)) as int),
        byte_len(byte_prefix(s, b)) <= b,
        byte_len(byte_prefix(s, b)) <= byte_len(s),
        chars_within(s, b) <= s.len(),
        cuttable(s, b) && b <= byte_len(s) ==> byte_len(byte_prefix(s, b)) == b,
{
    lemma_chars_within_bounds(s, b);
    let k = chars_within(s, b) as int;
    lemma_chars_within_start(s, k);
    lemma_byte_len_split(s, k);
}

/// Two sequences whose characters take the same number of bytes, position by
/// position.
pub open spec fn same_widths(a: Seq<char>, b: Seq<char>) -> bool {
    &&& a.len() == b.len()
    &&& forall|i: int| 0 <= i < a.len() ==> byte_len(seq![#[trigger] a[i]]) == byte_len(seq![b[i]])
}

/// Sequences of the same widths have the same character boundaries.
pub proof fn lemma_same_widths(a: Seq<char>, b: Seq<char>, x: int)
    requires
        same_widths(a, b),
    ensures
        chars_within(a, x) == chars_within(b, x),
        byte_len(a) == byte_len(b),
        byte_len(byte_prefix(a, x)) == byte_len(byte_prefix(b, x)),
        cuttable(a, x) == cuttable(b, x),
    decreases a.len(),
{
    assert(vstd::utf8::encode_utf8(Seq::<char>::empty()) =~= Seq::<u8>::empty());
    assert(a.take(0) =~= Seq::<char>::empty());
    assert(b.take(0) =~= Seq::<char>::empty());
    if a.len() > 0 {
        let (ta, tb) = (a.drop_first(), b.drop_first());
        assert(byte_len(seq![a[0]]) == byte_len(seq![b[0]]));
        assert(same_widths(ta, tb)) by {
            assert forall|i: int| 0 <= i < ta.len() implies byte_len(seq![#[trigger] ta[i]]) == byte_len(seq![tb[i]]) by {
                assert(ta[i] == a[i + 1] && tb[i] == b[i + 1]);
            }
        }
        let w = byte_len(seq![a[0]]) as int;
        lemma_same_widths(ta, tb, x - w);
        lemma_encode_concat(seq![a[0]], ta);
        lemma_encode_concat(seq![b[0]], tb);
        assert(a =~= seq![a[0]] + ta);
        assert(b =~= seq![b[0]] + tb);
        if w <= x {
            lemma_chars_within_bounds(ta, x - w);
            let k = chars_within(ta, x - w) as int;
            assert(a.take(k + 1) =~= seq![a[0]] + ta.take(k));
            assert(b.take(k + 1) =~= seq![b[0]] + tb.take(k));
            lemma_encode_concat(seq![a[0]], ta.take(k));
            lemma_encode_concat(seq![b[0]], tb.take(k));
        }
    }
}

/// Replacing the first occurrence of a pattern by a piece of the same
/// widths keeps the widths.
pub proof fn lemma_replace_first_widths(s: Seq<char>, pat: Seq<char>, rep: Seq<char>)
    requires
        same_widths(pat, rep),
    ensures
        same_widths(s, replace_first(s, pat, rep)),
{
    lemma_find_from(s, pat, 0);
    let i = find(s, pat);
    if i >= 0 {
        let n = replace_first(s, pat, rep);
        assert(n.len() == s.len());
        assert forall|k: int| 0 <= k < s.len() implies byte_len(seq![#[trigger] s[k]]) == byte_len(seq![n[k]]) by {
            if k < i {
                assert(n[k] == s.take(i)[k]);
            } else if k < i + pat.len() {
                assert(n[k] == rep[k - i]);
                assert(s[k] == s.subrange(i, i + pat.len())[k - i]);
            } else {
                assert(n[k] == s.skip(i + pat.len())[k - i - pat.len()]);
            }
        }
    }
}

/// `&s[..b]` when `s` is longer than `b` bytes, else `s` itself.
pub open spec fn shortened(s: Seq<char>, b: int) -> Seq<char> {
    if byte_len(s) > b {
        byte_prefix(s, b)
    } else {
        s
    }
}

/// `s` cut to its first `b` bytes when it is longer (see `shortened`).
pub fn shorten(s: &str, b: usize) -> (r: String)
    ensures
        r@ == shortened(s@, b as int),
{
    if s.as_bytes().len() > b {
        prefix_bytes(s, b)
    } else {
        s.to_owned()
    }
}

} // verus!
