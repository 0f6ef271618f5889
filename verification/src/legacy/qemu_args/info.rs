//! Reading the virtual size of a disk from what `qemu-img info` prints.

use vstd::prelude::*;
use crate::text::{seq_join, views};

verus! {

/// Whether a character is white space (Unicode's `White_Space`), as
/// `char::is_whitespace` decides.
pub open spec fn is_ws(c: char) -> bool {
    c == '\t' || c == '\n' || c == '\u{0B}' || c == '\u{0C}' || c == '\r' || c == ' ' || c == '\u{85}' || c == '\u{A0}'
        || c == '\u{1680}' || ('\u{2000}' <= c && c <= '\u{200A}') || c == '\u{2028}' || c == '\u{2029}'
        || c == '\u{202F}' || c == '\u{205F}' || c == '\u{3000}'
}

/// Whether a character is white space.
pub fn is_whitespace(c: char) -> (r: bool)
    ensures
        r == is_ws(c),
{
    c == '\t' || c == '\n' || c == '\u{0B}' || c == '\u{0C}' || c == '\r' || c == ' ' || c == '\u{85}' || c == '\u{A0}'
        || c == '\u{1680}' || ('\u{2000}' <= c && c <= '\u{200A}') || c == '\u{2028}' || c == '\u{2029}'
        || c == '\u{202F}' || c == '\u{205F}' || c == '\u{3000}'
}

/// How many characters from the start are not white space.
pub open spec fn word_len(s: Seq<char>) -> nat
    decreases s.len(),
{
    if s.len() == 0 || is_ws(s[0]) { 0 } else { 1 + word_len(s.subrange(1, s.len() as int)) }
}

/// The words of a text: its runs of characters that are not white space,
/// as `str::split_whitespace` gives them.
pub open spec fn words(s: Seq<char>) -> Seq<Seq<char>>
    decreases s.len(),
{
    if s.len() == 0 {
        seq![]
    } else if is_ws(s[0]) {
        words(s.subrange(1, s.len() as int))
    } else {
        let k = word_len(s);
        if 0 < k <= s.len() {
            seq![s.subrange(0, k as int)] + words(s.subrange(k as int, s.len() as int))
        } else {
            seq![]
        }
    }
}

/// How many characters from the start are not a line feed.
pub open spec fn line_len(s: Seq<char>) -> nat
    decreases s.len(),
{
    if s.len() == 0 || s[0] == '\n' { 0 } else { 1 + line_len(s.subrange(1, s.len() as int)) }
}

/// The lines of a text, as `str::lines` gives them: split after each line
/// feed, which is dropped with a carriage return before it.
pub open spec fn lines(s: Seq<char>) -> Seq<Seq<char>>
    decreases s.len(),
{
    if s.len() == 0 {
        seq![]
    } else {
        let k = line_len(s);
        if k < s.len() {
            let raw = s.subrange(0, k as int);
            let line = if raw.len() > 0 && raw.last() == '\r' { raw.drop_last() } else { raw };
            seq![line] + lines(s.subrange((k + 1) as int, s.len() as int))
        } else {
            seq![s]
        }
    }
}

/// The run lengths are at most the text's length.
pub proof fn lemma_len_bounds(s: Seq<char>)
    ensures
        word_len(s) <= s.len(),
        line_len(s) <= s.len(),
    decreases s.len(),
{
    if s.len() > 0 {
        lemma_len_bounds(s.subrange(1, s.len() as int));
    }
}

/// A run of non-space characters up to a space or the end has the length
/// of the run.
pub proof fn lemma_word_len(s: Seq<char>, j: int)
    requires
        0 <= j <= s.len(),
        forall|k: int| 0 <= k < j ==> !is_ws(#[trigger] s[k]),
        j == s.len() || is_ws(s[j]),
    ensures
        word_len(s) == j,
    decreases j,
{
    if j > 0 {
        let t = s.subrange(1, s.len() as int);
        assert forall|k: int| 0 <= k < j - 1 implies !is_ws(#[trigger] t[k]) by {
            assert(t[k] == s[k + 1]);
        }
        if j < s.len() {
            assert(t[j - 1] == s[j]);
        }
        lemma_word_len(t, j - 1);
    }
}

/// A run without line feeds up to one or the end has the length of the
/// run.
pub proof fn lemma_line_len(s: Seq<char>, j: int)
    requires
        0 <= j <= s.len(),
        forall|k: int| 0 <= k < j ==> #[trigger] s[k] != '\n',
        j == s.len() || s[j] == '\n',
    ensures
        line_len(s) == j,
    decreases j,
{
    if j > 0 {
        let t = s.subrange(1, s.len() as int);
        assert forall|k: int| 0 <= k < j - 1 implies #[trigger] t[k] != '\n' by {
            assert(t[k] == s[k + 1]);
        }
        if j < s.len() {
            assert(t[j - 1] == s[j]);
        }
        lemma_line_len(t, j - 1);
    }
}

/// The words of a text.
pub fn split_words(s: &str) -> (r: Vec<String>)
    ensures
        views(r@) == words(s@),
{
    let n = s.unicode_len();
    let mut r: Vec<String> = Vec::new();
    let mut i: usize = 0;
    assert(s@.subrange(0, n as int) =~= s@);
    assert(views(r@) =~= Seq::<Seq<char>>::empty());
    while i < n
        invariant
            n == s@.len(),
            i <= n,
            views(r@) + words(s@.subrange(i as int, n as int)) == words(s@),
        decreases n - i,
    {
        let ghost rest = s@.subrange(i as int, n as int);
        if is_whitespace(s.get_char(i)) {
            assert(rest.subrange(1, rest.len() as int) =~= s@.subrange(i + 1, n as int));
            i = i + 1;
        } else {
            let mut j = i + 1;
            while j < n && !is_whitespace(s.get_char(j))
                invariant
                    n == s@.len(),
                    i < j <= n,
                    forall|k: int| i <= k < j ==> !is_ws(#[trigger] s@[k]),
                decreases n - j,
            {
                j = j + 1;
            }
            proof {
                assert forall|k: int| 0 <= k < j - i implies !is_ws(#[trigger] rest[k]) by {
                    assert(rest[k] == s@[i + k]);
                }
                if j < n {
                    assert(rest[j - i] == s@[j as int]);
                }
                lemma_word_len(rest, j - i);
                assert(rest.subrange(0, (j - i) as int) =~= s@.subrange(i as int, j as int));
                assert(rest.subrange((j - i) as int, rest.len() as int) =~= s@.subrange(j as int, n as int));
            }
            let w = s.substring_char(i, j);
            let ghost before = views(r@);
            crate::text::push_string(&mut r, String::from_str(w));
            assert(views(r@) + words(s@.subrange(j as int, n as int)) =~= before + words(rest));
            i = j;
        }
    }
    assert(s@.subrange(n as int, n as int) =~= Seq::<char>::empty());
    assert(views(r@) =~= words(s@));
    r
}

/// Whether a text starts with a prefix.
pub open spec fn starts_with(s: Seq<char>, p: Seq<char>) -> bool {
    p.len() <= s.len() && s.subrange(0, p.len() as int) == p
}

/// The size that `qemu-img info` prints of a disk: on the first line that
/// starts with `virtual size: `, its third and fourth words (as many of them
/// as there are), joined by a space; none where no line starts so.
pub open spec fn spec_virtual_size(info: Seq<char>) -> Option<Seq<char>> {
    let ls = lines(info);
    if exists|j: int| 0 <= j < ls.len() && starts_with(#[trigger] ls[j], "virtual size: "@) {
        let j = choose|j: int| 0 <= j < ls.len() && starts_with(ls[j], "virtual size: "@)
            && forall|k: int| 0 <= k < j ==> !starts_with(ls[k], "virtual size: "@);
        let w = words(ls[j]);
        let a: int = if w.len() < 2 { w.len() as int } else { 2 };
        let b: int = if w.len() < 4 { w.len() as int } else { 4 };
        Some(seq_join(w.subrange(a, b), " "@))
    } else {
        None
    }
}

/// Whether a text starts with a prefix.
pub fn has_prefix(s: &str, p: &str) -> (r: bool)
    ensures
        r == starts_with(s@, p@),
{
    let n = s.unicode_len();
    let m = p.unicode_len();
    if m > n {
        return false;
    }
    crate::text::str_eq(s.substring_char(0, m), p)
}

/// The size that `qemu-img info` prints of a disk (see `spec_virtual_size`).
pub fn parse_virtual_size(info: &str) -> (r: Option<String>)
    ensures
        match spec_virtual_size(info@) {
            Some(v) => r matches Some(s) && s@ == v,
            None => r is None,
        },
{
    let n = info.unicode_len();
    let ghost all = lines(info@);
    let ghost mut seen: Seq<Seq<char>> = seq![];
    let mut i: usize = 0;
    assert(info@.subrange(0, n as int) =~= info@);
    assert(seen + lines(info@) =~= lines(info@));
    while i < n
        invariant
            n == info@.len(),
            i <= n,
            seen + lines(info@.subrange(i as int, n as int)) == all,
            all == lines(info@),
            forall|k: int| 0 <= k < seen.len() ==> !starts_with(#[trigger] seen[k], "virtual size: "@),
        decreases n - i,
    {
        let ghost rest = info@.subrange(i as int, n as int);
        let mut j = i;
        while j < n && info.get_char(j) != '\n'
            invariant
                n == info@.len(),
                i <= j <= n,
                forall|k: int| i <= k < j ==> #[trigger] info@[k] != '\n',
            decreases n - j,
        {
            j = j + 1;
        }
        proof {
            assert forall|k: int| 0 <= k < j - i implies #[trigger] rest[k] != '\n' by {
                assert(rest[k] == info@[i + k]);
            }
            if j < n {
                assert(rest[j - i] == info@[j as int]);
            }
            lemma_line_len(rest, j - i);
        }
        let mut end = j;
        if j < n && end > i && info.get_char(end - 1) == '\r' {
            end = end - 1;
        }
        let line = info.substring_char(i, end);
        let ghost this_line = if j < n {
            let raw = rest.subrange(0, (j - i) as int);
            if raw.len() > 0 && raw.last() == '\r' { raw.drop_last() } else { raw }
        } else {
            rest
        };
        proof {
            if j < n {
                assert(rest.subrange(0, (j - i) as int) =~= info@.subrange(i as int, j as int));
                assert(line@ =~= this_line);
                assert(rest.subrange(j - i + 1, rest.len() as int) =~= info@.subrange(j + 1, n as int));
                assert(lines(rest) == seq![this_line] + lines(info@.subrange(j + 1, n as int)));
            } else {
                assert(line@ =~= rest);
                assert(lines(rest) == seq![rest]);
            }
        }
        if has_prefix(line, "virtual size: ") {
            let w = split_words(line);
            let a: usize = if w.len() < 2 { w.len() } else { 2 };
            let b: usize = if w.len() < 4 { w.len() } else { 4 };
            let mut sel: Vec<String> = Vec::new();
            let mut k = a;
            while k < b
                invariant
                    a <= k <= b <= w@.len(),
                    views(sel@) == views(w@).subrange(a as int, k as int),
                decreases b - k,
            {
                crate::text::push_string(&mut sel, w[k].clone());
                assert(views(w@).subrange(a as int, k + 1) =~= views(w@).subrange(a as int, k as int).push(w@[k as int]@));
                k = k + 1;
            }
            let joined = crate::text::join(&sel, " ");
            proof {
                let idx = seen.len() as int;
                assert(all[idx] == this_line);
                assert(starts_with(all[idx], "virtual size: "@));
                let c = choose|c: int| 0 <= c < all.len() && starts_with(all[c], "virtual size: "@)
                    && forall|q: int| 0 <= q < c ==> !starts_with(all[q], "virtual size: "@);
                if c < idx {
                    assert(all[c] == seen[c]);
                }
                if c > idx {
                    assert(!starts_with(all[idx], "virtual size: "@));
                }
            }
            return Some(joined);
        }
        proof {
            let new_seen = seen.push(this_line);
            if j < n {
                assert(new_seen + lines(info@.subrange(j + 1, n as int)) =~= seen + lines(rest));
            }
            seen = new_seen;
        }
        i = if j < n { j + 1 } else { n };
    }
    proof {
        assert(info@.subrange(n as int, n as int) =~= Seq::<char>::empty());
        assert(seen =~= all);
        assert forall|q: int| 0 <= q < all.len() implies !starts_with(#[trigger] all[q], "virtual size: "@) by {
            assert(all[q] == seen[q]);
        }
    }
    None
}

/// A text up to its first `.` (all of it where it has none), as
/// `str::split('.').next()` gives it.
pub open spec fn before_dot(s: Seq<char>) -> Seq<char>
    decreases s.len(),
{
    if s.len() == 0 || s[0] == '.' { seq![] } else { seq![s[0]] + before_dot(s.subrange(1, s.len() as int)) }
}

/// The number that decimal digits write.
pub open spec fn digits_value(d: Seq<char>) -> nat
    decreases d.len(),
{
    if d.len() == 0 { 0 } else { digits_value(d.drop_last()) * 10 + ((d.last() as nat) - ('0' as nat)) as nat }
}

/// Whether every character is a decimal digit.
pub open spec fn all_digits(d: Seq<char>) -> bool {
    forall|i: int| 0 <= i < d.len() ==> '0' <= #[trigger] d[i] && d[i] <= '9'
}

/// The `u32` that a text reads as, as `u32::from_str` reads it: an
/// optional `+`, then one digit or more, of a value that fits.
pub open spec fn spec_parse_u32(s: Seq<char>) -> Option<nat> {
    let d = if s.len() > 0 && s[0] == '+' { s.subrange(1, s.len() as int) } else { s };
    if d.len() > 0 && all_digits(d) && digits_value(d) <= u32::MAX { Some(digits_value(d)) } else { None }
}

/// A value that is too large already stays too large with more digits.
proof fn lemma_digits_grow(d: Seq<char>, k: int)
    requires
        0 <= k <= d.len(),
        all_digits(d),
    ensures
        digits_value(d.subrange(0, k)) <= digits_value(d),
    decreases d.len() - k,
{
    if k < d.len() {
        lemma_digits_grow(d, k + 1);
        assert(d.subrange(0, k + 1).drop_last() =~= d.subrange(0, k));
        assert('0' <= d[k] && d[k] <= '9');
    } else {
        assert(d.subrange(0, k) =~= d);
    }
}

/// The first part of a text before a `.`.
pub fn first_before_dot(s: &str) -> (r: String)
    ensures
        r@ == before_dot(s@),
{
    let n = s.unicode_len();
    let mut j: usize = 0;
    while j < n && s.get_char(j) != '.'
        invariant
            j <= n == s@.len(),
            forall|k: int| 0 <= k < j ==> s@[k] != '.',
        decreases n - j,
    {
        j = j + 1;
    }
    proof {
        lemma_before_dot(s@, j as int);
    }
    String::from_str(s.substring_char(0, j))
}

/// The text before the first `.` is the prefix up to it.
proof fn lemma_before_dot(s: Seq<char>, j: int)
    requires
        0 <= j <= s.len(),
        forall|k: int| 0 <= k < j ==> s[k] != '.',
        j == s.len() || s[j] == '.',
    ensures
        before_dot(s) == s.subrange(0, j),
    decreases j,
{
    if j > 0 {
        let t = s.subrange(1, s.len() as int);
        assert forall|k: int| 0 <= k < j - 1 implies t[k] != '.' by {
            assert(t[k] == s[k + 1]);
        }
        if j < s.len() {
            assert(t[j - 1] == s[j]);
        }
        lemma_before_dot(t, j - 1);
        assert(seq![s[0]] + t.subrange(0, j - 1) =~= s.subrange(0, j));
    } else {
        assert(s.subrange(0, 0) =~= Seq::<char>::empty());
    }
}

/// The `u32` that a text reads as (see `spec_parse_u32`), or why it
/// reads as none: it is empty, holds a character that is not a digit, or
/// is too large (the first of these from the left).
pub fn parse_u32(s: &str) -> (r: Result<u32, &'static str>)
    ensures
        match spec_parse_u32(s@) {
            Some(v) => r == Ok::<u32, &'static str>(v as u32),
            None => r is Err,
        },
{
    let n = s.unicode_len();
    let start: usize = if n > 0 && s.get_char(0) == '+' { 1 } else { 0 };
    let ghost d = if s@.len() > 0 && s@[0] == '+' { s@.subrange(1, s@.len() as int) } else { s@ };
    assert(d =~= s@.subrange(start as int, n as int));
    if n == 0 {
        return Err("cannot parse integer from empty string");
    }
    if start == n {
        return Err("invalid digit found in string");
    }
    let mut acc: u64 = 0;
    let mut i: usize = start;
    while i < n
        invariant
            start <= i <= n == s@.len(),
            start < n,
            d == s@.subrange(start as int, n as int),
            d == (if s@.len() > 0 && s@[0] == '+' { s@.subrange(1, s@.len() as int) } else { s@ }),
            all_digits(d.subrange(0, i - start)),
            acc == digits_value(d.subrange(0, i - start)),
            acc <= u32::MAX,
        decreases n - i,
    {
        let c = s.get_char(i);
        if c < '0' || c > '9' {
            proof {
                assert(d[i - start] == c);
                assert(!all_digits(d));
                assert(spec_parse_u32(s@) is None);
            }
            return Err("invalid digit found in string");
        }
        let digit = (c as u64) - ('0' as u64);
        let next = acc * 10 + digit;
        proof {
            assert(d.subrange(0, i + 1 - start).drop_last() =~= d.subrange(0, i - start));
            assert(d.subrange(0, i + 1 - start).last() == c);
            assert forall|k: int| 0 <= k < i + 1 - start implies '0' <= #[trigger] d.subrange(0, i + 1 - start)[k]
                && d.subrange(0, i + 1 - start)[k] <= '9' by {
                if k < i - start {
                    assert(d.subrange(0, i + 1 - start)[k] == d.subrange(0, i - start)[k]);
                }
            }
        }
        if next > 0xFFFF_FFFF {
            proof {
                if all_digits(d) {
                    lemma_digits_grow(d, i + 1 - start);
                    assert(digits_value(d.subrange(0, i + 1 - start)) == next);
                }
                assert(spec_parse_u32(s@) is None);
            }
            return Err("number too large to fit in target type");
        }
        acc = next;
        i = i + 1;
    }
    assert(d.subrange(0, n - start) =~= d);
    Ok(acc as u32)
}

/// What a first-generation guest needs of QEMU, from what `qemu
/// --version` prints: its version is the fourth word, whose number before
/// the first `.` must read as at least 7. Gives the version.
pub open spec fn spec_qemu_version(output: Seq<char>) -> Result<Seq<char>, Option<Seq<char>>> {
    let w = words(output);
    if w.len() < 4 {
        Err(Some("Failed to get QEMU version."@))
    } else {
        match spec_parse_u32(before_dot(w[3])) {
            None => Err(None),
            Some(v) => if v >= 7 {
                Ok(w[3])
            } else {
                Err(Some("QEMU version 7.0.0 or higher is required. Found version "@ + w[3] + "."@))
            },
        }
    }
}

/// Checks the version that `qemu --version` printed (see
/// `spec_qemu_version`), and gives it. A major version that does not read
/// as a number is refused as well.
pub fn qemu_version_check(output: &str) -> (r: Result<String, String>)
    ensures
        match spec_qemu_version(output@) {
            Ok(v) => r matches Ok(s) && s@ == v,
            Err(Some(m)) => r matches Err(e) && e@ == m,
            Err(None) => r is Err,
        },
{
    let w = split_words(output);
    if w.len() < 4 {
        return Err(String::from_str("Failed to get QEMU version."));
    }
    let v = w[3].clone();
    assert(v@ == words(output@)[3]);
    let major = first_before_dot(v.as_str());
    match parse_u32(major.as_str()) {
        Err(e) => Err(String::from_str(e)),
        Ok(n) => if n >= 7 {
            Ok(v)
        } else {
            let mut m = String::from_str("QEMU version 7.0.0 or higher is required. Found version ");
            m.append(v.as_str());
            m.append(".");
            Err(m)
        },
    }
}

} // verus!
