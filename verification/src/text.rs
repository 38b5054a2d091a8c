//! Text primitives shared by the stages: whitespace classification,
//! trimming bounds, newline search, and splitting captured output into
//! lines the way the standard library's line iterator does.

use vstd::prelude::*;
use vstd::string::StrSliceExecFns;

verus! {

/// True when `c` has the Unicode `White_Space` property: the set of
/// characters that `str::trim` strips and that the listing pattern's
/// whitespace class accepts.
pub open spec fn is_space_char(c: char) -> bool {
    c == ' ' || (9 <= c as int && c as int <= 13) || c == '\u{85}' || c == '\u{a0}'
        || c == '\u{1680}' || (0x2000 <= c as int && c as int <= 0x200a) || c == '\u{2028}'
        || c == '\u{2029}' || c == '\u{202f}' || c == '\u{205f}' || c == '\u{3000}'
}

/// Decides [`is_space_char`] on a concrete character.
pub fn is_space(c: char) -> (r: bool)
    ensures
        r == is_space_char(c),
{
    let u = c as u32;
    u == 0x20 || (9 <= u && u <= 13) || u == 0x85 || u == 0xa0 || u == 0x1680
        || (0x2000 <= u && u <= 0x200a) || u == 0x2028 || u == 0x2029 || u == 0x202f
        || u == 0x205f || u == 0x3000
}

/// First index at or after `from` holding a character that is not
/// whitespace, or `s.len()` when whitespace runs to the end.
pub open spec fn ws_end(s: Seq<char>, from: int) -> int
    recommends
        0 <= from <= s.len(),
    decreases s.len() - from,
{
    if from < 0 || from >= s.len() {
        s.len() as int
    } else if !is_space_char(s[from]) {
        from
    } else {
        ws_end(s, from + 1)
    }
}

/// A position `e` with only whitespace between `from` and `e`, and a
/// non-whitespace character (or the end) at `e`, is exactly `ws_end`.
pub proof fn lemma_ws_end_unique(s: Seq<char>, from: int, e: int)
    requires
        0 <= from <= e <= s.len(),
        forall|i: int| from <= i < e ==> is_space_char(s[i]),
        e < s.len() ==> !is_space_char(s[e]),
    ensures
        ws_end(s, from) == e,
    decreases e - from,
{
    if from < e {
        lemma_ws_end_unique(s, from + 1, e);
    }
}

/// One past the last non-whitespace character strictly before `upto`,
/// or 0 when everything before `upto` is whitespace.
pub open spec fn ws_rend(s: Seq<char>, upto: int) -> int
    recommends
        upto <= s.len(),
    decreases upto,
{
    if upto <= 0 {
        0
    } else if !is_space_char(s[upto - 1]) {
        upto
    } else {
        ws_rend(s, upto - 1)
    }
}

/// A position `b` with only whitespace between `b` and `upto`, and a
/// non-whitespace character (or the start) just before `b`, is exactly
/// `ws_rend`.
pub proof fn lemma_ws_rend_unique(s: Seq<char>, upto: int, b: int)
    requires
        0 <= b <= upto <= s.len(),
        forall|i: int| b <= i < upto ==> is_space_char(s[i]),
        b > 0 ==> !is_space_char(s[b - 1]),
    ensures
        ws_rend(s, upto) == b,
    decreases upto - b,
{
    if b < upto {
        lemma_ws_rend_unique(s, upto - 1, b);
    }
}

/// The characters of `s` with leading and trailing whitespace removed,
/// as `str::trim` removes it.
pub open spec fn spec_trim(s: Seq<char>) -> Seq<char> {
    let a = ws_end(s, 0);
    let b = ws_rend(s, s.len() as int);
    if a <= b {
        s.subrange(a, b)
    } else {
        Seq::empty()
    }
}

/// First index at or after `from` holding `c`, or `s.len()` when `c`
/// does not occur there.
pub open spec fn find_char(s: Seq<char>, c: char, from: int) -> int
    recommends
        0 <= from <= s.len(),
    decreases s.len() - from,
{
    if from < 0 || from >= s.len() {
        s.len() as int
    } else if s[from] == c {
        from
    } else {
        find_char(s, c, from + 1)
    }
}

/// `find_char` stays within bounds, skips no occurrence, and lands on
/// one when any exists.
pub proof fn lemma_find_char(s: Seq<char>, c: char, from: int)
    requires
        0 <= from <= s.len(),
    ensures
        from <= find_char(s, c, from) <= s.len(),
        forall|i: int| from <= i < find_char(s, c, from) ==> s[i] != c,
        find_char(s, c, from) < s.len() ==> s[find_char(s, c, from)] == c,
    decreases s.len() - from,
{
    if from < s.len() && s[from] != c {
        lemma_find_char(s, c, from + 1);
    }
}

/// A position `e` with no occurrence of `c` between `from` and `e`, and
/// an occurrence (or the end) at `e`, is exactly `find_char`.
pub proof fn lemma_find_char_unique(s: Seq<char>, c: char, from: int, e: int)
    requires
        0 <= from <= e <= s.len(),
        forall|i: int| from <= i < e ==> s[i] != c,
        e < s.len() ==> s[e] == c,
    ensures
        find_char(s, c, from) == e,
    decreases e - from,
{
    if from < e {
        lemma_find_char_unique(s, c, from + 1, e);
    }
}

/// Removes one trailing carriage return, if present: what the line
/// iterator does to a segment that a line feed terminated.
pub open spec fn strip_cr(l: Seq<char>) -> Seq<char> {
    if l.len() > 0 && l[l.len() - 1] == '\r' {
        l.subrange(0, l.len() - 1)
    } else {
        l
    }
}

/// The lines of `s` from position `pos` on, split as `str::lines`
/// splits them: segments end at a line feed, a carriage return directly
/// before a line feed is dropped, and a final segment without a line
/// feed is kept as it stands.
pub open spec fn spec_lines_from(s: Seq<char>, pos: int) -> Seq<Seq<char>>
    recommends
        0 <= pos <= s.len(),
    decreases s.len() - pos,
    via lines_from_decreases
{
    if pos < 0 || pos >= s.len() {
        Seq::empty()
    } else {
        let i = find_char(s, '\n', pos);
        if i >= s.len() {
            seq![s.subrange(pos, s.len() as int)]
        } else {
            seq![strip_cr(s.subrange(pos, i))] + spec_lines_from(s, i + 1)
        }
    }
}

#[via_fn]
proof fn lines_from_decreases(s: Seq<char>, pos: int) {
    if 0 <= pos < s.len() {
        lemma_find_char(s, '\n', pos);
    }
}

/// The lines of `s`, split as `str::lines` splits them.
pub open spec fn spec_lines(s: Seq<char>) -> Seq<Seq<char>> {
    spec_lines_from(s, 0)
}

/// Splits captured output into its lines, as the standard library's
/// line iterator would.
pub fn split_lines(text: &str) -> (r: Vec<String>)
    ensures
        r.deep_view() == spec_lines(text@),
{
    let ghost s = text@;
    let n = text.unicode_len();
    let mut r: Vec<String> = Vec::new();
    let mut pos: usize = 0;
    while pos < n
        invariant
            n == s.len(),
            s == text@,
            0 <= pos <= n,
            spec_lines(s) == r.deep_view() + spec_lines_from(s, pos as int),
        decreases n - pos,
    {
        // find the next line feed at or after pos
        let mut i: usize = pos;
        while i < n && text.get_char(i) != '\n'
            invariant
                n == s.len(),
                s == text@,
                pos <= i <= n,
                forall|j: int| pos <= j < i ==> s[j] != '\n',
            decreases n - i,
        {
            i = i + 1;
        }
        proof {
            lemma_find_char_unique(s, '\n', pos as int, i as int);
        }
        if i >= n {
            let seg = text.substring_char(pos, n).to_owned();
            assert(seg@ == s.subrange(pos as int, n as int));
            let ghost old_r = r.deep_view();
            r.push(seg);
            proof {
                assert(r.deep_view() =~= old_r + seq![s.subrange(pos as int, n as int)]);
                assert(r.deep_view() + spec_lines_from(s, n as int) =~= r.deep_view());
            }
            pos = n;
        } else {
            let end = if i > pos && text.get_char(i - 1) == '\r' {
                i - 1
            } else {
                i
            };
            let seg = text.substring_char(pos, end).to_owned();
            proof {
                assert(strip_cr(s.subrange(pos as int, i as int)) =~= s.subrange(
                    pos as int,
                    end as int,
                ));
            }
            let ghost old_r = r.deep_view();
            r.push(seg);
            proof {
                assert(r.deep_view() =~= old_r + seq![strip_cr(
                    s.subrange(pos as int, i as int),
                )]);
                assert(old_r + spec_lines_from(s, pos as int) =~= r.deep_view()
                    + spec_lines_from(s, i + 1));
            }
            pos = i + 1;
        }
    }
    proof {
        assert(r.deep_view() + spec_lines_from(s, pos as int) =~= r.deep_view());
    }
    r
}

} // verus!
