//! The environment inspector: scans the captured environment listing
//! for the fixed environment name and extracts its filesystem path.
//!
//! A listing line is reported by the manager as `<name><whitespace><path>`.
//! The matcher accepts a line exactly when the anchored pattern
//! `^thz\s+(.+)` would: the line starts with `thz`, a whitespace
//! character follows, and after a maximal whitespace run at least one
//! character remains (backtracking one whitespace character when the
//! line ends in whitespace).  The capture is everything after that run.

use vstd::prelude::*;
use vstd::string::StrSliceExecFns;

use crate::text::{
    is_space, is_space_char, lemma_ws_end_unique, spec_lines, split_lines, ws_end,
};

verus! {

/// What the inspector found: whether the fixed environment exists, and
/// the path captured from the first matching listing line.
pub struct EnvStatus {
    pub exists: bool,
    pub path: Option<String>,
}

/// Mathematical image of an [`EnvStatus`].
pub struct EnvStatusView {
    pub exists: bool,
    pub path: Option<Seq<char>>,
}

impl View for EnvStatus {
    type V = EnvStatusView;

    open spec fn view(&self) -> EnvStatusView {
        EnvStatusView {
            exists: self.exists,
            path: match self.path {
                Some(p) => Some(p@),
                None => None,
            },
        }
    }
}

impl EnvStatus {
    /// The one invariant of the status: a path is present exactly when
    /// the environment exists.
    pub open spec fn wf(self) -> bool {
        self.exists <==> self.path is Some
    }
}

/// True when a listing line matches the anchored pattern: it starts
/// with `thz`, whitespace follows, and at least one more character
/// remains for the capture.
pub open spec fn spec_line_matches(l: Seq<char>) -> bool {
    l.len() >= 5 && l[0] == 't' && l[1] == 'h' && l[2] == 'z' && is_space_char(l[3])
}

/// The capture of a matching line: everything after the whitespace run
/// that follows the name, or the line's last character when whitespace
/// runs to the end (the pattern gives one whitespace character back so
/// the capture is never empty).
pub open spec fn spec_capture(l: Seq<char>) -> Seq<char>
    recommends
        spec_line_matches(l),
{
    let e = ws_end(l, 4);
    if e < l.len() {
        l.subrange(e, l.len() as int)
    } else {
        l.subrange(l.len() - 1, l.len() as int)
    }
}

/// Index of the first matching line at or after `from`, or the number
/// of lines when none matches.
pub open spec fn first_match(ls: Seq<Seq<char>>, from: int) -> int
    recommends
        0 <= from <= ls.len(),
    decreases ls.len() - from,
{
    if from < 0 || from >= ls.len() {
        ls.len() as int
    } else if spec_line_matches(ls[from]) {
        from
    } else {
        first_match(ls, from + 1)
    }
}

pub proof fn lemma_first_match(ls: Seq<Seq<char>>, from: int)
    requires
        0 <= from <= ls.len(),
    ensures
        from <= first_match(ls, from) <= ls.len(),
        forall|i: int| from <= i < first_match(ls, from) ==> !spec_line_matches(ls[i]),
        first_match(ls, from) < ls.len() ==> spec_line_matches(ls[first_match(ls, from)]),
    decreases ls.len() - from,
{
    if from < ls.len() && !spec_line_matches(ls[from]) {
        lemma_first_match(ls, from + 1);
    }
}

/// A position `e` with no matching line before it, and a matching line
/// (or the end) at it, is exactly `first_match`.
pub proof fn lemma_first_match_unique(ls: Seq<Seq<char>>, from: int, e: int)
    requires
        0 <= from <= e <= ls.len(),
        forall|i: int| from <= i < e ==> !spec_line_matches(ls[i]),
        e < ls.len() ==> spec_line_matches(ls[e]),
    ensures
        first_match(ls, from) == e,
    decreases e - from,
{
    if from < e {
        lemma_first_match_unique(ls, from + 1, e);
    }
}

/// What the inspector returns for a captured listing: the status is a
/// pure function of the text.  The environment exists exactly when some
/// line matches, and the path is the first matching line's capture.
pub open spec fn spec_inspect(text: Seq<char>) -> EnvStatusView {
    let ls = spec_lines(text);
    let m = first_match(ls, 0);
    if m < ls.len() {
        EnvStatusView { exists: true, path: Some(spec_capture(ls[m])) }
    } else {
        EnvStatusView { exists: false, path: None }
    }
}

/// Decides [`spec_line_matches`] on a concrete line.
pub fn line_matches(line: &str) -> (r: bool)
    ensures
        r == spec_line_matches(line@),
{
    let n = line.unicode_len();
    if n < 5 {
        return false;
    }
    line.get_char(0) == 't' && line.get_char(1) == 'h' && line.get_char(2) == 'z' && is_space(
        line.get_char(3),
    )
}

/// Extracts the capture of a matching line; `None` when the line does
/// not match.
pub fn line_capture(line: &str) -> (r: Option<String>)
    ensures
        r is Some <==> spec_line_matches(line@),
        r matches Some(p) ==> p@ == spec_capture(line@),
{
    if !line_matches(line) {
        return None;
    }
    let ghost l = line@;
    let n = line.unicode_len();
    let mut e: usize = 4;
    while e < n && is_space(line.get_char(e))
        invariant
            n == l.len(),
            l == line@,
            4 <= e <= n,
            forall|i: int| 4 <= i < e ==> is_space_char(l[i]),
        decreases n - e,
    {
        e = e + 1;
    }
    proof {
        lemma_ws_end_unique(l, 4, e as int);
    }
    if e < n {
        Some(line.substring_char(e, n).to_owned())
    } else {
        Some(line.substring_char(n - 1, n).to_owned())
    }
}

/// The environment inspector: splits the captured listing into lines
/// and reports whether the fixed environment appears, with the path
/// captured from the first matching line.  The result is a pure
/// function of the captured text.
pub fn inspect_listing(text: &str) -> (r: EnvStatus)
    ensures
        r@ == spec_inspect(text@),
        r.wf(),
{
    let ghost ls = spec_lines(text@);
    let lines = split_lines(text);
    let mut idx: usize = 0;
    while idx < lines.len()
        invariant
            ls == spec_lines(text@),
            lines.deep_view() == ls,
            ls.len() == lines.len(),
            0 <= idx <= lines.len(),
            forall|j: int| 0 <= j < idx ==> !spec_line_matches(ls[j]),
        decreases lines.len() - idx,
    {
        assert(lines[idx as int]@ == ls[idx as int]);
        match line_capture(lines[idx].as_str()) {
            Some(p) => {
                proof {
                    lemma_first_match_unique(ls, 0, idx as int);
                }
                return EnvStatus { exists: true, path: Some(p) };
            },
            None => {
                idx = idx + 1;
            },
        }
    }
    proof {
        lemma_first_match_unique(ls, 0, ls.len() as int);
    }
    EnvStatus { exists: false, path: None }
}

/// The inspector is deterministic: two statuses that both answer for
/// the same captured text agree in every part.  Running the inspector
/// twice on identical listing output therefore yields identical
/// results.
pub proof fn lemma_inspect_idempotent(text: Seq<char>, s1: EnvStatusView, s2: EnvStatusView)
    requires
        s1 == spec_inspect(text),
        s2 == spec_inspect(text),
    ensures
        s1.exists == s2.exists,
        s1.path == s2.path,
{
}

/// The inspector's answer, characterised without the recursion: the
/// environment is reported to exist exactly when some line of the
/// listing matches the pattern, and the reported path is the capture of
/// the first matching line — every earlier line fails to match.
pub proof fn lemma_inspect_characterised(text: Seq<char>)
    ensures
        spec_inspect(text).exists <==> exists|i: int|
            0 <= i < spec_lines(text).len() && spec_line_matches(spec_lines(text)[i]),
        spec_inspect(text).exists ==> {
            let ls = spec_lines(text);
            let m = first_match(ls, 0);
            &&& 0 <= m < ls.len()
            &&& spec_line_matches(ls[m])
            &&& (forall|i: int| 0 <= i < m ==> !spec_line_matches(ls[i]))
            &&& spec_inspect(text).path == Some(spec_capture(ls[m]))
        },
        !spec_inspect(text).exists ==> spec_inspect(text).path is None,
{
    let ls = spec_lines(text);
    lemma_first_match(ls, 0);
    if spec_inspect(text).exists {
        assert(spec_line_matches(ls[first_match(ls, 0)]));
    }
}

} // verus!
