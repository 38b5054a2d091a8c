//! The yes/no confirmation prompt shared by the provisioning and
//! installation stages.
//!
//! An input line is trimmed of surrounding whitespace and then compared
//! with the accepted tokens: `y` confirms, `n` and `N` decline, and
//! everything else — including `Y`, which the prompt deliberately does
//! not accept — asks the user again.

use vstd::prelude::*;
use vstd::string::StrSliceExecFns;

use crate::text::{
    is_space, is_space_char, lemma_ws_end_unique, lemma_ws_rend_unique, spec_trim,
};

verus! {

/// How one prompt reply is classified.
#[derive(Clone, Copy, PartialEq, Eq, Debug, Structural)]
pub enum Answer {
    /// The reply, trimmed, was exactly `y`.
    Confirmed,
    /// The reply, trimmed, was exactly `n` or `N`.
    Declined,
    /// Any other reply: the prompt is asked again.
    Reprompt,
}

/// The classification of a raw reply line as a function of its text.
pub open spec fn spec_classify(s: Seq<char>) -> Answer {
    let t = spec_trim(s);
    if t == seq!['y'] {
        Answer::Confirmed
    } else if t == seq!['n'] || t == seq!['N'] {
        Answer::Declined
    } else {
        Answer::Reprompt
    }
}

/// True when the reply settles the prompt, one way or the other.
pub open spec fn spec_decisive(s: Seq<char>) -> bool {
    spec_classify(s) != Answer::Reprompt
}

/// Classifies one raw reply line.
pub fn classify_answer(ans: &str) -> (r: Answer)
    ensures
        r == spec_classify(ans@),
{
    let ghost s = ans@;
    let n = ans.unicode_len();
    let mut a: usize = 0;
    while a < n && is_space(ans.get_char(a))
        invariant
            n == s.len(),
            s == ans@,
            0 <= a <= n,
            forall|i: int| 0 <= i < a ==> is_space_char(s[i]),
        decreases n - a,
    {
        a = a + 1;
    }
    proof {
        lemma_ws_end_unique(s, 0, a as int);
    }
    if a == n {
        // nothing but whitespace: the trimmed reply is empty
        proof {
            lemma_ws_rend_unique(s, n as int, 0);
            assert(spec_trim(s) =~= Seq::<char>::empty());
            assert(spec_trim(s).len() != 1);
        }
        return Answer::Reprompt;
    }
    let mut b: usize = n;
    while b > a + 1 && is_space(ans.get_char(b - 1))
        invariant
            n == s.len(),
            s == ans@,
            0 <= a < b <= n,
            !is_space_char(s[a as int]),
            forall|i: int| b <= i < n ==> is_space_char(s[i]),
        decreases b,
    {
        b = b - 1;
    }
    proof {
        // the loop leaves either a non-whitespace character at b - 1 or
        // b == a + 1, and s[a] is not whitespace
        assert(!is_space_char(s[b - 1]));
        lemma_ws_rend_unique(s, n as int, b as int);
        assert(spec_trim(s) == s.subrange(a as int, b as int));
    }
    proof {
        assert(seq!['y'][0] == 'y' && seq!['y'].len() == 1);
        assert(seq!['n'][0] == 'n' && seq!['n'].len() == 1);
        assert(seq!['N'][0] == 'N' && seq!['N'].len() == 1);
    }
    if b - a == 1 {
        let c = ans.get_char(a);
        proof {
            assert(spec_trim(s) =~= seq![s[a as int]]);
            assert(spec_trim(s)[0] == s[a as int]);
        }
        if c == 'y' {
            return Answer::Confirmed;
        }
        if c == 'n' || c == 'N' {
            return Answer::Declined;
        }
        return Answer::Reprompt;
    }
    proof {
        assert(spec_trim(s).len() != 1);
    }
    Answer::Reprompt
}

/// The prompt loop's behaviour on a finite run of reply lines: it
/// settles on the first decisive reply and re-prompts past every
/// indecisive one.  A run with no decisive reply never settles — the
/// live loop keeps asking.
pub fn resolve_prompt(inputs: &Vec<String>) -> (r: Option<(usize, Answer)>)
    ensures
        r matches Some((i, a)) ==> {
            &&& (i as int) < inputs.len()
            &&& spec_decisive(inputs.deep_view()[i as int])
            &&& a == spec_classify(inputs.deep_view()[i as int])
            &&& forall|j: int| 0 <= j < i as int ==> !spec_decisive(inputs.deep_view()[j])
        },
        r is None ==> forall|j: int|
            0 <= j < inputs.len() ==> !spec_decisive(inputs.deep_view()[j]),
{
    let mut i: usize = 0;
    while i < inputs.len()
        invariant
            0 <= i <= inputs.len(),
            forall|j: int| 0 <= j < i ==> !spec_decisive(inputs.deep_view()[j]),
        decreases inputs.len() - i,
    {
        let a = classify_answer(inputs[i].as_str());
        if a != Answer::Reprompt {
            return Some((i, a));
        }
        i = i + 1;
    }
    None
}

/// The tokens the prompt accepts, spelled out: `y` confirms, `n` and
/// `N` decline, and the upper-case `Y` is not accepted — it re-prompts,
/// an asymmetry the prompt keeps on purpose.
pub proof fn lemma_prompt_acceptance()
    ensures
        spec_classify(seq!['y']) == Answer::Confirmed,
        spec_classify(seq!['n']) == Answer::Declined,
        spec_classify(seq!['N']) == Answer::Declined,
        spec_classify(seq!['Y']) == Answer::Reprompt,
{
    lemma_single_token(seq!['y']);
    lemma_single_token(seq!['n']);
    lemma_single_token(seq!['N']);
    lemma_single_token(seq!['Y']);
}

/// A single non-whitespace character trims to itself.
proof fn lemma_single_token(s: Seq<char>)
    requires
        s.len() == 1,
        !is_space_char(s[0]),
    ensures
        spec_trim(s) == s,
{
    lemma_ws_end_unique(s, 0, 0);
    lemma_ws_rend_unique(s, 1, 1);
    assert(spec_trim(s) =~= s);
}

} // verus!
