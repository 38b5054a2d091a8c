//! The driver verifier: decides from the helper script's captured
//! output whether the vendor driver library is discoverable.
//!
//! The check succeeds exactly when the captured error text is empty and
//! the captured output contains a match of the pattern
//! `visa(32|64).dll`: the word `visa`, either of the two width
//! variants, one arbitrary character other than a line feed, and `dll`.

use vstd::prelude::*;
use vstd::string::StrSliceExecFns;

verus! {

/// True when the driver-library pattern matches at position `i` of the
/// captured output.
pub open spec fn spec_visa_at(s: Seq<char>, i: int) -> bool {
    &&& 0 <= i
    &&& i + 10 <= s.len()
    &&& s[i] == 'v'
    &&& s[i + 1] == 'i'
    &&& s[i + 2] == 's'
    &&& s[i + 3] == 'a'
    &&& ((s[i + 4] == '3' && s[i + 5] == '2') || (s[i + 4] == '6' && s[i + 5] == '4'))
    &&& s[i + 6] != '\n'
    &&& s[i + 7] == 'd'
    &&& s[i + 8] == 'l'
    &&& s[i + 9] == 'l'
}

/// True when the driver-library pattern matches anywhere in the
/// captured output.
pub open spec fn spec_visa_match(s: Seq<char>) -> bool {
    exists|i: int| spec_visa_at(s, i)
}

/// Checks the pattern at one concrete position.
fn visa_at(text: &str, i: usize) -> (r: bool)
    requires
        i + 10 <= text@.len() <= usize::MAX,
    ensures
        r == spec_visa_at(text@, i as int),
{
    text.get_char(i) == 'v' && text.get_char(i + 1) == 'i' && text.get_char(i + 2) == 's'
        && text.get_char(i + 3) == 'a'
        && ((text.get_char(i + 4) == '3' && text.get_char(i + 5) == '2')
            || (text.get_char(i + 4) == '6' && text.get_char(i + 5) == '4'))
        && text.get_char(i + 6) != '\n' && text.get_char(i + 7) == 'd'
        && text.get_char(i + 8) == 'l' && text.get_char(i + 9) == 'l'
}

/// Decides whether the driver-library pattern matches anywhere in the
/// captured output.
pub fn visa_match(text: &str) -> (r: bool)
    ensures
        r == spec_visa_match(text@),
{
    let n = text.unicode_len();
    if n < 10 {
        assert(forall|i: int| spec_visa_at(text@, i) ==> i + 10 <= n);
        return false;
    }
    let mut i: usize = 0;
    while i <= n - 10
        invariant
            n == text@.len(),
            10 <= n,
            0 <= i <= n - 10 + 1,
            forall|j: int| 0 <= j < i ==> !spec_visa_at(text@, j),
        decreases n - i,
    {
        if visa_at(text, i) {
            return true;
        }
        i = i + 1;
    }
    assert(forall|j: int| spec_visa_at(text@, j) ==> 0 <= j <= n - 10);
    false
}

/// Decides whether the driver is discoverable: true exactly when the
/// captured error text is empty and the captured output matches the
/// driver-library pattern.
pub fn verify_driver(err_text: &str, out_text: &str) -> (r: bool)
    ensures
        r == (err_text@.len() == 0 && spec_visa_match(out_text@)),
{
    let empty_err = err_text.unicode_len() == 0;
    empty_err && visa_match(out_text)
}

/// The driver stage's outcome: `Ok` exactly when the error text is
/// empty and the output matches, and otherwise the one fixed error
/// message the stage ever shows — running but not finding the driver
/// and failing to run report alike.
pub fn driver_outcome(err_text: &str, out_text: &str) -> (r: Result<(), String>)
    ensures
        r is Ok <==> (err_text@.len() == 0 && spec_visa_match(out_text@)),
        r matches Err(m) ==> m@ == "NI-VISA is not found"@,
{
    if verify_driver(err_text, out_text) {
        Ok(())
    } else {
        Err("NI-VISA is not found".to_owned())
    }
}

} // verus!
