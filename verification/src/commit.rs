//! The format of a commit identifier.

use vstd::prelude::*;
use vstd::string::*;

verus! {

/// Whether `c` is a decimal digit or one of the letters `a` to `f`.
pub open spec fn is_lower_hex(c: char) -> bool {
    ('0' <= c && c <= '9') || ('a' <= c && c <= 'f')
}

/// Whether `s` has the form of a commit identifier: 7 to 40 characters,
/// each a lower-case hexadecimal digit.
pub open spec fn is_commit_format(s: Seq<char>) -> bool {
    &&& 7 <= s.len() <= 40
    &&& forall|i: int| 0 <= i < s.len() ==> is_lower_hex(#[trigger] s[i])
}

/// Tests whether `commit_sha` has the form of a commit identifier, short or
/// full.
pub fn validate_commit_format(commit_sha: &str) -> (valid: bool)
    ensures
        valid == is_commit_format(commit_sha@),
{
    let n = commit_sha.unicode_len();
    if n < 7 || n > 40 {
        return false;
    }
    let mut i: usize = 0;
    while i < n
        invariant
            n == commit_sha@.len(),
            i <= n,
            forall|j: int| 0 <= j < i ==> is_lower_hex(#[trigger] commit_sha@[j]),
        decreases n - i,
    {
        let c = commit_sha.get_char(i);
        if !(('0' <= c && c <= '9') || ('a' <= c && c <= 'f')) {
            return false;
        }
        i = i + 1;
    }
    true
}

/// A string that holds a character that is no lower-case hexadecimal digit
/// (an upper-case letter, say) has not the form of a commit identifier.
pub proof fn lemma_one_bad_character_spoils(s: Seq<char>, i: int)
    requires
        0 <= i < s.len(),
        !is_lower_hex(s[i]),
    ensures
        !is_commit_format(s),
{
}

} // verus!
