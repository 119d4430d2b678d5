//! Small verified helpers for strings and characters.

use vstd::prelude::*;

verus! {

use vstd::string::StrSliceExecFns;

/// Character-wise string equality, specified over the views.
pub fn str_eq(a: &str, b: &str) -> (r: bool)
    ensures
        r == (a@ == b@),
{
    let la = a.unicode_len();
    let lb = b.unicode_len();
    if la != lb {
        proof {
            assert(a@ != b@);
        }
        return false;
    }
    let mut i: usize = 0;
    while i < la
        invariant
            0 <= i <= la,
            la == a@.len(),
            la == b@.len(),
            forall|j: int| 0 <= j < i ==> a@[j] == b@[j],
        decreases la - i,
    {
        if a.get_char(i) != b.get_char(i) {
            proof {
                assert(a@[i as int] != b@[i as int]);
            }
            return false;
        }
        i = i + 1;
    }
    proof {
        assert(a@ =~= b@);
    }
    true
}

/// Whether `c` is an ASCII decimal digit.
pub open spec fn spec_is_digit(c: char) -> bool {
    '0' <= c <= '9'
}

/// Numeric value of an ASCII decimal digit.
pub open spec fn spec_digit_val(c: char) -> int {
    c as int - '0' as int
}

/// Whether `c` is an ASCII decimal digit.
pub fn is_digit(c: char) -> (r: bool)
    ensures
        r == spec_is_digit(c),
{
    '0' <= c && c <= '9'
}

/// Numeric value of an ASCII decimal digit.
pub fn digit_val(c: char) -> (r: u32)
    requires
        spec_is_digit(c),
    ensures
        r == spec_digit_val(c),
        r <= 9,
{
    (c as u32) - ('0' as u32)
}

/// Value of a sequence of decimal digits, most significant first.
pub open spec fn spec_dec_val(s: Seq<char>) -> int
    decreases s.len(),
{
    if s.len() == 0 {
        0
    } else {
        spec_dec_val(s.drop_last()) * 10 + spec_digit_val(s.last())
    }
}

/// Whether every character of `s` is a decimal digit.
pub open spec fn spec_all_digits(s: Seq<char>) -> bool {
    forall|j: int| 0 <= j < s.len() ==> spec_is_digit(s[j])
}

/// The value of a digit sequence is non-negative.
pub proof fn lemma_dec_val_nonneg(s: Seq<char>)
    requires
        spec_all_digits(s),
    ensures
        spec_dec_val(s) >= 0,
    decreases s.len(),
{
    if s.len() > 0 {
        assert(spec_all_digits(s.drop_last()));
        lemma_dec_val_nonneg(s.drop_last());
    }
}

/// Extending a digit sequence on the right never decreases its value.
pub proof fn lemma_dec_val_prefix_le(s: Seq<char>, j: int, k: int)
    requires
        0 <= j <= k <= s.len(),
        spec_all_digits(s.subrange(0, k)),
    ensures
        spec_dec_val(s.subrange(0, j)) <= spec_dec_val(s.subrange(0, k)),
    decreases k - j,
{
    if j < k {
        lemma_dec_val_prefix_le(s, j, k - 1);
        let p = s.subrange(0, k);
        assert(p.drop_last() =~= s.subrange(0, k - 1));
        assert(spec_all_digits(s.subrange(0, k - 1)));
        lemma_dec_val_nonneg(s.subrange(0, k - 1));
    }
}

/// First index at or after `i` whose character is not a decimal digit,
/// or the length of `s`.
pub open spec fn spec_num_end(s: Seq<char>, i: int) -> int
    decreases s.len() - i,
{
    if i < 0 || i >= s.len() {
        i
    } else if spec_is_digit(s[i]) {
        spec_num_end(s, i + 1)
    } else {
        i
    }
}

/// `spec_num_end` stays within bounds and marks an all-digit run.
pub proof fn lemma_num_end_props(s: Seq<char>, i: int)
    requires
        0 <= i <= s.len(),
    ensures
        i <= spec_num_end(s, i) <= s.len(),
        forall|j: int| i <= j < spec_num_end(s, i) ==> spec_is_digit(s[j]),
        spec_num_end(s, i) < s.len() ==> !spec_is_digit(s[spec_num_end(s, i)]),
    decreases s.len() - i,
{
    if i < s.len() && spec_is_digit(s[i]) {
        lemma_num_end_props(s, i + 1);
    }
}

} // verus!
