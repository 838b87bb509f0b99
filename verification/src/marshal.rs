//! Nul-safe marshalling of byte strings for a native call: a string handed
//! to the native layer must be nul-terminated and must not contain an
//! embedded nul, so the suffix from the first embedded nul onward is
//! silently dropped rather than reported as an error.

use vstd::prelude::*;

verus! {

/// Length of the longest prefix of `s` that contains no nul byte.
pub open spec fn nul_free_prefix_len(s: Seq<u8>) -> int
    decreases s.len(),
{
    if s.len() == 0 {
        0
    } else if s[0] == 0 {
        0
    } else {
        1 + nul_free_prefix_len(s.drop_first())
    }
}

/// `nul_free_prefix_len` stays within the sequence, every byte before it is
/// non-nul, and the byte at it (if any) is nul.
pub proof fn lemma_nul_free_prefix_len(s: Seq<u8>)
    ensures
        0 <= nul_free_prefix_len(s) <= s.len(),
        forall|j: int| 0 <= j < nul_free_prefix_len(s) ==> s[j] != 0,
        nul_free_prefix_len(s) < s.len() ==> s[nul_free_prefix_len(s)] == 0,
    decreases s.len(),
{
    if s.len() != 0 && s[0] != 0 {
        lemma_nul_free_prefix_len(s.drop_first());
        assert forall|j: int| 0 <= j < nul_free_prefix_len(s) implies s[j] != 0 by {
            if j > 0 {
                assert(s.drop_first()[j - 1] == s[j]);
            }
        }
    }
}

/// A nul at index `i`, with none before it, pins `nul_free_prefix_len` to
/// exactly `i`: the first embedded nul decides where truncation happens.
pub proof fn lemma_first_nul_position(s: Seq<u8>, i: int)
    requires
        0 <= i < s.len(),
        s[i] == 0,
        forall|j: int| 0 <= j < i ==> s[j] != 0,
    ensures
        nul_free_prefix_len(s) == i,
    decreases i,
{
    if i > 0 {
        assert(s[0] != 0);
        lemma_first_nul_position(s.drop_first(), i - 1);
    }
}

/// A sequence without any nul byte has the whole length as its nul-free
/// prefix.
pub proof fn lemma_no_nul(s: Seq<u8>)
    requires
        forall|j: int| 0 <= j < s.len() ==> s[j] != 0,
    ensures
        nul_free_prefix_len(s) == s.len(),
    decreases s.len(),
{
    if s.len() != 0 {
        lemma_no_nul(s.drop_first());
    }
}

/// Build a nul-terminated byte sequence from `s`: the longest nul-free
/// prefix of `s` followed by a single terminating nul. An embedded nul
/// truncates the string instead of failing, so this never rejects an input.
pub fn safe_new(s: &[u8]) -> (r: Vec<u8>)
    ensures
        r@ == s@.take(nul_free_prefix_len(s@)) + seq![0u8],
        r@.len() == nul_free_prefix_len(s@) + 1,
{
    let mut out: Vec<u8> = Vec::new();
    let mut i: usize = 0;
    let n = s.len();
    while i < n && s[i] != 0
        invariant
            n == s@.len(),
            0 <= i <= n,
            forall|j: int| 0 <= j < i ==> s@[j] != 0,
            out@ == s@.take(i as int),
        decreases n - i,
    {
        out.push(s[i]);
        assert(out@ =~= s@.take(i + 1));
        i = i + 1;
    }
    proof {
        if i < n {
            lemma_first_nul_position(s@, i as int);
        } else {
            lemma_no_nul(s@);
        }
    }
    out.push(0);
    proof {
        assert(out@ =~= s@.take(nul_free_prefix_len(s@)) + seq![0u8]);
    }
    out
}

} // verus!
