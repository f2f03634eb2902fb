//! Small verified string helpers shared across the crate.

use vstd::prelude::*;

verus! {

/// Character-for-character equality of two string slices.
pub fn str_eq(a: &str, b: &str) -> (r: bool)
    ensures
        r == (a@ == b@),
{
    let owned_a: String = a.to_owned();
    let owned_b: String = b.to_owned();
    owned_a == owned_b
}

/// The secret-like name pattern: the sequence `key` has `"password"` as a
/// contiguous subsequence.
pub open spec fn has_password_key(key: Seq<char>) -> bool {
    exists|i: int|
        0 <= i && i + 8 <= key.len() && #[trigger] key.subrange(i, i + 8) == "password"@
}

/// Whether a field name matches the secret-like pattern (contains the word
/// `password`), which decides masking in censored renderings.
pub fn contains_password(key: &str) -> (r: bool)
    ensures
        r == has_password_key(key@),
{
    proof {
        reveal_strlit("password");
    }
    let n: usize = key.unicode_len();
    if n < 8 {
        return false;
    }
    let mut i: usize = 0;
    while i <= n - 8
        invariant
            n == key@.len(),
            8 <= n,
            i <= n - 8 + 1,
            "password"@.len() == 8,
            forall|a: int| 0 <= a < i ==> #[trigger] key@.subrange(a, a + 8) != "password"@,
        decreases n - i,
    {
        let mut j: usize = 0;
        let mut all_match: bool = true;
        while j < 8
            invariant
                n == key@.len(),
                8 <= n,
                i <= n - 8,
                j <= 8,
                "password"@.len() == 8,
                all_match ==> forall|b: int| 0 <= b < j ==> key@[i + b] == "password"@[b],
                !all_match ==> key@.subrange(i as int, i + 8) != "password"@,
            decreases 8 - j,
        {
            if key.get_char(i + j) != "password".get_char(j) {
                proof {
                    assert(key@.subrange(i as int, i + 8)[j as int] == key@[i + j]);
                }
                all_match = false;
                j = 8;
            } else {
                j = j + 1;
            }
        }
        if all_match {
            proof {
                assert(key@.subrange(i as int, i + 8) =~= "password"@);
            }
            return true;
        }
        i = i + 1;
    }
    proof {
        assert forall|a: int| 0 <= a && a + 8 <= key@.len() implies #[trigger] key@.subrange(
            a,
            a + 8,
        ) != "password"@ by {
            assert(a < i);
        }
    }
    false
}

/// A run of `n` mask characters.
pub open spec fn mask_seq(n: nat) -> Seq<char> {
    Seq::new(n, |i: int| '*')
}

/// Builds the fixed-character mask that replaces a secret's text.
pub fn mask_of_len(n: usize) -> (r: String)
    ensures
        r@ == mask_seq(n as nat),
{
    proof {
        reveal_strlit("*");
    }
    let mut out: String = String::new();
    let mut i: usize = 0;
    while i < n
        invariant
            i <= n,
            "*"@.len() == 1,
            "*"@[0] == '*',
            out@ == mask_seq(i as nat),
        decreases n - i,
    {
        out.append("*");
        i = i + 1;
        proof {
            assert(out@ =~= mask_seq(i as nat));
        }
    }
    out
}

} // verus!
