//! Verified text helpers: character-wise string equality and substring
//! search, used to recognize event tokens and response markers.

use vstd::prelude::*;

verus! {

/// The needle occurs in the haystack starting at character position `i`.
pub open spec fn matches_at(hay: Seq<char>, needle: Seq<char>, i: int) -> bool {
    &&& 0 <= i
    &&& i + needle.len() <= hay.len()
    &&& hay.subrange(i, i + needle.len() as int) == needle
}

/// The needle occurs somewhere in the haystack.
pub open spec fn contains_seq(hay: Seq<char>, needle: Seq<char>) -> bool {
    exists|i: int| matches_at(hay, needle, i)
}

/// Character-wise string equality.
pub fn str_eq(a: &str, b: &str) -> (r: bool)
    ensures
        r == (a@ == b@),
{
    let a_len = a.unicode_len();
    let b_len = b.unicode_len();
    if a_len != b_len {
        return false;
    }
    let mut i: usize = 0;
    while i < a_len
        invariant
            a_len == a@.len(),
            a_len == b@.len(),
            i <= a_len,
            forall|k: int| 0 <= k < i ==> a@[k] == b@[k],
        decreases a_len - i,
    {
        if a.get_char(i) != b.get_char(i) {
            assert(a@[i as int] != b@[i as int]);
            return false;
        }
        i = i + 1;
    }
    proof {
        assert(a@ =~= b@);
    }
    true
}

/// Whether `needle` occurs in `hay`, compared character by character.
pub fn contains_str(hay: &str, needle: &str) -> (r: bool)
    ensures
        r == contains_seq(hay@, needle@),
{
    let h = hay.unicode_len();
    let n = needle.unicode_len();
    if n > h {
        proof {
            assert(forall|i: int| !matches_at(hay@, needle@, i));
        }
        return false;
    }
    let mut i: usize = 0;
    loop
        invariant
            h == hay@.len(),
            n == needle@.len(),
            n <= h,
            i <= h - n + 1,
            forall|k: int| 0 <= k < i ==> !matches_at(hay@, needle@, k),
        decreases h - n + 1 - i,
    {
        if i > h - n {
            proof {
                assert(forall|k: int| matches_at(hay@, needle@, k) ==> 0 <= k <= h - n);
            }
            return false;
        }
        let mut j: usize = 0;
        let mut all_equal = true;
        while j < n
            invariant
                h == hay@.len(),
                n == needle@.len(),
                i + n <= h,
                j <= n,
                all_equal ==> forall|k: int| 0 <= k < j ==> hay@[i + k] == needle@[k],
                !all_equal ==> !matches_at(hay@, needle@, i as int),
            decreases n - j,
        {
            if all_equal {
                if hay.get_char(i + j) != needle.get_char(j) {
                    proof {
                        assert(hay@[i + j] != needle@[j as int]);
                        if matches_at(hay@, needle@, i as int) {
                            assert(hay@.subrange(i as int, i + n)[j as int] == hay@[i + j]);
                        }
                    }
                    all_equal = false;
                }
            }
            j = j + 1;
        }
        if all_equal {
            proof {
                assert(hay@.subrange(i as int, i + n) =~= needle@);
                assert(matches_at(hay@, needle@, i as int));
            }
            return true;
        }
        proof {
            if n == 0 {
                assert(hay@.subrange(i as int, i as int) =~= needle@);
                assert(matches_at(hay@, needle@, i as int));
            }
        }
        i = i + 1;
    }
}

} // verus!
