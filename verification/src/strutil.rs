//! Verified string primitives: prefix test, literal substring search,
//! equality, and line-terminator trimming, each specified over `Seq<char>`.

use vstd::prelude::*;
use vstd::string::StrSliceExecFns;

verus! {

/// `p` is a prefix of `s`.
pub open spec fn is_prefix_of(p: Seq<char>, s: Seq<char>) -> bool {
    p.len() <= s.len() && s.take(p.len() as int) == p
}

/// `p` occurs in `s` as a contiguous subsequence starting at `i`.
pub open spec fn occurs_at(s: Seq<char>, p: Seq<char>, i: int) -> bool {
    0 <= i && i + p.len() <= s.len() && s.subrange(i, i + p.len() as int) == p
}

/// `p` occurs somewhere in `s` as a literal, contiguous subsequence.
pub open spec fn seq_contains(s: Seq<char>, p: Seq<char>) -> bool {
    exists|i: int| occurs_at(s, p, i)
}

/// `s` with one trailing line terminator (`\n` or `\r\n`) removed.
pub open spec fn trim_eol(s: Seq<char>) -> Seq<char> {
    if s.len() >= 1 && s[s.len() - 1] == '\n' {
        if s.len() >= 2 && s[s.len() - 2] == '\r' {
            s.take(s.len() - 2)
        } else {
            s.take(s.len() - 1)
        }
    } else {
        s
    }
}

/// The characters of `p` all stand in `s` at offset `i`.
fn str_match_at(s: &str, p: &str, i: usize, n: usize, m: usize) -> (r: bool)
    requires
        n == s@.len(),
        m == p@.len(),
        i + m <= n,
    ensures
        r == (s@.subrange(i as int, i + m) == p@),
{
    let mut k: usize = 0;
    while k < m
        invariant
            n == s@.len(),
            m == p@.len(),
            i + m <= n,
            k <= m,
            forall|t: int| 0 <= t < k ==> s@[i + t] == p@[t],
        decreases m - k,
    {
        if s.get_char(i + k) != p.get_char(k) {
            proof {
                assert(s@.subrange(i as int, i + m)[k as int] == s@[i + k]);
            }
            return false;
        }
        k += 1;
    }
    proof {
        assert(s@.subrange(i as int, i + m) =~= p@);
    }
    true
}

/// `s` starts with `p`.
pub fn str_starts_with(s: &str, p: &str) -> (r: bool)
    ensures
        r == is_prefix_of(p@, s@),
{
    let n = s.unicode_len();
    let m = p.unicode_len();
    if m > n {
        false
    } else {
        proof {
            assert(s@.take(m as int) == s@.subrange(0, m as int));
        }
        str_match_at(s, p, 0, n, m)
    }
}

/// `s` contains `p` as a literal substring.
pub fn str_contains(s: &str, p: &str) -> (r: bool)
    ensures
        r == seq_contains(s@, p@),
{
    let n = s.unicode_len();
    let m = p.unicode_len();
    if m > n {
        proof {
            assert forall|i: int| !occurs_at(s@, p@, i) by {}
        }
        return false;
    }
    if m == 0 {
        proof {
            assert(s@.subrange(0, 0) =~= p@);
            assert(occurs_at(s@, p@, 0));
        }
        return true;
    }
    let mut i: usize = 0;
    while i <= n - m
        invariant
            n == s@.len(),
            m == p@.len(),
            1 <= m <= n,
            i <= n - m + 1,
            forall|j: int| 0 <= j < i ==> !occurs_at(s@, p@, j),
        decreases n - m + 1 - i,
    {
        if str_match_at(s, p, i, n, m) {
            proof {
                assert(occurs_at(s@, p@, i as int));
            }
            return true;
        }
        proof {
            assert(!occurs_at(s@, p@, i as int));
        }
        i += 1;
    }
    proof {
        assert forall|j: int| !occurs_at(s@, p@, j) by {
            if 0 <= j < i {
                assert(!occurs_at(s@, p@, j));
            }
        }
    }
    false
}

/// The two strings hold the same characters.
pub fn str_eq(s: &str, p: &str) -> (r: bool)
    ensures
        r == (s@ == p@),
{
    let n = s.unicode_len();
    let m = p.unicode_len();
    if n != m {
        proof {
            assert(s@ != p@);
        }
        false
    } else {
        let r = str_match_at(s, p, 0, n, m);
        proof {
            assert(s@.subrange(0, n as int) =~= s@);
        }
        r
    }
}

/// A copy of `s` with one trailing `\n` or `\r\n` removed, if present.
pub fn trim_line_ending(s: &str) -> (r: String)
    ensures
        r@ == trim_eol(s@),
{
    let n = s.unicode_len();
    if n >= 1 && s.get_char(n - 1) == '\n' {
        if n >= 2 && s.get_char(n - 2) == '\r' {
            let t = s.substring_char(0, n - 2);
            proof {
                assert(s@.subrange(0, n - 2) == s@.take(n - 2));
            }
            t.to_owned()
        } else {
            let t = s.substring_char(0, n - 1);
            proof {
                assert(s@.subrange(0, n - 1) == s@.take(n - 1));
            }
            t.to_owned()
        }
    } else {
        s.to_owned()
    }
}

/// A prefix of a line that survives terminator trimming is a prefix of the
/// whole line.
pub proof fn lemma_prefix_through_trim(p: Seq<char>, s: Seq<char>)
    requires
        is_prefix_of(p, trim_eol(s)),
    ensures
        is_prefix_of(p, s),
{
    assert(s.take(p.len() as int) =~= trim_eol(s).take(p.len() as int));
}

} // verus!
