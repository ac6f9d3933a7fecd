//! Small verified text helpers shared by the policy, tray, and download
//! components.

use vstd::prelude::*;
use vstd::string::*;

verus! {

/// Whether `s` ends with `suffix`.
pub open spec fn spec_ends_with(s: Seq<char>, suffix: Seq<char>) -> bool {
    s.len() >= suffix.len() && s.subrange(s.len() - suffix.len(), s.len() as int) == suffix
}

/// The file name inside a path: the longest suffix with no separator.
pub open spec fn spec_file_name(p: Seq<char>) -> Seq<char>
    decreases p.len(),
{
    if p.len() == 0 {
        Seq::empty()
    } else if p[p.len() - 1] == '/' {
        Seq::empty()
    } else {
        spec_file_name(p.subrange(0, p.len() - 1)).push(p[p.len() - 1])
    }
}

/// Character-by-character equality of two text slices.
pub fn str_eq(a: &str, b: &str) -> (r: bool)
    ensures
        r == (a@ == b@),
{
    let n: usize = a.unicode_len();
    if n != b.unicode_len() {
        return false;
    }
    let mut i: usize = 0;
    while i < n
        invariant
            n == a@.len(),
            n == b@.len(),
            i <= n,
            forall|k: int| 0 <= k < i ==> a@[k] == b@[k],
        decreases n - i,
    {
        if a.get_char(i) != b.get_char(i) {
            return false;
        }
        i = i + 1;
    }
    proof {
        assert(a@ =~= b@);
    }
    true
}

/// Whether the text slice `s` ends with `suffix`.
pub fn str_ends_with(s: &str, suffix: &str) -> (r: bool)
    ensures
        r == spec_ends_with(s@, suffix@),
{
    let n: usize = s.unicode_len();
    let m: usize = suffix.unicode_len();
    if m > n {
        return false;
    }
    let mut k: usize = 0;
    while k < m
        invariant
            m <= n,
            n == s@.len(),
            m == suffix@.len(),
            k <= m,
            forall|j: int| 0 <= j < k ==> s@[n - m + j] == suffix@[j],
        decreases m - k,
    {
        if s.get_char(n - m + k) != suffix.get_char(k) {
            proof {
                assert(s@.subrange(n - m, n as int)[k as int] == s@[n - m + k]);
            }
            return false;
        }
        k = k + 1;
    }
    proof {
        assert(s@.subrange(n - m, n as int) =~= suffix@);
    }
    true
}

/// The position where the file name starts: just after the last
/// separator, or the very start when there is none.
fn file_name_start(path: &str) -> (r: usize)
    ensures
        r <= path@.len(),
        forall|k: int| r <= k < path@.len() ==> path@[k] != '/',
        r == 0 || path@[r - 1] == '/',
{
    let n: usize = path.unicode_len();
    let mut start: usize = n;
    while start > 0
        invariant
            start <= n,
            n == path@.len(),
            forall|k: int| start <= k < n ==> path@[k] != '/',
        decreases start,
    {
        if path.get_char(start - 1) == '/' {
            return start;
        }
        start = start - 1;
    }
    0
}

/// A suffix with no separator, starting right after one (or at the
/// start), is exactly the file name.
proof fn lemma_file_name_subrange(p: Seq<char>, start: int)
    requires
        0 <= start <= p.len(),
        forall|k: int| start <= k < p.len() ==> p[k] != '/',
        start == 0 || p[start - 1] == '/',
    ensures
        spec_file_name(p) == p.subrange(start, p.len() as int),
    decreases p.len(),
{
    if start == p.len() {
        assert(p.subrange(start, p.len() as int) =~= Seq::<char>::empty());
        if p.len() > 0 {
            assert(p[p.len() - 1] == '/');
        }
    } else {
        assert(p[p.len() - 1] != '/');
        let prev = p.subrange(0, p.len() - 1);
        assert forall|k: int| start <= k < prev.len() implies prev[k] != '/' by {
            assert(prev[k] == p[k]);
        }
        if start > 0 {
            assert(prev[start - 1] == p[start - 1]);
        }
        lemma_file_name_subrange(prev, start);
        assert(prev.subrange(start, prev.len() as int).push(p[p.len() - 1]) =~= p.subrange(
            start,
            p.len() as int,
        ));
    }
}

/// The file name inside a path, as `spec_file_name` describes it.
pub fn file_name(path: &str) -> (r: String)
    ensures
        r@ == spec_file_name(path@),
{
    let n: usize = path.unicode_len();
    let start: usize = file_name_start(path);
    let sub: &str = path.substring_char(start, n);
    proof {
        lemma_file_name_subrange(path@, start as int);
    }
    String::from_str(sub)
}

} // verus!
