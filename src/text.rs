//! Character-level text predicates used by the substring rules.

use vstd::prelude::*;

verus! {

/// `p` is a prefix of `t`.
pub open spec fn is_prefix(p: Seq<char>, t: Seq<char>) -> bool {
    p.len() <= t.len() && t.subrange(0, p.len() as int) == p
}

/// `p` is a suffix of `t`.
pub open spec fn is_suffix(p: Seq<char>, t: Seq<char>) -> bool {
    p.len() <= t.len() && t.subrange(t.len() - p.len(), t.len() as int) == p
}

/// `p` occurs at position `i` of `t`.
pub open spec fn occurs_at(p: Seq<char>, t: Seq<char>, i: int) -> bool {
    0 <= i && i + p.len() <= t.len() && t.subrange(i, i + p.len()) == p
}

/// `p` occurs somewhere in `t` as a contiguous run.
pub open spec fn occurs_in(p: Seq<char>, t: Seq<char>) -> bool {
    exists|i: int| occurs_at(p, t, i)
}

/// The characters of `t`, in order.
pub fn chars_of(t: &str) -> (r: Vec<char>)
    ensures
        r@ == t@,
{
    let mut r: Vec<char> = Vec::new();
    for c in it: t.chars()
        invariant
            it.seq() == t@,
            r@ == it.seq().take(it.index() as int),
    {
        r.push(c);
    }
    r
}

/// Whether `p` occurs in `t` at position `i`.
pub fn matches_at(p: &Vec<char>, t: &Vec<char>, i: usize) -> (r: bool)
    ensures
        r == occurs_at(p@, t@, i as int),
{
    let n: usize = t.len();
    if i > n || p.len() > n - i {
        return false;
    }
    let mut k: usize = 0;
    while k < p.len()
        invariant
            n == t@.len(),
            i + p@.len() <= t@.len(),
            k <= p@.len(),
            forall|j: int| 0 <= j < k ==> t@[i + j] == p@[j],
        decreases p@.len() - k,
    {
        if t[i + k] != p[k] {
            assert(t@.subrange(i as int, i + p@.len())[k as int] != p@[k as int]);
            return false;
        }
        k = k + 1;
    }
    assert(t@.subrange(i as int, i + p@.len()) =~= p@);
    true
}

/// Whether `t` begins with `p`.
pub fn starts_with(t: &str, p: &str) -> (r: bool)
    ensures
        r == is_prefix(p@, t@),
{
    let tc = chars_of(t);
    let pc = chars_of(p);
    matches_at(&pc, &tc, 0)
}

/// Whether `t` ends with `p`.
pub fn ends_with(t: &str, p: &str) -> (r: bool)
    ensures
        r == is_suffix(p@, t@),
{
    let tc = chars_of(t);
    let pc = chars_of(p);
    if pc.len() > tc.len() {
        return false;
    }
    matches_at(&pc, &tc, tc.len() - pc.len())
}

/// Whether `p` occurs anywhere in `t`.
pub fn contains(t: &str, p: &str) -> (r: bool)
    ensures
        r == occurs_in(p@, t@),
{
    let tc = chars_of(t);
    let pc = chars_of(p);
    if pc.len() > tc.len() {
        return false;
    }
    let last: usize = tc.len() - pc.len();
    let mut i: usize = 0;
    loop
        invariant
            tc@ == t@,
            pc@ == p@,
            last == tc@.len() - pc@.len(),
            i <= last,
            forall|j: int| 0 <= j < i ==> !occurs_at(pc@, tc@, j),
        decreases last - i,
    {
        if matches_at(&pc, &tc, i) {
            assert(occurs_at(p@, t@, i as int));
            return true;
        }
        if i == last {
            assert forall|j: int| !occurs_at(pc@, tc@, j) by {
                if 0 <= j <= i {
                }
            }
            return false;
        }
        i = i + 1;
    }
}

} // verus!
