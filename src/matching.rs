//! The matching predicate: a query matches a label when it occurs in it as a
//! contiguous run of characters.
use vstd::prelude::*;
use vstd::string::StrSliceExecFns;

verus! {

/// `pat` occurs in `text` starting at position `k`.
pub open spec fn occurs_at(text: Seq<char>, pat: Seq<char>, k: int) -> bool {
    0 <= k && k + pat.len() <= text.len() && text.subrange(k, k + pat.len()) == pat
}

/// `pat` occurs somewhere in `text`.
pub open spec fn occurs_in(text: Seq<char>, pat: Seq<char>) -> bool {
    exists|k: int| occurs_at(text, pat, k)
}

/// The empty query occurs in every label, so it matches every entry.
pub proof fn lemma_empty_query_occurs(label: Seq<char>)
    ensures
        occurs_in(label, Seq::empty()),
{
    assert(label.subrange(0, 0) =~= Seq::<char>::empty());
    assert(occurs_at(label, Seq::empty(), 0));
}

/// A query that is a contiguous part of a label occurs in it.
pub proof fn lemma_part_occurs(label: Seq<char>, query: Seq<char>)
    requires
        exists|a: int, b: int| 0 <= a <= b <= label.len() && query == label.subrange(a, b),
    ensures
        occurs_in(label, query),
{
    let (a, b) = choose|a: int, b: int| 0 <= a <= b <= label.len() && query == label.subrange(a, b);
    assert(occurs_at(label, query, a));
}

/// The characters of a string, one per element.
fn chars_of(s: &str) -> (r: Vec<char>)
    ensures
        r@ == s@,
{
    let n = s.unicode_len();
    let mut out: Vec<char> = Vec::new();
    let mut i: usize = 0;
    while i < n
        invariant
            n == s@.len(),
            i <= n,
            out@ == s@.subrange(0, i as int),
        decreases n - i,
    {
        out.push(s.get_char(i));
        i = i + 1;
        assert(out@ =~= s@.subrange(0, i as int));
    }
    assert(s@.subrange(0, n as int) =~= s@);
    out
}

/// Whether `pat` occurs in `text` at position `k`.
fn occurs_at_exec(text: &Vec<char>, pat: &Vec<char>, k: usize) -> (r: bool)
    requires
        k + pat@.len() <= text@.len(),
    ensures
        r == occurs_at(text@, pat@, k as int),
{
    let m = pat.len();
    let n = text.len();
    let mut j: usize = 0;
    while j < m
        invariant
            m == pat@.len(),
            n == text@.len(),
            k + m <= text@.len(),
            j <= m,
            forall|i: int| 0 <= i < j ==> text@[k + i] == pat@[i],
        decreases m - j,
    {
        if text[k + j] != pat[j] {
            assert(text@.subrange(k as int, k + m)[j as int] != pat@[j as int]);
            return false;
        }
        j = j + 1;
    }
    assert(text@.subrange(k as int, k + m) =~= pat@);
    true
}

/// Whether the query occurs in the label.
pub fn occurs(label: &str, query: &str) -> (r: bool)
    ensures
        r == occurs_in(label@, query@),
{
    let text = chars_of(label);
    let pat = chars_of(query);
    if pat.len() > text.len() {
        return false;
    }
    let last = text.len() - pat.len();
    let mut k: usize = 0;
    loop
        invariant
            last + pat@.len() == text@.len(),
            text@ == label@,
            pat@ == query@,
            k <= last,
            forall|k2: int| 0 <= k2 < k ==> !occurs_at(text@, pat@, k2),
        decreases last - k,
    {
        if occurs_at_exec(&text, &pat, k) {
            return true;
        }
        if k == last {
            return false;
        }
        k = k + 1;
    }
}

} // verus!
