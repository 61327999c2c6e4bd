//! Character-level text search and editing, with their specifications.
//!
//! Texts are modelled as `Seq<char>`, the view of `str` and `String`.
//! Patterns are searched left to right; a match of `p` at index `i` means
//! that the characters `i .. i + |p|` of the text are exactly `p`.
use vstd::prelude::*;

verus! {

broadcast use vstd::string::group_string_axioms;

// ----------------------------------------------------------------------
// Specifications
// ----------------------------------------------------------------------

/// `p` occurs in `s` starting at index `i`.
pub open spec fn occurs_at(s: Seq<char>, p: Seq<char>, i: int) -> bool {
    &&& 0 <= i
    &&& i + p.len() <= s.len()
    &&& s.subrange(i, i + p.len()) == p
}

/// `p` occurs somewhere in `s` (what `str::contains` answers).
pub open spec fn contains(s: Seq<char>, p: Seq<char>) -> bool {
    exists|i: int| #[trigger] occurs_at(s, p, i)
}

/// `i` is the leftmost index at which `p` occurs in `s`.
pub open spec fn is_first_occurrence(s: Seq<char>, p: Seq<char>, i: int) -> bool {
    &&& occurs_at(s, p, i)
    &&& forall|j: int| 0 <= j < i ==> !#[trigger] occurs_at(s, p, j)
}

/// The leftmost index `>= k` at which `p` occurs in `s`, if any.
pub open spec fn find_from(s: Seq<char>, p: Seq<char>, k: int) -> Option<int>
    decreases s.len() + 1 - k,
{
    if k < 0 || k + p.len() > s.len() {
        None
    } else if occurs_at(s, p, k) {
        Some(k)
    } else {
        find_from(s, p, k + 1)
    }
}

/// The leftmost index at which `p` occurs in `s`, if any (what `str::find`
/// answers, counted in characters).
pub open spec fn find(s: Seq<char>, p: Seq<char>) -> Option<int> {
    find_from(s, p, 0)
}

/// `s` with every occurrence of the nonempty pattern `p` replaced by `r`,
/// the occurrences taken left to right without overlap (what `str::replace`
/// computes).
pub open spec fn replace_all(s: Seq<char>, p: Seq<char>, r: Seq<char>) -> Seq<char>
    decreases s.len(),
{
    if s.len() == 0 || p.len() == 0 {
        s
    } else if occurs_at(s, p, 0) {
        r + replace_all(s.skip(p.len() as int), p, r)
    } else {
        seq![s[0]] + replace_all(s.skip(1), p, r)
    }
}

/// `x` inserted into `s` before index `i` (what `String::insert_str` does).
pub open spec fn insert_at(s: Seq<char>, i: int, x: Seq<char>) -> Seq<char> {
    s.take(i) + x + s.skip(i)
}

/// `s` with its first occurrence of `p` replaced by `r`, or `s` itself when
/// `p` does not occur (what `str::replacen(p, r, 1)` computes).
pub open spec fn replace_first(s: Seq<char>, p: Seq<char>, r: Seq<char>) -> Seq<char> {
    match find(s, p) {
        Some(i) => s.take(i) + r + s.skip(i + p.len()),
        None => s,
    }
}

// ----------------------------------------------------------------------
// Lemmas
// ----------------------------------------------------------------------

proof fn lemma_find_from(s: Seq<char>, p: Seq<char>, k: int)
    requires
        0 <= k,
        forall|j: int| 0 <= j < k ==> !#[trigger] occurs_at(s, p, j),
    ensures
        find_from(s, p, k) matches Some(i) ==> is_first_occurrence(s, p, i),
        find_from(s, p, k) is None ==> !contains(s, p),
    decreases s.len() + 1 - k,
{
    if k + p.len() > s.len() {
        assert forall|j: int| !#[trigger] occurs_at(s, p, j) by {
            if 0 <= j < k {
            }
        }
    } else if occurs_at(s, p, k) {
    } else {
        assert forall|j: int| 0 <= j < k + 1 implies !#[trigger] occurs_at(s, p, j) by {
            if j < k {
            }
        }
        lemma_find_from(s, p, k + 1);
    }
}

/// `find` returns exactly the leftmost occurrence, and nothing when there is
/// none.
pub proof fn lemma_find(s: Seq<char>, p: Seq<char>)
    ensures
        find(s, p) matches Some(i) ==> is_first_occurrence(s, p, i),
        find(s, p) is None <==> !contains(s, p),
{
    lemma_find_from(s, p, 0);
    if let Some(i) = find(s, p) {
        assert(occurs_at(s, p, i));
    }
}

/// An occurrence of `p` at index `i` of `s` is an occurrence at index 0 of
/// the suffix of `s` that starts at `i`.
proof fn lemma_occurs_at_skip(s: Seq<char>, p: Seq<char>, i: int)
    requires
        0 <= i <= s.len(),
    ensures
        occurs_at(s, p, i) == occurs_at(s.skip(i), p, 0),
{
    if i + p.len() <= s.len() {
        assert(s.skip(i).subrange(0, p.len() as int) =~= s.subrange(i, i + p.len()));
    }
}

/// Every occurrence of `p` in a text that contains it gives at least one
/// occurrence of the replacement in the result of `replace_all`.
pub proof fn lemma_replace_all_contains(s: Seq<char>, p: Seq<char>, r: Seq<char>)
    requires
        p.len() > 0,
        contains(s, p),
    ensures
        contains(replace_all(s, p, r), r),
    decreases s.len(),
{
    let res = replace_all(s, p, r);
    if occurs_at(s, p, 0) {
        assert(res.subrange(0, r.len() as int) =~= r);
        assert(occurs_at(res, r, 0));
    } else {
        let i = choose|i: int| occurs_at(s, p, i);
        assert(i >= 1);
        let rest = s.skip(1);
        assert(occurs_at(rest, p, i - 1)) by {
            assert(rest.subrange(i - 1, i - 1 + p.len()) =~= s.subrange(i, i + p.len()));
        }
        lemma_replace_all_contains(rest, p, r);
        let rr = replace_all(rest, p, r);
        let k = choose|k: int| occurs_at(rr, r, k);
        assert(res == seq![s[0]] + rr);
        assert(res.subrange(k + 1, k + 1 + r.len()) =~= rr.subrange(k, k + r.len()));
        assert(occurs_at(res, r, k + 1));
    }
}

/// After inserting `x` before index `i`, `x` occurs at index `i`.
pub proof fn lemma_insert_at_occurs(s: Seq<char>, i: int, x: Seq<char>)
    requires
        0 <= i <= s.len(),
    ensures
        occurs_at(insert_at(s, i, x), x, i),
{
    let t = insert_at(s, i, x);
    assert(t.subrange(i, i + x.len()) =~= x);
}

/// An insertion that does not fall strictly inside an occurrence of `q`
/// keeps that occurrence (moved right when the insertion is before it).
pub proof fn lemma_insert_keeps_occurrence(s: Seq<char>, i: int, x: Seq<char>, q: Seq<char>, j: int)
    requires
        0 <= i <= s.len(),
        occurs_at(s, q, j),
        i <= j || j + q.len() <= i,
    ensures
        i <= j ==> occurs_at(insert_at(s, i, x), q, j + x.len()),
        j + q.len() <= i ==> occurs_at(insert_at(s, i, x), q, j),
        contains(insert_at(s, i, x), q),
{
    let t = insert_at(s, i, x);
    if i <= j {
        assert(t.subrange(j + x.len(), j + x.len() + q.len()) =~= s.subrange(j, j + q.len()));
        assert(occurs_at(t, q, j + x.len()));
    }
    if j + q.len() <= i {
        assert(t.subrange(j, j + q.len()) =~= s.subrange(j, j + q.len()));
        assert(occurs_at(t, q, j));
    }
}

/// `c` is one of the characters of `s`.
pub open spec fn has_char(s: Seq<char>, c: char) -> bool {
    exists|t: int| 0 <= t < s.len() && #[trigger] s[t] == c
}

/// An insertion placed at the end of an occurrence of `k` keeps every
/// occurrence of `q` when `k` does not occur inside `q` and the first
/// character of `q` is not a character of `k`.
pub proof fn lemma_insert_after_keeps(
    s: Seq<char>,
    i: int,
    x: Seq<char>,
    k: Seq<char>,
    q: Seq<char>,
    j: int,
)
    requires
        occurs_at(s, k, i),
        q.len() > 0,
        !contains(q, k),
        !has_char(k, q[0]),
        occurs_at(s, q, j),
    ensures
        contains(insert_at(s, i + k.len(), x), q),
{
    let e = i + k.len();
    if j < e && e < j + q.len() {
        if i >= j {
            assert(q.subrange(i - j, i - j + k.len()) =~= k) by {
                assert forall|t: int| 0 <= t < k.len() implies q.subrange(
                    i - j,
                    i - j + k.len(),
                )[t] == k[t] by {
                    assert(s.subrange(j, j + q.len())[i - j + t] == s[i + t]);
                    assert(s.subrange(i, i + k.len())[t] == s[i + t]);
                }
            }
            assert(occurs_at(q, k, i - j));
            assert(false);
        } else {
            assert(s.subrange(j, j + q.len())[0] == s[j]);
            assert(s.subrange(i, i + k.len())[j - i] == s[j]);
            assert(k[j - i] == q[0]);
            assert(false);
        }
    }
    lemma_insert_keeps_occurrence(s, e, x, q, j);
}

/// An insertion placed at the start of an occurrence of `k` keeps every
/// occurrence of `q` when the first character of `k` is not a character of
/// `q`.
pub proof fn lemma_insert_before_keeps(
    s: Seq<char>,
    i: int,
    x: Seq<char>,
    k: Seq<char>,
    q: Seq<char>,
    j: int,
)
    requires
        occurs_at(s, k, i),
        k.len() > 0,
        !has_char(q, k[0]),
        occurs_at(s, q, j),
    ensures
        contains(insert_at(s, i, x), q),
{
    if j < i && i < j + q.len() {
        assert(s.subrange(i, i + k.len())[0] == s[i]);
        assert(s.subrange(j, j + q.len())[i - j] == s[i]);
        assert(q[i - j] == k[0]);
        assert(false);
    }
    lemma_insert_keeps_occurrence(s, i, x, q, j);
}

/// Inserting `x` creates no occurrence of a pattern `q` that was absent,
/// when neither the first nor the last character of `x` is a character of
/// `q` and some character of `q` is not a character of `x`.
pub proof fn lemma_insert_adds_no(s: Seq<char>, i: int, x: Seq<char>, q: Seq<char>, t: int)
    requires
        0 <= i <= s.len(),
        !contains(s, q),
        x.len() > 0,
        !has_char(q, x[0]),
        !has_char(q, x[x.len() - 1]),
        0 <= t < q.len(),
        !has_char(x, q[t]),
    ensures
        !contains(insert_at(s, i, x), q),
{
    let r = insert_at(s, i, x);
    let n = x.len() as int;
    let l = q.len() as int;
    if contains(r, q) {
        let m = choose|m: int| occurs_at(r, q, m);
        assert(r.subrange(m, m + l) == q);
        if m + l <= i {
            assert(s.subrange(m, m + l) =~= r.subrange(m, m + l));
            assert(occurs_at(s, q, m));
        } else if m >= i + n {
            assert(s.subrange(m - n, m - n + l) =~= r.subrange(m, m + l));
            assert(occurs_at(s, q, m - n));
        } else if m < i {
            assert(r.subrange(m, m + l)[i - m] == r[i]);
            assert(r[i] == x[0]);
            assert(q[i - m] == x[0]);
        } else if m + l > i + n {
            assert(r.subrange(m, m + l)[i + n - 1 - m] == r[i + n - 1]);
            assert(r[i + n - 1] == x[n - 1]);
            assert(q[i + n - 1 - m] == x[n - 1]);
        } else {
            assert(r.subrange(m, m + l)[t] == r[m + t]);
            assert(r[m + t] == x[m - i + t]);
            assert(x[m - i + t] == q[t]);
        }
    }
}

/// `k` cannot occur in `q` when one of its characters is not a character
/// of `q`.
pub proof fn lemma_missing_char(q: Seq<char>, k: Seq<char>, t: int)
    requires
        0 <= t < k.len(),
        !has_char(q, k[t]),
    ensures
        !contains(q, k),
{
    if contains(q, k) {
        let i = choose|i: int| occurs_at(q, k, i);
        assert(q.subrange(i, i + k.len())[t] == q[i + t]);
        assert(q[i + t] == k[t]);
    }
}

/// Replacing the first occurrence of `p` by `x + p` inserts `x` in front of
/// that occurrence.
pub proof fn lemma_replace_first_prepend(s: Seq<char>, p: Seq<char>, x: Seq<char>)
    requires
        contains(s, p),
    ensures
        find(s, p) matches Some(i) && replace_first(s, p, x + p) == insert_at(s, i, x),
        find(s, p) matches Some(i) && occurs_at(replace_first(s, p, x + p), x, i),
{
    lemma_find(s, p);
    let i = find(s, p)->0;
    assert(occurs_at(s, p, i));
    assert(s.skip(i) =~= p + s.skip(i + p.len()));
    assert(replace_first(s, p, x + p) =~= insert_at(s, i, x));
    lemma_insert_at_occurs(s, i, x);
}

// ----------------------------------------------------------------------
// Executable operations
// ----------------------------------------------------------------------

/// `String::push`: appends one character at the end of the string.
#[verifier::external_body]
fn push_char(s: &mut String, c: char)
    ensures
        final(s)@ == old(s)@.push(c),
{
    s.push(c);
}

/// The characters of `s`, in order.
pub fn chars_of(s: &str) -> (v: Vec<char>)
    ensures
        v@ == s@,
{
    let mut v: Vec<char> = Vec::new();
    for c in it: s.chars()
        invariant
            v@ == it.seq().take(it.index() as int),
            it.seq() == s@,
    {
        v.push(c);
    }
    v
}

/// The string made of the characters of `v`, in order.
pub fn string_of(v: &Vec<char>) -> (s: String)
    ensures
        s@ == v@,
{
    let mut s = String::new();
    let mut i: usize = 0;
    while i < v.len()
        invariant
            i <= v.len(),
            s@ == v@.take(i as int),
        decreases v.len() - i,
    {
        push_char(&mut s, v[i]);
        assert(v@.take(i as int + 1) == v@.take(i as int).push(v@[i as int]));
        i += 1;
    }
    assert(v@.take(v.len() as int) == v@);
    s
}

/// Whether `p` occurs in `s` at index `i`.
pub fn occurs_at_exec(s: &Vec<char>, p: &Vec<char>, i: usize) -> (b: bool)
    ensures
        b == occurs_at(s@, p@, i as int),
{
    if i > s.len() || p.len() > s.len() - i {
        return false;
    }
    let mut t: usize = 0;
    while t < p.len()
        invariant
            i + p.len() <= s.len(),
            t <= p.len(),
            forall|u: int| 0 <= u < t ==> s@[i + u] == p@[u],
        decreases p.len() - t,
    {
        if s[i + t] != p[t] {
            assert(s@.subrange(i as int, i + p.len())[t as int] != p@[t as int]);
            return false;
        }
        t += 1;
    }
    assert(s@.subrange(i as int, i + p.len()) =~= p@);
    true
}

/// Whether `s` begins with `p`.
pub fn starts_with_exec(s: &Vec<char>, p: &Vec<char>) -> (b: bool)
    ensures
        b == p@.is_prefix_of(s@),
{
    let b = occurs_at_exec(s, p, 0);
    assert(b ==> p@.is_prefix_of(s@));
    assert(p@.is_prefix_of(s@) ==> s@.subrange(0, p@.len() as int) == p@);
    b
}

/// Whether `s` ends with `p`.
pub fn ends_with_exec(s: &Vec<char>, p: &Vec<char>) -> (b: bool)
    ensures
        b == p@.is_suffix_of(s@),
{
    if p.len() > s.len() {
        return false;
    }
    let b = occurs_at_exec(s, p, s.len() - p.len());
    assert(p@.is_suffix_of(s@) ==> s@.subrange(s@.len() - p@.len(), s@.len() as int) == p@);
    b
}

/// The leftmost index at which `p` occurs in `s`.
pub fn find_exec(s: &Vec<char>, p: &Vec<char>) -> (r: Option<usize>)
    ensures
        match r {
            Some(i) => find(s@, p@) == Some(i as int),
            None => find(s@, p@) is None,
        },
{
    let mut k: usize = 0;
    while k <= s.len() && p.len() <= s.len() - k
        invariant
            k <= s.len() + 1,
            find(s@, p@) == find_from(s@, p@, k as int),
        decreases s.len() + 1 - k,
    {
        if occurs_at_exec(s, p, k) {
            return Some(k);
        }
        assert(k < s.len()) by {
            if k == s.len() {
                assert(s@.subrange(k as int, k as int) =~= p@);
            }
        }
        k += 1;
    }
    None
}

/// Whether `p` occurs anywhere in `s`.
pub fn contains_exec(s: &Vec<char>, p: &Vec<char>) -> (b: bool)
    ensures
        b == contains(s@, p@),
{
    proof {
        lemma_find(s@, p@);
    }
    find_exec(s, p).is_some()
}

/// The characters `lo .. hi` of `s`, appended to `out`.
fn append_range(out: &mut Vec<char>, s: &Vec<char>, lo: usize, hi: usize)
    requires
        lo <= hi <= s.len(),
    ensures
        final(out)@ == old(out)@ + s@.subrange(lo as int, hi as int),
{
    let mut t = lo;
    while t < hi
        invariant
            lo <= t <= hi <= s.len(),
            out@ == old(out)@ + s@.subrange(lo as int, t as int),
        decreases hi - t,
    {
        out.push(s[t]);
        assert(s@.subrange(lo as int, t + 1) == s@.subrange(lo as int, t as int).push(s@[t as int]));
        t += 1;
    }
}

/// The characters of `a` followed by those of `b`.
pub fn concat_exec(a: &Vec<char>, b: &Vec<char>) -> (r: Vec<char>)
    ensures
        r@ == a@ + b@,
{
    let mut out: Vec<char> = Vec::new();
    append_range(&mut out, a, 0, a.len());
    append_range(&mut out, b, 0, b.len());
    assert(a@.subrange(0, a.len() as int) == a@);
    assert(b@.subrange(0, b.len() as int) == b@);
    out
}

/// `x` inserted into `s` before index `i`.
pub fn insert_exec(s: &Vec<char>, i: usize, x: &Vec<char>) -> (r: Vec<char>)
    requires
        i <= s.len(),
    ensures
        r@ == insert_at(s@, i as int, x@),
{
    let mut out: Vec<char> = Vec::new();
    append_range(&mut out, s, 0, i);
    append_range(&mut out, x, 0, x.len());
    append_range(&mut out, s, i, s.len());
    assert(s@.subrange(0, i as int) == s@.take(i as int));
    assert(x@.subrange(0, x.len() as int) == x@);
    assert(s@.subrange(i as int, s.len() as int) == s@.skip(i as int));
    out
}

/// `s` with the first occurrence of `p` replaced by `r`.
pub fn replace_first_exec(s: &Vec<char>, p: &Vec<char>, r: &Vec<char>) -> (res: Vec<char>)
    ensures
        res@ == replace_first(s@, p@, r@),
{
    match find_exec(s, p) {
        Some(i) => {
            proof {
                lemma_find(s@, p@);
            }
            assert(occurs_at(s@, p@, i as int));
            let mut out: Vec<char> = Vec::new();
            append_range(&mut out, s, 0, i);
            append_range(&mut out, r, 0, r.len());
            append_range(&mut out, s, i + p.len(), s.len());
            assert(s@.subrange(0, i as int) == s@.take(i as int));
            assert(r@.subrange(0, r.len() as int) == r@);
            assert(s@.subrange(i + p.len(), s.len() as int) == s@.skip(i + p.len()));
            out
        },
        None => s.clone(),
    }
}

/// `s` with every occurrence of the nonempty pattern `p` replaced by `r`.
pub fn replace_all_exec(s: &Vec<char>, p: &Vec<char>, r: &Vec<char>) -> (res: Vec<char>)
    requires
        p.len() > 0,
    ensures
        res@ == replace_all(s@, p@, r@),
{
    let mut out: Vec<char> = Vec::new();
    let mut i: usize = 0;
    assert(s@.skip(0) == s@);
    while i < s.len()
        invariant
            i <= s.len(),
            p.len() > 0,
            out@ + replace_all(s@.skip(i as int), p@, r@) == replace_all(s@, p@, r@),
        decreases s.len() - i,
    {
        let ghost rest = s@.skip(i as int);
        proof {
            lemma_occurs_at_skip(s@, p@, i as int);
        }
        let ghost before = out@;
        if occurs_at_exec(s, p, i) {
            append_range(&mut out, r, 0, r.len());
            assert(r@.subrange(0, r.len() as int) == r@);
            assert(rest.skip(p.len() as int) == s@.skip(i + p.len()));
            assert(out@ + replace_all(s@.skip(i + p.len()), p@, r@) =~= before + replace_all(rest, p@, r@)) by {
                assert(replace_all(rest, p@, r@) == r@ + replace_all(rest.skip(p.len() as int), p@, r@));
            }
            i = i + p.len();
        } else {
            out.push(s[i]);
            assert(rest.skip(1) == s@.skip(i + 1));
            assert(replace_all(rest, p@, r@) == seq![rest[0]] + replace_all(rest.skip(1), p@, r@));
            assert(out@ + replace_all(s@.skip(i + 1), p@, r@) =~= before + replace_all(rest, p@, r@));
            i = i + 1;
        }
    }
    assert(s@.skip(i as int).len() == 0);
    assert(out@ + s@.skip(i as int) =~= out@);
    out
}

} // verus!
