//! Identifiers (addresses, symbols) are held as strings; these helpers search
//! and copy lists of them, reasoning over the strings' views.
use vstd::prelude::*;

verus! {

/// A table key whose equality is decided by its view.
pub trait Key: Sized + View {
    /// Whether `self` and `other` are the same key.
    fn same(&self, other: &Self) -> (r: bool)
        ensures
            r == (self@ == other@),
    ;

    /// A copy of `self`.
    fn duplicate(&self) -> (r: Self)
        ensures
            r@ == self@,
    ;
}

impl Key for String {
    fn same(&self, other: &Self) -> (r: bool) {
        *self == *other
    }

    fn duplicate(&self) -> (r: Self) {
        self.clone()
    }
}

impl Key for (String, String) {
    fn same(&self, other: &Self) -> (r: bool) {
        self.0 == other.0 && self.1 == other.1
    }

    fn duplicate(&self) -> (r: Self) {
        (self.0.clone(), self.1.clone())
    }
}

/// Position of the first element of `v` equal to `x`, if any.
pub fn index_of(v: &Vec<String>, x: &String) -> (r: Option<usize>)
    ensures
        match r {
            Some(i) => {
                &&& i < v@.len()
                &&& v@[i as int]@ == x@
                &&& forall|j: int| 0 <= j < i ==> v@[j]@ != x@
            },
            None => !v.deep_view().contains(x@),
        },
{
    let mut i: usize = 0;
    while i < v.len()
        invariant
            i <= v@.len(),
            forall|j: int| 0 <= j < i ==> v@[j]@ != x@,
        decreases v@.len() - i,
    {
        if v[i] == *x {
            return Some(i);
        }
        i = i + 1;
    }
    assert(!v.deep_view().contains(x@)) by {
        if v.deep_view().contains(x@) {
            let j = choose|j: int| 0 <= j < v.deep_view().len() && v.deep_view()[j] == x@;
            assert(v@[j]@ == x@);
        }
    }
    None
}

/// Whether `x` occurs in `v`.
pub fn contains(v: &Vec<String>, x: &String) -> (r: bool)
    ensures
        r == v.deep_view().contains(x@),
{
    match index_of(v, x) {
        Some(i) => {
            assert(v.deep_view()[i as int] == x@);
            true
        },
        None => false,
    }
}

/// A copy of `v`.
pub fn copy_all(v: &Vec<String>) -> (r: Vec<String>)
    ensures
        r.deep_view() == v.deep_view(),
{
    let mut r: Vec<String> = Vec::new();
    let mut i: usize = 0;
    while i < v.len()
        invariant
            i <= v@.len(),
            r@.len() == i,
            forall|j: int| 0 <= j < i ==> r@[j]@ == v@[j]@,
        decreases v@.len() - i,
    {
        r.push(v[i].clone());
        i = i + 1;
    }
    assert(r.deep_view() =~= v.deep_view());
    r
}

/// `v` with its element at `i` removed.
pub fn remove_at(v: &mut Vec<String>, i: usize)
    requires
        i < old(v)@.len(),
    ensures
        final(v).deep_view() == old(v).deep_view().remove(i as int),
{
    v.remove(i);
    assert(final(v).deep_view() =~= old(v).deep_view().remove(i as int));
}

/// Append `x` to `v`.
pub fn push_str(v: &mut Vec<String>, x: String)
    ensures
        final(v).deep_view() == old(v).deep_view().push(x@),
{
    v.push(x);
    assert(final(v).deep_view() =~= old(v).deep_view().push(x@));
}

/// Position of the first occurrence of `x` in `s` (meaningful when `s`
/// contains `x`).
pub open spec fn first_index<A>(s: Seq<A>, x: A) -> int {
    choose|i: int| 0 <= i < s.len() && s[i] == x && forall|j: int| 0 <= j < i ==> s[j] != x
}

/// When `x` occurs in `s`, `first_index(s, x)` is its first position.
pub proof fn lemma_first_exists<A>(s: Seq<A>, x: A)
    requires
        s.contains(x),
    ensures
        0 <= first_index(s, x) < s.len(),
        s[first_index(s, x)] == x,
        forall|j: int| 0 <= j < first_index(s, x) ==> s[j] != x,
    decreases s.len(),
{
    if s[0] == x {
        assert(0 <= 0int < s.len() && s[0] == x && forall|j: int| 0 <= j < 0 ==> s[j] != x);
    } else {
        let t = s.drop_first();
        let i = choose|i: int| 0 <= i < s.len() && s[i] == x;
        assert(t[i - 1] == x);
        lemma_first_exists(t, x);
        let k = first_index(t, x);
        assert(s[k + 1] == x);
        assert forall|j: int| 0 <= j < k + 1 implies s[j] != x by {
            if j > 0 {
                assert(s[j] == t[j - 1]);
            }
        }
    }
}

/// A position where `x` first occurs is `first_index(s, x)`.
pub proof fn lemma_first_index<A>(s: Seq<A>, x: A, i: int)
    requires
        0 <= i < s.len(),
        s[i] == x,
        forall|j: int| 0 <= j < i ==> s[j] != x,
    ensures
        first_index(s, x) == i,
{
    let k = first_index(s, x);
    assert(0 <= k < s.len() && s[k] == x && forall|j: int| 0 <= j < k ==> s[j] != x);
    if k < i {
        assert(s[k] != x);
    }
    if k > i {
        assert(s[i] != x);
    }
}

/// `s` without the first occurrence of `x` (`s` itself when `x` is absent).
pub open spec fn without_first<A>(s: Seq<A>, x: A) -> Seq<A> {
    if s.contains(x) {
        s.remove(first_index(s, x))
    } else {
        s
    }
}

/// Remove the first occurrence of `x` from `v`; whether there was one.
pub fn remove_first(v: &mut Vec<String>, x: &String) -> (found: bool)
    ensures
        found == old(v).deep_view().contains(x@),
        final(v).deep_view() == without_first(old(v).deep_view(), x@),
{
    match index_of(v, x) {
        Some(i) => {
            proof {
                assert(v.deep_view()[i as int] == x@);
                lemma_first_index(v.deep_view(), x@, i as int);
            }
            remove_at(v, i);
            true
        },
        None => false,
    }
}

/// Removing the first `x` shortens `s` by one when `x` occurs, keeps it
/// free of repeats, and adds no element.
pub proof fn lemma_without_first<A>(s: Seq<A>, x: A)
    ensures
        without_first(s, x).len() == if s.contains(x) { s.len() - 1 } else { s.len() as int },
        s.no_duplicates() ==> without_first(s, x).no_duplicates(),
        forall|y: A| #[trigger] without_first(s, x).contains(y) ==> s.contains(y),
        s.no_duplicates() ==> !without_first(s, x).contains(x),
{
    if s.contains(x) {
        lemma_first_exists(s, x);
        let k = first_index(s, x);
        let w = s.remove(k);
        assert forall|y: A| #[trigger] w.contains(y) implies s.contains(y) by {
            let j = choose|j: int| 0 <= j < w.len() && w[j] == y;
            if j < k {
                assert(s[j] == y);
            } else {
                assert(s[j + 1] == y);
            }
        }
        if s.no_duplicates() {
            assert forall|a: int, b: int| 0 <= a < b < w.len() implies w[a] != w[b] by {
                let a1 = if a < k { a } else { a + 1 };
                let b1 = if b < k { b } else { b + 1 };
                assert(w[a] == s[a1] && w[b] == s[b1]);
            }
            if w.contains(x) {
                let j = choose|j: int| 0 <= j < w.len() && w[j] == x;
                if j < k {
                    assert(s[j] == x);
                } else {
                    assert(s[j + 1] == x);
                }
            }
        }
    }
}

/// `s` extended by `x` contains exactly what `s` contains, and `x`.
pub proof fn lemma_push_contains<A>(s: Seq<A>, x: A, n: A)
    ensures
        s.push(x).contains(n) <==> (s.contains(n) || n == x),
{
    if s.contains(n) {
        let i = choose|i: int| 0 <= i < s.len() && s[i] == n;
        assert(s.push(x)[i] == n);
    }
    if n == x {
        assert(s.push(x)[s.len() as int] == x);
    }
    if s.push(x).contains(n) {
        let i = choose|i: int| 0 <= i < s.push(x).len() && s.push(x)[i] == n;
        if i < s.len() {
            assert(s[i] == n);
        }
    }
}

} // verus!
