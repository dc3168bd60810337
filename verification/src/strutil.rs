//! Verified string helpers: equality and concatenation over views.

use vstd::prelude::*;

verus! {

/// Character-for-character equality of two string slices.
pub fn str_eq(a: &str, b: &str) -> (r: bool)
    ensures
        r == (a@ == b@),
{
    let n = a.unicode_len();
    if n != b.unicode_len() {
        return false;
    }
    let mut i: usize = 0;
    while i < n
        invariant
            n == a@.len(),
            n == b@.len(),
            i <= n,
            forall|j: int| 0 <= j < i ==> a@[j] == b@[j],
        decreases n - i,
    {
        if a.get_char(i) != b.get_char(i) {
            return false;
        }
        i = i + 1;
    }
    proof {
        assert(a@ =~= b@);
    }
    true
}

/// A borrowed slice of an owned string.
pub fn as_str(s: &String) -> (r: &str)
    ensures
        r@ == s@,
{
    core::ops::Deref::deref(s)
}

/// `a` followed by `b`, as an owned string.
pub fn concat_str(a: &String, b: &str) -> (r: String)
    ensures
        r@ == a@ + b@,
{
    let mut r = s_clone(a);
    r.append(b);
    r
}

/// An owned copy of a string.
pub fn s_clone(s: &String) -> (r: String)
    ensures
        r@ == s@,
{
    s.clone()
}

/// An owned string holding the given slice.
pub fn s(v: &str) -> (r: String)
    ensures
        r@ == v@,
{
    String::from_str(v)
}

/// An owned copy of an optional string.
pub fn opt_clone(v: &Option<String>) -> (r: Option<String>)
    ensures
        r.deep_view() == v.deep_view(),
{
    match v {
        Some(x) => Some(s_clone(x)),
        None => None,
    }
}

/// Whether an optional string holds exactly the given slice.
pub fn opt_str_is(v: &Option<String>, s: &str) -> (r: bool)
    ensures
        r == (v.deep_view() == Some(s@)),
{
    match v {
        Some(x) => str_eq(as_str(x), s),
        None => false,
    }
}

/// An owned copy of a list of strings.
pub fn vec_clone(v: &Vec<String>) -> (r: Vec<String>)
    ensures
        r.deep_view() == v.deep_view(),
{
    let mut r: Vec<String> = Vec::new();
    let mut i: usize = 0;
    while i < v.len()
        invariant
            i <= v.len(),
            r.len() == i,
            forall|j: int| 0 <= j < i ==> r.deep_view()[j] == v.deep_view()[j],
        decreases v.len() - i,
    {
        r.push(s_clone(&v[i]));
        i = i + 1;
    }
    proof {
        assert(r.deep_view() =~= v.deep_view());
    }
    r
}

} // verus!
