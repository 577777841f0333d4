//! Small verified helpers over the plain lists the cache compares: exact
//! equality, membership, and copying.

use vstd::prelude::*;
use crate::element::AtomIdent;

verus! {

/// Element-wise equality of two atom lists.
pub fn atom_lists_equal(a: &Vec<AtomIdent>, b: &Vec<AtomIdent>) -> (r: bool)
    ensures
        r == (a@ == b@),
{
    if a.len() != b.len() {
        return false;
    }
    let mut i: usize = 0;
    while i < a.len()
        invariant
            i <= a@.len(),
            a@.len() == b@.len(),
            forall|j: int| 0 <= j < i ==> a@[j] == b@[j],
        decreases a@.len() - i,
    {
        if a[i] != b[i] {
            return false;
        }
        i += 1;
    }
    proof {
        assert(a@ =~= b@);
    }
    true
}

/// Element-wise equality of two bit lists.
pub fn bool_lists_equal(a: &Vec<bool>, b: &Vec<bool>) -> (r: bool)
    ensures
        r == (a@ == b@),
{
    if a.len() != b.len() {
        return false;
    }
    let mut i: usize = 0;
    while i < a.len()
        invariant
            i <= a@.len(),
            a@.len() == b@.len(),
            forall|j: int| 0 <= j < i ==> a@[j] == b@[j],
        decreases a@.len() - i,
    {
        if a[i] != b[i] {
            return false;
        }
        i += 1;
    }
    proof {
        assert(a@ =~= b@);
    }
    true
}

/// Element-wise equality of two identity lists.
pub fn u64_lists_equal(a: &Vec<u64>, b: &Vec<u64>) -> (r: bool)
    ensures
        r == (a@ == b@),
{
    if a.len() != b.len() {
        return false;
    }
    let mut i: usize = 0;
    while i < a.len()
        invariant
            i <= a@.len(),
            a@.len() == b@.len(),
            forall|j: int| 0 <= j < i ==> a@[j] == b@[j],
        decreases a@.len() - i,
    {
        if a[i] != b[i] {
            return false;
        }
        i += 1;
    }
    proof {
        assert(a@ =~= b@);
    }
    true
}

/// Whether `x` occurs in `list`.
pub fn atom_list_contains(list: &Vec<AtomIdent>, x: AtomIdent) -> (r: bool)
    ensures
        r == list@.contains(x),
{
    let mut i: usize = 0;
    while i < list.len()
        invariant
            i <= list@.len(),
            forall|j: int| 0 <= j < i ==> list@[j] != x,
        decreases list@.len() - i,
    {
        if list[i] == x {
            return true;
        }
        i += 1;
    }
    false
}

/// Whether `x` occurs in `list`.
pub fn u64_list_contains(list: &Vec<u64>, x: u64) -> (r: bool)
    ensures
        r == list@.contains(x),
{
    let mut i: usize = 0;
    while i < list.len()
        invariant
            i <= list@.len(),
            forall|j: int| 0 <= j < i ==> list@[j] != x,
        decreases list@.len() - i,
    {
        if list[i] == x {
            return true;
        }
        i += 1;
    }
    false
}

/// A fresh list with the same contents.
pub fn copy_atom_list(list: &Vec<AtomIdent>) -> (r: Vec<AtomIdent>)
    ensures
        r@ == list@,
{
    let mut r: Vec<AtomIdent> = Vec::new();
    let mut i: usize = 0;
    while i < list.len()
        invariant
            i <= list@.len(),
            r@ == list@.take(i as int),
        decreases list@.len() - i,
    {
        r.push(list[i]);
        proof {
            assert(r@ =~= list@.take(i + 1));
        }
        i += 1;
    }
    proof {
        assert(list@.take(list@.len() as int) =~= list@);
    }
    r
}

/// A fresh list with the same contents.
pub fn copy_bool_list(list: &Vec<bool>) -> (r: Vec<bool>)
    ensures
        r@ == list@,
{
    let mut r: Vec<bool> = Vec::new();
    let mut i: usize = 0;
    while i < list.len()
        invariant
            i <= list@.len(),
            r@ == list@.take(i as int),
        decreases list@.len() - i,
    {
        r.push(list[i]);
        proof {
            assert(r@ =~= list@.take(i + 1));
        }
        i += 1;
    }
    proof {
        assert(list@.take(list@.len() as int) =~= list@);
    }
    r
}

/// A fresh list with the same contents.
pub fn copy_u64_list(list: &Vec<u64>) -> (r: Vec<u64>)
    ensures
        r@ == list@,
{
    let mut r: Vec<u64> = Vec::new();
    let mut i: usize = 0;
    while i < list.len()
        invariant
            i <= list@.len(),
            r@ == list@.take(i as int),
        decreases list@.len() - i,
    {
        r.push(list[i]);
        proof {
            assert(r@ =~= list@.take(i + 1));
        }
        i += 1;
    }
    proof {
        assert(list@.take(list@.len() as int) =~= list@);
    }
    r
}

} // verus!
