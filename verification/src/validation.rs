//! Per-element memoization of the expensive comparison inputs: class list,
//! part list, presentational hints, parent style identity, and revalidation
//! match results. Each field is computed at most once and reused for the
//! entry's lifetime.
//!
//! Class and part lists are sorted by hash, but only while their length
//! stays within [`INLINE_LIST_CAPACITY`]; longer lists are kept in attribute
//! order. An unsorted list can only make two equal sets compare unequal — a
//! missed sharing opportunity, never a false hit.

use vstd::prelude::*;
use vstd::relations::{sorted_by, total_ordering};
use vstd::seq_lib::lemma_sorted_unique;
use crate::element::{AtomIdent, Element, RevalidationResult};
use crate::style::OpaqueComputedValues;
use crate::context::{NeedsSelectorFlags, StyleBloom};
use crate::lists::{copy_atom_list, copy_bool_list, copy_u64_list};

verus! {

/// Class and part lists are sorted only while at most this long.
pub const INLINE_LIST_CAPACITY: usize = 5;

/// The order class and part lists are sorted by: the atoms' precomputed
/// hashes.
pub open spec fn atom_leq() -> spec_fn(AtomIdent, AtomIdent) -> bool {
    |a: AtomIdent, b: AtomIdent| a.0 <= b.0
}

/// `atom_leq` is a total order, so a sorted atom list is a canonical form of
/// its multiset.
pub proof fn lemma_atom_leq_total_ordering()
    ensures
        total_ordering(atom_leq()),
{
    let leq = atom_leq();
    assert forall|a: AtomIdent, b: AtomIdent| #[trigger] leq(a, b) && #[trigger] leq(b, a)
        implies a == b by {
        assert(a.0 == b.0);
    }
}

/// Inserting anywhere adds exactly one occurrence to the multiset.
proof fn lemma_insert_to_multiset(s: Seq<AtomIdent>, i: int, x: AtomIdent)
    requires
        0 <= i <= s.len(),
    ensures
        s.insert(i, x).to_multiset() == s.to_multiset().insert(x),
{
    broadcast use vstd::seq_lib::group_to_multiset_ensures;
    broadcast use vstd::multiset::group_multiset_axioms;

    let t = s.insert(i, x);
    assert(t.remove(i) =~= s);
    assert(t[i] == x);
    assert(t.remove(i).to_multiset() == t.to_multiset().remove(t[i]));
    assert(t.contains(x));
    assert(t.to_multiset().count(x) > 0);
    assert(t.to_multiset() =~= s.to_multiset().insert(x));
}

/// Insert `x` into a hash-sorted list, keeping it sorted.
fn insert_atom_sorted(list: &mut Vec<AtomIdent>, x: AtomIdent)
    requires
        sorted_by(old(list)@, atom_leq()),
    ensures
        sorted_by(final(list)@, atom_leq()),
        final(list)@.to_multiset() == old(list)@.to_multiset().insert(x),
        final(list)@.len() == old(list)@.len() + 1,
{
    let mut i: usize = 0;
    while i < list.len() && list[i].get_hash() < x.get_hash()
        invariant
            i <= list@.len(),
            list@ == old(list)@,
            forall|j: int| 0 <= j < i ==> list@[j].0 < x.0,
        decreases list@.len() - i,
    {
        i += 1;
    }
    list.insert(i, x);
    proof {
        let s = old(list)@;
        let t = list@;
        let pos = i as int;
        assert(t == s.insert(pos, x));
        s.insert_ensures(pos, x);
        lemma_insert_to_multiset(s, pos, x);
        assert forall|p: int, q: int| 0 <= p < q < t.len() implies atom_leq()(t[p], t[q]) by {
            if q < pos {
                assert(t[p] == s[p] && t[q] == s[q]);
            } else if p > pos {
                assert(t[p] == s[p - 1] && t[q] == s[q - 1]);
            } else if p == pos {
                // q > pos, so t[q] == s[q - 1] with q - 1 >= pos; the loop
                // stopped at the first entry not below x.
                assert(t[p] == x && t[q] == s[q - 1]);
                assert(x.0 <= s[pos].0);
                if pos < q - 1 {
                    assert(atom_leq()(s[pos], s[q - 1]));
                }
            } else if q == pos {
                assert(t[p] == s[p] && t[q] == x);
            } else {
                // p < pos < q
                assert(t[p] == s[p] && t[q] == s[q - 1]);
                if p < q - 1 {
                    assert(atom_leq()(s[p], s[q - 1]));
                }
            }
        }
    }
}

/// Sort a list of atoms by their hashes.
pub fn sort_atoms_by_hash(list: &Vec<AtomIdent>) -> (r: Vec<AtomIdent>)
    ensures
        r@ == list@.sort_by(atom_leq()),
{
    let mut r: Vec<AtomIdent> = Vec::new();
    proof {
        assert(list@.take(0) =~= r@);
    }
    let mut i: usize = 0;
    while i < list.len()
        invariant
            i <= list@.len(),
            sorted_by(r@, atom_leq()),
            r@.len() == i,
            r@.to_multiset() == list@.take(i as int).to_multiset(),
        decreases list@.len() - i,
    {
        insert_atom_sorted(&mut r, list[i]);
        proof {
            broadcast use vstd::seq_lib::group_to_multiset_ensures;
            assert(list@.take(i + 1) =~= list@.take(i as int).push(list@[i as int]));
        }
        i += 1;
    }
    proof {
        assert(list@.take(list@.len() as int) =~= list@);
        lemma_atom_leq_total_ordering();
        list@.lemma_sort_by_ensures(atom_leq());
        lemma_sorted_unique(r@, list@.sort_by(atom_leq()), atom_leq());
        assert(r@ =~= list@.sort_by(atom_leq()));
    }
    r
}

/// The canonical form a list of class or part names is compared in: sorted
/// by hash while within the inline capacity, as collected otherwise.
pub open spec fn canonical_atom_list(s: Seq<AtomIdent>) -> Seq<AtomIdent> {
    if s.len() <= INLINE_LIST_CAPACITY {
        s.sort_by(atom_leq())
    } else {
        s
    }
}

/// Two short lists with the same contents have the same canonical form:
/// comparison of canonical lists is order-independent within the inline
/// capacity.
pub proof fn lemma_canonical_order_independent(a: Seq<AtomIdent>, b: Seq<AtomIdent>)
    requires
        a.to_multiset() == b.to_multiset(),
        a.len() <= INLINE_LIST_CAPACITY,
        b.len() <= INLINE_LIST_CAPACITY,
    ensures
        canonical_atom_list(a) == canonical_atom_list(b),
{
    lemma_atom_leq_total_ordering();
    a.lemma_sort_by_ensures(atom_leq());
    b.lemma_sort_by_ensures(atom_leq());
    lemma_sorted_unique(a.sort_by(atom_leq()), b.sort_by(atom_leq()), atom_leq());
    assert(canonical_atom_list(a) =~= canonical_atom_list(b));
}

/// A canonical list holds the same multiset as the list it was formed from:
/// the sorted/unsorted policy can drop no class and invent none, so it can
/// only cause a missed sharing, never a false hit.
pub proof fn lemma_canonical_same_multiset(s: Seq<AtomIdent>)
    ensures
        canonical_atom_list(s).to_multiset() == s.to_multiset(),
{
    if s.len() <= INLINE_LIST_CAPACITY {
        lemma_atom_leq_total_ordering();
        s.lemma_sort_by_ensures(atom_leq());
    }
}

/// The class list an element is compared by.
pub open spec fn class_list_of(e: Element) -> Seq<AtomIdent> {
    canonical_atom_list(e.classes@)
}

/// The part list an element is compared by: empty unless the element
/// declares a `part` attribute at all.
pub open spec fn part_list_of(e: Element) -> Seq<AtomIdent> {
    if e.has_part_attr {
        canonical_atom_list(e.parts@)
    } else {
        Seq::empty()
    }
}

/// The presentational hints an element is compared by.
pub open spec fn pres_hints_of(e: Element) -> Seq<u64> {
    e.pres_hints@
}

/// The identity of the element's parent's resolved primary style.
/// Meaningful only when the element has a parent and the parent is resolved.
pub open spec fn parent_style_identity_of(e: Element) -> OpaqueComputedValues {
    OpaqueComputedValues(e.traversal_parent.unwrap().primary_style.unwrap().identity)
}

/// Data computed while comparing an element that is worth keeping: each
/// field is computed at most once, then reused for the entry's lifetime.
#[derive(Debug)]
pub struct ValidationData {
    /// The canonical class list, once computed.
    pub class_list: Option<Vec<AtomIdent>>,
    /// The canonical part list, once computed. Only ever filled for elements
    /// that declare a `part` attribute.
    pub part_list: Option<Vec<AtomIdent>>,
    /// The presentational hints, once computed.
    pub pres_hints: Option<Vec<u64>>,
    /// The parent style identity, once captured.
    pub parent_style_identity: Option<OpaqueComputedValues>,
    /// The revalidation match results, once computed.
    pub revalidation_match_results: Option<RevalidationResult>,
}

impl ValidationData {
    /// All fields still uncomputed.
    pub open spec fn is_fresh(self) -> bool {
        &&& self.class_list is None
        &&& self.part_list is None
        &&& self.pres_hints is None
        &&& self.parent_style_identity is None
        &&& self.revalidation_match_results is None
    }

    /// Every computed field holds exactly the value recomputation from `e`
    /// would produce. This is the invariant that makes memoization sound:
    /// accessors may answer from the cache because the cache can hold
    /// nothing but the recomputed value.
    pub open spec fn valid_for(self, e: Element) -> bool {
        &&& (self.class_list matches Some(l) ==> l@ == class_list_of(e))
        &&& (self.part_list matches Some(l) ==> e.has_part_attr && l@ == part_list_of(e))
        &&& (self.pres_hints matches Some(l) ==> l@ == pres_hints_of(e))
        &&& (self.parent_style_identity matches Some(v) ==> e.traversal_parent is Some
            && e.parent_resolved() && v == parent_style_identity_of(e))
        &&& (self.revalidation_match_results matches Some(r) ==> r.eq_spec_fn(e.revalidation))
    }

    /// A fresh instance with nothing computed.
    pub fn new() -> (r: Self)
        ensures
            r.is_fresh(),
    {
        ValidationData {
            class_list: None,
            part_list: None,
            pres_hints: None,
            parent_style_identity: None,
            revalidation_match_results: None,
        }
    }

    /// Move the cached data to a new instance, and return it; the fields
    /// move without being recomputed, and this instance is left fresh.
    pub fn take(&mut self) -> (r: Self)
        ensures
            r == *old(self),
            final(self).is_fresh(),
    {
        let r = ValidationData {
            class_list: self.class_list.take(),
            part_list: self.part_list.take(),
            pres_hints: self.pres_hints.take(),
            parent_style_identity: self.parent_style_identity.take(),
            revalidation_match_results: self.revalidation_match_results.take(),
        };
        r
    }

    /// Get or compute the canonical class list of `element`.
    pub fn class_list(&mut self, element: &Element) -> (r: Vec<AtomIdent>)
        requires
            old(self).valid_for(*element),
        ensures
            r@ == class_list_of(*element),
            final(self).valid_for(*element),
            final(self).class_list is Some,
            old(self).class_list is Some ==> *final(self) == *old(self),
            final(self).part_list == old(self).part_list,
            final(self).pres_hints == old(self).pres_hints,
            final(self).parent_style_identity == old(self).parent_style_identity,
            final(self).revalidation_match_results == old(self).revalidation_match_results,
    {
        if self.class_list.is_none() {
            let computed = compute_canonical_list(&element.classes);
            self.class_list = Some(computed);
        }
        match &self.class_list {
            Some(l) => copy_atom_list(l),
            None => {
                proof {
                    assert(false);
                }
                Vec::new()
            },
        }
    }

    /// Get or compute the canonical part list of `element`. Elements without
    /// a `part` attribute have an empty part list, answered without caching.
    pub fn part_list(&mut self, element: &Element) -> (r: Vec<AtomIdent>)
        requires
            old(self).valid_for(*element),
        ensures
            r@ == part_list_of(*element),
            final(self).valid_for(*element),
            old(self).part_list is Some ==> *final(self) == *old(self),
            element.has_part_attr ==> final(self).part_list is Some,
            final(self).class_list == old(self).class_list,
            final(self).pres_hints == old(self).pres_hints,
            final(self).parent_style_identity == old(self).parent_style_identity,
            final(self).revalidation_match_results == old(self).revalidation_match_results,
    {
        if !element.has_part_attr {
            return Vec::new();
        }
        if self.part_list.is_none() {
            let computed = compute_canonical_list(&element.parts);
            self.part_list = Some(computed);
        }
        match &self.part_list {
            Some(l) => copy_atom_list(l),
            None => {
                proof {
                    assert(false);
                }
                Vec::new()
            },
        }
    }

    /// Get or compute the presentational hints of `element`: the declaration
    /// blocks synthesized from its legacy attributes, treating all links as
    /// unvisited.
    pub fn pres_hints(&mut self, element: &Element) -> (r: Vec<u64>)
        requires
            old(self).valid_for(*element),
        ensures
            r@ == pres_hints_of(*element),
            final(self).valid_for(*element),
            final(self).pres_hints is Some,
            old(self).pres_hints is Some ==> *final(self) == *old(self),
            final(self).class_list == old(self).class_list,
            final(self).part_list == old(self).part_list,
            final(self).parent_style_identity == old(self).parent_style_identity,
            final(self).revalidation_match_results == old(self).revalidation_match_results,
    {
        if self.pres_hints.is_none() {
            let computed = copy_u64_list(&element.pres_hints);
            self.pres_hints = Some(computed);
        }
        match &self.pres_hints {
            Some(l) => copy_u64_list(l),
            None => {
                proof {
                    assert(false);
                }
                Vec::new()
            },
        }
    }

    /// Get or capture the identity of the parent's resolved primary style.
    /// The parent must exist and be resolved already; traversal order
    /// guarantees it, and a violation is an upstream defect, not a miss.
    pub fn parent_style_identity(&mut self, element: &Element) -> (r: OpaqueComputedValues)
        requires
            old(self).valid_for(*element),
            element.traversal_parent is Some,
            element.parent_resolved(),
        ensures
            r == parent_style_identity_of(*element),
            final(self).valid_for(*element),
            final(self).parent_style_identity == Some(r),
            old(self).parent_style_identity is Some ==> *final(self) == *old(self),
            final(self).class_list == old(self).class_list,
            final(self).part_list == old(self).part_list,
            final(self).pres_hints == old(self).pres_hints,
            final(self).revalidation_match_results == old(self).revalidation_match_results,
    {
        match self.parent_style_identity {
            Some(v) => v,
            None => {
                let parent = element.traversal_parent.unwrap();
                let style = parent.primary_style.unwrap();
                let v = OpaqueComputedValues::from(&style);
                self.parent_style_identity = Some(v);
                v
            },
        }
    }

    /// Get or compute the revalidation match results of `element`: the
    /// revalidation engine's answer against the global selector set.
    ///
    /// The ancestor filter may be consulted only when it is known to be set
    /// up for this element (`bloom_known_valid`, the target side) or when
    /// its tracked parent is this element's traversal parent; otherwise the
    /// element is a cousin of the filter's position and matching runs
    /// without a filter, so the filter's state is not corrupted. Either way
    /// the answer is the same: the filter only prunes work.
    pub fn revalidation_match_results(
        &mut self,
        element: &Element,
        bloom: &StyleBloom,
        bloom_known_valid: bool,
        _needs_selector_flags: NeedsSelectorFlags,
    ) -> (r: RevalidationResult)
        requires
            old(self).valid_for(*element),
            bloom_known_valid ==> bloom.current_parent == element.traversal_parent_id(),
        ensures
            r.eq_spec_fn(element.revalidation),
            final(self).valid_for(*element),
            final(self).revalidation_match_results is Some,
            old(self).revalidation_match_results is Some ==> *final(self) == *old(self),
            final(self).class_list == old(self).class_list,
            final(self).part_list == old(self).part_list,
            final(self).pres_hints == old(self).pres_hints,
            final(self).parent_style_identity == old(self).parent_style_identity,
    {
        if self.revalidation_match_results.is_none() {
            let _filter_used = revalidation_filter_applies(bloom, element, bloom_known_valid);
            let computed = RevalidationResult {
                selectors_matched: copy_bool_list(&element.revalidation.selectors_matched),
                relevant_attributes: copy_atom_list(&element.revalidation.relevant_attributes),
            };
            self.revalidation_match_results = Some(computed);
        }
        match &self.revalidation_match_results {
            Some(cached) => RevalidationResult {
                selectors_matched: copy_bool_list(&cached.selectors_matched),
                relevant_attributes: copy_atom_list(&cached.relevant_attributes),
            },
            None => {
                proof {
                    assert(false);
                }
                RevalidationResult { selectors_matched: Vec::new(), relevant_attributes: Vec::new() }
            },
        }
    }
}

impl Default for ValidationData {
    /// A fresh instance with nothing computed.
    fn default() -> (r: Self)
        ensures
            r.is_fresh(),
    {
        ValidationData::new()
    }
}

/// Whether the ancestor filter may be consulted for the side being
/// evaluated: always for the target (the filter was set up for it), and for
/// a candidate only when the filter's tracked parent is the candidate's own
/// traversal parent — a sibling of the filter's position, not a cousin.
pub fn revalidation_filter_applies(
    bloom: &StyleBloom,
    element: &Element,
    bloom_known_valid: bool,
) -> (r: bool)
    ensures
        r == (bloom_known_valid || bloom.current_parent == element.traversal_parent_id()),
{
    if bloom_known_valid {
        return true;
    }
    let parent_id: Option<u64> = match &element.traversal_parent {
        Some(p) => Some(p.id),
        None => None,
    };
    bloom.current_parent == parent_id
}

/// The canonical form of a class or part list: sorted by hash while within
/// the inline capacity, as collected otherwise.
pub fn compute_canonical_list(list: &Vec<AtomIdent>) -> (r: Vec<AtomIdent>)
    ensures
        r@ == canonical_atom_list(list@),
{
    if list.len() <= INLINE_LIST_CAPACITY {
        sort_atoms_by_hash(list)
    } else {
        copy_atom_list(list)
    }
}

} // verus!
