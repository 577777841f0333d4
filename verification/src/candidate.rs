//! The two thin wrappers the equivalence pipeline works on: a cached
//! candidate entry, and the target element currently being styled.

use vstd::prelude::*;
use crate::element::{AtomIdent, Element, RevalidationResult, ScopeRevalidationResult};
use crate::style::OpaqueComputedValues;
use crate::context::{NeedsSelectorFlags, StyleBloom};
use crate::lists::copy_bool_list;
use crate::validation::{
    class_list_of, parent_style_identity_of, part_list_of, pres_hints_of, ValidationData,
};

verus! {

/// An entry in the style sharing cache: an element whose style was resolved
/// during this traversal, its memoized comparison inputs, and whether its
/// style was considered to involve nontrivial scoped style rules. Once
/// stored, the underlying style information is immutable.
pub struct StyleSharingCandidate {
    /// The cached element.
    pub element: Element,
    /// The memoized comparison inputs for this entry.
    pub validation_data: ValidationData,
    /// Whether the entry's style was flagged as involving nontrivial scoped
    /// style; such entries additionally require equal scope-revalidation
    /// results to be shared.
    pub considered_nontrivial_scoped_style: bool,
    /// The DOM depth the entry was inserted at. All entries of a store
    /// share its recorded depth: the store is flushed whenever styling
    /// moves to another depth.
    pub depth: Ghost<usize>,
}

impl StyleSharingCandidate {
    /// What the store guarantees of every entry: the element was styled (it
    /// has a resolved style bundle to share), it has a resolved traversal
    /// parent (insertion rejects parentless elements), and every memoized
    /// field holds the value recomputation would produce.
    pub open spec fn wf(self) -> bool {
        &&& self.element.data is Some
        &&& self.element.traversal_parent is Some
        &&& self.element.parent_resolved()
        &&& self.validation_data.valid_for(self.element)
    }

    /// Same cached element, flag and insertion depth; the memoized fields
    /// may differ (they fill in lazily while the entry is tested).
    pub open spec fn same_entry_as(self, other: Self) -> bool {
        self.element == other.element
            && self.considered_nontrivial_scoped_style == other.considered_nontrivial_scoped_style
            && self.depth == other.depth
    }

    /// Get or compute the canonical class list of this candidate.
    pub fn class_list(&mut self) -> (r: Vec<AtomIdent>)
        requires
            old(self).valid(),
        ensures
            r@ == class_list_of(old(self).element),
            final(self).valid(),
            final(self).same_entry_as(*old(self)),
            final(self).element == old(self).element,
    {
        let element = &self.element;
        // Borrowing the fields separately keeps the borrow checker happy
        // while the accessor memoizes into `validation_data`.
        let r = vd_class_list(&mut self.validation_data, element);
        r
    }

    /// Get or compute the canonical part list of this candidate.
    pub fn part_list(&mut self) -> (r: Vec<AtomIdent>)
        requires
            old(self).valid(),
        ensures
            r@ == part_list_of(old(self).element),
            final(self).valid(),
            final(self).same_entry_as(*old(self)),
            final(self).element == old(self).element,
    {
        let element = &self.element;
        vd_part_list(&mut self.validation_data, element)
    }

    /// Get or compute the presentational hints of this candidate.
    pub fn pres_hints(&mut self) -> (r: Vec<u64>)
        requires
            old(self).valid(),
        ensures
            r@ == pres_hints_of(old(self).element),
            final(self).valid(),
            final(self).same_entry_as(*old(self)),
            final(self).element == old(self).element,
    {
        let element = &self.element;
        vd_pres_hints(&mut self.validation_data, element)
    }

    /// Get or capture the parent style identity of this candidate.
    pub fn parent_style_identity(&mut self) -> (r: OpaqueComputedValues)
        requires
            old(self).valid(),
            old(self).element.traversal_parent is Some,
            old(self).element.parent_resolved(),
        ensures
            r == parent_style_identity_of(old(self).element),
            final(self).valid(),
            final(self).same_entry_as(*old(self)),
            final(self).element == old(self).element,
    {
        let element = &self.element;
        vd_parent_style_identity(&mut self.validation_data, element)
    }

    /// Get or compute the revalidation match results of this candidate. The
    /// ancestor filter is consulted only when it happens to be set up for
    /// this candidate's parent (a sibling of the target); the candidate's
    /// selector-dependency flags are already right, so none are requested.
    pub fn revalidation_match_results(&mut self, bloom: &StyleBloom) -> (r: RevalidationResult)
        requires
            old(self).valid(),
        ensures
            r.eq_spec_fn(old(self).element.revalidation),
            final(self).valid(),
            final(self).same_entry_as(*old(self)),
            final(self).element == old(self).element,
    {
        let element = &self.element;
        vd_revalidation(&mut self.validation_data, element, bloom, false, NeedsSelectorFlags::No)
    }

    /// The scope-revalidation results of this candidate. Not memoized: the
    /// check runs only for entries flagged with nontrivial scoped style.
    pub fn scope_revalidation_results(&mut self) -> (r: ScopeRevalidationResult)
        ensures
            r.eq_spec_fn(old(self).element.scope_revalidation),
            *final(self) == *old(self),
    {
        ScopeRevalidationResult {
            scopes_matched: copy_bool_list(&self.element.scope_revalidation.scopes_matched),
        }
    }

    /// The memoized fields hold what recomputation from the element would
    /// produce.
    pub open spec fn valid(self) -> bool {
        self.validation_data.valid_for(self.element)
    }
}

impl PartialEq for StyleSharingCandidate {
    /// Candidates are compared as their elements: by identity.
    fn eq(&self, other: &Self) -> (r: bool) {
        self.element.id == other.element.id
    }
}

impl vstd::std_specs::cmp::PartialEqSpecImpl for StyleSharingCandidate {
    open spec fn obeys_eq_spec() -> bool {
        true
    }

    open spec fn eq_spec(&self, other: &Self) -> bool {
        self.element.id == other.element.id
    }
}

/// An element we want to test against the style sharing cache, with its own
/// memoized comparison inputs. Created per styling attempt and discarded
/// after it; on a successful insertion the memoized data is salvaged into
/// the new candidate without recomputation.
pub struct StyleSharingTarget {
    /// The element being styled.
    pub element: Element,
    /// The memoized comparison inputs for this attempt.
    pub validation_data: ValidationData,
}

impl StyleSharingTarget {
    /// The memoized fields hold what recomputation from the element would
    /// produce.
    pub open spec fn valid(self) -> bool {
        self.validation_data.valid_for(self.element)
    }

    /// Trivially construct a new target to test against the cache.
    pub fn new(element: Element) -> (r: Self)
        ensures
            r.element == element,
            r.validation_data.is_fresh(),
            r.valid(),
    {
        StyleSharingTarget { element, validation_data: ValidationData::new() }
    }

    /// Get or compute the canonical class list of this target.
    pub fn class_list(&mut self) -> (r: Vec<AtomIdent>)
        requires
            old(self).valid(),
        ensures
            r@ == class_list_of(old(self).element),
            final(self).valid(),
            final(self).element == old(self).element,
    {
        let element = &self.element;
        vd_class_list(&mut self.validation_data, element)
    }

    /// Get or compute the canonical part list of this target.
    pub fn part_list(&mut self) -> (r: Vec<AtomIdent>)
        requires
            old(self).valid(),
        ensures
            r@ == part_list_of(old(self).element),
            final(self).valid(),
            final(self).element == old(self).element,
    {
        let element = &self.element;
        vd_part_list(&mut self.validation_data, element)
    }

    /// Get or compute the presentational hints of this target.
    pub fn pres_hints(&mut self) -> (r: Vec<u64>)
        requires
            old(self).valid(),
        ensures
            r@ == pres_hints_of(old(self).element),
            final(self).valid(),
            final(self).element == old(self).element,
    {
        let element = &self.element;
        vd_pres_hints(&mut self.validation_data, element)
    }

    /// Get or capture the parent style identity of this target.
    pub fn parent_style_identity(&mut self) -> (r: OpaqueComputedValues)
        requires
            old(self).valid(),
            old(self).element.traversal_parent is Some,
            old(self).element.parent_resolved(),
        ensures
            r == parent_style_identity_of(old(self).element),
            final(self).valid(),
            final(self).element == old(self).element,
    {
        let element = &self.element;
        vd_parent_style_identity(&mut self.validation_data, element)
    }

    /// Get or compute the revalidation match results of this target. The
    /// filter is known to be set up for the target, and selector-dependency
    /// flags are requested: a successful share must leave behind the same
    /// bookkeeping that matching directly on the target would have, or later
    /// incremental updates would miss restyles.
    pub fn revalidation_match_results(&mut self, bloom: &StyleBloom) -> (r: RevalidationResult)
        requires
            old(self).valid(),
            bloom.current_parent == old(self).element.traversal_parent_id(),
        ensures
            r.eq_spec_fn(old(self).element.revalidation),
            final(self).valid(),
            final(self).element == old(self).element,
    {
        let element = &self.element;
        vd_revalidation(&mut self.validation_data, element, bloom, true, NeedsSelectorFlags::Yes)
    }

    /// The scope-revalidation results of this target, with flag bookkeeping
    /// requested. Not memoized.
    pub fn scope_revalidation_results(&mut self) -> (r: ScopeRevalidationResult)
        ensures
            r.eq_spec_fn(old(self).element.scope_revalidation),
            *final(self) == *old(self),
    {
        ScopeRevalidationResult {
            scopes_matched: copy_bool_list(&self.element.scope_revalidation.scopes_matched),
        }
    }

    /// Gets the validation data used to match against this target, leaving
    /// fresh data behind; the computed fields move into a new cache entry
    /// without recomputation.
    pub fn take_validation_data(&mut self) -> (r: ValidationData)
        ensures
            r == old(self).validation_data,
            final(self).validation_data.is_fresh(),
            final(self).element == old(self).element,
            final(self).valid(),
    {
        self.validation_data.take()
    }
}

/// Free-function forms of the `ValidationData` accessors, taking the data
/// and the element as separate borrows of one wrapper.
fn vd_class_list(vd: &mut ValidationData, element: &Element) -> (r: Vec<AtomIdent>)
    requires
        old(vd).valid_for(*element),
    ensures
        r@ == class_list_of(*element),
        final(vd).valid_for(*element),
{
    vd.class_list(element)
}

/// See `vd_class_list`.
fn vd_part_list(vd: &mut ValidationData, element: &Element) -> (r: Vec<AtomIdent>)
    requires
        old(vd).valid_for(*element),
    ensures
        r@ == part_list_of(*element),
        final(vd).valid_for(*element),
{
    vd.part_list(element)
}

/// See `vd_class_list`.
fn vd_pres_hints(vd: &mut ValidationData, element: &Element) -> (r: Vec<u64>)
    requires
        old(vd).valid_for(*element),
    ensures
        r@ == pres_hints_of(*element),
        final(vd).valid_for(*element),
{
    vd.pres_hints(element)
}

/// See `vd_class_list`.
fn vd_parent_style_identity(vd: &mut ValidationData, element: &Element) -> (r: OpaqueComputedValues)
    requires
        old(vd).valid_for(*element),
        element.traversal_parent is Some,
        element.parent_resolved(),
    ensures
        r == parent_style_identity_of(*element),
        final(vd).valid_for(*element),
{
    vd.parent_style_identity(element)
}

/// See `vd_class_list`.
fn vd_revalidation(
    vd: &mut ValidationData,
    element: &Element,
    bloom: &StyleBloom,
    bloom_known_valid: bool,
    needs_selector_flags: NeedsSelectorFlags,
) -> (r: RevalidationResult)
    requires
        old(vd).valid_for(*element),
        bloom_known_valid ==> bloom.current_parent == element.traversal_parent_id(),
    ensures
        r.eq_spec_fn(element.revalidation),
        final(vd).valid_for(*element),
{
    vd.revalidation_match_results(element, bloom, bloom_known_valid, needs_selector_flags)
}

} // verus!
