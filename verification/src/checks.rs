//! The individual checks of the equivalence test pipeline, and the
//! specification of what a full pass means.
//!
//! A check returning `false` is always a miss, and a miss is always safe:
//! the caller falls back to full style resolution. A check returning `true`
//! asserts exactly the equality its specification states, so a full pass of
//! the pipeline pins down style-interchangeability.

use vstd::prelude::*;
use crate::candidate::{StyleSharingCandidate, StyleSharingTarget};
use crate::context::{has_animations, id_has_rules, SharedStyleContext, StyleBloom};
use crate::element::Element;
use crate::lists::atom_list_contains;
use crate::validation::{class_list_of, parent_style_identity_of, part_list_of, pres_hints_of};

verus! {

/// The parents are either identical, or both flagged as permitting sharing
/// across their children with equal computed style; the latter lets cousins
/// share when their parents already shared. Elements without a traversal
/// parent never allow sharing.
pub open spec fn parents_allow_sharing_spec(t: Element, c: Element) -> bool {
    match (t.traversal_parent, c.traversal_parent) {
        (Some(tp), Some(cp)) => tp.id == cp.id || (tp.permits_child_sharing
            && cp.permits_child_sharing
            && parent_style_identity_of(t) == parent_style_identity_of(c)),
        _ => false,
    }
}

/// Whether the target and candidate could possibly match different id-keyed
/// rules, checked against the global rule index; independent of whether
/// either currently has an id.
pub open spec fn may_match_different_id_rules_spec(
    shared: SharedStyleContext,
    t: Element,
    c: Element,
) -> bool {
    t.id_attr != c.id_attr && (id_has_rules(shared, t.id_attr) || id_has_rules(shared, c.id_attr))
}

/// The revalidation engine gives both elements the same answer: identical
/// relevant-attribute sets and identical match bits.
pub open spec fn revalidation_results_match(t: Element, c: Element) -> bool {
    t.revalidation.eq_spec_fn(c.revalidation)
}

/// The scope-revalidation engine gives both elements the same answer.
pub open spec fn scope_revalidation_results_match(t: Element, c: Element) -> bool {
    t.scope_revalidation.eq_spec_fn(c.scope_revalidation)
}

/// A full pass of the equivalence test pipeline: target and candidate are
/// style-interchangeable, so the candidate's resolved style may be shared.
/// `c_scoped` is the candidate's nontrivial-scoped-style flag, which makes
/// the scope-revalidation check mandatory.
pub open spec fn test_candidate_spec(
    t: Element,
    c: Element,
    c_scoped: bool,
    shared: SharedStyleContext,
) -> bool {
    &&& parents_allow_sharing_spec(t, c)
    &&& t.local_name == c.local_name
    &&& t.namespace == c.namespace
    &&& t.state == c.state
    &&& t.is_link == c.is_link
    &&& t.containing_shadow == c.containing_shadow
    &&& t.assigned_slot == c.assigned_slot
    &&& t.implemented_pseudo == c.implemented_pseudo
    &&& !t.is_shadow_host
    &&& !has_animations(shared, t)
    &&& !has_animations(shared, c)
    &&& !t.has_smil_override
    &&& t.matches_user_and_content_rules == c.matches_user_and_content_rules
    &&& !may_match_different_id_rules_spec(shared, t, c)
    &&& t.style_attr == c.style_attr
    &&& class_list_of(t) == class_list_of(c)
    &&& pres_hints_of(t) == pres_hints_of(c)
    &&& part_list_of(t) == part_list_of(c)
    &&& revalidation_results_match(t, c)
    &&& (c_scoped ==> scope_revalidation_results_match(t, c))
}

/// Check that the parents allow sharing; see `parents_allow_sharing_spec`.
/// Captures the parent style identities lazily, on both sides.
pub fn parents_allow_sharing(
    target: &mut StyleSharingTarget,
    candidate: &mut StyleSharingCandidate,
) -> (r: bool)
    requires
        old(target).valid(),
        old(target).element.parent_resolved(),
        old(candidate).valid(),
        old(candidate).element.parent_resolved(),
    ensures
        r == parents_allow_sharing_spec(old(target).element, old(candidate).element),
        final(target).valid(),
        final(target).element == old(target).element,
        final(candidate).valid(),
        final(candidate).element == old(candidate).element,
        final(candidate).same_entry_as(*old(candidate)),
{
    let t_parent = target.element.traversal_parent;
    let c_parent = candidate.element.traversal_parent;
    match (t_parent, c_parent) {
        (Some(tp), Some(cp)) => {
            if tp.id == cp.id {
                true
            } else if tp.permits_child_sharing && cp.permits_child_sharing {
                let ti = target.parent_style_identity();
                let ci = candidate.parent_style_identity();
                ti == ci
            } else {
                false
            }
        },
        _ => false,
    }
}

/// Check the target and candidate against the global rule index; see
/// `may_match_different_id_rules_spec`.
pub fn may_match_different_id_rules(
    shared: &SharedStyleContext,
    element: &Element,
    candidate: &Element,
) -> (r: bool)
    ensures
        r == may_match_different_id_rules_spec(*shared, *element, *candidate),
{
    if element.id_attr == candidate.id_attr {
        return false;
    }
    let element_id_has_rules = match element.id_attr {
        Some(a) => atom_list_contains(&shared.ids_with_rules, a),
        None => false,
    };
    if element_id_has_rules {
        return true;
    }
    match candidate.id_attr {
        Some(a) => atom_list_contains(&shared.ids_with_rules, a),
        None => false,
    }
}

/// Identical inline style declarations, compared by identity.
pub fn have_same_style_attribute(element: &Element, candidate: &Element) -> (r: bool)
    ensures
        r == (element.style_attr == candidate.style_attr),
{
    element.style_attr == candidate.style_attr
}

/// Identical canonical class lists; order-independent while the lists stay
/// within the inline capacity, since both sides are then sorted by hash.
pub fn have_same_class(
    target: &mut StyleSharingTarget,
    candidate: &mut StyleSharingCandidate,
) -> (r: bool)
    requires
        old(target).valid(),
        old(candidate).valid(),
    ensures
        r == (class_list_of(old(target).element) == class_list_of(old(candidate).element)),
        final(target).valid(),
        final(target).element == old(target).element,
        final(candidate).valid(),
        final(candidate).element == old(candidate).element,
        final(candidate).same_entry_as(*old(candidate)),
{
    let t_list = target.class_list();
    let c_list = candidate.class_list();
    crate::lists::atom_lists_equal(&t_list, &c_list)
}

/// Identical presentational hints, compared in order: the hints are
/// synthesized deterministically from the legacy attributes.
pub fn have_same_presentational_hints(
    target: &mut StyleSharingTarget,
    candidate: &mut StyleSharingCandidate,
) -> (r: bool)
    requires
        old(target).valid(),
        old(candidate).valid(),
    ensures
        r == (pres_hints_of(old(target).element) == pres_hints_of(old(candidate).element)),
        final(target).valid(),
        final(target).element == old(target).element,
        final(candidate).valid(),
        final(candidate).element == old(candidate).element,
        final(candidate).same_entry_as(*old(candidate)),
{
    let t_hints = target.pres_hints();
    let c_hints = candidate.pres_hints();
    crate::lists::u64_lists_equal(&t_hints, &c_hints)
}

/// Identical canonical shadow-part lists.
pub fn have_same_parts(
    target: &mut StyleSharingTarget,
    candidate: &mut StyleSharingCandidate,
) -> (r: bool)
    requires
        old(target).valid(),
        old(candidate).valid(),
    ensures
        r == (part_list_of(old(target).element) == part_list_of(old(candidate).element)),
        final(target).valid(),
        final(target).element == old(target).element,
        final(candidate).valid(),
        final(candidate).element == old(candidate).element,
        final(candidate).same_entry_as(*old(candidate)),
{
    let t_parts = target.part_list();
    let c_parts = candidate.part_list();
    crate::lists::atom_lists_equal(&t_parts, &c_parts)
}

/// Identical revalidation answers, each side computed under the filter
/// policy that applies to it: the filter is known valid for the target, and
/// the target side requests selector-flag bookkeeping.
pub fn revalidate(
    target: &mut StyleSharingTarget,
    candidate: &mut StyleSharingCandidate,
    bloom: &StyleBloom,
) -> (r: bool)
    requires
        old(target).valid(),
        old(candidate).valid(),
        bloom.current_parent == old(target).element.traversal_parent_id(),
    ensures
        r == revalidation_results_match(old(target).element, old(candidate).element),
        final(target).valid(),
        final(target).element == old(target).element,
        final(candidate).valid(),
        final(candidate).element == old(candidate).element,
        final(candidate).same_entry_as(*old(candidate)),
{
    let t_results = target.revalidation_match_results(bloom);
    let c_results = candidate.revalidation_match_results(bloom);
    t_results == c_results
}

/// Identical scope-revalidation answers; required only for candidates
/// flagged with nontrivial scoped style.
pub fn revalidate_scope(
    target: &mut StyleSharingTarget,
    candidate: &mut StyleSharingCandidate,
) -> (r: bool)
    ensures
        r == scope_revalidation_results_match(old(target).element, old(candidate).element),
        *final(target) == *old(target),
        *final(candidate) == *old(candidate),
{
    let t_results = target.scope_revalidation_results();
    let c_results = candidate.scope_revalidation_results();
    t_results == c_results
}

} // verus!
