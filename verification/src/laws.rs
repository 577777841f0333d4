//! The general guarantees of the cache, stated once over the same
//! specifications the public contracts use, and proved by Verus.

use vstd::prelude::*;
use crate::cache::{
    any_entry_matches, any_rules_match, keep_on_insert, rules_match_spec, StyleSharingCache,
    SHARING_CACHE_SIZE,
};
use crate::candidate::StyleSharingCandidate;
use crate::checks::{
    parents_allow_sharing_spec, revalidation_results_match, scope_revalidation_results_match,
    test_candidate_spec,
};
use crate::context::{has_animations, id_has_rules, SharedStyleContext};
use crate::element::Element;
use crate::style::ComputedStyle;
use crate::validation::{
    lemma_canonical_order_independent, lemma_canonical_same_multiset, part_list_of,
    pres_hints_of, INLINE_LIST_CAPACITY,
};

verus! {

/// Two elements whose compared inputs all agree pass the whole pipeline:
/// same tag, namespace, state flags, link status, shadow and slot context,
/// pseudo-element, id, inline style, class and part sets (as sets, within
/// the inline capacity), presentational hints, revalidation answer and
/// parent — under the pipeline's side conditions (neither animated, the
/// target no shadow host and without SMIL override, matching user and
/// content rules, and equal scope answers where the candidate's flag
/// demands them).
pub proof fn law_equal_inputs_hit(
    t: Element,
    c: Element,
    c_scoped: bool,
    shared: SharedStyleContext,
)
    requires
        t.traversal_parent == c.traversal_parent,
        t.traversal_parent is Some,
        t.local_name == c.local_name,
        t.namespace == c.namespace,
        t.state == c.state,
        t.is_link == c.is_link,
        t.containing_shadow == c.containing_shadow,
        t.assigned_slot == c.assigned_slot,
        t.implemented_pseudo == c.implemented_pseudo,
        t.id_attr == c.id_attr,
        t.style_attr == c.style_attr,
        t.classes@.to_multiset() == c.classes@.to_multiset(),
        t.classes@.len() <= INLINE_LIST_CAPACITY,
        c.classes@.len() <= INLINE_LIST_CAPACITY,
        t.has_part_attr == c.has_part_attr,
        t.parts@.to_multiset() == c.parts@.to_multiset(),
        t.parts@.len() <= INLINE_LIST_CAPACITY,
        c.parts@.len() <= INLINE_LIST_CAPACITY,
        t.pres_hints@ == c.pres_hints@,
        revalidation_results_match(t, c),
        c_scoped ==> scope_revalidation_results_match(t, c),
        !t.is_shadow_host,
        !has_animations(shared, t),
        !has_animations(shared, c),
        !t.has_smil_override,
        t.matches_user_and_content_rules == c.matches_user_and_content_rules,
    ensures
        test_candidate_spec(t, c, c_scoped, shared),
{
    lemma_canonical_order_independent(t.classes@, c.classes@);
    lemma_canonical_order_independent(t.parts@, c.parts@);
}

/// A hit certifies equality of every compared input: flipping any single
/// one of them while holding the rest fixed yields a miss, because the hit
/// would certify the flipped input equal after all.
pub proof fn law_hit_implies_equal_inputs(
    t: Element,
    c: Element,
    c_scoped: bool,
    shared: SharedStyleContext,
)
    requires
        test_candidate_spec(t, c, c_scoped, shared),
    ensures
        parents_allow_sharing_spec(t, c),
        t.local_name == c.local_name,
        t.namespace == c.namespace,
        t.state == c.state,
        t.is_link == c.is_link,
        t.containing_shadow == c.containing_shadow,
        t.assigned_slot == c.assigned_slot,
        t.implemented_pseudo == c.implemented_pseudo,
        t.style_attr == c.style_attr,
        t.classes@.to_multiset() == c.classes@.to_multiset(),
        part_list_of(t) == part_list_of(c),
        pres_hints_of(t) == pres_hints_of(c),
        revalidation_results_match(t, c),
        c_scoped ==> scope_revalidation_results_match(t, c),
        !t.is_shadow_host,
        !has_animations(shared, t),
        !has_animations(shared, c),
        !t.has_smil_override,
        t.matches_user_and_content_rules == c.matches_user_and_content_rules,
{
    lemma_canonical_same_multiset(t.classes@);
    lemma_canonical_same_multiset(c.classes@);
}

/// A well-formed store never holds more entries than its fixed capacity.
pub proof fn law_bounded_store(cache: StyleSharingCache)
    requires
        cache.wf(),
    ensures
        cache.entries().len() <= SHARING_CACHE_SIZE,
{
}

/// Inserting into a full store evicts exactly the least-recently-used
/// entry: the new entry enters at the most-recently-used position, every
/// other entry shifts down one, and the old last entry is gone.
pub proof fn law_full_insert_evicts_lru(
    pre: Seq<StyleSharingCandidate>,
    post: Seq<StyleSharingCandidate>,
    cand: StyleSharingCandidate,
)
    requires
        pre.len() == SHARING_CACHE_SIZE,
        post == seq![cand] + pre.take(keep_on_insert(pre.len() as int)),
    ensures
        post.len() == SHARING_CACHE_SIZE,
        post[0] == cand,
        forall|k: int| 1 <= k < post.len() ==> post[k] == pre[k - 1],
{
}

/// All entries of a well-formed store were inserted at its recorded DOM
/// depth: a non-empty store is homogeneous in depth, because moving depths
/// flushes it before the next insertion.
pub proof fn law_entries_share_depth(cache: StyleSharingCache, i: int)
    requires
        cache.wf(),
        0 <= i < cache.entries().len(),
    ensures
        cache.entries()[i].depth@ == cache.dom_depth,
{
}

/// An empty store hits nothing: after a clear, every lookup misses until a
/// subsequent insert.
pub proof fn law_empty_store_never_hits(
    entries: Seq<StyleSharingCandidate>,
    t: Element,
    shared: SharedStyleContext,
)
    requires
        entries.len() == 0,
    ensures
        !any_entry_matches(entries, t, shared),
{
}

/// An empty store hits nothing through the rule-node shortcut either.
pub proof fn law_empty_store_never_hits_by_rules(
    entries: Seq<StyleSharingCandidate>,
    t: Element,
    inherited: ComputedStyle,
    rules: u64,
    visited_rules: Option<u64>,
)
    requires
        entries.len() == 0,
    ensures
        !any_rules_match(entries, t, inherited, rules, visited_rules),
{
}

/// The rule-node shortcut matches no entry when either side is a link:
/// visitedness bookkeeping makes rule-node equality insufficient there.
pub proof fn law_rules_lookup_rejects_links(
    t: Element,
    c: StyleSharingCandidate,
    inherited: ComputedStyle,
    rules: u64,
    visited_rules: Option<u64>,
)
    requires
        t.is_link || c.element.is_link,
    ensures
        !rules_match_spec(t, c, inherited, rules, visited_rules),
{
}

/// A hit between elements with different id attributes certifies that the
/// global rule index keys no rules by either id: with id-keyed rules in
/// play, differing ids always miss.
pub proof fn law_hit_implies_same_id_rules(
    t: Element,
    c: Element,
    c_scoped: bool,
    shared: SharedStyleContext,
)
    requires
        test_candidate_spec(t, c, c_scoped, shared),
        t.id_attr != c.id_attr,
    ensures
        !id_has_rules(shared, t.id_attr),
        !id_has_rules(shared, c.id_attr),
{
}

} // verus!
