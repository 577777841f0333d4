//! Tests of the bounded store: capacity and eviction, depth-based
//! invalidation, clearing, recency, the rule-node shortcut, and the
//! memoization of validation data.

use style_sharing::cache::{StyleSharingCache, SHARING_CACHE_SIZE};
use style_sharing::candidate::StyleSharingTarget;
use style_sharing::context::{SharedStyleContext, StyleBloom, StyleContext, ThreadLocalStyleContext};
use style_sharing::element::{
    AtomIdent, Element, ElementStyles, ParentInfo, RevalidationResult, ScopeRevalidationResult,
};
use style_sharing::style::{ComputedStyle, OpaqueComputedValues, PrimaryStyle};
use style_sharing::validation::{revalidation_filter_applies, ValidationData};

const PARENT_ID: u64 = 1;
const PARENT_STYLE: u64 = 7;

fn style(identity: u64) -> ComputedStyle {
    ComputedStyle {
        identity,
        rules: Some(identity),
        visited_rules: None,
        uses_container_units: false,
        considered_nontrivial_scoped_style: false,
    }
}

fn div_element(id: u64, own_style: u64) -> Element {
    Element {
        id,
        local_name: AtomIdent(100),
        namespace: AtomIdent(1),
        state: 0,
        is_link: false,
        id_attr: None,
        style_attr: None,
        classes: vec![],
        has_part_attr: false,
        parts: vec![],
        pres_hints: vec![],
        containing_shadow: None,
        assigned_slot: None,
        implemented_pseudo: None,
        is_shadow_host: false,
        has_smil_override: false,
        matches_user_and_content_rules: true,
        traversal_parent: Some(ParentInfo {
            id: PARENT_ID,
            permits_child_sharing: false,
            primary_style: Some(style(PARENT_STYLE)),
        }),
        revalidation: RevalidationResult {
            selectors_matched: vec![true, false],
            relevant_attributes: vec![],
        },
        scope_revalidation: ScopeRevalidationResult { scopes_matched: vec![] },
        data: Some(ElementStyles { primary: style(own_style) }),
    }
}

fn shared() -> SharedStyleContext {
    SharedStyleContext {
        disable_style_sharing_cache: false,
        ids_with_rules: vec![],
        animated_elements: vec![],
    }
}

fn insert(cache: &mut StyleSharingCache, element: Element, depth: usize) {
    let own = element.data.as_ref().unwrap().primary;
    let primary = PrimaryStyle { style: own };
    cache.insert_if_possible(element, &primary, None, depth, &shared());
}

fn lookup(cache: &mut StyleSharingCache, own_style: u64) -> Option<u64> {
    let target = div_element(999, 999);
    cache
        .lookup_by_rules(&shared(), &style(PARENT_STYLE), own_style, None, &target)
        .map(|primary| primary.style.identity)
}

#[test]
fn store_is_bounded_and_evicts_least_recently_used() {
    let mut cache = StyleSharingCache::new();
    for i in 1..=33u64 {
        insert(&mut cache, div_element(i, i), 0);
    }
    assert_eq!(cache.len(), SHARING_CACHE_SIZE);
    // The first inserted entry was the least recently used; it is gone.
    assert_eq!(lookup(&mut cache, 1), None);
    assert_eq!(lookup(&mut cache, 2), Some(2));
    assert_eq!(lookup(&mut cache, 33), Some(33));
}

#[test]
fn clear_empties_the_store_and_lookups_miss_until_insert() {
    let mut cache = StyleSharingCache::new();
    insert(&mut cache, div_element(1, 1), 0);
    assert!(!cache.is_empty());
    cache.clear();
    assert!(cache.is_empty());
    assert_eq!(cache.len(), 0);
    assert_eq!(lookup(&mut cache, 1), None);

    let mut ctx = StyleContext {
        shared: shared(),
        thread_local: ThreadLocalStyleContext {
            sharing_cache: cache,
            bloom_filter: StyleBloom { current_parent: Some(PARENT_ID), matching_depth: 0 },
        },
    };
    let mut target = StyleSharingTarget::new(div_element(50, 50));
    assert!(target.share_style_if_possible(&mut ctx).is_none());

    insert(&mut ctx.thread_local.sharing_cache, div_element(2, 2), 0);
    let mut target = StyleSharingTarget::new(div_element(51, 51));
    assert!(target.share_style_if_possible(&mut ctx).is_some());
}

#[test]
fn insert_at_new_depth_clears_then_inserts_one() {
    let mut cache = StyleSharingCache::new();
    insert(&mut cache, div_element(1, 1), 3);
    insert(&mut cache, div_element(2, 2), 3);
    assert_eq!(cache.len(), 2);
    assert_eq!(cache.dom_depth, 3);

    insert(&mut cache, div_element(3, 3), 4);
    assert_eq!(cache.len(), 1);
    assert_eq!(cache.dom_depth, 4);
    assert_eq!(lookup(&mut cache, 1), None);
    assert_eq!(lookup(&mut cache, 3), Some(3));
}

#[test]
fn depth_mismatch_blocks_share_attempts() {
    let mut cache = StyleSharingCache::new();
    insert(&mut cache, div_element(1, 1), 3);
    let mut ctx = StyleContext {
        shared: shared(),
        thread_local: ThreadLocalStyleContext {
            sharing_cache: cache,
            bloom_filter: StyleBloom { current_parent: Some(PARENT_ID), matching_depth: 4 },
        },
    };
    let mut target = StyleSharingTarget::new(div_element(2, 2));
    assert!(target.share_style_if_possible(&mut ctx).is_none());

    ctx.thread_local.bloom_filter.matching_depth = 3;
    let mut target = StyleSharingTarget::new(div_element(3, 3));
    assert!(target.share_style_if_possible(&mut ctx).is_some());
}

#[test]
fn most_recent_matching_entry_wins() {
    let mut cache = StyleSharingCache::new();
    insert(&mut cache, div_element(1, 11), 0);
    insert(&mut cache, div_element(2, 22), 0);
    let mut ctx = StyleContext {
        shared: shared(),
        thread_local: ThreadLocalStyleContext {
            sharing_cache: cache,
            bloom_filter: StyleBloom { current_parent: Some(PARENT_ID), matching_depth: 0 },
        },
    };
    // Both entries match; the more recently inserted one is found first.
    let mut target = StyleSharingTarget::new(div_element(3, 3));
    let hit = target.share_style_if_possible(&mut ctx).unwrap();
    assert_eq!(hit.primary.identity, 22);
}

#[test]
fn rejected_insertions_leave_the_store_unchanged() {
    let mut cache = StyleSharingCache::new();

    let mut parentless = div_element(1, 1);
    parentless.traversal_parent = None;
    insert(&mut cache, parentless, 0);
    assert!(cache.is_empty());

    let mut no_rules = div_element(2, 2);
    no_rules.matches_user_and_content_rules = false;
    insert(&mut cache, no_rules, 0);
    assert!(cache.is_empty());

    let mut host = div_element(3, 3);
    host.is_shadow_host = true;
    insert(&mut cache, host, 0);
    assert!(cache.is_empty());

    let mut smil = div_element(4, 4);
    smil.has_smil_override = true;
    insert(&mut cache, smil, 0);
    assert!(cache.is_empty());

    let animated = div_element(5, 5);
    let primary = PrimaryStyle { style: style(5) };
    let mut shared_ctx = shared();
    shared_ctx.animated_elements = vec![5];
    cache.insert_if_possible(animated, &primary, None, 0, &shared_ctx);
    assert!(cache.is_empty());
}

#[test]
fn lookup_by_rules_matches_rules_and_parent_style() {
    let mut cache = StyleSharingCache::new();
    insert(&mut cache, div_element(1, 5), 0);

    assert_eq!(lookup(&mut cache, 5), Some(5));
    // A different rule node misses.
    assert_eq!(lookup(&mut cache, 6), None);
    // A different inherited style misses.
    let target = div_element(999, 999);
    assert!(cache
        .lookup_by_rules(&shared(), &style(8), 5, None, &target)
        .is_none());
    // A different visited-rule node misses.
    assert!(cache
        .lookup_by_rules(&shared(), &style(PARENT_STYLE), 5, Some(4), &target)
        .is_none());
    // A different tag misses.
    let mut span = div_element(999, 999);
    span.local_name = AtomIdent(101);
    assert!(cache
        .lookup_by_rules(&shared(), &style(PARENT_STYLE), 5, None, &span)
        .is_none());
}

#[test]
fn lookup_by_rules_rejects_links() {
    let mut cache = StyleSharingCache::new();
    insert(&mut cache, div_element(1, 5), 0);

    let mut link_target = div_element(999, 999);
    link_target.is_link = true;
    assert!(cache
        .lookup_by_rules(&shared(), &style(PARENT_STYLE), 5, None, &link_target)
        .is_none());

    let mut cache = StyleSharingCache::new();
    let mut link_candidate = div_element(2, 5);
    link_candidate.is_link = true;
    insert(&mut cache, link_candidate, 0);
    assert_eq!(cache.len(), 1);
    assert_eq!(lookup(&mut cache, 5), None);
}

#[test]
fn lookup_by_rules_respects_container_units() {
    let mut cache = StyleSharingCache::new();
    let mut candidate = div_element(1, 5);
    candidate.data = Some(ElementStyles {
        primary: ComputedStyle {
            identity: 5,
            rules: Some(5),
            visited_rules: None,
            uses_container_units: true,
            considered_nontrivial_scoped_style: false,
        },
    });
    insert(&mut cache, candidate, 0);

    // Same traversal parent: acceptable.
    assert_eq!(lookup(&mut cache, 5), Some(5));

    // Different traversal parent: the container may differ, so no share.
    let mut other_parent = div_element(999, 999);
    other_parent.traversal_parent = Some(ParentInfo {
        id: 2,
        permits_child_sharing: false,
        primary_style: Some(style(PARENT_STYLE)),
    });
    assert!(cache
        .lookup_by_rules(&shared(), &style(PARENT_STYLE), 5, None, &other_parent)
        .is_none());
}

#[test]
fn disabled_cache_blocks_rule_lookup() {
    let mut cache = StyleSharingCache::new();
    insert(&mut cache, div_element(1, 5), 0);
    let target = div_element(999, 999);
    let mut shared_ctx = shared();
    shared_ctx.disable_style_sharing_cache = true;
    assert!(cache
        .lookup_by_rules(&shared_ctx, &style(PARENT_STYLE), 5, None, &target)
        .is_none());
}

#[test]
fn validation_data_is_computed_once_and_reused() {
    let mut element = div_element(1, 1);
    element.classes = vec![AtomIdent(3), AtomIdent(1), AtomIdent(2)];
    element.has_part_attr = true;
    element.parts = vec![AtomIdent(9), AtomIdent(8)];
    element.pres_hints = vec![4, 5];

    let mut data = ValidationData::new();
    let classes_first = data.class_list(&element);
    let classes_second = data.class_list(&element);
    assert_eq!(classes_first, classes_second);
    assert_eq!(classes_first, vec![AtomIdent(1), AtomIdent(2), AtomIdent(3)]);

    let parts_first = data.part_list(&element);
    let parts_second = data.part_list(&element);
    assert_eq!(parts_first, parts_second);
    assert_eq!(parts_first, vec![AtomIdent(8), AtomIdent(9)]);

    let hints_first = data.pres_hints(&element);
    let hints_second = data.pres_hints(&element);
    assert_eq!(hints_first, hints_second);
    assert_eq!(hints_first, vec![4, 5]);

    let parent_first = data.parent_style_identity(&element);
    let parent_second = data.parent_style_identity(&element);
    assert_eq!(parent_first, parent_second);
    assert!(parent_first.eq(&style(PARENT_STYLE)));
}

#[test]
fn oversized_lists_are_kept_in_attribute_order() {
    let mut element = div_element(1, 1);
    element.classes = (1u64..=6u64).rev().map(AtomIdent).collect();
    let mut data = ValidationData::new();
    let classes = data.class_list(&element);
    assert_eq!(classes, (1u64..=6u64).rev().map(AtomIdent).collect::<Vec<_>>());
}

#[test]
fn take_moves_the_cached_data_out() {
    let mut element = div_element(1, 1);
    element.classes = vec![AtomIdent(2), AtomIdent(1)];
    let mut target = StyleSharingTarget::new(element);
    let before = target.class_list();
    let mut taken = target.take_validation_data();
    // The taken data answers from its cache without recomputation, and the
    // target is left fresh.
    let element_again = {
        let mut e = div_element(1, 1);
        e.classes = vec![AtomIdent(2), AtomIdent(1)];
        e
    };
    assert_eq!(taken.class_list(&element_again), before);
    assert!(target.take_validation_data().class_list.is_none());
}

#[test]
fn salvaged_validation_data_is_carried_into_the_cache() {
    let mut element = div_element(1, 1);
    element.classes = vec![AtomIdent(2), AtomIdent(1)];
    let mut target = StyleSharingTarget::new(element);
    let _ = target.class_list();
    let taken = target.take_validation_data();
    assert!(taken.class_list.is_some());

    let mut cache = StyleSharingCache::new();
    let mut element = div_element(1, 1);
    element.classes = vec![AtomIdent(2), AtomIdent(1)];
    let primary = PrimaryStyle { style: style(1) };
    cache.insert_if_possible(element, &primary, Some(taken), 0, &shared());
    assert_eq!(cache.len(), 1);
}

#[test]
fn candidate_filter_policy_depends_on_tracked_parent() {
    let e = div_element(1, 1);
    let sibling = StyleBloom { current_parent: Some(PARENT_ID), matching_depth: 0 };
    let cousin = StyleBloom { current_parent: Some(99), matching_depth: 0 };
    // A candidate that is a sibling of the filter's position may use it; a
    // cousin may not; the target side always may.
    assert!(revalidation_filter_applies(&sibling, &e, false));
    assert!(!revalidation_filter_applies(&cousin, &e, false));
    assert!(revalidation_filter_applies(&cousin, &e, true));
}

#[test]
fn opaque_identity_compares_by_identity_only() {
    let a = style(1);
    let also_a = ComputedStyle {
        identity: 1,
        rules: Some(9),
        visited_rules: Some(2),
        uses_container_units: true,
        considered_nontrivial_scoped_style: true,
    };
    let b = style(2);
    let id = OpaqueComputedValues::from(&a);
    assert!(id.eq(&a));
    assert!(id.eq(&also_a));
    assert!(!id.eq(&b));
}

#[test]
fn revalidation_results_compare_attributes_and_bits() {
    let a = RevalidationResult {
        selectors_matched: vec![true, false],
        relevant_attributes: vec![AtomIdent(1)],
    };
    let same = RevalidationResult {
        selectors_matched: vec![true, false],
        relevant_attributes: vec![AtomIdent(1)],
    };
    let other_bits = RevalidationResult {
        selectors_matched: vec![true, true],
        relevant_attributes: vec![AtomIdent(1)],
    };
    let other_attrs = RevalidationResult {
        selectors_matched: vec![true, false],
        relevant_attributes: vec![AtomIdent(2)],
    };
    let other_len = RevalidationResult {
        selectors_matched: vec![true],
        relevant_attributes: vec![AtomIdent(1)],
    };
    assert!(a == same);
    assert!(a != other_bits);
    assert!(a != other_attrs);
    assert!(a != other_len);
}
