//! Tests of the equivalence test pipeline: equal inputs share, any flipped
//! input misses, and class comparison is order-independent.

use style_sharing::cache::StyleSharingCache;
use style_sharing::candidate::StyleSharingTarget;
use style_sharing::context::{SharedStyleContext, StyleBloom, StyleContext, ThreadLocalStyleContext};
use style_sharing::element::{
    AtomIdent, Element, ElementStyles, ParentInfo, RevalidationResult, ScopeRevalidationResult,
};
use style_sharing::style::{ComputedStyle, PrimaryStyle};

const PARENT_ID: u64 = 1;
const PARENT_STYLE: u64 = 7;

fn style(identity: u64) -> ComputedStyle {
    ComputedStyle {
        identity,
        rules: Some(identity),
        visited_rules: None,
        uses_container_units: false,
        considered_nontrivial_scoped_style: false,
    }
}

fn div_element(id: u64) -> Element {
    Element {
        id,
        local_name: AtomIdent(100),
        namespace: AtomIdent(1),
        state: 0,
        is_link: false,
        id_attr: None,
        style_attr: None,
        classes: vec![],
        has_part_attr: false,
        parts: vec![],
        pres_hints: vec![],
        containing_shadow: None,
        assigned_slot: None,
        implemented_pseudo: None,
        is_shadow_host: false,
        has_smil_override: false,
        matches_user_and_content_rules: true,
        traversal_parent: Some(ParentInfo {
            id: PARENT_ID,
            permits_child_sharing: false,
            primary_style: Some(style(PARENT_STYLE)),
        }),
        revalidation: RevalidationResult {
            selectors_matched: vec![true, false],
            relevant_attributes: vec![],
        },
        scope_revalidation: ScopeRevalidationResult { scopes_matched: vec![] },
        data: Some(ElementStyles { primary: style(42) }),
    }
}

fn shared() -> SharedStyleContext {
    SharedStyleContext {
        disable_style_sharing_cache: false,
        ids_with_rules: vec![],
        animated_elements: vec![],
    }
}

fn context() -> StyleContext {
    StyleContext {
        shared: shared(),
        thread_local: ThreadLocalStyleContext {
            sharing_cache: StyleSharingCache::new(),
            bloom_filter: StyleBloom { current_parent: Some(PARENT_ID), matching_depth: 0 },
        },
    }
}

/// Insert `candidate` and try to share onto `target`; both at depth 0.
fn try_share(ctx: &mut StyleContext, candidate: Element, target: Element) -> Option<u64> {
    let candidate_style = PrimaryStyle { style: style(42) };
    let shared_ctx = SharedStyleContext {
        disable_style_sharing_cache: ctx.shared.disable_style_sharing_cache,
        ids_with_rules: ctx.shared.ids_with_rules.clone(),
        animated_elements: ctx.shared.animated_elements.clone(),
    };
    ctx.thread_local
        .sharing_cache
        .insert_if_possible(candidate, &candidate_style, None, 0, &shared_ctx);
    let mut target = StyleSharingTarget::new(target);
    target
        .share_style_if_possible(ctx)
        .map(|styles| styles.primary.identity)
}

#[test]
fn equivalent_siblings_share() {
    let mut ctx = context();
    let hit = try_share(&mut ctx, div_element(10), div_element(11));
    assert_eq!(hit, Some(42));
}

#[test]
fn class_mismatch_misses() {
    let mut ctx = context();
    let mut target = div_element(11);
    target.classes = vec![AtomIdent(5)];
    assert_eq!(try_share(&mut ctx, div_element(10), target), None);
}

#[test]
fn tag_mismatch_misses() {
    let mut ctx = context();
    let mut target = div_element(11);
    target.local_name = AtomIdent(101);
    assert_eq!(try_share(&mut ctx, div_element(10), target), None);
}

#[test]
fn namespace_mismatch_misses() {
    let mut ctx = context();
    let mut target = div_element(11);
    target.namespace = AtomIdent(2);
    assert_eq!(try_share(&mut ctx, div_element(10), target), None);
}

#[test]
fn state_mismatch_misses() {
    let mut ctx = context();
    let mut target = div_element(11);
    target.state = 4;
    assert_eq!(try_share(&mut ctx, div_element(10), target), None);
}

#[test]
fn link_mismatch_misses() {
    let mut ctx = context();
    let mut target = div_element(11);
    target.is_link = true;
    assert_eq!(try_share(&mut ctx, div_element(10), target), None);
}

#[test]
fn containing_shadow_mismatch_misses() {
    let mut ctx = context();
    let mut target = div_element(11);
    target.containing_shadow = Some(9);
    assert_eq!(try_share(&mut ctx, div_element(10), target), None);
}

#[test]
fn assigned_slot_mismatch_misses() {
    let mut ctx = context();
    let mut target = div_element(11);
    target.assigned_slot = Some(3);
    assert_eq!(try_share(&mut ctx, div_element(10), target), None);
}

#[test]
fn pseudo_element_mismatch_misses() {
    let mut ctx = context();
    let mut target = div_element(11);
    target.implemented_pseudo = Some(1);
    assert_eq!(try_share(&mut ctx, div_element(10), target), None);
}

#[test]
fn shadow_host_target_misses() {
    let mut ctx = context();
    let mut target = div_element(11);
    target.is_shadow_host = true;
    assert_eq!(try_share(&mut ctx, div_element(10), target), None);
}

#[test]
fn animated_target_misses() {
    let mut ctx = context();
    ctx.shared.animated_elements = vec![11];
    assert_eq!(try_share(&mut ctx, div_element(10), div_element(11)), None);
}

#[test]
fn smil_override_target_misses() {
    let mut ctx = context();
    let mut target = div_element(11);
    target.has_smil_override = true;
    assert_eq!(try_share(&mut ctx, div_element(10), target), None);
}

#[test]
fn content_rules_mismatch_misses() {
    let mut ctx = context();
    let mut target = div_element(11);
    target.matches_user_and_content_rules = false;
    assert_eq!(try_share(&mut ctx, div_element(10), target), None);
}

#[test]
fn id_with_rules_mismatch_misses() {
    let mut ctx = context();
    ctx.shared.ids_with_rules = vec![AtomIdent(77)];
    let mut target = div_element(11);
    target.id_attr = Some(AtomIdent(77));
    assert_eq!(try_share(&mut ctx, div_element(10), target), None);
}

#[test]
fn differing_ids_without_rules_still_share() {
    let mut ctx = context();
    let mut target = div_element(11);
    target.id_attr = Some(AtomIdent(77));
    assert_eq!(try_share(&mut ctx, div_element(10), target), Some(42));
}

#[test]
fn inline_style_mismatch_misses() {
    let mut ctx = context();
    let mut target = div_element(11);
    target.style_attr = Some(5);
    assert_eq!(try_share(&mut ctx, div_element(10), target), None);
}

#[test]
fn pres_hints_mismatch_misses() {
    let mut ctx = context();
    let mut target = div_element(11);
    target.pres_hints = vec![8];
    assert_eq!(try_share(&mut ctx, div_element(10), target), None);
}

#[test]
fn part_mismatch_misses() {
    let mut ctx = context();
    let mut target = div_element(11);
    target.has_part_attr = true;
    target.parts = vec![AtomIdent(4)];
    assert_eq!(try_share(&mut ctx, div_element(10), target), None);
}

#[test]
fn revalidation_bits_mismatch_misses() {
    let mut ctx = context();
    let mut target = div_element(11);
    target.revalidation.selectors_matched = vec![false, false];
    assert_eq!(try_share(&mut ctx, div_element(10), target), None);
}

#[test]
fn relevant_attributes_mismatch_misses() {
    let mut ctx = context();
    let mut target = div_element(11);
    target.revalidation.relevant_attributes = vec![AtomIdent(12)];
    assert_eq!(try_share(&mut ctx, div_element(10), target), None);
}

#[test]
fn different_parents_without_permission_miss() {
    let mut ctx = context();
    let mut target = div_element(11);
    target.traversal_parent = Some(ParentInfo {
        id: 2,
        permits_child_sharing: false,
        primary_style: Some(style(PARENT_STYLE)),
    });
    assert_eq!(try_share(&mut ctx, div_element(10), target), None);
}

#[test]
fn cousins_share_when_parents_permit_and_styles_agree() {
    let mut ctx = context();
    let mut candidate = div_element(10);
    candidate.traversal_parent = Some(ParentInfo {
        id: 2,
        permits_child_sharing: true,
        primary_style: Some(style(PARENT_STYLE)),
    });
    let mut target = div_element(11);
    target.traversal_parent = Some(ParentInfo {
        id: PARENT_ID,
        permits_child_sharing: true,
        primary_style: Some(style(PARENT_STYLE)),
    });
    assert_eq!(try_share(&mut ctx, candidate, target), Some(42));
}

#[test]
fn cousins_miss_when_parent_styles_differ() {
    let mut ctx = context();
    let mut candidate = div_element(10);
    candidate.traversal_parent = Some(ParentInfo {
        id: 2,
        permits_child_sharing: true,
        primary_style: Some(style(8)),
    });
    let mut target = div_element(11);
    target.traversal_parent = Some(ParentInfo {
        id: PARENT_ID,
        permits_child_sharing: true,
        primary_style: Some(style(PARENT_STYLE)),
    });
    assert_eq!(try_share(&mut ctx, candidate, target), None);
}

#[test]
fn class_order_does_not_matter() {
    let mut ctx = context();
    let mut candidate = div_element(10);
    candidate.classes = vec![AtomIdent(2), AtomIdent(1)];
    let mut target = div_element(11);
    target.classes = vec![AtomIdent(1), AtomIdent(2)];
    assert_eq!(try_share(&mut ctx, candidate, target), Some(42));
}

#[test]
fn part_order_does_not_matter() {
    let mut ctx = context();
    let mut candidate = div_element(10);
    candidate.has_part_attr = true;
    candidate.parts = vec![AtomIdent(2), AtomIdent(1)];
    let mut target = div_element(11);
    target.has_part_attr = true;
    target.parts = vec![AtomIdent(1), AtomIdent(2)];
    assert_eq!(try_share(&mut ctx, candidate, target), Some(42));
}

#[test]
fn oversized_class_lists_compare_in_order_only() {
    // Beyond the inline capacity the lists stay unsorted: equal sets in a
    // different order are a deliberate missed opportunity, never a false
    // hit.
    let long: Vec<AtomIdent> = (1u64..=6u64).map(AtomIdent).collect();
    let mut reversed = long.clone();
    reversed.reverse();

    let mut ctx = context();
    let mut candidate = div_element(10);
    candidate.classes = reversed;
    let mut target = div_element(11);
    target.classes = long.clone();
    assert_eq!(try_share(&mut ctx, candidate, target), None);

    let mut ctx = context();
    let mut candidate = div_element(10);
    candidate.classes = long.clone();
    let mut target = div_element(11);
    target.classes = long;
    assert_eq!(try_share(&mut ctx, candidate, target), Some(42));
}

#[test]
fn scoped_candidate_requires_equal_scope_results() {
    let mut ctx = context();
    let mut candidate = div_element(10);
    candidate.scope_revalidation = ScopeRevalidationResult { scopes_matched: vec![true] };
    let candidate_style = PrimaryStyle {
        style: ComputedStyle {
            identity: 42,
            rules: Some(42),
            visited_rules: None,
            uses_container_units: false,
            considered_nontrivial_scoped_style: true,
        },
    };
    let shared_ctx = shared();
    ctx.thread_local
        .sharing_cache
        .insert_if_possible(candidate, &candidate_style, None, 0, &shared_ctx);

    let mut target = StyleSharingTarget::new(div_element(11));
    // Scope verdicts differ: the flagged candidate must not share.
    assert!(target.share_style_if_possible(&mut ctx).is_none());

    let mut target_el = div_element(12);
    target_el.scope_revalidation = ScopeRevalidationResult { scopes_matched: vec![true] };
    let mut target = StyleSharingTarget::new(target_el);
    assert!(target.share_style_if_possible(&mut ctx).is_some());
}

#[test]
fn disabled_cache_never_shares() {
    let mut ctx = context();
    ctx.shared.disable_style_sharing_cache = true;
    assert_eq!(try_share(&mut ctx, div_element(10), div_element(11)), None);
}

#[test]
fn parentless_target_never_shares() {
    let mut ctx = context();
    ctx.thread_local.bloom_filter.current_parent = None;
    let mut target = div_element(11);
    target.traversal_parent = None;
    assert_eq!(try_share(&mut ctx, div_element(10), target), None);
}
