//! The bounded candidate store, most-recently-used first, and the cache
//! operations built on it: the insertion eligibility rules with their
//! depth-based invalidation, the equivalence-test lookup, and the
//! rule-node-keyed shortcut lookup.

use vstd::prelude::*;
use crate::candidate::{StyleSharingCandidate, StyleSharingTarget};
use crate::checks;
use crate::checks::test_candidate_spec;
use crate::context::{SharedStyleContext, StyleBloom, StyleContext};
use crate::element::Element;
use crate::lists::u64_list_contains;
use crate::style::{ComputedStyle, PrimaryStyle, ResolvedElementStyles};
use crate::validation::{parent_style_identity_of, ValidationData};

verus! {

/// The number of entries the store holds at most. Larger stores stopped
/// paying for themselves in the measurements the surrounding engine was
/// tuned by.
pub const SHARING_CACHE_SIZE: usize = 32;

/// The fixed-capacity candidate store. Entries are kept most recently used
/// first; inserting into a full store evicts the least recently used entry,
/// the last one.
pub struct SharingCacheBase {
    /// The entries, most recently used at index 0.
    pub entries: Vec<StyleSharingCandidate>,
}

/// How many old entries an insertion keeps: all of them, except that a full
/// store gives up its least recently used entry.
pub open spec fn keep_on_insert(len: int) -> int {
    if len == SHARING_CACHE_SIZE {
        SHARING_CACHE_SIZE - 1
    } else {
        len
    }
}

impl SharingCacheBase {
    /// At most the fixed capacity, and every entry well formed.
    pub open spec fn wf(self) -> bool {
        &&& self.entries@.len() <= SHARING_CACHE_SIZE
        &&& forall|i: int|
            0 <= i < self.entries@.len() ==> (#[trigger] self.entries@[i]).wf()
    }

    /// An empty store.
    fn new() -> (r: Self)
        ensures
            r.wf(),
            r.entries@.len() == 0,
    {
        SharingCacheBase { entries: Vec::new() }
    }

    /// Drop every entry.
    fn clear(&mut self)
        ensures
            final(self).wf(),
            final(self).entries@.len() == 0,
    {
        self.entries.clear();
    }

    /// Whether the store holds no entry.
    fn is_empty(&self) -> (r: bool)
        ensures
            r == (self.entries@.len() == 0),
    {
        self.entries.len() == 0
    }

    /// Add an entry at the most-recently-used position, evicting the least
    /// recently used entry if the store is at capacity.
    fn insert(&mut self, candidate: StyleSharingCandidate)
        requires
            old(self).wf(),
            candidate.wf(),
        ensures
            final(self).wf(),
            final(self).entries@ == seq![candidate] + old(self).entries@.take(
                keep_on_insert(old(self).entries@.len() as int),
            ),
    {
        let ghost pre = self.entries@;
        if self.entries.len() == SHARING_CACHE_SIZE {
            let _evicted = self.entries.pop();
            proof {
                assert(self.entries@ =~= pre.take(keep_on_insert(pre.len() as int)));
            }
        }
        let ghost kept = self.entries@;
        self.entries.insert(0, candidate);
        proof {
            assert(self.entries@ =~= seq![candidate] + kept);
            assert(kept =~= pre.take(keep_on_insert(pre.len() as int)));
            assert forall|i: int| 0 <= i < self.entries@.len()
                implies (#[trigger] self.entries@[i]).wf() by {
                if i > 0 {
                    assert(self.entries@[i] == pre[i - 1]);
                }
            }
        }
    }
}

/// An LRU cache of the last few styled elements, so their styles can be
/// aggressively reused. Flushed whenever the styling pass moves to another
/// DOM depth or work is stolen between workers, so holding elements here
/// temporarily is safe.
pub struct StyleSharingCache {
    /// The candidate store.
    pub cache: SharingCacheBase,
    /// The DOM depth the store was last populated at. Nothing in the store
    /// can match an element at another depth, so moving depths clears it.
    pub dom_depth: usize,
}

/// Whether `c` is a hit for target `t`: the whole equivalence pipeline
/// passes.
pub open spec fn entry_matches(t: Element, c: StyleSharingCandidate, shared: SharedStyleContext) -> bool {
    test_candidate_spec(t, c.element, c.considered_nontrivial_scoped_style, shared)
}

/// Whether any entry is a hit for target `t`.
pub open spec fn any_entry_matches(
    entries: Seq<StyleSharingCandidate>,
    t: Element,
    shared: SharedStyleContext,
) -> bool {
    exists|i: int| 0 <= i < entries.len() && entry_matches(t, #[trigger] entries[i], shared)
}

/// The style bundle a hit on `c` shares: a cheap share of the candidate's
/// already-resolved styles, not a recomputation.
pub open spec fn candidate_styles(c: StyleSharingCandidate) -> ResolvedElementStyles {
    ResolvedElementStyles { primary: c.element.data.unwrap().primary }
}

/// A hit is decided by the entry's element and flag alone, however much of
/// its validation data has been memoized.
pub proof fn lemma_same_entry_same_match(
    t: Element,
    a: StyleSharingCandidate,
    b: StyleSharingCandidate,
    shared: SharedStyleContext,
)
    requires
        a.same_entry_as(b),
    ensures
        entry_matches(t, a, shared) == entry_matches(t, b, shared),
        candidate_styles(a) == candidate_styles(b),
{
}

/// What a lookup did to the store. A miss leaves every entry in place, in
/// order. A hit returns the first matching entry's styles and promotes that
/// entry to the most-recently-used position, shifting the entries before it
/// down one. Either way entries keep their element and flag; their memoized
/// fields may have filled in while they were tested.
pub open spec fn lookup_outcome(
    pre: Seq<StyleSharingCandidate>,
    post: Seq<StyleSharingCandidate>,
    t: Element,
    shared: SharedStyleContext,
    r: Option<ResolvedElementStyles>,
) -> bool {
    &&& (r is Some <==> any_entry_matches(pre, t, shared))
    &&& post.len() == pre.len()
    &&& (r is None ==> forall|k: int|
        0 <= k < pre.len() ==> (#[trigger] post[k]).same_entry_as(pre[k]))
    &&& (r is Some ==> exists|i: int|
        {
            &&& 0 <= i < pre.len()
            &&& entry_matches(t, #[trigger] pre[i], shared)
            &&& forall|j: int| 0 <= j < i ==> !entry_matches(t, #[trigger] pre[j], shared)
            &&& r == Some(candidate_styles(pre[i]))
            &&& post[0].same_entry_as(pre[i])
            &&& forall|k: int| 1 <= k <= i ==> (#[trigger] post[k]).same_entry_as(pre[k - 1])
            &&& forall|k: int| i < k < pre.len() ==> (#[trigger] post[k]).same_entry_as(pre[k])
        })
}

/// Whether a share attempt may consult the store at all: the cache is not
/// disabled, and the target has a parent and matches user and content
/// rules.
pub open spec fn share_attempt_allowed(t: Element, shared: SharedStyleContext) -> bool {
    &&& !shared.disable_style_sharing_cache
    &&& t.traversal_parent is Some
    &&& t.matches_user_and_content_rules
}

/// Whether a newly styled element may be inserted as a candidate. Elements
/// that fail any of these could never be shared from, or could be shared
/// from wrongly, so such elements are rejected silently: rejection is not an
/// error.
pub open spec fn insert_allowed(e: Element, shared: SharedStyleContext) -> bool {
    &&& e.traversal_parent is Some
    &&& e.matches_user_and_content_rules
    &&& !e.is_shadow_host
    &&& !crate::context::has_animations(shared, e)
    &&& !e.has_smil_override
}

/// Validation data with nothing computed yet.
pub open spec fn fresh_validation_data() -> ValidationData {
    ValidationData {
        class_list: None,
        part_list: None,
        pres_hints: None,
        parent_style_identity: None,
        revalidation_match_results: None,
    }
}

impl StyleSharingCache {
    /// The store is well formed.
    pub open spec fn wf(self) -> bool {
        &&& self.cache.wf()
        &&& forall|i: int|
            0 <= i < self.cache.entries@.len()
                ==> (#[trigger] self.cache.entries@[i]).depth@ == self.dom_depth
    }

    /// The entries, most recently used first.
    pub open spec fn entries(self) -> Seq<StyleSharingCandidate> {
        self.cache.entries@
    }

    /// Create a new, empty style sharing cache.
    pub fn new() -> (r: Self)
        ensures
            r.wf(),
            r.entries().len() == 0,
            r.dom_depth == 0,
    {
        StyleSharingCache { cache: SharingCacheBase::new(), dom_depth: 0 }
    }

    /// Clear the candidate store. The recorded depth is kept; the next
    /// insertion at another depth updates it.
    pub fn clear(&mut self)
        ensures
            final(self).wf(),
            final(self).entries().len() == 0,
            final(self).dom_depth == old(self).dom_depth,
    {
        self.cache.clear();
    }

    /// Whether the store holds no entry.
    pub fn is_empty(&self) -> (r: bool)
        ensures
            r == (self.entries().len() == 0),
    {
        self.cache.is_empty()
    }

    /// How many entries the store holds; never more than
    /// `SHARING_CACHE_SIZE`.
    pub fn len(&self) -> (r: usize)
        ensures
            r == self.entries().len(),
    {
        self.cache.entries.len()
    }

    /// Tries to insert an element in the style sharing cache.
    ///
    /// The eligibility rules reject, without error, elements that have no
    /// traversal parent, do not match user and content rules, host a shadow
    /// root, have running animations, or have a SMIL override. Otherwise,
    /// if the store's recorded depth differs from `dom_depth`, the store is
    /// cleared and retagged first; then the element is inserted at the
    /// most-recently-used position, carrying over the caller's
    /// already-computed validation data to avoid recomputation, and
    /// recording whether the resolved style was flagged as involving
    /// nontrivial scoped style.
    pub fn insert_if_possible(
        &mut self,
        element: Element,
        style: &PrimaryStyle,
        validation_data: Option<ValidationData>,
        dom_depth: usize,
        shared_context: &SharedStyleContext,
    )
        requires
            old(self).wf(),
            element.parent_resolved(),
            element.data is Some,
            validation_data matches Some(v) ==> v.valid_for(element),
        ensures
            final(self).wf(),
            !insert_allowed(element, *shared_context) ==> *final(self) == *old(self),
            insert_allowed(element, *shared_context) ==> ({
                let head = final(self).entries()[0];
                &&& final(self).dom_depth == dom_depth
                &&& final(self).entries().len() >= 1
                &&& head.element == element
                &&& head.validation_data == (match validation_data {
                    Some(v) => v,
                    None => fresh_validation_data(),
                })
                &&& head.considered_nontrivial_scoped_style
                    == style.style.considered_nontrivial_scoped_style
                &&& head.depth@ == dom_depth
                &&& (old(self).dom_depth == dom_depth ==> final(self).entries().skip(1)
                    == old(self).entries().take(keep_on_insert(old(self).entries().len() as int)))
                &&& (old(self).dom_depth != dom_depth ==> final(self).entries().len() == 1)
            }),
    {
        match &element.traversal_parent {
            Some(_) => {},
            None => {
                // No parent element: nothing could ever share with it.
                return;
            },
        }
        if !element.matches_user_and_content_rules {
            return;
        }
        // Styles cannot be shared across shadow hosts: they may match
        // different :host rules.
        if element.is_shadow_host {
            return;
        }
        // An element with running animations cannot share: its computed
        // style can be affected by the animation machinery outside any rule
        // it matches.
        if u64_list_contains(&shared_context.animated_elements, element.id) {
            return;
        }
        if element.has_smil_override {
            return;
        }
        let ghost pre = *self;
        if self.dom_depth != dom_depth {
            // Nothing at another depth can match: flush, then retag.
            self.clear();
            self.dom_depth = dom_depth;
        }
        let vd: ValidationData = match validation_data {
            Some(v) => v,
            None => ValidationData::new(),
        };
        let candidate = StyleSharingCandidate {
            element,
            validation_data: vd,
            considered_nontrivial_scoped_style: style.style.considered_nontrivial_scoped_style,
            depth: Ghost(dom_depth),
        };
        let ghost kept = self.cache.entries@;
        self.cache.insert(candidate);
        proof {
            assert(self.cache.entries@ == seq![candidate] + kept.take(
                keep_on_insert(kept.len() as int),
            ));
            if pre.dom_depth == dom_depth {
                assert(self.cache.entries@.skip(1) =~= kept.take(
                    keep_on_insert(kept.len() as int),
                ));
            }
        }
    }

    /// Run the whole equivalence test pipeline on one candidate, cheapest
    /// check first, stopping at the first failure. On a full pass, returns
    /// a cheap share of the candidate's resolved styles.
    fn test_candidate(
        target: &mut StyleSharingTarget,
        candidate: &mut StyleSharingCandidate,
        shared: &SharedStyleContext,
        bloom: &StyleBloom,
    ) -> (r: Option<ResolvedElementStyles>)
        requires
            old(target).valid(),
            old(target).element.parent_resolved(),
            old(target).element.matches_user_and_content_rules,
            old(candidate).wf(),
            bloom.current_parent == old(target).element.traversal_parent_id(),
        ensures
            final(target).valid(),
            final(target).element == old(target).element,
            final(candidate).wf(),
            final(candidate).same_entry_as(*old(candidate)),
            final(candidate).element == old(candidate).element,
            r is Some <==> entry_matches(old(target).element, *old(candidate), *shared),
            r is Some ==> r == Some(candidate_styles(*old(candidate))),
    {
        // Check that we have the same parent, or at least parents that
        // share style and permit sharing across their children; the latter
        // lets cousins share.
        if !checks::parents_allow_sharing(target, candidate) {
            return None;
        }
        if target.element.local_name != candidate.element.local_name {
            return None;
        }
        if target.element.namespace != candidate.element.namespace {
            return None;
        }
        // Visited state is not ignored: visited styles carry extra state
        // that cannot be shared.
        if target.element.state != candidate.element.state {
            return None;
        }
        if target.element.is_link != candidate.element.is_link {
            return None;
        }
        // Elements of different shadow trees can match different rules from
        // the respective trees.
        if target.element.containing_shadow != candidate.element.containing_shadow {
            return None;
        }
        // Elements assigned to different slots can match different
        // ::slotted() rules, even within one shadow root.
        if target.element.assigned_slot != candidate.element.assigned_slot {
            return None;
        }
        if target.element.implemented_pseudo != candidate.element.implemented_pseudo {
            return None;
        }
        if target.element.is_shadow_host {
            return None;
        }
        if u64_list_contains(&shared.animated_elements, target.element.id)
            || u64_list_contains(&shared.animated_elements, candidate.element.id) {
            return None;
        }
        if target.element.has_smil_override {
            return None;
        }
        if target.element.matches_user_and_content_rules
            != candidate.element.matches_user_and_content_rules {
            return None;
        }
        // It's possible that there are no styles for either id.
        if checks::may_match_different_id_rules(shared, &target.element, &candidate.element) {
            return None;
        }
        if !checks::have_same_style_attribute(&target.element, &candidate.element) {
            return None;
        }
        if !checks::have_same_class(target, candidate) {
            return None;
        }
        if !checks::have_same_presentational_hints(target, candidate) {
            return None;
        }
        if !checks::have_same_parts(target, candidate) {
            return None;
        }
        if !checks::revalidate(target, candidate, bloom) {
            return None;
        }
        // Differing scoped style rules are caught by revalidation, except
        // for candidates flagged as nontrivially scoped, which additionally
        // need equal scope-revalidation results.
        if candidate.considered_nontrivial_scoped_style
            && !checks::revalidate_scope(target, candidate) {
            return None;
        }
        let data = candidate.element.data.unwrap();
        Some(ResolvedElementStyles { primary: data.primary })
    }

    /// Attempts to share a style with some entry of the store: the eligibility
    /// tests, then the most-to-least-recently-used scan with promotion on
    /// the first hit.
    #[verifier::rlimit(60)]
    fn share_style_if_possible(
        &mut self,
        shared_context: &SharedStyleContext,
        bloom_filter: &StyleBloom,
        target: &mut StyleSharingTarget,
    ) -> (r: Option<ResolvedElementStyles>)
        requires
            old(self).wf(),
            old(target).valid(),
            old(target).element.parent_resolved(),
            bloom_filter.current_parent == old(target).element.traversal_parent_id(),
        ensures
            final(self).wf(),
            final(self).dom_depth == old(self).dom_depth,
            final(target).valid(),
            final(target).element == old(target).element,
            !share_attempt_allowed(old(target).element, *shared_context) ==> r is None
                && *final(self) == *old(self),
            share_attempt_allowed(old(target).element, *shared_context) ==> lookup_outcome(
                old(self).entries(),
                final(self).entries(),
                old(target).element,
                *shared_context,
                r,
            ),
    {
        if shared_context.disable_style_sharing_cache {
            return None;
        }
        match &target.element.traversal_parent {
            Some(_) => {},
            None => {
                return None;
            },
        }
        if !target.element.matches_user_and_content_rules {
            return None;
        }
        let ghost pre = self.cache.entries@;
        let ghost t0 = target.element;
        let mut i: usize = 0;
        while i < self.cache.entries.len()
            invariant
                pre == old(self).entries(),
                t0 == old(target).element,
                share_attempt_allowed(t0, *shared_context),
                self.wf(),
                self.dom_depth == old(self).dom_depth,
                self.cache.entries@.len() == pre.len(),
                i <= pre.len(),
                forall|k: int| 0 <= k < pre.len()
                    ==> (#[trigger] self.cache.entries@[k]).same_entry_as(pre[k]),
                forall|j: int| 0 <= j < i ==> !entry_matches(t0, #[trigger] pre[j], *shared_context),
                target.element == t0,
                target.valid(),
                t0.parent_resolved(),
                t0.matches_user_and_content_rules,
                bloom_filter.current_parent == t0.traversal_parent_id(),
            decreases pre.len() - i,
        {
            let ghost scanned = self.cache.entries@;
            let mut cand = self.cache.entries.remove(i);
            proof {
                assert(cand == scanned[i as int]);
                assert(cand.same_entry_as(pre[i as int]));
                scanned.remove_ensures(i as int);
            }
            let ghost cand0 = cand;
            let result = Self::test_candidate(target, &mut cand, shared_context, bloom_filter);
            proof {
                lemma_same_entry_same_match(t0, cand0, pre[i as int], *shared_context);
            }
            if result.is_some() {
                self.cache.entries.insert(0, cand);
                proof {
                    let post = self.cache.entries@;
                    let removed = scanned.remove(i as int);
                    removed.insert_ensures(0, cand);
                    assert(post == removed.insert(0, cand));
                    assert(entry_matches(t0, pre[i as int], *shared_context));
                    assert(any_entry_matches(pre, t0, *shared_context));
                    assert(result == Some(candidate_styles(pre[i as int])));
                    assert(post[0].same_entry_as(pre[i as int]));
                    assert forall|k: int| 1 <= k <= i
                        implies (#[trigger] post[k]).same_entry_as(pre[k - 1]) by {
                        assert(post[k] == removed[k - 1]);
                        assert(removed[k - 1] == scanned[k - 1]);
                    }
                    assert forall|k: int| i < k < pre.len()
                        implies (#[trigger] post[k]).same_entry_as(pre[k]) by {
                        assert(post[k] == removed[k - 1]);
                        assert(removed[k - 1] == scanned[k]);
                    }
                    assert(lookup_outcome(pre, post, t0, *shared_context, result));
                    assert forall|k: int| 0 <= k < post.len()
                        implies (#[trigger] post[k]).wf() by {
                        if k > 0 {
                            assert(post[k] == removed[k - 1]);
                        }
                    }
                }
                return result;
            }
            self.cache.entries.insert(i, cand);
            proof {
                let post = self.cache.entries@;
                let removed = scanned.remove(i as int);
                removed.insert_ensures(i as int, cand);
                assert(post == removed.insert(i as int, cand));
                assert forall|k: int| 0 <= k < pre.len()
                    implies (#[trigger] post[k]).same_entry_as(pre[k]) by {
                    if k < i {
                        assert(post[k] == removed[k]);
                        assert(removed[k] == scanned[k]);
                    } else if k == i {
                        assert(post[k] == cand);
                    } else {
                        assert(post[k] == removed[k - 1]);
                        assert(removed[k - 1] == scanned[k]);
                    }
                }
                assert forall|k: int| 0 <= k < post.len()
                    implies (#[trigger] post[k]).wf() by {
                    if k < i {
                        assert(post[k] == scanned[k]);
                    } else if k > i {
                        assert(post[k] == scanned[k]);
                    }
                }
                assert(!entry_matches(t0, pre[i as int], *shared_context));
            }
            i += 1;
        }
        proof {
            assert(!any_entry_matches(pre, t0, *shared_context));
        }
        None
    }
}

/// Whether `c` matches the rule-node-keyed shortcut lookup for `t`:
/// same parent style identity as `inherited`, same rule node and
/// visited-rule node, same tag and namespace, the same traversal parent
/// when the entry's style depends on container query units, and neither
/// side a link (visitedness bookkeeping makes rule-node equality
/// insufficient for links).
pub open spec fn rules_match_spec(
    t: Element,
    c: StyleSharingCandidate,
    inherited: ComputedStyle,
    rules: u64,
    visited_rules: Option<u64>,
) -> bool {
    let style = c.element.data.unwrap().primary;
    &&& parent_style_identity_of(c.element).0 == inherited.identity
    &&& style.rules == Some(rules)
    &&& style.visited_rules == visited_rules
    &&& t.namespace == c.element.namespace
    &&& t.local_name == c.element.local_name
    &&& (style.uses_container_units ==> c.element.traversal_parent_id() == t.traversal_parent_id())
    &&& !t.is_link
    &&& !c.element.is_link
}

/// Whether any entry matches the rule-node-keyed lookup.
pub open spec fn any_rules_match(
    entries: Seq<StyleSharingCandidate>,
    t: Element,
    inherited: ComputedStyle,
    rules: u64,
    visited_rules: Option<u64>,
) -> bool {
    exists|i: int|
        0 <= i < entries.len() && rules_match_spec(t, #[trigger] entries[i], inherited, rules, visited_rules)
}

/// The primary style a rule-node hit on `c` shares.
pub open spec fn candidate_primary_style(c: StyleSharingCandidate) -> PrimaryStyle {
    PrimaryStyle { style: c.element.data.unwrap().primary }
}

/// What a rule-node-keyed lookup did to the store; the same shape as
/// `lookup_outcome`, under the rule-node match instead of the pipeline.
pub open spec fn rules_lookup_outcome(
    pre: Seq<StyleSharingCandidate>,
    post: Seq<StyleSharingCandidate>,
    t: Element,
    inherited: ComputedStyle,
    rules: u64,
    visited_rules: Option<u64>,
    r: Option<PrimaryStyle>,
) -> bool {
    &&& (r is Some <==> any_rules_match(pre, t, inherited, rules, visited_rules))
    &&& post.len() == pre.len()
    &&& (r is None ==> forall|k: int|
        0 <= k < pre.len() ==> (#[trigger] post[k]).same_entry_as(pre[k]))
    &&& (r is Some ==> exists|i: int|
        {
            &&& 0 <= i < pre.len()
            &&& rules_match_spec(t, #[trigger] pre[i], inherited, rules, visited_rules)
            &&& forall|j: int|
                0 <= j < i ==> !rules_match_spec(t, #[trigger] pre[j], inherited, rules, visited_rules)
            &&& r == Some(candidate_primary_style(pre[i]))
            &&& post[0].same_entry_as(pre[i])
            &&& forall|k: int| 1 <= k <= i ==> (#[trigger] post[k]).same_entry_as(pre[k - 1])
            &&& forall|k: int| i < k < pre.len() ==> (#[trigger] post[k]).same_entry_as(pre[k])
        })
}

/// A rule-node match, too, is decided by the entry's element alone.
pub proof fn lemma_same_entry_same_rules_match(
    t: Element,
    a: StyleSharingCandidate,
    b: StyleSharingCandidate,
    inherited: ComputedStyle,
    rules: u64,
    visited_rules: Option<u64>,
)
    requires
        a.same_entry_as(b),
    ensures
        rules_match_spec(t, a, inherited, rules, visited_rules) == rules_match_spec(
            t,
            b,
            inherited,
            rules,
            visited_rules,
        ),
        candidate_primary_style(a) == candidate_primary_style(b),
{
}

impl StyleSharingCache {
    /// Test one candidate against the rule-node-keyed shortcut.
    fn test_candidate_by_rules(
        candidate: &mut StyleSharingCandidate,
        target: &Element,
        inherited: &ComputedStyle,
        rules: u64,
        visited_rules: Option<u64>,
    ) -> (r: Option<PrimaryStyle>)
        requires
            old(candidate).wf(),
        ensures
            final(candidate).wf(),
            final(candidate).same_entry_as(*old(candidate)),
            final(candidate).element == old(candidate).element,
            r is Some <==> rules_match_spec(*target, *old(candidate), *inherited, rules, visited_rules),
            r is Some ==> r == Some(candidate_primary_style(*old(candidate))),
    {
        let identity = candidate.parent_style_identity();
        if !identity.eq(inherited) {
            return None;
        }
        let data = candidate.element.data.unwrap();
        let style = data.primary;
        if style.rules != Some(rules) {
            return None;
        }
        if style.visited_rules != visited_rules {
            return None;
        }
        // Only name and namespace need checking on top of the rules: style
        // adjustments depend on them directly.
        if target.namespace != candidate.element.namespace
            || target.local_name != candidate.element.local_name {
            return None;
        }
        // With container units, inherited style plus matched rules are not
        // enough to determine the style; insist on the same traversal
        // parent.
        if style.uses_container_units {
            let c_parent: Option<u64> = match &candidate.element.traversal_parent {
                Some(p) => Some(p.id),
                None => None,
            };
            let t_parent: Option<u64> = match &target.traversal_parent {
                Some(p) => Some(p.id),
                None => None,
            };
            if c_parent != t_parent {
                return None;
            }
        }
        // Visitedness is stored into the style at the end of the cascade,
        // so links never share by rule node.
        if target.is_link || candidate.element.is_link {
            return None;
        }
        Some(PrimaryStyle { style })
    }

    /// Attempts to find an entry with the given primary rule nodes and
    /// parent style, sharing its primary style only — a cheaper lookup
    /// keyed by already-resolved rule identity rather than full
    /// revalidation.
    #[verifier::rlimit(60)]
    pub fn lookup_by_rules(
        &mut self,
        shared_context: &SharedStyleContext,
        inherited: &ComputedStyle,
        rules: u64,
        visited_rules: Option<u64>,
        target: &Element,
    ) -> (r: Option<PrimaryStyle>)
        requires
            old(self).wf(),
        ensures
            final(self).wf(),
            final(self).dom_depth == old(self).dom_depth,
            shared_context.disable_style_sharing_cache ==> r is None && *final(self) == *old(self),
            !shared_context.disable_style_sharing_cache ==> rules_lookup_outcome(
                old(self).entries(),
                final(self).entries(),
                *target,
                *inherited,
                rules,
                visited_rules,
                r,
            ),
            r is Some ==> !target.is_link,
    {
        if shared_context.disable_style_sharing_cache {
            return None;
        }
        let ghost pre = self.cache.entries@;
        let mut i: usize = 0;
        while i < self.cache.entries.len()
            invariant
                pre == old(self).entries(),
                !shared_context.disable_style_sharing_cache,
                self.wf(),
                self.dom_depth == old(self).dom_depth,
                self.cache.entries@.len() == pre.len(),
                i <= pre.len(),
                forall|k: int| 0 <= k < pre.len()
                    ==> (#[trigger] self.cache.entries@[k]).same_entry_as(pre[k]),
                forall|j: int| 0 <= j < i
                    ==> !rules_match_spec(*target, #[trigger] pre[j], *inherited, rules, visited_rules),
            decreases pre.len() - i,
        {
            let ghost scanned = self.cache.entries@;
            let mut cand = self.cache.entries.remove(i);
            proof {
                assert(cand == scanned[i as int]);
                assert(cand.same_entry_as(pre[i as int]));
                scanned.remove_ensures(i as int);
            }
            let ghost cand0 = cand;
            let result = Self::test_candidate_by_rules(&mut cand, target, inherited, rules, visited_rules);
            proof {
                lemma_same_entry_same_rules_match(*target, cand0, pre[i as int], *inherited, rules, visited_rules);
            }
            if result.is_some() {
                self.cache.entries.insert(0, cand);
                proof {
                    let post = self.cache.entries@;
                    let removed = scanned.remove(i as int);
                    removed.insert_ensures(0, cand);
                    assert(post == removed.insert(0, cand));
                    assert(rules_match_spec(*target, pre[i as int], *inherited, rules, visited_rules));
                    assert(any_rules_match(pre, *target, *inherited, rules, visited_rules));
                    assert(result == Some(candidate_primary_style(pre[i as int])));
                    assert(post[0].same_entry_as(pre[i as int]));
                    assert forall|k: int| 1 <= k <= i
                        implies (#[trigger] post[k]).same_entry_as(pre[k - 1]) by {
                        assert(post[k] == removed[k - 1]);
                        assert(removed[k - 1] == scanned[k - 1]);
                    }
                    assert forall|k: int| i < k < pre.len()
                        implies (#[trigger] post[k]).same_entry_as(pre[k]) by {
                        assert(post[k] == removed[k - 1]);
                        assert(removed[k - 1] == scanned[k]);
                    }
                    assert(rules_lookup_outcome(pre, post, *target, *inherited, rules, visited_rules, result));
                    assert forall|k: int| 0 <= k < post.len()
                        implies (#[trigger] post[k]).wf() by {
                        if k > 0 {
                            assert(post[k] == removed[k - 1]);
                        }
                    }
                }
                return result;
            }
            self.cache.entries.insert(i, cand);
            proof {
                let post = self.cache.entries@;
                let removed = scanned.remove(i as int);
                removed.insert_ensures(i as int, cand);
                assert(post == removed.insert(i as int, cand));
                assert forall|k: int| 0 <= k < pre.len()
                    implies (#[trigger] post[k]).same_entry_as(pre[k]) by {
                    if k < i {
                        assert(post[k] == removed[k]);
                        assert(removed[k] == scanned[k]);
                    } else if k == i {
                        assert(post[k] == cand);
                    } else {
                        assert(post[k] == removed[k - 1]);
                        assert(removed[k - 1] == scanned[k]);
                    }
                }
                assert forall|k: int| 0 <= k < post.len()
                    implies (#[trigger] post[k]).wf() by {
                    if k < i {
                        assert(post[k] == scanned[k]);
                    } else if k > i {
                        assert(post[k] == scanned[k]);
                    }
                }
                assert(!rules_match_spec(*target, pre[i as int], *inherited, rules, visited_rules));
            }
            i += 1;
        }
        proof {
            assert(!any_rules_match(pre, *target, *inherited, rules, visited_rules));
        }
        None
    }
}

impl StyleSharingTarget {
    /// Attempts to share a style with some cached candidate. Nothing is
    /// attempted while the store's recorded depth differs from the filter's
    /// matching depth: nothing cached could match, and the store will be
    /// flushed on the next insertion anyway.
    pub fn share_style_if_possible(&mut self, context: &mut StyleContext) -> (r: Option<
        ResolvedElementStyles,
    >)
        requires
            old(context).thread_local.sharing_cache.wf(),
            old(self).valid(),
            old(self).element.parent_resolved(),
            old(context).thread_local.sharing_cache.dom_depth
                == old(context).thread_local.bloom_filter.matching_depth
                ==> old(context).thread_local.bloom_filter.current_parent
                == old(self).element.traversal_parent_id(),
        ensures
            final(context).thread_local.sharing_cache.wf(),
            final(context).shared == old(context).shared,
            final(context).thread_local.bloom_filter == old(context).thread_local.bloom_filter,
            final(context).thread_local.sharing_cache.dom_depth
                == old(context).thread_local.sharing_cache.dom_depth,
            final(self).valid(),
            final(self).element == old(self).element,
            old(context).thread_local.sharing_cache.dom_depth
                != old(context).thread_local.bloom_filter.matching_depth ==> r is None
                && final(context).thread_local.sharing_cache
                == old(context).thread_local.sharing_cache,
            old(context).thread_local.sharing_cache.dom_depth
                == old(context).thread_local.bloom_filter.matching_depth ==> {
                &&& !share_attempt_allowed(old(self).element, old(context).shared) ==> r is None
                    && final(context).thread_local.sharing_cache
                    == old(context).thread_local.sharing_cache
                &&& share_attempt_allowed(old(self).element, old(context).shared)
                    ==> lookup_outcome(
                    old(context).thread_local.sharing_cache.entries(),
                    final(context).thread_local.sharing_cache.entries(),
                    old(self).element,
                    old(context).shared,
                    r,
                )
            },
    {
        let cache = &mut context.thread_local.sharing_cache;
        if cache.dom_depth != context.thread_local.bloom_filter.matching_depth {
            return None;
        }
        cache.share_style_if_possible(
            &context.shared,
            &context.thread_local.bloom_filter,
            self,
        )
    }
}

} // verus!
