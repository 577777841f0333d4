//! The shared, read-only styling context and the ancestor summary filter, as
//! the cache sees them.

use vstd::prelude::*;
use crate::cache::StyleSharingCache;
use crate::element::{AtomIdent, Element};

verus! {

/// The shared read-only context of a styling pass: the kill switch for the
/// whole cache, the global rule index consulted for id-keyed rules, and the
/// per-element animation-state answers.
pub struct SharedStyleContext {
    /// When set, the entire cache is disabled: every lookup misses.
    pub disable_style_sharing_cache: bool,
    /// The ids for which the global rule index holds id-keyed rules.
    pub ids_with_rules: Vec<AtomIdent>,
    /// The elements that currently have running animations.
    pub animated_elements: Vec<u64>,
}

/// Whether `e` has running animations, as answered by the shared context.
pub open spec fn has_animations(shared: SharedStyleContext, e: Element) -> bool {
    shared.animated_elements@.contains(e.id)
}

/// Whether the global rule index holds id-keyed rules for `id`.
pub open spec fn id_has_rules(shared: SharedStyleContext, id: Option<AtomIdent>) -> bool {
    match id {
        Some(a) => shared.ids_with_rules@.contains(a),
        None => false,
    }
}

/// The ancestor summary filter, as far as the cache reads it: the parent it
/// is currently set up for, and the DOM depth it is matching at. Its
/// summarizing structure belongs to the selector-matching engine.
pub struct StyleBloom {
    /// Identity of the parent element the filter is currently set up for.
    pub current_parent: Option<u64>,
    /// The DOM depth the filter is currently matching at.
    pub matching_depth: usize,
}

/// Whether matching also marks selector-dependency bookkeeping on the
/// element for future incremental updates. The target side always requests
/// it, so a successful share leaves the same bookkeeping behind that direct
/// matching would have.
#[derive(Clone, Copy, Debug, PartialEq, Eq, Structural)]
pub enum NeedsSelectorFlags {
    /// The element's flags are already right; do not touch them.
    No,
    /// Mark the bookkeeping flags while matching.
    Yes,
}

/// The per-worker mutable state of a styling pass that the cache touches:
/// the worker's own sharing cache and its ancestor filter. Owned by exactly
/// one worker at a time, so no locking is needed.
pub struct ThreadLocalStyleContext {
    /// This worker's style sharing cache.
    pub sharing_cache: StyleSharingCache,
    /// This worker's ancestor summary filter.
    pub bloom_filter: StyleBloom,
}

/// The full styling context a share attempt runs under.
pub struct StyleContext {
    /// The shared read-only context.
    pub shared: SharedStyleContext,
    /// The per-worker mutable state.
    pub thread_local: ThreadLocalStyleContext,
}

} // verus!
