//! The document-element abstraction the cache works on.
//!
//! The surrounding engine owns the DOM, the selector-matching engine and the
//! cascade; the cache consumes them through a fixed interface. An [`Element`]
//! here carries, as plain values, exactly what that interface exposes: the
//! element's identity, the cheap-to-read facts the equivalence pipeline
//! compares, and the answers of the external collaborators (the revalidation
//! engine's match results, the presence of animations is kept on the shared
//! context). Identity-compared engine objects (inline style blocks,
//! declaration blocks, shadow trees, slots, rule nodes) appear as opaque
//! `u64` identities.

use vstd::prelude::*;
use crate::style::ComputedStyle;

verus! {

/// An interned identifier (a tag name, namespace, class, part or attribute
/// name). Interning makes equality identity-equality, and gives every atom a
/// precomputed hash; the value here stands for both, so atoms with equal
/// sort keys are equal.
#[derive(Clone, Copy, Debug, PartialEq, Eq, Hash, Structural)]
pub struct AtomIdent(pub u64);

impl AtomIdent {
    /// The precomputed hash, the key class and part lists are sorted by.
    pub fn get_hash(&self) -> (r: u64)
        ensures
            r == self.0,
    {
        self.0
    }
}

/// The results from matching an element against the global set of
/// revalidation selectors: a bit per selector matched, plus the set of
/// attributes that were relevant for its style. Comparing the bits is sound
/// only between elements that passed the same up-front checks and consulted
/// the same attributes, which is why the attribute set is kept and compared
/// first.
#[derive(Debug, Default)]
pub struct RevalidationResult {
    /// A bit for each revalidation selector matched.
    pub selectors_matched: Vec<bool>,
    /// The attributes of this element that were relevant for its style.
    pub relevant_attributes: Vec<AtomIdent>,
}

impl RevalidationResult {
    /// Equality of two revalidation results: identical relevant-attribute
    /// sets and identical match bits.
    pub open spec fn eq_spec_fn(self, other: RevalidationResult) -> bool {
        self.relevant_attributes@ == other.relevant_attributes@
            && self.selectors_matched@ == other.selectors_matched@
    }
}

impl PartialEq for RevalidationResult {
    fn eq(&self, other: &Self) -> (r: bool) {
        // Equal relevant-attribute sets guarantee the two elements looked up
        // the same selector buckets, so the bits denote the same selectors
        // and may be compared directly.
        crate::lists::atom_lists_equal(&self.relevant_attributes, &other.relevant_attributes)
            && crate::lists::bool_lists_equal(&self.selectors_matched, &other.selectors_matched)
    }
}

impl vstd::std_specs::cmp::PartialEqSpecImpl for RevalidationResult {
    open spec fn obeys_eq_spec() -> bool {
        true
    }

    open spec fn eq_spec(&self, other: &Self) -> bool {
        self.eq_spec_fn(*other)
    }
}

/// The results from trying to revalidate the style scopes an element is in:
/// a bit per scope activated.
#[derive(Debug, Default)]
pub struct ScopeRevalidationResult {
    /// A bit for each scope activated.
    pub scopes_matched: Vec<bool>,
}

impl ScopeRevalidationResult {
    /// Equality of two scope revalidation results.
    pub open spec fn eq_spec_fn(self, other: ScopeRevalidationResult) -> bool {
        self.scopes_matched@ == other.scopes_matched@
    }
}

impl PartialEq for ScopeRevalidationResult {
    fn eq(&self, other: &Self) -> (r: bool) {
        crate::lists::bool_lists_equal(&self.scopes_matched, &other.scopes_matched)
    }
}

impl vstd::std_specs::cmp::PartialEqSpecImpl for ScopeRevalidationResult {
    open spec fn obeys_eq_spec() -> bool {
        true
    }

    open spec fn eq_spec(&self, other: &Self) -> bool {
        self.eq_spec_fn(*other)
    }
}

/// What the cache reads of an element's traversal parent: its identity, its
/// already-resolved primary style (if resolution has reached it), and whether
/// it permits style sharing across its children, which enables cousin
/// sharing.
#[derive(Clone, Copy, Debug, PartialEq, Eq, Structural)]
pub struct ParentInfo {
    /// Identity of the parent element.
    pub id: u64,
    /// Whether the parent is flagged as permitting its children to share
    /// style with children of another parent with the same computed style.
    pub permits_child_sharing: bool,
    /// The parent's resolved primary style. Traversal order guarantees the
    /// parent is resolved before its children are styled; a `None` here means
    /// an upstream traversal-ordering defect.
    pub primary_style: Option<ComputedStyle>,
}

/// An element handle together with everything the cache is allowed to ask of
/// it. Equality of elements is identity equality of `id`.
#[derive(Debug)]
pub struct Element {
    /// Identity of the element.
    pub id: u64,
    /// The local tag name.
    pub local_name: AtomIdent,
    /// The namespace.
    pub namespace: AtomIdent,
    /// The combined user/author interaction state flags.
    pub state: u64,
    /// Whether the element is a link.
    pub is_link: bool,
    /// The `id` attribute, if any.
    pub id_attr: Option<AtomIdent>,
    /// Identity of the inline style declaration block, if any.
    pub style_attr: Option<u64>,
    /// The class names, in attribute order.
    pub classes: Vec<AtomIdent>,
    /// Whether the element declares a `part` attribute at all.
    pub has_part_attr: bool,
    /// The part names, in attribute order.
    pub parts: Vec<AtomIdent>,
    /// Identities of the declaration blocks synthesized from legacy
    /// presentational attributes, treating all links as unvisited.
    pub pres_hints: Vec<u64>,
    /// Identity of the containing shadow tree, if any.
    pub containing_shadow: Option<u64>,
    /// Identity of the slot the element is assigned to, if any.
    pub assigned_slot: Option<u64>,
    /// The pseudo-element this element implements, if any.
    pub implemented_pseudo: Option<u64>,
    /// Whether the element hosts a shadow root.
    pub is_shadow_host: bool,
    /// Whether the element has a SMIL style override.
    pub has_smil_override: bool,
    /// Whether the element matches user and content rules.
    pub matches_user_and_content_rules: bool,
    /// The traversal parent, if any.
    pub traversal_parent: Option<ParentInfo>,
    /// The revalidation engine's answer for this element against the global
    /// revalidation-selector set. The answer depends on the element and the
    /// selector set alone; the ancestor filter only accelerates it.
    pub revalidation: RevalidationResult,
    /// The scope-revalidation engine's answer for this element.
    pub scope_revalidation: ScopeRevalidationResult,
    /// The element's resolved style bundle, once style resolution has
    /// produced one.
    pub data: Option<ElementStyles>,
}

/// The resolved style bundle stored on a styled element.
#[derive(Clone, Copy, Debug, PartialEq, Eq, Structural)]
pub struct ElementStyles {
    /// The primary style of the bundle.
    pub primary: ComputedStyle,
}

impl Element {
    /// The parent, when the element has one, already has a resolved style.
    /// Traversal order guarantees this for every element being styled; it is
    /// the one hard precondition of the cache.
    pub open spec fn parent_resolved(self) -> bool {
        self.traversal_parent matches Some(p) ==> p.primary_style is Some
    }

    /// Identity of the traversal parent, if any.
    pub open spec fn traversal_parent_id(self) -> Option<u64> {
        match self.traversal_parent {
            Some(p) => Some(p.id),
            None => None,
        }
    }
}

} // verus!
