//! Computed-style values as the cache sees them: immutable, reference-shared
//! allocations known only by identity and a few flags.

use vstd::prelude::*;

verus! {

/// An already-resolved computed style. The real style object is an immutable,
/// reference-counted allocation produced by the cascade; the cache never reads
/// its contents, only its identity, the identity of the rule nodes it was
/// computed from, and two flags.
#[derive(Clone, Copy, Debug, PartialEq, Eq, Structural)]
pub struct ComputedStyle {
    /// Identity of the underlying style allocation. Two handles with the same
    /// identity denote the same shared object.
    pub identity: u64,
    /// Identity of the rule node this style was computed from, if any.
    pub rules: Option<u64>,
    /// Identity of the rule node for the visited presentation, if any.
    pub visited_rules: Option<u64>,
    /// The style depends on container query units, so it is not determined by
    /// inherited style and matched rules alone.
    pub uses_container_units: bool,
    /// The style was considered to involve nontrivial scoped style rules.
    pub considered_nontrivial_scoped_style: bool,
}

/// Opaque identity of a `ComputedStyle`, used solely to test "same parent
/// style". It is never dereferenced for content.
#[derive(Clone, Copy, Debug, PartialEq, Eq, Structural)]
pub struct OpaqueComputedValues(pub u64);

impl OpaqueComputedValues {
    /// Capture the identity of a computed style.
    pub fn from(cv: &ComputedStyle) -> (r: Self)
        ensures
            r.0 == cv.identity,
    {
        OpaqueComputedValues(cv.identity)
    }

    /// Whether this identity is the identity of `cv`.
    pub fn eq(&self, cv: &ComputedStyle) -> (r: bool)
        ensures
            r == (self.0 == cv.identity),
    {
        self.0 == cv.identity
    }

    /// The captured identity value.
    pub open spec fn id(self) -> u64 {
        self.0
    }
}

/// The primary style of an element, without the styles of its
/// pseudo-elements. What `lookup_by_rules` shares.
#[derive(Clone, Copy, Debug, PartialEq, Eq, Structural)]
pub struct PrimaryStyle {
    /// The shared style handle.
    pub style: ComputedStyle,
}

/// A cheap share of an element's full resolved style bundle: the primary
/// style and, transitively, its pseudo-element styles. What the equivalence
/// pipeline shares on a full pass.
#[derive(Clone, Copy, Debug, PartialEq, Eq, Structural)]
pub struct ResolvedElementStyles {
    /// The primary style of the bundle.
    pub primary: ComputedStyle,
}

} // verus!
