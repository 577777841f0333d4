//! A style sharing cache: lets one document element reuse another element's
//! already-computed style instead of re-running selector matching and cascade
//! resolution.
//!
//! The cache holds a bounded, most-recently-used-first store of candidate
//! entries. A target element is tested against each candidate by an ordered
//! pipeline of equivalence checks, cheapest first; on a full pass the
//! candidate's already-resolved style is shared. A false hit would render
//! wrongly, so every check is conservative: any doubt is a miss, and a miss
//! only costs a fall back to full resolution.

pub mod style;
pub mod element;
pub mod lists;
pub mod context;
pub mod validation;
pub mod candidate;
pub mod checks;
pub mod cache;
pub mod laws;
