//! A verified core for a font-face query surface.
//!
//! A font face wraps a refcounted native handle owned by a text-rendering
//! engine and answers read-style queries: whole-font metrics, glyph indices
//! for code points, per-glyph metrics, raw table bytes, and a recommended
//! rendering mode.  The verified library models the native face capability
//! as plain data (`native::NativeFace`), drives every query protocol against
//! it, and proves the contracts the callers rely on: position-correlated
//! batch results, absence reported as a value rather than a fault, and a
//! balanced ledger for every auxiliary resource the protocols acquire.
//!
//! The raw engine bindings (COM pointers, floating-point sizes) cannot be
//! verified and live outside this crate; they feed native replies into the
//! decision functions of `policy` and mirror the protocols proved here.

pub mod face;
pub mod metrics;
pub mod native;
pub mod policy;
