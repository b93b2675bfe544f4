//! Verified core of a recursive Monte-Carlo ray tracer.
//!
//! The renderer itself works in floating point, which the verifier does not
//! reason about, so the sampling and shading pipeline lives in the
//! surrounding application. What can be verified is the range logic shared
//! by ray acceptance windows and color clamping: the [`interval`] module,
//! whose operations carry full contracts and whose algebraic laws are proved
//! for every ordered element type.

pub mod interval;
