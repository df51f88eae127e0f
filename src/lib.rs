//! Curve-tagged encoding of Groth16 proofs, verifying keys and public inputs
//! for submission to a chain node or to a relaying service.
use vstd::prelude::*;

pub mod artifact;
pub mod bundle;
pub mod curve;
pub mod encode;
pub mod relayer;
pub mod zkv;

pub use curve::Curve;

verus! {

} // verus!
