//! A proof, its verifying key and its public inputs, encoded for one curve and
//! checked against each other: what both transports consume.
use crate::artifact::all_scalars_fit;
use crate::artifact::NativeProof;
use crate::artifact::NativeVerifyingKey;
use crate::artifact::ProofWithCurve;
use crate::artifact::Scalar;
use crate::artifact::VerificationKeyWithCurve;
use crate::artifact::into_subxt_scalars;
use crate::curve::Curve;
use crate::encode::EncodingError;
use ark_serialize::CanonicalSerialize;
use vstd::prelude::*;

verus! {

/// Why a proof, a key and public inputs do not form a bundle.
#[derive(Debug, Clone, Copy, PartialEq, Eq, Structural)]
pub enum BundleError {
    /// A point of the proof has another length than its group has on the proof's curve.
    MalformedProof,
    /// A point of the key has another length than its group has on the key's curve.
    MalformedKey,
    /// The proof and the key are tagged with different curves.
    CurveMismatch { proof: Curve, key: Curve },
    /// A public input has another length than the curve's scalars.
    MalformedInput,
    /// The key has `gamma_abc_len` points in `gamma_abc_g1`, which does not
    /// exceed the number of public inputs by one.
    InputCountMismatch { gamma_abc_len: usize, inputs: usize },
    /// A native value could not be encoded.
    Encoding(EncodingError),
}

/// Encoded proof, verifying key and public inputs of one curve.
#[derive(Debug, Clone, PartialEq, Eq)]
pub struct ArtifactBundle {
    pub proof: ProofWithCurve,
    pub vk: VerificationKeyWithCurve,
    pub inputs: Vec<Scalar>,
}

/// The first reason, if any, why these three do not form a bundle.
pub open spec fn bundle_error(
    proof: ProofWithCurve,
    vk: VerificationKeyWithCurve,
    inputs: Seq<Scalar>,
) -> Option<BundleError> {
    if !proof.wf() {
        Some(BundleError::MalformedProof)
    } else if !vk.wf() {
        Some(BundleError::MalformedKey)
    } else if proof.curve != vk.curve {
        Some(BundleError::CurveMismatch { proof: proof.curve, key: vk.curve })
    } else if !all_scalars_fit(inputs, proof.curve) {
        Some(BundleError::MalformedInput)
    } else if vk.gamma_abc_g1@.len() != inputs.len() + 1 {
        Some(
            BundleError::InputCountMismatch {
                gamma_abc_len: vk.gamma_abc_g1@.len() as usize,
                inputs: inputs.len() as usize,
            },
        )
    } else {
        None
    }
}

impl ArtifactBundle {
    /// One curve tags all parts, every encoding has its group's length on
    /// that curve, and the key has one `gamma_abc_g1` point per public input
    /// plus one.
    pub open spec fn wf(&self) -> bool {
        bundle_error(self.proof, self.vk, self.inputs@) is None
    }

    pub open spec fn spec_curve(&self) -> Curve {
        self.proof.curve
    }

    pub fn curve(&self) -> (r: Curve)
        ensures
            r == self.spec_curve(),
    {
        self.proof.curve
    }

    /// Bundles the three parts if they fit together; the inputs keep their order.
    pub fn new(proof: ProofWithCurve, vk: VerificationKeyWithCurve, inputs: Vec<Scalar>) -> (r: Result<
        ArtifactBundle,
        BundleError,
    >)
        ensures
            match r {
                Ok(b) => b.proof == proof && b.vk == vk && b.inputs == inputs && b.wf(),
                Err(e) => bundle_error(proof, vk, inputs@) == Some(e),
            },
    {
        if !proof.is_wf() {
            return Err(BundleError::MalformedProof);
        }
        if !vk.is_wf() {
            return Err(BundleError::MalformedKey);
        }
        if proof.curve != vk.curve {
            return Err(BundleError::CurveMismatch { proof: proof.curve, key: vk.curve });
        }
        let size = proof.curve.scalar_size();
        let mut i: usize = 0;
        while i < inputs.len()
            invariant
                i <= inputs@.len(),
                size == proof.curve.spec_scalar_size(),
                proof.wf(),
                vk.wf(),
                proof.curve == vk.curve,
                forall|j: int| 0 <= j < i ==> (#[trigger] inputs@[j]).fits(proof.curve),
            decreases inputs@.len() - i,
        {
            if inputs[i].0.len() != size {
                assert(!inputs@[i as int].fits(proof.curve));
                return Err(BundleError::MalformedInput);
            }
            i = i + 1;
        }
        if inputs.len() >= usize::MAX || vk.gamma_abc_g1.len() != inputs.len() + 1 {
            return Err(
                BundleError::InputCountMismatch {
                    gamma_abc_len: vk.gamma_abc_g1.len(),
                    inputs: inputs.len(),
                },
            );
        }
        Ok(ArtifactBundle { proof, vk, inputs })
    }

    /// Encodes a native proof, verifying key and public inputs as artifacts of
    /// `curve` and bundles them.
    pub fn from_native<G1A: CanonicalSerialize, G2A: CanonicalSerialize, F: CanonicalSerialize>(
        curve: Curve,
        proof: &NativeProof<G1A, G2A>,
        vk: &NativeVerifyingKey<G1A, G2A>,
        inputs: &Vec<F>,
    ) -> (r: Result<ArtifactBundle, BundleError>)
        ensures
            match r {
                Ok(b) => {
                    &&& b.wf()
                    &&& b.spec_curve() == curve
                    &&& b.vk.gamma_abc_g1@.len() == vk.gamma_abc_g1@.len()
                    &&& b.inputs@.len() == inputs@.len()
                },
                Err(e) => e is Encoding || e is InputCountMismatch,
            },
    {
        let p = match proof.into_subxt_proof(curve) {
            Ok(p) => p,
            Err(e) => return Err(BundleError::Encoding(e)),
        };
        let k = match vk.into_subxt_vk(curve) {
            Ok(k) => k,
            Err(e) => return Err(BundleError::Encoding(e)),
        };
        let s = match into_subxt_scalars(curve, inputs) {
            Ok(s) => s,
            Err(e) => return Err(BundleError::Encoding(e)),
        };
        ArtifactBundle::new(p, k, s)
    }
}

/// The curve tag of a well-formed bundle is the curve its points belong to:
/// if any G1 point of the proof or the key has the G1 length of `c`, every
/// part of the bundle is tagged `c`.
pub proof fn lemma_curve_tag_matches_points(b: ArtifactBundle, c: Curve)
    requires
        b.wf(),
        b.proof.proof.a.fits(c) || b.proof.proof.c.fits(c) || b.vk.alpha_g1.fits(c),
    ensures
        b.proof.curve == c,
        b.vk.curve == c,
{
}

/// A well-formed bundle's key has one `gamma_abc_g1` point more than there
/// are public inputs.
pub proof fn lemma_gamma_abc_matches_inputs(b: ArtifactBundle)
    requires
        b.wf(),
    ensures
        b.vk.gamma_abc_g1@.len() == b.inputs@.len() + 1,
        all_scalars_fit(b.inputs@, b.vk.curve),
{
}

} // verus!
