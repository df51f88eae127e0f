//! Curve-tagged binary form of Groth16 artifacts, and its conversion from the
//! proof library's native points and field elements.
use crate::curve::Curve;
use crate::encode::encode_uncompressed;
use crate::encode::EncodingError;
use ark_serialize::CanonicalSerialize;
use vstd::prelude::*;

verus! {

/// Uncompressed encoding of a G1 point.
#[derive(Debug, Clone, PartialEq, Eq)]
pub struct G1(pub Vec<u8>);

/// Uncompressed encoding of a G2 point.
#[derive(Debug, Clone, PartialEq, Eq)]
pub struct G2(pub Vec<u8>);

/// Uncompressed encoding of a scalar-field element.
#[derive(Debug, Clone, PartialEq, Eq)]
pub struct Scalar(pub Vec<u8>);

/// The three points of a Groth16 proof, encoded.
#[derive(Debug, Clone, PartialEq, Eq)]
pub struct Proof {
    pub a: G1,
    pub b: G2,
    pub c: G1,
}

/// An encoded proof with the curve its points belong to.
#[derive(Debug, Clone, PartialEq, Eq)]
pub struct ProofWithCurve {
    pub curve: Curve,
    pub proof: Proof,
}

/// An encoded verifying key with the curve its points belong to.
#[derive(Debug, Clone, PartialEq, Eq)]
pub struct VerificationKeyWithCurve {
    pub curve: Curve,
    pub alpha_g1: G1,
    pub beta_g2: G2,
    pub gamma_g2: G2,
    pub delta_g2: G2,
    pub gamma_abc_g1: Vec<G1>,
}

/// The error, if any, of an encoding that should be `expected` bytes long.
pub open spec fn size_error(expected: nat, b: Seq<u8>) -> Option<EncodingError> {
    if b.len() == expected {
        None
    } else {
        Some(EncodingError::SizeMismatch { expected: expected as usize, found: b.len() as usize })
    }
}

impl G1 {
    pub open spec fn fits(&self, c: Curve) -> bool {
        self.0@.len() == c.spec_g1_size()
    }
}

impl G2 {
    pub open spec fn fits(&self, c: Curve) -> bool {
        self.0@.len() == c.spec_g2_size()
    }
}

impl Scalar {
    pub open spec fn fits(&self, c: Curve) -> bool {
        self.0@.len() == c.spec_scalar_size()
    }
}

/// Every point of `s` is a G1 encoding of curve `c`.
pub open spec fn all_g1_fit(s: Seq<G1>, c: Curve) -> bool {
    forall|i: int| 0 <= i < s.len() ==> (#[trigger] s[i]).fits(c)
}

/// Every element of `s` is a scalar encoding of curve `c`.
pub open spec fn all_scalars_fit(s: Seq<Scalar>, c: Curve) -> bool {
    forall|i: int| 0 <= i < s.len() ==> (#[trigger] s[i]).fits(c)
}

impl ProofWithCurve {
    /// Every point has the length its group has on the tagged curve.
    pub open spec fn wf(&self) -> bool {
        &&& self.proof.a.fits(self.curve)
        &&& self.proof.b.fits(self.curve)
        &&& self.proof.c.fits(self.curve)
    }

    /// The error, if any, of assembling a proof of `curve` from these encodings.
    pub open spec fn assembly_error(curve: Curve, a: Seq<u8>, b: Seq<u8>, c: Seq<u8>) -> Option<
        EncodingError,
    > {
        if size_error(curve.spec_g1_size(), a) is Some {
            size_error(curve.spec_g1_size(), a)
        } else if size_error(curve.spec_g2_size(), b) is Some {
            size_error(curve.spec_g2_size(), b)
        } else {
            size_error(curve.spec_g1_size(), c)
        }
    }

    /// Tags three encoded points with `curve`, after checking that each has
    /// the length its group has on that curve.
    pub fn from_encoded(curve: Curve, a: Vec<u8>, b: Vec<u8>, c: Vec<u8>) -> (r: Result<
        ProofWithCurve,
        EncodingError,
    >)
        ensures
            match r {
                Ok(p) => {
                    &&& ProofWithCurve::assembly_error(curve, a@, b@, c@) is None
                    &&& p.curve == curve
                    &&& p.proof.a.0@ == a@
                    &&& p.proof.b.0@ == b@
                    &&& p.proof.c.0@ == c@
                    &&& p.wf()
                },
                Err(e) => ProofWithCurve::assembly_error(curve, a@, b@, c@) == Some(e),
            },
    {
        let a = g1_from_bytes(curve, a)?;
        let b = g2_from_bytes(curve, b)?;
        let c = g1_from_bytes(curve, c)?;
        Ok(ProofWithCurve { curve, proof: Proof { a, b, c } })
    }

    pub fn is_wf(&self) -> (r: bool)
        ensures
            r == self.wf(),
    {
        self.proof.a.0.len() == self.curve.g1_size() && self.proof.b.0.len()
            == self.curve.g2_size() && self.proof.c.0.len() == self.curve.g1_size()
    }
}

impl VerificationKeyWithCurve {
    /// Every point has the length its group has on the tagged curve.
    pub open spec fn wf(&self) -> bool {
        &&& self.alpha_g1.fits(self.curve)
        &&& self.beta_g2.fits(self.curve)
        &&& self.gamma_g2.fits(self.curve)
        &&& self.delta_g2.fits(self.curve)
        &&& all_g1_fit(self.gamma_abc_g1@, self.curve)
    }

    /// Whether these encodings are the points of a verifying key of `curve`.
    pub open spec fn encodings_fit(
        curve: Curve,
        alpha: Seq<u8>,
        beta: Seq<u8>,
        gamma: Seq<u8>,
        delta: Seq<u8>,
        gamma_abc: Seq<Vec<u8>>,
    ) -> bool {
        &&& alpha.len() == curve.spec_g1_size()
        &&& beta.len() == curve.spec_g2_size()
        &&& gamma.len() == curve.spec_g2_size()
        &&& delta.len() == curve.spec_g2_size()
        &&& forall|i: int| 0 <= i < gamma_abc.len() ==> (#[trigger] gamma_abc[i])@.len() == curve.spec_g1_size()
    }

    /// Tags the encoded points of a verifying key with `curve`, after checking
    /// that each has the length its group has on that curve. The points of
    /// `gamma_abc` keep their order.
    pub fn from_encoded(
        curve: Curve,
        alpha: Vec<u8>,
        beta: Vec<u8>,
        gamma: Vec<u8>,
        delta: Vec<u8>,
        gamma_abc: Vec<Vec<u8>>,
    ) -> (r: Result<VerificationKeyWithCurve, EncodingError>)
        ensures
            match r {
                Ok(vk) => {
                    &&& VerificationKeyWithCurve::encodings_fit(curve, alpha@, beta@, gamma@, delta@, gamma_abc@)
                    &&& vk.curve == curve
                    &&& vk.alpha_g1.0@ == alpha@
                    &&& vk.beta_g2.0@ == beta@
                    &&& vk.gamma_g2.0@ == gamma@
                    &&& vk.delta_g2.0@ == delta@
                    &&& vk.gamma_abc_g1@.len() == gamma_abc@.len()
                    &&& forall|i: int| 0 <= i < gamma_abc@.len() ==> (#[trigger] vk.gamma_abc_g1@[i]).0@ == gamma_abc@[i]@
                    &&& vk.wf()
                },
                Err(e) => {
                    &&& !VerificationKeyWithCurve::encodings_fit(curve, alpha@, beta@, gamma@, delta@, gamma_abc@)
                    &&& e is SizeMismatch
                },
            },
    {
        let alpha_g1 = g1_from_bytes(curve, alpha)?;
        let beta_g2 = g2_from_bytes(curve, beta)?;
        let gamma_g2 = g2_from_bytes(curve, gamma)?;
        let delta_g2 = g2_from_bytes(curve, delta)?;
        let mut points: Vec<G1> = Vec::new();
        let mut i: usize = 0;
        while i < gamma_abc.len()
            invariant
                i <= gamma_abc@.len(),
                points@.len() == i,
                forall|j: int| 0 <= j < i ==> (#[trigger] points@[j]).0@ == gamma_abc@[j]@,
                forall|j: int| 0 <= j < i ==> (#[trigger] gamma_abc@[j])@.len() == curve.spec_g1_size(),
            decreases gamma_abc@.len() - i,
        {
            let p = g1_from_bytes(curve, gamma_abc[i].clone())?;
            points.push(p);
            i = i + 1;
        }
        let vk = VerificationKeyWithCurve { curve, alpha_g1, beta_g2, gamma_g2, delta_g2, gamma_abc_g1: points };
        assert(all_g1_fit(vk.gamma_abc_g1@, curve));
        Ok(vk)
    }

    pub fn is_wf(&self) -> (r: bool)
        ensures
            r == self.wf(),
    {
        if self.alpha_g1.0.len() != self.curve.g1_size() || self.beta_g2.0.len() != self.curve.g2_size()
            || self.gamma_g2.0.len() != self.curve.g2_size() || self.delta_g2.0.len() != self.curve.g2_size() {
            return false;
        }
        let mut i: usize = 0;
        while i < self.gamma_abc_g1.len()
            invariant
                i <= self.gamma_abc_g1@.len(),
                forall|j: int| 0 <= j < i ==> (#[trigger] self.gamma_abc_g1@[j]).fits(self.curve),
            decreases self.gamma_abc_g1@.len() - i,
        {
            if self.gamma_abc_g1[i].0.len() != self.curve.g1_size() {
                return false;
            }
            i = i + 1;
        }
        true
    }
}

fn check_size(expected: usize, b: &Vec<u8>) -> (r: Result<(), EncodingError>)
    ensures
        match r {
            Ok(_) => size_error(expected as nat, b@) is None,
            Err(e) => size_error(expected as nat, b@) == Some(e),
        },
{
    if b.len() == expected {
        Ok(())
    } else {
        Err(EncodingError::SizeMismatch { expected, found: b.len() })
    }
}

/// Takes `bytes` as a G1 point of `curve` if it has that group's length.
pub fn g1_from_bytes(curve: Curve, bytes: Vec<u8>) -> (r: Result<G1, EncodingError>)
    ensures
        match r {
            Ok(p) => size_error(curve.spec_g1_size(), bytes@) is None && p.0@ == bytes@,
            Err(e) => size_error(curve.spec_g1_size(), bytes@) == Some(e),
        },
{
    check_size(curve.g1_size(), &bytes)?;
    Ok(G1(bytes))
}

/// Takes `bytes` as a G2 point of `curve` if it has that group's length.
pub fn g2_from_bytes(curve: Curve, bytes: Vec<u8>) -> (r: Result<G2, EncodingError>)
    ensures
        match r {
            Ok(p) => size_error(curve.spec_g2_size(), bytes@) is None && p.0@ == bytes@,
            Err(e) => size_error(curve.spec_g2_size(), bytes@) == Some(e),
        },
{
    check_size(curve.g2_size(), &bytes)?;
    Ok(G2(bytes))
}

/// Takes `bytes` as a scalar of `curve` if it has the scalar field's length.
pub fn scalar_from_bytes(curve: Curve, bytes: Vec<u8>) -> (r: Result<Scalar, EncodingError>)
    ensures
        match r {
            Ok(s) => size_error(curve.spec_scalar_size(), bytes@) is None && s.0@ == bytes@,
            Err(e) => size_error(curve.spec_scalar_size(), bytes@) == Some(e),
        },
{
    check_size(curve.scalar_size(), &bytes)?;
    Ok(Scalar(bytes))
}

/// Encodes a native G1 point (any canonically serializable point) for `curve`;
/// an encoding of another length than `curve`'s G1 points is refused.
pub fn into_g1<P: CanonicalSerialize>(curve: Curve, point: &P) -> (r: Result<G1, EncodingError>)
    ensures
        r is Ok ==> r->Ok_0.fits(curve),
        r is Err ==> r->Err_0 is Serialization || r->Err_0 is SizeMismatch,
{
    let bytes = encode_uncompressed(point)?;
    g1_from_bytes(curve, bytes)
}

/// Encodes a native G2 point for `curve`; an encoding of another length than
/// `curve`'s G2 points is refused.
pub fn into_g2<P: CanonicalSerialize>(curve: Curve, point: &P) -> (r: Result<G2, EncodingError>)
    ensures
        r is Ok ==> r->Ok_0.fits(curve),
        r is Err ==> r->Err_0 is Serialization || r->Err_0 is SizeMismatch,
{
    let bytes = encode_uncompressed(point)?;
    g2_from_bytes(curve, bytes)
}

/// Encodes a native scalar-field element for `curve`; an encoding of another
/// length than `curve`'s scalars is refused.
pub fn into_subxt_scalar<F: CanonicalSerialize>(curve: Curve, value: &F) -> (r: Result<Scalar, EncodingError>)
    ensures
        r is Ok ==> r->Ok_0.fits(curve),
        r is Err ==> r->Err_0 is Serialization || r->Err_0 is SizeMismatch,
{
    let bytes = encode_uncompressed(value)?;
    scalar_from_bytes(curve, bytes)
}

/// Encodes native scalars for `curve`, keeping their order.
pub fn into_subxt_scalars<F: CanonicalSerialize>(curve: Curve, inputs: &Vec<F>) -> (r: Result<
    Vec<Scalar>,
    EncodingError,
>)
    ensures
        r is Ok ==> r->Ok_0@.len() == inputs@.len() && all_scalars_fit(r->Ok_0@, curve),
{
    let mut out: Vec<Scalar> = Vec::new();
    let mut i: usize = 0;
    while i < inputs.len()
        invariant
            i <= inputs@.len(),
            out@.len() == i,
            all_scalars_fit(out@, curve),
        decreases inputs@.len() - i,
    {
        let s = into_subxt_scalar(curve, &inputs[i])?;
        out.push(s);
        i = i + 1;
    }
    Ok(out)
}

/// The points of a Groth16 proof as the proof library holds them.
pub struct NativeProof<G1A, G2A> {
    pub a: G1A,
    pub b: G2A,
    pub c: G1A,
}

/// The points of a Groth16 verifying key as the proof library holds them.
pub struct NativeVerifyingKey<G1A, G2A> {
    pub alpha_g1: G1A,
    pub beta_g2: G2A,
    pub gamma_g2: G2A,
    pub delta_g2: G2A,
    pub gamma_abc_g1: Vec<G1A>,
}

impl<G1A: CanonicalSerialize, G2A: CanonicalSerialize> NativeProof<G1A, G2A> {
    /// The curve-tagged binary form of this proof, as points of `curve`.
    pub fn into_subxt_proof(&self, curve: Curve) -> (r: Result<ProofWithCurve, EncodingError>)
        ensures
            r is Ok ==> r->Ok_0.curve == curve && r->Ok_0.wf(),
    {
        let a = into_g1(curve, &self.a)?;
        let b = into_g2(curve, &self.b)?;
        let c = into_g1(curve, &self.c)?;
        Ok(ProofWithCurve { curve, proof: Proof { a, b, c } })
    }
}

impl<G1A: CanonicalSerialize, G2A: CanonicalSerialize> NativeVerifyingKey<G1A, G2A> {
    /// The curve-tagged binary form of this key, as points of `curve`; the
    /// points of `gamma_abc_g1` keep their number.
    pub fn into_subxt_vk(&self, curve: Curve) -> (r: Result<VerificationKeyWithCurve, EncodingError>)
        ensures
            r is Ok ==> {
                &&& r->Ok_0.curve == curve
                &&& r->Ok_0.wf()
                &&& r->Ok_0.gamma_abc_g1@.len() == self.gamma_abc_g1@.len()
            },
    {
        let alpha_g1 = into_g1(curve, &self.alpha_g1)?;
        let beta_g2 = into_g2(curve, &self.beta_g2)?;
        let gamma_g2 = into_g2(curve, &self.gamma_g2)?;
        let delta_g2 = into_g2(curve, &self.delta_g2)?;
        let mut points: Vec<G1> = Vec::new();
        let mut i: usize = 0;
        while i < self.gamma_abc_g1.len()
            invariant
                i <= self.gamma_abc_g1@.len(),
                points@.len() == i,
                all_g1_fit(points@, curve),
            decreases self.gamma_abc_g1@.len() - i,
        {
            let p = into_g1(curve, &self.gamma_abc_g1[i])?;
            points.push(p);
            i = i + 1;
        }
        Ok(VerificationKeyWithCurve { curve, alpha_g1, beta_g2, gamma_g2, delta_g2, gamma_abc_g1: points })
    }
}

} // verus!
