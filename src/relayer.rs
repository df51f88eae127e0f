//! The relaying service's form of a bundle: points and scalars as `0x` hex
//! strings, the curve as the service names it, and the reading of its answer.
use crate::artifact::G1;
use crate::artifact::Scalar;
use crate::bundle::ArtifactBundle;
use crate::curve::str_equal;
use crate::encode::hex_string_of;
use crate::encode::lemma_hex_string_length;
use crate::encode::HexStringSerializer;
use vstd::prelude::*;

pub use crate::curve::Curve;

verus! {

/// The curve as the relaying service's proof options name it.
pub open spec fn spec_curve_option(c: Curve) -> Seq<char> {
    match c {
        Curve::Bn254 => seq!['b', 'n', '1', '2', '8'],
        Curve::Bls12_381 => seq!['b', 'l', 's', '1', '2', '3', '8', '1'],
    }
}

pub open spec fn spec_proof_type() -> Seq<char> {
    seq!['g', 'r', 'o', 't', 'h', '1', '6']
}

pub open spec fn spec_library() -> Seq<char> {
    seq!['a', 'r', 'k', 'w', 'o', 'r', 'k', 's']
}

pub open spec fn spec_success() -> Seq<char> {
    seq!['s', 'u', 'c', 'c', 'e', 's', 's']
}

pub open spec fn spec_submit_path() -> Seq<char> {
    seq!['/', 's', 'u', 'b', 'm', 'i', 't', '-', 'p', 'r', 'o', 'o', 'f', '/']
}

/// The curve as the relaying service's proof options name it.
pub fn curve_option(c: Curve) -> (r: &'static str)
    ensures
        r@ == spec_curve_option(c),
{
    match c {
        Curve::Bn254 => {
            proof {
                reveal_strlit("bn128");
            }
            "bn128"
        },
        Curve::Bls12_381 => {
            proof {
                reveal_strlit("bls12381");
            }
            "bls12381"
        },
    }
}

/// The address a proof is posted to: `<base>/submit-proof/<api key>`.
pub fn submit_url(base: &str, api_key: &str) -> (r: String)
    ensures
        r@ == base@ + spec_submit_path() + api_key@,
{
    let mut url = String::from_str(base);
    proof {
        reveal_strlit("/submit-proof/");
    }
    url.append("/submit-proof/");
    url.append(api_key);
    url
}

/// The three points of a proof in hex-string form.
#[derive(Debug, Clone, PartialEq, Eq)]
pub struct HexProof {
    pub a: String,
    pub b: String,
    pub c: String,
}

/// A proof in hex-string form with its curve.
#[derive(Debug, Clone, PartialEq, Eq)]
pub struct ProofWithCurve {
    pub curve: Curve,
    pub proof: HexProof,
}

/// A verifying key in hex-string form with its curve.
#[derive(Debug, Clone, PartialEq, Eq)]
pub struct VerifyingKeyWithCurve {
    pub curve: Curve,
    pub alpha_g1: String,
    pub beta_g2: String,
    pub gamma_g2: String,
    pub delta_g2: String,
    pub gamma_abc_g1: Vec<String>,
}

/// Public inputs in hex-string form, in proving order.
#[derive(Debug, Clone, PartialEq, Eq)]
pub struct PublicInputs(pub Vec<String>);

/// Everything the relaying service is sent for one proof.
#[derive(Debug, Clone, PartialEq, Eq)]
pub struct SubmitProofRequest {
    pub proof_type: String,
    pub vk_registered: bool,
    pub library: String,
    pub curve: String,
    pub proof: ProofWithCurve,
    pub vk: VerifyingKeyWithCurve,
    pub public_signals: PublicInputs,
}

fn g1_hex_strings(points: &Vec<G1>) -> (r: Vec<String>)
    ensures
        r@.len() == points@.len(),
        forall|i: int| 0 <= i < points@.len() ==> #[trigger] r@[i]@ == hex_string_of(points@[i].0@),
{
    let mut out: Vec<String> = Vec::new();
    let mut i: usize = 0;
    while i < points.len()
        invariant
            i <= points@.len(),
            out@.len() == i,
            forall|j: int| 0 <= j < i ==> #[trigger] out@[j]@ == hex_string_of(points@[j].0@),
        decreases points@.len() - i,
    {
        out.push(HexStringSerializer::serialize(&points[i].0));
        i = i + 1;
    }
    out
}

fn scalar_hex_strings(scalars: &Vec<Scalar>) -> (r: Vec<String>)
    ensures
        r@.len() == scalars@.len(),
        forall|i: int| 0 <= i < scalars@.len() ==> #[trigger] r@[i]@ == hex_string_of(scalars@[i].0@),
{
    let mut out: Vec<String> = Vec::new();
    let mut i: usize = 0;
    while i < scalars.len()
        invariant
            i <= scalars@.len(),
            out@.len() == i,
            forall|j: int| 0 <= j < i ==> #[trigger] out@[j]@ == hex_string_of(scalars@[j].0@),
        decreases scalars@.len() - i,
    {
        out.push(HexStringSerializer::serialize(&scalars[i].0));
        i = i + 1;
    }
    out
}

impl SubmitProofRequest {
    /// The request is the hex-string form of `b`, point for point and input
    /// for input, in the same order, tagged with `b`'s curve.
    pub open spec fn encodes(&self, b: ArtifactBundle) -> bool {
        &&& self.proof_type@ == spec_proof_type()
        &&& !self.vk_registered
        &&& self.library@ == spec_library()
        &&& self.curve@ == spec_curve_option(b.proof.curve)
        &&& self.proof.curve == b.proof.curve
        &&& self.proof.proof.a@ == hex_string_of(b.proof.proof.a.0@)
        &&& self.proof.proof.b@ == hex_string_of(b.proof.proof.b.0@)
        &&& self.proof.proof.c@ == hex_string_of(b.proof.proof.c.0@)
        &&& self.vk.curve == b.vk.curve
        &&& self.vk.alpha_g1@ == hex_string_of(b.vk.alpha_g1.0@)
        &&& self.vk.beta_g2@ == hex_string_of(b.vk.beta_g2.0@)
        &&& self.vk.gamma_g2@ == hex_string_of(b.vk.gamma_g2.0@)
        &&& self.vk.delta_g2@ == hex_string_of(b.vk.delta_g2.0@)
        &&& self.vk.gamma_abc_g1@.len() == b.vk.gamma_abc_g1@.len()
        &&& forall|i: int|
            0 <= i < b.vk.gamma_abc_g1@.len() ==> #[trigger] self.vk.gamma_abc_g1@[i]@
                == hex_string_of(b.vk.gamma_abc_g1@[i].0@)
        &&& self.public_signals.0@.len() == b.inputs@.len()
        &&& forall|i: int|
            0 <= i < b.inputs@.len() ==> #[trigger] self.public_signals.0@[i]@ == hex_string_of(
                b.inputs@[i].0@,
            )
    }

    /// The relaying service's request for the bundle `b`.
    pub fn from_bundle(b: &ArtifactBundle) -> (r: SubmitProofRequest)
        ensures
            r.encodes(*b),
    {
        let proof = ProofWithCurve {
            curve: b.proof.curve,
            proof: HexProof {
                a: HexStringSerializer::serialize(&b.proof.proof.a.0),
                b: HexStringSerializer::serialize(&b.proof.proof.b.0),
                c: HexStringSerializer::serialize(&b.proof.proof.c.0),
            },
        };
        let vk = VerifyingKeyWithCurve {
            curve: b.vk.curve,
            alpha_g1: HexStringSerializer::serialize(&b.vk.alpha_g1.0),
            beta_g2: HexStringSerializer::serialize(&b.vk.beta_g2.0),
            gamma_g2: HexStringSerializer::serialize(&b.vk.gamma_g2.0),
            delta_g2: HexStringSerializer::serialize(&b.vk.delta_g2.0),
            gamma_abc_g1: g1_hex_strings(&b.vk.gamma_abc_g1),
        };
        proof {
            reveal_strlit("groth16");
            reveal_strlit("arkworks");
            assert("groth16"@ =~= spec_proof_type());
            assert("arkworks"@ =~= spec_library());
        }
        SubmitProofRequest {
            proof_type: String::from_str("groth16"),
            vk_registered: false,
            library: String::from_str("arkworks"),
            curve: String::from_str(curve_option(b.proof.curve)),
            proof,
            vk,
            public_signals: PublicInputs(scalar_hex_strings(&b.inputs)),
        }
    }
}

/// In the request for a well-formed bundle, the proof, the key and the proof
/// options all name the one curve of the bundle's points.
pub proof fn lemma_request_tags_agree(b: ArtifactBundle, r: SubmitProofRequest)
    requires
        b.wf(),
        r.encodes(b),
    ensures
        r.proof.curve == b.spec_curve(),
        r.vk.curve == b.spec_curve(),
        r.curve@ == spec_curve_option(b.spec_curve()),
{
}

/// In the request for a well-formed bundle, every hex string is `0x` followed
/// by twice as many digits as its group's uncompressed size on the curve.
pub proof fn lemma_request_hex_lengths(b: ArtifactBundle, r: SubmitProofRequest)
    requires
        b.wf(),
        r.encodes(b),
    ensures
        r.proof.proof.a@.len() == 2 + 2 * b.spec_curve().spec_g1_size(),
        r.proof.proof.b@.len() == 2 + 2 * b.spec_curve().spec_g2_size(),
        r.proof.proof.c@.len() == 2 + 2 * b.spec_curve().spec_g1_size(),
        r.vk.alpha_g1@.len() == 2 + 2 * b.spec_curve().spec_g1_size(),
        r.vk.beta_g2@.len() == 2 + 2 * b.spec_curve().spec_g2_size(),
        r.vk.gamma_g2@.len() == 2 + 2 * b.spec_curve().spec_g2_size(),
        r.vk.delta_g2@.len() == 2 + 2 * b.spec_curve().spec_g2_size(),
        forall|i: int|
            0 <= i < r.vk.gamma_abc_g1@.len() ==> (#[trigger] r.vk.gamma_abc_g1@[i])@.len() == 2 + 2
                * b.spec_curve().spec_g1_size(),
        forall|i: int|
            0 <= i < r.public_signals.0@.len() ==> (#[trigger] r.public_signals.0@[i])@.len() == 2
                + 2 * b.spec_curve().spec_scalar_size(),
{
    lemma_hex_string_length(b.proof.proof.a.0@);
    lemma_hex_string_length(b.proof.proof.b.0@);
    lemma_hex_string_length(b.proof.proof.c.0@);
    lemma_hex_string_length(b.vk.alpha_g1.0@);
    lemma_hex_string_length(b.vk.beta_g2.0@);
    lemma_hex_string_length(b.vk.gamma_g2.0@);
    lemma_hex_string_length(b.vk.delta_g2.0@);
    assert forall|i: int| 0 <= i < r.vk.gamma_abc_g1@.len() implies (#[trigger] r.vk.gamma_abc_g1@[i])@.len()
        == 2 + 2 * b.spec_curve().spec_g1_size() by {
        lemma_hex_string_length(b.vk.gamma_abc_g1@[i].0@);
        assert(b.vk.gamma_abc_g1@[i].fits(b.vk.curve));
    }
    assert forall|i: int| 0 <= i < r.public_signals.0@.len() implies (#[trigger] r.public_signals.0@[i])@.len()
        == 2 + 2 * b.spec_curve().spec_scalar_size() by {
        lemma_hex_string_length(b.inputs@[i].0@);
        assert(b.inputs@[i].fits(b.vk.curve));
    }
}

/// The relaying service's answer to a submitted proof.
#[derive(Debug, Clone, PartialEq, Eq)]
pub struct RelayerResponse {
    pub job_id: String,
    pub optimistic_verify: String,
}

/// What an answer of the relaying service reports.
#[derive(Debug, Clone, PartialEq, Eq)]
pub enum RelayerOutcome {
    /// The proof was optimistically verified under this job.
    Verified { job_id: String },
    /// The job ran and the proof was not verified.
    NotVerified { job_id: String },
}

impl RelayerOutcome {
    pub open spec fn spec_job_id(&self) -> Seq<char> {
        match self {
            RelayerOutcome::Verified { job_id } => job_id@,
            RelayerOutcome::NotVerified { job_id } => job_id@,
        }
    }
}

impl RelayerResponse {
    /// Success exactly when the status reads `success`; the job id is kept either way.
    pub fn outcome(self) -> (r: RelayerOutcome)
        ensures
            r is Verified <==> self.optimistic_verify@ == spec_success(),
            r.spec_job_id() == self.job_id@,
    {
        proof {
            reveal_strlit("success");
            assert("success"@ =~= spec_success());
        }
        if str_equal(self.optimistic_verify.as_str(), "success") {
            RelayerOutcome::Verified { job_id: self.job_id }
        } else {
            RelayerOutcome::NotVerified { job_id: self.job_id }
        }
    }
}

} // verus!
