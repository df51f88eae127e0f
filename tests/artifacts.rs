use groth16_submit::artifact::g1_from_bytes;
use groth16_submit::artifact::scalar_from_bytes;
use groth16_submit::artifact::ProofWithCurve;
use groth16_submit::artifact::Scalar;
use groth16_submit::artifact::VerificationKeyWithCurve;
use groth16_submit::bundle::ArtifactBundle;
use groth16_submit::bundle::BundleError;
use groth16_submit::curve::Curve;
use groth16_submit::encode::EncodingError;

fn bn_proof() -> ProofWithCurve {
    ProofWithCurve::from_encoded(Curve::Bn254, vec![1; 64], vec![2; 128], vec![3; 64]).unwrap()
}

fn bn_vk(slots: usize) -> VerificationKeyWithCurve {
    VerificationKeyWithCurve::from_encoded(
        Curve::Bn254,
        vec![4; 64],
        vec![5; 128],
        vec![6; 128],
        vec![7; 128],
        (0..slots).map(|i| vec![i as u8; 64]).collect(),
    )
    .unwrap()
}

#[test]
fn proof_keeps_points_and_tag() {
    let p = bn_proof();
    assert_eq!(p.curve, Curve::Bn254);
    assert_eq!(p.proof.a.0, vec![1; 64]);
    assert_eq!(p.proof.b.0, vec![2; 128]);
    assert_eq!(p.proof.c.0, vec![3; 64]);
}

#[test]
fn proof_with_point_of_other_curve_is_refused() {
    let r = ProofWithCurve::from_encoded(Curve::Bls12_381, vec![1; 64], vec![2; 128], vec![3; 64]);
    assert_eq!(r, Err(EncodingError::SizeMismatch { expected: 96, found: 64 }));
    let r = ProofWithCurve::from_encoded(Curve::Bn254, vec![1; 64], vec![2; 192], vec![3; 64]);
    assert_eq!(r, Err(EncodingError::SizeMismatch { expected: 128, found: 192 }));
}

#[test]
fn key_keeps_gamma_abc_order() {
    let vk = bn_vk(3);
    assert_eq!(vk.gamma_abc_g1.len(), 3);
    for (i, p) in vk.gamma_abc_g1.iter().enumerate() {
        assert_eq!(p.0, vec![i as u8; 64]);
    }
}

#[test]
fn key_with_short_gamma_abc_point_is_refused() {
    let r = VerificationKeyWithCurve::from_encoded(
        Curve::Bn254,
        vec![4; 64],
        vec![5; 128],
        vec![6; 128],
        vec![7; 128],
        vec![vec![0; 64], vec![0; 63]],
    );
    assert_eq!(r, Err(EncodingError::SizeMismatch { expected: 64, found: 63 }));
}

#[test]
fn single_points_are_checked() {
    assert!(g1_from_bytes(Curve::Bls12_381, vec![0; 96]).is_ok());
    assert_eq!(
        scalar_from_bytes(Curve::Bn254, vec![0; 31]),
        Err(EncodingError::SizeMismatch { expected: 32, found: 31 })
    );
}

#[test]
fn bundle_of_matching_parts() {
    let b = ArtifactBundle::new(bn_proof(), bn_vk(2), vec![Scalar(vec![9; 32])]).unwrap();
    assert_eq!(b.curve(), Curve::Bn254);
    assert_eq!(b.vk.gamma_abc_g1.len(), b.inputs.len() + 1);
}

#[test]
fn bundle_with_wrong_input_count_is_refused() {
    let r = ArtifactBundle::new(bn_proof(), bn_vk(3), vec![Scalar(vec![9; 32])]);
    assert_eq!(r, Err(BundleError::InputCountMismatch { gamma_abc_len: 3, inputs: 1 }));
}

#[test]
fn bundle_with_cross_tagged_parts_is_refused() {
    let vk = VerificationKeyWithCurve::from_encoded(
        Curve::Bls12_381,
        vec![4; 96],
        vec![5; 192],
        vec![6; 192],
        vec![7; 192],
        vec![vec![0; 96]],
    )
    .unwrap();
    let r = ArtifactBundle::new(bn_proof(), vk, vec![]);
    assert_eq!(r, Err(BundleError::CurveMismatch { proof: Curve::Bn254, key: Curve::Bls12_381 }));
}

#[test]
fn bundle_with_malformed_parts_is_refused() {
    let mut p = bn_proof();
    p.proof.c.0.pop();
    assert_eq!(ArtifactBundle::new(p, bn_vk(1), vec![]), Err(BundleError::MalformedProof));
    let mut vk = bn_vk(1);
    vk.curve = Curve::Bls12_381;
    assert_eq!(ArtifactBundle::new(bn_proof(), vk, vec![]), Err(BundleError::MalformedKey));
    let r = ArtifactBundle::new(bn_proof(), bn_vk(2), vec![Scalar(vec![9; 33])]);
    assert_eq!(r, Err(BundleError::MalformedInput));
}
