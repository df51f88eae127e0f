use groth16_submit::artifact::ProofWithCurve;
use groth16_submit::artifact::Scalar;
use groth16_submit::artifact::VerificationKeyWithCurve;
use groth16_submit::bundle::ArtifactBundle;
use groth16_submit::curve::Curve;
use groth16_submit::relayer::curve_option;
use groth16_submit::relayer::submit_url;
use groth16_submit::relayer::RelayerOutcome;
use groth16_submit::relayer::RelayerResponse;
use groth16_submit::relayer::SubmitProofRequest;
use groth16_submit::zkv::ChainAction;
use groth16_submit::zkv::ChainEvent;
use groth16_submit::zkv::ChainStage;
use groth16_submit::zkv::SigningSource;
use groth16_submit::zkv::SubmissionError;
use groth16_submit::zkv::SubmitProof;
use groth16_submit::zkv::VkOrHash;

fn small_bundle() -> ArtifactBundle {
    let p = ProofWithCurve::from_encoded(Curve::Bn254, vec![0x11; 64], vec![0x22; 128], vec![0x33; 64]).unwrap();
    let vk = VerificationKeyWithCurve::from_encoded(
        Curve::Bn254,
        vec![0x44; 64],
        vec![0x55; 128],
        vec![0x66; 128],
        vec![0x77; 128],
        vec![vec![0xa0; 64], vec![0xa1; 64], vec![0xa2; 64]],
    )
    .unwrap();
    ArtifactBundle::new(p, vk, vec![Scalar(vec![0x01; 32]), Scalar(vec![0x02; 32])]).unwrap()
}

#[test]
fn relayer_curve_names() {
    assert_eq!(curve_option(Curve::Bn254), "bn128");
    assert_eq!(curve_option(Curve::Bls12_381), "bls12381");
}

#[test]
fn relayer_submit_url() {
    assert_eq!(
        submit_url("https://relayer.example/api/v1", "k3y"),
        "https://relayer.example/api/v1/submit-proof/k3y"
    );
}

#[test]
fn relayer_request_is_hex_form_of_bundle() {
    let r = SubmitProofRequest::from_bundle(&small_bundle());
    assert_eq!(r.proof_type, "groth16");
    assert!(!r.vk_registered);
    assert_eq!(r.library, "arkworks");
    assert_eq!(r.curve, "bn128");
    assert_eq!(r.proof.curve, Curve::Bn254);
    assert_eq!(r.proof.proof.a, format!("0x{}", "11".repeat(64)));
    assert_eq!(r.proof.proof.b, format!("0x{}", "22".repeat(128)));
    assert_eq!(r.vk.delta_g2, format!("0x{}", "77".repeat(128)));
    assert_eq!(
        r.vk.gamma_abc_g1,
        vec![format!("0x{}", "a0".repeat(64)), format!("0x{}", "a1".repeat(64)), format!("0x{}", "a2".repeat(64))]
    );
    assert_eq!(r.public_signals.0, vec![format!("0x{}", "01".repeat(32)), format!("0x{}", "02".repeat(32))]);
}

#[test]
fn relayer_success_answer() {
    let r = RelayerResponse { job_id: "abc123".to_string(), optimistic_verify: "success".to_string() };
    assert_eq!(r.outcome(), RelayerOutcome::Verified { job_id: "abc123".to_string() });
}

#[test]
fn relayer_failure_answer() {
    let r = RelayerResponse { job_id: "xyz".to_string(), optimistic_verify: "failed".to_string() };
    assert_eq!(r.outcome(), RelayerOutcome::NotVerified { job_id: "xyz".to_string() });
}

#[test]
fn chain_call_with_inline_key_or_hash() {
    let b = small_bundle();
    let call = SubmitProof::from_bundle(b.clone(), None);
    assert_eq!(call.vk_or_hash, VkOrHash::Vk(b.vk.clone()));
    assert_eq!(call.proof, b.proof);
    assert_eq!(call.pubs, b.inputs);
    let call = SubmitProof::from_bundle(b, Some([7; 32]));
    assert_eq!(call.vk_or_hash, VkOrHash::Hash([7; 32]));
}

#[test]
fn signing_key_source() {
    assert_eq!(
        SigningSource::from_secret(Some("bottom drive".to_string())),
        SigningSource::FromPhrase("bottom drive".to_string())
    );
    assert_eq!(SigningSource::from_secret(None), SigningSource::DevDefault);
}

#[test]
fn chain_submission_finalizes() {
    let (s, a) = ChainStage::start();
    assert_eq!(a, ChainAction::Connect);
    let (s, a) = s.step(ChainEvent::SessionOpened);
    assert_eq!(a, ChainAction::SignAndSubmit);
    let (s, a) = s.step(ChainEvent::Accepted { tx_hash: "0xfeed".to_string() });
    assert_eq!(a, ChainAction::AwaitFinalization);
    let (s, a) = s.step(ChainEvent::FinalizedOk);
    assert_eq!(a, ChainAction::Stop);
    assert_eq!(s.outcome(), Some(Ok("0xfeed".to_string())));
}

#[test]
fn chain_rejection_is_reported_with_transaction_and_not_retried() {
    let (s, _) = ChainStage::start();
    let (s, _) = s.step(ChainEvent::SessionOpened);
    let (s, _) = s.step(ChainEvent::Accepted { tx_hash: "0xbad".to_string() });
    let (s, a) = s.step(ChainEvent::FinalizationFailed { reason: "proof rejected".to_string() });
    assert_eq!(a, ChainAction::Stop);
    let failed = s.clone();
    let (s, a) = s.step(ChainEvent::SessionOpened);
    assert_eq!(a, ChainAction::Stop);
    assert_eq!(s, failed);
    assert_eq!(
        s.outcome(),
        Some(Err(SubmissionError::Rejected { tx_hash: "0xbad".to_string(), reason: "proof rejected".to_string() }))
    );
}

#[test]
fn chain_connection_failure() {
    let (s, _) = ChainStage::start();
    let (s, a) = s.step(ChainEvent::SessionFailed { reason: "unreachable".to_string() });
    assert_eq!(a, ChainAction::Stop);
    assert_eq!(s.outcome(), Some(Err(SubmissionError::Connection { reason: "unreachable".to_string() })));
}

#[test]
fn chain_event_out_of_order_fails() {
    let (s, _) = ChainStage::start();
    let (s, _) = s.step(ChainEvent::FinalizedOk);
    assert_eq!(s, ChainStage::Failed { error: SubmissionError::UnexpectedEvent });
    assert_eq!(ChainStage::Connected.outcome(), None);
}
