//! Direct submission to a chain node: the call that carries a bundle, the
//! choice of signing key, and the decisions of a submission from connecting
//! to finalization.
use crate::artifact::ProofWithCurve;
use crate::artifact::Scalar;
use crate::artifact::VerificationKeyWithCurve;
use crate::bundle::ArtifactBundle;
use vstd::prelude::*;

verus! {

/// The verifying key of a call: inline, or the hash under which it was registered.
#[derive(Debug, Clone, PartialEq, Eq)]
pub enum VkOrHash {
    Vk(VerificationKeyWithCurve),
    Hash([u8; 32]),
}

/// The arguments of the chain's proof-submission call.
#[derive(Debug, Clone, PartialEq, Eq)]
pub struct SubmitProof {
    pub vk_or_hash: VkOrHash,
    pub proof: ProofWithCurve,
    pub pubs: Vec<Scalar>,
}

impl SubmitProof {
    /// The call for bundle `b`: the key by its registered hash where one is
    /// given, else inline; proof and inputs as bundled.
    pub fn from_bundle(b: ArtifactBundle, registered_vk: Option<[u8; 32]>) -> (r: SubmitProof)
        ensures
            r.proof == b.proof,
            r.pubs == b.inputs,
            match registered_vk {
                Some(h) => r.vk_or_hash == VkOrHash::Hash(h),
                None => r.vk_or_hash == VkOrHash::Vk(b.vk),
            },
    {
        let vk_or_hash = match registered_vk {
            Some(h) => VkOrHash::Hash(h),
            None => VkOrHash::Vk(b.vk),
        };
        SubmitProof { vk_or_hash, proof: b.proof, pubs: b.inputs }
    }
}

/// Where the signing key comes from, decided once at start-up.
#[derive(Debug, Clone, PartialEq, Eq)]
pub enum SigningSource {
    /// Derived from the operator's secret phrase.
    FromPhrase(String),
    /// The well-known development key; only for test networks.
    DevDefault,
}

impl SigningSource {
    /// The operator's secret when one is configured; the development key only
    /// when none is.
    pub fn from_secret(secret: Option<String>) -> (r: SigningSource)
        ensures
            match secret {
                Some(p) => r == SigningSource::FromPhrase(p),
                None => r == SigningSource::DevDefault,
            },
    {
        match secret {
            Some(p) => SigningSource::FromPhrase(p),
            None => SigningSource::DevDefault,
        }
    }
}

/// Why a submission to the chain ended without finalization.
#[derive(Debug, Clone, PartialEq, Eq)]
pub enum SubmissionError {
    /// No session with the node could be established.
    Connection { reason: String },
    /// The signed call could not be submitted.
    Submission { reason: String },
    /// The transaction was submitted and then rejected or never finalized.
    Rejected { tx_hash: String, reason: String },
    /// An event arrived that the current stage does not expect.
    UnexpectedEvent,
}

/// The stage a submission has reached.
#[derive(Debug, Clone, PartialEq, Eq)]
pub enum ChainStage {
    Idle,
    Connected,
    Submitted { tx_hash: String },
    Finalized { tx_hash: String },
    Failed { error: SubmissionError },
}

/// What the outside world reports back after an action.
#[derive(Debug, Clone, PartialEq, Eq)]
pub enum ChainEvent {
    SessionOpened,
    SessionFailed { reason: String },
    Accepted { tx_hash: String },
    SubmitFailed { reason: String },
    FinalizedOk,
    FinalizationFailed { reason: String },
}

/// The next thing to do, given the stage reached.
#[derive(Debug, Clone, Copy, PartialEq, Eq, Structural)]
pub enum ChainAction {
    Connect,
    SignAndSubmit,
    AwaitFinalization,
    Stop,
}

/// The stage after `event` in `stage`. Finalized and failed submissions are
/// final: nothing is retried.
pub open spec fn spec_next_stage(stage: ChainStage, event: ChainEvent) -> ChainStage {
    match stage {
        ChainStage::Idle => match event {
            ChainEvent::SessionOpened => ChainStage::Connected,
            ChainEvent::SessionFailed { reason } => ChainStage::Failed {
                error: SubmissionError::Connection { reason },
            },
            _ => ChainStage::Failed { error: SubmissionError::UnexpectedEvent },
        },
        ChainStage::Connected => match event {
            ChainEvent::Accepted { tx_hash } => ChainStage::Submitted { tx_hash },
            ChainEvent::SubmitFailed { reason } => ChainStage::Failed {
                error: SubmissionError::Submission { reason },
            },
            _ => ChainStage::Failed { error: SubmissionError::UnexpectedEvent },
        },
        ChainStage::Submitted { tx_hash } => match event {
            ChainEvent::FinalizedOk => ChainStage::Finalized { tx_hash },
            ChainEvent::FinalizationFailed { reason } => ChainStage::Failed {
                error: SubmissionError::Rejected { tx_hash, reason },
            },
            _ => ChainStage::Failed { error: SubmissionError::UnexpectedEvent },
        },
        ChainStage::Finalized { tx_hash } => ChainStage::Finalized { tx_hash },
        ChainStage::Failed { error } => ChainStage::Failed { error },
    }
}

/// The action that a stage calls for.
pub open spec fn spec_action(stage: ChainStage) -> ChainAction {
    match stage {
        ChainStage::Idle => ChainAction::Connect,
        ChainStage::Connected => ChainAction::SignAndSubmit,
        ChainStage::Submitted { .. } => ChainAction::AwaitFinalization,
        _ => ChainAction::Stop,
    }
}

impl ChainStage {
    pub open spec fn is_final(&self) -> bool {
        self is Finalized || self is Failed
    }

    /// A fresh submission and its first action.
    pub fn start() -> (r: (ChainStage, ChainAction))
        ensures
            r.0 == ChainStage::Idle,
            r.1 == ChainAction::Connect,
    {
        (ChainStage::Idle, ChainAction::Connect)
    }

    /// The stage after `event`, and the action it calls for.
    pub fn step(self, event: ChainEvent) -> (r: (ChainStage, ChainAction))
        ensures
            r.0 == spec_next_stage(self, event),
            r.1 == spec_action(r.0),
    {
        let next = match self {
            ChainStage::Idle => match event {
                ChainEvent::SessionOpened => ChainStage::Connected,
                ChainEvent::SessionFailed { reason } => ChainStage::Failed {
                    error: SubmissionError::Connection { reason },
                },
                _ => ChainStage::Failed { error: SubmissionError::UnexpectedEvent },
            },
            ChainStage::Connected => match event {
                ChainEvent::Accepted { tx_hash } => ChainStage::Submitted { tx_hash },
                ChainEvent::SubmitFailed { reason } => ChainStage::Failed {
                    error: SubmissionError::Submission { reason },
                },
                _ => ChainStage::Failed { error: SubmissionError::UnexpectedEvent },
            },
            ChainStage::Submitted { tx_hash } => match event {
                ChainEvent::FinalizedOk => ChainStage::Finalized { tx_hash },
                ChainEvent::FinalizationFailed { reason } => ChainStage::Failed {
                    error: SubmissionError::Rejected { tx_hash, reason },
                },
                _ => ChainStage::Failed { error: SubmissionError::UnexpectedEvent },
            },
            ChainStage::Finalized { tx_hash } => ChainStage::Finalized { tx_hash },
            ChainStage::Failed { error } => ChainStage::Failed { error },
        };
        let action = match &next {
            ChainStage::Idle => ChainAction::Connect,
            ChainStage::Connected => ChainAction::SignAndSubmit,
            ChainStage::Submitted { .. } => ChainAction::AwaitFinalization,
            _ => ChainAction::Stop,
        };
        (next, action)
    }

    /// The result of a finished submission: the transaction hash, or the error.
    pub fn outcome(self) -> (r: Option<Result<String, SubmissionError>>)
        ensures
            match self {
                ChainStage::Finalized { tx_hash } => r == Some(Ok::<String, SubmissionError>(tx_hash)),
                ChainStage::Failed { error } => r == Some(Err::<String, SubmissionError>(error)),
                _ => r is None,
            },
    {
        match self {
            ChainStage::Finalized { tx_hash } => Some(Ok(tx_hash)),
            ChainStage::Failed { error } => Some(Err(error)),
            _ => None,
        }
    }
}

/// A submission that has ended stays as it is, whatever is reported next, and
/// calls for no further action: a failure is never retried.
pub proof fn lemma_final_stage_is_kept(stage: ChainStage, event: ChainEvent)
    requires
        stage.is_final(),
    ensures
        spec_next_stage(stage, event) == stage,
        spec_action(spec_next_stage(stage, event)) == ChainAction::Stop,
{
}

/// A rejection after submission ends the submission with an error that
/// carries the transaction hash.
pub proof fn lemma_rejection_keeps_transaction(tx_hash: String, reason: String)
    ensures
        spec_next_stage(
            ChainStage::Submitted { tx_hash },
            ChainEvent::FinalizationFailed { reason },
        ) == (ChainStage::Failed { error: SubmissionError::Rejected { tx_hash, reason } }),
{
}

} // verus!
