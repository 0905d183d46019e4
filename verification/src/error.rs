//! The failures an operation can report, and the classes they fall into.

use vstd::prelude::*;

verus! {

/// The reason an operation was refused. A refused operation changes nothing.
#[derive(Clone, Copy, Debug, PartialEq, Eq, Structural)]
pub enum ErrorCode {
    /// The vault cannot cover the amount together with its fee.
    InsufficientBalance,
    /// A sum or a counter would leave the 64-bit range.
    Overflow,
    /// The agent is frozen.
    AgentFrozen,
    /// The agent's authority has run out.
    AgentExpired,
    /// The amount is above the cap for a single spend.
    ExceedsPerTxLimit,
    /// The amount would take the day's spending above its cap.
    ExceedsDailyLimit,
    /// The amount would take lifetime spending above its cap.
    ExceedsTotalLimit,
    /// The signer is not the recorded owner.
    NotOwner,
    /// An owner-signed operation was tried on an agent owned by commitment.
    IsPrivateMode,
    /// A proof-backed operation was tried on an agent owned by a recorded key.
    NotPrivateMode,
    /// The witness names another commitment than the agent's.
    CommitmentMismatch,
    /// The witness is too short to hold a commitment.
    InvalidProof,
    /// The verifier turned the proof down.
    ProofVerificationFailed,
    /// The program offered as verifier is not the expected one.
    InvalidVerifierProgram,
    /// The vault cannot cover the fee of a proof-backed operation.
    InsufficientBalanceForFee,
    /// The commitment is the reserved all-zero value.
    InvalidCommitment,
    /// The signer is not the recorded delegate.
    NotDelegate,
}

/// Why an authorization failed.
#[derive(Clone, Copy, Debug, PartialEq, Eq, Structural)]
pub enum AuthorizationFailure {
    /// The signer is not the key the operation is reserved to.
    WrongSigner,
    /// The proof does not stand: its witness is malformed or names another
    /// commitment, it is offered to another verifier, or the verifier turned
    /// it down.
    InvalidProof,
    /// The operation belongs to the other ownership mode.
    WrongMode,
}

/// Which state of the agent stopped a spend.
#[derive(Clone, Copy, Debug, PartialEq, Eq, Structural)]
pub enum StateFailure {
    Frozen,
    Expired,
}

/// Which spending cap a spend ran into.
#[derive(Clone, Copy, Debug, PartialEq, Eq, Structural)]
pub enum Limit {
    PerTx,
    Daily,
    Total,
}

/// The class of a failure, by which a caller chooses how to react.
#[derive(Clone, Copy, Debug, PartialEq, Eq, Structural)]
pub enum ErrorKind {
    Authorization(AuthorizationFailure),
    State(StateFailure),
    LimitExceeded(Limit),
    Balance,
    Arithmetic,
    Config,
}

impl ErrorCode {
    /// The class each failure belongs to.
    pub open spec fn kind_of(self) -> ErrorKind {
        match self {
            ErrorCode::InsufficientBalance => ErrorKind::Balance,
            ErrorCode::Overflow => ErrorKind::Arithmetic,
            ErrorCode::AgentFrozen => ErrorKind::State(StateFailure::Frozen),
            ErrorCode::AgentExpired => ErrorKind::State(StateFailure::Expired),
            ErrorCode::ExceedsPerTxLimit => ErrorKind::LimitExceeded(Limit::PerTx),
            ErrorCode::ExceedsDailyLimit => ErrorKind::LimitExceeded(Limit::Daily),
            ErrorCode::ExceedsTotalLimit => ErrorKind::LimitExceeded(Limit::Total),
            ErrorCode::NotOwner => ErrorKind::Authorization(AuthorizationFailure::WrongSigner),
            ErrorCode::IsPrivateMode => ErrorKind::Authorization(AuthorizationFailure::WrongMode),
            ErrorCode::NotPrivateMode => ErrorKind::Authorization(AuthorizationFailure::WrongMode),
            ErrorCode::CommitmentMismatch => ErrorKind::Authorization(
                AuthorizationFailure::InvalidProof,
            ),
            ErrorCode::InvalidProof => ErrorKind::Authorization(AuthorizationFailure::InvalidProof),
            ErrorCode::ProofVerificationFailed => ErrorKind::Authorization(
                AuthorizationFailure::InvalidProof,
            ),
            ErrorCode::InvalidVerifierProgram => ErrorKind::Authorization(
                AuthorizationFailure::InvalidProof,
            ),
            ErrorCode::InsufficientBalanceForFee => ErrorKind::Balance,
            ErrorCode::InvalidCommitment => ErrorKind::Config,
            ErrorCode::NotDelegate => ErrorKind::Authorization(AuthorizationFailure::WrongSigner),
        }
    }

    /// The text that tells a person what went wrong.
    pub open spec fn message_of(self) -> Seq<char> {
        match self {
            ErrorCode::InsufficientBalance => "Insufficient balance in agent"@,
            ErrorCode::Overflow => "Arithmetic overflow"@,
            ErrorCode::AgentFrozen => "Agent is frozen"@,
            ErrorCode::AgentExpired => "Agent has expired"@,
            ErrorCode::ExceedsPerTxLimit => "Amount exceeds per-transaction limit"@,
            ErrorCode::ExceedsDailyLimit => "Amount exceeds daily limit"@,
            ErrorCode::ExceedsTotalLimit => "Amount exceeds total limit"@,
            ErrorCode::NotOwner => "Unauthorized: not owner"@,
            ErrorCode::IsPrivateMode => "Agent is in private mode - use ZK proof instructions"@,
            ErrorCode::NotPrivateMode => "Agent is not in private mode"@,
            ErrorCode::CommitmentMismatch => "Commitment mismatch in ZK proof"@,
            ErrorCode::InvalidProof => "Invalid ZK proof"@,
            ErrorCode::ProofVerificationFailed => "ZK proof verification failed"@,
            ErrorCode::InvalidVerifierProgram => "Invalid ZK verifier program"@,
            ErrorCode::InsufficientBalanceForFee => "Insufficient balance for operation fee"@,
            ErrorCode::InvalidCommitment => "Invalid commitment: cannot be all zeros"@,
            ErrorCode::NotDelegate => "Unauthorized: not delegate"@,
        }
    }

    /// Hands out the text that tells a person what went wrong.
    pub fn message(&self) -> (text: &'static str)
        ensures
            text@ == self.message_of(),
    {
        match self {
            ErrorCode::InsufficientBalance => "Insufficient balance in agent",
            ErrorCode::Overflow => "Arithmetic overflow",
            ErrorCode::AgentFrozen => "Agent is frozen",
            ErrorCode::AgentExpired => "Agent has expired",
            ErrorCode::ExceedsPerTxLimit => "Amount exceeds per-transaction limit",
            ErrorCode::ExceedsDailyLimit => "Amount exceeds daily limit",
            ErrorCode::ExceedsTotalLimit => "Amount exceeds total limit",
            ErrorCode::NotOwner => "Unauthorized: not owner",
            ErrorCode::IsPrivateMode => "Agent is in private mode - use ZK proof instructions",
            ErrorCode::NotPrivateMode => "Agent is not in private mode",
            ErrorCode::CommitmentMismatch => "Commitment mismatch in ZK proof",
            ErrorCode::InvalidProof => "Invalid ZK proof",
            ErrorCode::ProofVerificationFailed => "ZK proof verification failed",
            ErrorCode::InvalidVerifierProgram => "Invalid ZK verifier program",
            ErrorCode::InsufficientBalanceForFee => "Insufficient balance for operation fee",
            ErrorCode::InvalidCommitment => "Invalid commitment: cannot be all zeros",
            ErrorCode::NotDelegate => "Unauthorized: not delegate",
        }
    }

    /// Classifies the failure.
    pub fn kind(&self) -> (kind: ErrorKind)
        ensures
            kind == self.kind_of(),
    {
        match self {
            ErrorCode::InsufficientBalance | ErrorCode::InsufficientBalanceForFee => {
                ErrorKind::Balance
            },
            ErrorCode::Overflow => ErrorKind::Arithmetic,
            ErrorCode::AgentFrozen => ErrorKind::State(StateFailure::Frozen),
            ErrorCode::AgentExpired => ErrorKind::State(StateFailure::Expired),
            ErrorCode::ExceedsPerTxLimit => ErrorKind::LimitExceeded(Limit::PerTx),
            ErrorCode::ExceedsDailyLimit => ErrorKind::LimitExceeded(Limit::Daily),
            ErrorCode::ExceedsTotalLimit => ErrorKind::LimitExceeded(Limit::Total),
            ErrorCode::NotOwner | ErrorCode::NotDelegate => {
                ErrorKind::Authorization(AuthorizationFailure::WrongSigner)
            },
            ErrorCode::IsPrivateMode | ErrorCode::NotPrivateMode => {
                ErrorKind::Authorization(AuthorizationFailure::WrongMode)
            },
            ErrorCode::CommitmentMismatch
            | ErrorCode::InvalidProof
            | ErrorCode::ProofVerificationFailed
            | ErrorCode::InvalidVerifierProgram => {
                ErrorKind::Authorization(AuthorizationFailure::InvalidProof)
            },
            ErrorCode::InvalidCommitment => ErrorKind::Config,
        }
    }
}

} // verus!
