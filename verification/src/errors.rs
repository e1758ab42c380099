//! The closed taxonomy of admission failures. Every rejection an event can
//! meet is one of these; human-readable text is produced only at the
//! boundary, through [`VerifyError::reason_text`].

use vstd::prelude::*;

verus! {

/// A required identifier that may be reported missing, in the fixed check
/// order of the field validator.
#[derive(Clone, Copy, Debug, PartialEq, Eq, Structural)]
pub enum FieldName {
    FactoId,
    AgentId,
    SessionId,
    ActionType,
    Status,
    EventHash,
    Signature,
    PublicKey,
}

/// What is wrong with an undecodable or ill-sized proof part.
#[derive(Clone, Copy, Debug, PartialEq, Eq, Structural)]
pub enum ProofDefect {
    Length,
    Encoding,
}

/// Why an event was rejected. All variants are terminal and per-event.
#[derive(Clone, Copy, Debug, PartialEq, Eq, Structural)]
pub enum VerifyError {
    MissingField(FieldName),
    HashMismatch,
    MalformedProof(ProofDefect),
    InvalidSignature,
    RateLimitExceeded,
    BrokerUnavailable,
    PublishFailed,
}

/// The boundary text of each rejection reason.
pub open spec fn reason_of(e: VerifyError) -> Seq<char> {
    match e {
        VerifyError::MissingField(FieldName::FactoId) => "Missing facto_id"@,
        VerifyError::MissingField(FieldName::AgentId) => "Missing agent_id"@,
        VerifyError::MissingField(FieldName::SessionId) => "Missing session_id"@,
        VerifyError::MissingField(FieldName::ActionType) => "Missing action_type"@,
        VerifyError::MissingField(FieldName::Status) => "Missing status"@,
        VerifyError::MissingField(FieldName::EventHash) => "Missing event_hash"@,
        VerifyError::MissingField(FieldName::Signature) => "Missing signature"@,
        VerifyError::MissingField(FieldName::PublicKey) => "Missing public_key"@,
        VerifyError::HashMismatch => "Hash mismatch"@,
        VerifyError::MalformedProof(ProofDefect::Length) => "Invalid proof length"@,
        VerifyError::MalformedProof(ProofDefect::Encoding) => "Invalid proof encoding"@,
        VerifyError::InvalidSignature => "Signature verification failed"@,
        VerifyError::RateLimitExceeded => "Rate limit exceeded"@,
        VerifyError::BrokerUnavailable => "Service not ready"@,
        VerifyError::PublishFailed => "Failed to queue event"@,
    }
}

impl VerifyError {
    /// The human-readable reason handed to callers at the boundary.
    pub fn reason_text(&self) -> (r: String)
        ensures
            r@ == reason_of(*self),
    {
        match self {
            VerifyError::MissingField(FieldName::FactoId) => "Missing facto_id".to_owned(),
            VerifyError::MissingField(FieldName::AgentId) => "Missing agent_id".to_owned(),
            VerifyError::MissingField(FieldName::SessionId) => "Missing session_id".to_owned(),
            VerifyError::MissingField(FieldName::ActionType) => "Missing action_type".to_owned(),
            VerifyError::MissingField(FieldName::Status) => "Missing status".to_owned(),
            VerifyError::MissingField(FieldName::EventHash) => "Missing event_hash".to_owned(),
            VerifyError::MissingField(FieldName::Signature) => "Missing signature".to_owned(),
            VerifyError::MissingField(FieldName::PublicKey) => "Missing public_key".to_owned(),
            VerifyError::HashMismatch => "Hash mismatch".to_owned(),
            VerifyError::MalformedProof(ProofDefect::Length) => "Invalid proof length".to_owned(),
            VerifyError::MalformedProof(ProofDefect::Encoding) => "Invalid proof encoding".to_owned(),
            VerifyError::InvalidSignature => "Signature verification failed".to_owned(),
            VerifyError::RateLimitExceeded => "Rate limit exceeded".to_owned(),
            VerifyError::BrokerUnavailable => "Service not ready".to_owned(),
            VerifyError::PublishFailed => "Failed to queue event".to_owned(),
        }
    }
}

} // verus!
