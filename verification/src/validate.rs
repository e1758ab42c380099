//! Per-event validation: presence of the required identifiers first (the
//! cheapest check, in a fixed order), then the digest, then the signature.

use vstd::prelude::*;

use crate::crypto::{hash_matches, signature_verdict, verify_hash, verify_signature};
use crate::errors::{FieldName, VerifyError};
use crate::event::FactoEvent;

verus! {

/// The first required field that is empty, in the fixed check order, if any.
pub open spec fn first_missing_field(e: FactoEvent) -> Option<FieldName> {
    if e.facto_id@.len() == 0 {
        Some(FieldName::FactoId)
    } else if e.agent_id@.len() == 0 {
        Some(FieldName::AgentId)
    } else if e.session_id@.len() == 0 {
        Some(FieldName::SessionId)
    } else if e.action_type@.len() == 0 {
        Some(FieldName::ActionType)
    } else if e.status@.len() == 0 {
        Some(FieldName::Status)
    } else if e.proof.event_hash@.len() == 0 {
        Some(FieldName::EventHash)
    } else if e.proof.signature@.len() == 0 {
        Some(FieldName::Signature)
    } else if e.proof.public_key@.len() == 0 {
        Some(FieldName::PublicKey)
    } else {
        None
    }
}

/// The exact validation outcome of an event: the first missing field wins,
/// then a digest mismatch, then the signature verdict.
pub open spec fn validate_verdict(e: FactoEvent) -> Result<(), VerifyError> {
    match first_missing_field(e) {
        Some(f) => Err(VerifyError::MissingField(f)),
        None => if !hash_matches(e) {
            Err(VerifyError::HashMismatch)
        } else {
            signature_verdict(e)
        },
    }
}

/// Validates one event: field presence, then digest, then signature.
pub fn validate_event(event: &FactoEvent) -> (r: Result<(), VerifyError>)
    ensures
        r == validate_verdict(*event),
{
    if event.facto_id.as_str().is_empty() {
        return Err(VerifyError::MissingField(FieldName::FactoId));
    }
    if event.agent_id.as_str().is_empty() {
        return Err(VerifyError::MissingField(FieldName::AgentId));
    }
    if event.session_id.as_str().is_empty() {
        return Err(VerifyError::MissingField(FieldName::SessionId));
    }
    if event.action_type.as_str().is_empty() {
        return Err(VerifyError::MissingField(FieldName::ActionType));
    }
    if event.status.as_str().is_empty() {
        return Err(VerifyError::MissingField(FieldName::Status));
    }
    if event.proof.event_hash.as_str().is_empty() {
        return Err(VerifyError::MissingField(FieldName::EventHash));
    }
    if event.proof.signature.as_str().is_empty() {
        return Err(VerifyError::MissingField(FieldName::Signature));
    }
    if event.proof.public_key.as_str().is_empty() {
        return Err(VerifyError::MissingField(FieldName::PublicKey));
    }
    match verify_hash(event) {
        Err(e) => return Err(e),
        Ok(()) => {},
    }
    verify_signature(event)
}

} // verus!
