//! The general properties of the gateway, stated and proved over the same
//! spec functions the executable contracts use.

use vstd::prelude::*;

use crate::canonical::canonical_spec;
use crate::crypto::hash_hex;
use crate::errors::{FieldName, VerifyError};
use crate::event::FactoEvent;
use crate::pipeline::{
    accepted_of, count_oks, count_true, demoted_of, rejections_of, single_verdict,
};
use crate::pipeline::lemma_demoted_len;
use crate::pipeline::lemma_split_lens;
use crate::validate::{first_missing_field, validate_verdict};

verus! {

/// Value equality of exactly the fields the canonical form covers. The
/// blind-spot fields — `tags`, `sdk_language`, `max_tokens`, `model_hash` —
/// and the proof's signature, key and declared digest are left free.
pub open spec fn covered_eq(e1: FactoEvent, e2: FactoEvent) -> bool {
    &&& e1.facto_id == e2.facto_id
    &&& e1.agent_id == e2.agent_id
    &&& e1.session_id == e2.session_id
    &&& e1.parent_facto_id == e2.parent_facto_id
    &&& e1.action_type == e2.action_type
    &&& e1.status == e2.status
    &&& e1.input_data.text == e2.input_data.text
    &&& e1.output_data.text == e2.output_data.text
    &&& e1.started_at == e2.started_at
    &&& e1.completed_at == e2.completed_at
    &&& e1.proof.prev_hash == e2.proof.prev_hash
    &&& e1.execution_meta.model_id == e2.execution_meta.model_id
    &&& e1.execution_meta.sdk_version == e2.execution_meta.sdk_version
    &&& e1.execution_meta.seed == e2.execution_meta.seed
    &&& e1.execution_meta.temperature == e2.execution_meta.temperature
    &&& e1.execution_meta.tool_calls@ == e2.execution_meta.tool_calls@
}

/// Determinism of canonicalization: the canonical form is a function of the
/// covered fields alone. Two events carrying the same covered content —
/// however their wire representations ordered the fields — canonicalize to
/// byte-identical output.
pub proof fn lemma_canonical_deterministic(e1: FactoEvent, e2: FactoEvent)
    requires
        covered_eq(e1, e2),
    ensures
        canonical_spec(e1) == canonical_spec(e2),
{
    assert(e1.execution_meta.tool_calls@ == e2.execution_meta.tool_calls@);
}

/// The documented tamper blind spot: mutating only `tags`, `sdk_language`,
/// `max_tokens` or `model_hash` after signing changes neither the canonical
/// form, nor the digest comparison, nor the signature verdict — the event's
/// validation outcome is unchanged.
pub proof fn lemma_blind_spot_mutation(e1: FactoEvent, e2: FactoEvent)
    requires
        covered_eq(e1, e2),
        e1.proof == e2.proof,
    ensures
        canonical_spec(e1) == canonical_spec(e2),
        validate_verdict(e1) == validate_verdict(e2),
{
    lemma_canonical_deterministic(e1, e2);
    assert(first_missing_field(e1) == first_missing_field(e2));
}

/// Tamper detection for covered fields, up to digest collision: starting
/// from an event that validates, a mutation that leaves the proof untouched
/// but changes the digest of the canonical form is rejected as a
/// `HashMismatch`. (A mutation whose canonical form collides under SHA3-256
/// is beyond what any digest check can see.)
pub proof fn lemma_tamper_covered_field(e1: FactoEvent, e2: FactoEvent)
    requires
        validate_verdict(e1) is Ok,
        e1.proof == e2.proof,
        first_missing_field(e2) is None,
        hash_hex(canonical_spec(e2)) != hash_hex(canonical_spec(e1)),
    ensures
        validate_verdict(e2) == Err::<(), VerifyError>(VerifyError::HashMismatch),
{
}

/// Idempotence of the digest: recomputing over unchanged canonical bytes
/// yields the same 64 hex characters.
pub proof fn lemma_hash_idempotent(data1: Seq<u8>, data2: Seq<u8>)
    requires
        data1 == data2,
    ensures
        hash_hex(data1) == hash_hex(data2),
{
}

/// Field-check precedence: an event with a missing required field is
/// rejected as missing that field, whatever its digest and signature look
/// like — never as `InvalidSignature`.
pub proof fn lemma_field_check_precedence(e: FactoEvent, f: FieldName)
    requires
        first_missing_field(e) == Some(f),
    ensures
        validate_verdict(e) == Err::<(), VerifyError>(VerifyError::MissingField(f)),
{
}

/// Verdicts admit at most as many events as were screened.
pub proof fn lemma_count_oks_bounds(vs: Seq<Result<(), VerifyError>>)
    ensures
        0 <= count_oks(vs) <= vs.len(),
    decreases vs.len(),
{
    if vs.len() > 0 {
        lemma_count_oks_bounds(vs.drop_last());
    }
}

/// Publishes succeed at most as often as they were attempted.
pub proof fn lemma_count_true_bounds(bs: Seq<bool>)
    ensures
        0 <= count_true(bs) <= bs.len(),
    decreases bs.len(),
{
    if bs.len() > 0 {
        lemma_count_true_bounds(bs.drop_last());
    }
}

/// Batch partial failure accounting: for a batch of N events of which M
/// fail verification and P of the remaining N − M fail publish, exactly
/// N − M − P publishes succeed, and the rejection list — validation
/// rejections plus demotions — has exactly M + P entries.
pub proof fn lemma_batch_partial_failure(
    events: Seq<FactoEvent>,
    verdicts: Seq<Result<(), VerifyError>>,
    publish_ok: Seq<bool>,
)
    requires
        verdicts.len() == events.len(),
        publish_ok.len() == count_oks(verdicts),
    ensures
        count_true(publish_ok) == events.len() - (events.len() - count_oks(verdicts)) - (
        publish_ok.len() - count_true(publish_ok)),
        rejections_of(events, verdicts).len() + demoted_of(
            accepted_of(events, verdicts),
            publish_ok,
        ).len() == (events.len() - count_oks(verdicts)) + (publish_ok.len() - count_true(
            publish_ok,
        )),
{
    lemma_count_oks_bounds(verdicts);
    lemma_count_true_bounds(publish_ok);
    lemma_split_lens(events, verdicts);
    lemma_demoted_len(accepted_of(events, verdicts), publish_ok);
}

/// With no live connection the single-event path never accepts: an event
/// that passes every check is still turned away as unavailable, before any
/// publish is attempted.
pub proof fn lemma_single_needs_live_broker(e: FactoEvent, rate_ok: bool)
    ensures
        !(single_verdict(e, rate_ok, false) is Ok),
        rate_ok && validate_verdict(e) is Ok ==> single_verdict(e, rate_ok, false) == Err::<
            (),
            VerifyError,
        >(VerifyError::BrokerUnavailable),
{
}

} // verus!
