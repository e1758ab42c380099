//! The canonical form of an event: a deterministic byte encoding of a fixed
//! subset of its fields, with object keys in sorted order. The same bytes
//! are the input of both the digest check and the signature check.
//!
//! Covered fields: `action_type`, `agent_id`, `completed_at`, an
//! `execution_meta` object holding `model_id` (only if present),
//! `sdk_version`, `seed`, `temperature` (only if present) and `tool_calls`,
//! then `facto_id`, `input_data`, `output_data`, `parent_facto_id`,
//! `proof.prev_hash`, `session_id`, `started_at` and `status`. Everything
//! else — in particular `proof.signature`, `proof.public_key`,
//! `proof.event_hash`, `model_hash`, `max_tokens`, `sdk_language` and
//! `tags` — is deliberately outside the canonical form.

use vstd::prelude::*;
use vstd::string::StringSliceAdditionalSpecFns;
use vstd::utf8::encode_utf8;

use crate::event::{ExecutionMeta, FactoEvent, JsonText};
use crate::json::{
    dec_int, json_str_bytes, lit, push_dec_i64, push_json_str, push_lit,
};

verus! {

/// The bytes of an opaque payload, spliced verbatim.
pub open spec fn raw_json(t: JsonText) -> Seq<u8> {
    encode_utf8(t.text@)
}

/// An optional string field: a JSON string when present, `null` otherwise.
pub open spec fn opt_str_bytes(o: Option<String>) -> Seq<u8> {
    match o {
        Some(s) => json_str_bytes(s@),
        None => lit("null"),
    }
}

/// An optional integer field: decimal digits when present, `null` otherwise.
pub open spec fn opt_i64_bytes(o: Option<i64>) -> Seq<u8> {
    match o {
        Some(i) => dec_int(i as int),
        None => lit("null"),
    }
}

/// The comma-separated splice of the tool-call payloads.
pub open spec fn tool_calls_bytes(ts: Seq<JsonText>) -> Seq<u8>
    decreases ts.len(),
{
    if ts.len() == 0 {
        Seq::empty()
    } else if ts.len() == 1 {
        raw_json(ts[0])
    } else {
        tool_calls_bytes(ts.drop_last()) + lit(",") + raw_json(ts.last())
    }
}

/// The `execution_meta` entry of the canonical form, key included: only
/// `model_id`, `sdk_version`, `seed`, `temperature` and `tool_calls` are
/// covered, with `model_id` and `temperature` present only when set.
pub open spec fn meta_bytes(m: ExecutionMeta) -> Seq<u8> {
    lit("\"execution_meta\":{") + (match m.model_id {
        Some(mid) => lit("\"model_id\":") + json_str_bytes(mid@) + lit(","),
        None => Seq::<u8>::empty(),
    }) + lit("\"sdk_version\":") + json_str_bytes(m.sdk_version@) + lit(",\"seed\":")
        + opt_i64_bytes(m.seed) + (match m.temperature {
        Some(t) => lit(",\"temperature\":") + encode_utf8(t@),
        None => Seq::<u8>::empty(),
    }) + lit(",\"tool_calls\":[") + tool_calls_bytes(m.tool_calls@) + lit("]}")
}

/// The canonical form of an event, one JSON object with sorted keys and no
/// whitespace.
pub open spec fn canonical_spec(e: FactoEvent) -> Seq<u8> {
    lit("{\"action_type\":") + json_str_bytes(e.action_type@) + lit(",\"agent_id\":")
        + json_str_bytes(e.agent_id@) + lit(",\"completed_at\":") + dec_int(
        e.completed_at as int,
    ) + lit(",") + meta_bytes(e.execution_meta) + lit(",\"facto_id\":") + json_str_bytes(
        e.facto_id@,
    ) + lit(",\"input_data\":") + raw_json(e.input_data) + lit(",\"output_data\":") + raw_json(
        e.output_data,
    ) + lit(",\"parent_facto_id\":") + opt_str_bytes(e.parent_facto_id) + lit(",\"prev_hash\":")
        + json_str_bytes(e.proof.prev_hash@) + lit(",\"session_id\":") + json_str_bytes(
        e.session_id@,
    ) + lit(",\"started_at\":") + dec_int(e.started_at as int) + lit(",\"status\":")
        + json_str_bytes(e.status@) + lit("}")
}

/// Appends the comma-separated tool-call payloads.
fn push_tool_calls(out: &mut Vec<u8>, ts: &Vec<JsonText>)
    ensures
        final(out)@ == old(out)@ + tool_calls_bytes(ts@),
{
    let ghost pre = out@;
    let n = ts.len();
    let mut i: usize = 0;
    proof {
        assert(out@ =~= pre + tool_calls_bytes(ts@.take(0)));
    }
    while i < n
        invariant
            i <= n,
            n == ts@.len(),
            out@ == pre + tool_calls_bytes(ts@.take(i as int)),
        decreases n - i,
    {
        if i > 0 {
            push_lit(out, ",");
        }
        push_lit(out, ts[i].text.as_str());
        proof {
            let t = ts@.take(i + 1 as int);
            assert(t.drop_last() =~= ts@.take(i as int));
            assert(t.last() == ts@[i as int]);
            assert(out@ =~= pre + tool_calls_bytes(ts@.take(i + 1 as int)));
        }
        i = i + 1;
    }
    proof {
        assert(ts@.take(n as int) =~= ts@);
    }
}

/// Appends the covered part of the execution metadata.
fn push_meta(out: &mut Vec<u8>, m: &ExecutionMeta)
    ensures
        final(out)@ == old(out)@ + meta_bytes(*m),
{
    let ghost pre = out@;
    let ghost p_mid = match &m.model_id {
        Some(mid) => lit("\"model_id\":") + json_str_bytes(mid@) + lit(","),
        None => Seq::<u8>::empty(),
    };
    let ghost p_temp = match &m.temperature {
        Some(t) => lit(",\"temperature\":") + encode_utf8(t@),
        None => Seq::<u8>::empty(),
    };
    push_lit(out, "\"execution_meta\":{");
    if let Some(mid) = &m.model_id {
        push_lit(out, "\"model_id\":");
        push_json_str(out, mid.as_str());
        push_lit(out, ",");
    }
    proof {
        assert(out@ =~= pre + (lit("\"execution_meta\":{") + p_mid));
    }
    push_lit(out, "\"sdk_version\":");
    proof {
        assert(out@ =~= pre + (lit("\"execution_meta\":{") + p_mid + lit("\"sdk_version\":")));
    }
    push_json_str(out, m.sdk_version.as_str());
    proof {
        assert(out@ =~= pre + (lit("\"execution_meta\":{") + p_mid + lit("\"sdk_version\":")
            + json_str_bytes(m.sdk_version@)));
    }
    push_lit(out, ",\"seed\":");
    match &m.seed {
        Some(s) => push_dec_i64(out, *s),
        None => push_lit(out, "null"),
    }
    proof {
        assert(out@ =~= pre + (lit("\"execution_meta\":{") + p_mid + lit("\"sdk_version\":")
            + json_str_bytes(m.sdk_version@) + lit(",\"seed\":") + opt_i64_bytes(m.seed)));
    }
    if let Some(t) = &m.temperature {
        push_lit(out, ",\"temperature\":");
        push_lit(out, t.as_str());
    }
    proof {
        assert(out@ =~= pre + (lit("\"execution_meta\":{") + p_mid + lit("\"sdk_version\":")
            + json_str_bytes(m.sdk_version@) + lit(",\"seed\":") + opt_i64_bytes(m.seed) + p_temp));
    }
    push_lit(out, ",\"tool_calls\":[");
    push_tool_calls(out, &m.tool_calls);
    proof {
        assert(out@ =~= pre + (lit("\"execution_meta\":{") + p_mid + lit("\"sdk_version\":")
            + json_str_bytes(m.sdk_version@) + lit(",\"seed\":") + opt_i64_bytes(m.seed) + p_temp
            + lit(",\"tool_calls\":[") + tool_calls_bytes(m.tool_calls@)));
    }
    push_lit(out, "]}");
    proof {
        assert(out@ =~= pre + meta_bytes(*m));
    }
}

/// Builds the canonical form of an event.
#[verifier::rlimit(50)]
pub fn build_canonical_form(event: &FactoEvent) -> (r: Vec<u8>)
    ensures
        r@ == canonical_spec(*event),
{
    let mut out: Vec<u8> = Vec::new();
    push_lit(&mut out, "{\"action_type\":");
    push_json_str(&mut out, event.action_type.as_str());
    push_lit(&mut out, ",\"agent_id\":");
    push_json_str(&mut out, event.agent_id.as_str());
    push_lit(&mut out, ",\"completed_at\":");
    push_dec_i64(&mut out, event.completed_at);
    push_lit(&mut out, ",");
    push_meta(&mut out, &event.execution_meta);
    push_lit(&mut out, ",\"facto_id\":");
    push_json_str(&mut out, event.facto_id.as_str());
    push_lit(&mut out, ",\"input_data\":");
    push_lit(&mut out, event.input_data.text.as_str());
    push_lit(&mut out, ",\"output_data\":");
    push_lit(&mut out, event.output_data.text.as_str());
    push_lit(&mut out, ",\"parent_facto_id\":");
    match &event.parent_facto_id {
        Some(p) => push_json_str(&mut out, p.as_str()),
        None => push_lit(&mut out, "null"),
    }
    push_lit(&mut out, ",\"prev_hash\":");
    push_json_str(&mut out, event.proof.prev_hash.as_str());
    push_lit(&mut out, ",\"session_id\":");
    push_json_str(&mut out, event.session_id.as_str());
    push_lit(&mut out, ",\"started_at\":");
    push_dec_i64(&mut out, event.started_at);
    push_lit(&mut out, ",\"status\":");
    push_json_str(&mut out, event.status.as_str());
    push_lit(&mut out, "}");
    proof {
        assert(out@ =~= canonical_spec(*event));
    }
    out
}

} // verus!
