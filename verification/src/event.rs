use vstd::prelude::*;

verus! {

/// A JSON document carried as its rendered text.
///
/// Payload fields are opaque to the gateway: it never reads inside them, it
/// only splices their text into the canonical form. The boundary hands over
/// text that is already in canonical JSON shape (sorted object keys, no
/// extra whitespace), so identical logical payloads arrive as identical text.
#[derive(Clone)]
pub struct JsonText {
    pub text: String,
}

/// Execution metadata attached to an event.
///
/// `temperature` is carried as the rendered JSON number text (for example
/// `0.7`), produced at the boundary, so that the canonical form can splice
/// it verbatim. `model_hash`, `max_tokens`, `sdk_language` and `tags` are
/// outside the canonical form and are never read by the admission logic.
#[derive(Clone)]
pub struct ExecutionMeta {
    pub model_id: Option<String>,
    pub model_hash: Option<String>,
    pub temperature: Option<String>,
    pub seed: Option<i64>,
    pub max_tokens: Option<i32>,
    pub tool_calls: Vec<JsonText>,
    pub sdk_version: String,
    pub sdk_language: String,
    pub tags: Vec<(String, String)>,
}

/// The integrity proof attached to an event: an Ed25519 signature and the
/// signer's public key (both base64), the declared digest of the canonical
/// form (64 hex characters), and a chain pointer whose content this gateway
/// does not verify.
#[derive(Clone)]
pub struct Proof {
    pub signature: String,
    pub public_key: String,
    pub prev_hash: String,
    pub event_hash: String,
}

/// One telemetry event submitted for ingestion.
#[derive(Clone)]
pub struct FactoEvent {
    pub facto_id: String,
    pub agent_id: String,
    pub session_id: String,
    pub parent_facto_id: Option<String>,
    pub action_type: String,
    pub status: String,
    pub input_data: JsonText,
    pub output_data: JsonText,
    pub execution_meta: ExecutionMeta,
    pub proof: Proof,
    pub started_at: i64,
    pub completed_at: i64,
}

} // verus!
