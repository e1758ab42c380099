use base64::Engine;
use ed25519_dalek::{Signer, SigningKey};
use sha3::Digest;

use facto_ingestion::canonical::build_canonical_form;
use facto_ingestion::crypto::{compute_event_hash, verify_signature};
use facto_ingestion::errors::{FieldName, ProofDefect, VerifyError};
use facto_ingestion::event::{ExecutionMeta, FactoEvent, JsonText, Proof};
use facto_ingestion::limiter::AppState;
use facto_ingestion::pipeline::{
    decide_single, finalize_batch, finalize_batch_unavailable, response_for_single, screen_events,
    split_verified,
};
use facto_ingestion::publisher::{
    stream_settings, subject_for, ConnEvent, ConnState, ConnectionManager,
};
use facto_ingestion::validate::validate_event;

fn jt(s: &str) -> JsonText {
    JsonText { text: s.to_string() }
}

fn base_event() -> FactoEvent {
    FactoEvent {
        facto_id: "tr-test-123".to_string(),
        agent_id: "agent-test".to_string(),
        session_id: "session-test".to_string(),
        parent_facto_id: None,
        action_type: "llm_call".to_string(),
        status: "success".to_string(),
        input_data: jt(r#"{"prompt":"test"}"#),
        output_data: jt(r#"{"response":"test"}"#),
        execution_meta: ExecutionMeta {
            model_id: Some("gpt-4".to_string()),
            model_hash: None,
            temperature: Some("0.7".to_string()),
            seed: None,
            max_tokens: Some(1000),
            tool_calls: vec![],
            sdk_version: "0.1.0".to_string(),
            sdk_language: "python".to_string(),
            tags: Vec::new(),
        },
        proof: Proof {
            signature: "".to_string(),
            public_key: "".to_string(),
            prev_hash: "0".repeat(64),
            event_hash: "".to_string(),
        },
        started_at: 1000000000,
        completed_at: 1000000001,
    }
}

/// Computes the digest and signature of the event's canonical form and
/// embeds them, as a submitting client would.
fn sign_event(mut event: FactoEvent, key: &SigningKey) -> FactoEvent {
    let std_b64 = base64::engine::general_purpose::STANDARD;
    event.proof.public_key = std_b64.encode(key.verifying_key().to_bytes());
    let canonical = build_canonical_form(&event);
    let mut hasher = sha3::Sha3_256::new();
    hasher.update(&canonical);
    event.proof.event_hash = hex::encode(hasher.finalize());
    event.proof.signature = std_b64.encode(key.sign(&canonical).to_bytes());
    event
}

fn test_key() -> SigningKey {
    SigningKey::from_bytes(&[7u8; 32])
}

#[test]
fn test_canonical_form() {
    let event = base_event();
    let canonical = String::from_utf8(build_canonical_form(&event)).unwrap();
    assert!(canonical.contains("action_type"));
    assert!(canonical.contains("agent_id"));
}

#[test]
fn test_compute_hash() {
    let data = r#"{"test":"data"}"#;
    let hash = compute_event_hash(data.as_bytes());
    assert_eq!(hash.len(), 64); // SHA3-256 produces 32 bytes = 64 hex chars
}

#[test]
fn canonical_matches_reference_serializer() {
    let mut event = base_event();
    event.parent_facto_id = Some("tr-parent \"quoted\"\n".to_string());
    event.execution_meta.seed = Some(-42);
    event.execution_meta.tool_calls = vec![jt(r#"{"name":"search"}"#), jt("[1,2]")];
    event.started_at = -5;

    let mut meta = serde_json::Map::new();
    meta.insert(
        "model_id".to_string(),
        serde_json::Value::String("gpt-4".to_string()),
    );
    meta.insert(
        "sdk_version".to_string(),
        serde_json::Value::String("0.1.0".to_string()),
    );
    meta.insert("seed".to_string(), serde_json::Value::from(-42i64));
    meta.insert("temperature".to_string(), serde_json::Value::from(0.7f64));
    meta.insert(
        "tool_calls".to_string(),
        serde_json::Value::Array(vec![
            serde_json::from_str(r#"{"name":"search"}"#).unwrap(),
            serde_json::from_str("[1,2]").unwrap(),
        ]),
    );

    let mut doc = serde_json::Map::new();
    doc.insert(
        "action_type".to_string(),
        serde_json::Value::String("llm_call".to_string()),
    );
    doc.insert(
        "agent_id".to_string(),
        serde_json::Value::String("agent-test".to_string()),
    );
    doc.insert("completed_at".to_string(), serde_json::Value::from(1000000001i64));
    doc.insert("execution_meta".to_string(), serde_json::Value::Object(meta));
    doc.insert(
        "facto_id".to_string(),
        serde_json::Value::String("tr-test-123".to_string()),
    );
    doc.insert(
        "input_data".to_string(),
        serde_json::from_str(r#"{"prompt":"test"}"#).unwrap(),
    );
    doc.insert(
        "output_data".to_string(),
        serde_json::from_str(r#"{"response":"test"}"#).unwrap(),
    );
    doc.insert(
        "parent_facto_id".to_string(),
        serde_json::Value::String("tr-parent \"quoted\"\n".to_string()),
    );
    doc.insert(
        "prev_hash".to_string(),
        serde_json::Value::String("0".repeat(64)),
    );
    doc.insert(
        "session_id".to_string(),
        serde_json::Value::String("session-test".to_string()),
    );
    doc.insert("started_at".to_string(), serde_json::Value::from(-5i64));
    doc.insert(
        "status".to_string(),
        serde_json::Value::String("success".to_string()),
    );
    let expected = serde_json::to_string(&serde_json::Value::Object(doc)).unwrap();

    let canonical = String::from_utf8(build_canonical_form(&event)).unwrap();
    assert_eq!(canonical, expected);
}

#[test]
fn canonical_deterministic_across_field_order() {
    // The same logical payload arriving with its fields in either order
    // reaches the gateway as identical canonical text.
    let a: serde_json::Value = serde_json::from_str(r#"{"a":1,"b":"x"}"#).unwrap();
    let b: serde_json::Value = serde_json::from_str(r#"{"b":"x","a":1}"#).unwrap();
    let ta = serde_json::to_string(&a).unwrap();
    let tb = serde_json::to_string(&b).unwrap();
    assert_eq!(ta, tb);

    let mut e1 = base_event();
    e1.input_data = jt(&ta);
    let mut e2 = base_event();
    e2.input_data = jt(&tb);
    assert_eq!(build_canonical_form(&e1), build_canonical_form(&e2));
}

#[test]
fn hash_format_and_idempotence() {
    let canonical = build_canonical_form(&base_event());
    let h1 = compute_event_hash(&canonical);
    let h2 = compute_event_hash(&canonical);
    assert_eq!(h1, h2);
    assert_eq!(h1.len(), 64);
    assert!(h1
        .chars()
        .all(|c| c.is_ascii_digit() || ('a'..='f').contains(&c)));
    // And it is a real digest, not an echo of the input.
    let empty = compute_event_hash(b"");
    assert_eq!(empty.len(), 64);
    assert_ne!(h1, empty);
}

#[test]
fn signed_event_is_accepted() {
    let event = sign_event(base_event(), &test_key());
    assert_eq!(validate_event(&event), Ok(()));
}

#[test]
fn tamper_covered_field_rejected() {
    let key = test_key();
    let mut event = sign_event(base_event(), &key);
    event.status = "failure".to_string();
    assert_eq!(validate_event(&event), Err(VerifyError::HashMismatch));

    // Refreshing the digest without re-signing still trips the signature.
    let canonical = build_canonical_form(&event);
    event.proof.event_hash = compute_event_hash(&canonical);
    assert_eq!(validate_event(&event), Err(VerifyError::InvalidSignature));
}

#[test]
fn tamper_blind_spot_ignored() {
    let key = test_key();
    let mut event = sign_event(base_event(), &key);
    event.execution_meta.tags = vec![("k".to_string(), "v".to_string())];
    event.execution_meta.sdk_language = "rust".to_string();
    event.execution_meta.max_tokens = Some(9);
    event.execution_meta.model_hash = Some("deadbeef".to_string());
    assert_eq!(validate_event(&event), Ok(()));
}

#[test]
fn rate_limit_per_agent_quota() {
    let state = AppState::new(3);
    assert_eq!(state.rate_limit_per_agent, 3);
    for _ in 0..3 {
        assert!(state.check_rate_limit("agent-a"));
    }
    assert!(!state.check_rate_limit("agent-a"));
    // An unrelated agent has its own bucket.
    assert!(state.check_rate_limit("agent-b"));
}

#[test]
fn zero_quota_falls_back_to_default() {
    let state = AppState::new(0);
    assert_eq!(state.rate_limit_per_agent, 10000);
    assert!(state.check_rate_limit("agent-a"));
}

#[test]
fn field_check_precedence() {
    let key = test_key();
    let mut event = sign_event(base_event(), &key);
    event.session_id = String::new();
    event.proof.signature = "not base64 at all".to_string();
    let r = validate_event(&event);
    assert_eq!(r, Err(VerifyError::MissingField(FieldName::SessionId)));
    assert_eq!(r.unwrap_err().reason_text(), "Missing session_id");
}

#[test]
fn missing_field_order_is_fixed() {
    let mut event = base_event();
    event.facto_id = String::new();
    event.agent_id = String::new();
    assert_eq!(
        validate_event(&event),
        Err(VerifyError::MissingField(FieldName::FactoId))
    );
}

#[test]
fn malformed_proof_variants() {
    let key = test_key();
    let std_b64 = base64::engine::general_purpose::STANDARD;

    let mut event = sign_event(base_event(), &key);
    event.proof.public_key = "%%% not base64 %%%".to_string();
    assert_eq!(
        validate_event(&event),
        Err(VerifyError::MalformedProof(ProofDefect::Encoding))
    );

    let mut event = sign_event(base_event(), &key);
    event.proof.public_key = std_b64.encode([1u8; 5]);
    assert_eq!(
        validate_event(&event),
        Err(VerifyError::MalformedProof(ProofDefect::Length))
    );

    let mut event = sign_event(base_event(), &key);
    event.proof.signature = std_b64.encode([1u8; 10]);
    assert_eq!(
        validate_event(&event),
        Err(VerifyError::MalformedProof(ProofDefect::Length))
    );

    // 32 bytes that are not a valid curve point are rejected as malformed.
    let mut invalid_key = None;
    for b in 0..=255u8 {
        let mut candidate = [0u8; 32];
        candidate[0] = b;
        if ed25519_dalek::VerifyingKey::from_bytes(&candidate).is_err() {
            invalid_key = Some(candidate);
            break;
        }
    }
    let mut event = sign_event(base_event(), &key);
    event.proof.public_key = std_b64.encode(invalid_key.unwrap());
    assert_eq!(
        verify_signature(&event),
        Err(VerifyError::MalformedProof(ProofDefect::Encoding))
    );
}

#[test]
fn batch_partial_failure_accounting() {
    let key = test_key();
    let state = AppState::new(10000);
    let mut events = Vec::new();
    for i in 0..3 {
        let mut e = base_event();
        e.facto_id = format!("tr-ok-{i}");
        events.push(sign_event(e, &key));
    }
    let mut bad_hash = sign_event(base_event(), &key);
    bad_hash.facto_id = "tr-bad-hash".to_string();
    events.push(bad_hash); // facto_id changed after signing: digest mismatch
    let mut missing = base_event();
    missing.status = String::new();
    missing.facto_id = "tr-missing".to_string();
    events.push(missing);

    let verdicts = screen_events(&state, &events);
    assert_eq!(verdicts.len(), 5);
    let (accepted, rejected) = split_verified(events, &verdicts);
    assert_eq!(accepted.len(), 3);
    assert_eq!(rejected.len(), 2);

    // One of the three verified events fails its publish attempt.
    let publish_ok = vec![true, false, true];
    let response = finalize_batch(accepted, &publish_ok, rejected);
    assert_eq!(response.accepted_count, 2);
    assert_eq!(response.rejected_count, 3);
    assert_eq!(response.rejected.len(), 3);
    assert_eq!(response.rejected[2].facto_id, "tr-ok-1");
    assert_eq!(response.rejected[2].reason, "Failed to queue event");
}

#[test]
fn broker_unavailable_single() {
    let event = sign_event(base_event(), &test_key());
    let verdict = decide_single(&event, true, false);
    assert_eq!(verdict, Err(VerifyError::BrokerUnavailable));
    let response = response_for_single(event.facto_id.clone(), verdict);
    assert!(!response.accepted);
    assert_eq!(response.reason.as_deref(), Some("Service not ready"));
}

#[test]
fn broker_unavailable_batch() {
    let key = test_key();
    let state = AppState::new(10000);
    let mut ok = sign_event(base_event(), &key);
    ok.facto_id = "tr-verified".to_string();
    let ok = sign_event(ok, &key);
    let mut bad = sign_event(base_event(), &key);
    bad.facto_id = "tr-unverified".to_string();
    bad.proof.event_hash = "f".repeat(64);
    let events = vec![ok, bad];

    // Verification still runs for every event with the broker down.
    let verdicts = screen_events(&state, &events);
    assert_eq!(verdicts[0], Ok(()));
    assert_eq!(verdicts[1], Err(VerifyError::HashMismatch));

    let (accepted, rejected) = split_verified(events, &verdicts);
    let response = finalize_batch_unavailable(accepted, rejected);
    assert_eq!(response.accepted_count, 0);
    assert_eq!(response.rejected_count, 2);
    assert_eq!(response.rejected[1].facto_id, "tr-verified");
    assert_eq!(response.rejected[1].reason, "Service not ready");
}

#[test]
fn rate_limited_single_rejection() {
    let event = sign_event(base_event(), &test_key());
    let verdict = decide_single(&event, false, true);
    assert_eq!(verdict, Err(VerifyError::RateLimitExceeded));
    let response = response_for_single(event.facto_id.clone(), verdict);
    assert!(!response.accepted);
    assert_eq!(response.reason.as_deref(), Some("Rate limit exceeded"));
}

#[test]
fn end_to_end_accept() {
    let key = test_key();
    let mut event = base_event();
    event.facto_id = "tr-1".to_string();
    event.agent_id = "a1".to_string();
    let event = sign_event(event, &key);

    let state = AppState::new(0);
    let verdict = facto_ingestion::pipeline::admit_single(&state, &event, true);
    assert_eq!(verdict, Ok(()));
    assert_eq!(subject_for(&event.agent_id), "facto.events.a1");
    let response = response_for_single(event.facto_id.clone(), verdict);
    assert!(response.accepted);
    assert_eq!(response.facto_id, "tr-1");
    assert_eq!(response.reason, None);
}

#[test]
fn stream_provisioning_is_fixed() {
    let s = stream_settings();
    assert_eq!(s.name, "FACTO_EVENTS");
    assert_eq!(s.subjects_pattern, "facto.events.>");
    assert!(s.work_queue_retention);
    assert!(s.file_storage);
    assert_eq!(s.max_messages, 10_000_000);
    assert_eq!(s.max_bytes, 10 * 1024 * 1024 * 1024);
}

#[test]
fn connection_lifecycle() {
    let mut conn = ConnectionManager::new();
    assert_eq!(conn.state, ConnState::Disconnected);
    assert!(!conn.is_live());

    conn.on_event(ConnEvent::AttemptStarted);
    assert_eq!(conn.state, ConnState::Connecting);
    conn.on_event(ConnEvent::ConnectFailed);
    assert_eq!(conn.state, ConnState::Disconnected);

    conn.on_event(ConnEvent::AttemptStarted);
    conn.on_event(ConnEvent::ConnectSucceeded);
    assert_eq!(conn.state, ConnState::Connected);
    assert!(conn.is_live());
    conn.on_event(ConnEvent::LivenessConfirmed);
    assert!(conn.is_live());
    conn.on_event(ConnEvent::LivenessLost);
    assert_eq!(conn.state, ConnState::Disconnected);

    // Observations that do not apply to the current state change nothing.
    conn.on_event(ConnEvent::ConnectSucceeded);
    assert_eq!(conn.state, ConnState::Disconnected);
}

#[test]
fn canonical_escapes_strings() {
    let mut event = base_event();
    event.status = "line\nbreak \"q\" \\ tab\t".to_string();
    let canonical = String::from_utf8(build_canonical_form(&event)).unwrap();
    assert!(canonical.contains(r#"line\nbreak \"q\" \\ tab\t"#));
    let expected =
        serde_json::to_string(&serde_json::Value::String(event.status.clone())).unwrap();
    assert!(canonical.contains(&expected));
}

#[test]
fn boundary_reports() {
    let h = facto_ingestion::pipeline::HealthResponse::healthy("1.2.3".to_string());
    assert_eq!(h.status, "healthy");
    assert_eq!(h.version, "1.2.3");
    let not_ready = facto_ingestion::pipeline::ReadyResponse::for_liveness(false);
    assert!(!not_ready.ready);
    assert!(!not_ready.nats_connected);
    let ready = facto_ingestion::pipeline::ReadyResponse::for_liveness(true);
    assert!(ready.ready);
    assert!(ready.nats_connected);
}

#[test]
fn reason_texts_match_boundary_wording() {
    assert_eq!(
        VerifyError::MissingField(FieldName::FactoId).reason_text(),
        "Missing facto_id"
    );
    assert_eq!(VerifyError::HashMismatch.reason_text(), "Hash mismatch");
    assert_eq!(
        VerifyError::MalformedProof(ProofDefect::Length).reason_text(),
        "Invalid proof length"
    );
    assert_eq!(
        VerifyError::MalformedProof(ProofDefect::Encoding).reason_text(),
        "Invalid proof encoding"
    );
    assert_eq!(
        VerifyError::InvalidSignature.reason_text(),
        "Signature verification failed"
    );
    assert_eq!(
        VerifyError::RateLimitExceeded.reason_text(),
        "Rate limit exceeded"
    );
    assert_eq!(
        VerifyError::BrokerUnavailable.reason_text(),
        "Service not ready"
    );
    assert_eq!(
        VerifyError::PublishFailed.reason_text(),
        "Failed to queue event"
    );
}
