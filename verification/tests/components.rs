use tenzro_edge_core::agents::{
    descriptor_from_agent, descriptor_from_identity, descriptor_from_skill, descriptors_from_agents,
    descriptors_from_skills, invocation_body, json_to_did, map_sdk_invoker, map_sdk_registry,
    reply_from_delivery, AgentCall, AgentInvokerError, AgentRecord, AgentRegistryError,
    DeliveryReceipt, IdentityRecord, MetaValue, SkillRecord, TenzroAgentInvoker,
    TenzroAgentRegistry,
};
use tenzro_edge_core::attester::{
    attestation_from_signature, check_kind, decode_proof, encode_proof, map_sdk as map_attester,
    receipt_digest, verification_outcome, verification_request, Attestation, AttesterError,
    TenzroAttester,
};
use tenzro_edge_core::broker::{
    deadline_outcome, map_sdk as map_broker, offer_deadline, parse_poster, poll_step, status_str,
    task_posting, PollStep, TenzroBroker, WorkBrokerError, WorkOffer, WorkOutcome,
};
use tenzro_edge_core::client::TenzroHandle;
use tenzro_edge_core::discovery::{
    announcement_from_provider, announcements, discovery_step, map_sdk as map_discovery,
    peer_id_from_libp2p, DiscoveryError, DiscoveryStep, ProviderRecord, TenzroDiscovery,
};
use tenzro_edge_core::error::TenzroEdgeError;
use tenzro_edge_core::inference::{
    can_serve, completion_request, completion_response, map_sdk as map_inference, InferRequest,
    InferResponse, RemoteInferenceError, TenzroRemoteInference,
};
use tenzro_edge_core::model_source::{
    cache_hit, cached_file_name, check_uri, fetched_model, map_sdk as map_model, uri_digest, ModelSourceError,
    TenzroModelSource,
};
use tenzro_edge_core::receipt_sink::{rejected_receipt, sign_message_params, transient_from_rpc, SinkError, write_failed, flush_step, FlushAction, ReplayQueue};
use tenzro_edge_core::rpc::{authorization_header, interpret_reply, request_body, select_htu, RpcReply};
use tenzro_edge_core::sdk::SdkFailure;
use tenzro_edge_core::settlement::{
    amount_to_u64, channel_terms, map_sdk as map_settlement, payment_terms, settlement_receipt,
    Amount, ChannelId, TenzroWorkSettlement, WorkSettlementError,
};
use tenzro_edge_core::span::Span;
use tenzro_edge_core::storage::{hex_to_32, head_metadata, map_sdk as map_storage, published_metadata, StorageError, TenzroStorage};

fn handle() -> TenzroHandle {
    let cfg = tenzro_sdk::config::SdkConfig {
        endpoint: "http://127.0.0.1:9".to_string(),
        timeout_ms: 1000,
        max_retries: 0,
        api_key: None,
        chain_id: 1,
    };
    let client = futures::executor::block_on(tenzro_sdk::TenzroClient::connect(cfg)).expect("client");
    TenzroHandle::from_client(client, "http://127.0.0.1:9".to_string())
}

fn s(x: &str) -> String {
    x.to_string()
}

#[test]
fn sdk_debug_text_matches_derived_debug() {
    let cases = vec![
        (SdkFailure::ConnectionError(s("a\"b")), tenzro_sdk::error::SdkError::ConnectionError(s("a\"b"))),
        (SdkFailure::NotFound(s("x\ny")), tenzro_sdk::error::SdkError::NotFound(s("x\ny"))),
        (SdkFailure::SerializationError, tenzro_sdk::error::SdkError::SerializationError),
        (SdkFailure::Timeout, tenzro_sdk::error::SdkError::Timeout),
        (
            SdkFailure::InsufficientFunds { required: 5, available: 3 },
            tenzro_sdk::error::SdkError::InsufficientFunds { required: 5, available: 3 },
        ),
        (SdkFailure::TransactionFailed(s("é")), tenzro_sdk::error::SdkError::TransactionFailed(s("é"))),
        (SdkFailure::WalletError(s("w")), tenzro_sdk::error::SdkError::WalletError(s("w"))),
    ];
    for (mine, theirs) in cases {
        assert_eq!(mine.debug_text(), format!("{theirs:?}"));
    }
    assert_eq!(SdkFailure::Timeout.debug_text(), "Timeout");
    assert_eq!(SdkFailure::AgentError(s("q")).debug_text(), "AgentError(\"q\")");
}

#[test]
fn attester_maps_sdk_failures() {
    assert!(matches!(map_attester(SdkFailure::ConnectionError(s("down"))), AttesterError::Transient(m) if m == "down"));
    assert!(matches!(map_attester(SdkFailure::RpcError(s("rpc"))), AttesterError::Transient(m) if m == "rpc"));
    assert!(matches!(map_attester(SdkFailure::Timeout), AttesterError::Transient(m) if m == "timeout"));
    assert!(matches!(map_attester(SdkFailure::AuthenticationError(s("no"))), AttesterError::Failed(m) if m == "auth: no"));
    assert!(matches!(map_attester(SdkFailure::NotFound(s("k"))), AttesterError::Failed(m) if m == "NotFound(\"k\")"));
}

#[test]
fn attestation_proof_and_kind() {
    let digest = receipt_digest(b"{\"step\":1}");
    assert_eq!(digest, *blake3::hash(b"{\"step\":1}").as_bytes());
    let att = attestation_from_signature(digest, "ab\"cd", "01ff");
    assert_eq!(att.kind, "tenzro");
    assert_eq!(att.digest, digest);
    assert_eq!(String::from_utf8(att.proof.clone()).unwrap(), r#"{"signature":"ab\"cd","public_key":"01ff"}"#);
    assert_eq!(encode_proof("s", "p"), br#"{"signature":"s","public_key":"p"}"#.to_vec());
    assert!(check_kind(&att).is_ok());
    let other = Attestation { kind: s("minima"), digest, proof: vec![] };
    assert!(matches!(check_kind(&other), Err(AttesterError::Failed(m)) if m == "kind mismatch: expected 'tenzro', got 'minima'"));
    assert!(verification_outcome(true).is_ok());
    assert!(matches!(verification_outcome(false), Err(AttesterError::Invalid)));
}

#[test]
fn attester_requires_signing_key() {
    let h = handle();
    let a = TenzroAttester::new(s("att-1"), h.clone(), Some(s("deadbeef"))).expect("attester");
    assert_eq!(a.id(), "att-1");
    assert_eq!(a.private_key_hex(), "deadbeef");
    assert!(matches!(TenzroAttester::new(s("att-1"), h, None),
        Err(TenzroEdgeError::Config(m)) if m == "TENZRO_SIGNING_KEY is required for TenzroAttester"));
}

#[test]
fn broker_maps_sdk_failures() {
    assert!(matches!(map_broker(SdkFailure::ConnectionError(s("c"))), WorkBrokerError::Unreachable(m) if m == "c"));
    assert!(matches!(map_broker(SdkFailure::RpcError(s("r"))), WorkBrokerError::Unreachable(m) if m == "r"));
    assert!(matches!(map_broker(SdkFailure::Timeout), WorkBrokerError::Transient(m) if m == "timeout"));
    assert!(matches!(map_broker(SdkFailure::InsufficientFunds { required: 1000, available: 7 }),
        WorkBrokerError::Failed(m) if m == "insufficient funds: required 1000, available 7"));
    assert!(matches!(map_broker(SdkFailure::SerializationError), WorkBrokerError::Failed(m) if m == "SerializationError"));
}

#[test]
fn poster_addresses() {
    let full = "0x".to_string() + &"ab".repeat(32);
    assert_eq!(parse_poster(&full).unwrap(), [0xab; 32]);
    assert_eq!(parse_poster(&"CD".repeat(32)).unwrap(), [0xcd; 32]);
    let evm = "11".repeat(20);
    let mut expected = [0u8; 32];
    expected[..20].copy_from_slice(&[0x11; 20]);
    assert_eq!(parse_poster(&evm).unwrap(), expected);
    assert!(matches!(parse_poster("0x1234"), Err(WorkBrokerError::Failed(m)) if m == "invalid poster address: 0x1234"));
    assert!(parse_poster(&"zz".repeat(32)).is_err());
}

#[test]
fn broker_settings() {
    let b = TenzroBroker::new(handle(), &"ab".repeat(32)).ok().expect("broker");
    assert_eq!(b.poll_interval().secs, 2);
    assert_eq!(b.default_deadline().secs, 300);
    let b = b.with_poll_interval(Span { secs: 0, nanos: 500_000_000 }).with_default_deadline(Span { secs: 10, nanos: 0 });
    assert_eq!(b.poll_interval().nanos, 500_000_000);
    assert_eq!(b.default_deadline().secs, 10);
    assert_eq!(b.poster(), [0xab; 32]);
    assert!(TenzroBroker::new(handle(), "nope").is_err());
}

#[test]
fn posting_for_offer() {
    let offer = WorkOffer { work_type: s("embed"), request: b"hello".to_vec(), max_price: None, deadline_secs: None };
    let p = task_posting(&offer);
    assert_eq!(p.title, "furcate:embed");
    assert_eq!(p.description, "Posted by furcate WorkBroker (tenzro-edge)");
    assert_eq!(p.task_type, "embed");
    assert_eq!(p.max_price, u128::MAX);
    assert_eq!(p.input_b64, "aGVsbG8=");
    let offer = WorkOffer { work_type: s("x"), request: vec![0xfb, 0xff], max_price: Some(42), deadline_secs: Some(9) };
    let p = task_posting(&offer);
    assert_eq!(p.max_price, 42);
    assert_eq!(p.input_b64, "+/8=");
}

#[test]
fn deadlines() {
    let d = offer_deadline(Some(9), Span { secs: 300, nanos: 0 });
    assert_eq!((d.secs, d.nanos), (9, 0));
    let d = offer_deadline(None, Span { secs: 300, nanos: 0 });
    assert_eq!((d.secs, d.nanos), (300, 0));
    let deadline = Span { secs: 300, nanos: 0 };
    assert!(deadline_outcome(&Span { secs: 300, nanos: 0 }, &deadline, "t1").is_none());
    match deadline_outcome(&Span { secs: 300, nanos: 1 }, &deadline, "t1") {
        Some(WorkOutcome::Failed { reason }) => assert_eq!(reason, "deadline 300s exceeded for task t1"),
        other => panic!("unexpected {other:?}"),
    }
    match deadline_outcome(&Span { secs: 2, nanos: 0 }, &Span { secs: 1, nanos: 500_000_000 }, "t2") {
        Some(WorkOutcome::Failed { reason }) => assert_eq!(reason, "deadline 1.5s exceeded for task t2"),
        other => panic!("unexpected {other:?}"),
    }
}

#[test]
fn polled_task_statuses() {
    assert_eq!(status_str(Some("COMPLETED")), "completed");
    assert_eq!(status_str(None), "");
    match poll_step("t", "completed", Some(s("aGVsbG8=")), Some(s("agent-7"))) {
        PollStep::Done(Ok(WorkOutcome::Completed { response, executor })) => {
            assert_eq!(response, b"hello".to_vec());
            assert_eq!(executor.0, *blake3::hash(b"agent-7").as_bytes());
        }
        other => panic!("unexpected {other:?}"),
    }
    match poll_step("t", "completed", None, None) {
        PollStep::Done(Ok(WorkOutcome::Completed { response, executor })) => {
            assert!(response.is_empty());
            assert_eq!(executor.0, [0u8; 32]);
        }
        other => panic!("unexpected {other:?}"),
    }
    match poll_step("t9", "completed", Some(s("!!!!")), None) {
        PollStep::Done(Err(WorkBrokerError::Failed(m))) => {
            assert_eq!(m, "task t9 output is not valid base64: Invalid symbol 33, offset 0.")
        }
        other => panic!("unexpected {other:?}"),
    }
    assert!(matches!(poll_step("t", "completed", Some(s("aGVsbG8")), None), PollStep::Done(Err(_))));
    assert!(matches!(poll_step("t", "failed", None, None),
        PollStep::Done(Ok(WorkOutcome::Failed { reason })) if reason == "task t failed"));
    assert!(matches!(poll_step("t", "cancelled", None, None),
        PollStep::Done(Ok(WorkOutcome::Refused { reason })) if reason == "task t cancelled"));
    assert!(matches!(poll_step("t", "running", None, None), PollStep::Pending));
    assert!(matches!(poll_step("t", "", None, None), PollStep::Pending));
}

#[test]
fn broker_round_trips_request_bytes() {
    let request: Vec<u8> = (0..=255u8).collect();
    let offer = WorkOffer { work_type: s("w"), request: request.clone(), max_price: None, deadline_secs: None };
    let posted = task_posting(&offer);
    match poll_step("t", "completed", Some(posted.input_b64), None) {
        PollStep::Done(Ok(WorkOutcome::Completed { response, .. })) => assert_eq!(response, request),
        other => panic!("unexpected {other:?}"),
    }
}

#[test]
fn discovery_maps_and_announces() {
    assert!(matches!(map_discovery(SdkFailure::ConnectionError(s("c"))), DiscoveryError::Terminated(m) if m == "c"));
    assert!(matches!(map_discovery(SdkFailure::Timeout), DiscoveryError::Terminated(m) if m == "timeout"));
    assert!(matches!(map_discovery(SdkFailure::AgentError(s("a"))), DiscoveryError::Setup(m) if m == "AgentError(\"a\")"));
    assert_eq!(peer_id_from_libp2p("").0, *blake3::hash(b"").as_bytes());
    assert_eq!(
        hex::encode(peer_id_from_libp2p("").0),
        "af1349b9f5f9a1a6a0404dea36dcc9499bcb25c9adc112b7cc9a93cae41f3262"
    );
    let p = ProviderRecord {
        peer_id: s("12D3KooW"),
        provider_type: s("llm"),
        status: s(""),
        capabilities: vec![s("inference"), s("tee")],
        served_models: vec![s("m1")],
        rpc_endpoint: s("http://10.0.0.5:8545"),
    };
    let a = announcement_from_provider(&p);
    assert_eq!(a.peer.0, *blake3::hash(b"12D3KooW").as_bytes());
    assert_eq!(a.endpoint.as_deref(), Some("http://10.0.0.5:8545"));
    assert_eq!(a.labels, vec!["libp2p=12D3KooW", "type=llm", "cap=inference", "cap=tee", "model=m1"]);
    let q = ProviderRecord { peer_id: s(""), provider_type: s(""), status: s("active"), capabilities: vec![], served_models: vec![], rpc_endpoint: s("") };
    let b = announcement_from_provider(&q);
    assert_eq!(b.endpoint, None);
    assert_eq!(b.labels, vec!["status=active"]);
    let all = announcements(&vec![p, q]);
    assert_eq!(all.len(), 2);
    assert_eq!(all[1].labels, vec!["status=active"]);
    let d = TenzroDiscovery::new(handle());
    assert_eq!(d.poll_interval().secs, 30);
    assert_eq!(d.with_poll_interval(Span { secs: 5, nanos: 0 }).poll_interval().secs, 5);
}

#[test]
fn invoker_body_and_reply() {
    assert!(matches!(map_sdk_invoker(SdkFailure::NotFound(s("agent"))), AgentInvokerError::Unreachable(m) if m == "agent"));
    assert!(matches!(map_sdk_invoker(SdkFailure::AuthenticationError(s("bad"))), AgentInvokerError::PaymentRefused(m) if m == "auth: bad"));
    assert!(matches!(map_sdk_invoker(SdkFailure::InsufficientFunds { required: 2, available: 1 }),
        AgentInvokerError::PaymentRefused(m) if m == "insufficient funds: required 2, available 1"));
    assert!(matches!(map_sdk_invoker(SdkFailure::Timeout), AgentInvokerError::Transient(m) if m == "timeout"));
    assert!(matches!(map_sdk_invoker(SdkFailure::AgentError(s("x"))), AgentInvokerError::Remote(m) if m == "AgentError(\"x\")"));
    let call = AgentCall { from: s("did:a"), to: s("did:b"), request_json: s("{\"q\":1}"), payment_token: Some(s("tok")), timeout_secs: Some(30) };
    assert_eq!(invocation_body(&call), r#"{"payment_token":"tok","request":{"q":1},"timeout_secs":30}"#);
    let call = AgentCall { from: s("did:a"), to: s("did:b"), request_json: s("null"), payment_token: None, timeout_secs: None };
    assert_eq!(invocation_body(&call), r#"{"payment_token":null,"request":null,"timeout_secs":null}"#);
    let reply = reply_from_delivery(&DeliveryReceipt { message_id: s("m1"), from: s("did:b"), status: s("delivered"), timestamp: 1700, signed: false });
    assert_eq!(reply.from, "did:b");
    assert_eq!(reply.response_json, r#"{"delivery":{"message_id":"m1","signed":false,"status":"delivered","timestamp":1700}}"#);
    let _ = TenzroAgentInvoker::new(handle());
}

#[test]
fn registry_descriptors() {
    assert!(matches!(map_sdk_registry(SdkFailure::RpcError(s("r"))), AgentRegistryError::Transient(m) if m == "r"));
    assert!(matches!(map_sdk_registry(SdkFailure::NotFound(s("n"))), AgentRegistryError::Lookup(m) if m == "NotFound(\"n\")"));
    let a = AgentRecord { agent_id: s("agent-1"), address_json: s("{\"0x1\":1}"), name: s("A"), version: s(""), creator_json: s("\"0xc\"") };
    let d = descriptor_from_agent(a.clone());
    assert_eq!(d.did, "agent-1");
    assert_eq!(d.name, "A");
    let keys: Vec<&str> = d.meta.iter().map(|e| e.key.as_str()).collect();
    assert_eq!(keys, vec!["address", "creator"]);
    let a2 = AgentRecord { version: s("1.2"), ..a };
    let list = descriptors_from_agents(vec![a2]);
    assert_eq!(list[0].meta[0].key, "version");
    assert!(matches!(&list[0].meta[0].value, MetaValue::Text(v) if v == "1.2"));
    let sk = SkillRecord { skill_id: s("sk1"), name: s("summarise"), version: s("0.1"), creator_did: s("did:c"), description: s(""), tags: vec![s("nlp")] };
    let d = descriptor_from_skill(sk.clone());
    assert_eq!(d.did, "did:c");
    assert_eq!(d.skills, vec!["nlp", "summarise"]);
    let keys: Vec<&str> = d.meta.iter().map(|e| e.key.as_str()).collect();
    assert_eq!(keys, vec!["skill_id", "version"]);
    let unnamed = SkillRecord { name: s(""), ..sk };
    assert_eq!(descriptors_from_skills(vec![unnamed])[0].skills, vec!["nlp"]);
    let i = IdentityRecord { did: s("did:tenzro:x"), status: s("active"), is_human: true, is_machine: false, display_name: s("X"), key_count: 2 };
    let d = descriptor_from_identity(i);
    assert_eq!(d.did, "did:tenzro:x");
    assert_eq!(d.name, "X");
    let keys: Vec<&str> = d.meta.iter().map(|e| e.key.as_str()).collect();
    assert_eq!(keys, vec!["status", "is_human", "is_machine", "key_count"]);
    assert!(matches!(d.meta[3].value, MetaValue::Number(2)));
    assert_eq!(json_to_did(&MetaValue::Text(s("did:x"))), "did:x");
    assert_eq!(json_to_did(&MetaValue::Json(s("{\"a\":1}"))), "{\"a\":1}");
    assert_eq!(json_to_did(&MetaValue::Bool(true)), "true");
    assert_eq!(json_to_did(&MetaValue::Number(12)), "12");
    let _ = TenzroAgentRegistry::new(handle());
}

#[test]
fn model_source_decisions() {
    assert!(check_uri("tenzro://model/abc").is_ok());
    assert!(matches!(check_uri("https://x"), Err(ModelSourceError::UnsupportedUri(u)) if u == "https://x"));
    assert!(matches!(map_model(SdkFailure::InvalidParameter(s("p"))), ModelSourceError::Other(m) if m == "invalid: p"));
    assert!(matches!(map_model(SdkFailure::NotFound(s("n"))), ModelSourceError::NotFound(m) if m == "n"));
    assert!(matches!(map_model(SdkFailure::Timeout), ModelSourceError::Transient(m) if m == "timeout"));
    let f = fetched_model("tenzro://blob/abcd", b"").unwrap();
    assert_eq!(f.manifest.name, "abcd");
    assert_eq!(f.manifest.format, "unknown");
    assert_eq!(f.cache_file_name, "af1349b9f5f9a1a6a0404dea36dcc9499bcb25c9adc112b7cc9a93cae41f3262");
    assert_eq!(f.manifest.digest_blake3, *blake3::hash(b"").as_bytes());
    let m = TenzroModelSource::new(s("tz"), handle(), s("/tmp/cache"));
    assert_eq!(m.handle().endpoint(), "http://127.0.0.1:9");
    assert_eq!(m.id(), "tz");
    assert_eq!(m.cache_dir(), "/tmp/cache");
}

#[test]
fn receipt_sink_params() {
    let canon = b"{\"step\":1}";
    let expected_hex = blake3::hash(canon).to_hex().to_string();
    assert_eq!(sign_message_params(canon), format!("[{{\"message_hex\":\"{expected_hex}\"}}]"));
    assert_eq!(hex::encode(receipt_digest(canon)), expected_hex);
    assert!(matches!(transient_from_rpc(&TenzroEdgeError::Sdk(s("rpc error: 1"))),
        SinkError::Transient(m) if m == "tenzro_signMessage: tenzro sdk: rpc error: 1"));
    assert!(matches!(rejected_receipt("eof"), SinkError::Rejected(m) if m == "canonicalise receipt: eof"));
}

#[test]
fn rpc_request_and_reply() {
    assert_eq!(select_htu(None, "https://rpc"), "https://rpc");
    assert_eq!(select_htu(Some(s("http://0.0.0.0:8545/")), "https://rpc"), "http://0.0.0.0:8545/");
    assert_eq!(authorization_header("jwt"), "DPoP jwt");
    assert_eq!(
        request_body("tenzro_signMessage", "[{\"message_hex\":\"00\"}]", 7),
        r#"{"id":7,"jsonrpc":"2.0","method":"tenzro_signMessage","params":[{"message_hex":"00"}]}"#
    );
    let ok = RpcReply { status_success: true, status_text: s("200 OK"), body_text: s("{}"), error_json: None, result_json: Some(s("{\"signature\":\"aa\"}")) };
    assert_eq!(interpret_reply(ok).unwrap(), "{\"signature\":\"aa\"}");
    let http = RpcReply { status_success: false, status_text: s("500 Internal Server Error"), body_text: s("{\"x\":1}"), error_json: None, result_json: None };
    assert!(matches!(interpret_reply(http), Err(TenzroEdgeError::Sdk(m)) if m == "rpc HTTP 500 Internal Server Error: {\"x\":1}"));
    let err = RpcReply { status_success: true, status_text: s("200 OK"), body_text: s(""), error_json: Some(s("{\"code\":-32001}")), result_json: Some(s("1")) };
    assert!(matches!(interpret_reply(err), Err(TenzroEdgeError::Sdk(m)) if m == "rpc error: {\"code\":-32001}"));
    let missing = RpcReply { status_success: true, status_text: s("200 OK"), body_text: s("{}"), error_json: None, result_json: None };
    assert!(matches!(interpret_reply(missing), Err(TenzroEdgeError::Sdk(m)) if m == "rpc response missing result"));
}

#[test]
fn inference_decisions() {
    let text = InferRequest::TextCompletion { prompt: s("hi"), max_tokens: Some(16) };
    assert!(can_serve(&text));
    assert!(!can_serve(&InferRequest::Tensor));
    assert_eq!(completion_request(text).unwrap(), (s("hi"), Some(16)));
    assert!(matches!(completion_request(InferRequest::Tensor),
        Err(RemoteInferenceError::Declined(m)) if m == "tenzro inference only supports text completion"));
    let InferResponse::TextCompletion { text, completion_tokens, prompt_tokens, finish_reason } = completion_response(s("out"), 5_000_000_000);
    assert_eq!((text.as_str(), completion_tokens, prompt_tokens, finish_reason.as_str()), ("out", u32::MAX, 0, "tenzro"));
    let InferResponse::TextCompletion { completion_tokens, .. } = completion_response(s("o"), 12);
    assert_eq!(completion_tokens, 12);
    assert!(matches!(map_inference(SdkFailure::InferenceError(s("boom"))), RemoteInferenceError::Failed(m) if m == "boom"));
    assert!(matches!(map_inference(SdkFailure::NotFound(s("m"))), RemoteInferenceError::Declined(m) if m == "not found: m"));
    assert!(matches!(map_inference(SdkFailure::InvalidParameter(s("p"))), RemoteInferenceError::Declined(m) if m == "invalid: p"));
    assert!(matches!(map_inference(SdkFailure::InsufficientFunds { required: 9, available: 0 }),
        RemoteInferenceError::Declined(m) if m == "insufficient funds: required 9, available 0"));
    assert!(matches!(map_inference(SdkFailure::WalletError(s("w"))), RemoteInferenceError::Failed(m) if m == "WalletError(\"w\")"));
    let r = TenzroRemoteInference::new(s("remote"), handle(), s("gemma"));
    assert_eq!(r.id(), "remote");
    assert_eq!(r.default_model_id(), "gemma");
}

#[test]
fn storage_decisions() {
    let d = *blake3::hash(b"blob").as_bytes();
    let hex_d = hex::encode(d);
    assert_eq!(hex_to_32(&hex_d), Some(d));
    assert_eq!(hex_to_32(&hex_d.to_uppercase()), Some(d));
    assert_eq!(hex_to_32("abcd"), None);
    assert_eq!(hex_to_32(&"g".repeat(64)), None);
    let m = published_metadata(s("tenzro://blob/x"), 4, &hex_d).ok().unwrap();
    assert_eq!((m.key.as_str(), m.size, m.digest_blake3), ("tenzro://blob/x", 4, d));
    assert!(matches!(published_metadata(s("k"), 1, "zz"), Err(StorageError::Failed(m)) if m == "bad blake3_hex: zz"));
    let h = head_metadata(s("tenzro://blob/x"), b"blob");
    assert_eq!((h.size, h.digest_blake3), (4, d));
    assert!(matches!(map_storage(SdkFailure::AuthenticationError(s("a"))), StorageError::Unauthorised));
    assert!(matches!(map_storage(SdkFailure::NotFound(s("n"))), StorageError::NotFound(m) if m == "n"));
    assert!(matches!(map_storage(SdkFailure::ConnectionError(s("c"))), StorageError::Transient(m) if m == "c"));
    assert!(matches!(map_storage(SdkFailure::Timeout), StorageError::Transient(m) if m == "timeout"));
    assert!(matches!(map_storage(SdkFailure::SettlementError(s("x"))), StorageError::Failed(m) if m == "SettlementError(\"x\")"));
    let _ = TenzroStorage::new(handle());
}

#[test]
fn settlement_amounts() {
    let a = |v: &str| Amount { value: s(v), asset: s("TZN") };
    assert_eq!(amount_to_u64(&a("1500")).ok(), Some(1500));
    assert_eq!(amount_to_u64(&a("+7")).ok(), Some(7));
    assert_eq!(amount_to_u64(&a("99999999999999999999999")).ok(), Some(u64::MAX));
    assert!(matches!(amount_to_u64(&a("0.001")),
        Err(WorkSettlementError::Refused(m)) if m == "sub-unit amounts not supported by tenzro nanopayment ('0.001'); pre-convert to smallest unit"));
    assert!(matches!(amount_to_u64(&a("1e3")),
        Err(WorkSettlementError::Refused(m)) if m == "invalid amount '1e3': invalid digit found in string"));
    assert!(matches!(amount_to_u64(&a("")),
        Err(WorkSettlementError::Refused(m)) if m == "invalid amount '': cannot parse integer from empty string"));
    assert!(matches!(amount_to_u64(&a("340282366920938463463374607431768211456")),
        Err(WorkSettlementError::Refused(m)) if m == "invalid amount '340282366920938463463374607431768211456': number too large to fit in target type"));
}

#[test]
fn settlement_terms() {
    let (d, asset) = channel_terms(None).ok().unwrap();
    assert_eq!((d, asset.as_str()), (0, "TZN"));
    let dep = Amount { value: s("250"), asset: s("USDC") };
    let (d, asset) = channel_terms(Some(&dep)).ok().unwrap();
    assert_eq!((d, asset.as_str()), (250, "USDC"));
    assert!(channel_terms(Some(&Amount { value: s("2.5"), asset: s("USDC") })).is_err());
    let work = [0xabu8; 32];
    assert!(matches!(payment_terms(None, &dep, &work),
        Err(WorkSettlementError::Refused(m)) if m == "tenzro nanopayments require a channel — call open_channel first"));
    let t = payment_terms(Some(&ChannelId(s("ch-1"))), &dep, &work).ok().unwrap();
    assert_eq!((t.channel_id.as_str(), t.amount, t.memo.as_str()), ("ch-1", 250, "ab".repeat(32).as_str()));
    let r = settlement_receipt(s("pay-1"), s("ch-1"), work);
    assert_eq!(r.txid, "pay-1");
    assert_eq!(r.channel.map(|c| c.0), Some(s("ch-1")));
    assert_eq!(r.for_work, work);
    assert!(matches!(map_settlement(SdkFailure::SettlementError(s("x"))), WorkSettlementError::Failed(m) if m == "x"));
    assert!(matches!(map_settlement(SdkFailure::InsufficientFunds { required: 3, available: 1 }),
        WorkSettlementError::Refused(m) if m == "insufficient funds: required 3, available 1"));
    assert!(matches!(map_settlement(SdkFailure::RpcError(s("r"))), WorkSettlementError::Transient(m) if m == "r"));
    assert!(matches!(map_settlement(SdkFailure::Timeout), WorkSettlementError::Transient(m) if m == "timeout"));
    let w = TenzroWorkSettlement::new(handle(), s("0xpayer"));
    assert_eq!(w.payer(), "0xpayer");
}

#[test]
fn handle_keeps_endpoint() {
    let h = handle();
    assert_eq!(h.endpoint(), "http://127.0.0.1:9");
    let _ = h.sdk();
    let digest = receipt_digest(b"abc");
    assert_eq!(digest, *blake3::hash(b"abc").as_bytes());
}

#[test]
fn model_name_falls_back_to_digest() {
    let hex = blake3::hash(b"weights").to_hex().to_string();
    let f = fetched_model("tenzro://blob/", b"weights").unwrap();
    assert_eq!(f.manifest.name, hex);
    assert_eq!(f.cache_file_name, hex);
    let f = fetched_model("tenzro://model/llama/q4", b"weights").unwrap();
    assert_eq!(f.manifest.name, "q4");
}

#[test]
fn model_digest_is_checked() {
    let good = blake3::hash(b"weights").to_hex().to_string();
    let uri = format!("tenzro://blob/{good}");
    let f = fetched_model(&uri, b"weights").unwrap();
    assert_eq!(f.manifest.name, good);
    assert_eq!(f.manifest.digest_blake3, *blake3::hash(b"weights").as_bytes());
    // Upper-case hex names the same digest.
    assert!(fetched_model(&format!("tenzro://model/{}", good.to_uppercase()), b"weights").is_ok());
    let other = blake3::hash(b"other").to_hex().to_string();
    match fetched_model(&format!("tenzro://blob/{other}"), b"weights") {
        Err(ModelSourceError::Other(m)) => {
            assert_eq!(m, format!("blake3 mismatch for tenzro://blob/{other}: content hashes to {good}"))
        }
        other => panic!("unexpected {other:?}"),
    }
    // A segment that is not 64 hex digits names no digest.
    assert!(fetched_model("tenzro://blob/abcd", b"weights").is_ok());
    assert!(uri_digest("tenzro://blob/abcd").is_none());
    assert!(uri_digest(&format!("tenzro://other/{good}")).is_none());
    assert_eq!(uri_digest(&uri), Some(*blake3::hash(b"weights").as_bytes()));
    assert_eq!(cached_file_name(&uri), Some(good.clone()));
    assert_eq!(cached_file_name(&format!("tenzro://model/{}", good.to_uppercase())), Some(good));
    assert_eq!(cached_file_name("tenzro://blob/"), None);
}

#[test]
fn discovery_ends_quietly_when_unreachable() {
    let p = ProviderRecord {
        peer_id: s("12D3KooW"),
        provider_type: s("llm"),
        status: s("active"),
        capabilities: vec![],
        served_models: vec![],
        rpc_endpoint: s(""),
    };
    match discovery_step(Ok(vec![p])) {
        DiscoveryStep::Announce(a) => {
            assert_eq!(a.len(), 1);
            assert_eq!(a[0].labels, vec!["libp2p=12D3KooW", "type=llm", "status=active"]);
            assert_eq!(a[0].endpoint, None);
        }
        other => panic!("unexpected {other:?}"),
    }
    assert!(matches!(discovery_step(Ok(vec![])), DiscoveryStep::Announce(a) if a.is_empty()));
    assert!(matches!(discovery_step(Err(SdkFailure::ConnectionError(s("down")))), DiscoveryStep::End));
    assert!(matches!(discovery_step(Err(SdkFailure::RpcError(s("502")))), DiscoveryStep::End));
    assert!(matches!(discovery_step(Err(SdkFailure::Timeout)), DiscoveryStep::End));
    assert!(matches!(discovery_step(Err(SdkFailure::NotFound(s("x")))),
        DiscoveryStep::Fail(DiscoveryError::Setup(m)) if m == "NotFound(\"x\")"));
}

#[test]
fn failed_writes_wait_in_order() {
    let mut q = ReplayQueue::new();
    assert_eq!(q.len(), 0);
    assert_eq!(q.front(), None);
    let e = TenzroEdgeError::Sdk(s("rpc transport: down"));
    match write_failed(&mut q, s("[1]"), &e) {
        SinkError::Transient(m) => assert_eq!(m, "tenzro_signMessage: tenzro sdk: rpc transport: down"),
        other => panic!("unexpected {other:?}"),
    }
    let _ = write_failed(&mut q, s("[2]"), &e);
    assert_eq!(q.len(), 2);
    assert_eq!(q.front().as_deref(), Some("[1]"));
    q.pop_front();
    assert_eq!(q.front().as_deref(), Some("[2]"));
    q.pop_front();
    q.pop_front();
    assert_eq!(q.len(), 0);
    assert_eq!(q.front(), None);
}

#[test]
fn attestation_proof_decodes_to_what_was_signed() {
    let digest = receipt_digest(b"{\"step\":2}");
    for (sig, pk) in [("00aa", "11bb"), ("q\"\\\n\u{1}é", "k\t"), ("", "")] {
        let att = attestation_from_signature(digest, sig, pk);
        assert!(check_kind(&att).is_ok());
        let v: serde_json::Value = serde_json::from_slice(&att.proof).unwrap();
        assert_eq!(v["signature"], sig);
        assert_eq!(v["public_key"], pk);
        assert_eq!(v.as_object().unwrap().len(), 2);
    }
}

#[test]
fn minted_proof_verifies_at_fixed_inputs() {
    let signer = tenzro_edge_core::auth::DpopSigner::from_seed([9u8; 32]);
    let proof = signer.mint_proof_at("GET", "https://n/x", 5, &[3u8; 16]);
    let parts: Vec<&str> = proof.split('.').collect();
    let sig = base64::Engine::decode(&base64::engine::general_purpose::URL_SAFE_NO_PAD, parts[2]).unwrap();
    assert_eq!(sig.len(), 64);
    let key = ed25519_dalek::VerifyingKey::from_bytes(&signer.verifying_key()).unwrap();
    let sig = ed25519_dalek::Signature::from_bytes(&sig.try_into().unwrap());
    let input = format!("{}.{}", parts[0], parts[1]);
    assert!(ed25519_dalek::Verifier::verify(&key, input.as_bytes(), &sig).is_ok());
}

#[test]
fn decimal_rendering() {
    for n in [0u64, 7, 10, 99, 100, 12345, u64::MAX] {
        assert_eq!(tenzro_edge_core::rpc::request_body("m", "[]", n), format!("{{\"id\":{n},\"jsonrpc\":\"2.0\",\"method\":\"m\",\"params\":[]}}"));
    }
}

#[test]
fn proof_reads_back_what_was_written() {
    let digest = receipt_digest(b"{\"step\":3}");
    for (sig, pk) in [("00aa", "11bb"), ("q\"\\\n\u{1}\u{1f}\u{8}\u{c}\r\té", "k\t/"), ("", "")] {
        let att = attestation_from_signature(digest, sig, pk);
        assert_eq!(decode_proof(&att.proof), Some((sig.to_string(), pk.to_string())));
        assert_eq!(verification_request(&att).unwrap(), (sig.to_string(), pk.to_string()));
    }
    // Other texts are refused.
    for bad in [
        &br#"{"public_key":"p","signature":"s"}"#[..],
        br#"{"signature":"s", "public_key":"p"}"#,
        br#"{"signature":"s","public_key":"p"} "#,
        br#"{"signature":"\u0041","public_key":"p"}"#,
        br#"{"signature":"s","public_key":"p"#,
        b"\xff",
    ] {
        assert_eq!(decode_proof(bad), None);
        let att = Attestation { kind: s("tenzro"), digest, proof: bad.to_vec() };
        assert!(matches!(verification_request(&att),
            Err(AttesterError::Failed(m)) if m == "decode proof: not a Tenzro proof"));
    }
    let other = Attestation { kind: s("minima"), digest, proof: encode_proof("s", "p") };
    assert!(matches!(verification_request(&other),
        Err(AttesterError::Failed(m)) if m == "kind mismatch: expected 'tenzro', got 'minima'"));
}

#[test]
fn flush_resends_oldest_first_and_stops_on_failure() {
    let mut q = ReplayQueue::new();
    assert!(matches!(flush_step(&mut q, None), FlushAction::Finished));
    let e = TenzroEdgeError::Sdk(s("rpc transport: down"));
    let _ = write_failed(&mut q, s("[1]"), &e);
    let _ = write_failed(&mut q, s("[2]"), &e);
    assert!(matches!(flush_step(&mut q, None), FlushAction::Send(p) if p == "[1]"));
    assert!(matches!(flush_step(&mut q, Some(Ok(()))), FlushAction::Send(p) if p == "[2]"));
    assert!(matches!(flush_step(&mut q, Some(Err(e))),
        FlushAction::Stop(SinkError::Transient(m)) if m == "tenzro_signMessage: tenzro sdk: rpc transport: down"));
    assert_eq!(q.front().as_deref(), Some("[2]"));
    assert!(matches!(flush_step(&mut q, None), FlushAction::Send(p) if p == "[2]"));
    assert!(matches!(flush_step(&mut q, Some(Ok(()))), FlushAction::Finished));
    assert_eq!(q.len(), 0);
}

#[test]
fn cached_bytes_are_served_only_when_they_match() {
    let good = blake3::hash(b"weights").to_hex().to_string();
    let uri = format!("tenzro://blob/{good}");
    let hit = cache_hit(&uri, Some(b"weights")).unwrap();
    assert_eq!(hit.cache_file_name, good);
    assert_eq!(hit.manifest.name, good);
    assert!(cache_hit(&uri, Some(b"tampered")).is_none());
    assert!(cache_hit(&uri, None).is_none());
    assert!(cache_hit("tenzro://blob/abcd", Some(b"weights")).is_none());
}
