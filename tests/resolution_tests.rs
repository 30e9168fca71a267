use indy_didresolver::did_url::DidUrl;
use indy_didresolver::error::ResolverError;
use indy_didresolver::reply::{decode_endpoint, decode_nym, parse_ledger_data, NymRecord};
use indy_didresolver::request::LedgerRequest;
use indy_didresolver::resolution::{
    after_legacy_endpoint, after_nym, dereferencing_result, resolution_result, ContentMetadata,
    DidDocument, Resolution, Result as Resolved, Step,
};
use serde_json::Value;

const DID: &str = "did:indy:idunion:Dk1fRRTtNazyMuK2cr64wp";

fn reply_with_data(data: Value) -> String {
    let mut result = serde_json::Map::new();
    result.insert("data".to_string(), data);
    let mut outer = serde_json::Map::new();
    outer.insert("result".to_string(), Value::Object(result));
    Value::Object(outer).to_string()
}

fn nym_reply(with_diddoc: bool) -> String {
    let mut nym = serde_json::Map::new();
    nym.insert("dest".to_string(), Value::String("Dk1fRRTtNazyMuK2cr64wp".to_string()));
    nym.insert("verkey".to_string(), Value::String("~abc".to_string()));
    if with_diddoc {
        nym.insert("diddoc_content".to_string(), Value::String("{}".to_string()));
    }
    reply_with_data(Value::String(Value::Object(nym).to_string()))
}

fn endpoint_reply() -> String {
    let mut services = serde_json::Map::new();
    services.insert("endpoint".to_string(), Value::String("https://agent.example".to_string()));
    let mut attr = serde_json::Map::new();
    attr.insert("endpoint".to_string(), Value::Object(services));
    reply_with_data(Value::String(Value::Object(attr).to_string()))
}

fn record(diddoc: Option<&str>) -> NymRecord {
    NymRecord {
        dest: "Dk1fRRTtNazyMuK2cr64wp".to_string(),
        verkey: "key".to_string(),
        diddoc_content: diddoc.map(|s| s.to_string()),
    }
}

#[test]
fn null_data_is_empty_data() {
    assert_eq!(parse_ledger_data(&reply_with_data(Value::Null)).unwrap_err(), ResolverError::EmptyData);
    assert_eq!(parse_ledger_data("{\"result\":{}}").unwrap_err(), ResolverError::EmptyData);
}

#[test]
fn unreadable_reply_is_decode_failure() {
    assert_eq!(parse_ledger_data("not json").unwrap_err(), ResolverError::DecodeFailure);
}

#[test]
fn present_data_is_returned() {
    let data = parse_ledger_data(&reply_with_data(Value::String("x".to_string()))).unwrap();
    assert_eq!(data, "\"x\"");
    assert_eq!(parse_ledger_data("[1]").unwrap_err(), ResolverError::EmptyData);
}

#[test]
fn nym_payload_is_decoded() {
    let data = parse_ledger_data(&nym_reply(true)).unwrap();
    let nym = decode_nym(&data).unwrap();
    assert_eq!(nym.dest, "Dk1fRRTtNazyMuK2cr64wp");
    assert_eq!(nym.verkey, "~abc");
    assert_eq!(nym.diddoc_content, Some("{}".to_string()));
    let data = parse_ledger_data(&nym_reply(false)).unwrap();
    assert_eq!(decode_nym(&data).unwrap().diddoc_content, None);
    assert_eq!(decode_nym("true"), Err(ResolverError::DecodeFailure));
    assert_eq!(decode_nym("\"{\\\"dest\\\":\\\"a\\\"}\""), Err(ResolverError::DecodeFailure));
    assert_eq!(
        decode_nym("\"{\\\"dest\\\":\\\"a\\\",\\\"verkey\\\":\\\"b\\\",\\\"diddoc_content\\\":null}\""),
        Ok(NymRecord { dest: "a".to_string(), verkey: "b".to_string(), diddoc_content: None })
    );
}

#[test]
fn endpoint_payload_is_decoded() {
    let data = parse_ledger_data(&endpoint_reply()).unwrap();
    assert_eq!(
        decode_endpoint(&data).unwrap(),
        vec![("endpoint".to_string(), "https://agent.example".to_string())]
    );
}

#[test]
fn nym_without_content_asks_for_legacy_endpoint() {
    let step = after_nym("idunion".to_string(), &"Dk1fRRTtNazyMuK2cr64wp".to_string(), record(None), Value::Null);
    match step {
        Step::Pending(r) => assert_eq!(
            r.request(),
            &LedgerRequest::GetAttrib {
                dest: "Dk1fRRTtNazyMuK2cr64wp".to_string(),
                raw: "endpoint".to_string()
            }
        ),
        other => panic!("unexpected step {:?}", other),
    }
}

#[test]
fn nym_with_content_finishes_at_once() {
    let step = after_nym("idunion".to_string(), &"Dk1fRRTtNazyMuK2cr64wp".to_string(), record(Some("{}")), Value::Null);
    match step {
        Step::Finished(Resolved::DidDocument(doc), meta) => {
            assert_eq!(doc.namespace, "idunion");
            assert_eq!(doc.verkey, "key");
            assert_eq!(doc.endpoint, None);
            assert_eq!(meta.object_type, "NYM");
        }
        other => panic!("unexpected step {:?}", other),
    }
}

#[test]
fn failed_legacy_endpoint_is_no_endpoint() {
    let step = after_legacy_endpoint("idunion".to_string(), record(None), Value::Null, Err("timeout".to_string()));
    match step {
        Step::Finished(Resolved::DidDocument(doc), _) => assert_eq!(doc.endpoint, None),
        other => panic!("unexpected step {:?}", other),
    }
    let step = after_legacy_endpoint("idunion".to_string(), record(None), Value::Null, Ok(reply_with_data(Value::Null)));
    match step {
        Step::Finished(Resolved::DidDocument(doc), _) => assert_eq!(doc.endpoint, None),
        other => panic!("unexpected step {:?}", other),
    }
}

#[test]
fn undecodable_endpoint_is_no_endpoint() {
    let step = after_legacy_endpoint(
        "idunion".to_string(),
        record(None),
        Value::Null,
        Ok(reply_with_data(Value::Number(3.into()))),
    );
    match step {
        Step::Finished(Resolved::DidDocument(doc), _) => assert_eq!(doc.endpoint, None),
        other => panic!("unexpected step {:?}", other),
    }
    assert_eq!(decode_endpoint("\"{\\\"endpoint\\\":{\\\"a\\\":1}}\""), Err(ResolverError::DecodeFailure));
}

#[test]
fn legacy_endpoint_is_attached() {
    let step = after_legacy_endpoint("idunion".to_string(), record(None), Value::Null, Ok(endpoint_reply()));
    match step {
        Step::Finished(Resolved::DidDocument(doc), _) => assert_eq!(
            doc.endpoint,
            Some(vec![("endpoint".to_string(), "https://agent.example".to_string())])
        ),
        other => panic!("unexpected step {:?}", other),
    }
}

#[test]
fn resolving_a_nym_without_content_takes_two_requests() {
    let r = Resolution::begin(DID).unwrap();
    assert_eq!(r.request(), &LedgerRequest::GetNym { dest: "Dk1fRRTtNazyMuK2cr64wp".to_string() });
    let second = match r.on_reply(Ok(nym_reply(false))).unwrap() {
        Step::Pending(next) => next,
        other => panic!("unexpected step {:?}", other),
    };
    match second.on_reply(Ok(endpoint_reply())).unwrap() {
        Step::Finished(Resolved::DidDocument(doc), meta) => {
            assert_eq!(doc.id, "Dk1fRRTtNazyMuK2cr64wp");
            assert!(doc.endpoint.is_some());
            assert_eq!(meta.object_type, "NYM");
            assert_eq!(meta.node_response, serde_json::from_str::<Value>(&nym_reply(false)).unwrap());
        }
        other => panic!("unexpected step {:?}", other),
    }
}

#[test]
fn resolving_a_nym_with_content_takes_one_request() {
    let r = Resolution::begin(DID).unwrap();
    match r.on_reply(Ok(nym_reply(true))).unwrap() {
        Step::Finished(Resolved::DidDocument(_), _) => {}
        other => panic!("unexpected step {:?}", other),
    }
}

#[test]
fn schema_content_passes_through() {
    let r = Resolution::begin(&format!("{}/anoncreds/v0/SCHEMA/s/1.0", DID)).unwrap();
    let payload = Value::String("schema".to_string());
    match r.on_reply(Ok(reply_with_data(payload.clone()))).unwrap() {
        Step::Finished(Resolved::Content(c), meta) => {
            assert_eq!(c, payload);
            assert_eq!(meta.object_type, "SCHEMA");
        }
        other => panic!("unexpected step {:?}", other),
    }
}

#[test]
fn revocation_state_is_tagged_unknown() {
    let r = Resolution::begin(&format!("{}/anoncreds/v0/REV_REG_ENTRY/1/a/b", DID)).unwrap();
    match r.on_reply(Ok(reply_with_data(Value::Bool(true)))).unwrap() {
        Step::Finished(Resolved::Content(_), meta) => assert_eq!(meta.object_type, "UNKNOWN"),
        other => panic!("unexpected step {:?}", other),
    }
}

#[test]
fn ledger_failure_and_empty_data_are_errors() {
    let r = Resolution::begin(DID).unwrap();
    assert_eq!(
        r.on_reply(Err("pool down".to_string())).unwrap_err(),
        ResolverError::ExecutionFailure("pool down".to_string())
    );
    let r = Resolution::begin(DID).unwrap();
    assert_eq!(r.on_reply(Ok(reply_with_data(Value::Null))).unwrap_err(), ResolverError::EmptyData);
    assert_eq!(Resolution::begin("did:indy:x").unwrap_err(), ResolverError::MalformedIdentifier);
}

#[test]
fn envelopes_carry_their_payload_kind() {
    let doc = DidDocument {
        namespace: "idunion".to_string(),
        id: "Dk1fRRTtNazyMuK2cr64wp".to_string(),
        verkey: "key".to_string(),
        endpoint: None,
    };
    let meta = || ContentMetadata { node_response: Value::Null, object_type: "NYM".to_string() };
    let r = resolution_result(Resolved::DidDocument(doc), meta());
    assert!(r.did_resolution_metadata.is_none());
    assert_eq!(r.did_document.unwrap().id, "Dk1fRRTtNazyMuK2cr64wp");
    assert_eq!(r.did_document_metadata.unwrap().object_type, "NYM");
    let d = dereferencing_result(Resolved::Content(Value::Bool(true)), meta());
    assert!(d.dereferencing_metadata.is_none());
    assert_eq!(d.content_stream, Some(Value::Bool(true)));
    let d = dereferencing_result(
        Resolved::DidDocument(DidDocument {
            namespace: String::new(),
            id: String::new(),
            verkey: String::new(),
            endpoint: None,
        }),
        meta(),
    );
    assert!(d.content_stream.is_none());
}

#[test]
fn parsed_identifier_starts_resolution() {
    let d = DidUrl::parse(DID).unwrap();
    let r = Resolution::start_at(d, 7).unwrap();
    assert_eq!(r.request(), &LedgerRequest::GetNym { dest: "Dk1fRRTtNazyMuK2cr64wp".to_string() });
}
