use indy_didresolver::did_url::{DidUrl, LedgerObject, QueryParameter};
use indy_didresolver::error::ResolverError;
use indy_didresolver::request::{
    build_request, build_request_at, LedgerRequest, GET_CRED_DEF, GET_NYM, GET_REVOC_REG,
    GET_REVOC_REG_DEF, GET_REVOC_REG_DELTA, GET_SCHEMA,
};

const BASE: &str = "did:indy:idunion:Dk1fRRTtNazyMuK2cr64wp";

fn epoch(s: &str) -> i64 {
    chrono::DateTime::parse_from_rfc3339(s).unwrap().timestamp()
}

#[test]
fn build_get_revoc_reg_request_from_version_time() {
    let datetime_as_str = "2020-12-20T19:17:47Z";
    let did_url_as_str = format!(
        "{}/anoncreds/v0/REV_REG_ENTRY/104/revocable/a4e25e54?versionTime={}",
        BASE, datetime_as_str
    );
    let did_url = DidUrl::parse(&did_url_as_str).unwrap();
    let request = build_request(&did_url).unwrap();
    assert_eq!(GET_REVOC_REG, request.txn_type());
    match request {
        LedgerRequest::GetRevocReg { timestamp, .. } => {
            assert_eq!(epoch(datetime_as_str), timestamp);
            assert_eq!(timestamp, 1608491867);
        }
        other => panic!("unexpected request {:?}", other),
    }
}

#[test]
fn build_get_revoc_reg_without_version_time() {
    let now = chrono::Utc::now().timestamp();
    let did_url_as_str = format!("{}/anoncreds/v0/REV_REG_ENTRY/104/revocable/a4e25e54", BASE);
    let did_url = DidUrl::parse(&did_url_as_str).unwrap();
    let request = build_request(&did_url).unwrap();
    assert_eq!(GET_REVOC_REG, request.txn_type());
    match request {
        LedgerRequest::GetRevocReg { timestamp, .. } => assert!(timestamp >= now),
        other => panic!("unexpected request {:?}", other),
    }
}

#[test]
fn build_get_revoc_reg_request_fails_with_unparsable_version_time() {
    let datetime_as_str = "20201220T19:17:47Z";
    let did_url_as_str = format!(
        "{}/anoncreds/v0/REV_REG_ENTRY/104/revocable/a4e25e54?versionTime={}",
        BASE, datetime_as_str
    );
    let did_url = DidUrl::parse(&did_url_as_str).unwrap();
    let request = build_request(&did_url);
    assert!(matches!(request, Err(ResolverError::MalformedTimestamp)));
}

#[test]
fn build_get_revoc_reg_delta_request_with_from_to() {
    let from_as_str = "2019-12-20T19:17:47Z";
    let to_as_str = "2020-12-20T19:17:47Z";
    let did_url_as_str = format!(
        "{}/anoncreds/v0/REV_REG_DELTA/104/revocable/a4e25e54?from={}&to={}",
        BASE, from_as_str, to_as_str
    );
    let did_url = DidUrl::parse(&did_url_as_str).unwrap();
    let request = build_request(&did_url).unwrap();
    assert_eq!(request.txn_type(), GET_REVOC_REG_DELTA);
    match request {
        LedgerRequest::GetRevocRegDelta { from, to, .. } => {
            assert_eq!(from, Some(epoch(from_as_str)));
            assert_eq!(to, epoch(to_as_str));
        }
        other => panic!("unexpected request {:?}", other),
    }
}

#[test]
fn build_get_revoc_reg_delta_request_with_from_only() {
    let now = chrono::Utc::now().timestamp();
    let from_as_str = "2019-12-20T19:17:47Z";
    let did_url_as_str = format!(
        "{}/anoncreds/v0/REV_REG_DELTA/104/revocable/a4e25e54?from={}",
        BASE, from_as_str
    );
    let did_url = DidUrl::parse(&did_url_as_str).unwrap();
    let request = build_request(&did_url).unwrap();
    assert_eq!(request.txn_type(), GET_REVOC_REG_DELTA);
    match request {
        LedgerRequest::GetRevocRegDelta { from, to, .. } => {
            assert_eq!(from, Some(epoch(from_as_str)));
            assert!(to >= now);
        }
        other => panic!("unexpected request {:?}", other),
    }
}

#[test]
fn build_get_revoc_reg_delta_request_without_parameter() {
    let now = chrono::Utc::now().timestamp();
    let did_url_as_str = format!("{}/anoncreds/v0/REV_REG_DELTA/104/revocable/a4e25e54", BASE);
    let did_url = DidUrl::parse(&did_url_as_str).unwrap();
    let request = build_request(&did_url).unwrap();
    assert_eq!(request.txn_type(), GET_REVOC_REG_DELTA);
    match request {
        LedgerRequest::GetRevocRegDelta { from, to, .. } => {
            assert!(from.is_none());
            assert!(to >= now);
        }
        other => panic!("unexpected request {:?}", other),
    }
}

#[test]
fn build_get_schema_request_with_whitespace() {
    let name = "My Schema";
    let did_url_string = format!("{}/anoncreds/v0/SCHEMA/My%20Schema/1.0", BASE);
    let did_url = DidUrl::parse(did_url_string.as_str()).unwrap();
    let request = build_request(&did_url).unwrap();
    assert_eq!(request.txn_type(), GET_SCHEMA);
    match request {
        LedgerRequest::GetSchema { dest, name: schema_name, version } => {
            assert_eq!(schema_name, name);
            assert_eq!(version, "1.0");
            assert_eq!(dest, "Dk1fRRTtNazyMuK2cr64wp");
        }
        other => panic!("unexpected request {:?}", other),
    }
}

#[test]
fn delta_with_malformed_from_is_rejected() {
    let did_url = DidUrl::parse(&format!(
        "{}/anoncreds/v0/REV_REG_DELTA/104/revocable/a4e25e54?from=yesterday",
        BASE
    ))
    .unwrap();
    assert_eq!(build_request_at(&did_url, 5), Err(ResolverError::MalformedTimestamp));
}

#[test]
fn delta_with_malformed_to_is_rejected() {
    let did_url = DidUrl::parse(&format!(
        "{}/anoncreds/v0/REV_REG_DELTA/104/revocable/a4e25e54?to=2020-13-40",
        BASE
    ))
    .unwrap();
    assert_eq!(build_request_at(&did_url, 5), Err(ResolverError::MalformedTimestamp));
}

#[test]
fn fixed_now_is_used_for_defaults() {
    let entry = DidUrl::parse(&format!("{}/anoncreds/v0/REV_REG_ENTRY/104/revocable/a4e25e54", BASE)).unwrap();
    match build_request_at(&entry, 1234).unwrap() {
        LedgerRequest::GetRevocReg { timestamp, .. } => assert_eq!(timestamp, 1234),
        other => panic!("unexpected request {:?}", other),
    }
    let delta = DidUrl::parse(&format!("{}/anoncreds/v0/REV_REG_DELTA/104/revocable/a4e25e54", BASE)).unwrap();
    assert_eq!(
        build_request_at(&delta, 99).unwrap(),
        LedgerRequest::GetRevocRegDelta {
            id: "Dk1fRRTtNazyMuK2cr64wp:4:Dk1fRRTtNazyMuK2cr64wp:3:CL:104:revocable:CL_ACCUM:a4e25e54".to_string(),
            from: None,
            to: 99,
        }
    );
}

#[test]
fn subject_without_path_reads_its_nym() {
    let did_url = DidUrl::parse(&format!("{}?versionId=3", BASE)).unwrap();
    let request = build_request_at(&did_url, 0).unwrap();
    assert_eq!(request.txn_type(), GET_NYM);
    assert_eq!(request, LedgerRequest::GetNym { dest: "Dk1fRRTtNazyMuK2cr64wp".to_string() });
}

#[test]
fn claim_def_identifier_is_composed() {
    let did_url = DidUrl::parse(&format!("{}/anoncreds/v0/CLAIM_DEF/104/default", BASE)).unwrap();
    let request = build_request_at(&did_url, 0).unwrap();
    assert_eq!(request.txn_type(), GET_CRED_DEF);
    assert_eq!(
        request,
        LedgerRequest::GetCredDef { id: "Dk1fRRTtNazyMuK2cr64wp:3:CL:104:default".to_string() }
    );
}

#[test]
fn rev_reg_def_identifier_is_composed() {
    let did_url = DidUrl::parse(&format!("{}/anoncreds/v0/REV_REG_DEF/104/revocable/a4e25e54", BASE)).unwrap();
    let request = build_request_at(&did_url, 0).unwrap();
    assert_eq!(request.txn_type(), GET_REVOC_REG_DEF);
    assert_eq!(
        request,
        LedgerRequest::GetRevocRegDef {
            id: "Dk1fRRTtNazyMuK2cr64wp:4:Dk1fRRTtNazyMuK2cr64wp:3:CL:104:revocable:CL_ACCUM:a4e25e54".to_string()
        }
    );
}

#[test]
fn parse_reads_namespace_id_path_and_query() {
    let d = DidUrl::parse("did:indy:sovrin:staging:Dk1fRRTtNazyMuK2cr64wp/anoncreds/v0/SCHEMA/a%2Db/2.0?versionTime=2020-01-01T00:00:00Z").unwrap();
    assert_eq!(d.namespace, "sovrin:staging");
    assert_eq!(d.id, "Dk1fRRTtNazyMuK2cr64wp");
    assert_eq!(
        d.path,
        Some(LedgerObject::Schema { name: "a-b".to_string(), version: "2.0".to_string() })
    );
    assert_eq!(d.query, vec![(QueryParameter::VersionTime, "2020-01-01T00:00:00Z".to_string())]);
    assert_eq!(d.query_value(QueryParameter::VersionTime), Some(&"2020-01-01T00:00:00Z".to_string()));
    assert_eq!(d.query_value(QueryParameter::From), None);
}

#[test]
fn parse_rejects_malformed_identifiers() {
    let bad = [
        "did:sov:idunion:Dk1fRRTtNazyMuK2cr64wp",
        "did:indy:idunion",
        "did:indy:IDUNION:Dk1fRRTtNazyMuK2cr64wp",
        "did:indy:idunion:Dk1fRRTtNazyMuK2cr64w0",
        "did:indy:idunion:Dk1fRRTtNazyMuK2cr64wp/anoncreds/v0/OTHER/1/2",
        "did:indy:idunion:Dk1fRRTtNazyMuK2cr64wp/anoncreds/v1/SCHEMA/a/1.0",
        "did:indy:idunion:Dk1fRRTtNazyMuK2cr64wp/anoncreds/v0/CLAIM_DEF/x1/default",
        "did:indy:idunion:Dk1fRRTtNazyMuK2cr64wp/anoncreds/v0/SCHEMA/a%2/1.0",
        "did:indy:idunion:Dk1fRRTtNazyMuK2cr64wp?color=red",
        "did:indy:idunion:Dk1fRRTtNazyMuK2cr64wp?to",
    ];
    for s in bad.iter() {
        assert_eq!(DidUrl::parse(s), Err(ResolverError::MalformedIdentifier), "{}", s);
    }
}

#[test]
fn last_query_value_wins() {
    let d = DidUrl::parse(&format!("{}?to=a&to=b", BASE)).unwrap();
    assert_eq!(d.query_value(QueryParameter::To), Some(&"b".to_string()));
}

#[test]
fn query_parameter_names() {
    assert_eq!(QueryParameter::parse("versionId"), Some(QueryParameter::VersionId));
    assert_eq!(QueryParameter::parse("versionTime"), Some(QueryParameter::VersionTime));
    assert_eq!(QueryParameter::parse("from"), Some(QueryParameter::From));
    assert_eq!(QueryParameter::parse("to"), Some(QueryParameter::To));
    assert_eq!(QueryParameter::parse("To"), None);
}

#[test]
fn ledger_objects_from_segments() {
    let segs = |v: &[&str]| v.iter().map(|s| s.to_string()).collect::<Vec<String>>();
    assert_eq!(
        LedgerObject::from_segments(&segs(&["anoncreds", "v0", "REV_REG_ENTRY", "7", "cd", "t"])),
        Ok(LedgerObject::RevRegEntry {
            schema_seq_no: "7".to_string(),
            claim_def_name: "cd".to_string(),
            tag: "t".to_string()
        })
    );
    assert_eq!(
        LedgerObject::from_segments(&segs(&["anoncreds", "v0", "CLAIM_DEF", "12", "x"])),
        Ok(LedgerObject::ClaimDef { schema_seq_no: "12".to_string(), name: "x".to_string() })
    );
    assert_eq!(
        LedgerObject::from_segments(&segs(&["anoncreds", "v0", "SCHEMA", "x"])),
        Err(ResolverError::MalformedIdentifier)
    );
    assert_eq!(
        LedgerObject::from_segments(&segs(&["anoncreds", "v0", "REV_REG_DEF", "", "cd", "t"])),
        Err(ResolverError::MalformedIdentifier)
    );
}
