use vstd::prelude::*;
use vstd::string::StringExecFns;

use serde_json::Value;

use crate::did_url::{query_view, url_parts, DidUrl};
use crate::error::ResolverError;
use crate::reply::{
    decode_endpoint, decode_nym, endpoint_of, is_json, nym_of, nym_view, pair_texts, parse_json,
    parse_ledger_data, reply_payload, NymRecord,
};
use crate::request::{build_request, translation, LedgerRequest, RequestSpec, LEGACY_INDY_SERVICE};

verus! {

/// An identity document for a subject: its namespace, identifier and
/// verification key, and the legacy service endpoints where they were found.
#[derive(Debug, PartialEq, Eq)]
pub struct DidDocument {
    pub namespace: String,
    pub id: String,
    pub verkey: String,
    pub endpoint: Option<Vec<(String, String)>>,
}

/// What a ledger object resolves to: a document for a subject, or the raw
/// content of any other object.
#[derive(Debug)]
pub enum Result {
    DidDocument(DidDocument),
    Content(Value),
}

/// The ledger's full reply and the kind of object it held.
#[derive(Debug)]
pub struct ContentMetadata {
    pub node_response: Value,
    pub object_type: String,
}

/// The envelope that resolving a subject produces.
#[derive(Debug)]
pub struct ResolutionResult {
    pub did_resolution_metadata: Option<String>,
    pub did_document: Option<DidDocument>,
    pub did_document_metadata: Option<ContentMetadata>,
}

/// The envelope that dereferencing a ledger object produces.
#[derive(Debug)]
pub struct DereferencingResult {
    pub dereferencing_metadata: Option<String>,
    pub content_stream: Option<Value>,
    pub content_metadata: Option<ContentMetadata>,
}

/// The tag that names the kind of object a request fetched.
pub open spec fn object_type_of(r: RequestSpec) -> Seq<char> {
    match r {
        RequestSpec::GetNym { .. } => "NYM"@,
        RequestSpec::GetSchema { .. } => "SCHEMA"@,
        RequestSpec::GetCredDef { .. } => "CRED_DEF"@,
        RequestSpec::GetRevocRegDef { .. } => "REVOC_REG_DEF"@,
        RequestSpec::GetRevocRegDelta { .. } => "REVOC_REG_DELTA"@,
        _ => "UNKNOWN"@,
    }
}

fn object_type(r: &LedgerRequest) -> (s: String)
    ensures
        s@ == object_type_of(r@),
{
    match r {
        LedgerRequest::GetNym { .. } => String::from_str("NYM"),
        LedgerRequest::GetSchema { .. } => String::from_str("SCHEMA"),
        LedgerRequest::GetCredDef { .. } => String::from_str("CRED_DEF"),
        LedgerRequest::GetRevocRegDef { .. } => String::from_str("REVOC_REG_DEF"),
        LedgerRequest::GetRevocRegDelta { .. } => String::from_str("REVOC_REG_DELTA"),
        _ => String::from_str("UNKNOWN"),
    }
}

/// The request that fetches the legacy service endpoint attribute of a subject.
pub open spec fn legacy_endpoint_request(dest: Seq<char>) -> RequestSpec {
    RequestSpec::GetAttrib { dest, raw: LEGACY_INDY_SERVICE@ }
}

/// A resolution in progress: the request it waits on, with what it needs to
/// go on once the reply is in.
#[derive(Debug)]
pub enum Resolution {
    /// Waiting on the reply to the request for the object itself.
    Primary { did: DidUrl, request: LedgerRequest },
    /// The subject's NYM record carried no document content: waiting on the
    /// reply to the request for its legacy service endpoint.
    LegacyEndpoint {
        namespace: String,
        record: NymRecord,
        node_response: Value,
        request: LedgerRequest,
    },
}

/// Where a resolution stands after a reply: waiting on one more request, or
/// finished.
#[derive(Debug)]
pub enum Step {
    Pending(Resolution),
    Finished(Result, ContentMetadata),
}

impl Resolution {
    /// The request to execute next.
    pub fn request(&self) -> (r: &LedgerRequest)
        ensures
            r == match self {
                Resolution::Primary { request, .. } => request,
                Resolution::LegacyEndpoint { request, .. } => request,
            },
    {
        match self {
            Resolution::Primary { request, .. } => request,
            Resolution::LegacyEndpoint { request, .. } => request,
        }
    }

    /// Starts resolving `did` where "now" is `now`: the first request to make
    /// is the one the identifier translates to.
    pub fn start_at(did: DidUrl, now: i64) -> (r: core::result::Result<Resolution, ResolverError>)
        ensures
            match r {
                Ok(Resolution::Primary { did: d, request }) => d == did && Ok::<RequestSpec, ResolverError>(request@) == translation(did, now),
                Ok(_) => false,
                Err(e) => translation(did, now) == Err::<RequestSpec, ResolverError>(e),
            },
    {
        match crate::request::build_request_at(&did, now) {
            Ok(request) => Ok(Resolution::Primary { did, request }),
            Err(e) => Err(e),
        }
    }

    /// Parses a `did:indy` URL and starts resolving it at the clock's current
    /// time.
    pub fn begin(did_url: &str) -> (r: core::result::Result<Resolution, ResolverError>)
        ensures
            url_parts(did_url@) is None ==> r == Err::<Resolution, ResolverError>(
                ResolverError::MalformedIdentifier,
            ),
            match r {
                Ok(Resolution::Primary { did, request }) => match url_parts(did_url@) {
                    Some(u) => u.namespace == did.namespace@ && u.id == did.id@ && u.query
                        == query_view(did.query@) && (u.path is None <==> did.path is None)
                        && exists|now: i64|
                        Ok::<RequestSpec, ResolverError>(request@) == #[trigger] translation(did, now),
                    None => false,
                },
                Ok(_) => false,
                Err(e) => (url_parts(did_url@) is None && e == ResolverError::MalformedIdentifier) || (
                url_parts(did_url@) is Some && e == ResolverError::MalformedTimestamp),
            },
    {
        let did = DidUrl::parse(did_url)?;
        assert forall|now: i64| #[trigger] translation(did, now) is Err implies translation(did, now)
            == Err::<RequestSpec, ResolverError>(ResolverError::MalformedTimestamp) by {}
        Resolution::start(did)
    }

    /// Starts resolving `did` at the clock's current time.
    pub fn start(did: DidUrl) -> (r: core::result::Result<Resolution, ResolverError>)
        ensures
            exists|now: i64|
                match r {
                    Ok(Resolution::Primary { did: d, request }) => d == did && Ok::<RequestSpec, ResolverError>(request@) == #[trigger] translation(did, now),
                    Ok(_) => false,
                    Err(e) => #[trigger] translation(did, now) == Err::<RequestSpec, ResolverError>(e),
                },
    {
        match build_request(&did) {
            Ok(request) => Ok(Resolution::Primary { did, request }),
            Err(e) => Err(e),
        }
    }
}

/// Goes on from a decoded NYM record: a record without document content asks
/// for exactly one more request, that of the subject's legacy endpoint; a
/// record with it finishes with its document at once.
pub fn after_nym(namespace: String, id: &String, record: NymRecord, node_response: Value) -> (r: Step)
    ensures
        record.diddoc_content is None ==> match r {
            Step::Pending(Resolution::LegacyEndpoint { namespace: n, record: rec, request, .. }) =>
                n == namespace && rec == record && request@ == legacy_endpoint_request(id@),
            _ => false,
        },
        record.diddoc_content is Some ==> match r {
            Step::Finished(Result::DidDocument(doc), meta) =>
                doc.namespace == namespace && doc.id == record.dest && doc.verkey == record.verkey
                    && doc.endpoint is None && meta.object_type@ == "NYM"@,
            _ => false,
        },
{
    if record.diddoc_content.is_none() {
        let request = LedgerRequest::GetAttrib {
            dest: id.clone(),
            raw: String::from_str(LEGACY_INDY_SERVICE),
        };
        Step::Pending(Resolution::LegacyEndpoint { namespace, record, node_response, request })
    } else {
        let doc = DidDocument {
            namespace,
            id: record.dest,
            verkey: record.verkey,
            endpoint: None,
        };
        Step::Finished(
            Result::DidDocument(doc),
            ContentMetadata { node_response, object_type: String::from_str("NYM") },
        )
    }
}

/// The mathematical value of an optional list of endpoints.
pub open spec fn endpoint_view(e: Option<Vec<(String, String)>>) -> Option<
    Seq<(Seq<char>, Seq<char>)>,
> {
    match e {
        Some(v) => Some(pair_texts(v@)),
        None => None,
    }
}

/// The legacy endpoints that the reply to a get-attribute request yields:
/// none where the request failed or its payload is missing or undecodable.
pub open spec fn fetched_endpoint(reply: core::result::Result<String, String>) -> Option<
    Seq<(Seq<char>, Seq<char>)>,
> {
    match reply {
        Err(_) => None,
        Ok(raw) => match reply_payload(raw@) {
            Ok(d) => endpoint_of(d),
            Err(_) => None,
        },
    }
}

/// Finishes a resolution that waited on the legacy endpoint: the endpoint is
/// attached where the reply held one, and any failure to get it is taken as no
/// endpoint at all.
pub fn after_legacy_endpoint(
    namespace: String,
    record: NymRecord,
    node_response: Value,
    reply: core::result::Result<String, String>,
) -> (r: Step)
    ensures
        match r {
            Step::Finished(Result::DidDocument(doc), meta) => doc.namespace == namespace && doc.id
                == record.dest && doc.verkey == record.verkey && meta.object_type@ == "NYM"@
                && endpoint_view(doc.endpoint) == fetched_endpoint(reply),
            _ => false,
        },
{
    let endpoint = match &reply {
        Ok(raw) => match parse_ledger_data(raw.as_str()) {
            Ok(data) => match decode_endpoint(data.as_str()) {
                Ok(e) => Some(e),
                Err(_) => None,
            },
            Err(_) => None,
        },
        Err(_) => None,
    };
    let doc = DidDocument { namespace, id: record.dest, verkey: record.verkey, endpoint };
    Step::Finished(
        Result::DidDocument(doc),
        ContentMetadata { node_response, object_type: String::from_str("NYM") },
    )
}

impl Resolution {
    /// Goes on from the reply to the pending request. `reply` is the ledger's
    /// raw reply text, or the description of the failure that the execution
    /// service reported. The object itself fails on either kind of failure; a
    /// legacy endpoint never fails and never asks for a further request.
    pub fn on_reply(self, reply: core::result::Result<String, String>) -> (r:
        core::result::Result<Step, ResolverError>)
        ensures
            match self {
                Resolution::Primary { did, request } => match reply {
                    Err(msg) => r == Err::<Step, ResolverError>(
                        ResolverError::ExecutionFailure(msg),
                    ),
                    Ok(raw) => match reply_payload(raw@) {
                        Err(e) => r == Err::<Step, ResolverError>(e),
                        Ok(d) => match request@ {
                            RequestSpec::GetNym { .. } => match nym_of(d) {
                                Err(e) => r == Err::<Step, ResolverError>(e),
                                Ok(n) => match r {
                                    Ok(
                                        Step::Pending(
                                            Resolution::LegacyEndpoint {
                                                namespace,
                                                record,
                                                request: next,
                                                ..
                                            },
                                        ),
                                    ) => n.2 is None && nym_view(record) == n && namespace
                                        == did.namespace && next@ == legacy_endpoint_request(
                                        did.id@,
                                    ),
                                    Ok(Step::Finished(Result::DidDocument(doc), meta)) => n.2 is Some
                                        && doc.namespace == did.namespace && doc.id@ == n.0
                                        && doc.verkey@ == n.1 && doc.endpoint is None
                                        && meta.object_type@ == "NYM"@,
                                    _ => false,
                                },
                            },
                            _ => if is_json(d) {
                                match r {
                                    Ok(Step::Finished(Result::Content(_), meta)) =>
                                        meta.object_type@ == object_type_of(request@),
                                    _ => false,
                                }
                            } else {
                                r == Err::<Step, ResolverError>(ResolverError::DecodeFailure)
                            },
                        },
                    },
                },
                Resolution::LegacyEndpoint { namespace, record, .. } => match r {
                    Ok(Step::Finished(Result::DidDocument(doc), meta)) => doc.namespace == namespace
                        && doc.id == record.dest && doc.verkey == record.verkey
                        && meta.object_type@ == "NYM"@ && endpoint_view(doc.endpoint)
                        == fetched_endpoint(reply),
                    _ => false,
                },
            },
    {
        match self {
            Resolution::Primary { did, request } => {
                let raw = match reply {
                    Ok(raw) => raw,
                    Err(msg) => return Err(ResolverError::ExecutionFailure(msg)),
                };
                let data = parse_ledger_data(raw.as_str())?;
                let node_response = match parse_json(raw.as_str()) {
                    Ok(v) => v,
                    Err(_) => return Err(ResolverError::DecodeFailure),
                };
                match request {
                    LedgerRequest::GetNym { .. } => {
                        let record = decode_nym(data.as_str())?;
                        let DidUrl { namespace, id, .. } = did;
                        Ok(after_nym(namespace, &id, record, node_response))
                    },
                    _ => {
                        let content = match parse_json(data.as_str()) {
                            Ok(v) => v,
                            Err(_) => return Err(ResolverError::DecodeFailure),
                        };
                        let object_type = object_type(&request);
                        Ok(Step::Finished(Result::Content(content), ContentMetadata { node_response, object_type }))
                    },
                }
            },
            Resolution::LegacyEndpoint { namespace, record, node_response, .. } => {
                Ok(after_legacy_endpoint(namespace, record, node_response, reply))
            },
        }
    }
}

/// Wraps a resolved object as the result of resolving a subject: a document
/// is its payload, raw content is not; no resolution metadata is set.
pub fn resolution_result(data: Result, metadata: ContentMetadata) -> (r: ResolutionResult)
    ensures
        r.did_resolution_metadata is None,
        r.did_document_metadata == Some(metadata),
        match data {
            Result::DidDocument(d) => r.did_document == Some(d),
            Result::Content(_) => r.did_document is None,
        },
{
    let did_document = match data {
        Result::DidDocument(d) => Some(d),
        Result::Content(_) => None,
    };
    ResolutionResult {
        did_resolution_metadata: None,
        did_document,
        did_document_metadata: Some(metadata),
    }
}

/// Wraps a resolved object as the result of dereferencing it: raw content is
/// its payload, a document is not; no dereferencing metadata is set.
pub fn dereferencing_result(data: Result, metadata: ContentMetadata) -> (r: DereferencingResult)
    ensures
        r.dereferencing_metadata is None,
        r.content_metadata == Some(metadata),
        match data {
            Result::Content(c) => r.content_stream == Some(c),
            Result::DidDocument(_) => r.content_stream is None,
        },
{
    let content_stream = match data {
        Result::Content(c) => Some(c),
        Result::DidDocument(_) => None,
    };
    DereferencingResult {
        dereferencing_metadata: None,
        content_stream,
        content_metadata: Some(metadata),
    }
}

} // verus!
