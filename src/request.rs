use vstd::prelude::*;
use vstd::string::StringExecFns;

use crate::did_url::{query_lookup, DidUrl, LedgerObject, QueryParameter};
use crate::error::ResolverError;

verus! {

/// Transaction type of a get-attribute request.
pub const GET_ATTR: &'static str = "104";
/// Transaction type of a get-NYM request.
pub const GET_NYM: &'static str = "105";
/// Transaction type of a get-schema request.
pub const GET_SCHEMA: &'static str = "107";
/// Transaction type of a get-credential-definition request.
pub const GET_CRED_DEF: &'static str = "108";
/// Transaction type of a get-revocation-registry-definition request.
pub const GET_REVOC_REG_DEF: &'static str = "115";
/// Transaction type of a get-revocation-registry-state request.
pub const GET_REVOC_REG: &'static str = "116";
/// Transaction type of a get-revocation-registry-delta request.
pub const GET_REVOC_REG_DELTA: &'static str = "117";

/// Name of the attribute that holds a legacy service endpoint.
pub const LEGACY_INDY_SERVICE: &'static str = "endpoint";

/// A ledger read request, with everything the ledger needs to answer it.
/// Timestamps are seconds since the Unix epoch.
#[derive(Debug, PartialEq, Eq)]
pub enum LedgerRequest {
    GetNym { dest: String },
    GetAttrib { dest: String, raw: String },
    GetSchema { dest: String, name: String, version: String },
    GetCredDef { id: String },
    GetRevocRegDef { id: String },
    GetRevocReg { id: String, timestamp: i64 },
    GetRevocRegDelta { id: String, from: Option<i64>, to: i64 },
}

/// The mathematical value of a [`LedgerRequest`].
pub ghost enum RequestSpec {
    GetNym { dest: Seq<char> },
    GetAttrib { dest: Seq<char>, raw: Seq<char> },
    GetSchema { dest: Seq<char>, name: Seq<char>, version: Seq<char> },
    GetCredDef { id: Seq<char> },
    GetRevocRegDef { id: Seq<char> },
    GetRevocReg { id: Seq<char>, timestamp: i64 },
    GetRevocRegDelta { id: Seq<char>, from: Option<i64>, to: i64 },
}

impl View for LedgerRequest {
    type V = RequestSpec;

    open spec fn view(&self) -> RequestSpec {
        match self {
            LedgerRequest::GetNym { dest } => RequestSpec::GetNym { dest: dest@ },
            LedgerRequest::GetAttrib { dest, raw } => RequestSpec::GetAttrib {
                dest: dest@,
                raw: raw@,
            },
            LedgerRequest::GetSchema { dest, name, version } => RequestSpec::GetSchema {
                dest: dest@,
                name: name@,
                version: version@,
            },
            LedgerRequest::GetCredDef { id } => RequestSpec::GetCredDef { id: id@ },
            LedgerRequest::GetRevocRegDef { id } => RequestSpec::GetRevocRegDef { id: id@ },
            LedgerRequest::GetRevocReg { id, timestamp } => RequestSpec::GetRevocReg {
                id: id@,
                timestamp: *timestamp,
            },
            LedgerRequest::GetRevocRegDelta { id, from, to } => RequestSpec::GetRevocRegDelta {
                id: id@,
                from: *from,
                to: *to,
            },
        }
    }
}

/// The transaction type that the ledger assigns to a request.
pub open spec fn spec_txn_type(r: RequestSpec) -> Seq<char> {
    match r {
        RequestSpec::GetNym { .. } => GET_NYM@,
        RequestSpec::GetAttrib { .. } => GET_ATTR@,
        RequestSpec::GetSchema { .. } => GET_SCHEMA@,
        RequestSpec::GetCredDef { .. } => GET_CRED_DEF@,
        RequestSpec::GetRevocRegDef { .. } => GET_REVOC_REG_DEF@,
        RequestSpec::GetRevocReg { .. } => GET_REVOC_REG@,
        RequestSpec::GetRevocRegDelta { .. } => GET_REVOC_REG_DELTA@,
    }
}

impl LedgerRequest {
    /// The transaction type of this request.
    pub fn txn_type(&self) -> (r: &'static str)
        ensures
            r@ == spec_txn_type(self@),
    {
        match self {
            LedgerRequest::GetNym { .. } => GET_NYM,
            LedgerRequest::GetAttrib { .. } => GET_ATTR,
            LedgerRequest::GetSchema { .. } => GET_SCHEMA,
            LedgerRequest::GetCredDef { .. } => GET_CRED_DEF,
            LedgerRequest::GetRevocRegDef { .. } => GET_REVOC_REG_DEF,
            LedgerRequest::GetRevocReg { .. } => GET_REVOC_REG,
            LedgerRequest::GetRevocRegDelta { .. } => GET_REVOC_REG_DELTA,
        }
    }
}

/// The seconds since the Unix epoch of an RFC 3339 date, or `None` where the
/// text is no such date.
pub uninterp spec fn rfc3339_seconds(s: Seq<char>) -> Option<i64>;

/// Relies on chrono's `DateTime::parse_from_rfc3339`, then `DateTime::timestamp`:
/// the seconds since the Unix epoch of the date the text gives, or `None` where
/// the text is no RFC 3339 date.
#[verifier::external_body]
fn parse_rfc3339(s: &str) -> (r: Option<i64>)
    ensures
        r == rfc3339_seconds(s@),
{
    chrono::DateTime::parse_from_rfc3339(s).ok().map(|d| d.timestamp())
}

/// Relies on chrono's `Utc::now`, then `DateTime::timestamp`: the current time
/// in seconds since the Unix epoch. Nothing is known of its value.
#[verifier::external_body]
fn now_seconds() -> (r: i64) {
    chrono::Utc::now().timestamp()
}

/// The credential definition identifier `<did>:3:CL:<seq_no>:<name>`.
pub open spec fn cred_def_id(did: Seq<char>, seq_no: Seq<char>, name: Seq<char>) -> Seq<char> {
    did + ":3:CL:"@ + seq_no + ":"@ + name
}

/// The revocation registry identifier
/// `<did>:4:<did>:3:CL:<seq_no>:<cred_def_name>:CL_ACCUM:<tag>`.
pub open spec fn rev_reg_id(
    did: Seq<char>,
    seq_no: Seq<char>,
    cred_def_name: Seq<char>,
    tag: Seq<char>,
) -> Seq<char> {
    did + ":4:"@ + cred_def_id(did, seq_no, cred_def_name) + ":CL_ACCUM:"@ + tag
}

/// A timestamp taken from an optional query value: the value's date where it is
/// one, `now` where the value is absent, and an error where it is no date.
pub open spec fn timestamp_or_now(v: Option<Seq<char>>, now: i64) -> Result<i64, ResolverError> {
    match v {
        None => Ok(now),
        Some(s) => match rfc3339_seconds(s) {
            Some(t) => Ok(t),
            None => Err(ResolverError::MalformedTimestamp),
        },
    }
}

/// An optional lower bound taken from an optional query value: absent stays
/// absent, a date gives its seconds, anything else is an error.
pub open spec fn optional_timestamp(v: Option<Seq<char>>) -> Result<Option<i64>, ResolverError> {
    match v {
        None => Ok(None),
        Some(s) => match rfc3339_seconds(s) {
            Some(t) => Ok(Some(t)),
            None => Err(ResolverError::MalformedTimestamp),
        },
    }
}

/// The request that `did` translates to, where "now" is `now`.
pub open spec fn translation(did: DidUrl, now: i64) -> Result<RequestSpec, ResolverError> {
    let q = did.query@;
    match did.path {
        None => Ok(RequestSpec::GetNym { dest: did.id@ }),
        Some(LedgerObject::Schema { name, version }) => Ok(
            RequestSpec::GetSchema { dest: did.id@, name: name@, version: version@ },
        ),
        Some(LedgerObject::ClaimDef { schema_seq_no, name }) => Ok(
            RequestSpec::GetCredDef { id: cred_def_id(did.id@, schema_seq_no@, name@) },
        ),
        Some(LedgerObject::RevRegDef { schema_seq_no, claim_def_name, tag }) => Ok(
            RequestSpec::GetRevocRegDef {
                id: rev_reg_id(did.id@, schema_seq_no@, claim_def_name@, tag@),
            },
        ),
        Some(LedgerObject::RevRegEntry { schema_seq_no, claim_def_name, tag }) => {
            match timestamp_or_now(query_lookup(q, QueryParameter::VersionTime), now) {
                Ok(t) => Ok(
                    RequestSpec::GetRevocReg {
                        id: rev_reg_id(did.id@, schema_seq_no@, claim_def_name@, tag@),
                        timestamp: t,
                    },
                ),
                Err(e) => Err(e),
            }
        },
        Some(LedgerObject::RevRegDelta { schema_seq_no, claim_def_name, tag }) => {
            match optional_timestamp(query_lookup(q, QueryParameter::From)) {
                Err(e) => Err(e),
                Ok(from) => match timestamp_or_now(query_lookup(q, QueryParameter::To), now) {
                    Ok(to) => Ok(
                        RequestSpec::GetRevocRegDelta {
                            id: rev_reg_id(did.id@, schema_seq_no@, claim_def_name@, tag@),
                            from,
                            to,
                        },
                    ),
                    Err(e) => Err(e),
                },
            }
        },
    }
}

/// The mathematical value of a translation result.
pub open spec fn request_result(r: Result<LedgerRequest, ResolverError>) -> Result<
    RequestSpec,
    ResolverError,
> {
    match r {
        Ok(q) => Ok(q@),
        Err(e) => Err(e),
    }
}

fn make_cred_def_id(did: &String, seq_no: &String, name: &String) -> (r: String)
    ensures
        r@ == cred_def_id(did@, seq_no@, name@),
{
    let mut s = String::from_str(did.as_str());
    s.append(":3:CL:");
    s.append(seq_no.as_str());
    s.append(":");
    s.append(name.as_str());
    s
}

fn make_rev_reg_id(did: &String, seq_no: &String, cred_def_name: &String, tag: &String) -> (r:
    String)
    ensures
        r@ == rev_reg_id(did@, seq_no@, cred_def_name@, tag@),
{
    let cd = make_cred_def_id(did, seq_no, cred_def_name);
    let mut s = String::from_str(did.as_str());
    s.append(":4:");
    s.append(cd.as_str());
    s.append(":CL_ACCUM:");
    s.append(tag.as_str());
    s
}

fn timestamp_from(v: Option<&String>, now: i64) -> (r: Result<i64, ResolverError>)
    ensures
        r == timestamp_or_now(
            match v {
                Some(s) => Some(s@),
                None => None,
            },
            now,
        ),
{
    match v {
        None => Ok(now),
        Some(s) => match parse_rfc3339(s.as_str()) {
            Some(t) => Ok(t),
            None => Err(ResolverError::MalformedTimestamp),
        },
    }
}


fn optional_timestamp_from(v: Option<&String>) -> (r: Result<Option<i64>, ResolverError>)
    ensures
        r == optional_timestamp(
            match v {
                Some(s) => Some(s@),
                None => None,
            },
        ),
{
    match v {
        None => Ok(None),
        Some(s) => match parse_rfc3339(s.as_str()) {
            Some(t) => Ok(Some(t)),
            None => Err(ResolverError::MalformedTimestamp),
        },
    }
}

/// Translates a parsed identifier into the ledger request that fetches its
/// object, taking `now` as the current time wherever a timestamp defaults to
/// it.
pub fn build_request_at(did: &DidUrl, now: i64) -> (r: Result<LedgerRequest, ResolverError>)
    ensures
        request_result(r) == translation(*did, now),
{
    match &did.path {
        None => Ok(LedgerRequest::GetNym { dest: did.id.clone() }),
        Some(LedgerObject::Schema { name, version }) => Ok(
            LedgerRequest::GetSchema {
                dest: did.id.clone(),
                name: name.clone(),
                version: version.clone(),
            },
        ),
        Some(LedgerObject::ClaimDef { schema_seq_no, name }) => Ok(
            LedgerRequest::GetCredDef { id: make_cred_def_id(&did.id, schema_seq_no, name) },
        ),
        Some(LedgerObject::RevRegDef { schema_seq_no, claim_def_name, tag }) => Ok(
            LedgerRequest::GetRevocRegDef {
                id: make_rev_reg_id(&did.id, schema_seq_no, claim_def_name, tag),
            },
        ),
        Some(LedgerObject::RevRegEntry { schema_seq_no, claim_def_name, tag }) => {
            let timestamp = timestamp_from(did.query_value(QueryParameter::VersionTime), now)?;
            Ok(
                LedgerRequest::GetRevocReg {
                    id: make_rev_reg_id(&did.id, schema_seq_no, claim_def_name, tag),
                    timestamp,
                },
            )
        },
        Some(LedgerObject::RevRegDelta { schema_seq_no, claim_def_name, tag }) => {
            let from = optional_timestamp_from(did.query_value(QueryParameter::From))?;
            let to = timestamp_from(did.query_value(QueryParameter::To), now)?;
            Ok(
                LedgerRequest::GetRevocRegDelta {
                    id: make_rev_reg_id(&did.id, schema_seq_no, claim_def_name, tag),
                    from,
                    to,
                },
            )
        },
    }
}

/// Translates a parsed identifier into the ledger request that fetches its
/// object, taking the clock's current time wherever a timestamp defaults to it.
pub fn build_request(did: &DidUrl) -> (r: Result<LedgerRequest, ResolverError>)
    ensures
        exists|now: i64| request_result(r) == #[trigger] translation(*did, now),
{
    let now = now_seconds();
    build_request_at(did, now)
}


/// A revocation registry entry read with a valid `versionTime` is read at
/// exactly that date's seconds since the epoch.
pub proof fn rev_reg_entry_at_version_time(did: DidUrl, now: i64, v: Seq<char>, t: i64)
    requires
        did.path matches Some(LedgerObject::RevRegEntry { .. }),
        query_lookup(did.query@, QueryParameter::VersionTime) == Some(v),
        rfc3339_seconds(v) == Some(t),
    ensures
        translation(did, now) matches Ok(RequestSpec::GetRevocReg { timestamp, .. }) && timestamp == t,
{
}

/// A revocation registry entry read without `versionTime` is read at the
/// current time.
pub proof fn rev_reg_entry_defaults_to_now(did: DidUrl, now: i64)
    requires
        did.path matches Some(LedgerObject::RevRegEntry { .. }),
        query_lookup(did.query@, QueryParameter::VersionTime) is None,
    ensures
        translation(did, now) matches Ok(RequestSpec::GetRevocReg { timestamp, .. }) && timestamp == now,
{
}

/// A revocation registry entry read with a `versionTime` that is no date fails
/// with `MalformedTimestamp`.
pub proof fn rev_reg_entry_rejects_bad_version_time(did: DidUrl, now: i64, v: Seq<char>)
    requires
        did.path matches Some(LedgerObject::RevRegEntry { .. }),
        query_lookup(did.query@, QueryParameter::VersionTime) == Some(v),
        rfc3339_seconds(v) is None,
    ensures
        translation(did, now) == Err::<RequestSpec, ResolverError>(ResolverError::MalformedTimestamp),
{
}

/// A revocation registry delta with `from` and `to` both valid dates
/// translates to a delta request.
pub proof fn rev_reg_delta_with_bounds(did: DidUrl, now: i64, f: Seq<char>, t: Seq<char>)
    requires
        did.path matches Some(LedgerObject::RevRegDelta { .. }),
        query_lookup(did.query@, QueryParameter::From) == Some(f),
        query_lookup(did.query@, QueryParameter::To) == Some(t),
        rfc3339_seconds(f) is Some,
        rfc3339_seconds(t) is Some,
    ensures
        translation(did, now) matches Ok(q) && spec_txn_type(q) == GET_REVOC_REG_DELTA@,
        translation(did, now) matches Ok(RequestSpec::GetRevocRegDelta { from, to, .. })
            && from == rfc3339_seconds(f) && Some(to) == rfc3339_seconds(t),
{
}

/// A revocation registry delta without `from` has no lower bound, and its
/// upper bound is no earlier than now where `to` is absent or a date no
/// earlier than now.
pub proof fn rev_reg_delta_without_from(did: DidUrl, now: i64)
    requires
        did.path matches Some(LedgerObject::RevRegDelta { .. }),
        query_lookup(did.query@, QueryParameter::From) is None,
        match query_lookup(did.query@, QueryParameter::To) {
            None => true,
            Some(t) => rfc3339_seconds(t) matches Some(x) && x >= now,
        },
    ensures
        translation(did, now) matches Ok(RequestSpec::GetRevocRegDelta { from, to, .. })
            && from is None && to >= now,
{
}

/// A revocation registry delta with neither `from` nor `to` has no lower
/// bound and ends now.
pub proof fn rev_reg_delta_unbounded(did: DidUrl, now: i64)
    requires
        did.path matches Some(LedgerObject::RevRegDelta { .. }),
        query_lookup(did.query@, QueryParameter::From) is None,
        query_lookup(did.query@, QueryParameter::To) is None,
    ensures
        translation(did, now) matches Ok(RequestSpec::GetRevocRegDelta { from, to, .. })
            && from is None && to == now,
{
}

/// A schema's name reaches the request exactly as the identifier holds it,
/// spaces included.
pub proof fn schema_name_verbatim(did: DidUrl, now: i64)
    requires
        did.path matches Some(LedgerObject::Schema { .. }),
    ensures
        translation(did, now) matches Ok(RequestSpec::GetSchema { name, version, dest })
            && dest == did.id@ && (did.path matches Some(LedgerObject::Schema { name: n, version: v })
            && name == n@ && version == v@),
{
}

} // verus!
