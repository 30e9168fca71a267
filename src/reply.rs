use vstd::prelude::*;

use serde_json::Value;

use crate::error::ResolverError;

verus! {

#[verifier::external_type_specification]
#[verifier::external_body]
pub struct ExValue(serde_json::Value);

#[verifier::external_type_specification]
#[verifier::external_body]
pub struct ExJsonError(serde_json::Error);

/// Whether the text is a JSON document.
pub uninterp spec fn is_json(s: Seq<char>) -> bool;

/// The JSON text of the member `key` of the object that `s` holds; `None`
/// where `s` is no JSON object or has no such member.
pub uninterp spec fn json_member_text(s: Seq<char>, key: Seq<char>) -> Option<Seq<char>>;

/// Whether `s` is the JSON document `null`.
pub uninterp spec fn json_null_text(s: Seq<char>) -> bool;

/// The string that the JSON text `s` holds; `None` where it holds no string.
pub uninterp spec fn json_string_text(s: Seq<char>) -> Option<Seq<char>>;

/// The members of the object that `s` holds, each name with the JSON text
/// of its value, in the order of the map; `None` where `s` is no JSON object.
pub uninterp spec fn json_object_members(s: Seq<char>) -> Option<Seq<(Seq<char>, Seq<char>)>>;

/// The texts of a sequence of pairs of strings.
pub open spec fn pair_texts(v: Seq<(String, String)>) -> Seq<(Seq<char>, Seq<char>)> {
    v.map_values(|p: (String, String)| (p.0@, p.1@))
}

/// Relies on `serde_json::from_str` read as a `Value`: it succeeds exactly on
/// JSON text.
#[verifier::external_body]
pub(crate) fn parse_json(s: &str) -> (r: Result<Value, serde_json::Error>)
    ensures
        r is Ok <==> is_json(s@),
{
    serde_json::from_str(s)
}

/// Relies on `serde_json::from_str` read as a `Value`, `Value::get` with a
/// key, and `Value`'s `Display`, which writes JSON text: the text of a member
/// of an object.
#[verifier::external_body]
fn json_member(s: &str, key: &str) -> (r: Option<String>)
    ensures
        match r {
            Some(m) => json_member_text(s@, key@) == Some(m@),
            None => json_member_text(s@, key@) is None,
        },
{
    serde_json::from_str::<Value>(s).ok().and_then(|v| v.get(key).map(|m| m.to_string()))
}

/// Relies on `serde_json::from_str` read as a `Value`, and `Value::is_null`.
#[verifier::external_body]
fn json_is_null(s: &str) -> (r: bool)
    ensures
        r == json_null_text(s@),
{
    serde_json::from_str::<Value>(s).map_or(false, |v| v.is_null())
}

/// Relies on `serde_json::from_str` read as a `String`: the string that a
/// JSON string holds.
#[verifier::external_body]
fn json_string(s: &str) -> (r: Option<String>)
    ensures
        match r {
            Some(t) => json_string_text(s@) == Some(t@),
            None => json_string_text(s@) is None,
        },
{
    serde_json::from_str::<String>(s).ok()
}

/// Relies on `serde_json::from_str` read as a `Value`, `Value::as_object`,
/// and `Value`'s `Display`: the members of an object with the JSON text of
/// each value.
#[verifier::external_body]
fn json_members(s: &str) -> (r: Option<Vec<(String, String)>>)
    ensures
        match r {
            Some(v) => json_object_members(s@) == Some(pair_texts(v@)),
            None => json_object_members(s@) is None,
        },
{
    serde_json::from_str::<Value>(s).ok().and_then(
        |v| v.as_object().map(|m| m.iter().map(|(k, x)| (k.clone(), x.to_string())).collect()),
    )
}

/// What a raw ledger reply holds: the JSON text of its payload, the field
/// `result.data`, or the error that decoding it fails with. A null or missing
/// payload means that the ledger holds no such record.
pub open spec fn reply_payload(raw: Seq<char>) -> Result<Seq<char>, ResolverError> {
    if !is_json(raw) {
        Err(ResolverError::DecodeFailure)
    } else {
        match json_member_text(raw, "result"@) {
            None => Err(ResolverError::EmptyData),
            Some(res) => match json_member_text(res, "data"@) {
                None => Err(ResolverError::EmptyData),
                Some(d) => if json_null_text(d) {
                    Err(ResolverError::EmptyData)
                } else {
                    Ok(d)
                },
            },
        }
    }
}

/// The mathematical value of a result that holds a text.
pub open spec fn text_result(r: Result<String, ResolverError>) -> Result<Seq<char>, ResolverError> {
    match r {
        Ok(t) => Ok(t@),
        Err(e) => Err(e),
    }
}

/// Extracts the JSON text of the payload, the field `result.data`, of a raw
/// ledger reply.
pub fn parse_ledger_data(ledger_data: &str) -> (r: Result<String, ResolverError>)
    ensures
        text_result(r) == reply_payload(ledger_data@),
{
    match parse_json(ledger_data) {
        Err(_) => return Err(ResolverError::DecodeFailure),
        Ok(_) => {},
    }
    let res = match json_member(ledger_data, "result") {
        Some(m) => m,
        None => return Err(ResolverError::EmptyData),
    };
    let data = match json_member(res.as_str(), "data") {
        Some(m) => m,
        None => return Err(ResolverError::EmptyData),
    };
    if json_is_null(data.as_str()) {
        Err(ResolverError::EmptyData)
    } else {
        Ok(data)
    }
}

/// Decoding a reply whose `result.data` is null yields `EmptyData`, never a
/// payload.
pub proof fn null_reply_data_is_empty(raw: Seq<char>, res: Seq<char>, d: Seq<char>)
    requires
        is_json(raw),
        json_member_text(raw, "result"@) == Some(res),
        json_member_text(res, "data"@) == Some(d),
        json_null_text(d),
    ensures
        reply_payload(raw) == Err::<Seq<char>, ResolverError>(ResolverError::EmptyData),
{
}

/// A NYM record as the ledger stores it.
#[derive(Debug, PartialEq, Eq)]
pub struct NymRecord {
    pub dest: String,
    pub verkey: String,
    pub diddoc_content: Option<String>,
}

/// The mathematical value of a NYM record: destination, verification key and
/// document content.
pub open spec fn nym_view(n: NymRecord) -> (Seq<char>, Seq<char>, Option<Seq<char>>) {
    (
        n.dest@,
        n.verkey@,
        match n.diddoc_content {
            Some(c) => Some(c@),
            None => None,
        },
    )
}

/// The string member `key` of the object that `text` holds.
pub open spec fn string_member_of(text: Seq<char>, key: Seq<char>) -> Option<Seq<char>> {
    match json_member_text(text, key) {
        Some(m) => json_string_text(m),
        None => None,
    }
}

/// The optional string member `key` of the object that `text` holds: absent
/// and null are both `Some(None)`; anything but a string is `None`.
pub open spec fn optional_string_member_of(text: Seq<char>, key: Seq<char>) -> Option<
    Option<Seq<char>>,
> {
    match json_member_text(text, key) {
        None => Some(None),
        Some(m) => if json_null_text(m) {
            Some(None)
        } else {
            match json_string_text(m) {
                Some(s) => Some(Some(s)),
                None => None,
            }
        },
    }
}

/// The NYM record that a get-NYM payload holds: a JSON string whose text is
/// an object with the string members `dest` and `verkey` and an optional
/// string `diddoc_content`.
pub open spec fn nym_of(data: Seq<char>) -> Result<
    (Seq<char>, Seq<char>, Option<Seq<char>>),
    ResolverError,
> {
    match json_string_text(data) {
        None => Err(ResolverError::DecodeFailure),
        Some(text) => match (
            string_member_of(text, "dest"@),
            string_member_of(text, "verkey"@),
            optional_string_member_of(text, "diddoc_content"@),
        ) {
            (Some(dest), Some(verkey), Some(content)) => Ok((dest, verkey, content)),
            _ => Err(ResolverError::DecodeFailure),
        },
    }
}

fn string_member(text: &str, key: &str) -> (r: Option<String>)
    ensures
        match r {
            Some(s) => string_member_of(text@, key@) == Some(s@),
            None => string_member_of(text@, key@) is None,
        },
{
    match json_member(text, key) {
        Some(m) => json_string(m.as_str()),
        None => None,
    }
}

fn optional_string_member(text: &str, key: &str) -> (r: Option<Option<String>>)
    ensures
        match r {
            Some(Some(s)) => optional_string_member_of(text@, key@) == Some(Some(s@)),
            Some(None) => optional_string_member_of(text@, key@) == Some(None::<Seq<char>>),
            None => optional_string_member_of(text@, key@) is None,
        },
{
    match json_member(text, key) {
        None => Some(None),
        Some(m) => {
            if json_is_null(m.as_str()) {
                Some(None)
            } else {
                match json_string(m.as_str()) {
                    Some(s) => Some(Some(s)),
                    None => None,
                }
            }
        },
    }
}

/// Decodes the payload of a get-NYM reply.
pub fn decode_nym(data: &str) -> (r: Result<NymRecord, ResolverError>)
    ensures
        match r {
            Ok(n) => nym_of(data@) == Ok::<_, ResolverError>(nym_view(n)),
            Err(e) => nym_of(data@) == Err::<(Seq<char>, Seq<char>, Option<Seq<char>>), _>(e),
        },
{
    let text = match json_string(data) {
        Some(t) => t,
        None => return Err(ResolverError::DecodeFailure),
    };
    let dest = string_member(text.as_str(), "dest");
    let verkey = string_member(text.as_str(), "verkey");
    let content = optional_string_member(text.as_str(), "diddoc_content");
    match (dest, verkey, content) {
        (Some(dest), Some(verkey), Some(diddoc_content)) => Ok(
            NymRecord { dest, verkey, diddoc_content },
        ),
        _ => Err(ResolverError::DecodeFailure),
    }
}

/// The members whose values are all JSON strings, with those strings;
/// `None` where one is not.
pub open spec fn string_values(m: Seq<(Seq<char>, Seq<char>)>) -> Option<
    Seq<(Seq<char>, Seq<char>)>,
>
    decreases m.len(),
{
    if m.len() == 0 {
        Some(Seq::empty())
    } else {
        match (string_values(m.drop_last()), json_string_text(m.last().1)) {
            (Some(p), Some(v)) => Some(p.push((m.last().0, v))),
            _ => None,
        }
    }
}

proof fn lemma_string_values_none(m: Seq<(Seq<char>, Seq<char>)>, i: int)
    requires
        0 <= i <= m.len(),
        string_values(m.subrange(0, i)) is None,
    ensures
        string_values(m) is None,
    decreases m.len() - i,
{
    if i < m.len() {
        assert(m.subrange(0, i + 1).drop_last() =~= m.subrange(0, i));
        lemma_string_values_none(m, i + 1);
    } else {
        assert(m.subrange(0, i) =~= m);
    }
}

/// The legacy service endpoints that a get-attribute payload holds: a JSON
/// string whose text is an object whose member `endpoint` is an object of
/// string members, service name to address.
pub open spec fn endpoint_of(data: Seq<char>) -> Option<Seq<(Seq<char>, Seq<char>)>> {
    match json_string_text(data) {
        None => None,
        Some(text) => match json_member_text(text, "endpoint"@) {
            None => None,
            Some(e) => match json_object_members(e) {
                None => None,
                Some(m) => string_values(m),
            },
        },
    }
}

/// Decodes the payload of a get-attribute reply for the legacy endpoint.
pub fn decode_endpoint(data: &str) -> (r: Result<Vec<(String, String)>, ResolverError>)
    ensures
        match r {
            Ok(v) => endpoint_of(data@) == Some(pair_texts(v@)),
            Err(e) => e == ResolverError::DecodeFailure && endpoint_of(data@) is None,
        },
{
    let text = match json_string(data) {
        Some(t) => t,
        None => return Err(ResolverError::DecodeFailure),
    };
    let services = match json_member(text.as_str(), "endpoint") {
        Some(m) => m,
        None => return Err(ResolverError::DecodeFailure),
    };
    let entries = match json_members(services.as_str()) {
        Some(e) => e,
        None => return Err(ResolverError::DecodeFailure),
    };
    let ghost m = pair_texts(entries@);
    let mut out: Vec<(String, String)> = Vec::new();
    let mut i: usize = 0;
    assert(m.subrange(0, 0) =~= Seq::<(Seq<char>, Seq<char>)>::empty());
    assert(pair_texts(out@) =~= Seq::<(Seq<char>, Seq<char>)>::empty());
    while i < entries.len()
        invariant
            m == pair_texts(entries@),
            endpoint_of(data@) == string_values(m),
            i <= entries@.len(),
            string_values(m.subrange(0, i as int)) == Some(pair_texts(out@)),
        decreases entries@.len() - i,
    {
        let ghost before = out@;
        assert(m.subrange(0, i + 1).drop_last() =~= m.subrange(0, i as int));
        assert(m.subrange(0, i + 1).last() == m[i as int]);
        assert(m[i as int].1 == entries@[i as int].1@);
        match json_string(entries[i].1.as_str()) {
            Some(s) => {
                let name = entries[i].0.clone();
                out.push((name, s));
                assert(pair_texts(out@) =~= pair_texts(before).push((m[i as int].0, s@)));
            },
            None => {
                proof {
                    assert(json_string_text(m[i as int].1) is None);
                    assert(string_values(m.subrange(0, i + 1)) is None);
                    lemma_string_values_none(m, i + 1);
                }
                return Err(ResolverError::DecodeFailure);
            },
        }
        i = i + 1;
    }
    assert(m.subrange(0, m.len() as int) =~= m);
    Ok(out)
}

} // verus!
