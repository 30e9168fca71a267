use vstd::prelude::*;
use vstd::string::{StrSliceExecFns, StringExecFns};

use crate::error::ResolverError;
use crate::text::{joined, lemma_joined_first, percent_decode, percent_decoded, split_on, split_spec, texts};

verus! {

/// The query parameters a `did:indy` URL may carry.
#[derive(Debug, Clone, Copy, PartialEq, Eq, Structural)]
pub enum QueryParameter {
    VersionId,
    VersionTime,
    From,
    To,
}

/// The ledger object that the path of a `did:indy` URL selects. Every field is
/// already percent-decoded; a schema sequence number is kept as its decimal
/// digits.
#[derive(Debug, PartialEq, Eq)]
pub enum LedgerObject {
    Schema { name: String, version: String },
    ClaimDef { schema_seq_no: String, name: String },
    RevRegDef { schema_seq_no: String, claim_def_name: String, tag: String },
    RevRegEntry { schema_seq_no: String, claim_def_name: String, tag: String },
    RevRegDelta { schema_seq_no: String, claim_def_name: String, tag: String },
}

/// A parsed `did:indy` URL: the namespace, the subject identifier, the
/// ledger object of the path if there is one, and the query parameters in the
/// order they were given.
#[derive(Debug, PartialEq, Eq)]
pub struct DidUrl {
    pub namespace: String,
    pub id: String,
    pub path: Option<LedgerObject>,
    pub query: Vec<(QueryParameter, String)>,
}

/// The value of query parameter `k` in `q`: the last one given wins.
pub open spec fn query_lookup(q: Seq<(QueryParameter, String)>, k: QueryParameter) -> Option<
    Seq<char>,
>
    decreases q.len(),
{
    if q.len() == 0 {
        None
    } else if q.last().0 == k {
        Some(q.last().1@)
    } else {
        query_lookup(q.drop_last(), k)
    }
}

impl DidUrl {
    /// The value of query parameter `k`, if it was given.
    pub fn query_value(&self, k: QueryParameter) -> (r: Option<&String>)
        ensures
            match r {
                Some(v) => query_lookup(self.query@, k) == Some(v@),
                None => query_lookup(self.query@, k) is None,
            },
    {
        let mut i: usize = self.query.len();
        assert(self.query@.subrange(0, i as int) =~= self.query@);
        while i > 0
            invariant
                i <= self.query@.len(),
                query_lookup(self.query@, k) == query_lookup(self.query@.subrange(0, i as int), k),
            decreases i,
        {
            let ghost prefix = self.query@.subrange(0, i as int);
            assert(prefix.drop_last() =~= self.query@.subrange(0, i - 1));
            if self.query[i - 1].0 == k {
                return Some(&self.query[i - 1].1);
            }
            i = i - 1;
        }
        None
    }
}


/// Whether two texts are equal.
fn text_eq(a: &str, b: &str) -> (r: bool)
    ensures
        r == (a@ == b@),
{
    let n = a.unicode_len();
    if n != b.unicode_len() {
        return false;
    }
    let mut i: usize = 0;
    while i < n
        invariant
            n == a@.len() == b@.len(),
            i <= n,
            forall|j: int| 0 <= j < i ==> a@[j] == b@[j],
        decreases n - i,
    {
        if a.get_char(i) != b.get_char(i) {
            return false;
        }
        i = i + 1;
    }
    assert(a@ =~= b@);
    true
}

/// The query parameter that a key names.
pub open spec fn query_parameter_of(k: Seq<char>) -> Option<QueryParameter> {
    if k == "versionId"@ {
        Some(QueryParameter::VersionId)
    } else if k == "versionTime"@ {
        Some(QueryParameter::VersionTime)
    } else if k == "from"@ {
        Some(QueryParameter::From)
    } else if k == "to"@ {
        Some(QueryParameter::To)
    } else {
        None
    }
}

impl QueryParameter {
    /// The query parameter that a key names, if any.
    pub fn parse(k: &str) -> (r: Option<QueryParameter>)
        ensures
            r == query_parameter_of(k@),
    {
        if text_eq(k, "versionId") {
            Some(QueryParameter::VersionId)
        } else if text_eq(k, "versionTime") {
            Some(QueryParameter::VersionTime)
        } else if text_eq(k, "from") {
            Some(QueryParameter::From)
        } else if text_eq(k, "to") {
            Some(QueryParameter::To)
        } else {
            None
        }
    }
}

/// Whether a text is a nonempty run of decimal digits.
pub open spec fn is_seq_no(s: Seq<char>) -> bool {
    s.len() > 0 && forall|j: int| 0 <= j < s.len() ==> '0' <= #[trigger] s[j] && s[j] <= '9'
}

fn seq_no_text(s: &str) -> (r: bool)
    ensures
        r == is_seq_no(s@),
{
    let n = s.unicode_len();
    if n == 0 {
        return false;
    }
    let mut i: usize = 0;
    while i < n
        invariant
            n == s@.len(),
            i <= n,
            forall|j: int| 0 <= j < i ==> '0' <= #[trigger] s@[j] && s@[j] <= '9',
        decreases n - i,
    {
        let c = s.get_char(i);
        if !('0' <= c && c <= '9') {
            return false;
        }
        i = i + 1;
    }
    true
}

/// Whether the decoded path segments `segs` name a ledger object:
/// `anoncreds/v0/` followed by `SCHEMA/<name>/<version>`,
/// `CLAIM_DEF/<seq_no>/<name>`, or one of `REV_REG_DEF`, `REV_REG_ENTRY`,
/// `REV_REG_DELTA` with `/<seq_no>/<claim_def_name>/<tag>`.
pub open spec fn object_path(segs: Seq<Seq<char>>) -> bool {
    segs.len() >= 3 && segs[0] == "anoncreds"@ && segs[1] == "v0"@ && (
    (segs[2] == "SCHEMA"@ && segs.len() == 5)
        || (segs[2] == "CLAIM_DEF"@ && segs.len() == 5 && is_seq_no(segs[3]))
        || ((segs[2] == "REV_REG_DEF"@ || segs[2] == "REV_REG_ENTRY"@ || segs[2] == "REV_REG_DELTA"@)
        && segs.len() == 6 && is_seq_no(segs[3])))
}

/// The ledger object that well-formed decoded path segments name.
pub open spec fn object_matches(o: LedgerObject, segs: Seq<Seq<char>>) -> bool {
    match o {
        LedgerObject::Schema { name, version } =>
            segs[2] == "SCHEMA"@ && name@ == segs[3] && version@ == segs[4],
        LedgerObject::ClaimDef { schema_seq_no, name } =>
            segs[2] == "CLAIM_DEF"@ && schema_seq_no@ == segs[3] && name@ == segs[4],
        LedgerObject::RevRegDef { schema_seq_no, claim_def_name, tag } =>
            segs[2] == "REV_REG_DEF"@ && schema_seq_no@ == segs[3] && claim_def_name@ == segs[4] && tag@ == segs[5],
        LedgerObject::RevRegEntry { schema_seq_no, claim_def_name, tag } =>
            segs[2] == "REV_REG_ENTRY"@ && schema_seq_no@ == segs[3] && claim_def_name@ == segs[4] && tag@ == segs[5],
        LedgerObject::RevRegDelta { schema_seq_no, claim_def_name, tag } =>
            segs[2] == "REV_REG_DELTA"@ && schema_seq_no@ == segs[3] && claim_def_name@ == segs[4] && tag@ == segs[5],
    }
}

impl LedgerObject {
    /// The ledger object that decoded path segments name.
    pub fn from_segments(segs: &Vec<String>) -> (r: Result<LedgerObject, ResolverError>)
        ensures
            match r {
                Ok(o) => object_path(crate::text::texts(segs@)) && object_matches(o, crate::text::texts(segs@)),
                Err(e) => !object_path(crate::text::texts(segs@)) && e == ResolverError::MalformedIdentifier,
            },
    {
        let ghost t = crate::text::texts(segs@);
        proof {
            reveal_strlit("SCHEMA");
            reveal_strlit("CLAIM_DEF");
            reveal_strlit("REV_REG_DEF");
            reveal_strlit("REV_REG_ENTRY");
            reveal_strlit("REV_REG_DELTA");
        }
        if segs.len() < 3 || !text_eq(segs[0].as_str(), "anoncreds") || !text_eq(segs[1].as_str(), "v0") {
            return Err(ResolverError::MalformedIdentifier);
        }
        let kind = segs[2].as_str();
        assert(t.len() == segs@.len() && t[2] == kind@);
        if text_eq(kind, "SCHEMA") {
            if segs.len() != 5 {
                return Err(ResolverError::MalformedIdentifier);
            }
            return Ok(LedgerObject::Schema { name: segs[3].clone(), version: segs[4].clone() });
        }
        if text_eq(kind, "CLAIM_DEF") {
            if segs.len() != 5 {
                return Err(ResolverError::MalformedIdentifier);
            }
            assert(t[3] == segs@[3]@);
            if !seq_no_text(segs[3].as_str()) {
                return Err(ResolverError::MalformedIdentifier);
            }
            return Ok(LedgerObject::ClaimDef { schema_seq_no: segs[3].clone(), name: segs[4].clone() });
        }
        let def = text_eq(kind, "REV_REG_DEF");
        let entry = text_eq(kind, "REV_REG_ENTRY");
        let delta = text_eq(kind, "REV_REG_DELTA");
        if !(def || entry || delta) || segs.len() != 6 {
            return Err(ResolverError::MalformedIdentifier);
        }
        assert(t[3] == segs@[3]@);
        if !seq_no_text(segs[3].as_str()) {
            return Err(ResolverError::MalformedIdentifier);
        }
        let schema_seq_no = segs[3].clone();
        let claim_def_name = segs[4].clone();
        let tag = segs[5].clone();
        if def {
            Ok(LedgerObject::RevRegDef { schema_seq_no, claim_def_name, tag })
        } else if entry {
            Ok(LedgerObject::RevRegEntry { schema_seq_no, claim_def_name, tag })
        } else {
            Ok(LedgerObject::RevRegDelta { schema_seq_no, claim_def_name, tag })
        }
    }
}


/// Whether a character may stand in a namespace.
pub open spec fn is_namespace_char(c: char) -> bool {
    ('a' <= c && c <= 'z') || ('0' <= c && c <= '9') || c == '_' || c == '-'
}

/// Whether a character belongs to the base58 alphabet.
pub open spec fn is_base58_char(c: char) -> bool {
    ('1' <= c && c <= '9') || ('A' <= c && c <= 'H') || ('J' <= c && c <= 'N') || ('P' <= c
        && c <= 'Z') || ('a' <= c && c <= 'k') || ('m' <= c && c <= 'z')
}

/// Whether a text is a namespace component: nonempty, of lower-case letters,
/// digits, `_` and `-`.
pub open spec fn is_namespace_part(s: Seq<char>) -> bool {
    s.len() > 0 && forall|j: int| 0 <= j < s.len() ==> is_namespace_char(#[trigger] s[j])
}

/// Whether a text is an unqualified Indy DID: 21 or 22 base58 characters.
pub open spec fn is_unqualified_did(s: Seq<char>) -> bool {
    (s.len() == 21 || s.len() == 22) && forall|j: int| 0 <= j < s.len() ==> is_base58_char(#[trigger] s[j])
}

fn namespace_part(s: &str) -> (r: bool)
    ensures
        r == is_namespace_part(s@),
{
    let n = s.unicode_len();
    if n == 0 {
        return false;
    }
    let mut i: usize = 0;
    while i < n
        invariant
            n == s@.len(),
            i <= n,
            forall|j: int| 0 <= j < i ==> is_namespace_char(#[trigger] s@[j]),
        decreases n - i,
    {
        let c = s.get_char(i);
        if !(('a' <= c && c <= 'z') || ('0' <= c && c <= '9') || c == '_' || c == '-') {
            return false;
        }
        i = i + 1;
    }
    true
}

fn unqualified_did(s: &str) -> (r: bool)
    ensures
        r == is_unqualified_did(s@),
{
    let n = s.unicode_len();
    if n != 21 && n != 22 {
        return false;
    }
    let mut i: usize = 0;
    while i < n
        invariant
            n == s@.len(),
            i <= n,
            forall|j: int| 0 <= j < i ==> is_base58_char(#[trigger] s@[j]),
        decreases n - i,
    {
        let c = s.get_char(i);
        if !(('1' <= c && c <= '9') || ('A' <= c && c <= 'H') || ('J' <= c && c <= 'N') || ('P'
            <= c && c <= 'Z') || ('a' <= c && c <= 'k') || ('m' <= c && c <= 'z')) {
            return false;
        }
        i = i + 1;
    }
    true
}

/// Whether a text is a namespace: one component, or two joined by `:`.
pub open spec fn is_namespace(s: Seq<char>) -> bool {
    is_namespace_part(s) || exists|k: int|
        0 < k < s.len() && s[k] == ':' && #[trigger] is_namespace_part(s.subrange(0, k))
            && is_namespace_part(s.subrange(k + 1, s.len() as int))
}

/// The prefix of every `did:indy` URL.
pub open spec fn did_indy_prefix() -> Seq<char> {
    "did:indy:"@
}

/// Each piece percent-decoded; `None` where one is malformed.
pub open spec fn decoded_all(p: Seq<Seq<char>>) -> Option<Seq<Seq<char>>>
    decreases p.len(),
{
    if p.len() == 0 {
        Some(Seq::empty())
    } else {
        match (decoded_all(p.drop_last()), percent_decoded(p.last())) {
            (Some(a), Some(b)) => Some(a.push(b)),
            _ => None,
        }
    }
}

proof fn lemma_decoded_all_none(p: Seq<Seq<char>>, i: int)
    requires
        0 <= i <= p.len(),
        decoded_all(p.subrange(0, i)) is None,
    ensures
        decoded_all(p) is None,
    decreases p.len() - i,
{
    if i < p.len() {
        assert(p.subrange(0, i + 1).drop_last() =~= p.subrange(0, i));
        lemma_decoded_all_none(p, i + 1);
    } else {
        assert(p.subrange(0, i) =~= p);
    }
}

/// The query parameters that `key=value` pieces give, values percent-decoded;
/// `None` where a piece is no such pair, names no parameter, or holds a
/// malformed escape.
pub open spec fn query_pairs(p: Seq<Seq<char>>) -> Option<Seq<(QueryParameter, Seq<char>)>>
    decreases p.len(),
{
    if p.len() == 0 {
        Some(Seq::empty())
    } else {
        let kv = split_spec(p.last(), '=');
        if kv.len() != 2 {
            None
        } else {
            match (query_pairs(p.drop_last()), query_parameter_of(kv[0]), percent_decoded(kv[1])) {
                (Some(a), Some(k), Some(v)) => Some(a.push((k, v))),
                _ => None,
            }
        }
    }
}

proof fn lemma_query_pairs_none(p: Seq<Seq<char>>, i: int)
    requires
        0 <= i <= p.len(),
        query_pairs(p.subrange(0, i)) is None,
    ensures
        query_pairs(p) is None,
    decreases p.len() - i,
{
    if i < p.len() {
        assert(p.subrange(0, i + 1).drop_last() =~= p.subrange(0, i));
        lemma_query_pairs_none(p, i + 1);
    } else {
        assert(p.subrange(0, i) =~= p);
    }
}

/// The mathematical value of a list of query parameters.
pub open spec fn query_view(q: Seq<(QueryParameter, String)>) -> Seq<(QueryParameter, Seq<char>)> {
    q.map_values(|p: (QueryParameter, String)| (p.0, p.1@))
}

/// Percent-decodes each piece from `from` on, failing where one is malformed.
fn decode_all(pieces: &Vec<String>, from: usize) -> (r: Result<Vec<String>, ResolverError>)
    requires
        from <= pieces@.len(),
    ensures
        match r {
            Ok(v) => decoded_all(texts(pieces@).subrange(from as int, pieces@.len() as int)) == Some(texts(v@)),
            Err(e) => e == ResolverError::MalformedIdentifier && decoded_all(
                texts(pieces@).subrange(from as int, pieces@.len() as int),
            ) is None,
        },
{
    let ghost p = texts(pieces@).subrange(from as int, pieces@.len() as int);
    let mut out: Vec<String> = Vec::new();
    let mut i: usize = from;
    assert(p.subrange(0, 0) =~= Seq::<Seq<char>>::empty());
    assert(texts(out@) =~= Seq::<Seq<char>>::empty());
    while i < pieces.len()
        invariant
            from <= i <= pieces@.len(),
            p == texts(pieces@).subrange(from as int, pieces@.len() as int),
            decoded_all(p.subrange(0, i - from)) == Some(texts(out@)),
        decreases pieces@.len() - i,
    {
        let ghost before = out@;
        let ghost k = i - from;
        assert(p.subrange(0, k + 1).drop_last() =~= p.subrange(0, k));
        assert(p.subrange(0, k + 1).last() == pieces@[i as int]@);
        match percent_decode(pieces[i].as_str()) {
            Some(d) => {
                out.push(d);
                assert(texts(out@) =~= texts(before).push(d@));
            },
            None => {
                proof {
                    lemma_decoded_all_none(p, k + 1);
                }
                return Err(ResolverError::MalformedIdentifier);
            },
        }
        i = i + 1;
    }
    assert(p.subrange(0, p.len() as int) =~= p);
    Ok(out)
}

/// Reads the query of a URL: `&`-separated `key=value` pairs whose keys name
/// query parameters and whose values are percent-decoded.
fn parse_query(q: &str) -> (r: Result<Vec<(QueryParameter, String)>, ResolverError>)
    ensures
        match r {
            Ok(v) => query_pairs(split_spec(q@, '&')) == Some(query_view(v@)),
            Err(e) => e == ResolverError::MalformedIdentifier && query_pairs(split_spec(q@, '&')) is None,
        },
{
    let pairs = split_on(q, '&');
    let ghost p = texts(pairs@);
    let mut out: Vec<(QueryParameter, String)> = Vec::new();
    let mut i: usize = 0;
    assert(p.subrange(0, 0) =~= Seq::<Seq<char>>::empty());
    assert(query_view(out@) =~= Seq::<(QueryParameter, Seq<char>)>::empty());
    while i < pairs.len()
        invariant
            i <= pairs@.len(),
            p == texts(pairs@),
            p == split_spec(q@, '&'),
            query_pairs(p.subrange(0, i as int)) == Some(query_view(out@)),
        decreases pairs@.len() - i,
    {
        let ghost before = out@;
        assert(p.subrange(0, i + 1).drop_last() =~= p.subrange(0, i as int));
        assert(p.subrange(0, i + 1).last() == pairs@[i as int]@);
        let kv = split_on(pairs[i].as_str(), '=');
        if kv.len() != 2 {
            proof {
                lemma_query_pairs_none(p, i + 1);
            }
            return Err(ResolverError::MalformedIdentifier);
        }
        let key = match QueryParameter::parse(kv[0].as_str()) {
            Some(k) => k,
            None => {
                proof {
                    lemma_query_pairs_none(p, i + 1);
                }
                return Err(ResolverError::MalformedIdentifier);
            },
        };
        let value = match percent_decode(kv[1].as_str()) {
            Some(v) => v,
            None => {
                proof {
                    lemma_query_pairs_none(p, i + 1);
                }
                return Err(ResolverError::MalformedIdentifier);
            },
        };
        let ghost vv = value@;
        out.push((key, value));
        assert(query_view(out@) =~= query_view(before).push((key, vv)));
        i = i + 1;
    }
    assert(p.subrange(0, p.len() as int) =~= p);
    Ok(out)
}

/// The parts of a well-formed `did:indy` URL: namespace, DID, the decoded
/// path segments where a path is given, and the query parameters in order.
pub ghost struct UrlParts {
    pub namespace: Seq<char>,
    pub id: Seq<char>,
    pub path: Option<Seq<Seq<char>>>,
    pub query: Seq<(QueryParameter, Seq<char>)>,
}

/// The grammar of `did:indy` URLs: `did:indy:`, a namespace of one or two
/// `:`-separated components, `:` and an unqualified DID; then optionally `/`
/// and `/`-separated, percent-encoded path segments that name a ledger object;
/// then optionally `?` and `&`-separated `key=value` query pairs. `None` where
/// `s` is no such URL.
pub open spec fn url_parts(s: Seq<char>) -> Option<UrlParts> {
    if s.len() < 9 || s.subrange(0, 9) != did_indy_prefix() {
        None
    } else {
        let parts = split_spec(s.subrange(9, s.len() as int), '?');
        let segs = split_spec(parts[0], '/');
        let names = split_spec(segs[0], ':');
        if parts.len() > 2 || names.len() < 2 || names.len() > 3 || !is_unqualified_did(names.last())
            || !is_namespace_part(names[0]) || (names.len() == 3 && !is_namespace_part(names[1])) {
            None
        } else {
            let namespace = if names.len() == 3 {
                names[0] + ":"@ + names[1]
            } else {
                names[0]
            };
            let path = if segs.len() > 1 {
                match decoded_all(segs.subrange(1, segs.len() as int)) {
                    Some(d) => if object_path(d) {
                        Some(Some(d))
                    } else {
                        None
                    },
                    None => None,
                }
            } else {
                Some(None)
            };
            let query = if parts.len() == 2 {
                query_pairs(split_spec(parts[1], '&'))
            } else {
                Some(Seq::empty())
            };
            match (path, query) {
                (Some(p), Some(q)) => Some(UrlParts { namespace, id: names.last(), path: p, query: q }),
                _ => None,
            }
        }
    }
}

/// Whether `s` is a `did:indy` URL whose subject, `<namespace>:<did>`, is
/// `subject`, followed by nothing, by a path (`/`) or by a query (`?`).
pub open spec fn names_subject(s: Seq<char>, subject: Seq<char>) -> bool {
    let k = 9 + subject.len();
    s.len() >= k && s.subrange(0, 9) == did_indy_prefix() && s.subrange(9, k as int) == subject && (
    s.len() == k || s[k as int] == '/' || s[k as int] == '?')
}

/// Whether a path follows the subject `subject` in the URL `s`.
pub open spec fn path_follows(s: Seq<char>, subject: Seq<char>) -> bool {
    let k = 9 + subject.len();
    s.len() > k && s[k as int] == '/'
}

impl DidUrl {
    /// Parses a `did:indy` URL:
    /// `did:indy:<namespace>:<did>[/<path>][?<query>]`, where the path names a
    /// ledger object and the query holds `versionId`, `versionTime`, `from` and
    /// `to`. Path segments and query values are percent-decoded.
    pub fn parse(s: &str) -> (r: Result<DidUrl, ResolverError>)
        ensures
            r matches Err(e) ==> e == ResolverError::MalformedIdentifier,
            r is Ok ==> s@.len() >= 9 && s@.subrange(0, 9) == did_indy_prefix(),
            r matches Ok(d) ==> is_namespace(d.namespace@) && is_unqualified_did(d.id@),
            r matches Ok(d) ==> names_subject(s@, d.namespace@ + ":"@ + d.id@),
            r matches Ok(d) ==> (d.path is Some <==> path_follows(s@, d.namespace@ + ":"@ + d.id@)),
            match r {
                Ok(d) => match url_parts(s@) {
                    Some(u) => u.namespace == d.namespace@ && u.id == d.id@ && u.query == query_view(
                        d.query@,
                    ) && match (u.path, d.path) {
                        (None, None) => true,
                        (Some(segs), Some(o)) => object_matches(o, segs),
                        _ => false,
                    },
                    None => false,
                },
                Err(e) => e == ResolverError::MalformedIdentifier && url_parts(s@) is None,
            },
    {
        let n = s.unicode_len();
        proof {
            reveal_strlit("did:indy:");
        }
        if n < 9 || !text_eq(s.substring_char(0, 9), "did:indy:") {
            return Err(ResolverError::MalformedIdentifier);
        }
        let rest = s.substring_char(9, n);
        let parts = split_on(rest, '?');
        if parts.len() > 2 {
            return Err(ResolverError::MalformedIdentifier);
        }
        let segs = split_on(parts[0].as_str(), '/');
        let names = split_on(segs[0].as_str(), ':');
        let id_index: usize = names.len() - 1;
        if names.len() < 2 || names.len() > 3 || !unqualified_did(names[id_index].as_str()) {
            return Err(ResolverError::MalformedIdentifier);
        }
        if !namespace_part(names[0].as_str()) {
            return Err(ResolverError::MalformedIdentifier);
        }
        let namespace = if names.len() == 3 {
            if !namespace_part(names[1].as_str()) {
                return Err(ResolverError::MalformedIdentifier);
            }
            let mut ns = String::from_str(names[0].as_str());
            ns.append(":");
            ns.append(names[1].as_str());
            proof {
                reveal_strlit(":");
                let k = names@[0]@.len() as int;
                assert(ns@.subrange(0, k) =~= names@[0]@);
                assert(ns@.subrange(k + 1, ns@.len() as int) =~= names@[1]@);
                assert(ns@[k] == ':');
                assert(is_namespace_part(ns@.subrange(0, k)));
            }
            ns
        } else {
            String::from_str(names[0].as_str())
        };
        let id = String::from_str(names[id_index].as_str());
        let path = if segs.len() > 1 {
            let decoded = decode_all(&segs, 1)?;
            let o = LedgerObject::from_segments(&decoded)?;
            Some(o)
        } else {
            None
        };
        let query = if parts.len() == 2 {
            parse_query(parts[1].as_str())?
        } else {
            Vec::new()
        };
        proof {
            reveal_strlit(":");
            reveal_strlit("did:indy:");
            let tn = texts(names@);
            if names@.len() == 2 {
                assert(tn.drop_last() =~= seq![tn[0]]);
                assert(joined(tn.drop_last(), ':') == tn[0]);
            } else {
                assert(tn.drop_last().drop_last() =~= seq![tn[0]]);
                assert(joined(tn.drop_last().drop_last(), ':') == tn[0]);
                assert(joined(tn.drop_last(), ':') == tn[0] + seq![':'] + tn[1]);
            }
            let subject = namespace@ + ":"@ + id@;
            assert(subject =~= segs@[0]@);
            let ts = texts(segs@);
            let tp = texts(parts@);
            lemma_joined_first(ts, '/');
            lemma_joined_first(tp, '?');
            let k = subject.len() as int;
            let p0 = parts@[0]@;
            assert(rest@ == s@.subrange(9, n as int));
            assert(s@.subrange(0, 9) == did_indy_prefix());
            assert(s@.subrange(9, 9 + k) =~= subject) by {
                assert(rest@.subrange(0, p0.len() as int) == p0);
                assert(p0.subrange(0, k) == subject);
                assert(s@.subrange(9, 9 + k) =~= rest@.subrange(0, k));
                assert(rest@.subrange(0, k) =~= p0.subrange(0, k));
            }
            if segs@.len() > 1 {
                assert(p0[k] == '/');
                assert(rest@[k] == p0[k]);
                assert(s@[9 + k] == rest@[k]);
            } else {
                assert(p0 == subject);
                if parts@.len() > 1 {
                    assert(rest@[k] == '?');
                    assert(s@[9 + k] == rest@[k]);
                } else {
                    assert(rest@ == p0);
                }
            }
        }
        Ok(DidUrl { namespace, id, path, query })
    }
}

} // verus!
