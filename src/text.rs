use vstd::prelude::*;
use vstd::string::{StrSliceExecFns, StringExecFns};

verus! {

/// The value of a hexadecimal digit.
pub open spec fn hex_value(c: char) -> Option<u8> {
    if '0' <= c && c <= '9' {
        Some((c as u32 - '0' as u32) as u8)
    } else if 'a' <= c && c <= 'f' {
        Some((c as u32 - 'a' as u32 + 10) as u8)
    } else if 'A' <= c && c <= 'F' {
        Some((c as u32 - 'A' as u32 + 10) as u8)
    } else {
        None
    }
}

fn hex_digit(c: char) -> (r: Option<u8>)
    ensures
        r == hex_value(c),
{
    if '0' <= c && c <= '9' {
        Some((c as u32 - '0' as u32) as u8)
    } else if 'a' <= c && c <= 'f' {
        Some((c as u32 - 'a' as u32 + 10) as u8)
    } else if 'A' <= c && c <= 'F' {
        Some((c as u32 - 'A' as u32 + 10) as u8)
    } else {
        None
    }
}

/// The UTF-8 encoding of a character.
pub uninterp spec fn char_utf8(c: char) -> Seq<u8>;

/// The text that bytes encode in UTF-8; `None` where they are no valid UTF-8.
pub uninterp spec fn utf8_decoded(b: Seq<u8>) -> Option<Seq<char>>;

/// Whether every byte is below 128, that is ASCII.
pub open spec fn all_ascii(b: Seq<u8>) -> bool {
    forall|i: int| 0 <= i < b.len() ==> b[i] < 128
}

/// The characters of ASCII bytes, one per byte.
pub open spec fn ascii_text(b: Seq<u8>) -> Seq<char> {
    b.map_values(|x: u8| x as char)
}

/// Relies on `char::encode_utf8`: the UTF-8 bytes of a character.
#[verifier::external_body]
fn utf8_of(c: char) -> (r: Vec<u8>)
    ensures
        r@ == char_utf8(c),
{
    let mut buf = [0u8; 4];
    c.encode_utf8(&mut buf).as_bytes().to_vec()
}

/// Relies on `String::from_utf8`: the text that the bytes encode, `None`
/// where they are no valid UTF-8. Bytes below 128 are ASCII, which is valid
/// UTF-8 with one character per byte.
#[verifier::external_body]
fn text_of_utf8(b: Vec<u8>) -> (r: Option<String>)
    ensures
        match r {
            Some(t) => utf8_decoded(b@) == Some(t@),
            None => utf8_decoded(b@) is None,
        },
        r is None ==> !all_ascii(b@),
        r matches Some(t) ==> (all_ascii(b@) ==> t@ == ascii_text(b@)),
{
    String::from_utf8(b).ok()
}

/// The UTF-8 bytes of a character: its code for an ASCII character.
pub open spec fn utf8_bytes(c: char) -> Seq<u8> {
    if (c as u32) < 128 {
        seq![c as u8]
    } else {
        char_utf8(c)
    }
}

/// The bytes that `s` percent-encodes: each `%` with two hexadecimal digits
/// stands for the byte of that value, any other character for its UTF-8
/// bytes; any other `%` makes the text malformed.
pub open spec fn percent_bytes(s: Seq<char>) -> Option<Seq<u8>>
    decreases s.len(),
{
    if s.len() == 0 {
        Some(Seq::empty())
    } else if s[0] == '%' {
        if s.len() >= 3 {
            match (hex_value(s[1]), hex_value(s[2]), percent_bytes(s.subrange(3, s.len() as int))) {
                (Some(h), Some(l), Some(t)) => Some(seq![(h * 16 + l) as u8] + t),
                _ => None,
            }
        } else {
            None
        }
    } else {
        match percent_bytes(s.subrange(1, s.len() as int)) {
            Some(t) => Some(utf8_bytes(s[0]) + t),
            None => None,
        }
    }
}

/// The text that `s` percent-encodes: its bytes read as UTF-8.
pub open spec fn percent_decoded(s: Seq<char>) -> Option<Seq<char>> {
    match percent_bytes(s) {
        Some(b) => utf8_decoded(b),
        None => None,
    }
}

/// Decodes percent-escapes, as in `My%20Schema` or `caf%C3%A9`.
pub fn percent_decode(s: &str) -> (r: Option<String>)
    ensures
        match r {
            Some(t) => percent_decoded(s@) == Some(t@),
            None => percent_decoded(s@) is None,
        },
        percent_bytes(s@) matches Some(b) ==> (all_ascii(b) ==> percent_decoded(s@) == Some(
            ascii_text(b),
        )),
{
    let n = s.unicode_len();
    let mut out: Vec<u8> = Vec::new();
    let mut i: usize = 0;
    assert(s@.subrange(0, n as int) =~= s@);
    proof {
        match percent_bytes(s@) {
            Some(t) => assert(out@ + t =~= t),
            None => {},
        }
    }
    while i < n
        invariant
            n == s@.len(),
            i <= n,
            percent_bytes(s@) == match percent_bytes(s@.subrange(i as int, n as int)) {
                Some(t) => Some(out@ + t),
                None => None,
            },
        decreases n - i,
    {
        let ghost rest = s@.subrange(i as int, n as int);
        let c = s.get_char(i);
        if c == '%' {
            if n - i < 3 {
                return None;
            }
            let hi = s.get_char(i + 1);
            let lo = s.get_char(i + 2);
            assert(rest.subrange(3, rest.len() as int) =~= s@.subrange(i + 3, n as int));
            match (hex_digit(hi), hex_digit(lo)) {
                (Some(h), Some(l)) => {
                    let d: u8 = h * 16 + l;
                    let ghost before = out@;
                    out.push(d);
                    proof {
                        match percent_bytes(s@.subrange(i + 3, n as int)) {
                            Some(t) => assert(before + (seq![d] + t) =~= out@ + t),
                            None => {},
                        }
                    }
                    i = i + 3;
                },
                _ => {
                    return None;
                },
            }
        } else {
            let ghost before = out@;
            let u = if (c as u32) < 128 {
                let mut v: Vec<u8> = Vec::new();
                v.push(c as u8);
                v
            } else {
                utf8_of(c)
            };
            let mut j: usize = 0;
            while j < u.len()
                invariant
                    j <= u@.len(),
                    out@ == before + u@.subrange(0, j as int),
                decreases u@.len() - j,
            {
                out.push(u[j]);
                assert(before + u@.subrange(0, j + 1) =~= (before + u@.subrange(0, j as int)).push(u@[j as int]));
                j = j + 1;
            }
            assert(u@.subrange(0, u@.len() as int) =~= u@);
            assert(rest.subrange(1, rest.len() as int) =~= s@.subrange(i + 1, n as int));
            proof {
                match percent_bytes(s@.subrange(i + 1, n as int)) {
                    Some(t) => assert(before + (utf8_bytes(c) + t) =~= out@ + t),
                    None => {},
                }
            }
            i = i + 1;
        }
    }
    assert(s@.subrange(n as int, n as int) =~= Seq::<char>::empty());
    assert(out@ + Seq::<u8>::empty() =~= out@);
    text_of_utf8(out)
}

/// The pieces `parts` put back together with `c` between each two.
pub open spec fn joined(parts: Seq<Seq<char>>, c: char) -> Seq<char>
    decreases parts.len(),
{
    if parts.len() == 0 {
        Seq::empty()
    } else if parts.len() == 1 {
        parts[0]
    } else {
        joined(parts.drop_last(), c) + seq![c] + parts.last()
    }
}

/// The pieces of `s` between occurrences of `c`, in order; one piece where
/// `c` does not occur.
pub open spec fn split_spec(s: Seq<char>, c: char) -> Seq<Seq<char>>
    decreases s.len(),
{
    if s.len() == 0 {
        seq![Seq::empty()]
    } else {
        let p = split_spec(s.drop_last(), c);
        if s.last() == c {
            p.push(Seq::empty())
        } else {
            p.drop_last().push(p.last().push(s.last()))
        }
    }
}

/// The texts of a sequence of strings.
pub open spec fn texts(v: Seq<String>) -> Seq<Seq<char>> {
    v.map_values(|p: String| p@)
}

proof fn lemma_joined_push(p: Seq<Seq<char>>, y: Seq<char>, c: char)
    ensures
        p.len() > 0 ==> joined(p.push(y), c) == joined(p, c) + seq![c] + y,
        p.len() == 0 ==> joined(p.push(y), c) == y,
{
    assert(p.push(y).drop_last() =~= p);
}

/// Splits `s` at every occurrence of `c`: the pieces hold no `c`, and put
/// back together with `c` they give `s`.
pub fn split_on(s: &str, c: char) -> (r: Vec<String>)
    ensures
        r@.len() >= 1,
        joined(texts(r@), c) == s@,
        texts(r@) == split_spec(s@, c),
        forall|k: int, j: int| 0 <= k < r@.len() && 0 <= j < r@[k]@.len() ==> r@[k]@[j] != c,
{
    let n = s.unicode_len();
    let mut parts: Vec<String> = Vec::new();
    let mut start: usize = 0;
    let mut i: usize = 0;
    proof {
        lemma_joined_push(texts(parts@), s@.subrange(0, 0), c);
    }
    assert(texts(parts@).push(s@.subrange(0, 0)) =~= seq![s@.subrange(0, 0)]);
    assert(s@.subrange(0, 0) =~= Seq::<char>::empty());
    assert(split_spec(s@.subrange(0, 0), c) =~= texts(parts@).push(s@.subrange(0, 0)));
    while i < n
        invariant
            n == s@.len(),
            start <= i <= n,
            joined(texts(parts@).push(s@.subrange(start as int, i as int)), c) == s@.subrange(0, i as int),
            split_spec(s@.subrange(0, i as int), c) == texts(parts@).push(s@.subrange(start as int, i as int)),
            forall|k: int, j: int| 0 <= k < parts@.len() && 0 <= j < parts@[k]@.len() ==> parts@[k]@[j] != c,
            forall|j: int| start <= j < i ==> s@[j] != c,
        decreases n - i,
    {
        let ch = s.get_char(i);
        let ghost p = texts(parts@);
        let ghost x = s@.subrange(start as int, i as int);
        proof {
            lemma_joined_push(p, x, c);
            assert(s@.subrange(0, i + 1).drop_last() =~= s@.subrange(0, i as int));
            assert(s@.subrange(0, i + 1).last() == ch);
        }
        if ch == c {
            let piece = String::from_str(s.substring_char(start, i));
            parts.push(piece);
            assert(texts(parts@) =~= p.push(x));
            proof {
                lemma_joined_push(p.push(x), s@.subrange(i + 1, i + 1), c);
            }
            assert(s@.subrange(i + 1, i + 1) =~= Seq::<char>::empty());
            assert(split_spec(s@.subrange(0, i + 1), c) =~= texts(parts@).push(s@.subrange(i + 1, i + 1)));
            assert(s@.subrange(0, i + 1) =~= s@.subrange(0, i as int) + seq![c] + Seq::<char>::empty());
            start = i + 1;
        } else {
            assert(s@.subrange(start as int, i + 1) =~= x.push(ch));
            assert(split_spec(s@.subrange(0, i + 1), c) =~= p.push(x.push(ch)));
            proof {
                lemma_joined_push(p, x.push(ch), c);
                if p.len() > 0 {
                    assert(joined(p, c) + seq![c] + x.push(ch) =~= (joined(p, c) + seq![c] + x).push(ch));
                }
            }
            assert(s@.subrange(0, i + 1) =~= s@.subrange(0, i as int).push(ch));
        }
        i = i + 1;
    }
    let last = String::from_str(s.substring_char(start, n));
    let ghost p = texts(parts@);
    parts.push(last);
    assert(texts(parts@) =~= p.push(s@.subrange(start as int, n as int)));
    assert(s@.subrange(0, n as int) =~= s@);
    parts
}


/// The first piece opens the joined text; where more pieces follow, `c`
/// comes right after it.
pub proof fn lemma_joined_first(p: Seq<Seq<char>>, c: char)
    requires
        p.len() >= 1,
    ensures
        joined(p, c).len() >= p[0].len(),
        joined(p, c).subrange(0, p[0].len() as int) == p[0],
        p.len() == 1 ==> joined(p, c) == p[0],
        p.len() > 1 ==> joined(p, c).len() > p[0].len() && joined(p, c)[p[0].len() as int] == c,
    decreases p.len(),
{
    if p.len() > 1 {
        let q = p.drop_last();
        if q.len() > 1 {
            lemma_joined_first(q, c);
        }
        let jq = joined(q, c);
        let j = joined(p, c);
        assert(j == jq + seq![c] + p.last());
        assert(q[0] == p[0]);
        if q.len() == 1 {
            assert(jq == p[0]);
        }
        assert(j.subrange(0, p[0].len() as int) =~= jq.subrange(0, p[0].len() as int));
        assert(jq.subrange(0, p[0].len() as int) =~= p[0]) by {
            if q.len() == 1 {
                assert(jq =~= p[0]);
            }
        }
    } else {
        assert(joined(p, c).subrange(0, p[0].len() as int) =~= p[0]);
    }
}

} // verus!
