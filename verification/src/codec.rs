//! The wire codec: parses the first line of an HTTP/1.1 request into its
//! method and target tokens, and serializes a structured response into the
//! bytes that go back on the wire.

use vstd::prelude::*;

verus! {

/// Why a request line was rejected.
#[derive(Clone, Copy, Debug, PartialEq, Eq, Structural)]
pub enum ParseError {
    /// Fewer than two space-separated tokens are present on the line.
    MissingToken,
    /// The first token is not a well-formed HTTP method.
    InvalidMethod,
    /// The second token is not a valid request target.
    InvalidTarget,
}

/// The two tokens taken from the first line of a request, byte for byte as
/// they stood on the wire.
pub struct RawRequestLine {
    /// The method token.
    pub method: Vec<u8>,
    /// The target token.
    pub target: Vec<u8>,
}

/// The bytes an HTTP method token may consist of: `!`, `*`, `+`, `-`, `.`,
/// digits, letters of either case, `^`, `_`, a backtick, `|` and `~`.
pub open spec fn is_method_byte(b: u8) -> bool {
    ||| b == 33
    ||| b == 42
    ||| b == 43
    ||| b == 45
    ||| b == 46
    ||| 48 <= b <= 57
    ||| 65 <= b <= 90
    ||| b == 94
    ||| b == 95
    ||| b == 96
    ||| 97 <= b <= 122
    ||| b == 124
    ||| b == 126
}

/// A well-formed method token: non-empty and made of method bytes only.
pub open spec fn is_method_token(s: Seq<u8>) -> bool {
    s.len() > 0 && (forall|i: int| 0 <= i < s.len() ==> is_method_byte(#[trigger] s[i]))
}

/// Whether the `http` crate accepts `s` as a request target (a URI). The
/// grammar is the `http` crate's; only the facts stated on `http_target_ok`
/// are known of it.
pub uninterp spec fn uri_accepts(s: Seq<u8>) -> bool;

/// Index of the first space in `s`, or `s.len()` if there is none.
pub open spec fn find_space(s: Seq<u8>) -> int
    decreases s.len(),
{
    if s.len() == 0 {
        0
    } else if s[0] == 32 {
        0
    } else {
        1 + find_space(s.drop_first())
    }
}

/// `find_space` points at the first space: everything before it is no space,
/// and it lands on a space unless the sequence holds none.
pub proof fn lemma_find_space(s: Seq<u8>)
    ensures
        0 <= find_space(s) <= s.len(),
        forall|j: int| 0 <= j < find_space(s) ==> s[j] != 32,
        find_space(s) < s.len() ==> s[find_space(s)] == 32,
    decreases s.len(),
{
    if s.len() == 0 {
    } else if s[0] == 32 {
    } else {
        lemma_find_space(s.drop_first());
        assert forall|j: int| 0 <= j < find_space(s) implies s[j] != 32 by {
            if j > 0 {
                assert(s.drop_first()[j - 1] == s[j]);
            }
        }
        if find_space(s) < s.len() {
            assert(s.drop_first()[find_space(s.drop_first())] == s[find_space(s)]);
        }
    }
}

/// The line holds at least two space-separated tokens.
pub open spec fn spec_has_two_tokens(s: Seq<u8>) -> bool {
    find_space(s) < s.len()
}

/// The first token of the line: the bytes before the first space.
pub open spec fn spec_method_token(s: Seq<u8>) -> Seq<u8> {
    s.take(find_space(s))
}

/// The second token of the line: the bytes between the first space and the
/// next space or the end of the line.
pub open spec fn spec_target_token(s: Seq<u8>) -> Seq<u8> {
    if spec_has_two_tokens(s) {
        let rest = s.skip(find_space(s) + 1);
        rest.take(find_space(rest))
    } else {
        Seq::empty()
    }
}

/// A request line that parses: two tokens, a well-formed method, a target the
/// URI grammar accepts.
pub open spec fn request_line_ok(s: Seq<u8>) -> bool {
    &&& spec_has_two_tokens(s)
    &&& is_method_token(spec_method_token(s))
    &&& uri_accepts(spec_target_token(s))
}

/// Index of the first space in `v`, or `v.len()` if there is none.
fn find_space_in(v: &Vec<u8>) -> (r: usize)
    ensures
        r == find_space(v@),
{
    proof {
        lemma_find_space(v@);
    }
    let mut i: usize = 0;
    while i < v.len()
        invariant
            0 <= i <= v@.len(),
            forall|j: int| 0 <= j < i ==> v@[j] != 32,
            0 <= find_space(v@) <= v@.len(),
            forall|j: int| 0 <= j < find_space(v@) ==> v@[j] != 32,
            find_space(v@) < v@.len() ==> v@[find_space(v@)] == 32,
        decreases v@.len() - i,
    {
        if v[i] == 32 {
            proof {
                assert(v@[i as int] == 32);
                assert(i as int == find_space(v@));
            }
            return i;
        }
        i = i + 1;
    }
    proof {
        assert(i as int == find_space(v@));
    }
    i
}

/// Copy of `v[from..to]`.
fn subvec(v: &Vec<u8>, from: usize, to: usize) -> (r: Vec<u8>)
    requires
        from <= to <= v@.len(),
    ensures
        r@ == v@.subrange(from as int, to as int),
{
    let mut r: Vec<u8> = Vec::new();
    let mut i: usize = from;
    while i < to
        invariant
            from <= i <= to <= v@.len(),
            r@ == v@.subrange(from as int, i as int),
        decreases to - i,
    {
        r.push(v[i]);
        proof {
            assert(r@ =~= v@.subrange(from as int, i + 1 as int));
        }
        i = i + 1;
    }
    r
}

/// Relies on `http::Method::from_bytes`: it returns `Ok` exactly for the
/// non-empty byte sequences whose every byte its method-character table
/// admits, which `is_method_token` states byte for byte.
#[verifier::external_body]
fn http_method_ok(token: &Vec<u8>) -> (r: bool)
    ensures
        r == is_method_token(token@),
{
    http::Method::from_bytes(token.as_slice()).is_ok()
}

/// Relies on `http::Uri::try_from` on bytes (the same parse `str::parse::<Uri>`
/// runs): whether a byte sequence is accepted as a URI depends on the bytes
/// alone, and the empty sequence is always rejected.
#[verifier::external_body]
fn http_target_ok(token: &Vec<u8>) -> (r: bool)
    ensures
        r == uri_accepts(token@),
        token@.len() == 0 ==> !r,
{
    http::Uri::try_from(token.as_slice()).is_ok()
}

/// Parse the first line of a request into its method and target tokens.
///
/// Only the first two space-separated tokens are consumed; whatever follows
/// the second token (the version, normally) is left unexamined.
pub fn parse_request_line(line: &Vec<u8>) -> (r: Result<RawRequestLine, ParseError>)
    ensures
        (r is Ok) <==> request_line_ok(line@),
        (r matches Ok(req) ==> req.method@ == spec_method_token(line@)
            && req.target@ == spec_target_token(line@)),
        !spec_has_two_tokens(line@) ==> r == Err::<RawRequestLine, ParseError>(
            ParseError::MissingToken,
        ),
        spec_has_two_tokens(line@) && !is_method_token(spec_method_token(line@)) ==> r
            == Err::<RawRequestLine, ParseError>(ParseError::InvalidMethod),
        spec_has_two_tokens(line@) && is_method_token(spec_method_token(line@)) && !uri_accepts(
            spec_target_token(line@),
        ) ==> r == Err::<RawRequestLine, ParseError>(ParseError::InvalidTarget),
{
    proof {
        lemma_find_space(line@);
    }
    let fs = find_space_in(line);
    if fs == line.len() {
        return Err(ParseError::MissingToken);
    }
    let method = subvec(line, 0, fs);
    let rest = subvec(line, fs + 1, line.len());
    let fs2 = find_space_in(&rest);
    proof {
        lemma_find_space(rest@);
    }
    let target = subvec(&rest, 0, fs2);
    if !http_method_ok(&method) {
        return Err(ParseError::InvalidMethod);
    }
    if !http_target_ok(&target) {
        return Err(ParseError::InvalidTarget);
    }
    Ok(RawRequestLine { method, target })
}

/// The HTTP versions a response can name in its status line.
#[derive(Clone, Copy, Debug, PartialEq, Eq, Structural)]
pub enum HttpVersion {
    /// HTTP/0.9
    Http09,
    /// HTTP/1.0
    Http10,
    /// HTTP/1.1
    Http11,
    /// HTTP/2.0
    Http2,
    /// HTTP/3.0
    Http3,
}

/// The display form of a version at the head of a status line, as bytes
/// (`HTTP/1.1` and its kin).
pub open spec fn spec_version_bytes(v: HttpVersion) -> Seq<u8> {
    match v {
        HttpVersion::Http09 => seq![72u8, 84u8, 84u8, 80u8, 47u8, 48u8, 46u8, 57u8],
        HttpVersion::Http10 => seq![72u8, 84u8, 84u8, 80u8, 47u8, 49u8, 46u8, 48u8],
        HttpVersion::Http11 => seq![72u8, 84u8, 84u8, 80u8, 47u8, 49u8, 46u8, 49u8],
        HttpVersion::Http2 => seq![72u8, 84u8, 84u8, 80u8, 47u8, 50u8, 46u8, 48u8],
        HttpVersion::Http3 => seq![72u8, 84u8, 84u8, 80u8, 47u8, 51u8, 46u8, 48u8],
    }
}

impl HttpVersion {
    /// The bytes of this version's display form.
    pub fn wire_bytes(&self) -> (r: Vec<u8>)
        ensures
            r@ == spec_version_bytes(*self),
    {
        let mut r: Vec<u8> = Vec::new();
        r.push(72);
        r.push(84);
        r.push(84);
        r.push(80);
        r.push(47);
        match self {
            HttpVersion::Http09 => {
                r.push(48);
                r.push(46);
                r.push(57);
            },
            HttpVersion::Http10 => {
                r.push(49);
                r.push(46);
                r.push(48);
            },
            HttpVersion::Http11 => {
                r.push(49);
                r.push(46);
                r.push(49);
            },
            HttpVersion::Http2 => {
                r.push(50);
                r.push(46);
                r.push(48);
            },
            HttpVersion::Http3 => {
                r.push(51);
                r.push(46);
                r.push(48);
            },
        }
        proof {
            assert(r@ =~= spec_version_bytes(*self));
        }
        r
    }
}

/// A response as the dispatcher hands it over: version, status code, headers
/// in the order they are to appear on the wire, and the body bytes.
pub struct StructuredResponse {
    /// The version named in the status line.
    pub version: HttpVersion,
    /// The numeric status code.
    pub status: u16,
    /// The header lines, in insertion order; each entry is a (name, value)
    /// pair of bytes.
    pub headers: Vec<(Vec<u8>, Vec<u8>)>,
    /// The body, appended verbatim after the header section.
    pub body: Vec<u8>,
}

impl StructuredResponse {
    /// A response with nothing set: status 200, version HTTP/1.1, no headers,
    /// an empty body.
    pub fn new() -> (r: Self)
        ensures
            r.version == HttpVersion::Http11,
            r.status == 200,
            r.headers@.len() == 0,
            r.body@.len() == 0,
    {
        StructuredResponse { version: HttpVersion::Http11, status: 200, headers: Vec::new(), body: Vec::new() }
    }
}

/// The decimal digits of `n`, most significant first, as ASCII bytes.
pub open spec fn spec_dec_digits(n: nat) -> Seq<u8>
    decreases n,
{
    if n < 10 {
        seq![(48 + n) as u8]
    } else {
        spec_dec_digits(n / 10) + seq![(48 + n % 10) as u8]
    }
}

/// One header line: `name: value` closed by CR LF.
pub open spec fn spec_header_line(name: Seq<u8>, value: Seq<u8>) -> Seq<u8> {
    name + seq![58u8, 32u8] + value + seq![13u8, 10u8]
}

/// All header lines, one per entry, in the order given.
pub open spec fn spec_headers_bytes(hs: Seq<(Vec<u8>, Vec<u8>)>) -> Seq<u8>
    decreases hs.len(),
{
    if hs.len() == 0 {
        Seq::empty()
    } else {
        spec_headers_bytes(hs.drop_last()) + spec_header_line(hs.last().0@, hs.last().1@)
    }
}

/// The status line: version, status code and reason phrase separated by
/// spaces, closed by CR LF.
pub open spec fn spec_status_line(v: HttpVersion, status: u16, reason: Seq<u8>) -> Seq<u8> {
    spec_version_bytes(v) + seq![32u8] + spec_dec_digits(status as nat) + seq![32u8] + reason
        + seq![13u8, 10u8]
}

/// A whole response on the wire: the status line, the header lines, one blank
/// line (emitted even with zero headers), then the body verbatim. No length
/// framing and no trailing marker: the connection closes after this.
pub open spec fn spec_response_bytes(
    v: HttpVersion,
    status: u16,
    reason: Seq<u8>,
    headers: Seq<(Vec<u8>, Vec<u8>)>,
    body: Seq<u8>,
) -> Seq<u8> {
    spec_status_line(v, status, reason) + spec_headers_bytes(headers) + seq![13u8, 10u8] + body
}

/// Append all of `src` to `dst`.
fn append_bytes(dst: &mut Vec<u8>, src: &Vec<u8>)
    ensures
        final(dst)@ == old(dst)@ + src@,
{
    let mut i: usize = 0;
    while i < src.len()
        invariant
            0 <= i <= src@.len(),
            dst@ == old(dst)@ + src@.take(i as int),
        decreases src@.len() - i,
    {
        dst.push(src[i]);
        proof {
            assert(dst@ =~= old(dst)@ + src@.take(i + 1 as int));
        }
        i = i + 1;
    }
    proof {
        assert(old(dst)@ + src@.take(src@.len() as int) =~= old(dst)@ + src@);
    }
}

/// Append the decimal digits of `n` to `out`.
fn push_dec_digits(out: &mut Vec<u8>, n: u16)
    ensures
        final(out)@ == old(out)@ + spec_dec_digits(n as nat),
    decreases n,
{
    if n < 10 {
        out.push(48 + n as u8);
        proof {
            assert(out@ =~= old(out)@ + spec_dec_digits(n as nat));
        }
    } else {
        push_dec_digits(out, n / 10);
        out.push(48 + (n % 10) as u8);
        proof {
            assert((n / 10) as nat == n as nat / 10);
            assert((n % 10) as nat == n as nat % 10);
            assert(out@ =~= old(out)@ + spec_dec_digits(n as nat));
        }
    }
}

/// The canonical reason phrase the `http` crate pairs with a status code, if
/// it has one. The table is the `http` crate's; only the facts stated on
/// `http_reason_phrase` are known of it.
pub uninterp spec fn canonical_reason(code: u16) -> Option<Seq<u8>>;

/// Relies on `http::StatusCode::from_u16` and `http::StatusCode::canonical_reason`:
/// the reason phrase is a fixed table keyed by the numeric code alone, and
/// codes outside 100..=999 are not in it.
#[verifier::external_body]
fn http_reason_phrase(code: u16) -> (r: Option<Vec<u8>>)
    ensures
        (match r {
            Some(v) => canonical_reason(code) == Some(v@),
            None => canonical_reason(code) is None,
        }),
{
    match http::StatusCode::from_u16(code) {
        Ok(status) => match status.canonical_reason() {
            Some(reason) => Some(reason.as_bytes().to_vec()),
            None => None,
        },
        Err(_) => None,
    }
}

/// Serialize a response whose reason phrase the caller already holds: the
/// result is exactly the status line, the header lines in order, a blank line,
/// and the body.
pub fn write_response_bytes(resp: &StructuredResponse, reason: &Vec<u8>) -> (r: Vec<u8>)
    ensures
        r@ == spec_response_bytes(resp.version, resp.status, reason@, resp.headers@, resp.body@),
{
    let mut out = resp.version.wire_bytes();
    out.push(32);
    push_dec_digits(&mut out, resp.status);
    out.push(32);
    append_bytes(&mut out, reason);
    out.push(13);
    out.push(10);
    proof {
        assert(out@ =~= spec_status_line(resp.version, resp.status, reason@));
    }
    let ghost status_line = out@;
    let mut i: usize = 0;
    while i < resp.headers.len()
        invariant
            0 <= i <= resp.headers@.len(),
            out@ == status_line + spec_headers_bytes(resp.headers@.take(i as int)),
        decreases resp.headers@.len() - i,
    {
        append_bytes(&mut out, &resp.headers[i].0);
        out.push(58);
        out.push(32);
        append_bytes(&mut out, &resp.headers[i].1);
        out.push(13);
        out.push(10);
        proof {
            assert(resp.headers@.take(i + 1 as int).drop_last() =~= resp.headers@.take(i as int));
            assert(resp.headers@.take(i + 1 as int).last() == resp.headers@[i as int]);
            assert(out@ =~= status_line + spec_headers_bytes(resp.headers@.take(i + 1 as int)));
        }
        i = i + 1;
    }
    proof {
        assert(resp.headers@.take(resp.headers@.len() as int) =~= resp.headers@);
    }
    out.push(13);
    out.push(10);
    append_bytes(&mut out, &resp.body);
    proof {
        assert(out@ =~= spec_response_bytes(
            resp.version,
            resp.status,
            reason@,
            resp.headers@,
            resp.body@,
        ));
    }
    out
}

/// Serialize a response into wire bytes.
///
/// Every status code the dispatcher uses is expected to have a canonical
/// reason phrase; a code without one is a contract violation on the
/// dispatcher's side, and the serializer returns `None` for it rather than
/// produce a malformed status line.
pub fn serialize_response(resp: &StructuredResponse) -> (r: Option<Vec<u8>>)
    ensures
        (r is Some) == (canonical_reason(resp.status) is Some),
        (r matches Some(bytes) ==> canonical_reason(resp.status) matches Some(reason)
            && bytes@ == spec_response_bytes(
            resp.version,
            resp.status,
            reason,
            resp.headers@,
            resp.body@,
        )),
{
    match http_reason_phrase(resp.status) {
        Some(reason) => Some(write_response_bytes(resp, &reason)),
        None => None,
    }
}

} // verus!
