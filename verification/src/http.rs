//! The model of a pending HTTP request: method, target URL, header set and
//! body. A request is immutable once materialized except for the
//! authorization header and the per-attempt timeout, which the dispatch
//! pipeline may attach.
//!
//! The retry policy's one structural question — can this body be replayed? —
//! is answered here from the content-type header: a multipart form or a raw
//! octet stream is never safe to re-send.

use vstd::prelude::*;
use crate::strutil::{contains_seq, str_contains, str_eq};

verus! {

/// One HTTP header: a lowercase name and its value. The constructors in this
/// crate only ever insert lowercase names, so lookups match exactly.
#[derive(Debug)]
pub struct Header {
    pub name: String,
    pub value: String,
}

impl View for Header {
    type V = (Seq<char>, Seq<char>);

    open spec fn view(&self) -> (Seq<char>, Seq<char>) {
        (self.name@, self.value@)
    }
}

/// The HTTP method of a request. The provider's endpoints are all reached by
/// POST; GET is kept for completeness.
#[derive(Debug, Clone, Copy, PartialEq, Eq, Structural)]
pub enum HttpMethod {
    Get,
    Post,
}

/// One text part of a multipart form body.
#[derive(Debug)]
pub struct FormField {
    pub name: String,
    pub value: String,
}

/// The name/value views of a sequence of form fields.
pub open spec fn field_views(fields: Seq<FormField>) -> Seq<(Seq<char>, Seq<char>)> {
    fields.map_values(|f: FormField| (f.name@, f.value@))
}

/// The name under which a multipart body's file part travels, both as the
/// part's key and as its file name: a fixed wire contract with the provider.
pub fn file_part_name() -> (s: &'static str)
    ensures
        s@ == "file"@,
{
    "file"
}

/// The media type declared on a multipart body's file part.
pub fn file_part_mime() -> (s: &'static str)
    ensures
        s@ == "audio/mp3"@,
{
    "audio/mp3"
}

/// The body of a pending request.
#[derive(Debug)]
pub enum RequestBody {
    /// A JSON document, already serialized.
    Json { bytes: Vec<u8> },
    /// Raw bytes.
    Raw { bytes: Vec<u8> },
    /// A multipart form: one file part plus text fields.
    Multipart { file: Vec<u8>, fields: Vec<FormField> },
}

/// A materialized request, ready for the transport.
#[derive(Debug)]
pub struct PendingRequest {
    pub method: HttpMethod,
    pub url: String,
    pub headers: Vec<Header>,
    pub body: RequestBody,
    /// Per-attempt timeout; the dispatch pipeline fills this in.
    pub timeout_ms: Option<u64>,
}

/// The value of the first `content-type` header, if any.
pub open spec fn spec_content_type(headers: Seq<Header>) -> Option<Seq<char>>
    decreases headers.len(),
{
    if headers.len() == 0 {
        None
    } else if headers[0].name@ == "content-type"@ {
        Some(headers[0].value@)
    } else {
        spec_content_type(headers.skip(1))
    }
}

/// Dropping the head of a header list that is not `content-type` does not
/// change the lookup.
proof fn lemma_content_type_skip(headers: Seq<Header>, i: int)
    requires
        0 <= i < headers.len(),
        headers[i].name@ != "content-type"@,
        forall|j: int| 0 <= j < i ==> headers[j].name@ != "content-type"@,
    ensures
        spec_content_type(headers) == spec_content_type(headers.skip(i + 1)),
    decreases i,
{
    if i == 0 {
        assert(headers.skip(1) =~= headers.skip(i + 1));
    } else {
        assert(headers.skip(1)[i - 1] == headers[i]);
        assert(forall|j: int| 0 <= j < i - 1 ==> headers.skip(1)[j] == headers[j + 1]);
        lemma_content_type_skip(headers.skip(1), i - 1);
        assert(headers.skip(1).skip(i) =~= headers.skip(i + 1));
    }
}

/// Appending a header that is not named `content-type` does not change the
/// lookup.
pub proof fn lemma_content_type_push(headers: Seq<Header>, h: Header)
    requires
        h.name@ != "content-type"@,
    ensures
        spec_content_type(headers.push(h)) == spec_content_type(headers),
    decreases headers.len(),
{
    if headers.len() == 0 {
        assert(headers.push(h)[0] == h);
        assert(headers.push(h).skip(1) =~= Seq::<Header>::empty());
        assert(spec_content_type(Seq::<Header>::empty()) is None);
    } else {
        assert(headers.push(h)[0] == headers[0]);
        lemma_content_type_push(headers.skip(1), h);
        assert(headers.push(h).skip(1) =~= headers.skip(1).push(h));
        assert(spec_content_type(headers.push(h).skip(1)) == spec_content_type(headers.skip(1)));
    }
}

/// Finds the value of the first `content-type` header.
pub fn content_type_of(headers: &Vec<Header>) -> (r: Option<&String>)
    ensures
        match r {
            Some(v) => spec_content_type(headers@) == Some(v@),
            None => spec_content_type(headers@) is None,
        },
{
    let n = headers.len();
    proof {
        assert(headers@.skip(0) =~= headers@);
    }
    let mut i: usize = 0;
    while i < n
        invariant
            i <= n,
            n == headers@.len(),
            forall|j: int| 0 <= j < i ==> headers@[j].name@ != "content-type"@,
            spec_content_type(headers@) == spec_content_type(headers@.skip(i as int)),
        decreases n - i,
    {
        if str_eq(headers[i].name.as_str(), "content-type") {
            proof {
                assert(headers@.skip(i as int)[0] == headers@[i as int]);
            }
            return Some(&headers[i].value);
        }
        proof {
            lemma_content_type_skip(headers@, i as int);
        }
        i += 1;
    }
    proof {
        assert(headers@.skip(n as int) =~= Seq::<Header>::empty());
    }
    None
}

/// A content-type value whose body can safely be sent again: anything that
/// does not declare a multipart form or a raw octet stream.
pub open spec fn spec_replayable_value(v: Seq<char>) -> bool {
    !contains_seq(v, "multipart/form-data"@) && v != "application/octet-stream"@
}

/// Whether a request with this content-type header (absent or unparsable
/// counts as unknown, hence eligible) may be retried at all.
pub open spec fn spec_retry_eligible(ct: Option<Seq<char>>) -> bool {
    match ct {
        None => true,
        Some(v) => spec_replayable_value(v),
    }
}

/// Whether the request's body may be re-sent: the content-type short-circuit
/// that the retry policy applies before any backoff computation.
pub fn retry_eligible(headers: &Vec<Header>) -> (r: bool)
    ensures
        r == spec_retry_eligible(spec_content_type(headers@)),
{
    match content_type_of(headers) {
        None => true,
        Some(v) => {
            let multipart = str_contains(v.as_str(), "multipart/form-data");
            let octet = str_eq(v.as_str(), "application/octet-stream");
            !multipart && !octet
        },
    }
}

impl PendingRequest {
    /// A POST request carrying a serialized JSON document, with the matching
    /// content-type header. Such a request is always retry-eligible.
    pub fn new_json(url: String, bytes: Vec<u8>) -> (r: PendingRequest)
        ensures
            r.method == HttpMethod::Post,
            r.url@ == url@,
            r.headers@.len() == 1,
            r.headers@[0].name@ == "content-type"@,
            r.headers@[0].value@ == "application/json"@,
            r.body matches RequestBody::Json { bytes: b } && b@ == bytes@,
            r.timeout_ms is None,
            spec_content_type(r.headers@) == Some("application/json"@),
            spec_retry_eligible(spec_content_type(r.headers@)),
    {
        let mut headers: Vec<Header> = Vec::new();
        headers.push(
            Header {
                name: String::from_str("content-type"),
                value: String::from_str("application/json"),
            },
        );
        proof {
            reveal_strlit("application/json");
            reveal_strlit("multipart/form-data");
            reveal_strlit("application/octet-stream");
            assert("application/json"@.len() == 16);
            assert("multipart/form-data"@.len() == 19);
            assert("application/octet-stream"@.len() == 24);
            assert forall|at: int| !crate::strutil::matches_at(
                "application/json"@,
                "multipart/form-data"@,
                at,
            ) by {}
            assert(spec_replayable_value("application/json"@));
        }
        PendingRequest {
            method: HttpMethod::Post,
            url,
            headers,
            body: RequestBody::Json { bytes },
            timeout_ms: None,
        }
    }

    /// A POST request carrying a multipart form, with the matching
    /// content-type header. Such a request is never retry-eligible.
    pub fn new_multipart(url: String, file: Vec<u8>, fields: Vec<FormField>) -> (r: PendingRequest)
        ensures
            r.method == HttpMethod::Post,
            r.url@ == url@,
            r.headers@.len() == 1,
            r.headers@[0].name@ == "content-type"@,
            r.headers@[0].value@ == "multipart/form-data"@,
            r.body matches RequestBody::Multipart { file: f, fields: fs }
                && f@ == file@ && fs@ == fields@,
            r.timeout_ms is None,
            spec_content_type(r.headers@) == Some("multipart/form-data"@),
            !spec_retry_eligible(spec_content_type(r.headers@)),
    {
        let mut headers: Vec<Header> = Vec::new();
        headers.push(
            Header {
                name: String::from_str("content-type"),
                value: String::from_str("multipart/form-data"),
            },
        );
        proof {
            let v = "multipart/form-data"@;
            assert(v.subrange(0, v.len() as int) =~= v);
            assert(crate::strutil::matches_at(v, v, 0));
        }
        PendingRequest {
            method: HttpMethod::Post,
            url,
            headers,
            body: RequestBody::Multipart { file, fields },
            timeout_ms: None,
        }
    }

    /// Attaches a bearer-authorization header carrying `token`. Leaves the
    /// request unchanged when the token is empty, and never disturbs the
    /// content-type lookup.
    pub fn apply_auth(&mut self, token: &str)
        ensures
            final(self).method == old(self).method,
            final(self).url == old(self).url,
            final(self).body == old(self).body,
            final(self).timeout_ms == old(self).timeout_ms,
            token@.len() == 0 ==> final(self).headers@ == old(self).headers@,
            token@.len() > 0 ==> {
                &&& final(self).headers@.len() == old(self).headers@.len() + 1
                &&& forall|i: int|
                    0 <= i < old(self).headers@.len() ==> final(self).headers@[i]
                        == old(self).headers@[i]
                &&& final(self).headers@.last().name@ == "authorization"@
                &&& final(self).headers@.last().value@ == "Bearer "@ + token@
            },
            spec_content_type(final(self).headers@) == spec_content_type(old(self).headers@),
    {
        if token.unicode_len() > 0 {
            let value = String::from_str("Bearer ").concat(token);
            let h = Header { name: String::from_str("authorization"), value };
            proof {
                reveal_strlit("authorization");
                reveal_strlit("content-type");
                assert("authorization"@.len() == 13);
                assert("content-type"@.len() == 12);
                lemma_content_type_push(self.headers@, h);
            }
            self.headers.push(h);
        }
    }

    /// Attaches the per-attempt timeout.
    pub fn apply_timeout(&mut self, timeout_ms: u64)
        ensures
            final(self).method == old(self).method,
            final(self).url == old(self).url,
            final(self).body == old(self).body,
            final(self).headers == old(self).headers,
            final(self).timeout_ms == Some(timeout_ms),
    {
        self.timeout_ms = Some(timeout_ms);
    }
}

} // verus!
