use vstd::prelude::*;

use crate::error::ExecutionError;
use crate::method::{parse_method, verb_of, Verb};

verus! {

/// A header as a pair of name and value.
pub type Header = (String, String);

/// What a caller asks to have sent.
#[derive(Debug)]
pub struct RequestDescription {
    pub method: String,
    pub url: String,
    pub headers: Vec<Header>,
    /// The empty string means that no body is sent.
    pub body: String,
}

/// A call ready for the transport: method, target, headers to attach in order,
/// and the body, if any.
#[derive(Debug)]
pub struct OutboundCall {
    pub verb: Verb,
    pub url: String,
    pub headers: Vec<Header>,
    pub body: Option<String>,
}

/// A header as name text and value text.
pub open spec fn header_view(h: Header) -> (Seq<char>, Seq<char>) {
    (h.0@, h.1@)
}

/// A list of headers as pairs of texts, in order.
pub open spec fn headers_view(hs: Seq<Header>) -> Seq<(Seq<char>, Seq<char>)> {
    hs.map_values(|h: Header| header_view(h))
}

/// The lower-case form of an ASCII capital; any other character as it is.
pub open spec fn ascii_lower(c: char) -> char {
    if 'A' <= c && c <= 'Z' {
        ((c as u32) + 32) as char
    } else {
        c
    }
}

/// Header names are compared without regard to ASCII case.
pub open spec fn is_content_type(name: Seq<char>) -> bool {
    &&& name.len() == "content-type"@.len()
    &&& forall|i: int| 0 <= i < name.len() ==> ascii_lower(#[trigger] name[i]) == "content-type"@[i]
}

/// The caller's headers without any that names the content type.
pub open spec fn without_content_type(hs: Seq<(Seq<char>, Seq<char>)>) -> Seq<(Seq<char>, Seq<char>)>
    decreases hs.len(),
{
    if hs.len() == 0 {
        hs
    } else {
        let rest = without_content_type(hs.drop_last());
        if is_content_type(hs.last().0) {
            rest
        } else {
            rest.push(hs.last())
        }
    }
}

/// The header that labels a body as JSON.
pub open spec fn json_content_type() -> (Seq<char>, Seq<char>) {
    ("Content-Type"@, "application/json"@)
}

/// The headers that go out: the caller's as given when there is no body; with a
/// body, the caller's without their content type, then the JSON content type.
pub open spec fn outbound_headers(hs: Seq<(Seq<char>, Seq<char>)>, body: Seq<char>) -> Seq<
    (Seq<char>, Seq<char>),
> {
    if body.len() == 0 {
        hs
    } else {
        without_content_type(hs).push(json_content_type())
    }
}

/// The call that `req` describes, sent with method `verb`.
pub open spec fn describes_call(c: OutboundCall, req: RequestDescription, verb: Verb) -> bool {
    &&& c.verb == verb
    &&& c.url@ == req.url@
    &&& headers_view(c.headers@) == outbound_headers(headers_view(req.headers@), req.body@)
    &&& if req.body@.len() == 0 {
        c.body is None
    } else {
        c.body matches Some(b) && b@ == req.body@
    }
}

fn lower_char(c: char) -> (r: char)
    ensures
        r == ascii_lower(c),
{
    if 'A' <= c && c <= 'Z' {
        ((c as u8) + 32) as char
    } else {
        c
    }
}

/// Whether `name` names the content type, ignoring ASCII case.
pub fn names_content_type(name: &str) -> (r: bool)
    ensures
        r == is_content_type(name@),
{
    let wanted = "content-type";
    proof {
        reveal_strlit("content-type");
    }
    let n = name.unicode_len();
    if n != 12 {
        return false;
    }
    let mut i: usize = 0;
    while i < n
        invariant
            n == name@.len() == wanted@.len() == 12,
            wanted@ == "content-type"@,
            i <= n,
            forall|j: int| 0 <= j < i ==> ascii_lower(#[trigger] name@[j]) == wanted@[j],
        decreases n - i,
    {
        if lower_char(name.get_char(i)) != wanted.get_char(i) {
            assert(ascii_lower(name@[i as int]) != "content-type"@[i as int]);
            return false;
        }
        i = i + 1;
    }
    true
}

/// Turns a request description into the call to send: the method must be one
/// of the recognised ones, the caller's headers are kept, and a non-empty body
/// goes out labelled as JSON.
pub fn plan_request(req: RequestDescription) -> (r: Result<OutboundCall, ExecutionError>)
    ensures
        match verb_of(req.method@) {
            None => r matches Err(ExecutionError::InvalidMethod),
            Some(v) => r matches Ok(c) && describes_call(c, req, v),
        },
{
    let verb = match parse_method(req.method.as_str()) {
        Some(v) => v,
        None => return Err(ExecutionError::InvalidMethod),
    };
    let ghost original = req;
    let RequestDescription { method: _, url, headers, body } = req;
    if body.as_str().is_empty() {
        return Ok(OutboundCall { verb, url, headers, body: None });
    }
    let mut kept: Vec<Header> = Vec::new();
    let mut i: usize = 0;
    while i < headers.len()
        invariant
            i <= headers@.len(),
            headers_view(kept@) == without_content_type(headers_view(headers@.take(i as int))),
        decreases headers@.len() - i,
    {
        let ghost before = headers@.take(i as int);
        assert(headers@.take(i + 1) =~= before.push(headers@[i as int]));
        assert(headers_view(before.push(headers@[i as int])).drop_last() =~= headers_view(before));
        if !names_content_type(headers[i].0.as_str()) {
            kept.push((headers[i].0.clone(), headers[i].1.clone()));
            assert(headers_view(kept@) =~= headers_view(kept@.drop_last()).push(header_view(kept@.last())));
        }
        i = i + 1;
    }
    assert(headers@.take(headers@.len() as int) =~= headers@);
    kept.push((String::from_str("Content-Type"), String::from_str("application/json")));
    assert(headers_view(kept@) =~= headers_view(kept@.drop_last()).push(header_view(kept@.last())));
    assert(headers_view(kept@) == outbound_headers(headers_view(original.headers@), original.body@));
    Ok(OutboundCall { verb, url, headers: kept, body: Some(body) })
}

} // verus!

verus! {

proof fn lemma_without_content_type_keeps(hs: Seq<(Seq<char>, Seq<char>)>, i: int)
    requires
        0 <= i < hs.len(),
        !is_content_type(hs[i].0),
    ensures
        without_content_type(hs).contains(hs[i]),
    decreases hs.len(),
{
    if i == hs.len() - 1 {
        assert(without_content_type(hs).last() == hs[i]);
    } else {
        lemma_without_content_type_keeps(hs.drop_last(), i);
        let rest = without_content_type(hs.drop_last());
        let k = choose|k: int| 0 <= k < rest.len() && rest[k] == hs[i];
        if !is_content_type(hs.last().0) {
            assert(rest.push(hs.last())[k] == hs[i]);
        }
    }
}

proof fn lemma_without_content_type_has_none(hs: Seq<(Seq<char>, Seq<char>)>, j: int)
    requires
        0 <= j < without_content_type(hs).len(),
    ensures
        !is_content_type(without_content_type(hs)[j].0),
    decreases hs.len(),
{
    if hs.len() > 0 {
        let rest = without_content_type(hs.drop_last());
        if j < rest.len() {
            lemma_without_content_type_has_none(hs.drop_last(), j);
        }
    }
}

/// With a non-empty body the call carries the body, and its one content-type
/// header says JSON, whatever content type the caller asked for.
pub proof fn lemma_body_is_labelled_json(req: RequestDescription, verb: Verb, c: OutboundCall)
    requires
        describes_call(c, req, verb),
        req.body@.len() > 0,
    ensures
        c.body matches Some(b) && b@ == req.body@,
        headers_view(c.headers@).contains(json_content_type()),
        is_content_type(json_content_type().0),
        forall|j: int|
            0 <= j < c.headers@.len() && is_content_type(#[trigger] c.headers@[j].0@) ==> header_view(
                c.headers@[j],
            ) == json_content_type(),
{
    reveal_strlit("Content-Type");
    reveal_strlit("content-type");
    let out = headers_view(c.headers@);
    let kept = without_content_type(headers_view(req.headers@));
    assert(out[out.len() - 1] == json_content_type());
    assert forall|j: int|
        0 <= j < c.headers@.len() && is_content_type(#[trigger] c.headers@[j].0@) implies header_view(
            c.headers@[j],
        ) == json_content_type() by {
        assert(out[j] == header_view(c.headers@[j]));
        if j < kept.len() {
            lemma_without_content_type_has_none(headers_view(req.headers@), j);
        }
    }
}

/// With an empty body nothing is attached and the headers go out exactly as
/// given: no content type is forced.
pub proof fn lemma_empty_body_sends_headers_as_given(
    req: RequestDescription,
    verb: Verb,
    c: OutboundCall,
)
    requires
        describes_call(c, req, verb),
        req.body@.len() == 0,
    ensures
        c.body is None,
        headers_view(c.headers@) == headers_view(req.headers@),
{
}

/// Every header that the caller gives reaches the call, but for a content type
/// that a body replaces.
pub proof fn lemma_caller_headers_are_sent(req: RequestDescription, verb: Verb, c: OutboundCall, i: int)
    requires
        describes_call(c, req, verb),
        0 <= i < req.headers@.len(),
        req.body@.len() > 0 ==> !is_content_type(req.headers@[i].0@),
    ensures
        headers_view(c.headers@).contains(header_view(req.headers@[i])),
{
    let hs = headers_view(req.headers@);
    assert(hs[i] == header_view(req.headers@[i]));
    if req.body@.len() > 0 {
        lemma_without_content_type_keeps(hs, i);
        let kept = without_content_type(hs);
        let k = choose|k: int| 0 <= k < kept.len() && kept[k] == hs[i];
        assert(kept.push(json_content_type())[k] == hs[i]);
    } else {
        assert(headers_view(c.headers@)[i] == hs[i]);
    }
}

} // verus!
