use vstd::prelude::*;

use crate::request::Header;

verus! {

/// A response header as the transport hands it over: name and raw value bytes.
pub type RawHeader = (String, Vec<u8>);

/// What the caller gets back from a completed exchange.
#[derive(Debug)]
pub struct ResponseDescription {
    pub status: u16,
    pub status_text: String,
    /// One entry per header name; a name that came more than once keeps the
    /// value that came last.
    pub headers: Vec<Header>,
    pub body: String,
    /// Milliseconds from dispatch until the body had been read.
    pub duration: u128,
}

/// A byte that a header value may hold and still read as text: visible ASCII
/// or a tab.
pub open spec fn is_visible_ascii(b: u8) -> bool {
    (32 <= b && b < 127) || b == 9
}

/// The text of a header value, or the empty text where some byte is not
/// visible ASCII.
pub open spec fn header_value_text(raw: Seq<u8>) -> Seq<char> {
    if forall|i: int| 0 <= i < raw.len() ==> is_visible_ascii(#[trigger] raw[i]) {
        raw.map_values(|b: u8| b as char)
    } else {
        Seq::empty()
    }
}

/// The headers of a response as a map from name to text; a later header
/// replaces an earlier one of the same name.
pub open spec fn header_map(raw: Seq<(Seq<char>, Seq<u8>)>) -> Map<Seq<char>, Seq<char>>
    decreases raw.len(),
{
    if raw.len() == 0 {
        Map::empty()
    } else {
        header_map(raw.drop_last()).insert(raw.last().0, header_value_text(raw.last().1))
    }
}

/// Raw response headers as name text and value bytes, in order.
pub open spec fn raw_headers_view(raw: Seq<RawHeader>) -> Seq<(Seq<char>, Seq<u8>)> {
    raw.map_values(|h: RawHeader| (h.0@, h.1@))
}

/// `hs` holds each name once, and together its entries make up the map `m`.
pub open spec fn lists_map(hs: Seq<Header>, m: Map<Seq<char>, Seq<char>>) -> bool {
    &&& forall|i: int, j: int| 0 <= i < j < hs.len() ==> #[trigger] hs[i].0@ != #[trigger] hs[j].0@
    &&& forall|i: int| 0 <= i < hs.len() ==> m.contains_key(#[trigger] hs[i].0@) && m[hs[i].0@] == hs[i].1@
    &&& forall|k: Seq<char>| #[trigger] m.contains_key(k) ==> exists|i: int| 0 <= i < hs.len() && hs[i].0@ == k
}

/// The status line text that the transport library gives for a status code.
pub uninterp spec fn status_line_of(code: u16) -> Seq<char>;

/// Relies on http's `HeaderValue::from_bytes` and `HeaderValue::to_str`: the
/// value reads as text exactly when every byte is visible ASCII or a tab, and
/// the text is those bytes.
#[verifier::external_body]
fn header_value_str(raw: &[u8]) -> (r: Option<String>)
    ensures
        r matches Some(t) ==> (forall|i: int| 0 <= i < raw@.len() ==> is_visible_ascii(#[trigger] raw@[i]))
            && t@ == raw@.map_values(|b: u8| b as char),
        r is None ==> exists|i: int| 0 <= i < raw@.len() && !is_visible_ascii(#[trigger] raw@[i]),
{
    match reqwest::header::HeaderValue::from_bytes(raw) {
        Ok(v) => v.to_str().ok().map(|t| t.to_string()),
        Err(_) => None,
    }
}

/// Relies on http's `StatusCode::from_u16`, which accepts 100 to 999, and on
/// the `Display` of `StatusCode` for the text; its error reads
/// "invalid status code".
#[verifier::external_body]
pub(crate) fn status_line(code: u16) -> (r: Result<String, String>)
    ensures
        r is Ok <==> 100 <= code <= 999,
        r matches Ok(t) ==> t@ == status_line_of(code),
        r matches Err(m) ==> m@ == "invalid status code"@,
{
    reqwest::StatusCode::from_u16(code).map(|s| s.to_string()).map_err(|e| e.to_string())
}

/// The text of one header value; values that are not visible ASCII become
/// empty rather than failing.
pub fn decode_header_value(raw: &[u8]) -> (r: String)
    ensures
        r@ == header_value_text(raw@),
{
    match header_value_str(raw) {
        Some(t) => t,
        None => String::new(),
    }
}

/// Collects response headers into one entry per name, each value decoded as
/// text; a repeated name keeps its last value.
pub fn normalize_headers(raw: &Vec<RawHeader>) -> (r: Vec<Header>)
    ensures
        lists_map(r@, header_map(raw_headers_view(raw@))),
{
    let mut out: Vec<Header> = Vec::new();
    let mut i: usize = 0;
    while i < raw.len()
        invariant
            i <= raw@.len(),
            lists_map(out@, header_map(raw_headers_view(raw@.take(i as int)))),
        decreases raw@.len() - i,
    {
        let ghost prev = out@;
        let ghost before = raw_headers_view(raw@.take(i as int));
        assert(raw_headers_view(raw@.take(i + 1)).drop_last() =~= before);
        let name = raw[i].0.clone();
        let value = decode_header_value(raw[i].1.as_slice());
        let ghost m = header_map(raw_headers_view(raw@.take(i + 1)));
        assert(m == header_map(before).insert(name@, value@));
        let mut j: usize = 0;
        while j < out.len() && !(out[j].0 == name)
            invariant
                out@ == prev,
                j <= out@.len(),
                forall|k: int| 0 <= k < j ==> out@[k].0@ != name@,
            decreases out@.len() - j,
        {
            j = j + 1;
        }
        if j < out.len() {
            out.set(j, (name, value));
            assert(lists_map(out@, m)) by {
                assert forall|k: Seq<char>| #[trigger] m.contains_key(k) implies exists|x: int|
                    0 <= x < out@.len() && out@[x].0@ == k by {
                    if k != name@ {
                        let x = choose|x: int| 0 <= x < prev.len() && prev[x].0@ == k;
                        assert(out@[x] == prev[x]);
                    } else {
                        assert(out@[j as int].0@ == k);
                    }
                }
            }
        } else {
            out.push((name, value));
            assert(lists_map(out@, m)) by {
                assert forall|k: Seq<char>| #[trigger] m.contains_key(k) implies exists|x: int|
                    0 <= x < out@.len() && out@[x].0@ == k by {
                    if k != name@ {
                        let x = choose|x: int| 0 <= x < prev.len() && prev[x].0@ == k;
                        assert(out@[x] == prev[x]);
                    } else {
                        assert(out@[prev.len() as int].0@ == k);
                    }
                }
            }
        }
        i = i + 1;
    }
    assert(raw@.take(raw@.len() as int) =~= raw@);
    out
}

} // verus!
