use reqwest::header::{HeaderMap, HeaderName, HeaderValue};
use vstd::prelude::*;

use crate::text::{distinct_keys, insert_pair, text_pairs};

verus! {

#[verifier::external_type_specification]
#[verifier::external_body]
#[verifier::reject_recursive_types(T)]
pub struct ExHeaderMap<T>(HeaderMap<T>);

#[verifier::external_type_specification]
#[verifier::external_body]
pub struct ExHeaderValue(HeaderValue);

/// The entries of a header map, name and value, in the order the map hands them out.
pub uninterp spec fn header_entries(h: HeaderMap) -> Seq<(Seq<char>, Seq<char>)>;

/// A header name as written to the map: non-empty, lowercase letters and `-`.
pub open spec fn is_header_name(s: Seq<char>) -> bool {
    s.len() > 0 && forall|i: int| 0 <= i < s.len() ==> (('a' <= #[trigger] s[i] && s[i] <= 'z') || s[i] == '-')
}

/// Text that a header value can carry and give back: visible ASCII, space and tab.
pub open spec fn is_header_text(s: Seq<char>) -> bool {
    forall|i: int| 0 <= i < s.len() ==> ((' ' <= #[trigger] s[i] && s[i] <= '~') || s[i] == '\t')
}

/// Relies on `HeaderMap::new`: a new map holds no entry.
#[verifier::external_body]
pub(crate) fn header_map_new() -> (r: HeaderMap)
    ensures
        header_entries(r) == Seq::<(Seq<char>, Seq<char>)>::empty(),
{
    HeaderMap::new()
}

/// Relies on `HeaderMap::insert`, which replaces the value of a present name in
/// its place and appends a new name after the others; `HeaderName::from_static`
/// accepts lowercase names and `HeaderValue::from_str` accepts visible ASCII.
/// The entries must hold each name once, as `insert` alone leaves them
/// (`append` could repeat a name). Growth fails only far past 4096 entries (`MAX_SIZE` bounds the index table);
/// `from_static` refuses names longer than 65535 bytes.
#[verifier::external_body]
pub(crate) fn header_insert(h: &mut HeaderMap, name: &'static str, value: &str)
    requires
        header_entries(*old(h)).len() < 4096,
        distinct_keys(header_entries(*old(h))),
        name@.len() <= 65535,
        is_header_name(name@),
        is_header_text(value@),
    ensures
        header_entries(*final(h)) == insert_pair(header_entries(*old(h)), name@, value@),
{
    h.insert(HeaderName::from_static(name), HeaderValue::from_str(value).unwrap());
}

/// Relies on `HeaderMap::iter`, which walks the entries in their order, and on
/// `HeaderValue::to_str`, which gives back visible ASCII as it was put in.
#[verifier::external_body]
pub(crate) fn header_pairs(h: &HeaderMap) -> (r: Vec<(String, String)>)
    requires
        forall|i: int| 0 <= i < header_entries(*h).len() ==> is_header_text(#[trigger] header_entries(*h)[i].1),
    ensures
        text_pairs(r@) == header_entries(*h),
{
    h.iter().map(|(n, v)| (n.as_str().to_string(), v.to_str().unwrap().to_string())).collect()
}

} // verus!
