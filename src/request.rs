use vstd::prelude::*;
use vstd::utf8::{decode_utf8, encode_utf8};

use crate::cookie::{csrf_token, extract_csrf, get_cookie_string, is_anonymous_cookie};
use crate::crypto::{is_linuxapi_body, is_weapi_body, is_weapi_key, linuxapi, linuxapi_text, random_weapi_key, weapi_text, weapi_with_key};
use crate::headers::{header_entries, header_insert, header_map_new, header_pairs, is_header_name, is_header_text};
use crate::text::{
    distinct_keys, has_key, insert_pair, lemma_insert_pair_distinct, lemma_param_map_distinct, param_map, with_value, json_object, json_object_string, json_quote, json_string, replace_all, replace_text, text_pairs, to_upper, upper_of,
};
use crate::user_agent::{
    agent_for_class, choose_user_agent, linux_user_agent, linux_user_agent_text, same_text,
};
use crate::FormatParams;

verus! {

broadcast use vstd::string::group_string_axioms, vstd::utf8::group_utf8_lib;

/// The transform a call must go through before the platform accepts it.
#[derive(Clone, Copy, Debug, PartialEq, Eq, Structural)]
pub enum CryptoScheme {
    WeApi,
    LinuxApi,
    EApi,
    Plain,
}

/// Per-request settings besides the parameters: the scheme, the cookie as
/// supplied (empty for none), the User-Agent class tag, and whether a scheme
/// without a transform is refused (`strict`) or sent with an empty body.
#[derive(Debug)]
pub struct RequestParams {
    pub crypto: CryptoScheme,
    pub cookie: String,
    pub ua: String,
    pub strict: bool,
}

/// Why a request could not be assembled.
#[derive(Clone, Copy, Debug, PartialEq, Eq, Structural)]
pub enum RequestError {
    /// The cookie or the User-Agent holds text that a header cannot carry.
    InvalidHeaderValue,
    /// The scheme has no transform wired in, and strict dispatch was asked for.
    UnsupportedScheme,
    /// The call omits a parameter that its endpoint requires.
    MissingRequiredParameter,
    /// A parameter's value is not one that its endpoint accepts.
    InvalidParameter,
}

/// The bytes of `http://`.
pub open spec fn http_prefix() -> Seq<u8> {
    seq![0x68u8, 0x74, 0x74, 0x70, 0x3a, 0x2f, 0x2f]
}

/// The bytes of `https://`.
pub open spec fn https_prefix() -> Seq<u8> {
    seq![0x68u8, 0x74, 0x74, 0x70, 0x73, 0x3a, 0x2f, 0x2f]
}

/// The bytes of `music.163.com`, the platform's primary host.
pub open spec fn platform_host() -> Seq<u8> {
    seq![0x6du8, 0x75, 0x73, 0x69, 0x63, 0x2e, 0x31, 0x36, 0x33, 0x2e, 0x63, 0x6f, 0x6d]
}

pub open spec fn starts_at(b: Seq<u8>, lo: int, p: Seq<u8>) -> bool {
    0 <= lo && lo + p.len() <= b.len() && b.subrange(lo, lo + p.len()) == p
}

/// An ASCII uppercase letter lowered; any other byte as it is.
pub open spec fn lower_byte(c: u8) -> u8 {
    if 65 <= c && c <= 90 {
        (c + 32) as u8
    } else {
        c
    }
}

pub open spec fn lower_bytes(b: Seq<u8>) -> Seq<u8> {
    Seq::new(b.len(), |i: int| lower_byte(b[i]))
}

/// Where the authority begins: after `http://` or `https://`, in any ASCII case.
pub open spec fn authority_start(b: Seq<u8>) -> Option<int> {
    if starts_at(lower_bytes(b), 0, https_prefix()) {
        Some(8)
    } else if starts_at(lower_bytes(b), 0, http_prefix()) {
        Some(7)
    } else {
        None
    }
}

/// `/`, `?` and `#` end the authority part of a URL.
pub open spec fn is_authority_end(c: u8) -> bool {
    c == 0x2f || c == 0x3f || c == 0x23
}

/// The first `j >= from` where the authority ends, or `b.len()`.
pub open spec fn authority_end(b: Seq<u8>, from: int) -> int
    decreases b.len() - from,
{
    if from < 0 || from >= b.len() {
        b.len() as int
    } else if is_authority_end(b[from]) {
        from
    } else {
        authority_end(b, from + 1)
    }
}

/// Where the host begins in the authority `b[from..end]`: after its last `@`, or at `from`.
pub open spec fn host_start(b: Seq<u8>, from: int, end: int) -> int
    decreases end - from,
{
    if end <= from {
        from
    } else if b[end - 1] == 0x40 {
        end
    } else {
        host_start(b, from, end - 1)
    }
}

/// Where the host ends in `b[from..end]`: at its first `:`, or at `end`.
pub open spec fn port_start(b: Seq<u8>, from: int, end: int) -> int
    decreases end - from,
{
    if end <= from {
        end
    } else if b[from] == 0x3a {
        from
    } else {
        port_start(b, from + 1, end)
    }
}

/// The host of an `http://` or `https://` URL's bytes: the authority (up to the
/// first `/`, `?` or `#`) after any `user@` part and before any `:port`.
pub open spec fn url_host(b: Seq<u8>) -> Option<Seq<u8>> {
    match authority_start(b) {
        None => None,
        Some(s) => {
            let e = authority_end(b, s);
            let h = host_start(b, s, e);
            Some(b.subrange(h, port_start(b, h, e)))
        },
    }
}

/// The URL's host is the platform's, compared ignoring ASCII case.
pub open spec fn is_platform_url(url: Seq<char>) -> bool {
    match url_host(encode_utf8(url)) {
        Some(h) => lower_bytes(h) == platform_host(),
        None => false,
    }
}

/// The method hint names POST: its Unicode upper case is `POST`.
pub open spec fn is_post_method(m: Seq<char>) -> bool {
    upper_of(m) == "POST"@
}

/// The CSRF token of a cookie, as text.
pub open spec fn csrf_text(cookie: Seq<char>) -> Seq<char> {
    decode_utf8(csrf_token(encode_utf8(cookie)))
}

/// The LinuxApi envelope: method, the URL with its browser-facing `weapi` path
/// turned into the server-facing `api`, and the parameters.
pub open spec fn linux_envelope(
    method: Seq<char>,
    url: Seq<char>,
    params: Seq<(Seq<char>, Seq<char>)>,
) -> Seq<char> {
    "{\"method\":"@ + json_string(method) + ",\"url\":"@ + json_string(
        replace_text(url, "weapi"@, "api"@),
    ) + ",\"params\":"@ + json_object(params) + "}"@
}

/// Where the request goes.
pub open spec fn out_url(scheme: CryptoScheme, url: Seq<char>) -> Seq<char> {
    if scheme == CryptoScheme::LinuxApi {
        "https://music.163.com/api/linux/forward"@
    } else {
        url
    }
}

/// The headers, in order: User-Agent; Content-Type for a POST; Referer when the
/// URL's host is the platform's; Cookie when there is one.
pub open spec fn expected_headers(
    ua: Seq<char>,
    is_post: bool,
    url: Seq<char>,
    cookie: Seq<char>,
) -> Seq<(Seq<char>, Seq<char>)> {
    let h0 = seq![("user-agent"@, ua)];
    let h1 = if is_post {
        h0.push(("content-type"@, "application/x-www-form-urlencoded"@))
    } else {
        h0
    };
    let h2 = if is_platform_url(url) {
        h1.push(("referer"@, "https://music.163.com"@))
    } else {
        h1
    };
    if cookie.len() > 0 {
        h2.push(("cookie"@, cookie))
    } else {
        h2
    }
}

/// The body: the WeApi transform of the parameters with the cookie's CSRF token
/// set as `csrf_token`; the LinuxApi transform of the envelope; or nothing.
pub open spec fn expected_body(
    scheme: CryptoScheme,
    url: Seq<char>,
    method: Seq<char>,
    params: Seq<(Seq<char>, Seq<char>)>,
    cookie: Seq<char>,
    key: Seq<u8>,
) -> Seq<char> {
    match scheme {
        CryptoScheme::WeApi => weapi_text(
            json_object(insert_pair(param_map(params), "csrf_token"@, csrf_text(cookie))),
            key,
        ),
        CryptoScheme::LinuxApi => linuxapi_text(linux_envelope(method, url, param_map(params))),
        _ => Seq::empty(),
    }
}

/// `r` is the request assembled from these inputs, or the error they call for.
pub open spec fn assembled(
    r: Result<FormatParams, RequestError>,
    url: Seq<char>,
    method: Seq<char>,
    is_post: bool,
    scheme: CryptoScheme,
    params: Seq<(Seq<char>, Seq<char>)>,
    cookie: Seq<char>,
    ua: Seq<char>,
    key: Seq<u8>,
    strict: bool,
) -> bool {
    let headers_ok = is_header_text(cookie) && is_header_text(ua);
    let refused = strict && scheme == CryptoScheme::EApi;
    match r {
        Err(RequestError::InvalidHeaderValue) => !headers_ok,
        Err(RequestError::UnsupportedScheme) => headers_ok && refused,
        Err(_) => false,
        Ok(fp) => headers_ok && !refused && fp.url@ == out_url(scheme, url) && fp.method@ == "POST"@
            && text_pairs(fp.headers@) == expected_headers(ua, is_post, url, cookie) && fp.body@
            == expected_body(scheme, url, method, params, cookie, key),
    }
}

/// A built request's shape under its scheme: LinuxApi goes to the forwarding
/// endpoint with an `eparams=` body; WeApi carries `params=` and `encSecKey=`.
pub open spec fn scheme_shape(r: Result<FormatParams, RequestError>, scheme: CryptoScheme) -> bool {
    match r {
        Ok(fp) => (scheme == CryptoScheme::LinuxApi ==> fp.url@
            == "https://music.163.com/api/linux/forward"@ && is_linuxapi_body(fp.body@)) && (scheme
            == CryptoScheme::WeApi ==> is_weapi_body(fp.body@)),
        Err(_) => true,
    }
}

fn lower(c: u8) -> (r: u8)
    ensures
        r == lower_byte(c),
{
    if 65 <= c && c <= 90 {
        c + 32
    } else {
        c
    }
}

/// Whether `p` stands at `lo` in `b`, ignoring ASCII case.
fn bytes_at(b: &[u8], lo: usize, p: &Vec<u8>) -> (r: bool)
    ensures
        r == starts_at(lower_bytes(b@), lo as int, p@),
{
    if lo > b.len() || p.len() > b.len() - lo {
        return false;
    }
    let blen = b.len();
    let ghost lb = lower_bytes(b@);
    let mut i: usize = 0;
    while i < p.len()
        invariant
            blen == b@.len(),
            lb == lower_bytes(b@),
            lo + p@.len() <= b@.len(),
            i <= p@.len(),
            forall|k: int| 0 <= k < i ==> lb[lo + k] == p@[k],
        decreases p.len() - i,
    {
        if lower(b[lo + i]) != p[i] {
            proof {
                assert(lb.subrange(lo as int, lo + p@.len())[i as int] != p@[i as int]);
            }
            return false;
        }
        i = i + 1;
    }
    proof {
        assert(lb.subrange(lo as int, lo + p@.len()) =~= p@);
    }
    true
}

/// Whether the URL's host is the platform's primary host, ignoring ASCII case.
pub fn is_platform_host(url: &str) -> (r: bool)
    ensures
        r == is_platform_url(url@),
{
    let b = url.as_bytes();
    let ghost bs = b@;
    let https = vec![0x68u8, 0x74, 0x74, 0x70, 0x73, 0x3a, 0x2f, 0x2f];
    let http = vec![0x68u8, 0x74, 0x74, 0x70, 0x3a, 0x2f, 0x2f];
    let start: usize = if bytes_at(b, 0, &https) {
        8
    } else if bytes_at(b, 0, &http) {
        7
    } else {
        return false;
    };
    let mut end: usize = start;
    while end < b.len() && !(b[end] == 0x2f || b[end] == 0x3f || b[end] == 0x23)
        invariant
            bs == b@,
            start <= end <= b@.len(),
            authority_end(bs, start as int) == authority_end(bs, end as int),
        decreases b.len() - end,
    {
        end = end + 1;
    }
    let mut hs: usize = end;
    while hs > start && b[hs - 1] != 0x40
        invariant
            bs == b@,
            start <= hs <= end <= b@.len(),
            host_start(bs, start as int, end as int) == host_start(bs, start as int, hs as int),
        decreases hs,
    {
        hs = hs - 1;
    }
    let mut pe: usize = hs;
    while pe < end && b[pe] != 0x3a
        invariant
            bs == b@,
            hs <= pe <= end <= b@.len(),
            port_start(bs, hs as int, end as int) == port_start(bs, pe as int, end as int),
        decreases end - pe,
    {
        pe = pe + 1;
    }
    let host = vec![0x6du8, 0x75, 0x73, 0x69, 0x63, 0x2e, 0x31, 0x36, 0x33, 0x2e, 0x63, 0x6f, 0x6d];
    let ghost h = bs.subrange(hs as int, pe as int);
    proof {
        assert(url_host(bs) == Some(h));
    }
    if pe - hs != host.len() {
        proof {
            assert(lower_bytes(h).len() != platform_host().len());
        }
        return false;
    }
    let r = bytes_at(b, hs, &host);
    proof {
        assert(lower_bytes(bs).subrange(hs as int, pe as int) =~= lower_bytes(h));
    }
    r
}

/// Whether `s` is text that a header can carry.
pub fn is_header_value(s: &str) -> (r: bool)
    ensures
        r == is_header_text(s@),
{
    if !s.is_ascii() {
        proof {
            assert(!is_header_text(s@)) by {
                if is_header_text(s@) {
                    assert forall|i: int| 0 <= i < s@.len() implies '\0' <= #[trigger] s@[i] <= '\u{7f}' by {
                        assert((' ' <= s@[i] && s@[i] <= '~') || s@[i] == '\t');
                    }
                }
            }
        }
        return false;
    }
    let b = s.as_bytes();
    proof {
        vstd::utf8::is_ascii_chars_encode_utf8(s@);
    }
    let mut i: usize = 0;
    while i < b.len()
        invariant
            vstd::utf8::is_ascii_chars(s@),
            b@ == encode_utf8(s@),
            b@.len() == s@.len(),
            i <= b@.len(),
            forall|k: int| 0 <= k < i ==> ((' ' <= #[trigger] s@[k] && s@[k] <= '~') || s@[k] == '\t'),
        decreases b.len() - i,
    {
        let c = b[i];
        assert(s@[i as int] as u8 == c);
        if !((32 <= c && c <= 126) || c == 9) {
            return false;
        }
        i = i + 1;
    }
    true
}

/// The parameters with `k` set to `v`: in its place where `k` is present, last otherwise.
pub fn set_param(ps: &Vec<(String, String)>, k: &str, v: &str) -> (r: Vec<(String, String)>)
    ensures
        text_pairs(r@) == insert_pair(text_pairs(ps@), k@, v@),
{
    let key = String::from_str(k);
    let mut out: Vec<(String, String)> = Vec::new();
    let mut found = false;
    let mut i: usize = 0;
    while i < ps.len()
        invariant
            key@ == k@,
            i <= ps@.len(),
            text_pairs(out@) == text_pairs(ps@).subrange(0, i as int).map_values(|e: (Seq<char>, Seq<char>)| with_value(e, k@, v@)),
            found == has_key(text_pairs(ps@).subrange(0, i as int), k@),
        decreases ps.len() - i,
    {
        let name = ps[i].0.clone();
        let hit = ps[i].0 == key;
        let value = if hit {
            String::from_str(v)
        } else {
            ps[i].1.clone()
        };
        let ghost pre = text_pairs(ps@).subrange(0, i as int);
        let ghost nxt = text_pairs(ps@).subrange(0, i + 1);
        let ghost old_out = out@;
        proof {
            assert(text_pairs(ps@)[i as int] == (ps@[i as int].0@, ps@[i as int].1@));
            assert(nxt =~= pre.push(text_pairs(ps@)[i as int]));
            assert(hit == (ps@[i as int].0@ == k@));
            if has_key(nxt, k@) {
                let w = choose|w: int| 0 <= w < nxt.len() && (#[trigger] nxt[w]).0 == k@;
                if w < i {
                    assert(pre[w].0 == k@);
                }
            }
            if has_key(pre, k@) {
                let w = choose|w: int| 0 <= w < pre.len() && (#[trigger] pre[w]).0 == k@;
                assert(nxt[w].0 == k@);
            }
            if hit {
                assert(nxt[i as int].0 == k@);
            }
        }
        if hit {
            found = true;
        }
        out.push((name, value));
        i = i + 1;
        proof {
            assert(out@ == old_out.push((ps@[i - 1].0, value)));
            assert(text_pairs(out@) =~= text_pairs(old_out).push((ps@[i - 1].0@, value@)));
            assert(nxt[i - 1] == (ps@[i - 1].0@, ps@[i - 1].1@));
            if hit {
                assert(with_value(nxt[i - 1], k@, v@) == (ps@[i - 1].0@, v@));
            } else {
                assert(with_value(nxt[i - 1], k@, v@) == (ps@[i - 1].0@, ps@[i - 1].1@));
            }
            assert(nxt.map_values(|e: (Seq<char>, Seq<char>)| with_value(e, k@, v@)) =~= pre.map_values(|e: (Seq<char>, Seq<char>)| with_value(e, k@, v@)).push(with_value(nxt[i - 1], k@, v@)));
            assert(text_pairs(out@) =~= nxt.map_values(|e: (Seq<char>, Seq<char>)| with_value(e, k@, v@)));
        }
    }
    proof {
        assert(text_pairs(ps@).subrange(0, ps@.len() as int) =~= text_pairs(ps@));
    }
    if !found {
        let ghost old_out = out@;
        let value = String::from_str(v);
        out.push((key, value));
        proof {
            assert(text_pairs(ps@).map_values(|e: (Seq<char>, Seq<char>)| with_value(e, k@, v@)) =~= text_pairs(ps@)) by {
                assert forall|w: int| 0 <= w < text_pairs(ps@).len() implies #[trigger] text_pairs(ps@)[w].0 != k@ by {
                    if text_pairs(ps@)[w].0 == k@ {
                        assert(has_key(text_pairs(ps@), k@));
                    }
                }
            }
            assert(text_pairs(out@) =~= text_pairs(old_out).push((key@, value@)));
            assert(text_pairs(out@) =~= text_pairs(ps@).push((k@, v@)));
        }
    } else {
        proof {
            assert(has_key(text_pairs(ps@), k@));
        }
    }
    out
}

/// The parameter set of `ps`: each pair inserted in turn, so no key stands twice.
pub fn to_param_map(ps: &Vec<(String, String)>) -> (r: Vec<(String, String)>)
    ensures
        text_pairs(r@) == param_map(text_pairs(ps@)),
        distinct_keys(text_pairs(r@)),
{
    let mut out: Vec<(String, String)> = Vec::new();
    let mut i: usize = 0;
    proof {
        assert(text_pairs(ps@).subrange(0, 0) =~= Seq::<(Seq<char>, Seq<char>)>::empty());
        assert(text_pairs(out@) =~= Seq::<(Seq<char>, Seq<char>)>::empty());
    }
    while i < ps.len()
        invariant
            i <= ps@.len(),
            text_pairs(out@) == param_map(text_pairs(ps@).subrange(0, i as int)),
        decreases ps.len() - i,
    {
        proof {
            assert(text_pairs(ps@).subrange(0, i + 1).drop_last() =~= text_pairs(ps@).subrange(0, i as int));
            assert(text_pairs(ps@)[i as int] == (ps@[i as int].0@, ps@[i as int].1@));
        }
        out = set_param(&out, ps[i].0.as_str(), ps[i].1.as_str());
        i = i + 1;
    }
    proof {
        assert(text_pairs(ps@).subrange(0, ps@.len() as int) =~= text_pairs(ps@));
        lemma_param_map_distinct(text_pairs(ps@));
    }
    out
}

/// The LinuxApi envelope, serialised.
pub fn linux_envelope_text(method: &str, url: &str, params: &Vec<(String, String)>) -> (r: String)
    ensures
        r@ == linux_envelope(method@, url@, text_pairs(params@)),
{
    proof {
        reveal_strlit("weapi");
    }
    let server_url = replace_all(url, "weapi", "api");
    let json = json_object_string(params);
    let quoted_method = json_quote(method);
    let quoted_url = json_quote(server_url.as_str());
    String::from_str("{\"method\":").concat(quoted_method.as_str()).concat(",\"url\":").concat(
        quoted_url.as_str(),
    ).concat(",\"params\":").concat(json.as_str()).concat("}")
}

proof fn lemma_header_names()
    ensures
        is_header_name("user-agent"@),
        is_header_name("content-type"@),
        is_header_name("referer"@),
        is_header_name("cookie"@),
        "user-agent"@.len() == 10,
        "content-type"@.len() == 12,
        "referer"@.len() == 7,
        "cookie"@.len() == 6,
        is_header_text("application/x-www-form-urlencoded"@),
        is_header_text("https://music.163.com"@),
        "user-agent"@ != "content-type"@,
        "user-agent"@ != "referer"@,
        "user-agent"@ != "cookie"@,
        "content-type"@ != "referer"@,
        "content-type"@ != "cookie"@,
        "referer"@ != "cookie"@,
{
    reveal_strlit("user-agent");
    reveal_strlit("content-type");
    reveal_strlit("referer");
    reveal_strlit("cookie");
    reveal_strlit("application/x-www-form-urlencoded");
    reveal_strlit("https://music.163.com");
}

proof fn lemma_insert_new(es: Seq<(Seq<char>, Seq<char>)>, k: Seq<char>, v: Seq<char>)
    requires
        forall|i: int| 0 <= i < es.len() ==> (#[trigger] es[i]).0 != k,
    ensures
        insert_pair(es, k, v) == es.push((k, v)),
{
}

/// Assembles the request from inputs whose random parts are already drawn: the
/// resolved cookie, the chosen User-Agent and the WeApi ephemeral key.
pub fn assemble(
    url: &str,
    method: &str,
    is_post: bool,
    scheme: CryptoScheme,
    query_params: &Vec<(String, String)>,
    cookie: &str,
    user_agent: &str,
    weapi_key: &Vec<u8>,
    strict: bool,
) -> (r: Result<FormatParams, RequestError>)
    requires
        weapi_key@.len() == 16,
    ensures
        assembled(
            r,
            url@,
            method@,
            is_post,
            scheme,
            text_pairs(query_params@),
            cookie@,
            user_agent@,
            weapi_key@,
            strict,
        ),
        scheme_shape(r, scheme),
{
    if !is_header_value(cookie) || !is_header_value(user_agent) {
        return Err(RequestError::InvalidHeaderValue);
    }
    if strict && scheme == CryptoScheme::EApi {
        return Err(RequestError::UnsupportedScheme);
    }
    proof {
        lemma_header_names();
    }
    let mut headers = header_map_new();
    proof {
        assert(distinct_keys(header_entries(headers)));
    }
    header_insert(&mut headers, "user-agent", user_agent);
    proof {
        lemma_insert_pair_distinct(Seq::empty(), "user-agent"@, user_agent@);
    }
    let ghost h0 = seq![("user-agent"@, user_agent@)];
    proof {
        lemma_insert_new(Seq::empty(), "user-agent"@, user_agent@);
        assert(Seq::<(Seq<char>, Seq<char>)>::empty().push(("user-agent"@, user_agent@)) =~= h0);
    }
    if is_post {
        proof {
            lemma_insert_new(h0, "content-type"@, "application/x-www-form-urlencoded"@);
        }
        header_insert(&mut headers, "content-type", "application/x-www-form-urlencoded");
        proof {
            lemma_insert_pair_distinct(h0, "content-type"@, "application/x-www-form-urlencoded"@);
        }
    }
    let ghost h1 = header_entries(headers);
    if is_platform_host(url) {
        proof {
            lemma_insert_new(h1, "referer"@, "https://music.163.com"@);
        }
        header_insert(&mut headers, "referer", "https://music.163.com");
        proof {
            lemma_insert_pair_distinct(h1, "referer"@, "https://music.163.com"@);
        }
    }
    let ghost h2 = header_entries(headers);
    if !cookie.is_empty() {
        proof {
            lemma_insert_new(h2, "cookie"@, cookie@);
        }
        header_insert(&mut headers, "cookie", cookie);
    }
    proof {
        assert(header_entries(headers) == expected_headers(user_agent@, is_post, url@, cookie@));
    }
    let body = match scheme {
        CryptoScheme::WeApi => {
            let csrf = extract_csrf(cookie);
            proof {
                assert(csrf@ == csrf_text(cookie@));
                reveal_strlit("csrf_token");
            }
            let map = to_param_map(query_params);
            let params = set_param(&map, "csrf_token", csrf.as_str());
            let json = json_object_string(&params);
            weapi_with_key(json.as_str(), weapi_key)
        },
        CryptoScheme::LinuxApi => {
            let map = to_param_map(query_params);
            let envelope = linux_envelope_text(method, url, &map);
            linuxapi(envelope.as_str())
        },
        _ => String::new(),
    };
    let target = if scheme == CryptoScheme::LinuxApi {
        String::from_str("https://music.163.com/api/linux/forward")
    } else {
        String::from_str(url)
    };
    let pairs = header_pairs(&headers);
    Ok(FormatParams { url: target, headers: pairs, body, method: String::from_str("POST") })
}

/// The cookie that goes out, given the one supplied.
pub open spec fn resolved_cookie(supplied: Seq<char>, c: Seq<char>) -> bool {
    if supplied.len() > 0 {
        c == supplied
    } else {
        is_anonymous_cookie(c)
    }
}

/// The User-Agent that goes out: the fixed one under LinuxApi, else one that the class tag admits.
pub open spec fn chosen_agent(scheme: CryptoScheme, ua: Seq<char>, a: Seq<char>) -> bool {
    if scheme == CryptoScheme::LinuxApi {
        a == linux_user_agent_text()
    } else {
        agent_for_class(ua, a)
    }
}

/// `r` is what a request built from these inputs can be, for some resolved
/// cookie, chosen User-Agent and ephemeral key; and a built request has the
/// body shape of its scheme.
pub open spec fn generated(
    r: Result<FormatParams, RequestError>,
    url: Seq<char>,
    method: Seq<char>,
    params: Seq<(Seq<char>, Seq<char>)>,
    scheme: CryptoScheme,
    cookie: Seq<char>,
    ua: Seq<char>,
    strict: bool,
) -> bool {
    (exists|c: Seq<char>, a: Seq<char>, k: Seq<u8>|
        resolved_cookie(cookie, c) && chosen_agent(scheme, ua, a) && is_weapi_key(k) && assembled(
            r,
            url,
            method,
            is_post_method(method),
            scheme,
            params,
            c,
            a,
            k,
            strict,
        )) && scheme_shape(r, scheme)
}

/// Turns a call into a transport-ready request: resolves the cookie, picks the
/// User-Agent, encrypts the parameters by the scheme, and always sends a POST.
pub fn generate_response(
    url: &str,
    method: &str,
    query_params: Vec<(String, String)>,
    request_params: &RequestParams,
) -> (r: Result<FormatParams, RequestError>)
    ensures
        generated(
            r,
            url@,
            method@,
            text_pairs(query_params@),
            request_params.crypto,
            request_params.cookie@,
            request_params.ua@,
            request_params.strict,
        ),
        scheme_shape(r, request_params.crypto),
{
    let cookie = get_cookie_string(request_params.cookie.as_str());
    let agent = if request_params.crypto == CryptoScheme::LinuxApi {
        linux_user_agent()
    } else {
        choose_user_agent(request_params.ua.as_str())
    };
    let upper = to_upper(method);
    let is_post = same_text(upper.as_str(), "POST");
    let key = random_weapi_key();
    let r = assemble(
        url,
        method,
        is_post,
        request_params.crypto,
        &query_params,
        cookie.as_str(),
        agent,
        &key,
        request_params.strict,
    );
    proof {
        assert(resolved_cookie(request_params.cookie@, cookie@));
        assert(chosen_agent(request_params.crypto, request_params.ua@, agent@));
        assert(is_post == is_post_method(method@));
        assert(is_weapi_key(key@));
        assert(assembled(
            r,
            url@,
            method@,
            is_post_method(method@),
            request_params.crypto,
            text_pairs(query_params@),
            cookie@,
            agent@,
            key@,
            request_params.strict,
        ));
    }
    r
}

} // verus!
