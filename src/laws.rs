use vstd::prelude::*;

use vstd::arithmetic::power::pow;
use vstd::utf8::encode_utf8;

use crate::crypto::{
    aes128_cbc_of, base64_text, is_block_ciphertext, is_linuxapi_body, iv, lemma_base64_shape,
    preset_key, reversed, weapi_text,
};
use crate::headers::is_header_text;
use crate::request::{
    assembled, chosen_agent, csrf_text, expected_headers, generated, is_platform_url,
    resolved_cookie, scheme_shape, CryptoScheme, RequestError,
};
use crate::rsa::{rsa_block, rsa_hex};
use crate::text::{
    distinct_keys, escape_text, form_encode, form_pair, has_key, insert_pair, is_lower_hex,
    json_object, lemma_escape_unreserved, lemma_hex_digits,
    lemma_insert_pair_distinct, param_map, text_pairs,
};
use crate::user_agent::is_corpus_agent;
use crate::FormatParams;

verus! {

/// Whatever the method hint, a request that was built goes out as a POST.
pub proof fn lemma_always_post(
    r: Result<FormatParams, RequestError>,
    url: Seq<char>,
    method: Seq<char>,
    params: Seq<(Seq<char>, Seq<char>)>,
    scheme: CryptoScheme,
    cookie: Seq<char>,
    ua: Seq<char>,
    strict: bool,
)
    requires
        generated(r, url, method, params, scheme, cookie, ua, strict),
        r is Ok,
    ensures
        r->Ok_0.method@ == "POST"@,
{
}

proof fn lemma_referer_in_headers(ua: Seq<char>, is_post: bool, url: Seq<char>, cookie: Seq<char>)
    ensures
        has_key(expected_headers(ua, is_post, url, cookie), "referer"@) <==> is_platform_url(url),
{
    reveal_strlit("user-agent");
    reveal_strlit("content-type");
    reveal_strlit("referer");
    reveal_strlit("cookie");
    let hs = expected_headers(ua, is_post, url, cookie);
    if is_platform_url(url) {
        let idx = if is_post { 2int } else { 1int };
        assert(hs[idx].0 == "referer"@);
    } else {
        assert forall|i: int| 0 <= i < hs.len() implies (#[trigger] hs[i]).0 != "referer"@ by {
            assert(hs[i].0 == "user-agent"@ || hs[i].0 == "content-type"@ || hs[i].0 == "cookie"@);
        }
    }
}

/// The Referer header is there exactly when the URL's host is the platform's.
pub proof fn lemma_referer_iff_platform_host(
    r: Result<FormatParams, RequestError>,
    url: Seq<char>,
    method: Seq<char>,
    params: Seq<(Seq<char>, Seq<char>)>,
    scheme: CryptoScheme,
    cookie: Seq<char>,
    ua: Seq<char>,
    strict: bool,
)
    requires
        generated(r, url, method, params, scheme, cookie, ua, strict),
        r is Ok,
    ensures
        has_key(text_pairs(r->Ok_0.headers@), "referer"@) <==> is_platform_url(url),
{
    let (c, a, k) = choose|c: Seq<char>, a: Seq<char>, k: Seq<u8>|
        resolved_cookie(cookie, c) && chosen_agent(scheme, ua, a) && crate::crypto::is_weapi_key(k)
            && assembled(
            r,
            url,
            method,
            crate::request::is_post_method(method),
            scheme,
            params,
            c,
            a,
            k,
            strict,
        );
    lemma_referer_in_headers(a, crate::request::is_post_method(method), url, c);
}

/// Without a User-Agent class, outside LinuxApi, a built request carries exactly
/// one User-Agent header, first, with an entry of the whole corpus.
pub proof fn lemma_unset_class_agent_from_corpus(
    r: Result<FormatParams, RequestError>,
    url: Seq<char>,
    method: Seq<char>,
    params: Seq<(Seq<char>, Seq<char>)>,
    scheme: CryptoScheme,
    cookie: Seq<char>,
    ua: Seq<char>,
    strict: bool,
)
    requires
        generated(r, url, method, params, scheme, cookie, ua, strict),
        ua.len() == 0,
        r is Ok,
        scheme != CryptoScheme::LinuxApi,
    ensures
        text_pairs(r->Ok_0.headers@).len() > 0,
        text_pairs(r->Ok_0.headers@)[0].0 == "user-agent"@,
        is_corpus_agent(text_pairs(r->Ok_0.headers@)[0].1),
        forall|i: int|
            0 < i < text_pairs(r->Ok_0.headers@).len() ==> (#[trigger] text_pairs(r->Ok_0.headers@)[i]).0
                != "user-agent"@,
{
    let (c, a, k) = choose|c: Seq<char>, a: Seq<char>, k: Seq<u8>|
        resolved_cookie(cookie, c) && chosen_agent(scheme, ua, a) && crate::crypto::is_weapi_key(k)
            && assembled(
            r,
            url,
            method,
            crate::request::is_post_method(method),
            scheme,
            params,
            c,
            a,
            k,
            strict,
        );
    reveal_strlit("mobile");
    reveal_strlit("pc");
    reveal_strlit("user-agent");
    reveal_strlit("content-type");
    reveal_strlit("referer");
    reveal_strlit("cookie");
    assert(ua != "mobile"@);
    assert(ua != "pc"@);
    let hs = expected_headers(a, crate::request::is_post_method(method), url, c);
    assert(hs[0] == ("user-agent"@, a));
    assert forall|i: int| 0 < i < hs.len() implies (#[trigger] hs[i]).0 != "user-agent"@ by {
        assert(hs[i].0 == "content-type"@ || hs[i].0 == "referer"@ || hs[i].0 == "cookie"@);
    }
}

/// Under LinuxApi, with header-safe cookie and User-Agent, the request is built,
/// goes to the forwarding endpoint, and carries `eparams=` and the uppercase hex
/// of a non-empty whole-block ciphertext.
pub proof fn lemma_linuxapi_request(
    r: Result<FormatParams, RequestError>,
    url: Seq<char>,
    method: Seq<char>,
    is_post: bool,
    params: Seq<(Seq<char>, Seq<char>)>,
    cookie: Seq<char>,
    ua: Seq<char>,
    key: Seq<u8>,
    strict: bool,
)
    requires
        assembled(r, url, method, is_post, CryptoScheme::LinuxApi, params, cookie, ua, key, strict),
        scheme_shape(r, CryptoScheme::LinuxApi),
        is_header_text(cookie),
        is_header_text(ua),
    ensures
        r is Ok,
        r->Ok_0.url@ == "https://music.163.com/api/linux/forward"@,
        is_linuxapi_body(r->Ok_0.body@),
{
}

/// Under WeApi, with header-safe cookie and User-Agent and lenient dispatch, the
/// body is the WeApi transform, under the given key, of the parameter set with
/// `csrf_token` set to the cookie's token; it ends with `&encSecKey=` and the RSA
/// wrap of the reversed key.
pub proof fn lemma_weapi_request(
    r: Result<FormatParams, RequestError>,
    url: Seq<char>,
    method: Seq<char>,
    is_post: bool,
    params: Seq<(Seq<char>, Seq<char>)>,
    cookie: Seq<char>,
    ua: Seq<char>,
    key: Seq<u8>,
    strict: bool,
)
    requires
        assembled(r, url, method, is_post, CryptoScheme::WeApi, params, cookie, ua, key, strict),
        scheme_shape(r, CryptoScheme::WeApi),
        is_header_text(cookie),
        is_header_text(ua),
    ensures
        r is Ok,
        r->Ok_0.url@ == url,
        r->Ok_0.body@ == weapi_text(
            json_object(insert_pair(param_map(params), "csrf_token"@, csrf_text(cookie))),
            key,
        ),
        exists|p: Seq<char>| r->Ok_0.body@ == "params="@ + p + "&encSecKey="@ + rsa_hex(reversed(key)),
{
    let text = json_object(insert_pair(param_map(params), "csrf_token"@, csrf_text(cookie)));
    let inner = base64_text(aes128_cbc_of(preset_key(), iv(), encode_utf8(text)));
    let outer = base64_text(aes128_cbc_of(key, iv(), encode_utf8(inner)));
    let h = rsa_hex(reversed(key));
    lemma_hex_digits(rsa_block(reversed(key)));
    let (ct, h2) = choose|ct: Seq<u8>, h2: Seq<char>|
        is_block_ciphertext(ct) && h2.len() == 256 && is_lower_hex(h2) && r->Ok_0.body@ == "params="@
            + escape_text(base64_text(ct)) + "&encSecKey="@ + h2;
    lemma_base64_shape(ct);
    reveal_strlit("params");
    reveal_strlit("encSecKey");
    reveal_strlit("params=");
    reveal_strlit("&encSecKey=");
    lemma_escape_unreserved("params"@);
    lemma_escape_unreserved("encSecKey"@);
    lemma_escape_unreserved(h);
    let body = r->Ok_0.body@;
    let p1 = ("params"@, outer);
    let p2 = ("encSecKey"@, h);
    assert(seq![p1, p2].drop_last() =~= seq![p1]);
    assert(form_encode(seq![p1, p2]) == form_encode(seq![p1]) + form_pair(p2));
    assert(h.len() > 0);
    assert(form_pair(p2) == escape_text("encSecKey"@) + seq!['='] + escape_text(h) + seq!['&']);
    let front = form_encode(seq![p1]) + "encSecKey"@ + seq!['='];
    assert(form_encode(seq![p1, p2]) =~= front + h + seq!['&']);
    assert(body =~= front + h);
    crate::rsa::lemma_be_bytes_len(
        (pow(crate::rsa::be_value(reversed(key)) as int, crate::rsa::public_exponent())
            % (crate::rsa::be_value(crate::rsa::modulus_bytes()) as int)) as nat,
        128,
    );
    assert(h.len() == 256);
    assert(body.subrange(body.len() - 256, body.len() as int) =~= h);
    let back = "params="@ + escape_text(base64_text(ct)) + "&encSecKey="@;
    assert(body =~= back + h2);
    assert(body.subrange(body.len() - 256, body.len() as int) =~= h2);
    assert(body == "params="@ + escape_text(base64_text(ct)) + "&encSecKey="@ + h);
}

/// With header-safe cookie and User-Agent, a built request carries Referer exactly
/// when the URL's host is the platform's, once, with the platform's origin.
pub proof fn lemma_referer_rule(
    r: Result<FormatParams, RequestError>,
    url: Seq<char>,
    method: Seq<char>,
    is_post: bool,
    scheme: CryptoScheme,
    params: Seq<(Seq<char>, Seq<char>)>,
    cookie: Seq<char>,
    ua: Seq<char>,
    key: Seq<u8>,
)
    requires
        assembled(r, url, method, is_post, scheme, params, cookie, ua, key, false),
        is_header_text(cookie),
        is_header_text(ua),
    ensures
        r is Ok,
        has_key(text_pairs(r->Ok_0.headers@), "referer"@) <==> is_platform_url(url),
        forall|i: int|
            0 <= i < text_pairs(r->Ok_0.headers@).len() && (#[trigger] text_pairs(r->Ok_0.headers@)[i]).0
                == "referer"@ ==> text_pairs(r->Ok_0.headers@)[i].1 == "https://music.163.com"@,
        distinct_keys(text_pairs(r->Ok_0.headers@)),
{
    lemma_referer_in_headers(ua, is_post, url, cookie);
    reveal_strlit("user-agent");
    reveal_strlit("content-type");
    reveal_strlit("referer");
    reveal_strlit("cookie");
    let h0 = seq![("user-agent"@, ua)];
    let h1 = if is_post { h0.push(("content-type"@, "application/x-www-form-urlencoded"@)) } else { h0 };
    let h2 = if is_platform_url(url) { h1.push(("referer"@, "https://music.163.com"@)) } else { h1 };
    assert(distinct_keys(Seq::<(Seq<char>, Seq<char>)>::empty()));
    lemma_insert_pair_distinct(Seq::empty(), "user-agent"@, ua);
    assert(insert_pair(Seq::empty(), "user-agent"@, ua) =~= h0);
    if is_post {
        lemma_insert_pair_distinct(h0, "content-type"@, "application/x-www-form-urlencoded"@);
        assert forall|i: int| 0 <= i < h0.len() implies (#[trigger] h0[i]).0 != "content-type"@ by {
            assert(h0[i].0 == "user-agent"@);
        }
        assert(!has_key(h0, "content-type"@));
    }
    if is_platform_url(url) {
        lemma_insert_pair_distinct(h1, "referer"@, "https://music.163.com"@);
        assert forall|i: int| 0 <= i < h1.len() implies (#[trigger] h1[i]).0 != "referer"@ by {
            assert(h1[i].0 == "user-agent"@ || h1[i].0 == "content-type"@);
        }
        assert(!has_key(h1, "referer"@));
    }
    if cookie.len() > 0 {
        lemma_insert_pair_distinct(h2, "cookie"@, cookie);
        assert forall|i: int| 0 <= i < h2.len() implies (#[trigger] h2[i]).0 != "cookie"@ by {
            assert(h2[i].0 == "user-agent"@ || h2[i].0 == "content-type"@ || h2[i].0 == "referer"@);
        }
        assert(!has_key(h2, "cookie"@));
    }
}

/// With header-safe cookie and User-Agent and lenient dispatch, a request is
/// built for every method hint, and it goes out as a POST.
pub proof fn lemma_assembled_is_post(
    r: Result<FormatParams, RequestError>,
    url: Seq<char>,
    method: Seq<char>,
    is_post: bool,
    scheme: CryptoScheme,
    params: Seq<(Seq<char>, Seq<char>)>,
    cookie: Seq<char>,
    ua: Seq<char>,
    key: Seq<u8>,
)
    requires
        assembled(r, url, method, is_post, scheme, params, cookie, ua, key, false),
        is_header_text(cookie),
        is_header_text(ua),
    ensures
        r is Ok,
        r->Ok_0.method@ == "POST"@,
{
}

} // verus!
