use aes::cipher::block_padding::Pkcs7;
use aes::cipher::{BlockDecryptMut, KeyInit, KeyIvInit};
use base64::Engine;
use md5::Digest;
use num_bigint::BigUint;

use netease_request::crypto::{
    eapi, hash_encrypt, hex_random_bytes, linuxapi, random_weapi_key, weapi, weapi_with_key,
    HashType, OutputEncoding,
};
use netease_request::request::{
    assemble, generate_response, is_platform_host, set_param, to_param_map, CryptoScheme, RequestError,
    RequestParams,
};
use netease_request::rsa::rsa_encrypt;
use netease_request::user_agent::{user_agent_at, USER_AGENT_COUNT};

const IV: &[u8] = b"0102030405060708";
const PRESET_KEY: &[u8] = b"0CoJUm6Qyw8W8jud";
const LINUX_KEY: &[u8] = b"rFgB&h#%2?^eDg:Q";
const EAPI_KEY: &[u8] = b"e82ckenh8dichen8";
const MODULUS: &str = "e0b509f6259df8642dbc35662901477df22677ec152b5ff68ace615bb7b725152b3ab17a876aea8a5aa76d2e417629ec4ee341f56135fccf695280104e0312ecbda92557c93870114af6c9d05c4f7f0c3685b7a46bee255932575cce10b424d813cfe4875d3e82047b97ddef52741d546b8e289dc6935b3ece0462db0a22b8e7";

fn percent_decode(s: &str) -> String {
    let b = s.as_bytes();
    let mut out = Vec::new();
    let mut i = 0;
    while i < b.len() {
        if b[i] == b'%' {
            out.push(u8::from_str_radix(&s[i + 1..i + 3], 16).unwrap());
            i += 3;
        } else {
            out.push(b[i]);
            i += 1;
        }
    }
    String::from_utf8(out).unwrap()
}

fn form_fields(body: &str) -> Vec<(String, String)> {
    assert!(!body.ends_with('&'));
    body.split('&')
        .map(|kv| {
            let mut it = kv.splitn(2, '=');
            (it.next().unwrap().to_string(), percent_decode(it.next().unwrap()))
        })
        .collect()
}

fn cbc_decrypt(key: &[u8], data: &[u8]) -> Vec<u8> {
    cbc::Decryptor::<aes::Aes128>::new_from_slices(key, IV)
        .unwrap()
        .decrypt_padded_vec_mut::<Pkcs7>(data)
        .unwrap()
}

fn ecb_decrypt(key: &[u8], data: &[u8]) -> Vec<u8> {
    ecb::Decryptor::<aes::Aes128>::new_from_slice(key)
        .unwrap()
        .decrypt_padded_vec_mut::<Pkcs7>(data)
        .unwrap()
}

fn b64(s: &str) -> Vec<u8> {
    base64::engine::general_purpose::STANDARD.decode(s).unwrap()
}

/// Undoes the WeApi transform given the ephemeral key.
fn weapi_inverse(body: &str, key: &[u8]) -> String {
    let fields = form_fields(body);
    assert_eq!(fields[0].0, "params");
    assert_eq!(fields[1].0, "encSecKey");
    let inner = cbc_decrypt(key, &b64(&fields[0].1));
    let text = cbc_decrypt(PRESET_KEY, &b64(std::str::from_utf8(&inner).unwrap()));
    String::from_utf8(text).unwrap()
}

fn linuxapi_inverse(body: &str) -> String {
    let hex_text = body.strip_prefix("eparams=").unwrap();
    assert!(hex_text.chars().all(|c| c.is_ascii_digit() || ('A'..='F').contains(&c)));
    String::from_utf8(ecb_decrypt(LINUX_KEY, &hex::decode(hex_text).unwrap())).unwrap()
}

fn expected_wrap(key: &[u8]) -> String {
    let rev: Vec<u8> = key.iter().rev().cloned().collect();
    let n = BigUint::parse_bytes(MODULUS.as_bytes(), 16).unwrap();
    let c = BigUint::from_bytes_be(&rev).modpow(&BigUint::from(65537u32), &n);
    format!("{:0>256}", c.to_str_radix(16))
}

fn params(ps: &[(&str, &str)]) -> Vec<(String, String)> {
    ps.iter().map(|(k, v)| (k.to_string(), v.to_string())).collect()
}

fn rp(crypto: CryptoScheme, cookie: &str, ua: &str, strict: bool) -> RequestParams {
    RequestParams { crypto, cookie: cookie.to_string(), ua: ua.to_string(), strict }
}

fn header<'a>(h: &'a [(String, String)], name: &str) -> Option<&'a str> {
    h.iter().find(|(n, _)| n == name).map(|(_, v)| v.as_str())
}

fn looks_like_weapi_body(body: &str) {
    let fields = form_fields(body);
    assert_eq!(fields.len(), 2);
    assert_eq!(fields[0].0, "params");
    assert!(!b64(&fields[0].1).is_empty());
    assert_eq!(fields[1].0, "encSecKey");
    assert_eq!(fields[1].1.len(), 256);
    assert!(fields[1].1.chars().all(|c| c.is_ascii_digit() || ('a'..='f').contains(&c)));
}

#[test]
fn weapi_inverse_recovers_text_for_any_key() {
    let text = r#"{"id":"123","csrf_token":"tok"}"#;
    for _ in 0..5 {
        let key = random_weapi_key();
        assert_eq!(key.len(), 16);
        assert!(key.iter().all(|b| b.is_ascii_alphanumeric()));
        let body = weapi_with_key(text, &key);
        assert_eq!(weapi_inverse(&body, &key), text);
        assert_eq!(form_fields(&body)[1].1, expected_wrap(&key));
    }
}

#[test]
fn weapi_body_has_its_shape() {
    looks_like_weapi_body(&weapi(r#"{"a":"b"}"#));
}

#[test]
fn rsa_wrap_matches_modpow_and_width() {
    let key = b"abcdefghijklmnop";
    let wrapped = rsa_encrypt(key);
    assert_eq!(wrapped.len(), 256);
    let n = BigUint::parse_bytes(MODULUS.as_bytes(), 16).unwrap();
    let c = BigUint::from_bytes_be(key).modpow(&BigUint::from(65537u32), &n);
    assert_eq!(wrapped, format!("{:0>256}", c.to_str_radix(16)));
    assert_eq!(rsa_encrypt(&[1u8]), format!("{:0>256}", "1"));
    assert_eq!(rsa_encrypt(&[]), "0".repeat(256));
}

#[test]
fn linuxapi_inverse_recovers_text() {
    let body = linuxapi(r#"{"x":"y"}"#);
    assert_eq!(linuxapi_inverse(&body), r#"{"x":"y"}"#);
}

#[test]
fn eapi_envelope_carries_digest() {
    let body = eapi("/api/a", r#"{"k":"v"}"#);
    let hex_text = body.strip_prefix("params=").unwrap();
    let plain = String::from_utf8(ecb_decrypt(EAPI_KEY, &hex::decode(hex_text).unwrap())).unwrap();
    let digest = hex::encode(md5::Md5::digest(br#"nobody/api/ause{"k":"v"}md5forencrypt"#));
    assert_eq!(plain, format!(r#"/api/a-36cd479b6b5-{{"k":"v"}}-36cd479b6b5-{}"#, digest));
}

#[test]
fn md5_hash_in_each_encoding() {
    assert_eq!(hash_encrypt("", HashType::Md5, OutputEncoding::Hex), "d41d8cd98f00b204e9800998ecf8427e");
    assert_eq!(hash_encrypt("abc", HashType::Md5, OutputEncoding::Hex), "900150983cd24fb0d6963f7d28e17f72");
    assert_eq!(hash_encrypt("abc", HashType::Md5, OutputEncoding::HexUpper), "900150983CD24FB0D6963F7D28E17F72");
    assert_eq!(hash_encrypt("abc", HashType::Md5, OutputEncoding::Base64), "kAFQmDzST7DWlj99KOF/cg==");
}

#[test]
fn random_hex_has_requested_width() {
    let h = hex_random_bytes(16);
    assert_eq!(h.len(), 32);
    assert!(h.chars().all(|c| c.is_ascii_digit() || ('a'..='f').contains(&c)));
    assert_eq!(hex_random_bytes(0), "");
}

#[test]
fn set_param_replaces_in_place_or_appends() {
    let ps = params(&[("a", "1"), ("csrf_token", "old"), ("b", "2")]);
    assert_eq!(set_param(&ps, "csrf_token", "new"), params(&[("a", "1"), ("csrf_token", "new"), ("b", "2")]));
    assert_eq!(set_param(&ps, "c", "3"), params(&[("a", "1"), ("csrf_token", "old"), ("b", "2"), ("c", "3")]));
}

#[test]
fn platform_host_is_exact() {
    assert!(is_platform_host("https://music.163.com/weapi/x"));
    assert!(is_platform_host("http://music.163.com"));
    assert!(is_platform_host("https://music.163.com:443/a"));
    assert!(!is_platform_host("https://interface3.music.163.com/eapi/x"));
    assert!(!is_platform_host("https://platform.example/api/foo"));
    assert!(!is_platform_host("music.163.com/api"));
    assert!(!is_platform_host("https://music.163.com.evil/x"));
    assert!(is_platform_host("HTTPS://MUSIC.163.COM/a"));
    assert!(is_platform_host("https://user@music.163.com/a"));
    assert!(is_platform_host("https://u:p@Music.163.com:80/a"));
    assert!(!is_platform_host("https://music.163.com@evil.example/a"));
}

#[test]
fn post_hint_by_unicode_upper_case() {
    for (m, post) in [("POST", true), ("post", true), ("PoSt", true), ("po\u{17f}t", true), ("GET", false), ("POSTS", false)] {
        let r = generate_response("https://x.example/a", m, Vec::new(), &rp(CryptoScheme::Plain, "c", "", false)).unwrap();
        assert_eq!(header(&r.headers, "content-type").is_some(), post, "{}", m);
    }
}

#[test]
fn body_has_no_closing_ampersand() {
    let key = random_weapi_key();
    let body = weapi_with_key("{}", &key);
    assert!(body.starts_with("params="));
    let sec = body.rsplit("&encSecKey=").next().unwrap();
    assert_eq!(sec.len(), 256);
    assert!(!linuxapi("{}").ends_with('&'));
    assert!(!eapi("/a", "{}").ends_with('&'));
}

#[test]
fn duplicate_keys_form_one_parameter() {
    let ps = params(&[("a", "1"), ("b", "2"), ("a", "3")]);
    assert_eq!(to_param_map(&ps), params(&[("a", "3"), ("b", "2")]));
    let key = random_weapi_key();
    let r = assemble("https://x.example/a", "POST", true, CryptoScheme::WeApi, &ps, "", "ua", &key, false).unwrap();
    assert_eq!(weapi_inverse(&r.body, &key), r#"{"a":"3","b":"2","csrf_token":""}"#);
}

#[test]
fn weapi_assembly_inverse_recovers_params_and_csrf() {
    let key = random_weapi_key();
    let ps = params(&[("id", "123")]);
    let r = assemble(
        "https://music.163.com/weapi/song/detail",
        "POST",
        true,
        CryptoScheme::WeApi,
        &ps,
        "MUSIC_U=u; _csrf=XYZ123",
        "agent",
        &key,
        false,
    )
    .unwrap();
    let json = weapi_inverse(&r.body, &key);
    let v: serde_json::Value = serde_json::from_str(&json).unwrap();
    assert_eq!(v["id"], "123");
    assert_eq!(v["csrf_token"], "XYZ123");
    assert_eq!(json, r#"{"id":"123","csrf_token":"XYZ123"}"#);
    assert_eq!(
        r.headers,
        params(&[
            ("user-agent", "agent"),
            ("content-type", "application/x-www-form-urlencoded"),
            ("referer", "https://music.163.com"),
            ("cookie", "MUSIC_U=u; _csrf=XYZ123"),
        ])
    );
}

#[test]
fn weapi_csrf_is_empty_without_cookie_token() {
    let key = random_weapi_key();
    let r = assemble("https://x.example/a", "GET", false, CryptoScheme::WeApi, &Vec::new(), "a=1", "ua", &key, false)
        .unwrap();
    assert_eq!(weapi_inverse(&r.body, &key), r#"{"csrf_token":""}"#);
    assert_eq!(r.headers, params(&[("user-agent", "ua"), ("cookie", "a=1")]));
}

#[test]
fn linuxapi_goes_to_forwarding_endpoint() {
    let r = generate_response(
        "https://music.163.com/weapi/v2/banner/get",
        "POST",
        params(&[("clientType", "pc")]),
        &rp(CryptoScheme::LinuxApi, "c=1", "mobile", false),
    )
    .unwrap();
    assert_eq!(r.url, "https://music.163.com/api/linux/forward");
    assert_eq!(r.method, "POST");
    assert_eq!(
        linuxapi_inverse(&r.body),
        r#"{"method":"POST","url":"https://music.163.com/api/v2/banner/get","params":{"clientType":"pc"}}"#
    );
    assert_eq!(
        header(&r.headers, "user-agent"),
        Some("Mozilla/5.0 (X11; Linux x86_64) AppleWebKit/537.36 (KHTML, like Gecko) Chrome/60.0.3112.90 Safari/537.36")
    );
}

#[test]
fn method_is_always_post() {
    for m in ["GET", "POST", "get", "DELETE"] {
        let r = generate_response("https://music.163.com/weapi/a", m, Vec::new(), &rp(CryptoScheme::WeApi, "", "", false))
            .unwrap();
        assert_eq!(r.method, "POST");
        assert_eq!(header(&r.headers, "content-type").is_some(), m.eq_ignore_ascii_case("POST"));
    }
}

#[test]
fn referer_only_for_platform_host() {
    let with = generate_response("https://music.163.com/weapi/a", "POST", Vec::new(), &rp(CryptoScheme::WeApi, "c", "", false))
        .unwrap();
    assert_eq!(header(&with.headers, "referer"), Some("https://music.163.com"));
    let without = generate_response("https://platform.example/api/foo", "POST", Vec::new(), &rp(CryptoScheme::WeApi, "c", "", false))
        .unwrap();
    assert_eq!(header(&without.headers, "referer"), None);
    let sub = generate_response("http://interface3.music.163.com/eapi/x", "POST", Vec::new(), &rp(CryptoScheme::Plain, "c", "", false))
        .unwrap();
    assert_eq!(header(&sub.headers, "referer"), None);
}

#[test]
fn scenario_weapi_get_with_empty_cookie() {
    let r = generate_response(
        "https://platform.example/api/foo",
        "GET",
        params(&[("id", "123")]),
        &rp(CryptoScheme::WeApi, "", "", false),
    )
    .unwrap();
    assert_eq!(r.method, "POST");
    assert_eq!(r.url, "https://platform.example/api/foo");
    let corpus: Vec<&str> = (0..USER_AGENT_COUNT).map(user_agent_at).collect();
    assert!(corpus.contains(&header(&r.headers, "user-agent").unwrap()));
    let cookie = header(&r.headers, "cookie").unwrap();
    assert!(cookie.starts_with("NMTID=") && cookie.len() == 39);
    looks_like_weapi_body(&r.body);
}

#[test]
fn plain_and_lenient_eapi_have_empty_body() {
    for s in [CryptoScheme::Plain, CryptoScheme::EApi] {
        let r = generate_response("https://music.163.com/a", "POST", params(&[("a", "b")]), &rp(s, "c", "", false)).unwrap();
        assert_eq!(r.body, "");
        assert_eq!(r.url, "https://music.163.com/a");
    }
}

#[test]
fn strict_eapi_is_refused() {
    let r = generate_response("https://music.163.com/a", "POST", Vec::new(), &rp(CryptoScheme::EApi, "c", "", true));
    assert!(matches!(r, Err(RequestError::UnsupportedScheme)));
    let ok = generate_response("https://music.163.com/a", "POST", Vec::new(), &rp(CryptoScheme::WeApi, "c", "", true));
    assert!(ok.is_ok());
}

#[test]
fn header_unsafe_text_is_refused() {
    let r = generate_response("https://music.163.com/a", "POST", Vec::new(), &rp(CryptoScheme::WeApi, "a\nb", "", false));
    assert!(matches!(r, Err(RequestError::InvalidHeaderValue)));
    let r = generate_response("https://music.163.com/a", "POST", Vec::new(), &rp(CryptoScheme::WeApi, "c", "agent-é", false));
    assert!(matches!(r, Err(RequestError::InvalidHeaderValue)));
    let r = generate_response("https://music.163.com/a", "POST", Vec::new(), &rp(CryptoScheme::EApi, "é", "", true));
    assert!(matches!(r, Err(RequestError::InvalidHeaderValue)));
}

#[test]
fn parameters_are_escaped_as_json() {
    let key = random_weapi_key();
    let ps = params(&[("q", "say \"hi\"\\ now\n\u{1}/é"), ("k\"ey", "v")]);
    let r = assemble("https://x.example/a", "POST", true, CryptoScheme::WeApi, &ps, "", "ua", &key, false).unwrap();
    let json = weapi_inverse(&r.body, &key);
    assert_eq!(json, r#"{"q":"say \"hi\"\\ now\n\u0001/é","k\"ey":"v","csrf_token":""}"#);
    let v: serde_json::Value = serde_json::from_str(&json).unwrap();
    assert_eq!(v["q"], "say \"hi\"\\ now\n\u{1}/é");
    assert_eq!(v["k\"ey"], "v");
    let r = generate_response("https://music.163.com/weapi/x\"y", "PO\"ST", ps, &rp(CryptoScheme::LinuxApi, "c", "", false)).unwrap();
    let env: serde_json::Value = serde_json::from_str(&linuxapi_inverse(&r.body)).unwrap();
    assert_eq!(env["method"], "PO\"ST");
    assert_eq!(env["url"], "https://music.163.com/api/x\"y");
    assert_eq!(env["params"]["q"], "say \"hi\"\\ now\n\u{1}/é");
}
