use vstd::prelude::*;
use vstd::utf8::encode_utf8;

use crate::cookie::{get_cookie_string, is_anonymous_cookie};
use crate::request::{
    generate_response, generated, resolved_cookie, CryptoScheme, RequestError, RequestParams,
};
use crate::crypto::{hash_encrypt, md5_of, HashType, OutputEncoding};
use crate::text::{
    first_value, hex_text, parse_i32, parse_usize, parsed_i32, parsed_usize, query_value, str_pairs,
    text_pairs,
};
use crate::user_agent::same_text;
use crate::{FormatParams, Options};

verus! {

broadcast use vstd::string::group_string_axioms;

/// `r` is the POST request for endpoint `url` under `scheme`, with parameters
/// `params`, the caller's cookie and User-Agent class `ua`, non-strict dispatch.
pub open spec fn endpoint_request(
    r: Result<FormatParams, RequestError>,
    url: Seq<char>,
    scheme: CryptoScheme,
    params: Seq<(Seq<char>, Seq<char>)>,
    cookie: Seq<char>,
    ua: Seq<char>,
) -> bool {
    generated(r, url, "POST"@, params, scheme, cookie, ua, false)
}

proof fn lemma_anonymous_cookie_nonempty(c: Seq<char>)
    requires
        is_anonymous_cookie(c),
    ensures
        c.len() > 0,
{
    reveal_strlit("NMTID=");
}

/// A request generated from a resolved cookie is one generated from the cookie it was resolved from.
proof fn lemma_generated_from_resolved(
    r: Result<FormatParams, RequestError>,
    url: Seq<char>,
    params: Seq<(Seq<char>, Seq<char>)>,
    scheme: CryptoScheme,
    supplied: Seq<char>,
    resolved: Seq<char>,
    ua: Seq<char>,
)
    requires
        resolved_cookie(supplied, resolved),
        generated(r, url, "POST"@, params, scheme, resolved, ua, false),
    ensures
        generated(r, url, "POST"@, params, scheme, supplied, ua, false),
{
    if supplied.len() == 0 {
        lemma_anonymous_cookie_nonempty(resolved);
    }
    let (c, a, k) = choose|c: Seq<char>, a: Seq<char>, k: Seq<u8>|
        resolved_cookie(resolved, c) && crate::request::chosen_agent(scheme, ua, a)
            && crate::crypto::is_weapi_key(k) && crate::request::assembled(
            r,
            url,
            "POST"@,
            crate::request::is_post_method("POST"@),
            scheme,
            params,
            c,
            a,
            k,
            false,
        );
    assert(c == resolved);
}

fn param(k: &str, v: &str) -> (r: (String, String))
    ensures
        r.0@ == k@,
        r.1@ == v@,
{
    (String::from_str(k), String::from_str(v))
}

/// Requests an endpoint that takes no parameters.
pub fn empty_query_params_handler(url: &str, crypto: CryptoScheme, cookie: &str) -> (r: Result<
    FormatParams,
    RequestError,
>)
    ensures
        endpoint_request(r, url@, crypto, seq![], cookie@, ""@),
{
    let query_params: Vec<(String, String)> = Vec::new();
    let cookies = get_cookie_string(cookie);
    let request_params = RequestParams { crypto, cookie: cookies, ua: String::from_str(""), strict: false };
    let r = generate_response(url, "POST", query_params, &request_params);
    proof {
        assert(text_pairs(query_params@) =~= seq![]);
        lemma_generated_from_resolved(r, url@, seq![], crypto, cookie@, cookies@, ""@);
    }
    r
}

/// Requests an endpoint with parameters, under a cookie already resolved.
pub fn request_handler(
    url: &str,
    crypto: CryptoScheme,
    query_params: Vec<(String, String)>,
    cookies: &str,
) -> (r: Result<FormatParams, RequestError>)
    ensures
        endpoint_request(r, url@, crypto, text_pairs(query_params@), cookies@, ""@),
{
    let request_params = RequestParams {
        crypto,
        cookie: String::from_str(cookies),
        ua: String::from_str(""),
        strict: false,
    };
    generate_response(url, "POST", query_params, &request_params)
}

/// Requests an endpoint with parameters and a User-Agent class, resolving the cookie first.
fn resolved_request(
    url: &str,
    crypto: CryptoScheme,
    query_params: Vec<(String, String)>,
    cookie: &str,
    ua: &str,
) -> (r: Result<FormatParams, RequestError>)
    ensures
        endpoint_request(r, url@, crypto, text_pairs(query_params@), cookie@, ua@),
{
    let ghost params = text_pairs(query_params@);
    let cookies = get_cookie_string(cookie);
    let request_params = RequestParams {
        crypto,
        cookie: cookies,
        ua: String::from_str(ua),
        strict: false,
    };
    let r = generate_response(url, "POST", query_params, &request_params);
    proof {
        lemma_generated_from_resolved(r, url@, params, crypto, cookie@, cookies@, ua@);
    }
    r
}


/// The endpoint served at `/album/newest`.
pub fn index_album_newest(options: Options) -> (r: Result<FormatParams, RequestError>)
    ensures
        endpoint_request(r, "https://music.163.com/api/discovery/newAlbum"@, CryptoScheme::WeApi, seq![], options.cookie@, ""@),
{
    empty_query_params_handler("https://music.163.com/api/discovery/newAlbum", CryptoScheme::WeApi, options.cookie)
}

/// The endpoint served at `/comment/hotwall/list`.
pub fn index_comment_hotwall_list(options: Options) -> (r: Result<FormatParams, RequestError>)
    ensures
        endpoint_request(r, "https://music.163.com/api/comment/hotwall/list/get"@, CryptoScheme::WeApi, seq![], options.cookie@, ""@),
{
    empty_query_params_handler("https://music.163.com/api/comment/hotwall/list/get", CryptoScheme::WeApi, options.cookie)
}

/// The endpoint served at `/dj/banner`.
pub fn index_dj_banner(options: Options) -> (r: Result<FormatParams, RequestError>)
    ensures
        endpoint_request(r, "http://music.163.com/weapi/djradio/banner/get"@, CryptoScheme::WeApi, seq![], options.cookie@, ""@),
{
    empty_query_params_handler("http://music.163.com/weapi/djradio/banner/get", CryptoScheme::WeApi, options.cookie)
}

/// The endpoint served at `/dj/category/excludehot`.
pub fn index_dj_category_excludehot(options: Options) -> (r: Result<FormatParams, RequestError>)
    ensures
        endpoint_request(r, "http://music.163.com/weapi/djradio/category/excludehot"@, CryptoScheme::WeApi, seq![], options.cookie@, ""@),
{
    empty_query_params_handler("http://music.163.com/weapi/djradio/category/excludehot", CryptoScheme::WeApi, options.cookie)
}

/// The endpoint served at `/dj/category/recommend`.
pub fn index_dj_category_recommend(options: Options) -> (r: Result<FormatParams, RequestError>)
    ensures
        endpoint_request(r, "http://music.163.com/weapi/djradio/home/category/recommend"@, CryptoScheme::WeApi, seq![], options.cookie@, ""@),
{
    empty_query_params_handler("http://music.163.com/weapi/djradio/home/category/recommend", CryptoScheme::WeApi, options.cookie)
}

/// The endpoint served at `/dj/catelist`.
pub fn index_dj_catelist(options: Options) -> (r: Result<FormatParams, RequestError>)
    ensures
        endpoint_request(r, "https://music.163.com/weapi/djradio/category/get"@, CryptoScheme::WeApi, seq![], options.cookie@, ""@),
{
    empty_query_params_handler("https://music.163.com/weapi/djradio/category/get", CryptoScheme::WeApi, options.cookie)
}

/// The endpoint served at `/dj/recommend`.
pub fn index_dj_recommend(options: Options) -> (r: Result<FormatParams, RequestError>)
    ensures
        endpoint_request(r, "https://music.163.com/weapi/djradio/recommend/v1"@, CryptoScheme::WeApi, seq![], options.cookie@, ""@),
{
    empty_query_params_handler("https://music.163.com/weapi/djradio/recommend/v1", CryptoScheme::WeApi, options.cookie)
}

/// The endpoint served at `/login/refresh`.
pub fn index_login_refresh(options: Options) -> (r: Result<FormatParams, RequestError>)
    ensures
        endpoint_request(r, "https://music.163.com/weapi/login/token/refresh"@, CryptoScheme::WeApi, seq![], options.cookie@, ""@),
{
    empty_query_params_handler("https://music.163.com/weapi/login/token/refresh", CryptoScheme::WeApi, options.cookie)
}

/// The endpoint served at `/personal/fm`.
pub fn index_personal_fm(options: Options) -> (r: Result<FormatParams, RequestError>)
    ensures
        endpoint_request(r, "https://music.163.com/weapi/v1/radio/get"@, CryptoScheme::WeApi, seq![], options.cookie@, ""@),
{
    empty_query_params_handler("https://music.163.com/weapi/v1/radio/get", CryptoScheme::WeApi, options.cookie)
}

/// The endpoint served at `/personalized/djprogram`.
pub fn index_personalized_djprogram(options: Options) -> (r: Result<FormatParams, RequestError>)
    ensures
        endpoint_request(r, "https://music.163.com/weapi/personalized/djprogram"@, CryptoScheme::WeApi, seq![], options.cookie@, ""@),
{
    empty_query_params_handler("https://music.163.com/weapi/personalized/djprogram", CryptoScheme::WeApi, options.cookie)
}

/// The endpoint served at `/personalized/mv`.
pub fn index_personalized_mv(options: Options) -> (r: Result<FormatParams, RequestError>)
    ensures
        endpoint_request(r, "https://music.163.com/weapi/personalized/mv"@, CryptoScheme::WeApi, seq![], options.cookie@, ""@),
{
    empty_query_params_handler("https://music.163.com/weapi/personalized/mv", CryptoScheme::WeApi, options.cookie)
}

/// The endpoint served at `/personalized/privatecontent`.
pub fn index_personalized_privatecontent(options: Options) -> (r: Result<FormatParams, RequestError>)
    ensures
        endpoint_request(r, "https://music.163.com/weapi/personalized/privatecontent"@, CryptoScheme::WeApi, seq![], options.cookie@, ""@),
{
    empty_query_params_handler("https://music.163.com/weapi/personalized/privatecontent", CryptoScheme::WeApi, options.cookie)
}

/// The endpoint served at `/playlist/catlist`.
pub fn index_playlist_catlist(options: Options) -> (r: Result<FormatParams, RequestError>)
    ensures
        endpoint_request(r, "https://music.163.com/weapi/playlist/catalogue"@, CryptoScheme::WeApi, seq![], options.cookie@, ""@),
{
    empty_query_params_handler("https://music.163.com/weapi/playlist/catalogue", CryptoScheme::WeApi, options.cookie)
}

/// The endpoint served at `/playlist/hot`.
pub fn index_playlist_hot(options: Options) -> (r: Result<FormatParams, RequestError>)
    ensures
        endpoint_request(r, "https://music.163.com/weapi/playlist/hottags"@, CryptoScheme::WeApi, seq![], options.cookie@, ""@),
{
    empty_query_params_handler("https://music.163.com/weapi/playlist/hottags", CryptoScheme::WeApi, options.cookie)
}

/// The endpoint served at `/recommend/resource`.
pub fn index_recommend_resource(options: Options) -> (r: Result<FormatParams, RequestError>)
    ensures
        endpoint_request(r, "https://music.163.com/weapi/v1/discovery/recommend/resource"@, CryptoScheme::WeApi, seq![], options.cookie@, ""@),
{
    empty_query_params_handler("https://music.163.com/weapi/v1/discovery/recommend/resource", CryptoScheme::WeApi, options.cookie)
}

/// The endpoint served at `/search/hot/detail`.
pub fn index_search_hot_detail(options: Options) -> (r: Result<FormatParams, RequestError>)
    ensures
        endpoint_request(r, "https://music.163.com/weapi/hotsearchlist/get"@, CryptoScheme::WeApi, seq![], options.cookie@, ""@),
{
    empty_query_params_handler("https://music.163.com/weapi/hotsearchlist/get", CryptoScheme::WeApi, options.cookie)
}

/// The endpoint served at `/setting`.
pub fn index_setting(options: Options) -> (r: Result<FormatParams, RequestError>)
    ensures
        endpoint_request(r, "https://music.163.com/api/user/setting"@, CryptoScheme::WeApi, seq![], options.cookie@, ""@),
{
    empty_query_params_handler("https://music.163.com/api/user/setting", CryptoScheme::WeApi, options.cookie)
}

/// The endpoint served at `/toplist/detail`.
pub fn index_toplist_detail(options: Options) -> (r: Result<FormatParams, RequestError>)
    ensures
        endpoint_request(r, "https://music.163.com/weapi/toplist/detail"@, CryptoScheme::WeApi, seq![], options.cookie@, ""@),
{
    empty_query_params_handler("https://music.163.com/weapi/toplist/detail", CryptoScheme::WeApi, options.cookie)
}

/// The endpoint served at `/toplist`.
pub fn index_toplist(options: Options) -> (r: Result<FormatParams, RequestError>)
    ensures
        endpoint_request(r, "https://music.163.com/weapi/toplist"@, CryptoScheme::WeApi, seq![], options.cookie@, ""@),
{
    empty_query_params_handler("https://music.163.com/weapi/toplist", CryptoScheme::WeApi, options.cookie)
}

/// The endpoint served at `/user/account`.
pub fn index_user_account(options: Options) -> (r: Result<FormatParams, RequestError>)
    ensures
        endpoint_request(r, "https://music.163.com/api/nuser/account/get"@, CryptoScheme::WeApi, seq![], options.cookie@, ""@),
{
    empty_query_params_handler("https://music.163.com/api/nuser/account/get", CryptoScheme::WeApi, options.cookie)
}

/// The endpoint served at `/user/subcount`.
pub fn index_user_subcount(options: Options) -> (r: Result<FormatParams, RequestError>)
    ensures
        endpoint_request(r, "https://music.163.com/weapi/subcount"@, CryptoScheme::WeApi, seq![], options.cookie@, ""@),
{
    empty_query_params_handler("https://music.163.com/weapi/subcount", CryptoScheme::WeApi, options.cookie)
}

/// The endpoint served at `/video/group/list`.
pub fn index_video_group_list(options: Options) -> (r: Result<FormatParams, RequestError>)
    ensures
        endpoint_request(r, "https://music.163.com/api/cloudvideo/group/list"@, CryptoScheme::WeApi, seq![], options.cookie@, ""@),
{
    empty_query_params_handler("https://music.163.com/api/cloudvideo/group/list", CryptoScheme::WeApi, options.cookie)
}

/// The endpoint served at `/weblog`.
pub fn index_weblog(options: Options) -> (r: Result<FormatParams, RequestError>)
    ensures
        endpoint_request(r, "https://music.163.com/weapi/feedback/weblog"@, CryptoScheme::WeApi, seq![], options.cookie@, ""@),
{
    empty_query_params_handler("https://music.163.com/weapi/feedback/weblog", CryptoScheme::WeApi, options.cookie)
}

/// The endpoint served at `/login/qr/key`.
pub fn index_login_qr_key(options: Options) -> (r: Result<FormatParams, RequestError>)
    ensures
        endpoint_request(
            r,
            "https://music.163.com/weapi/login/qrcode/unikey"@,
            CryptoScheme::WeApi,
            seq![("type"@, "1"@)],
            options.cookie@,
            ""@,
        ),
{
    let query_params = vec![param("type", "1")];
    proof {
        assert(text_pairs(query_params@) =~= seq![("type"@, "1"@)]);
    }
    resolved_request("https://music.163.com/weapi/login/qrcode/unikey", CryptoScheme::WeApi, query_params, options.cookie, "")
}

/// The endpoint served at `/login/status`.
pub fn index_login_status(options: Options) -> (r: Result<FormatParams, RequestError>)
    ensures
        endpoint_request(
            r,
            "https://music.163.com/weapi/w/nuser/account/get"@,
            CryptoScheme::WeApi,
            seq![],
            options.cookie@,
            ""@,
        ),
{
    let query_params = vec![];
    proof {
        assert(text_pairs(query_params@) =~= seq![]);
    }
    resolved_request("https://music.163.com/weapi/w/nuser/account/get", CryptoScheme::WeApi, query_params, options.cookie, "")
}

/// The endpoint served at `/logout`.
pub fn index_logout(options: Options) -> (r: Result<FormatParams, RequestError>)
    ensures
        endpoint_request(
            r,
            "https://music.163.com/weapi/logout"@,
            CryptoScheme::WeApi,
            seq![],
            options.cookie@,
            "pc"@,
        ),
{
    let query_params = vec![];
    proof {
        assert(text_pairs(query_params@) =~= seq![]);
    }
    resolved_request("https://music.163.com/weapi/logout", CryptoScheme::WeApi, query_params, options.cookie, "pc")
}

/// The endpoint served at `/personalized/newsong`.
pub fn index_personalized_newsong(options: Options) -> (r: Result<FormatParams, RequestError>)
    ensures
        endpoint_request(
            r,
            "https://music.163.com/weapi/personalized/newsong"@,
            CryptoScheme::WeApi,
            seq![("type"@, "recommend"@)],
            options.cookie@,
            ""@,
        ),
{
    let query_params = vec![param("type", "recommend")];
    proof {
        assert(text_pairs(query_params@) =~= seq![("type"@, "recommend"@)]);
    }
    resolved_request("https://music.163.com/weapi/personalized/newsong", CryptoScheme::WeApi, query_params, options.cookie, "")
}

/// The endpoint served at `/recommend/songs`.
pub fn index_recommend_songs(options: Options) -> (r: Result<FormatParams, RequestError>)
    ensures
        endpoint_request(
            r,
            "https://music.163.com/weapi/v1/discovery/recommend/songs"@,
            CryptoScheme::WeApi,
            seq![("total"@, "true"@)],
            options.cookie@,
            ""@,
        ),
{
    let query_params = vec![param("total", "true")];
    proof {
        assert(text_pairs(query_params@) =~= seq![("total"@, "true"@)]);
    }
    resolved_request("https://music.163.com/weapi/v1/discovery/recommend/songs", CryptoScheme::WeApi, query_params, options.cookie, "")
}

/// The endpoint served at `/search/default`.
pub fn index_search_default(options: Options) -> (r: Result<FormatParams, RequestError>)
    ensures
        endpoint_request(
            r,
            "http://interface3.music.163.com/eapi/search/defaultkeyword/get"@,
            CryptoScheme::EApi,
            seq![],
            options.cookie@,
            ""@,
        ),
{
    let query_params = vec![];
    proof {
        assert(text_pairs(query_params@) =~= seq![]);
    }
    resolved_request("http://interface3.music.163.com/eapi/search/defaultkeyword/get", CryptoScheme::EApi, query_params, options.cookie, "")
}

/// The endpoint served at `/search/hot`.
pub fn index_search_hot(options: Options) -> (r: Result<FormatParams, RequestError>)
    ensures
        endpoint_request(
            r,
            "https://music.163.com/weapi/search/hot"@,
            CryptoScheme::WeApi,
            seq![("type"@, "1111"@)],
            options.cookie@,
            "mobile"@,
        ),
{
    let query_params = vec![param("type", "1111")];
    proof {
        assert(text_pairs(query_params@) =~= seq![("type"@, "1111"@)]);
    }
    resolved_request("https://music.163.com/weapi/search/hot", CryptoScheme::WeApi, query_params, options.cookie, "mobile")
}

/// The endpoint served at `/toplist/artist`.
pub fn index_toplist_artist(options: Options) -> (r: Result<FormatParams, RequestError>)
    ensures
        endpoint_request(
            r,
            "https://music.163.com/weapi/toplist/artist"@,
            CryptoScheme::WeApi,
            seq![("type"@, "1"@), ("limit"@, "100"@), ("offset"@, "0"@), ("total"@, "true"@)],
            options.cookie@,
            ""@,
        ),
{
    let query_params = vec![param("type", "1"), param("limit", "100"), param("offset", "0"), param("total", "true")];
    proof {
        assert(text_pairs(query_params@) =~= seq![("type"@, "1"@), ("limit"@, "100"@), ("offset"@, "0"@), ("total"@, "true"@)]);
    }
    resolved_request("https://music.163.com/weapi/toplist/artist", CryptoScheme::WeApi, query_params, options.cookie, "")
}


/// Number of charts the platform lists.
pub const TOP_LIST_LEN: usize = 37;

/// The playlist id of the platform's chart at position `i`.
pub open spec fn top_list_id(i: int) -> Seq<char> {
    if i == 0 {
        "3779629"@
    } else if i == 1 {
        "3778678"@
    } else if i == 2 {
        "2884035"@
    } else if i == 3 {
        "19723756"@
    } else if i == 4 {
        "10520166"@
    } else if i == 5 {
        "180106"@
    } else if i == 6 {
        "60198"@
    } else if i == 7 {
        "21845217"@
    } else if i == 8 {
        "11641012"@
    } else if i == 9 {
        "120001"@
    } else if i == 10 {
        "60131"@
    } else if i == 11 {
        "3733003"@
    } else if i == 12 {
        "60255"@
    } else if i == 13 {
        "46772709"@
    } else if i == 14 {
        "112504"@
    } else if i == 15 {
        "64016"@
    } else if i == 16 {
        "10169002"@
    } else if i == 17 {
        "4395559"@
    } else if i == 18 {
        "1899724"@
    } else if i == 19 {
        "27135204"@
    } else if i == 20 {
        "112463"@
    } else if i == 21 {
        "3812895"@
    } else if i == 22 {
        "71385702"@
    } else if i == 23 {
        "991319590"@
    } else if i == 24 {
        "71384707"@
    } else if i == 25 {
        "1978921795"@
    } else if i == 26 {
        "2250011882"@
    } else if i == 27 {
        "2617766278"@
    } else if i == 28 {
        "745956260"@
    } else if i == 29 {
        "2023401535"@
    } else if i == 30 {
        "2006508653"@
    } else if i == 31 {
        "2809513713"@
    } else if i == 32 {
        "2809577409"@
    } else if i == 33 {
        "2847251561"@
    } else if i == 34 {
        "3001835560"@
    } else if i == 35 {
        "3001795926"@
    } else {
        "3001890046"@
    }
}

fn top_list_at(i: usize) -> (r: &'static str)
    requires
        i < TOP_LIST_LEN,
    ensures
        r@ == top_list_id(i as int),
{
    if i == 0 {
        "3779629"
    } else if i == 1 {
        "3778678"
    } else if i == 2 {
        "2884035"
    } else if i == 3 {
        "19723756"
    } else if i == 4 {
        "10520166"
    } else if i == 5 {
        "180106"
    } else if i == 6 {
        "60198"
    } else if i == 7 {
        "21845217"
    } else if i == 8 {
        "11641012"
    } else if i == 9 {
        "120001"
    } else if i == 10 {
        "60131"
    } else if i == 11 {
        "3733003"
    } else if i == 12 {
        "60255"
    } else if i == 13 {
        "46772709"
    } else if i == 14 {
        "112504"
    } else if i == 15 {
        "64016"
    } else if i == 16 {
        "10169002"
    } else if i == 17 {
        "4395559"
    } else if i == 18 {
        "1899724"
    } else if i == 19 {
        "27135204"
    } else if i == 20 {
        "112463"
    } else if i == 21 {
        "3812895"
    } else if i == 22 {
        "71385702"
    } else if i == 23 {
        "991319590"
    } else if i == 24 {
        "71384707"
    } else if i == 25 {
        "1978921795"
    } else if i == 26 {
        "2250011882"
    } else if i == 27 {
        "2617766278"
    } else if i == 28 {
        "745956260"
    } else if i == 29 {
        "2023401535"
    } else if i == 30 {
        "2006508653"
    } else if i == 31 {
        "2809513713"
    } else if i == 32 {
        "2809577409"
    } else if i == 33 {
        "2847251561"
    } else if i == 34 {
        "3001835560"
    } else if i == 35 {
        "3001795926"
    } else {
        "3001890046"
    }
}

/// The value of parameter `k` in the call, or `default` when the call omits it.
pub open spec fn param_or(ps: Seq<(Seq<char>, Seq<char>)>, k: Seq<char>, default: Seq<char>) -> Seq<char> {
    match first_value(ps, k) {
        Some(v) => v,
        None => default,
    }
}

fn value_or(params: &Vec<(&str, &str)>, key: &str, default: &str) -> (r: String)
    ensures
        r@ == param_or(str_pairs(params@), key@, default@),
{
    match query_value(params, key) {
        Some(v) => v,
        None => String::from_str(default),
    }
}

/// The position a call asks for, when it is a valid index below `len`.
pub open spec fn index_param(ps: Seq<(Seq<char>, Seq<char>)>, k: Seq<char>, len: usize) -> Option<usize> {
    match parsed_usize(param_or(ps, k, "0"@)) {
        Some(i) => if i < len { Some(i) } else { None },
        None => None,
    }
}

fn index_value(params: &Vec<(&str, &str)>, key: &str, len: usize) -> (r: Option<usize>)
    ensures
        r == index_param(str_pairs(params@), key@, len),
{
    let text = value_or(params, key, "0");
    match parse_usize(text.as_str()) {
        Some(i) => if i < len { Some(i) } else { None },
        None => None,
    }
}

/// The endpoint served at `/top/list`: the chart at position `idx` (0 when
/// omitted) of the platform's chart list, fetched through LinuxApi.
pub fn index_top_list(options: Options) -> (r: Result<FormatParams, RequestError>)
    ensures
        match index_param(str_pairs(options.params@), "idx"@, TOP_LIST_LEN) {
            Some(i) => endpoint_request(
                r,
                "https://music.163.com/weapi/v3/playlist/detail"@,
                CryptoScheme::LinuxApi,
                seq![("id"@, top_list_id(i as int)), ("n"@, "10000"@)],
                options.cookie@,
                ""@,
            ),
            None => r matches Err(RequestError::InvalidParameter),
        },
{
    let idx = match index_value(&options.params, "idx", TOP_LIST_LEN) {
        Some(i) => i,
        None => return Err(RequestError::InvalidParameter),
    };
    let query_params = vec![param("id", top_list_at(idx)), param("n", "10000")];
    proof {
        assert(text_pairs(query_params@) =~= seq![("id"@, top_list_id(idx as int)), ("n"@, "10000"@)]);
    }
    resolved_request(
        "https://music.163.com/weapi/v3/playlist/detail",
        CryptoScheme::LinuxApi,
        query_params,
        options.cookie,
        "",
    )
}


/// The resource kinds that comments attach to, by position: song, MV,
/// playlist, album, radio, video, event.
pub open spec fn resource_type(i: int) -> Seq<char> {
    if i == 0 {
        "R_SO_4_"@
    } else if i == 1 {
        "R_MV_5_"@
    } else if i == 2 {
        "A_PL_0_"@
    } else if i == 3 {
        "R_AL_3_"@
    } else if i == 4 {
        "A_DJ_1_"@
    } else if i == 5 {
        "R_VI_62_"@
    } else {
        "A_EV_2_"@
    }
}

fn resource_type_at(i: usize) -> (r: &'static str)
    requires
        i < 7,
    ensures
        r@ == resource_type(i as int),
{
    if i == 0 {
        "R_SO_4_"
    } else if i == 1 {
        "R_MV_5_"
    } else if i == 2 {
        "A_PL_0_"
    } else if i == 3 {
        "R_AL_3_"
    } else if i == 4 {
        "A_DJ_1_"
    } else if i == 5 {
        "R_VI_62_"
    } else {
        "A_EV_2_"
    }
}

/// The comment operations, by position.
pub open spec fn comment_op(i: int) -> Seq<char> {
    if i == 0 {
        "add"@
    } else if i == 1 {
        "delete"@
    } else {
        "reply"@
    }
}

fn comment_op_at(i: usize) -> (r: &'static str)
    requires
        i < 3,
    ensures
        r@ == comment_op(i as int),
{
    if i == 0 {
        "add"
    } else if i == 1 {
        "delete"
    } else {
        "reply"
    }
}

fn required(params: &Vec<(&str, &str)>, key: &str) -> (r: Result<String, RequestError>)
    ensures
        match first_value(str_pairs(params@), key@) {
            Some(v) => r matches Ok(s) && s@ == v,
            None => r matches Err(RequestError::MissingRequiredParameter),
        },
{
    match query_value(params, key) {
        Some(v) => Ok(v),
        None => Err(RequestError::MissingRequiredParameter),
    }
}

/// The parameters of a comment listing for resource `id`.
pub open spec fn comment_list_params(ps: Seq<(Seq<char>, Seq<char>)>, id: Seq<char>) -> Seq<(Seq<char>, Seq<char>)> {
    seq![
        ("rid"@, id),
        ("limit"@, param_or(ps, "limit"@, "20"@)),
        ("offset"@, param_or(ps, "offset"@, "0"@)),
        ("beforeTime"@, param_or(ps, "before"@, "0"@)),
    ]
}

/// Lists the comments at `url` for the resource the call names by `id`.
pub fn comment_common(url: &str, params: &Vec<(&str, &str)>, cookie: &str) -> (r: Result<FormatParams, RequestError>)
    ensures
        match first_value(str_pairs(params@), "id"@) {
            Some(id) => endpoint_request(r, url@, CryptoScheme::WeApi, comment_list_params(str_pairs(params@), id), cookie@, ""@),
            None => r matches Err(RequestError::MissingRequiredParameter),
        },
{
    let id = required(params, "id")?;
    let query_params = vec![
        (String::from_str("rid"), id),
        (String::from_str("limit"), value_or(params, "limit", "20")),
        (String::from_str("offset"), value_or(params, "offset", "0")),
        (String::from_str("beforeTime"), value_or(params, "before", "0")),
    ];
    proof {
        let ps = str_pairs(params@);
        let id = first_value(ps, "id"@)->0;
        assert(text_pairs(query_params@) =~= comment_list_params(ps, id));
    }
    resolved_request(url, CryptoScheme::WeApi, query_params, cookie, "")
}

/// The endpoint served at `/comment/hot`: the hot comments of resource `id`
/// of kind `type` (0 when omitted; one of the first six kinds).
pub fn index_comment_hot(options: Options) -> (r: Result<FormatParams, RequestError>)
    ensures
        match index_param(str_pairs(options.params@), "type"@, 6) {
            None => r matches Err(RequestError::InvalidParameter),
            Some(t) => match first_value(str_pairs(options.params@), "id"@) {
                None => r matches Err(RequestError::MissingRequiredParameter),
                Some(id) => endpoint_request(
                    r,
                    "https://music.163.com/weapi/v1/resource/hotcomments/"@ + resource_type(t as int) + id,
                    CryptoScheme::WeApi,
                    comment_list_params(str_pairs(options.params@), id),
                    options.cookie@,
                    ""@,
                ),
            },
        },
{
    let t = match index_value(&options.params, "type", 6) {
        Some(t) => t,
        None => return Err(RequestError::InvalidParameter),
    };
    let id = required(&options.params, "id")?;
    let url = String::from_str("https://music.163.com/weapi/v1/resource/hotcomments/").concat(
        resource_type_at(t),
    ).concat(id.as_str());
    comment_common(url.as_str(), &options.params, options.cookie)
}

/// The parameters of a cellphone login.
pub open spec fn login_params(ps: Seq<(Seq<char>, Seq<char>)>, phone: Seq<char>, password: Seq<char>) -> Seq<(Seq<char>, Seq<char>)> {
    seq![
        ("phone"@, phone),
        ("countrycode"@, param_or(ps, "countrycode"@, "86"@)),
        ("password"@, hex_text(md5_of(encode_utf8(password)), false)),
        ("rememberLogin"@, "true"@),
    ]
}

/// The endpoint served at `/login/cellphone`: logs in with `phone` and the MD5
/// of `password`, both required.
pub fn index_login_cellphone(options: Options) -> (r: Result<FormatParams, RequestError>)
    ensures
        match first_value(str_pairs(options.params@), "password"@) {
            None => r matches Err(RequestError::MissingRequiredParameter),
            Some(pw) => match first_value(str_pairs(options.params@), "phone"@) {
                None => r matches Err(RequestError::MissingRequiredParameter),
                Some(phone) => endpoint_request(
                    r,
                    "https://music.163.com/weapi/login/cellphone"@,
                    CryptoScheme::WeApi,
                    login_params(str_pairs(options.params@), phone, pw),
                    options.cookie@,
                    ""@,
                ),
            },
        },
{
    let password = required(&options.params, "password")?;
    let pw = hash_encrypt(password.as_str(), HashType::Md5, OutputEncoding::Hex);
    let phone = required(&options.params, "phone")?;
    let query_params = vec![
        (String::from_str("phone"), phone),
        (String::from_str("countrycode"), value_or(&options.params, "countrycode", "86")),
        (String::from_str("password"), pw),
        (String::from_str("rememberLogin"), String::from_str("true")),
    ];
    proof {
        let ps = str_pairs(options.params@);
        assert(text_pairs(query_params@) =~= login_params(ps, first_value(ps, "phone"@)->0, first_value(ps, "password"@)->0));
    }
    resolved_request(
        "https://music.163.com/weapi/login/cellphone",
        CryptoScheme::WeApi,
        query_params,
        options.cookie,
        "",
    )
}

/// One field of a playlist batch update: `{"id":<id>,"<field>":"<value>"}`.
pub open spec fn playlist_field(id: Seq<char>, field: Seq<char>, value: Seq<char>) -> Seq<char> {
    "{\"id\":"@ + id + ",\""@ + field + "\":\""@ + value + "\"}"@
}

fn playlist_field_text(id: &str, field: &str, value: &str) -> (r: String)
    ensures
        r@ == playlist_field(id@, field@, value@),
{
    String::from_str("{\"id\":").concat(id).concat(",\"").concat(field).concat("\":\"").concat(
        value,
    ).concat("\"}")
}

/// The parameters of a playlist batch update.
pub open spec fn playlist_update_params(ps: Seq<(Seq<char>, Seq<char>)>, id: Seq<char>) -> Seq<(Seq<char>, Seq<char>)> {
    seq![
        ("/api/playlist/desc/update"@, playlist_field(id, "desc"@, param_or(ps, "desc"@, ""@))),
        ("/api/playlist/tags/update"@, playlist_field(id, "tags"@, param_or(ps, "tags"@, ""@))),
        ("/api/playlist/update/name"@, playlist_field(id, "name"@, param_or(ps, "name"@, ""@))),
    ]
}

/// The endpoint served at `/playlist/update`: sets the description, tags and
/// name of playlist `id` (required) in one batch, as a desktop client.
pub fn index_playlist_update(options: Options) -> (r: Result<FormatParams, RequestError>)
    ensures
        match first_value(str_pairs(options.params@), "id"@) {
            None => r matches Err(RequestError::MissingRequiredParameter),
            Some(id) => exists|c: Seq<char>|
                resolved_cookie(options.cookie@, c) && endpoint_request(
                    r,
                    "https://music.163.com/weapi/batch"@,
                    CryptoScheme::WeApi,
                    playlist_update_params(str_pairs(options.params@), id),
                    c + "os=pc;"@,
                    ""@,
                ),
        },
{
    let id = required(&options.params, "id")?;
    let desc = playlist_field_text(id.as_str(), "desc", value_or(&options.params, "desc", "").as_str());
    let tags = playlist_field_text(id.as_str(), "tags", value_or(&options.params, "tags", "").as_str());
    let name = playlist_field_text(id.as_str(), "name", value_or(&options.params, "name", "").as_str());
    let query_params = vec![
        (String::from_str("/api/playlist/desc/update"), desc),
        (String::from_str("/api/playlist/tags/update"), tags),
        (String::from_str("/api/playlist/update/name"), name),
    ];
    proof {
        let ps = str_pairs(options.params@);
        assert(text_pairs(query_params@) =~= playlist_update_params(ps, first_value(ps, "id"@)->0));
    }
    let base = get_cookie_string(options.cookie);
    let cookies = base.concat("os=pc;");
    let ghost q = text_pairs(query_params@);
    let r = request_handler("https://music.163.com/weapi/batch", CryptoScheme::WeApi, query_params, cookies.as_str());
    proof {
        assert(resolved_cookie(options.cookie@, base@) && endpoint_request(
            r,
            "https://music.163.com/weapi/batch"@,
            CryptoScheme::WeApi,
            q,
            base@ + "os=pc;"@,
            ""@,
        ));
    }
    r
}


/// What a comment call asks for: the URL and parameters, or why it cannot be made.
/// `t` picks add, delete or reply; `type` the resource kind; the thread is the
/// kind's prefix and `id`, or `threadId` for events.
pub open spec fn comment_call(ps: Seq<(Seq<char>, Seq<char>)>) -> Result<
    (Seq<char>, Seq<(Seq<char>, Seq<char>)>),
    RequestError,
> {
    match index_param(ps, "t"@, 3) {
        None => Err(RequestError::InvalidParameter),
        Some(t) => match index_param(ps, "type"@, 7) {
            None => Err(RequestError::InvalidParameter),
            Some(ty) => match first_value(ps, "id"@) {
                None => Err(RequestError::MissingRequiredParameter),
                Some(id) => {
                    let thread = if ty == 6 {
                        first_value(ps, "threadId"@)
                    } else {
                        Some(resource_type(ty as int) + id)
                    };
                    let url = "https://music.163.com/weapi/resource/comments/"@ + comment_op(t as int);
                    match thread {
                        None => Err(RequestError::MissingRequiredParameter),
                        Some(th) => if t == 0 {
                            match first_value(ps, "content"@) {
                                None => Err(RequestError::MissingRequiredParameter),
                                Some(c) => Ok((url, seq![("threadId"@, th), ("content"@, c)])),
                            }
                        } else if t == 1 {
                            match first_value(ps, "commentId"@) {
                                None => Err(RequestError::MissingRequiredParameter),
                                Some(ci) => Ok((url, seq![("threadId"@, th), ("commentId"@, ci)])),
                            }
                        } else {
                            match first_value(ps, "commentId"@) {
                                None => Err(RequestError::MissingRequiredParameter),
                                Some(ci) => match first_value(ps, "content"@) {
                                    None => Err(RequestError::MissingRequiredParameter),
                                    Some(c) => Ok(
                                        (url, seq![("threadId"@, th), ("commentId"@, ci), ("content"@, c)]),
                                    ),
                                },
                            }
                        },
                    }
                },
            },
        },
    }
}

/// The endpoint served at `/comment`: adds, deletes or replies to a comment, as a desktop client.
pub fn index_comment(options: Options) -> (r: Result<FormatParams, RequestError>)
    ensures
        match comment_call(str_pairs(options.params@)) {
            Err(e) => r matches Err(f) && f == e,
            Ok((url, q)) => exists|c: Seq<char>|
                resolved_cookie(options.cookie@, c) && endpoint_request(
                    r,
                    url,
                    CryptoScheme::WeApi,
                    q,
                    c + ";os=pc;"@,
                    ""@,
                ),
        },
{
    let ghost ps = str_pairs(options.params@);
    let t = match index_value(&options.params, "t", 3) {
        Some(t) => t,
        None => return Err(RequestError::InvalidParameter),
    };
    let ty = match index_value(&options.params, "type", 7) {
        Some(ty) => ty,
        None => return Err(RequestError::InvalidParameter),
    };
    let id = required(&options.params, "id")?;
    let thread = if ty == 6 {
        required(&options.params, "threadId")?
    } else {
        String::from_str(resource_type_at(ty)).concat(id.as_str())
    };
    let url = String::from_str("https://music.163.com/weapi/resource/comments/").concat(comment_op_at(t));
    let mut query_params: Vec<(String, String)> = vec![(String::from_str("threadId"), thread)];
    if t == 0 {
        let content = required(&options.params, "content")?;
        query_params.push((String::from_str("content"), content));
    } else if t == 1 {
        let comment_id = required(&options.params, "commentId")?;
        query_params.push((String::from_str("commentId"), comment_id));
    } else {
        let comment_id = required(&options.params, "commentId")?;
        query_params.push((String::from_str("commentId"), comment_id));
        let content = required(&options.params, "content")?;
        query_params.push((String::from_str("content"), content));
    }
    let ghost q = text_pairs(query_params@);
    proof {
        assert(comment_call(ps) is Ok);
        assert(url@ == comment_call(ps)->Ok_0.0);
        assert(q =~= comment_call(ps)->Ok_0.1);
    }
    let base = get_cookie_string(options.cookie);
    let cookies = base.concat(";os=pc;");
    let r = request_handler(url.as_str(), CryptoScheme::WeApi, query_params, cookies.as_str());
    proof {
        assert(resolved_cookie(options.cookie@, base@) && endpoint_request(
            r,
            url@,
            CryptoScheme::WeApi,
            q,
            base@ + ";os=pc;"@,
            ""@,
        ));
    }
    r
}


/// The banner client kinds, by position.
pub open spec fn client_type(i: int) -> Seq<char> {
    if i == 0 {
        "pc"@
    } else if i == 1 {
        "android"@
    } else if i == 2 {
        "iphone"@
    } else {
        "ipad"@
    }
}

fn client_type_at(i: usize) -> (r: &'static str)
    requires
        i < 4,
    ensures
        r@ == client_type(i as int),
{
    if i == 0 {
        "pc"
    } else if i == 1 {
        "android"
    } else if i == 2 {
        "iphone"
    } else {
        "ipad"
    }
}

/// The endpoint served at `/banner`: the banners for client kind `type`
/// (0 when omitted), fetched through LinuxApi.
pub fn index_banner(options: Options) -> (r: Result<FormatParams, RequestError>)
    ensures
        match index_param(str_pairs(options.params@), "type"@, 4) {
            None => r matches Err(RequestError::InvalidParameter),
            Some(i) => endpoint_request(
                r,
                "https://music.163.com/api/v2/banner/get"@,
                CryptoScheme::LinuxApi,
                seq![("clientType"@, client_type(i as int))],
                options.cookie@,
                ""@,
            ),
        },
{
    let i = match index_value(&options.params, "type", 4) {
        Some(i) => i,
        None => return Err(RequestError::InvalidParameter),
    };
    let query_params = vec![param("clientType", client_type_at(i))];
    proof {
        assert(text_pairs(query_params@) =~= seq![("clientType"@, client_type(i as int))]);
    }
    resolved_request("https://music.163.com/api/v2/banner/get", CryptoScheme::LinuxApi, query_params, options.cookie, "")
}

/// `like` when the parameter `t` (0 when omitted) is `1`, else `unlike`.
pub open spec fn like_word(ps: Seq<(Seq<char>, Seq<char>)>) -> Seq<char> {
    if param_or(ps, "t"@, "0"@) == "1"@ {
        "like"@
    } else {
        "unlike"@
    }
}

fn like_word_of(params: &Vec<(&str, &str)>) -> (r: &'static str)
    ensures
        r@ == like_word(str_pairs(params@)),
{
    if same_text(value_or(params, "t", "0").as_str(), "1") {
        "like"
    } else {
        "unlike"
    }
}

/// The endpoint served at `/comment/like`: likes (`t` = 1) or unlikes comment
/// `cid` in the thread of resource `id` of kind `type`.
pub fn index_comment_like(options: Options) -> (r: Result<FormatParams, RequestError>)
    ensures
        match index_param(str_pairs(options.params@), "type"@, 7) {
            None => r matches Err(RequestError::InvalidParameter),
            Some(t) => match (first_value(str_pairs(options.params@), "id"@), first_value(str_pairs(options.params@), "cid"@)) {
                (Some(id), Some(cid)) => endpoint_request(
                    r,
                    "https://music.163.com/weapi/v1/comment/"@ + like_word(str_pairs(options.params@)),
                    CryptoScheme::WeApi,
                    seq![("commentId"@, cid), ("threadId"@, resource_type(t as int) + id)],
                    options.cookie@,
                    ""@,
                ),
                _ => r matches Err(RequestError::MissingRequiredParameter),
            },
        },
{
    let url = String::from_str("https://music.163.com/weapi/v1/comment/").concat(like_word_of(&options.params));
    let t = match index_value(&options.params, "type", 7) {
        Some(t) => t,
        None => return Err(RequestError::InvalidParameter),
    };
    let id = required(&options.params, "id")?;
    let thread = String::from_str(resource_type_at(t)).concat(id.as_str());
    let cid = required(&options.params, "cid")?;
    let query_params = vec![(String::from_str("commentId"), cid), (String::from_str("threadId"), thread)];
    proof {
        let ps = str_pairs(options.params@);
        assert(text_pairs(query_params@) =~= seq![("commentId"@, first_value(ps, "cid"@)->0), ("threadId"@, resource_type(t as int) + first_value(ps, "id"@)->0)]);
    }
    resolved_request(url.as_str(), CryptoScheme::WeApi, query_params, options.cookie, "")
}

/// The thread prefixes that resource likes take, by position; the kinds that
/// cannot be liked this way have none.
pub open spec fn like_thread_type(i: int) -> Seq<char> {
    if i == 0 {
        ""@
    } else if i == 1 {
        "R_MV_5_"@
    } else if i == 2 {
        ""@
    } else if i == 3 {
        ""@
    } else if i == 4 {
        "A_DJ_1_"@
    } else if i == 5 {
        "R_VI_62_"@
    } else {
        "A_EV_2_"@
    }
}

fn like_thread_type_at(i: usize) -> (r: &'static str)
    requires
        i < 7,
    ensures
        r@ == like_thread_type(i as int),
{
    if i == 0 {
        ""
    } else if i == 1 {
        "R_MV_5_"
    } else if i == 2 {
        ""
    } else if i == 3 {
        ""
    } else if i == 4 {
        "A_DJ_1_"
    } else if i == 5 {
        "R_VI_62_"
    } else {
        "A_EV_2_"
    }
}

/// The endpoint served at `/resource/like`: likes (`t` = 1) or unlikes resource
/// `id` of kind `type`.
pub fn index_resource_like(options: Options) -> (r: Result<FormatParams, RequestError>)
    ensures
        match index_param(str_pairs(options.params@), "type"@, 7) {
            None => r matches Err(RequestError::InvalidParameter),
            Some(t) => match first_value(str_pairs(options.params@), "id"@) {
                Some(id) => endpoint_request(
                    r,
                    "https://music.163.com/weapi/resource/"@ + like_word(str_pairs(options.params@)),
                    CryptoScheme::WeApi,
                    seq![("threadId"@, like_thread_type(t as int) + id)],
                    options.cookie@,
                    ""@,
                ),
                None => r matches Err(RequestError::MissingRequiredParameter),
            },
        },
{
    let url = String::from_str("https://music.163.com/weapi/resource/").concat(like_word_of(&options.params));
    let t = match index_value(&options.params, "type", 7) {
        Some(t) => t,
        None => return Err(RequestError::InvalidParameter),
    };
    let id = required(&options.params, "id")?;
    let thread = String::from_str(like_thread_type_at(t)).concat(id.as_str());
    let query_params = vec![(String::from_str("threadId"), thread)];
    proof {
        let ps = str_pairs(options.params@);
        assert(text_pairs(query_params@) =~= seq![("threadId"@, like_thread_type(t as int) + first_value(ps, "id"@)->0)]);
    }
    resolved_request(url.as_str(), CryptoScheme::WeApi, query_params, options.cookie, "")
}

/// The MV filter: area, type and order, each `全部` or `上升最快` when omitted.
pub open spec fn mv_tags(ps: Seq<(Seq<char>, Seq<char>)>) -> Seq<char> {
    "地区:"@ + param_or(ps, "area"@, "全部"@) + ";类型:"@ + param_or(ps, "type"@, "全部"@) + ";排序:"@
        + param_or(ps, "order"@, "上升最快"@)
}

/// The endpoint served at `/mv/all`: MVs by area, type and order.
pub fn index_mv_all(options: Options) -> (r: Result<FormatParams, RequestError>)
    ensures
        endpoint_request(
            r,
            "https://interface.music.163.com/api/mv/all"@,
            CryptoScheme::WeApi,
            seq![
                ("offset"@, param_or(str_pairs(options.params@), "offset"@, "0"@)),
                ("limit"@, param_or(str_pairs(options.params@), "limit"@, "30"@)),
                ("tags"@, mv_tags(str_pairs(options.params@))),
                ("total"@, "true"@),
            ],
            options.cookie@,
            ""@,
        ),
{
    let tags = String::from_str("地区:").concat(value_or(&options.params, "area", "全部").as_str()).concat(
        ";类型:",
    ).concat(value_or(&options.params, "type", "全部").as_str()).concat(";排序:").concat(
        value_or(&options.params, "order", "上升最快").as_str(),
    );
    let query_params = vec![
        (String::from_str("offset"), value_or(&options.params, "offset", "0")),
        (String::from_str("limit"), value_or(&options.params, "limit", "30")),
        (String::from_str("tags"), tags),
        (String::from_str("total"), String::from_str("true")),
    ];
    proof {
        let ps = str_pairs(options.params@);
        assert(text_pairs(query_params@) =~= seq![
            ("offset"@, param_or(ps, "offset"@, "0"@)),
            ("limit"@, param_or(ps, "limit"@, "30"@)),
            ("tags"@, mv_tags(ps)),
            ("total"@, "true"@),
        ]);
    }
    resolved_request("https://interface.music.163.com/api/mv/all", CryptoScheme::WeApi, query_params, options.cookie, "")
}

/// The parameters of a song URL request: ids, encoding and level, and for the
/// `sky` level the immersive kind.
pub open spec fn song_url_params(id: Seq<char>, level: Seq<char>) -> Seq<(Seq<char>, Seq<char>)> {
    let base = seq![("ids"@, "["@ + id + "]"@), ("encodeType"@, "flac"@), ("level"@, level)];
    if level == "sky"@ {
        base.push(("immerseType"@, "c51"@))
    } else {
        base
    }
}

/// The endpoint served at `/song/url/v1`: the play URL of song `id` at `level`
/// (`standard` when omitted), as an Android client under EApi.
pub fn index_song_url_v1(options: Options) -> (r: Result<FormatParams, RequestError>)
    ensures
        match first_value(str_pairs(options.params@), "id"@) {
            None => r matches Err(RequestError::MissingRequiredParameter),
            Some(id) => exists|c: Seq<char>|
                resolved_cookie(options.cookie@, c) && endpoint_request(
                    r,
                    "https://interface.music.163.com/eapi/song/enhance/player/url/v1"@,
                    CryptoScheme::EApi,
                    song_url_params(id, param_or(str_pairs(options.params@), "level"@, "standard"@)),
                    c + ";os=android;appver=8.10.05;"@,
                    ""@,
                ),
        },
{
    let id = required(&options.params, "id")?;
    let ids = String::from_str("[").concat(id.as_str()).concat("]");
    let level = value_or(&options.params, "level", "standard");
    let sky = same_text(level.as_str(), "sky");
    let ghost lv = level@;
    let mut query_params = vec![
        (String::from_str("ids"), ids),
        (String::from_str("encodeType"), String::from_str("flac")),
        (String::from_str("level"), level),
    ];
    if sky {
        query_params.push((String::from_str("immerseType"), String::from_str("c51")));
    }
    let ghost q = text_pairs(query_params@);
    proof {
        let ps = str_pairs(options.params@);
        assert(q =~= song_url_params(first_value(ps, "id"@)->0, lv));
    }
    let base = get_cookie_string(options.cookie);
    let cookies = base.concat(";os=android;appver=8.10.05;");
    let r = request_handler(
        "https://interface.music.163.com/eapi/song/enhance/player/url/v1",
        CryptoScheme::EApi,
        query_params,
        cookies.as_str(),
    );
    proof {
        assert(resolved_cookie(options.cookie@, base@) && endpoint_request(
            r,
            "https://interface.music.163.com/eapi/song/enhance/player/url/v1"@,
            CryptoScheme::EApi,
            q,
            base@ + ";os=android;appver=8.10.05;"@,
            ""@,
        ));
    }
    r
}

/// The endpoint served at `/playmode/intelligence/list`: the intelligent
/// playlist from song `id` in playlist `pid`; `trakcs` must be given too.
pub fn index_playmode_intelligence_list(options: Options) -> (r: Result<FormatParams, RequestError>)
    ensures
        match first_value(str_pairs(options.params@), "trakcs"@) {
            None => r matches Err(RequestError::MissingRequiredParameter),
            Some(_) => endpoint_call(
                r,
                str_pairs(options.params@),
                options.cookie@,
                "http://music.163.com/weapi/playmode/intelligence/list"@,
                Seq::empty(),
                CryptoScheme::WeApi,
                seq![
                    ("songId"@, Source::Required("id"@)),
                    ("type"@, Source::Fixed("fromPlayOne"@)),
                    ("playlistId"@, Source::Required("pid"@)),
                    ("startMusicId"@, Source::Fallback("sid"@, "id"@)),
                    ("count"@, Source::OrDefault("count"@, "1"@)),
                ],
                ""@,
                ""@,
            ),
        },
{
    let _tracks = required(&options.params, "trakcs")?;
    let parts: Vec<ParamRule> = Vec::new();
    let table = vec![
        ("songId", ParamRule::Required("id")),
        ("type", ParamRule::Fixed("fromPlayOne")),
        ("playlistId", ParamRule::Required("pid")),
        ("startMusicId", ParamRule::Fallback("sid", "id")),
        ("count", ParamRule::OrDefault("count", "1")),
    ];
    proof {
        assert(part_sources(parts@) =~= Seq::<Source>::empty());
        assert(table_sources(table@) =~= seq![
            ("songId"@, Source::Required("id"@)),
            ("type"@, Source::Fixed("fromPlayOne"@)),
            ("playlistId"@, Source::Required("pid"@)),
            ("startMusicId"@, Source::Fallback("sid"@, "id"@)),
            ("count"@, Source::OrDefault("count"@, "1"@)),
        ]);
    }
    call_endpoint(
        &options,
        "http://music.163.com/weapi/playmode/intelligence/list",
        parts,
        CryptoScheme::WeApi,
        table,
        "",
        "",
    )
}

/// Where an endpoint parameter's value comes from.
pub enum Source {
    /// The call's parameter of this name, which must be there.
    Required(Seq<char>),
    /// The call's parameter of this name, or the default when it is not there.
    OrDefault(Seq<char>, Seq<char>),
    /// This value, whatever the call holds.
    Fixed(Seq<char>),
    /// The call's parameter of this name, which must be there, between a prefix and a suffix.
    Wrapped(Seq<char>, Seq<char>, Seq<char>),
    /// One of two values, by whether the parameter (or its default) equals a given text.
    Choice(Seq<char>, Seq<char>, Seq<char>, Seq<char>, Seq<char>),
    /// One of two values, by whether the parameter (`0` when omitted) reads as the
    /// 32-bit integer 1; a parameter that is no such integer is refused.
    Flag(Seq<char>, Seq<char>, Seq<char>),
    /// The lowercase hex MD5 of the call's parameter of this name, which must be there.
    Md5(Seq<char>),
    /// The first parameter, or else the second, which must be there in any case.
    Fallback(Seq<char>, Seq<char>),
}

/// How an endpoint takes a value, as written in its table.
pub enum ParamRule {
    Required(&'static str),
    OrDefault(&'static str, &'static str),
    Fixed(&'static str),
    Wrapped(&'static str, &'static str, &'static str),
    Choice(&'static str, &'static str, &'static str, &'static str, &'static str),
    Flag(&'static str, &'static str, &'static str),
    Md5(&'static str),
    Fallback(&'static str, &'static str),
}

pub open spec fn rule_source(r: ParamRule) -> Source {
    match r {
        ParamRule::Required(k) => Source::Required(k@),
        ParamRule::OrDefault(k, d) => Source::OrDefault(k@, d@),
        ParamRule::Fixed(v) => Source::Fixed(v@),
        ParamRule::Wrapped(pre, k, post) => Source::Wrapped(pre@, k@, post@),
        ParamRule::Choice(k, d, w, a, b) => Source::Choice(k@, d@, w@, a@, b@),
        ParamRule::Flag(k, a, b) => Source::Flag(k@, a@, b@),
        ParamRule::Md5(k) => Source::Md5(k@),
        ParamRule::Fallback(k, k2) => Source::Fallback(k@, k2@),
    }
}

pub open spec fn table_sources(t: Seq<(&'static str, ParamRule)>) -> Seq<(Seq<char>, Source)> {
    t.map_values(|f: (&'static str, ParamRule)| (f.0@, rule_source(f.1)))
}

pub open spec fn part_sources(t: Seq<ParamRule>) -> Seq<Source> {
    t.map_values(|r: ParamRule| rule_source(r))
}

/// The call's parameter `k`, which must be there.
pub open spec fn required_value(ps: Seq<(Seq<char>, Seq<char>)>, k: Seq<char>) -> Result<Seq<char>, RequestError> {
    match first_value(ps, k) {
        Some(v) => Ok(v),
        None => Err(RequestError::MissingRequiredParameter),
    }
}

/// The value a source gives for the call's parameters, or why it gives none.
pub open spec fn source_value(ps: Seq<(Seq<char>, Seq<char>)>, s: Source) -> Result<Seq<char>, RequestError> {
    match s {
        Source::Required(k) => required_value(ps, k),
        Source::OrDefault(k, d) => Ok(param_or(ps, k, d)),
        Source::Fixed(v) => Ok(v),
        Source::Wrapped(pre, k, post) => match required_value(ps, k) {
            Ok(v) => Ok(pre + v + post),
            Err(e) => Err(e),
        },
        Source::Choice(k, d, w, a, b) => Ok(if param_or(ps, k, d) == w { a } else { b }),
        Source::Flag(k, a, b) => match parsed_i32(param_or(ps, k, "0"@)) {
            Some(n) => Ok(if n == 1 { a } else { b }),
            None => Err(RequestError::InvalidParameter),
        },
        Source::Md5(k) => match required_value(ps, k) {
            Ok(v) => Ok(hex_text(md5_of(encode_utf8(v)), false)),
            Err(e) => Err(e),
        },
        Source::Fallback(k, k2) => match required_value(ps, k2) {
            Ok(v2) => Ok(param_or(ps, k, v2)),
            Err(e) => Err(e),
        },
    }
}

/// The request parameters of a table, in its order; or the first refusal.
pub open spec fn gathered(ps: Seq<(Seq<char>, Seq<char>)>, fields: Seq<(Seq<char>, Source)>) -> Result<
    Seq<(Seq<char>, Seq<char>)>,
    RequestError,
>
    decreases fields.len(),
{
    if fields.len() == 0 {
        Ok(Seq::empty())
    } else {
        match gathered(ps, fields.drop_last()) {
            Err(e) => Err(e),
            Ok(q) => match source_value(ps, fields.last().1) {
                Ok(v) => Ok(q.push((fields.last().0, v))),
                Err(e) => Err(e),
            },
        }
    }
}

/// The endpoint URL: the prefix followed by the values of its parts; or the first refusal.
pub open spec fn endpoint_url(ps: Seq<(Seq<char>, Seq<char>)>, prefix: Seq<char>, parts: Seq<Source>) -> Result<
    Seq<char>,
    RequestError,
>
    decreases parts.len(),
{
    if parts.len() == 0 {
        Ok(prefix)
    } else {
        match endpoint_url(ps, prefix, parts.drop_last()) {
            Err(e) => Err(e),
            Ok(u) => match source_value(ps, parts.last()) {
                Ok(v) => Ok(u + v),
                Err(e) => Err(e),
            },
        }
    }
}

/// `r` is the call of an endpoint described by a table: the POST request for its
/// URL and parameters, with `suffix` after the resolved cookie; or the first
/// refusal of its URL parts, then of its parameters.
pub open spec fn endpoint_call(
    r: Result<FormatParams, RequestError>,
    ps: Seq<(Seq<char>, Seq<char>)>,
    cookie: Seq<char>,
    prefix: Seq<char>,
    parts: Seq<Source>,
    scheme: CryptoScheme,
    fields: Seq<(Seq<char>, Source)>,
    suffix: Seq<char>,
    ua: Seq<char>,
) -> bool {
    match endpoint_url(ps, prefix, parts) {
        Err(e) => r matches Err(f) && f == e,
        Ok(u) => match gathered(ps, fields) {
            Err(e) => r matches Err(f) && f == e,
            Ok(q) => exists|c: Seq<char>|
                resolved_cookie(cookie, c) && endpoint_request(r, u, scheme, q, c + suffix, ua),
        },
    }
}

fn required_text(params: &Vec<(&str, &str)>, key: &str) -> (r: Result<String, RequestError>)
    ensures
        match required_value(str_pairs(params@), key@) {
            Ok(v) => r matches Ok(s) && s@ == v,
            Err(e) => r matches Err(f) && f == e,
        },
{
    match query_value(params, key) {
        Some(v) => Ok(v),
        None => Err(RequestError::MissingRequiredParameter),
    }
}

fn rule_value(params: &Vec<(&str, &str)>, rule: &ParamRule) -> (r: Result<String, RequestError>)
    ensures
        match source_value(str_pairs(params@), rule_source(*rule)) {
            Ok(v) => r matches Ok(s) && s@ == v,
            Err(e) => r matches Err(f) && f == e,
        },
{
    match rule {
        ParamRule::Required(k) => required_text(params, k),
        ParamRule::OrDefault(k, d) => Ok(value_or(params, k, d)),
        ParamRule::Fixed(v) => Ok(String::from_str(v)),
        ParamRule::Wrapped(pre, k, post) => {
            let v = required_text(params, k)?;
            Ok(String::from_str(pre).concat(v.as_str()).concat(post))
        },
        ParamRule::Choice(k, d, w, a, b) => {
            let v = value_or(params, k, d);
            if same_text(v.as_str(), w) {
                Ok(String::from_str(a))
            } else {
                Ok(String::from_str(b))
            }
        },
        ParamRule::Flag(k, a, b) => {
            let v = value_or(params, k, "0");
            match parse_i32(v.as_str()) {
                Some(n) => if n == 1 {
                    Ok(String::from_str(a))
                } else {
                    Ok(String::from_str(b))
                },
                None => Err(RequestError::InvalidParameter),
            }
        },
        ParamRule::Md5(k) => {
            let v = required_text(params, k)?;
            Ok(hash_encrypt(v.as_str(), HashType::Md5, OutputEncoding::Hex))
        },
        ParamRule::Fallback(k, k2) => {
            let v2 = required_text(params, k2)?;
            match query_value(params, k) {
                Some(v) => Ok(v),
                None => Ok(v2),
            }
        },
    }
}

/// Once a prefix of the table is refused, the whole table is refused alike.
proof fn lemma_gathered_prefix_err(
    ps: Seq<(Seq<char>, Seq<char>)>,
    fields: Seq<(Seq<char>, Source)>,
    n: int,
    e: RequestError,
)
    requires
        0 <= n <= fields.len(),
        gathered(ps, fields.subrange(0, n)) == Err::<Seq<(Seq<char>, Seq<char>)>, RequestError>(e),
    ensures
        gathered(ps, fields) == Err::<Seq<(Seq<char>, Seq<char>)>, RequestError>(e),
    decreases fields.len() - n,
{
    if n < fields.len() {
        assert(fields.subrange(0, n + 1).drop_last() =~= fields.subrange(0, n));
        lemma_gathered_prefix_err(ps, fields, n + 1, e);
    } else {
        assert(fields.subrange(0, n) =~= fields);
    }
}

/// Once a prefix of the URL parts is refused, the whole URL is refused alike.
proof fn lemma_url_prefix_err(
    ps: Seq<(Seq<char>, Seq<char>)>,
    prefix: Seq<char>,
    parts: Seq<Source>,
    n: int,
    e: RequestError,
)
    requires
        0 <= n <= parts.len(),
        endpoint_url(ps, prefix, parts.subrange(0, n)) == Err::<Seq<char>, RequestError>(e),
    ensures
        endpoint_url(ps, prefix, parts) == Err::<Seq<char>, RequestError>(e),
    decreases parts.len() - n,
{
    if n < parts.len() {
        assert(parts.subrange(0, n + 1).drop_last() =~= parts.subrange(0, n));
        lemma_url_prefix_err(ps, prefix, parts, n + 1, e);
    } else {
        assert(parts.subrange(0, n) =~= parts);
    }
}

/// Calls the endpoint that a table describes.
pub fn call_endpoint(
    options: &Options,
    prefix: &'static str,
    parts: Vec<ParamRule>,
    scheme: CryptoScheme,
    table: Vec<(&'static str, ParamRule)>,
    suffix: &'static str,
    ua: &'static str,
) -> (r: Result<FormatParams, RequestError>)
    ensures
        endpoint_call(
            r,
            str_pairs(options.params@),
            options.cookie@,
            prefix@,
            part_sources(parts@),
            scheme,
            table_sources(table@),
            suffix@,
            ua@,
        ),
{
    let ghost ps = str_pairs(options.params@);
    let ghost us = part_sources(parts@);
    let ghost fields = table_sources(table@);
    let mut url = String::from_str(prefix);
    proof {
        assert(us.subrange(0, 0) =~= Seq::<Source>::empty());
    }
    let mut j: usize = 0;
    while j < parts.len()
        invariant
            ps == str_pairs(options.params@),
            us == part_sources(parts@),
            j <= parts@.len(),
            endpoint_url(ps, prefix@, us.subrange(0, j as int)) == Ok::<Seq<char>, RequestError>(url@),
        decreases parts.len() - j,
    {
        proof {
            assert(us.subrange(0, j + 1).drop_last() =~= us.subrange(0, j as int));
            assert(us[j as int] == rule_source(parts@[j as int]));
        }
        let v = match rule_value(&options.params, &parts[j]) {
            Ok(v) => v,
            Err(e) => {
                proof {
                    lemma_url_prefix_err(ps, prefix@, us, j + 1, e);
                }
                return Err(e);
            },
        };
        url = url.concat(v.as_str());
        j = j + 1;
    }
    proof {
        assert(us.subrange(0, us.len() as int) =~= us);
    }
    let mut query_params: Vec<(String, String)> = Vec::new();
    proof {
        assert(fields.subrange(0, 0) =~= Seq::<(Seq<char>, Source)>::empty());
        assert(text_pairs(query_params@) =~= Seq::<(Seq<char>, Seq<char>)>::empty());
    }
    let mut i: usize = 0;
    while i < table.len()
        invariant
            ps == str_pairs(options.params@),
            us == part_sources(parts@),
            endpoint_url(ps, prefix@, us) == Ok::<Seq<char>, RequestError>(url@),
            fields == table_sources(table@),
            i <= table@.len(),
            gathered(ps, fields.subrange(0, i as int)) == Ok::<Seq<(Seq<char>, Seq<char>)>, RequestError>(
                text_pairs(query_params@),
            ),
        decreases table.len() - i,
    {
        let ghost pre = text_pairs(query_params@);
        proof {
            assert(fields.subrange(0, i + 1).drop_last() =~= fields.subrange(0, i as int));
            assert(fields[i as int] == (table@[i as int].0@, rule_source(table@[i as int].1)));
        }
        let v = match rule_value(&options.params, &table[i].1) {
            Ok(v) => v,
            Err(e) => {
                proof {
                    lemma_gathered_prefix_err(ps, fields, i + 1, e);
                }
                return Err(e);
            },
        };
        query_params.push((String::from_str(table[i].0), v));
        i = i + 1;
        proof {
            assert(text_pairs(query_params@) =~= pre.push((fields[i - 1].0, text_pairs(query_params@).last().1)));
        }
    }
    proof {
        assert(fields.subrange(0, fields.len() as int) =~= fields);
    }
    let base = get_cookie_string(options.cookie);
    let cookies = base.concat(suffix);
    let ghost q = text_pairs(query_params@);
    let r = resolved_request(url.as_str(), scheme, query_params, cookies.as_str(), ua);
    proof {
        assert(resolved_cookie(options.cookie@, base@) && endpoint_request(
            r,
            url@,
            scheme,
            q,
            base@ + suffix@,
            ua@,
        ));
    }
    r
}


/// The endpoint served at `/album`.
pub fn index_album(options: Options) -> (r: Result<FormatParams, RequestError>)
    ensures
        endpoint_call(
            r,
            str_pairs(options.params@),
            options.cookie@,
            "https://music.163.com/weapi/v1/album/"@,
            seq![Source::OrDefault("id"@, "0"@)],
            CryptoScheme::WeApi,
            Seq::empty(),
            ""@,
            ""@,
        ),
{
    let parts = vec![ParamRule::OrDefault("id", "0")];
    let table: Vec<(&'static str, ParamRule)> = Vec::new();
    proof {
        assert(part_sources(parts@) =~= seq![Source::OrDefault("id"@, "0"@)]);
        assert(table_sources(table@) =~= Seq::empty());
    }
    call_endpoint(&options, "https://music.163.com/weapi/v1/album/", parts, CryptoScheme::WeApi, table, "", "")
}

/// The endpoint served at `/album/detail/dynamic`.
pub fn index_album_detail_dynamic(options: Options) -> (r: Result<FormatParams, RequestError>)
    ensures
        endpoint_call(
            r,
            str_pairs(options.params@),
            options.cookie@,
            "https://music.163.com/api/album/detail/dynamic"@,
            Seq::empty(),
            CryptoScheme::WeApi,
            seq![("id"@, Source::OrDefault("id"@, ""@))],
            ""@,
            ""@,
        ),
{
    let parts: Vec<ParamRule> = Vec::new();
    let table = vec![("id", ParamRule::OrDefault("id", ""))];
    proof {
        assert(part_sources(parts@) =~= Seq::empty());
        assert(table_sources(table@) =~= seq![("id"@, Source::OrDefault("id"@, ""@))]);
    }
    call_endpoint(&options, "https://music.163.com/api/album/detail/dynamic", parts, CryptoScheme::WeApi, table, "", "")
}

/// The endpoint served at `/album/sub`.
pub fn index_album_sub(options: Options) -> (r: Result<FormatParams, RequestError>)
    ensures
        endpoint_call(
            r,
            str_pairs(options.params@),
            options.cookie@,
            "https://music.163.com/api/album/"@,
            seq![Source::Flag("t"@, "sub"@, "unsub"@)],
            CryptoScheme::WeApi,
            seq![("id"@, Source::Required("id"@))],
            ""@,
            ""@,
        ),
{
    let parts = vec![ParamRule::Flag("t", "sub", "unsub")];
    let table = vec![("id", ParamRule::Required("id"))];
    proof {
        assert(part_sources(parts@) =~= seq![Source::Flag("t"@, "sub"@, "unsub"@)]);
        assert(table_sources(table@) =~= seq![("id"@, Source::Required("id"@))]);
    }
    call_endpoint(&options, "https://music.163.com/api/album/", parts, CryptoScheme::WeApi, table, "", "")
}

/// The endpoint served at `/album/sublist`.
pub fn index_album_sublist(options: Options) -> (r: Result<FormatParams, RequestError>)
    ensures
        endpoint_call(
            r,
            str_pairs(options.params@),
            options.cookie@,
            "https://music.163.com/weapi/album/sublist"@,
            Seq::empty(),
            CryptoScheme::WeApi,
            seq![("limit"@, Source::OrDefault("limit"@, "25"@)), ("offset"@, Source::OrDefault("offset"@, "0"@)), ("total"@, Source::Fixed("true"@))],
            ""@,
            ""@,
        ),
{
    let parts: Vec<ParamRule> = Vec::new();
    let table = vec![("limit", ParamRule::OrDefault("limit", "25")), ("offset", ParamRule::OrDefault("offset", "0")), ("total", ParamRule::Fixed("true"))];
    proof {
        assert(part_sources(parts@) =~= Seq::empty());
        assert(table_sources(table@) =~= seq![("limit"@, Source::OrDefault("limit"@, "25"@)), ("offset"@, Source::OrDefault("offset"@, "0"@)), ("total"@, Source::Fixed("true"@))]);
    }
    call_endpoint(&options, "https://music.163.com/weapi/album/sublist", parts, CryptoScheme::WeApi, table, "", "")
}

/// The endpoint served at `/artist/album`.
pub fn index_artist_album(options: Options) -> (r: Result<FormatParams, RequestError>)
    ensures
        endpoint_call(
            r,
            str_pairs(options.params@),
            options.cookie@,
            "https://music.163.com/weapi/artist/albums/"@,
            seq![Source::OrDefault("id"@, "0"@)],
            CryptoScheme::WeApi,
            seq![("limit"@, Source::OrDefault("limit"@, "30"@)), ("offset"@, Source::OrDefault("offset"@, "0"@)), ("total"@, Source::Fixed("true"@))],
            ""@,
            ""@,
        ),
{
    let parts = vec![ParamRule::OrDefault("id", "0")];
    let table = vec![("limit", ParamRule::OrDefault("limit", "30")), ("offset", ParamRule::OrDefault("offset", "0")), ("total", ParamRule::Fixed("true"))];
    proof {
        assert(part_sources(parts@) =~= seq![Source::OrDefault("id"@, "0"@)]);
        assert(table_sources(table@) =~= seq![("limit"@, Source::OrDefault("limit"@, "30"@)), ("offset"@, Source::OrDefault("offset"@, "0"@)), ("total"@, Source::Fixed("true"@))]);
    }
    call_endpoint(&options, "https://music.163.com/weapi/artist/albums/", parts, CryptoScheme::WeApi, table, "", "")
}

/// The endpoint served at `/artist/desc`.
pub fn index_artist_desc(options: Options) -> (r: Result<FormatParams, RequestError>)
    ensures
        endpoint_call(
            r,
            str_pairs(options.params@),
            options.cookie@,
            "https://music.163.com/weapi/artist/introduction"@,
            Seq::empty(),
            CryptoScheme::WeApi,
            seq![("id"@, Source::Required("id"@))],
            ""@,
            ""@,
        ),
{
    let parts: Vec<ParamRule> = Vec::new();
    let table = vec![("id", ParamRule::Required("id"))];
    proof {
        assert(part_sources(parts@) =~= Seq::empty());
        assert(table_sources(table@) =~= seq![("id"@, Source::Required("id"@))]);
    }
    call_endpoint(&options, "https://music.163.com/weapi/artist/introduction", parts, CryptoScheme::WeApi, table, "", "")
}

/// The endpoint served at `/artist/detail`.
pub fn index_artist_detail(options: Options) -> (r: Result<FormatParams, RequestError>)
    ensures
        endpoint_call(
            r,
            str_pairs(options.params@),
            options.cookie@,
            "https://music.163.com/api/artist/head/info/get?id="@,
            seq![Source::Required("id"@)],
            CryptoScheme::WeApi,
            seq![("id"@, Source::Required("id"@))],
            ""@,
            ""@,
        ),
{
    let parts = vec![ParamRule::Required("id")];
    let table = vec![("id", ParamRule::Required("id"))];
    proof {
        assert(part_sources(parts@) =~= seq![Source::Required("id"@)]);
        assert(table_sources(table@) =~= seq![("id"@, Source::Required("id"@))]);
    }
    call_endpoint(&options, "https://music.163.com/api/artist/head/info/get?id=", parts, CryptoScheme::WeApi, table, "", "")
}

/// The endpoint served at `/artist/list`.
pub fn index_artist_list(options: Options) -> (r: Result<FormatParams, RequestError>)
    ensures
        endpoint_call(
            r,
            str_pairs(options.params@),
            options.cookie@,
            "https://music.163.com/weapi/artist/list"@,
            Seq::empty(),
            CryptoScheme::WeApi,
            seq![("categoryCode"@, Source::OrDefault("cat"@, "1001"@)), ("initial"@, Source::Fixed("undefined"@)), ("offset"@, Source::OrDefault("offset"@, "0"@)), ("total"@, Source::Fixed("true"@))],
            ""@,
            ""@,
        ),
{
    let parts: Vec<ParamRule> = Vec::new();
    let table = vec![("categoryCode", ParamRule::OrDefault("cat", "1001")), ("initial", ParamRule::Fixed("undefined")), ("offset", ParamRule::OrDefault("offset", "0")), ("total", ParamRule::Fixed("true"))];
    proof {
        assert(part_sources(parts@) =~= Seq::empty());
        assert(table_sources(table@) =~= seq![("categoryCode"@, Source::OrDefault("cat"@, "1001"@)), ("initial"@, Source::Fixed("undefined"@)), ("offset"@, Source::OrDefault("offset"@, "0"@)), ("total"@, Source::Fixed("true"@))]);
    }
    call_endpoint(&options, "https://music.163.com/weapi/artist/list", parts, CryptoScheme::WeApi, table, "", "")
}

/// The endpoint served at `/artist/mv`.
pub fn index_artist_mv(options: Options) -> (r: Result<FormatParams, RequestError>)
    ensures
        endpoint_call(
            r,
            str_pairs(options.params@),
            options.cookie@,
            "https://music.163.com/weapi/artist/mvs"@,
            Seq::empty(),
            CryptoScheme::WeApi,
            seq![("artistId"@, Source::Required("id"@)), ("limit"@, Source::OrDefault("limit"@, "25"@)), ("offset"@, Source::OrDefault("offset"@, "0"@)), ("total"@, Source::Fixed("true"@))],
            ""@,
            ""@,
        ),
{
    let parts: Vec<ParamRule> = Vec::new();
    let table = vec![("artistId", ParamRule::Required("id")), ("limit", ParamRule::OrDefault("limit", "25")), ("offset", ParamRule::OrDefault("offset", "0")), ("total", ParamRule::Fixed("true"))];
    proof {
        assert(part_sources(parts@) =~= Seq::empty());
        assert(table_sources(table@) =~= seq![("artistId"@, Source::Required("id"@)), ("limit"@, Source::OrDefault("limit"@, "25"@)), ("offset"@, Source::OrDefault("offset"@, "0"@)), ("total"@, Source::Fixed("true"@))]);
    }
    call_endpoint(&options, "https://music.163.com/weapi/artist/mvs", parts, CryptoScheme::WeApi, table, "", "")
}

/// The endpoint served at `/artist/sub`.
pub fn index_artist_sub(options: Options) -> (r: Result<FormatParams, RequestError>)
    ensures
        endpoint_call(
            r,
            str_pairs(options.params@),
            options.cookie@,
            "https://music.163.com/weapi/artist/"@,
            seq![Source::Flag("t"@, "sub"@, "unsub"@)],
            CryptoScheme::WeApi,
            seq![("artistId"@, Source::Required("id"@)), ("artistIds"@, Source::Wrapped("["@, "id"@, "]"@))],
            ""@,
            ""@,
        ),
{
    let parts = vec![ParamRule::Flag("t", "sub", "unsub")];
    let table = vec![("artistId", ParamRule::Required("id")), ("artistIds", ParamRule::Wrapped("[", "id", "]"))];
    proof {
        assert(part_sources(parts@) =~= seq![Source::Flag("t"@, "sub"@, "unsub"@)]);
        assert(table_sources(table@) =~= seq![("artistId"@, Source::Required("id"@)), ("artistIds"@, Source::Wrapped("["@, "id"@, "]"@))]);
    }
    call_endpoint(&options, "https://music.163.com/weapi/artist/", parts, CryptoScheme::WeApi, table, "", "")
}

/// The endpoint served at `/artist/sublist`.
pub fn index_artist_sublist(options: Options) -> (r: Result<FormatParams, RequestError>)
    ensures
        endpoint_call(
            r,
            str_pairs(options.params@),
            options.cookie@,
            "https://music.163.com/weapi/artist/sublist"@,
            Seq::empty(),
            CryptoScheme::WeApi,
            seq![("limit"@, Source::OrDefault("cat"@, "25"@)), ("offset"@, Source::OrDefault("offset"@, "0"@)), ("total"@, Source::Fixed("true"@))],
            ""@,
            ""@,
        ),
{
    let parts: Vec<ParamRule> = Vec::new();
    let table = vec![("limit", ParamRule::OrDefault("cat", "25")), ("offset", ParamRule::OrDefault("offset", "0")), ("total", ParamRule::Fixed("true"))];
    proof {
        assert(part_sources(parts@) =~= Seq::empty());
        assert(table_sources(table@) =~= seq![("limit"@, Source::OrDefault("cat"@, "25"@)), ("offset"@, Source::OrDefault("offset"@, "0"@)), ("total"@, Source::Fixed("true"@))]);
    }
    call_endpoint(&options, "https://music.163.com/weapi/artist/sublist", parts, CryptoScheme::WeApi, table, "", "")
}

/// The endpoint served at `/artist/top/song`.
pub fn index_artist_top_song(options: Options) -> (r: Result<FormatParams, RequestError>)
    ensures
        endpoint_call(
            r,
            str_pairs(options.params@),
            options.cookie@,
            "https://music.163.com/api/artist/top/song"@,
            Seq::empty(),
            CryptoScheme::WeApi,
            seq![("id"@, Source::Required("id"@))],
            ""@,
            ""@,
        ),
{
    let parts: Vec<ParamRule> = Vec::new();
    let table = vec![("id", ParamRule::Required("id"))];
    proof {
        assert(part_sources(parts@) =~= Seq::empty());
        assert(table_sources(table@) =~= seq![("id"@, Source::Required("id"@))]);
    }
    call_endpoint(&options, "https://music.163.com/api/artist/top/song", parts, CryptoScheme::WeApi, table, "", "")
}

/// The endpoint served at `/artists`.
pub fn index_artists(options: Options) -> (r: Result<FormatParams, RequestError>)
    ensures
        endpoint_call(
            r,
            str_pairs(options.params@),
            options.cookie@,
            "https://music.163.com/weapi/v1/artist/"@,
            seq![Source::Required("id"@)],
            CryptoScheme::WeApi,
            Seq::empty(),
            ""@,
            ""@,
        ),
{
    let parts = vec![ParamRule::Required("id")];
    let table: Vec<(&'static str, ParamRule)> = Vec::new();
    proof {
        assert(part_sources(parts@) =~= seq![Source::Required("id"@)]);
        assert(table_sources(table@) =~= Seq::empty());
    }
    call_endpoint(&options, "https://music.163.com/weapi/v1/artist/", parts, CryptoScheme::WeApi, table, "", "")
}

/// The endpoint served at `/check/music`.
pub fn index_check_music(options: Options) -> (r: Result<FormatParams, RequestError>)
    ensures
        endpoint_call(
            r,
            str_pairs(options.params@),
            options.cookie@,
            "https://music.163.com/weapi/song/enhance/player/url"@,
            Seq::empty(),
            CryptoScheme::WeApi,
            seq![("ids"@, Source::Required("id"@)), ("br"@, Source::OrDefault("br"@, "999000"@))],
            ""@,
            ""@,
        ),
{
    let parts: Vec<ParamRule> = Vec::new();
    let table = vec![("ids", ParamRule::Required("id")), ("br", ParamRule::OrDefault("br", "999000"))];
    proof {
        assert(part_sources(parts@) =~= Seq::empty());
        assert(table_sources(table@) =~= seq![("ids"@, Source::Required("id"@)), ("br"@, Source::OrDefault("br"@, "999000"@))]);
    }
    call_endpoint(&options, "https://music.163.com/weapi/song/enhance/player/url", parts, CryptoScheme::WeApi, table, "", "")
}

/// The endpoint served at `/comment/album`.
pub fn index_comment_album(options: Options) -> (r: Result<FormatParams, RequestError>)
    ensures
        endpoint_call(
            r,
            str_pairs(options.params@),
            options.cookie@,
            "https://music.163.com/weapi/v1/resource/comments/R_AL_3_"@,
            seq![Source::Required("id"@)],
            CryptoScheme::WeApi,
            seq![("rid"@, Source::Required("id"@)), ("limit"@, Source::OrDefault("limit"@, "20"@)), ("offset"@, Source::OrDefault("offset"@, "0"@)), ("beforeTime"@, Source::OrDefault("before"@, "0"@))],
            ""@,
            ""@,
        ),
{
    let parts = vec![ParamRule::Required("id")];
    let table = vec![("rid", ParamRule::Required("id")), ("limit", ParamRule::OrDefault("limit", "20")), ("offset", ParamRule::OrDefault("offset", "0")), ("beforeTime", ParamRule::OrDefault("before", "0"))];
    proof {
        assert(part_sources(parts@) =~= seq![Source::Required("id"@)]);
        assert(table_sources(table@) =~= seq![("rid"@, Source::Required("id"@)), ("limit"@, Source::OrDefault("limit"@, "20"@)), ("offset"@, Source::OrDefault("offset"@, "0"@)), ("beforeTime"@, Source::OrDefault("before"@, "0"@))]);
    }
    call_endpoint(&options, "https://music.163.com/weapi/v1/resource/comments/R_AL_3_", parts, CryptoScheme::WeApi, table, "", "")
}

/// The endpoint served at `/comment/dj`.
pub fn index_comment_dj(options: Options) -> (r: Result<FormatParams, RequestError>)
    ensures
        endpoint_call(
            r,
            str_pairs(options.params@),
            options.cookie@,
            "https://music.163.com/weapi/v1/resource/comments/A_DJ_1_"@,
            seq![Source::Required("id"@)],
            CryptoScheme::WeApi,
            seq![("rid"@, Source::Required("id"@)), ("limit"@, Source::OrDefault("limit"@, "20"@)), ("offset"@, Source::OrDefault("offset"@, "0"@)), ("beforeTime"@, Source::OrDefault("before"@, "0"@))],
            ""@,
            ""@,
        ),
{
    let parts = vec![ParamRule::Required("id")];
    let table = vec![("rid", ParamRule::Required("id")), ("limit", ParamRule::OrDefault("limit", "20")), ("offset", ParamRule::OrDefault("offset", "0")), ("beforeTime", ParamRule::OrDefault("before", "0"))];
    proof {
        assert(part_sources(parts@) =~= seq![Source::Required("id"@)]);
        assert(table_sources(table@) =~= seq![("rid"@, Source::Required("id"@)), ("limit"@, Source::OrDefault("limit"@, "20"@)), ("offset"@, Source::OrDefault("offset"@, "0"@)), ("beforeTime"@, Source::OrDefault("before"@, "0"@))]);
    }
    call_endpoint(&options, "https://music.163.com/weapi/v1/resource/comments/A_DJ_1_", parts, CryptoScheme::WeApi, table, "", "")
}

/// The endpoint served at `/comment/event`.
pub fn index_comment_event(options: Options) -> (r: Result<FormatParams, RequestError>)
    ensures
        endpoint_call(
            r,
            str_pairs(options.params@),
            options.cookie@,
            "https://music.163.com/weapi/v1/resource/comments/"@,
            seq![Source::Required("threadId"@)],
            CryptoScheme::WeApi,
            seq![("limit"@, Source::OrDefault("limit"@, "20"@)), ("offset"@, Source::OrDefault("offset"@, "0"@)), ("beforeTime"@, Source::OrDefault("before"@, "0"@))],
            ""@,
            ""@,
        ),
{
    let parts = vec![ParamRule::Required("threadId")];
    let table = vec![("limit", ParamRule::OrDefault("limit", "20")), ("offset", ParamRule::OrDefault("offset", "0")), ("beforeTime", ParamRule::OrDefault("before", "0"))];
    proof {
        assert(part_sources(parts@) =~= seq![Source::Required("threadId"@)]);
        assert(table_sources(table@) =~= seq![("limit"@, Source::OrDefault("limit"@, "20"@)), ("offset"@, Source::OrDefault("offset"@, "0"@)), ("beforeTime"@, Source::OrDefault("before"@, "0"@))]);
    }
    call_endpoint(&options, "https://music.163.com/weapi/v1/resource/comments/", parts, CryptoScheme::WeApi, table, "", "")
}

/// The endpoint served at `/comment/music`.
pub fn index_comment_music(options: Options) -> (r: Result<FormatParams, RequestError>)
    ensures
        endpoint_call(
            r,
            str_pairs(options.params@),
            options.cookie@,
            "https://music.163.com/api/v1/resource/comments/R_SO_4_"@,
            seq![Source::Required("id"@)],
            CryptoScheme::WeApi,
            seq![("rid"@, Source::Required("id"@)), ("limit"@, Source::OrDefault("limit"@, "20"@)), ("offset"@, Source::OrDefault("offset"@, "0"@)), ("beforeTime"@, Source::OrDefault("before"@, "0"@))],
            ""@,
            ""@,
        ),
{
    let parts = vec![ParamRule::Required("id")];
    let table = vec![("rid", ParamRule::Required("id")), ("limit", ParamRule::OrDefault("limit", "20")), ("offset", ParamRule::OrDefault("offset", "0")), ("beforeTime", ParamRule::OrDefault("before", "0"))];
    proof {
        assert(part_sources(parts@) =~= seq![Source::Required("id"@)]);
        assert(table_sources(table@) =~= seq![("rid"@, Source::Required("id"@)), ("limit"@, Source::OrDefault("limit"@, "20"@)), ("offset"@, Source::OrDefault("offset"@, "0"@)), ("beforeTime"@, Source::OrDefault("before"@, "0"@))]);
    }
    call_endpoint(&options, "https://music.163.com/api/v1/resource/comments/R_SO_4_", parts, CryptoScheme::WeApi, table, "", "")
}

/// The endpoint served at `/comment/mv`.
pub fn index_comment_mv(options: Options) -> (r: Result<FormatParams, RequestError>)
    ensures
        endpoint_call(
            r,
            str_pairs(options.params@),
            options.cookie@,
            "https://music.163.com/weapi/v1/resource/comments/R_MV_5_"@,
            seq![Source::Required("id"@)],
            CryptoScheme::WeApi,
            seq![("rid"@, Source::Required("id"@)), ("limit"@, Source::OrDefault("limit"@, "20"@)), ("offset"@, Source::OrDefault("offset"@, "0"@)), ("beforeTime"@, Source::OrDefault("before"@, "0"@))],
            ""@,
            ""@,
        ),
{
    let parts = vec![ParamRule::Required("id")];
    let table = vec![("rid", ParamRule::Required("id")), ("limit", ParamRule::OrDefault("limit", "20")), ("offset", ParamRule::OrDefault("offset", "0")), ("beforeTime", ParamRule::OrDefault("before", "0"))];
    proof {
        assert(part_sources(parts@) =~= seq![Source::Required("id"@)]);
        assert(table_sources(table@) =~= seq![("rid"@, Source::Required("id"@)), ("limit"@, Source::OrDefault("limit"@, "20"@)), ("offset"@, Source::OrDefault("offset"@, "0"@)), ("beforeTime"@, Source::OrDefault("before"@, "0"@))]);
    }
    call_endpoint(&options, "https://music.163.com/weapi/v1/resource/comments/R_MV_5_", parts, CryptoScheme::WeApi, table, "", "")
}

/// The endpoint served at `/comment/playlist`.
pub fn index_comment_playlist(options: Options) -> (r: Result<FormatParams, RequestError>)
    ensures
        endpoint_call(
            r,
            str_pairs(options.params@),
            options.cookie@,
            "https://music.163.com/weapi/v1/resource/comments/A_PL_0_"@,
            seq![Source::Required("id"@)],
            CryptoScheme::WeApi,
            seq![("rid"@, Source::Required("id"@)), ("limit"@, Source::OrDefault("limit"@, "20"@)), ("offset"@, Source::OrDefault("offset"@, "0"@)), ("beforeTime"@, Source::OrDefault("before"@, "0"@))],
            ""@,
            ""@,
        ),
{
    let parts = vec![ParamRule::Required("id")];
    let table = vec![("rid", ParamRule::Required("id")), ("limit", ParamRule::OrDefault("limit", "20")), ("offset", ParamRule::OrDefault("offset", "0")), ("beforeTime", ParamRule::OrDefault("before", "0"))];
    proof {
        assert(part_sources(parts@) =~= seq![Source::Required("id"@)]);
        assert(table_sources(table@) =~= seq![("rid"@, Source::Required("id"@)), ("limit"@, Source::OrDefault("limit"@, "20"@)), ("offset"@, Source::OrDefault("offset"@, "0"@)), ("beforeTime"@, Source::OrDefault("before"@, "0"@))]);
    }
    call_endpoint(&options, "https://music.163.com/weapi/v1/resource/comments/A_PL_0_", parts, CryptoScheme::WeApi, table, "", "")
}

/// The endpoint served at `/daily_signin`.
pub fn index_daily_sigin(options: Options) -> (r: Result<FormatParams, RequestError>)
    ensures
        endpoint_call(
            r,
            str_pairs(options.params@),
            options.cookie@,
            "https://music.163.com/weapi/point/dailyTask"@,
            Seq::empty(),
            CryptoScheme::WeApi,
            seq![("type"@, Source::OrDefault("type"@, "0"@))],
            ""@,
            ""@,
        ),
{
    let parts: Vec<ParamRule> = Vec::new();
    let table = vec![("type", ParamRule::OrDefault("type", "0"))];
    proof {
        assert(part_sources(parts@) =~= Seq::empty());
        assert(table_sources(table@) =~= seq![("type"@, Source::OrDefault("type"@, "0"@))]);
    }
    call_endpoint(&options, "https://music.163.com/weapi/point/dailyTask", parts, CryptoScheme::WeApi, table, "", "")
}

/// The endpoint served at `/digitalAlbum/purchased`.
pub fn index_digitalAlbum_purchased(options: Options) -> (r: Result<FormatParams, RequestError>)
    ensures
        endpoint_call(
            r,
            str_pairs(options.params@),
            options.cookie@,
            "https://music.163.com/api/digitalAlbum/purchased"@,
            Seq::empty(),
            CryptoScheme::WeApi,
            seq![("limit"@, Source::OrDefault("limit"@, "30"@)), ("offset"@, Source::OrDefault("offset"@, "0"@)), ("total"@, Source::Fixed("true"@))],
            ""@,
            ""@,
        ),
{
    let parts: Vec<ParamRule> = Vec::new();
    let table = vec![("limit", ParamRule::OrDefault("limit", "30")), ("offset", ParamRule::OrDefault("offset", "0")), ("total", ParamRule::Fixed("true"))];
    proof {
        assert(part_sources(parts@) =~= Seq::empty());
        assert(table_sources(table@) =~= seq![("limit"@, Source::OrDefault("limit"@, "30"@)), ("offset"@, Source::OrDefault("offset"@, "0"@)), ("total"@, Source::Fixed("true"@))]);
    }
    call_endpoint(&options, "https://music.163.com/api/digitalAlbum/purchased", parts, CryptoScheme::WeApi, table, "", "")
}

/// The endpoint served at `/dj/detail`.
pub fn index_dj_detail(options: Options) -> (r: Result<FormatParams, RequestError>)
    ensures
        endpoint_call(
            r,
            str_pairs(options.params@),
            options.cookie@,
            "https://music.163.com/weapi/djradio/get"@,
            Seq::empty(),
            CryptoScheme::WeApi,
            seq![("id"@, Source::Required("rid"@))],
            ""@,
            ""@,
        ),
{
    let parts: Vec<ParamRule> = Vec::new();
    let table = vec![("id", ParamRule::Required("rid"))];
    proof {
        assert(part_sources(parts@) =~= Seq::empty());
        assert(table_sources(table@) =~= seq![("id"@, Source::Required("rid"@))]);
    }
    call_endpoint(&options, "https://music.163.com/weapi/djradio/get", parts, CryptoScheme::WeApi, table, "", "")
}

/// The endpoint served at `/dj/hot`.
pub fn index_dj_hot(options: Options) -> (r: Result<FormatParams, RequestError>)
    ensures
        endpoint_call(
            r,
            str_pairs(options.params@),
            options.cookie@,
            "https://music.163.com/weapi/djradio/hot/v1"@,
            Seq::empty(),
            CryptoScheme::WeApi,
            seq![("limit"@, Source::OrDefault("limit"@, "30"@)), ("offset"@, Source::OrDefault("offset"@, "0"@))],
            ""@,
            ""@,
        ),
{
    let parts: Vec<ParamRule> = Vec::new();
    let table = vec![("limit", ParamRule::OrDefault("limit", "30")), ("offset", ParamRule::OrDefault("offset", "0"))];
    proof {
        assert(part_sources(parts@) =~= Seq::empty());
        assert(table_sources(table@) =~= seq![("limit"@, Source::OrDefault("limit"@, "30"@)), ("offset"@, Source::OrDefault("offset"@, "0"@))]);
    }
    call_endpoint(&options, "https://music.163.com/weapi/djradio/hot/v1", parts, CryptoScheme::WeApi, table, "", "")
}

/// The endpoint served at `/dj/paygift`.
pub fn index_dj_paygift(options: Options) -> (r: Result<FormatParams, RequestError>)
    ensures
        endpoint_call(
            r,
            str_pairs(options.params@),
            options.cookie@,
            "https://music.163.com/weapi/djradio/home/paygift/list?_nmclfl=1"@,
            Seq::empty(),
            CryptoScheme::WeApi,
            seq![("limit"@, Source::OrDefault("limit"@, "30"@)), ("offset"@, Source::OrDefault("offset"@, "0"@))],
            ""@,
            ""@,
        ),
{
    let parts: Vec<ParamRule> = Vec::new();
    let table = vec![("limit", ParamRule::OrDefault("limit", "30")), ("offset", ParamRule::OrDefault("offset", "0"))];
    proof {
        assert(part_sources(parts@) =~= Seq::empty());
        assert(table_sources(table@) =~= seq![("limit"@, Source::OrDefault("limit"@, "30"@)), ("offset"@, Source::OrDefault("offset"@, "0"@))]);
    }
    call_endpoint(&options, "https://music.163.com/weapi/djradio/home/paygift/list?_nmclfl=1", parts, CryptoScheme::WeApi, table, "", "")
}

/// The endpoint served at `/dj/program`.
pub fn index_dj_program(options: Options) -> (r: Result<FormatParams, RequestError>)
    ensures
        endpoint_call(
            r,
            str_pairs(options.params@),
            options.cookie@,
            "https://music.163.com/weapi/dj/program/byradio"@,
            Seq::empty(),
            CryptoScheme::WeApi,
            seq![("radioId"@, Source::Required("rid"@)), ("limit"@, Source::OrDefault("limit"@, "30"@)), ("offset"@, Source::OrDefault("offset"@, "0"@)), ("asc"@, Source::OrDefault("asc"@, "false"@))],
            ""@,
            ""@,
        ),
{
    let parts: Vec<ParamRule> = Vec::new();
    let table = vec![("radioId", ParamRule::Required("rid")), ("limit", ParamRule::OrDefault("limit", "30")), ("offset", ParamRule::OrDefault("offset", "0")), ("asc", ParamRule::OrDefault("asc", "false"))];
    proof {
        assert(part_sources(parts@) =~= Seq::empty());
        assert(table_sources(table@) =~= seq![("radioId"@, Source::Required("rid"@)), ("limit"@, Source::OrDefault("limit"@, "30"@)), ("offset"@, Source::OrDefault("offset"@, "0"@)), ("asc"@, Source::OrDefault("asc"@, "false"@))]);
    }
    call_endpoint(&options, "https://music.163.com/weapi/dj/program/byradio", parts, CryptoScheme::WeApi, table, "", "")
}

/// The endpoint served at `/dj/program/detail`.
pub fn index_dj_program_detail(options: Options) -> (r: Result<FormatParams, RequestError>)
    ensures
        endpoint_call(
            r,
            str_pairs(options.params@),
            options.cookie@,
            "https://music.163.com/weapi/dj/program/detail"@,
            Seq::empty(),
            CryptoScheme::WeApi,
            seq![("id"@, Source::Required("id"@))],
            ""@,
            ""@,
        ),
{
    let parts: Vec<ParamRule> = Vec::new();
    let table = vec![("id", ParamRule::Required("id"))];
    proof {
        assert(part_sources(parts@) =~= Seq::empty());
        assert(table_sources(table@) =~= seq![("id"@, Source::Required("id"@))]);
    }
    call_endpoint(&options, "https://music.163.com/weapi/dj/program/detail", parts, CryptoScheme::WeApi, table, "", "")
}

/// The endpoint served at `/dj/program/toplist`.
pub fn index_dj_program_toplist(options: Options) -> (r: Result<FormatParams, RequestError>)
    ensures
        endpoint_call(
            r,
            str_pairs(options.params@),
            options.cookie@,
            "https://music.163.com/api/program/toplist/v1"@,
            Seq::empty(),
            CryptoScheme::WeApi,
            seq![("limit"@, Source::OrDefault("limit"@, "100"@)), ("offset"@, Source::OrDefault("offset"@, "0"@))],
            ""@,
            ""@,
        ),
{
    let parts: Vec<ParamRule> = Vec::new();
    let table = vec![("limit", ParamRule::OrDefault("limit", "100")), ("offset", ParamRule::OrDefault("offset", "0"))];
    proof {
        assert(part_sources(parts@) =~= Seq::empty());
        assert(table_sources(table@) =~= seq![("limit"@, Source::OrDefault("limit"@, "100"@)), ("offset"@, Source::OrDefault("offset"@, "0"@))]);
    }
    call_endpoint(&options, "https://music.163.com/api/program/toplist/v1", parts, CryptoScheme::WeApi, table, "", "")
}

/// The endpoint served at `/dj/program/toplist/hours`.
pub fn index_dj_program_toplist_hours(options: Options) -> (r: Result<FormatParams, RequestError>)
    ensures
        endpoint_call(
            r,
            str_pairs(options.params@),
            options.cookie@,
            "https://music.163.com/api/djprogram/toplist/hours"@,
            Seq::empty(),
            CryptoScheme::WeApi,
            seq![("limit"@, Source::OrDefault("limit"@, "30"@))],
            ""@,
            ""@,
        ),
{
    let parts: Vec<ParamRule> = Vec::new();
    let table = vec![("limit", ParamRule::OrDefault("limit", "30"))];
    proof {
        assert(part_sources(parts@) =~= Seq::empty());
        assert(table_sources(table@) =~= seq![("limit"@, Source::OrDefault("limit"@, "30"@))]);
    }
    call_endpoint(&options, "https://music.163.com/api/djprogram/toplist/hours", parts, CryptoScheme::WeApi, table, "", "")
}

/// The endpoint served at `/dj/radio/hot`.
pub fn index_dj_radio_hot(options: Options) -> (r: Result<FormatParams, RequestError>)
    ensures
        endpoint_call(
            r,
            str_pairs(options.params@),
            options.cookie@,
            "https://music.163.com/api/djradio/hot"@,
            Seq::empty(),
            CryptoScheme::WeApi,
            seq![("cateId"@, Source::Required("cateId"@)), ("limit"@, Source::OrDefault("limit"@, "30"@)), ("offset"@, Source::OrDefault("offset"@, "0"@))],
            ""@,
            ""@,
        ),
{
    let parts: Vec<ParamRule> = Vec::new();
    let table = vec![("cateId", ParamRule::Required("cateId")), ("limit", ParamRule::OrDefault("limit", "30")), ("offset", ParamRule::OrDefault("offset", "0"))];
    proof {
        assert(part_sources(parts@) =~= Seq::empty());
        assert(table_sources(table@) =~= seq![("cateId"@, Source::Required("cateId"@)), ("limit"@, Source::OrDefault("limit"@, "30"@)), ("offset"@, Source::OrDefault("offset"@, "0"@))]);
    }
    call_endpoint(&options, "https://music.163.com/api/djradio/hot", parts, CryptoScheme::WeApi, table, "", "")
}

/// The endpoint served at `/dj/recommend/type`.
pub fn index_dj_recommend_type(options: Options) -> (r: Result<FormatParams, RequestError>)
    ensures
        endpoint_call(
            r,
            str_pairs(options.params@),
            options.cookie@,
            "https://music.163.com/weapi/djradio/recommend"@,
            Seq::empty(),
            CryptoScheme::WeApi,
            seq![("cateId"@, Source::Required("type"@))],
            ""@,
            ""@,
        ),
{
    let parts: Vec<ParamRule> = Vec::new();
    let table = vec![("cateId", ParamRule::Required("type"))];
    proof {
        assert(part_sources(parts@) =~= Seq::empty());
        assert(table_sources(table@) =~= seq![("cateId"@, Source::Required("type"@))]);
    }
    call_endpoint(&options, "https://music.163.com/weapi/djradio/recommend", parts, CryptoScheme::WeApi, table, "", "")
}

/// The endpoint served at `/dj/sub`.
pub fn index_dj_sub(options: Options) -> (r: Result<FormatParams, RequestError>)
    ensures
        endpoint_call(
            r,
            str_pairs(options.params@),
            options.cookie@,
            "https://music.163.com/weapi/djradio/"@,
            seq![Source::Choice("t"@, "0"@, "1"@, "sub"@, "unsub"@)],
            CryptoScheme::WeApi,
            seq![("id"@, Source::Required("rid"@))],
            ""@,
            ""@,
        ),
{
    let parts = vec![ParamRule::Choice("t", "0", "1", "sub", "unsub")];
    let table = vec![("id", ParamRule::Required("rid"))];
    proof {
        assert(part_sources(parts@) =~= seq![Source::Choice("t"@, "0"@, "1"@, "sub"@, "unsub"@)]);
        assert(table_sources(table@) =~= seq![("id"@, Source::Required("rid"@))]);
    }
    call_endpoint(&options, "https://music.163.com/weapi/djradio/", parts, CryptoScheme::WeApi, table, "", "")
}

/// The endpoint served at `/dj/sublist`.
pub fn index_dj_sublist(options: Options) -> (r: Result<FormatParams, RequestError>)
    ensures
        endpoint_call(
            r,
            str_pairs(options.params@),
            options.cookie@,
            "https://music.163.com/weapi/djradio/get/subed"@,
            Seq::empty(),
            CryptoScheme::WeApi,
            seq![("limit"@, Source::OrDefault("limit"@, "30"@)), ("offset"@, Source::OrDefault("offset"@, "0"@)), ("total"@, Source::Fixed("true"@))],
            ""@,
            ""@,
        ),
{
    let parts: Vec<ParamRule> = Vec::new();
    let table = vec![("limit", ParamRule::OrDefault("limit", "30")), ("offset", ParamRule::OrDefault("offset", "0")), ("total", ParamRule::Fixed("true"))];
    proof {
        assert(part_sources(parts@) =~= Seq::empty());
        assert(table_sources(table@) =~= seq![("limit"@, Source::OrDefault("limit"@, "30"@)), ("offset"@, Source::OrDefault("offset"@, "0"@)), ("total"@, Source::Fixed("true"@))]);
    }
    call_endpoint(&options, "https://music.163.com/weapi/djradio/get/subed", parts, CryptoScheme::WeApi, table, "", "")
}

/// The endpoint served at `/dj/today/perfered`.
pub fn index_dj_today_perfered(options: Options) -> (r: Result<FormatParams, RequestError>)
    ensures
        endpoint_call(
            r,
            str_pairs(options.params@),
            options.cookie@,
            "http://music.163.com/weapi/djradio/home/today/perfered"@,
            Seq::empty(),
            CryptoScheme::WeApi,
            seq![("page"@, Source::OrDefault("page"@, "0"@))],
            ""@,
            ""@,
        ),
{
    let parts: Vec<ParamRule> = Vec::new();
    let table = vec![("page", ParamRule::OrDefault("page", "0"))];
    proof {
        assert(part_sources(parts@) =~= Seq::empty());
        assert(table_sources(table@) =~= seq![("page"@, Source::OrDefault("page"@, "0"@))]);
    }
    call_endpoint(&options, "http://music.163.com/weapi/djradio/home/today/perfered", parts, CryptoScheme::WeApi, table, "", "")
}

/// The endpoint served at `/dj/toplist`.
pub fn index_dj_toplist(options: Options) -> (r: Result<FormatParams, RequestError>)
    ensures
        endpoint_call(
            r,
            str_pairs(options.params@),
            options.cookie@,
            "https://music.163.com/api/djradio/toplist"@,
            Seq::empty(),
            CryptoScheme::WeApi,
            seq![("limit"@, Source::OrDefault("limit"@, "0"@)), ("offset"@, Source::OrDefault("offset"@, "0"@)), ("type"@, Source::Choice("type"@, "new"@, "new"@, "0"@, "1"@))],
            ""@,
            ""@,
        ),
{
    let parts: Vec<ParamRule> = Vec::new();
    let table = vec![("limit", ParamRule::OrDefault("limit", "0")), ("offset", ParamRule::OrDefault("offset", "0")), ("type", ParamRule::Choice("type", "new", "new", "0", "1"))];
    proof {
        assert(part_sources(parts@) =~= Seq::empty());
        assert(table_sources(table@) =~= seq![("limit"@, Source::OrDefault("limit"@, "0"@)), ("offset"@, Source::OrDefault("offset"@, "0"@)), ("type"@, Source::Choice("type"@, "new"@, "new"@, "0"@, "1"@))]);
    }
    call_endpoint(&options, "https://music.163.com/api/djradio/toplist", parts, CryptoScheme::WeApi, table, "", "")
}

/// The endpoint served at `/dj/toplist/hours`.
pub fn index_dj_toplist_hours(options: Options) -> (r: Result<FormatParams, RequestError>)
    ensures
        endpoint_call(
            r,
            str_pairs(options.params@),
            options.cookie@,
            "https://music.163.com/api/dj/toplist/hours"@,
            Seq::empty(),
            CryptoScheme::WeApi,
            seq![("limit"@, Source::OrDefault("limit"@, "100"@))],
            ""@,
            ""@,
        ),
{
    let parts: Vec<ParamRule> = Vec::new();
    let table = vec![("limit", ParamRule::OrDefault("limit", "100"))];
    proof {
        assert(part_sources(parts@) =~= Seq::empty());
        assert(table_sources(table@) =~= seq![("limit"@, Source::OrDefault("limit"@, "100"@))]);
    }
    call_endpoint(&options, "https://music.163.com/api/dj/toplist/hours", parts, CryptoScheme::WeApi, table, "", "")
}

/// The endpoint served at `/dj/toplist/newcomer`.
pub fn index_dj_toplist_newcomer(options: Options) -> (r: Result<FormatParams, RequestError>)
    ensures
        endpoint_call(
            r,
            str_pairs(options.params@),
            options.cookie@,
            "https://music.163.com/api/dj/toplist/newcomer"@,
            Seq::empty(),
            CryptoScheme::WeApi,
            seq![("limit"@, Source::OrDefault("limit"@, "100"@)), ("offset"@, Source::OrDefault("offset"@, "0"@))],
            ""@,
            ""@,
        ),
{
    let parts: Vec<ParamRule> = Vec::new();
    let table = vec![("limit", ParamRule::OrDefault("limit", "100")), ("offset", ParamRule::OrDefault("offset", "0"))];
    proof {
        assert(part_sources(parts@) =~= Seq::empty());
        assert(table_sources(table@) =~= seq![("limit"@, Source::OrDefault("limit"@, "100"@)), ("offset"@, Source::OrDefault("offset"@, "0"@))]);
    }
    call_endpoint(&options, "https://music.163.com/api/dj/toplist/newcomer", parts, CryptoScheme::WeApi, table, "", "")
}

/// The endpoint served at `/dj/toplist/pay`.
pub fn index_dj_toplist_pay(options: Options) -> (r: Result<FormatParams, RequestError>)
    ensures
        endpoint_call(
            r,
            str_pairs(options.params@),
            options.cookie@,
            "https://music.163.com/api/djradio/toplist/pay"@,
            Seq::empty(),
            CryptoScheme::WeApi,
            seq![("limit"@, Source::OrDefault("limit"@, "100"@))],
            ""@,
            ""@,
        ),
{
    let parts: Vec<ParamRule> = Vec::new();
    let table = vec![("limit", ParamRule::OrDefault("limit", "100"))];
    proof {
        assert(part_sources(parts@) =~= Seq::empty());
        assert(table_sources(table@) =~= seq![("limit"@, Source::OrDefault("limit"@, "100"@))]);
    }
    call_endpoint(&options, "https://music.163.com/api/djradio/toplist/pay", parts, CryptoScheme::WeApi, table, "", "")
}

/// The endpoint served at `/dj/toplist/popular`.
pub fn index_dj_toplist_popular(options: Options) -> (r: Result<FormatParams, RequestError>)
    ensures
        endpoint_call(
            r,
            str_pairs(options.params@),
            options.cookie@,
            "https://music.163.com/api/dj/toplist/popular"@,
            Seq::empty(),
            CryptoScheme::WeApi,
            seq![("limit"@, Source::OrDefault("limit"@, "100"@))],
            ""@,
            ""@,
        ),
{
    let parts: Vec<ParamRule> = Vec::new();
    let table = vec![("limit", ParamRule::OrDefault("limit", "100"))];
    proof {
        assert(part_sources(parts@) =~= Seq::empty());
        assert(table_sources(table@) =~= seq![("limit"@, Source::OrDefault("limit"@, "100"@))]);
    }
    call_endpoint(&options, "https://music.163.com/api/dj/toplist/popular", parts, CryptoScheme::WeApi, table, "", "")
}

/// The endpoint served at `/event`.
pub fn index_event(options: Options) -> (r: Result<FormatParams, RequestError>)
    ensures
        endpoint_call(
            r,
            str_pairs(options.params@),
            options.cookie@,
            "https://music.163.com/weapi/v1/event/get"@,
            Seq::empty(),
            CryptoScheme::WeApi,
            seq![("pagesize"@, Source::OrDefault("pagesize"@, "20"@)), ("lasttime"@, Source::OrDefault("lasttime"@, "-1"@))],
            ""@,
            ""@,
        ),
{
    let parts: Vec<ParamRule> = Vec::new();
    let table = vec![("pagesize", ParamRule::OrDefault("pagesize", "20")), ("lasttime", ParamRule::OrDefault("lasttime", "-1"))];
    proof {
        assert(part_sources(parts@) =~= Seq::empty());
        assert(table_sources(table@) =~= seq![("pagesize"@, Source::OrDefault("pagesize"@, "20"@)), ("lasttime"@, Source::OrDefault("lasttime"@, "-1"@))]);
    }
    call_endpoint(&options, "https://music.163.com/weapi/v1/event/get", parts, CryptoScheme::WeApi, table, "", "")
}

/// The endpoint served at `/event/del`.
pub fn index_event_del(options: Options) -> (r: Result<FormatParams, RequestError>)
    ensures
        endpoint_call(
            r,
            str_pairs(options.params@),
            options.cookie@,
            "https://music.163.com/eapi/event/delete"@,
            Seq::empty(),
            CryptoScheme::WeApi,
            seq![("id"@, Source::Required("evId"@))],
            ""@,
            ""@,
        ),
{
    let parts: Vec<ParamRule> = Vec::new();
    let table = vec![("id", ParamRule::Required("evId"))];
    proof {
        assert(part_sources(parts@) =~= Seq::empty());
        assert(table_sources(table@) =~= seq![("id"@, Source::Required("evId"@))]);
    }
    call_endpoint(&options, "https://music.163.com/eapi/event/delete", parts, CryptoScheme::WeApi, table, "", "")
}

/// The endpoint served at `/event/forward`.
pub fn index_event_forward(options: Options) -> (r: Result<FormatParams, RequestError>)
    ensures
        endpoint_call(
            r,
            str_pairs(options.params@),
            options.cookie@,
            "https://music.163.com/weapi/event/forward"@,
            Seq::empty(),
            CryptoScheme::WeApi,
            seq![("id"@, Source::Required("evId"@)), ("forwards"@, Source::Required("forwards"@)), ("eventUserId"@, Source::Required("uid"@))],
            ""@,
            ""@,
        ),
{
    let parts: Vec<ParamRule> = Vec::new();
    let table = vec![("id", ParamRule::Required("evId")), ("forwards", ParamRule::Required("forwards")), ("eventUserId", ParamRule::Required("uid"))];
    proof {
        assert(part_sources(parts@) =~= Seq::empty());
        assert(table_sources(table@) =~= seq![("id"@, Source::Required("evId"@)), ("forwards"@, Source::Required("forwards"@)), ("eventUserId"@, Source::Required("uid"@))]);
    }
    call_endpoint(&options, "https://music.163.com/weapi/event/forward", parts, CryptoScheme::WeApi, table, "", "")
}

/// The endpoint served at `/fm/trash`.
pub fn index_fm_trash(options: Options) -> (r: Result<FormatParams, RequestError>)
    ensures
        endpoint_call(
            r,
            str_pairs(options.params@),
            options.cookie@,
            "https://music.163.com/weapi/radio/trash/add?alg=RT&songId="@,
            seq![Source::Required("id"@), Source::Fixed("&time="@), Source::OrDefault("time"@, "25"@)],
            CryptoScheme::WeApi,
            seq![("songId"@, Source::Required("id"@))],
            ""@,
            ""@,
        ),
{
    let parts = vec![ParamRule::Required("id"), ParamRule::Fixed("&time="), ParamRule::OrDefault("time", "25")];
    let table = vec![("songId", ParamRule::Required("id"))];
    proof {
        assert(part_sources(parts@) =~= seq![Source::Required("id"@), Source::Fixed("&time="@), Source::OrDefault("time"@, "25"@)]);
        assert(table_sources(table@) =~= seq![("songId"@, Source::Required("id"@))]);
    }
    call_endpoint(&options, "https://music.163.com/weapi/radio/trash/add?alg=RT&songId=", parts, CryptoScheme::WeApi, table, "", "")
}

/// The endpoint served at `/follow`.
pub fn index_follow(options: Options) -> (r: Result<FormatParams, RequestError>)
    ensures
        endpoint_call(
            r,
            str_pairs(options.params@),
            options.cookie@,
            "https://music.163.com/weapi/user/"@,
            seq![Source::Choice("t"@, "0"@, "1"@, "follow"@, "delfollow"@), Source::Fixed("/"@), Source::Required("id"@)],
            CryptoScheme::WeApi,
            Seq::empty(),
            ";os=pc;"@,
            ""@,
        ),
{
    let parts = vec![ParamRule::Choice("t", "0", "1", "follow", "delfollow"), ParamRule::Fixed("/"), ParamRule::Required("id")];
    let table: Vec<(&'static str, ParamRule)> = Vec::new();
    proof {
        assert(part_sources(parts@) =~= seq![Source::Choice("t"@, "0"@, "1"@, "follow"@, "delfollow"@), Source::Fixed("/"@), Source::Required("id"@)]);
        assert(table_sources(table@) =~= Seq::empty());
    }
    call_endpoint(&options, "https://music.163.com/weapi/user/", parts, CryptoScheme::WeApi, table, ";os=pc;", "")
}

/// The endpoint served at `/hot/topic`.
pub fn index_hot_topic(options: Options) -> (r: Result<FormatParams, RequestError>)
    ensures
        endpoint_call(
            r,
            str_pairs(options.params@),
            options.cookie@,
            "http://music.163.com/weapi/act/hot"@,
            Seq::empty(),
            CryptoScheme::WeApi,
            seq![("limit"@, Source::OrDefault("limit"@, "20"@)), ("offset"@, Source::OrDefault("offset"@, "0"@))],
            ""@,
            ""@,
        ),
{
    let parts: Vec<ParamRule> = Vec::new();
    let table = vec![("limit", ParamRule::OrDefault("limit", "20")), ("offset", ParamRule::OrDefault("offset", "0"))];
    proof {
        assert(part_sources(parts@) =~= Seq::empty());
        assert(table_sources(table@) =~= seq![("limit"@, Source::OrDefault("limit"@, "20"@)), ("offset"@, Source::OrDefault("offset"@, "0"@))]);
    }
    call_endpoint(&options, "http://music.163.com/weapi/act/hot", parts, CryptoScheme::WeApi, table, "", "")
}

/// The endpoint served at `/like`.
pub fn index_like(options: Options) -> (r: Result<FormatParams, RequestError>)
    ensures
        endpoint_call(
            r,
            str_pairs(options.params@),
            options.cookie@,
            "https://music.163.com/weapi/radio/like?alg="@,
            seq![Source::OrDefault("alg"@, "itembased"@), Source::Fixed("&trackId="@), Source::Required("id"@), Source::Fixed("&time="@), Source::OrDefault("time"@, "25"@)],
            CryptoScheme::WeApi,
            seq![("trackId"@, Source::Required("id"@)), ("like"@, Source::OrDefault("like"@, "false"@))],
            ""@,
            ""@,
        ),
{
    let parts = vec![ParamRule::OrDefault("alg", "itembased"), ParamRule::Fixed("&trackId="), ParamRule::Required("id"), ParamRule::Fixed("&time="), ParamRule::OrDefault("time", "25")];
    let table = vec![("trackId", ParamRule::Required("id")), ("like", ParamRule::OrDefault("like", "false"))];
    proof {
        assert(part_sources(parts@) =~= seq![Source::OrDefault("alg"@, "itembased"@), Source::Fixed("&trackId="@), Source::Required("id"@), Source::Fixed("&time="@), Source::OrDefault("time"@, "25"@)]);
        assert(table_sources(table@) =~= seq![("trackId"@, Source::Required("id"@)), ("like"@, Source::OrDefault("like"@, "false"@))]);
    }
    call_endpoint(&options, "https://music.163.com/weapi/radio/like?alg=", parts, CryptoScheme::WeApi, table, "", "")
}

/// The endpoint served at `/likelist`.
pub fn index_likelist(options: Options) -> (r: Result<FormatParams, RequestError>)
    ensures
        endpoint_call(
            r,
            str_pairs(options.params@),
            options.cookie@,
            "https://music.163.com/weapi/song/like/get"@,
            Seq::empty(),
            CryptoScheme::WeApi,
            seq![("uid"@, Source::Required("uid"@))],
            ""@,
            ""@,
        ),
{
    let parts: Vec<ParamRule> = Vec::new();
    let table = vec![("uid", ParamRule::Required("uid"))];
    proof {
        assert(part_sources(parts@) =~= Seq::empty());
        assert(table_sources(table@) =~= seq![("uid"@, Source::Required("uid"@))]);
    }
    call_endpoint(&options, "https://music.163.com/weapi/song/like/get", parts, CryptoScheme::WeApi, table, "", "")
}

/// The endpoint served at `/login/qr/check`.
pub fn index_login_qr_check(options: Options) -> (r: Result<FormatParams, RequestError>)
    ensures
        endpoint_call(
            r,
            str_pairs(options.params@),
            options.cookie@,
            "https://music.163.com/weapi/login/qrcode/client/login"@,
            Seq::empty(),
            CryptoScheme::WeApi,
            seq![("type"@, Source::Fixed("1"@)), ("key"@, Source::Required("key"@))],
            ""@,
            ""@,
        ),
{
    let parts: Vec<ParamRule> = Vec::new();
    let table = vec![("type", ParamRule::Fixed("1")), ("key", ParamRule::Required("key"))];
    proof {
        assert(part_sources(parts@) =~= Seq::empty());
        assert(table_sources(table@) =~= seq![("type"@, Source::Fixed("1"@)), ("key"@, Source::Required("key"@))]);
    }
    call_endpoint(&options, "https://music.163.com/weapi/login/qrcode/client/login", parts, CryptoScheme::WeApi, table, "", "")
}

/// The endpoint served at `/login/qr/create`.
pub fn index_login_qr_create(options: Options) -> (r: Result<FormatParams, RequestError>)
    ensures
        endpoint_call(
            r,
            str_pairs(options.params@),
            options.cookie@,
            "https://music.163.com/login?codekey="@,
            seq![Source::Required("key"@)],
            CryptoScheme::WeApi,
            Seq::empty(),
            ""@,
            ""@,
        ),
{
    let parts = vec![ParamRule::Required("key")];
    let table: Vec<(&'static str, ParamRule)> = Vec::new();
    proof {
        assert(part_sources(parts@) =~= seq![Source::Required("key"@)]);
        assert(table_sources(table@) =~= Seq::empty());
    }
    call_endpoint(&options, "https://music.163.com/login?codekey=", parts, CryptoScheme::WeApi, table, "", "")
}

/// The endpoint served at `/lyric`.
pub fn index_lyric(options: Options) -> (r: Result<FormatParams, RequestError>)
    ensures
        endpoint_call(
            r,
            str_pairs(options.params@),
            options.cookie@,
            "https://music.163.com/weapi/song/lyric?lv=-1&kv=-1&tv=-1"@,
            Seq::empty(),
            CryptoScheme::LinuxApi,
            seq![("id"@, Source::Required("id"@))],
            ""@,
            ""@,
        ),
{
    let parts: Vec<ParamRule> = Vec::new();
    let table = vec![("id", ParamRule::Required("id"))];
    proof {
        assert(part_sources(parts@) =~= Seq::empty());
        assert(table_sources(table@) =~= seq![("id"@, Source::Required("id"@))]);
    }
    call_endpoint(&options, "https://music.163.com/weapi/song/lyric?lv=-1&kv=-1&tv=-1", parts, CryptoScheme::LinuxApi, table, "", "")
}

/// The endpoint served at `/msg/comments`.
pub fn index_msg_comments(options: Options) -> (r: Result<FormatParams, RequestError>)
    ensures
        endpoint_call(
            r,
            str_pairs(options.params@),
            options.cookie@,
            "https://music.163.com/api/v1/user/comments/"@,
            seq![Source::Required("uid"@)],
            CryptoScheme::WeApi,
            seq![("beforeTime"@, Source::OrDefault("before"@, "-1"@)), ("limit"@, Source::OrDefault("limit"@, "30"@)), ("total"@, Source::Fixed("true"@)), ("uid"@, Source::Required("uid"@))],
            ""@,
            ""@,
        ),
{
    let parts = vec![ParamRule::Required("uid")];
    let table = vec![("beforeTime", ParamRule::OrDefault("before", "-1")), ("limit", ParamRule::OrDefault("limit", "30")), ("total", ParamRule::Fixed("true")), ("uid", ParamRule::Required("uid"))];
    proof {
        assert(part_sources(parts@) =~= seq![Source::Required("uid"@)]);
        assert(table_sources(table@) =~= seq![("beforeTime"@, Source::OrDefault("before"@, "-1"@)), ("limit"@, Source::OrDefault("limit"@, "30"@)), ("total"@, Source::Fixed("true"@)), ("uid"@, Source::Required("uid"@))]);
    }
    call_endpoint(&options, "https://music.163.com/api/v1/user/comments/", parts, CryptoScheme::WeApi, table, "", "")
}

/// The endpoint served at `/msg/forwards`.
pub fn index_msg_forwards(options: Options) -> (r: Result<FormatParams, RequestError>)
    ensures
        endpoint_call(
            r,
            str_pairs(options.params@),
            options.cookie@,
            "https://music.163.com/api/forwards/get"@,
            Seq::empty(),
            CryptoScheme::WeApi,
            seq![("offset"@, Source::OrDefault("offset"@, "0"@)), ("limit"@, Source::OrDefault("limit"@, "30"@)), ("total"@, Source::Fixed("true"@))],
            ""@,
            ""@,
        ),
{
    let parts: Vec<ParamRule> = Vec::new();
    let table = vec![("offset", ParamRule::OrDefault("offset", "0")), ("limit", ParamRule::OrDefault("limit", "30")), ("total", ParamRule::Fixed("true"))];
    proof {
        assert(part_sources(parts@) =~= Seq::empty());
        assert(table_sources(table@) =~= seq![("offset"@, Source::OrDefault("offset"@, "0"@)), ("limit"@, Source::OrDefault("limit"@, "30"@)), ("total"@, Source::Fixed("true"@))]);
    }
    call_endpoint(&options, "https://music.163.com/api/forwards/get", parts, CryptoScheme::WeApi, table, "", "")
}

/// The endpoint served at `/msg/notices`.
pub fn index_msg_notices(options: Options) -> (r: Result<FormatParams, RequestError>)
    ensures
        endpoint_call(
            r,
            str_pairs(options.params@),
            options.cookie@,
            "https://music.163.com/api/msg/notices"@,
            Seq::empty(),
            CryptoScheme::WeApi,
            seq![("offset"@, Source::OrDefault("offset"@, "0"@)), ("limit"@, Source::OrDefault("limit"@, "30"@)), ("total"@, Source::Fixed("true"@))],
            ""@,
            ""@,
        ),
{
    let parts: Vec<ParamRule> = Vec::new();
    let table = vec![("offset", ParamRule::OrDefault("offset", "0")), ("limit", ParamRule::OrDefault("limit", "30")), ("total", ParamRule::Fixed("true"))];
    proof {
        assert(part_sources(parts@) =~= Seq::empty());
        assert(table_sources(table@) =~= seq![("offset"@, Source::OrDefault("offset"@, "0"@)), ("limit"@, Source::OrDefault("limit"@, "30"@)), ("total"@, Source::Fixed("true"@))]);
    }
    call_endpoint(&options, "https://music.163.com/api/msg/notices", parts, CryptoScheme::WeApi, table, "", "")
}

/// The endpoint served at `/msg/private`.
pub fn index_msg_private(options: Options) -> (r: Result<FormatParams, RequestError>)
    ensures
        endpoint_call(
            r,
            str_pairs(options.params@),
            options.cookie@,
            "https://music.163.com/api/msg/private/users"@,
            Seq::empty(),
            CryptoScheme::WeApi,
            seq![("offset"@, Source::OrDefault("offset"@, "0"@)), ("limit"@, Source::OrDefault("limit"@, "30"@)), ("total"@, Source::Fixed("true"@))],
            ""@,
            ""@,
        ),
{
    let parts: Vec<ParamRule> = Vec::new();
    let table = vec![("offset", ParamRule::OrDefault("offset", "0")), ("limit", ParamRule::OrDefault("limit", "30")), ("total", ParamRule::Fixed("true"))];
    proof {
        assert(part_sources(parts@) =~= Seq::empty());
        assert(table_sources(table@) =~= seq![("offset"@, Source::OrDefault("offset"@, "0"@)), ("limit"@, Source::OrDefault("limit"@, "30"@)), ("total"@, Source::Fixed("true"@))]);
    }
    call_endpoint(&options, "https://music.163.com/api/msg/private/users", parts, CryptoScheme::WeApi, table, "", "")
}

/// The endpoint served at `/msg/private/history`.
pub fn index_msg_private_history(options: Options) -> (r: Result<FormatParams, RequestError>)
    ensures
        endpoint_call(
            r,
            str_pairs(options.params@),
            options.cookie@,
            "https://music.163.com/api/msg/private/history"@,
            Seq::empty(),
            CryptoScheme::WeApi,
            seq![("userId"@, Source::Required("uid"@)), ("limit"@, Source::OrDefault("limit"@, "30"@)), ("time"@, Source::OrDefault("before"@, "0"@)), ("total"@, Source::Fixed("true"@))],
            ""@,
            ""@,
        ),
{
    let parts: Vec<ParamRule> = Vec::new();
    let table = vec![("userId", ParamRule::Required("uid")), ("limit", ParamRule::OrDefault("limit", "30")), ("time", ParamRule::OrDefault("before", "0")), ("total", ParamRule::Fixed("true"))];
    proof {
        assert(part_sources(parts@) =~= Seq::empty());
        assert(table_sources(table@) =~= seq![("userId"@, Source::Required("uid"@)), ("limit"@, Source::OrDefault("limit"@, "30"@)), ("time"@, Source::OrDefault("before"@, "0"@)), ("total"@, Source::Fixed("true"@))]);
    }
    call_endpoint(&options, "https://music.163.com/api/msg/private/history", parts, CryptoScheme::WeApi, table, "", "")
}

/// The endpoint served at `/mv/detail`.
pub fn index_mv_detail(options: Options) -> (r: Result<FormatParams, RequestError>)
    ensures
        endpoint_call(
            r,
            str_pairs(options.params@),
            options.cookie@,
            "https://music.163.com/weapi/mv/detail"@,
            Seq::empty(),
            CryptoScheme::WeApi,
            seq![("id"@, Source::Required("mvid"@))],
            ""@,
            ""@,
        ),
{
    let parts: Vec<ParamRule> = Vec::new();
    let table = vec![("id", ParamRule::Required("mvid"))];
    proof {
        assert(part_sources(parts@) =~= Seq::empty());
        assert(table_sources(table@) =~= seq![("id"@, Source::Required("mvid"@))]);
    }
    call_endpoint(&options, "https://music.163.com/weapi/mv/detail", parts, CryptoScheme::WeApi, table, "", "")
}

/// The endpoint served at `/mv/exclusive/rcmd`.
pub fn index_mv_exclusive_rcmd(options: Options) -> (r: Result<FormatParams, RequestError>)
    ensures
        endpoint_call(
            r,
            str_pairs(options.params@),
            options.cookie@,
            "https://interface.music.163.com/api/mv/exclusive/rcmd"@,
            Seq::empty(),
            CryptoScheme::WeApi,
            seq![("offset"@, Source::OrDefault("offset"@, "0"@)), ("limit"@, Source::OrDefault("limit"@, "30"@))],
            ""@,
            ""@,
        ),
{
    let parts: Vec<ParamRule> = Vec::new();
    let table = vec![("offset", ParamRule::OrDefault("offset", "0")), ("limit", ParamRule::OrDefault("limit", "30"))];
    proof {
        assert(part_sources(parts@) =~= Seq::empty());
        assert(table_sources(table@) =~= seq![("offset"@, Source::OrDefault("offset"@, "0"@)), ("limit"@, Source::OrDefault("limit"@, "30"@))]);
    }
    call_endpoint(&options, "https://interface.music.163.com/api/mv/exclusive/rcmd", parts, CryptoScheme::WeApi, table, "", "")
}

/// The endpoint served at `/mv/first`.
pub fn index_mv_first(options: Options) -> (r: Result<FormatParams, RequestError>)
    ensures
        endpoint_call(
            r,
            str_pairs(options.params@),
            options.cookie@,
            "https://interface.music.163.com/weapi/mv/first"@,
            Seq::empty(),
            CryptoScheme::WeApi,
            seq![("area"@, Source::OrDefault("area"@, ""@)), ("limit"@, Source::OrDefault("limit"@, "30"@)), ("total"@, Source::Fixed("true"@))],
            ""@,
            ""@,
        ),
{
    let parts: Vec<ParamRule> = Vec::new();
    let table = vec![("area", ParamRule::OrDefault("area", "")), ("limit", ParamRule::OrDefault("limit", "30")), ("total", ParamRule::Fixed("true"))];
    proof {
        assert(part_sources(parts@) =~= Seq::empty());
        assert(table_sources(table@) =~= seq![("area"@, Source::OrDefault("area"@, ""@)), ("limit"@, Source::OrDefault("limit"@, "30"@)), ("total"@, Source::Fixed("true"@))]);
    }
    call_endpoint(&options, "https://interface.music.163.com/weapi/mv/first", parts, CryptoScheme::WeApi, table, "", "")
}

/// The endpoint served at `/mv/sub`.
pub fn index_mv_sub(options: Options) -> (r: Result<FormatParams, RequestError>)
    ensures
        endpoint_call(
            r,
            str_pairs(options.params@),
            options.cookie@,
            "https://music.163.com/weapi/mv/"@,
            seq![Source::Choice("t"@, "0"@, "1"@, "sub"@, "unsub"@)],
            CryptoScheme::WeApi,
            seq![("mvId"@, Source::Required("mvId"@)), ("mvIds"@, Source::Wrapped("[\""@, "mvid"@, "\"]"@))],
            ""@,
            ""@,
        ),
{
    let parts = vec![ParamRule::Choice("t", "0", "1", "sub", "unsub")];
    let table = vec![("mvId", ParamRule::Required("mvId")), ("mvIds", ParamRule::Wrapped("[\"", "mvid", "\"]"))];
    proof {
        assert(part_sources(parts@) =~= seq![Source::Choice("t"@, "0"@, "1"@, "sub"@, "unsub"@)]);
        assert(table_sources(table@) =~= seq![("mvId"@, Source::Required("mvId"@)), ("mvIds"@, Source::Wrapped("[\""@, "mvid"@, "\"]"@))]);
    }
    call_endpoint(&options, "https://music.163.com/weapi/mv/", parts, CryptoScheme::WeApi, table, "", "")
}

/// The endpoint served at `/mv/sublist`.
pub fn index_mv_sublist(options: Options) -> (r: Result<FormatParams, RequestError>)
    ensures
        endpoint_call(
            r,
            str_pairs(options.params@),
            options.cookie@,
            "https://music.163.com/weapi/cloudvideo/allvideo/sublist"@,
            Seq::empty(),
            CryptoScheme::WeApi,
            seq![("limit"@, Source::OrDefault("limit"@, "25"@)), ("offset"@, Source::OrDefault("offset"@, "0"@)), ("total"@, Source::Fixed("true"@))],
            ""@,
            ""@,
        ),
{
    let parts: Vec<ParamRule> = Vec::new();
    let table = vec![("limit", ParamRule::OrDefault("limit", "25")), ("offset", ParamRule::OrDefault("offset", "0")), ("total", ParamRule::Fixed("true"))];
    proof {
        assert(part_sources(parts@) =~= Seq::empty());
        assert(table_sources(table@) =~= seq![("limit"@, Source::OrDefault("limit"@, "25"@)), ("offset"@, Source::OrDefault("offset"@, "0"@)), ("total"@, Source::Fixed("true"@))]);
    }
    call_endpoint(&options, "https://music.163.com/weapi/cloudvideo/allvideo/sublist", parts, CryptoScheme::WeApi, table, "", "")
}

/// The endpoint served at `/mv/url`.
pub fn index_mv_url(options: Options) -> (r: Result<FormatParams, RequestError>)
    ensures
        endpoint_call(
            r,
            str_pairs(options.params@),
            options.cookie@,
            "https://music.163.com/weapi/song/enhance/play/mv/url"@,
            Seq::empty(),
            CryptoScheme::WeApi,
            seq![("id"@, Source::Required("id"@)), ("r"@, Source::OrDefault("res"@, "1080"@))],
            ""@,
            ""@,
        ),
{
    let parts: Vec<ParamRule> = Vec::new();
    let table = vec![("id", ParamRule::Required("id")), ("r", ParamRule::OrDefault("res", "1080"))];
    proof {
        assert(part_sources(parts@) =~= Seq::empty());
        assert(table_sources(table@) =~= seq![("id"@, Source::Required("id"@)), ("r"@, Source::OrDefault("res"@, "1080"@))]);
    }
    call_endpoint(&options, "https://music.163.com/weapi/song/enhance/play/mv/url", parts, CryptoScheme::WeApi, table, "", "")
}

/// The endpoint served at `/personalized`.
pub fn index_personalized(options: Options) -> (r: Result<FormatParams, RequestError>)
    ensures
        endpoint_call(
            r,
            str_pairs(options.params@),
            options.cookie@,
            "https://music.163.com/weapi/personalized/playlist"@,
            Seq::empty(),
            CryptoScheme::WeApi,
            seq![("limit"@, Source::OrDefault("limit"@, "30"@)), ("total"@, Source::Fixed("true"@)), ("n"@, Source::Fixed("1000"@))],
            ""@,
            ""@,
        ),
{
    let parts: Vec<ParamRule> = Vec::new();
    let table = vec![("limit", ParamRule::OrDefault("limit", "30")), ("total", ParamRule::Fixed("true")), ("n", ParamRule::Fixed("1000"))];
    proof {
        assert(part_sources(parts@) =~= Seq::empty());
        assert(table_sources(table@) =~= seq![("limit"@, Source::OrDefault("limit"@, "30"@)), ("total"@, Source::Fixed("true"@)), ("n"@, Source::Fixed("1000"@))]);
    }
    call_endpoint(&options, "https://music.163.com/weapi/personalized/playlist", parts, CryptoScheme::WeApi, table, "", "")
}

/// The endpoint served at `/playlist/create`.
pub fn index_playlist_create(options: Options) -> (r: Result<FormatParams, RequestError>)
    ensures
        endpoint_call(
            r,
            str_pairs(options.params@),
            options.cookie@,
            "https://music.163.com/weapi/playlist/create"@,
            Seq::empty(),
            CryptoScheme::WeApi,
            seq![("name"@, Source::Required("name"@)), ("privacy"@, Source::Required("privacy"@))],
            ";os=pc;"@,
            ""@,
        ),
{
    let parts: Vec<ParamRule> = Vec::new();
    let table = vec![("name", ParamRule::Required("name")), ("privacy", ParamRule::Required("privacy"))];
    proof {
        assert(part_sources(parts@) =~= Seq::empty());
        assert(table_sources(table@) =~= seq![("name"@, Source::Required("name"@)), ("privacy"@, Source::Required("privacy"@))]);
    }
    call_endpoint(&options, "https://music.163.com/weapi/playlist/create", parts, CryptoScheme::WeApi, table, ";os=pc;", "")
}

/// The endpoint served at `/playlist/delete`.
pub fn index_playlist_delete(options: Options) -> (r: Result<FormatParams, RequestError>)
    ensures
        endpoint_call(
            r,
            str_pairs(options.params@),
            options.cookie@,
            "https://music.163.com/weapi/playlist/delete"@,
            Seq::empty(),
            CryptoScheme::WeApi,
            seq![("pid"@, Source::Required("id"@))],
            ";os=pc;"@,
            ""@,
        ),
{
    let parts: Vec<ParamRule> = Vec::new();
    let table = vec![("pid", ParamRule::Required("id"))];
    proof {
        assert(part_sources(parts@) =~= Seq::empty());
        assert(table_sources(table@) =~= seq![("pid"@, Source::Required("id"@))]);
    }
    call_endpoint(&options, "https://music.163.com/weapi/playlist/delete", parts, CryptoScheme::WeApi, table, ";os=pc;", "")
}

/// The endpoint served at `/playlist/desc_update`.
pub fn index_playlist_desc_update(options: Options) -> (r: Result<FormatParams, RequestError>)
    ensures
        endpoint_call(
            r,
            str_pairs(options.params@),
            options.cookie@,
            "http://interface3.music.163.com/eapi/playlist/desc/update"@,
            Seq::empty(),
            CryptoScheme::EApi,
            seq![("pid"@, Source::Required("id"@)), ("desc"@, Source::Required("desc"@))],
            ";os=pc;"@,
            ""@,
        ),
{
    let parts: Vec<ParamRule> = Vec::new();
    let table = vec![("pid", ParamRule::Required("id")), ("desc", ParamRule::Required("desc"))];
    proof {
        assert(part_sources(parts@) =~= Seq::empty());
        assert(table_sources(table@) =~= seq![("pid"@, Source::Required("id"@)), ("desc"@, Source::Required("desc"@))]);
    }
    call_endpoint(&options, "http://interface3.music.163.com/eapi/playlist/desc/update", parts, CryptoScheme::EApi, table, ";os=pc;", "")
}

/// The endpoint served at `/playlist/detail`.
pub fn index_playlist_detail(options: Options) -> (r: Result<FormatParams, RequestError>)
    ensures
        endpoint_call(
            r,
            str_pairs(options.params@),
            options.cookie@,
            "https://music.163.com/api/v6/playlist/detail"@,
            Seq::empty(),
            CryptoScheme::LinuxApi,
            seq![("id"@, Source::Required("id"@)), ("n"@, Source::Fixed("100000"@)), ("s"@, Source::OrDefault("s"@, "8"@))],
            ";os=pc;"@,
            ""@,
        ),
{
    let parts: Vec<ParamRule> = Vec::new();
    let table = vec![("id", ParamRule::Required("id")), ("n", ParamRule::Fixed("100000")), ("s", ParamRule::OrDefault("s", "8"))];
    proof {
        assert(part_sources(parts@) =~= Seq::empty());
        assert(table_sources(table@) =~= seq![("id"@, Source::Required("id"@)), ("n"@, Source::Fixed("100000"@)), ("s"@, Source::OrDefault("s"@, "8"@))]);
    }
    call_endpoint(&options, "https://music.163.com/api/v6/playlist/detail", parts, CryptoScheme::LinuxApi, table, ";os=pc;", "")
}

/// The endpoint served at `/playlist/name/update`.
pub fn index_playlist_name_update(options: Options) -> (r: Result<FormatParams, RequestError>)
    ensures
        endpoint_call(
            r,
            str_pairs(options.params@),
            options.cookie@,
            "http://interface3.music.163.com/eapi/playlist/update/name"@,
            Seq::empty(),
            CryptoScheme::EApi,
            seq![("id"@, Source::Required("id"@)), ("name"@, Source::Required("name"@))],
            ";os=pc;"@,
            ""@,
        ),
{
    let parts: Vec<ParamRule> = Vec::new();
    let table = vec![("id", ParamRule::Required("id")), ("name", ParamRule::Required("name"))];
    proof {
        assert(part_sources(parts@) =~= Seq::empty());
        assert(table_sources(table@) =~= seq![("id"@, Source::Required("id"@)), ("name"@, Source::Required("name"@))]);
    }
    call_endpoint(&options, "http://interface3.music.163.com/eapi/playlist/update/name", parts, CryptoScheme::EApi, table, ";os=pc;", "")
}

/// The endpoint served at `/playlist/subscribe`.
pub fn index_playlist_subscribe(options: Options) -> (r: Result<FormatParams, RequestError>)
    ensures
        endpoint_call(
            r,
            str_pairs(options.params@),
            options.cookie@,
            "https://music.163.com/weapi/playlist/"@,
            seq![Source::Choice("t"@, "0"@, "1"@, "subscribe"@, "unsubscribe"@)],
            CryptoScheme::WeApi,
            seq![("id"@, Source::Required("id"@))],
            ""@,
            ""@,
        ),
{
    let parts = vec![ParamRule::Choice("t", "0", "1", "subscribe", "unsubscribe")];
    let table = vec![("id", ParamRule::Required("id"))];
    proof {
        assert(part_sources(parts@) =~= seq![Source::Choice("t"@, "0"@, "1"@, "subscribe"@, "unsubscribe"@)]);
        assert(table_sources(table@) =~= seq![("id"@, Source::Required("id"@))]);
    }
    call_endpoint(&options, "https://music.163.com/weapi/playlist/", parts, CryptoScheme::WeApi, table, "", "")
}

/// The endpoint served at `/playlist/subscribers`.
pub fn index_playlist_subscribers(options: Options) -> (r: Result<FormatParams, RequestError>)
    ensures
        endpoint_call(
            r,
            str_pairs(options.params@),
            options.cookie@,
            "https://music.163.com/weapi/playlist/subscribers"@,
            Seq::empty(),
            CryptoScheme::WeApi,
            seq![("id"@, Source::Required("id"@)), ("limit"@, Source::OrDefault("limit"@, "20"@)), ("offset"@, Source::OrDefault("offset"@, "0"@))],
            ""@,
            ""@,
        ),
{
    let parts: Vec<ParamRule> = Vec::new();
    let table = vec![("id", ParamRule::Required("id")), ("limit", ParamRule::OrDefault("limit", "20")), ("offset", ParamRule::OrDefault("offset", "0"))];
    proof {
        assert(part_sources(parts@) =~= Seq::empty());
        assert(table_sources(table@) =~= seq![("id"@, Source::Required("id"@)), ("limit"@, Source::OrDefault("limit"@, "20"@)), ("offset"@, Source::OrDefault("offset"@, "0"@))]);
    }
    call_endpoint(&options, "https://music.163.com/weapi/playlist/subscribers", parts, CryptoScheme::WeApi, table, "", "")
}

/// The endpoint served at `/playlist/tags/update`.
pub fn index_playlist_tags_update(options: Options) -> (r: Result<FormatParams, RequestError>)
    ensures
        endpoint_call(
            r,
            str_pairs(options.params@),
            options.cookie@,
            "http://interface3.music.163.com/eapi/playlist/tags/update"@,
            Seq::empty(),
            CryptoScheme::EApi,
            seq![("id"@, Source::Required("id"@)), ("tags"@, Source::Required("tags"@))],
            ""@,
            ""@,
        ),
{
    let parts: Vec<ParamRule> = Vec::new();
    let table = vec![("id", ParamRule::Required("id")), ("tags", ParamRule::Required("tags"))];
    proof {
        assert(part_sources(parts@) =~= Seq::empty());
        assert(table_sources(table@) =~= seq![("id"@, Source::Required("id"@)), ("tags"@, Source::Required("tags"@))]);
    }
    call_endpoint(&options, "http://interface3.music.163.com/eapi/playlist/tags/update", parts, CryptoScheme::EApi, table, "", "")
}

/// The endpoint served at `/playlist/tracks`.
pub fn index_playlist_tracks(options: Options) -> (r: Result<FormatParams, RequestError>)
    ensures
        endpoint_call(
            r,
            str_pairs(options.params@),
            options.cookie@,
            "https://music.163.com/weapi/playlist/manipulate/tracks"@,
            Seq::empty(),
            CryptoScheme::WeApi,
            seq![("op"@, Source::Required("op"@)), ("pid"@, Source::OrDefault("pid"@, "20"@)), ("tackIds"@, Source::Wrapped("["@, "trakcs"@, "]"@))],
            ""@,
            ""@,
        ),
{
    let parts: Vec<ParamRule> = Vec::new();
    let table = vec![("op", ParamRule::Required("op")), ("pid", ParamRule::OrDefault("pid", "20")), ("tackIds", ParamRule::Wrapped("[", "trakcs", "]"))];
    proof {
        assert(part_sources(parts@) =~= Seq::empty());
        assert(table_sources(table@) =~= seq![("op"@, Source::Required("op"@)), ("pid"@, Source::OrDefault("pid"@, "20"@)), ("tackIds"@, Source::Wrapped("["@, "trakcs"@, "]"@))]);
    }
    call_endpoint(&options, "https://music.163.com/weapi/playlist/manipulate/tracks", parts, CryptoScheme::WeApi, table, "", "")
}

/// The endpoint served at `/program/recommend`.
pub fn index_program_recommend(options: Options) -> (r: Result<FormatParams, RequestError>)
    ensures
        endpoint_call(
            r,
            str_pairs(options.params@),
            options.cookie@,
            "https://music.163.com/weapi/program/recommend/v1"@,
            Seq::empty(),
            CryptoScheme::WeApi,
            seq![("cateId"@, Source::Required("type"@)), ("limit"@, Source::OrDefault("limit"@, "10"@)), ("offset"@, Source::OrDefault("offset"@, "0"@))],
            ""@,
            ""@,
        ),
{
    let parts: Vec<ParamRule> = Vec::new();
    let table = vec![("cateId", ParamRule::Required("type")), ("limit", ParamRule::OrDefault("limit", "10")), ("offset", ParamRule::OrDefault("offset", "0"))];
    proof {
        assert(part_sources(parts@) =~= Seq::empty());
        assert(table_sources(table@) =~= seq![("cateId"@, Source::Required("type"@)), ("limit"@, Source::OrDefault("limit"@, "10"@)), ("offset"@, Source::OrDefault("offset"@, "0"@))]);
    }
    call_endpoint(&options, "https://music.163.com/weapi/program/recommend/v1", parts, CryptoScheme::WeApi, table, "", "")
}

/// The endpoint served at `/rebind`.
pub fn index_rebind(options: Options) -> (r: Result<FormatParams, RequestError>)
    ensures
        endpoint_call(
            r,
            str_pairs(options.params@),
            options.cookie@,
            "https://music.163.com/api/user/replaceCellphone"@,
            Seq::empty(),
            CryptoScheme::WeApi,
            seq![("captcha"@, Source::Required("captcha"@)), ("phone"@, Source::Required("phone"@)), ("oldcaptcha"@, Source::Required("oldcaptcha"@)), ("ctcode"@, Source::OrDefault("ctcode"@, "86"@))],
            ""@,
            ""@,
        ),
{
    let parts: Vec<ParamRule> = Vec::new();
    let table = vec![("captcha", ParamRule::Required("captcha")), ("phone", ParamRule::Required("phone")), ("oldcaptcha", ParamRule::Required("oldcaptcha")), ("ctcode", ParamRule::OrDefault("ctcode", "86"))];
    proof {
        assert(part_sources(parts@) =~= Seq::empty());
        assert(table_sources(table@) =~= seq![("captcha"@, Source::Required("captcha"@)), ("phone"@, Source::Required("phone"@)), ("oldcaptcha"@, Source::Required("oldcaptcha"@)), ("ctcode"@, Source::OrDefault("ctcode"@, "86"@))]);
    }
    call_endpoint(&options, "https://music.163.com/api/user/replaceCellphone", parts, CryptoScheme::WeApi, table, "", "")
}

/// The endpoint served at `/register/cellphone`.
pub fn index_register_cellphone(options: Options) -> (r: Result<FormatParams, RequestError>)
    ensures
        endpoint_call(
            r,
            str_pairs(options.params@),
            options.cookie@,
            "https://music.163.com/weapi/register/cellphone"@,
            Seq::empty(),
            CryptoScheme::WeApi,
            seq![("captcha"@, Source::Required("captcha"@)), ("phone"@, Source::Required("phone"@)), ("password"@, Source::Md5("password"@)), ("nickname"@, Source::Required("nickname"@))],
            "os=pc;"@,
            ""@,
        ),
{
    let parts: Vec<ParamRule> = Vec::new();
    let table = vec![("captcha", ParamRule::Required("captcha")), ("phone", ParamRule::Required("phone")), ("password", ParamRule::Md5("password")), ("nickname", ParamRule::Required("nickname"))];
    proof {
        assert(part_sources(parts@) =~= Seq::empty());
        assert(table_sources(table@) =~= seq![("captcha"@, Source::Required("captcha"@)), ("phone"@, Source::Required("phone"@)), ("password"@, Source::Md5("password"@)), ("nickname"@, Source::Required("nickname"@))]);
    }
    call_endpoint(&options, "https://music.163.com/weapi/register/cellphone", parts, CryptoScheme::WeApi, table, "os=pc;", "")
}

/// The endpoint served at `/related/allvideo`.
pub fn index_related_allvideo(options: Options) -> (r: Result<FormatParams, RequestError>)
    ensures
        endpoint_call(
            r,
            str_pairs(options.params@),
            options.cookie@,
            "https://music.163.com/weapi/cloudvideo/v1/allvideo/rcmd"@,
            Seq::empty(),
            CryptoScheme::WeApi,
            seq![("id"@, Source::Required("id"@)), ("type"@, Source::Fixed("1"@))],
            ""@,
            ""@,
        ),
{
    let parts: Vec<ParamRule> = Vec::new();
    let table = vec![("id", ParamRule::Required("id")), ("type", ParamRule::Fixed("1"))];
    proof {
        assert(part_sources(parts@) =~= Seq::empty());
        assert(table_sources(table@) =~= seq![("id"@, Source::Required("id"@)), ("type"@, Source::Fixed("1"@))]);
    }
    call_endpoint(&options, "https://music.163.com/weapi/cloudvideo/v1/allvideo/rcmd", parts, CryptoScheme::WeApi, table, "", "")
}

/// The endpoint served at `/related/playlist`.
pub fn index_related_playlist(options: Options) -> (r: Result<FormatParams, RequestError>)
    ensures
        endpoint_call(
            r,
            str_pairs(options.params@),
            options.cookie@,
            "https://music.163.com/playlist?id="@,
            seq![Source::Required("id"@)],
            CryptoScheme::WeApi,
            Seq::empty(),
            ""@,
            ""@,
        ),
{
    let parts = vec![ParamRule::Required("id")];
    let table: Vec<(&'static str, ParamRule)> = Vec::new();
    proof {
        assert(part_sources(parts@) =~= seq![Source::Required("id"@)]);
        assert(table_sources(table@) =~= Seq::empty());
    }
    call_endpoint(&options, "https://music.163.com/playlist?id=", parts, CryptoScheme::WeApi, table, "", "")
}

/// The endpoint served at `/search`.
pub fn index_search(options: Options) -> (r: Result<FormatParams, RequestError>)
    ensures
        endpoint_call(
            r,
            str_pairs(options.params@),
            options.cookie@,
            "https://music.163.com/weapi/search/get"@,
            Seq::empty(),
            CryptoScheme::WeApi,
            seq![("s"@, Source::OrDefault("keywords"@, ""@)), ("type"@, Source::OrDefault("type"@, "1"@)), ("limit"@, Source::OrDefault("limit"@, "30"@)), ("offset"@, Source::OrDefault("offset"@, "0"@))],
            ""@,
            ""@,
        ),
{
    let parts: Vec<ParamRule> = Vec::new();
    let table = vec![("s", ParamRule::OrDefault("keywords", "")), ("type", ParamRule::OrDefault("type", "1")), ("limit", ParamRule::OrDefault("limit", "30")), ("offset", ParamRule::OrDefault("offset", "0"))];
    proof {
        assert(part_sources(parts@) =~= Seq::empty());
        assert(table_sources(table@) =~= seq![("s"@, Source::OrDefault("keywords"@, ""@)), ("type"@, Source::OrDefault("type"@, "1"@)), ("limit"@, Source::OrDefault("limit"@, "30"@)), ("offset"@, Source::OrDefault("offset"@, "0"@))]);
    }
    call_endpoint(&options, "https://music.163.com/weapi/search/get", parts, CryptoScheme::WeApi, table, "", "")
}

/// The endpoint served at `/search/multimatch`.
pub fn index_search_multimatch(options: Options) -> (r: Result<FormatParams, RequestError>)
    ensures
        endpoint_call(
            r,
            str_pairs(options.params@),
            options.cookie@,
            "https://music.163.com/weapi/search/suggest/multimatch"@,
            Seq::empty(),
            CryptoScheme::WeApi,
            seq![("type"@, Source::OrDefault("type"@, "1"@)), ("s"@, Source::OrDefault("keywords"@, ""@))],
            ""@,
            ""@,
        ),
{
    let parts: Vec<ParamRule> = Vec::new();
    let table = vec![("type", ParamRule::OrDefault("type", "1")), ("s", ParamRule::OrDefault("keywords", ""))];
    proof {
        assert(part_sources(parts@) =~= Seq::empty());
        assert(table_sources(table@) =~= seq![("type"@, Source::OrDefault("type"@, "1"@)), ("s"@, Source::OrDefault("keywords"@, ""@))]);
    }
    call_endpoint(&options, "https://music.163.com/weapi/search/suggest/multimatch", parts, CryptoScheme::WeApi, table, "", "")
}

/// The endpoint served at `/search/suggest`.
pub fn index_search_suggest(options: Options) -> (r: Result<FormatParams, RequestError>)
    ensures
        endpoint_call(
            r,
            str_pairs(options.params@),
            options.cookie@,
            "https://music.163.com/weapi/search/suggest/"@,
            seq![Source::Choice("type"@, "mobile"@, "mobile"@, "keyword"@, "web"@)],
            CryptoScheme::WeApi,
            seq![("s"@, Source::OrDefault("keywords"@, ""@))],
            ""@,
            ""@,
        ),
{
    let parts = vec![ParamRule::Choice("type", "mobile", "mobile", "keyword", "web")];
    let table = vec![("s", ParamRule::OrDefault("keywords", ""))];
    proof {
        assert(part_sources(parts@) =~= seq![Source::Choice("type"@, "mobile"@, "mobile"@, "keyword"@, "web"@)]);
        assert(table_sources(table@) =~= seq![("s"@, Source::OrDefault("keywords"@, ""@))]);
    }
    call_endpoint(&options, "https://music.163.com/weapi/search/suggest/", parts, CryptoScheme::WeApi, table, "", "")
}

/// The endpoint served at `/send/playlist`.
pub fn index_send_playlist(options: Options) -> (r: Result<FormatParams, RequestError>)
    ensures
        endpoint_call(
            r,
            str_pairs(options.params@),
            options.cookie@,
            "https://music.163.com/weapi/msg/private/send"@,
            Seq::empty(),
            CryptoScheme::WeApi,
            seq![("id"@, Source::Required("playlist"@)), ("type"@, Source::Fixed("playlist"@)), ("msg"@, Source::OrDefault("msg"@, ""@)), ("userIds"@, Source::Wrapped("["@, "user_ids"@, "]"@))],
            "os=pc;"@,
            ""@,
        ),
{
    let parts: Vec<ParamRule> = Vec::new();
    let table = vec![("id", ParamRule::Required("playlist")), ("type", ParamRule::Fixed("playlist")), ("msg", ParamRule::OrDefault("msg", "")), ("userIds", ParamRule::Wrapped("[", "user_ids", "]"))];
    proof {
        assert(part_sources(parts@) =~= Seq::empty());
        assert(table_sources(table@) =~= seq![("id"@, Source::Required("playlist"@)), ("type"@, Source::Fixed("playlist"@)), ("msg"@, Source::OrDefault("msg"@, ""@)), ("userIds"@, Source::Wrapped("["@, "user_ids"@, "]"@))]);
    }
    call_endpoint(&options, "https://music.163.com/weapi/msg/private/send", parts, CryptoScheme::WeApi, table, "os=pc;", "")
}

/// The endpoint served at `/send/text`.
pub fn index_send_text(options: Options) -> (r: Result<FormatParams, RequestError>)
    ensures
        endpoint_call(
            r,
            str_pairs(options.params@),
            options.cookie@,
            "https://music.163.com/weapi/msg/private/send"@,
            Seq::empty(),
            CryptoScheme::WeApi,
            seq![("id"@, Source::Required("playlist"@)), ("type"@, Source::Fixed("text"@)), ("msg"@, Source::OrDefault("msg"@, ""@)), ("userIds"@, Source::Wrapped("["@, "user_ids"@, "]"@))],
            "os=pc;"@,
            ""@,
        ),
{
    let parts: Vec<ParamRule> = Vec::new();
    let table = vec![("id", ParamRule::Required("playlist")), ("type", ParamRule::Fixed("text")), ("msg", ParamRule::OrDefault("msg", "")), ("userIds", ParamRule::Wrapped("[", "user_ids", "]"))];
    proof {
        assert(part_sources(parts@) =~= Seq::empty());
        assert(table_sources(table@) =~= seq![("id"@, Source::Required("playlist"@)), ("type"@, Source::Fixed("text"@)), ("msg"@, Source::OrDefault("msg"@, ""@)), ("userIds"@, Source::Wrapped("["@, "user_ids"@, "]"@))]);
    }
    call_endpoint(&options, "https://music.163.com/weapi/msg/private/send", parts, CryptoScheme::WeApi, table, "os=pc;", "")
}

/// The endpoint served at `/share/resource`.
pub fn index_share_resource(options: Options) -> (r: Result<FormatParams, RequestError>)
    ensures
        endpoint_call(
            r,
            str_pairs(options.params@),
            options.cookie@,
            "http://music.163.com/weapi/share/friends/resource"@,
            Seq::empty(),
            CryptoScheme::WeApi,
            seq![("type"@, Source::OrDefault("type"@, "song"@)), ("msg"@, Source::OrDefault("msg"@, ""@)), ("id"@, Source::OrDefault("id"@, ""@))],
            ""@,
            ""@,
        ),
{
    let parts: Vec<ParamRule> = Vec::new();
    let table = vec![("type", ParamRule::OrDefault("type", "song")), ("msg", ParamRule::OrDefault("msg", "")), ("id", ParamRule::OrDefault("id", ""))];
    proof {
        assert(part_sources(parts@) =~= Seq::empty());
        assert(table_sources(table@) =~= seq![("type"@, Source::OrDefault("type"@, "song"@)), ("msg"@, Source::OrDefault("msg"@, ""@)), ("id"@, Source::OrDefault("id"@, ""@))]);
    }
    call_endpoint(&options, "http://music.163.com/weapi/share/friends/resource", parts, CryptoScheme::WeApi, table, "", "")
}

/// The endpoint served at `/simi/artist`.
pub fn index_simi_artist(options: Options) -> (r: Result<FormatParams, RequestError>)
    ensures
        endpoint_call(
            r,
            str_pairs(options.params@),
            options.cookie@,
            "https://music.163.com/weapi/discovery/simiArtist"@,
            Seq::empty(),
            CryptoScheme::WeApi,
            seq![("artistid"@, Source::Required("id"@))],
            ""@,
            ""@,
        ),
{
    let parts: Vec<ParamRule> = Vec::new();
    let table = vec![("artistid", ParamRule::Required("id"))];
    proof {
        assert(part_sources(parts@) =~= Seq::empty());
        assert(table_sources(table@) =~= seq![("artistid"@, Source::Required("id"@))]);
    }
    call_endpoint(&options, "https://music.163.com/weapi/discovery/simiArtist", parts, CryptoScheme::WeApi, table, "", "")
}

/// The endpoint served at `/simi/mv`.
pub fn index_simi_mv(options: Options) -> (r: Result<FormatParams, RequestError>)
    ensures
        endpoint_call(
            r,
            str_pairs(options.params@),
            options.cookie@,
            "https://music.163.com/weapi/discovery/simiMV"@,
            Seq::empty(),
            CryptoScheme::WeApi,
            seq![("mvid"@, Source::Required("mvid"@))],
            ""@,
            ""@,
        ),
{
    let parts: Vec<ParamRule> = Vec::new();
    let table = vec![("mvid", ParamRule::Required("mvid"))];
    proof {
        assert(part_sources(parts@) =~= Seq::empty());
        assert(table_sources(table@) =~= seq![("mvid"@, Source::Required("mvid"@))]);
    }
    call_endpoint(&options, "https://music.163.com/weapi/discovery/simiMV", parts, CryptoScheme::WeApi, table, "", "")
}

/// The endpoint served at `/simi/playlist`.
pub fn index_simi_playlist(options: Options) -> (r: Result<FormatParams, RequestError>)
    ensures
        endpoint_call(
            r,
            str_pairs(options.params@),
            options.cookie@,
            "https://music.163.com/weapi/discovery/simiPlaylist"@,
            Seq::empty(),
            CryptoScheme::WeApi,
            seq![("songid"@, Source::Required("id"@)), ("limit"@, Source::OrDefault("limit"@, "50"@)), ("offset"@, Source::OrDefault("offset"@, "0"@))],
            ""@,
            ""@,
        ),
{
    let parts: Vec<ParamRule> = Vec::new();
    let table = vec![("songid", ParamRule::Required("id")), ("limit", ParamRule::OrDefault("limit", "50")), ("offset", ParamRule::OrDefault("offset", "0"))];
    proof {
        assert(part_sources(parts@) =~= Seq::empty());
        assert(table_sources(table@) =~= seq![("songid"@, Source::Required("id"@)), ("limit"@, Source::OrDefault("limit"@, "50"@)), ("offset"@, Source::OrDefault("offset"@, "0"@))]);
    }
    call_endpoint(&options, "https://music.163.com/weapi/discovery/simiPlaylist", parts, CryptoScheme::WeApi, table, "", "")
}

/// The endpoint served at `/simi/song`.
pub fn index_simi_song(options: Options) -> (r: Result<FormatParams, RequestError>)
    ensures
        endpoint_call(
            r,
            str_pairs(options.params@),
            options.cookie@,
            "https://music.163.com/weapi/v1/discovery/simiSong"@,
            Seq::empty(),
            CryptoScheme::WeApi,
            seq![("songid"@, Source::Required("id"@)), ("limit"@, Source::OrDefault("limit"@, "51"@)), ("offset"@, Source::OrDefault("offset"@, "0"@))],
            ""@,
            ""@,
        ),
{
    let parts: Vec<ParamRule> = Vec::new();
    let table = vec![("songid", ParamRule::Required("id")), ("limit", ParamRule::OrDefault("limit", "51")), ("offset", ParamRule::OrDefault("offset", "0"))];
    proof {
        assert(part_sources(parts@) =~= Seq::empty());
        assert(table_sources(table@) =~= seq![("songid"@, Source::Required("id"@)), ("limit"@, Source::OrDefault("limit"@, "51"@)), ("offset"@, Source::OrDefault("offset"@, "0"@))]);
    }
    call_endpoint(&options, "https://music.163.com/weapi/v1/discovery/simiSong", parts, CryptoScheme::WeApi, table, "", "")
}

/// The endpoint served at `/simi/user`.
pub fn index_simi_user(options: Options) -> (r: Result<FormatParams, RequestError>)
    ensures
        endpoint_call(
            r,
            str_pairs(options.params@),
            options.cookie@,
            "https://music.163.com/weapi/discovery/simiUser"@,
            Seq::empty(),
            CryptoScheme::WeApi,
            seq![("songid"@, Source::Required("id"@)), ("limit"@, Source::OrDefault("limit"@, "52"@)), ("offset"@, Source::OrDefault("offset"@, "0"@))],
            ""@,
            ""@,
        ),
{
    let parts: Vec<ParamRule> = Vec::new();
    let table = vec![("songid", ParamRule::Required("id")), ("limit", ParamRule::OrDefault("limit", "52")), ("offset", ParamRule::OrDefault("offset", "0"))];
    proof {
        assert(part_sources(parts@) =~= Seq::empty());
        assert(table_sources(table@) =~= seq![("songid"@, Source::Required("id"@)), ("limit"@, Source::OrDefault("limit"@, "52"@)), ("offset"@, Source::OrDefault("offset"@, "0"@))]);
    }
    call_endpoint(&options, "https://music.163.com/weapi/discovery/simiUser", parts, CryptoScheme::WeApi, table, "", "")
}

/// The endpoint served at `/song/detail`.
pub fn index_song_detail(options: Options) -> (r: Result<FormatParams, RequestError>)
    ensures
        endpoint_call(
            r,
            str_pairs(options.params@),
            options.cookie@,
            "https://music.163.com/weapi/v3/song/detail"@,
            Seq::empty(),
            CryptoScheme::WeApi,
            seq![("c"@, Source::Wrapped("\"[{\"id\":"@, "ids"@, "}]\""@)), ("ids"@, Source::Wrapped("\"["@, "ids"@, "]\""@))],
            ""@,
            ""@,
        ),
{
    let parts: Vec<ParamRule> = Vec::new();
    let table = vec![("c", ParamRule::Wrapped("\"[{\"id\":", "ids", "}]\"")), ("ids", ParamRule::Wrapped("\"[", "ids", "]\""))];
    proof {
        assert(part_sources(parts@) =~= Seq::empty());
        assert(table_sources(table@) =~= seq![("c"@, Source::Wrapped("\"[{\"id\":"@, "ids"@, "}]\""@)), ("ids"@, Source::Wrapped("\"["@, "ids"@, "]\""@))]);
    }
    call_endpoint(&options, "https://music.163.com/weapi/v3/song/detail", parts, CryptoScheme::WeApi, table, "", "")
}

/// The endpoint served at `/song/url`.
pub fn index_song_url(options: Options) -> (r: Result<FormatParams, RequestError>)
    ensures
        endpoint_call(
            r,
            str_pairs(options.params@),
            options.cookie@,
            "https://music.163.com/api/song/enhance/player/url"@,
            Seq::empty(),
            CryptoScheme::LinuxApi,
            seq![("ids"@, Source::Wrapped("["@, "id"@, "]"@)), ("br"@, Source::OrDefault("br"@, "999000"@))],
            ";os=pc;"@,
            ""@,
        ),
{
    let parts: Vec<ParamRule> = Vec::new();
    let table = vec![("ids", ParamRule::Wrapped("[", "id", "]")), ("br", ParamRule::OrDefault("br", "999000"))];
    proof {
        assert(part_sources(parts@) =~= Seq::empty());
        assert(table_sources(table@) =~= seq![("ids"@, Source::Wrapped("["@, "id"@, "]"@)), ("br"@, Source::OrDefault("br"@, "999000"@))]);
    }
    call_endpoint(&options, "https://music.163.com/api/song/enhance/player/url", parts, CryptoScheme::LinuxApi, table, ";os=pc;", "")
}

/// The endpoint served at `/top/album`.
pub fn index_top_album(options: Options) -> (r: Result<FormatParams, RequestError>)
    ensures
        endpoint_call(
            r,
            str_pairs(options.params@),
            options.cookie@,
            "https://music.163.com/weapi/album/new"@,
            Seq::empty(),
            CryptoScheme::WeApi,
            seq![("area"@, Source::OrDefault("type"@, "ALL"@)), ("limit"@, Source::OrDefault("limit"@, "50"@)), ("offset"@, Source::OrDefault("offset"@, "0"@)), ("total"@, Source::Fixed("true"@))],
            ""@,
            ""@,
        ),
{
    let parts: Vec<ParamRule> = Vec::new();
    let table = vec![("area", ParamRule::OrDefault("type", "ALL")), ("limit", ParamRule::OrDefault("limit", "50")), ("offset", ParamRule::OrDefault("offset", "0")), ("total", ParamRule::Fixed("true"))];
    proof {
        assert(part_sources(parts@) =~= Seq::empty());
        assert(table_sources(table@) =~= seq![("area"@, Source::OrDefault("type"@, "ALL"@)), ("limit"@, Source::OrDefault("limit"@, "50"@)), ("offset"@, Source::OrDefault("offset"@, "0"@)), ("total"@, Source::Fixed("true"@))]);
    }
    call_endpoint(&options, "https://music.163.com/weapi/album/new", parts, CryptoScheme::WeApi, table, "", "")
}

/// The endpoint served at `/top/artist`.
pub fn index_top_artist(options: Options) -> (r: Result<FormatParams, RequestError>)
    ensures
        endpoint_call(
            r,
            str_pairs(options.params@),
            options.cookie@,
            "https://music.163.com/weapi/artist/top"@,
            Seq::empty(),
            CryptoScheme::WeApi,
            seq![("limit"@, Source::OrDefault("limit"@, "50"@)), ("offset"@, Source::OrDefault("offset"@, "0"@)), ("total"@, Source::Fixed("true"@))],
            ""@,
            ""@,
        ),
{
    let parts: Vec<ParamRule> = Vec::new();
    let table = vec![("limit", ParamRule::OrDefault("limit", "50")), ("offset", ParamRule::OrDefault("offset", "0")), ("total", ParamRule::Fixed("true"))];
    proof {
        assert(part_sources(parts@) =~= Seq::empty());
        assert(table_sources(table@) =~= seq![("limit"@, Source::OrDefault("limit"@, "50"@)), ("offset"@, Source::OrDefault("offset"@, "0"@)), ("total"@, Source::Fixed("true"@))]);
    }
    call_endpoint(&options, "https://music.163.com/weapi/artist/top", parts, CryptoScheme::WeApi, table, "", "")
}

/// The endpoint served at `/top/mv`.
pub fn index_top_mv(options: Options) -> (r: Result<FormatParams, RequestError>)
    ensures
        endpoint_call(
            r,
            str_pairs(options.params@),
            options.cookie@,
            "https://music.163.com/weapi/mv/toplist"@,
            Seq::empty(),
            CryptoScheme::WeApi,
            seq![("area"@, Source::OrDefault("area"@, ""@)), ("limit"@, Source::OrDefault("limit"@, "30"@)), ("offset"@, Source::OrDefault("offset"@, "0"@)), ("total"@, Source::Fixed("true"@))],
            ""@,
            ""@,
        ),
{
    let parts: Vec<ParamRule> = Vec::new();
    let table = vec![("area", ParamRule::OrDefault("area", "")), ("limit", ParamRule::OrDefault("limit", "30")), ("offset", ParamRule::OrDefault("offset", "0")), ("total", ParamRule::Fixed("true"))];
    proof {
        assert(part_sources(parts@) =~= Seq::empty());
        assert(table_sources(table@) =~= seq![("area"@, Source::OrDefault("area"@, ""@)), ("limit"@, Source::OrDefault("limit"@, "30"@)), ("offset"@, Source::OrDefault("offset"@, "0"@)), ("total"@, Source::Fixed("true"@))]);
    }
    call_endpoint(&options, "https://music.163.com/weapi/mv/toplist", parts, CryptoScheme::WeApi, table, "", "")
}

/// The endpoint served at `/top/playlist`.
pub fn index_top_playlist(options: Options) -> (r: Result<FormatParams, RequestError>)
    ensures
        endpoint_call(
            r,
            str_pairs(options.params@),
            options.cookie@,
            "https://music.163.com/weapi/playlist/list"@,
            Seq::empty(),
            CryptoScheme::WeApi,
            seq![("cat"@, Source::OrDefault("cat"@, "全部"@)), ("order"@, Source::OrDefault("order"@, "hot"@)), ("limit"@, Source::OrDefault("limit"@, "30"@)), ("lasttime"@, Source::OrDefault("before"@, "0"@)), ("total"@, Source::Fixed("true"@))],
            ""@,
            ""@,
        ),
{
    let parts: Vec<ParamRule> = Vec::new();
    let table = vec![("cat", ParamRule::OrDefault("cat", "全部")), ("order", ParamRule::OrDefault("order", "hot")), ("limit", ParamRule::OrDefault("limit", "30")), ("lasttime", ParamRule::OrDefault("before", "0")), ("total", ParamRule::Fixed("true"))];
    proof {
        assert(part_sources(parts@) =~= Seq::empty());
        assert(table_sources(table@) =~= seq![("cat"@, Source::OrDefault("cat"@, "全部"@)), ("order"@, Source::OrDefault("order"@, "hot"@)), ("limit"@, Source::OrDefault("limit"@, "30"@)), ("lasttime"@, Source::OrDefault("before"@, "0"@)), ("total"@, Source::Fixed("true"@))]);
    }
    call_endpoint(&options, "https://music.163.com/weapi/playlist/list", parts, CryptoScheme::WeApi, table, "", "")
}

/// The endpoint served at `/top/playlist/highquality`.
pub fn index_top_playlist_highquality(options: Options) -> (r: Result<FormatParams, RequestError>)
    ensures
        endpoint_call(
            r,
            str_pairs(options.params@),
            options.cookie@,
            "https://music.163.com/weapi/playlist/highquality/list"@,
            Seq::empty(),
            CryptoScheme::WeApi,
            seq![("cat"@, Source::OrDefault("cat"@, "全部"@)), ("limit"@, Source::OrDefault("limit"@, "30"@)), ("lasttime"@, Source::OrDefault("before"@, "0"@)), ("total"@, Source::Fixed("true"@))],
            ""@,
            ""@,
        ),
{
    let parts: Vec<ParamRule> = Vec::new();
    let table = vec![("cat", ParamRule::OrDefault("cat", "全部")), ("limit", ParamRule::OrDefault("limit", "30")), ("lasttime", ParamRule::OrDefault("before", "0")), ("total", ParamRule::Fixed("true"))];
    proof {
        assert(part_sources(parts@) =~= Seq::empty());
        assert(table_sources(table@) =~= seq![("cat"@, Source::OrDefault("cat"@, "全部"@)), ("limit"@, Source::OrDefault("limit"@, "30"@)), ("lasttime"@, Source::OrDefault("before"@, "0"@)), ("total"@, Source::Fixed("true"@))]);
    }
    call_endpoint(&options, "https://music.163.com/weapi/playlist/highquality/list", parts, CryptoScheme::WeApi, table, "", "")
}

/// The endpoint served at `/top/song`.
pub fn index_top_song(options: Options) -> (r: Result<FormatParams, RequestError>)
    ensures
        endpoint_call(
            r,
            str_pairs(options.params@),
            options.cookie@,
            "https://music.163.com/weapi/v1/discovery/new/songs"@,
            Seq::empty(),
            CryptoScheme::WeApi,
            seq![("areaId"@, Source::OrDefault("type"@, "0"@)), ("total"@, Source::Fixed("true"@))],
            ""@,
            ""@,
        ),
{
    let parts: Vec<ParamRule> = Vec::new();
    let table = vec![("areaId", ParamRule::OrDefault("type", "0")), ("total", ParamRule::Fixed("true"))];
    proof {
        assert(part_sources(parts@) =~= Seq::empty());
        assert(table_sources(table@) =~= seq![("areaId"@, Source::OrDefault("type"@, "0"@)), ("total"@, Source::Fixed("true"@))]);
    }
    call_endpoint(&options, "https://music.163.com/weapi/v1/discovery/new/songs", parts, CryptoScheme::WeApi, table, "", "")
}

/// The endpoint served at `/user/audio`.
pub fn index_user_audio(options: Options) -> (r: Result<FormatParams, RequestError>)
    ensures
        endpoint_call(
            r,
            str_pairs(options.params@),
            options.cookie@,
            "https://music.163.com/weapi/djradio/get/byuser"@,
            Seq::empty(),
            CryptoScheme::WeApi,
            seq![("userId"@, Source::Required("uid"@))],
            ""@,
            ""@,
        ),
{
    let parts: Vec<ParamRule> = Vec::new();
    let table = vec![("userId", ParamRule::Required("uid"))];
    proof {
        assert(part_sources(parts@) =~= Seq::empty());
        assert(table_sources(table@) =~= seq![("userId"@, Source::Required("uid"@))]);
    }
    call_endpoint(&options, "https://music.163.com/weapi/djradio/get/byuser", parts, CryptoScheme::WeApi, table, "", "")
}

/// The endpoint served at `/user/cloud`.
pub fn index_user_cloud(options: Options) -> (r: Result<FormatParams, RequestError>)
    ensures
        endpoint_call(
            r,
            str_pairs(options.params@),
            options.cookie@,
            "https://music.163.com/weapi/v1/cloud/get"@,
            Seq::empty(),
            CryptoScheme::WeApi,
            seq![("limit"@, Source::OrDefault("limit"@, "30"@)), ("offset"@, Source::OrDefault("offset"@, "0"@))],
            ""@,
            ""@,
        ),
{
    let parts: Vec<ParamRule> = Vec::new();
    let table = vec![("limit", ParamRule::OrDefault("limit", "30")), ("offset", ParamRule::OrDefault("offset", "0"))];
    proof {
        assert(part_sources(parts@) =~= Seq::empty());
        assert(table_sources(table@) =~= seq![("limit"@, Source::OrDefault("limit"@, "30"@)), ("offset"@, Source::OrDefault("offset"@, "0"@))]);
    }
    call_endpoint(&options, "https://music.163.com/weapi/v1/cloud/get", parts, CryptoScheme::WeApi, table, "", "")
}

/// The endpoint served at `/user/cloud/del`.
pub fn index_user_cloud_del(options: Options) -> (r: Result<FormatParams, RequestError>)
    ensures
        endpoint_call(
            r,
            str_pairs(options.params@),
            options.cookie@,
            "http://music.163.com/weapi/cloud/del"@,
            Seq::empty(),
            CryptoScheme::WeApi,
            seq![("songIds"@, Source::Required("id"@))],
            ""@,
            ""@,
        ),
{
    let parts: Vec<ParamRule> = Vec::new();
    let table = vec![("songIds", ParamRule::Required("id"))];
    proof {
        assert(part_sources(parts@) =~= Seq::empty());
        assert(table_sources(table@) =~= seq![("songIds"@, Source::Required("id"@))]);
    }
    call_endpoint(&options, "http://music.163.com/weapi/cloud/del", parts, CryptoScheme::WeApi, table, "", "")
}

/// The endpoint served at `/user/cloud/detail`.
pub fn index_user_cloud_detail(options: Options) -> (r: Result<FormatParams, RequestError>)
    ensures
        endpoint_call(
            r,
            str_pairs(options.params@),
            options.cookie@,
            "https://music.163.com/weapi/v1/cloud/get/byids"@,
            Seq::empty(),
            CryptoScheme::WeApi,
            seq![("songIds"@, Source::Required("id"@))],
            ""@,
            ""@,
        ),
{
    let parts: Vec<ParamRule> = Vec::new();
    let table = vec![("songIds", ParamRule::Required("id"))];
    proof {
        assert(part_sources(parts@) =~= Seq::empty());
        assert(table_sources(table@) =~= seq![("songIds"@, Source::Required("id"@))]);
    }
    call_endpoint(&options, "https://music.163.com/weapi/v1/cloud/get/byids", parts, CryptoScheme::WeApi, table, "", "")
}

/// The endpoint served at `/user/detail`.
pub fn index_user_detail(options: Options) -> (r: Result<FormatParams, RequestError>)
    ensures
        endpoint_call(
            r,
            str_pairs(options.params@),
            options.cookie@,
            "https://music.163.com/weapi/v1/user/detail/"@,
            seq![Source::Required("uid"@)],
            CryptoScheme::WeApi,
            Seq::empty(),
            ""@,
            ""@,
        ),
{
    let parts = vec![ParamRule::Required("uid")];
    let table: Vec<(&'static str, ParamRule)> = Vec::new();
    proof {
        assert(part_sources(parts@) =~= seq![Source::Required("uid"@)]);
        assert(table_sources(table@) =~= Seq::empty());
    }
    call_endpoint(&options, "https://music.163.com/weapi/v1/user/detail/", parts, CryptoScheme::WeApi, table, "", "")
}

/// The endpoint served at `/user/dj`.
pub fn index_user_dj(options: Options) -> (r: Result<FormatParams, RequestError>)
    ensures
        endpoint_call(
            r,
            str_pairs(options.params@),
            options.cookie@,
            "https://music.163.com/weapi/dj/program/"@,
            seq![Source::Required("uid"@)],
            CryptoScheme::WeApi,
            seq![("limit"@, Source::OrDefault("limit"@, "30"@)), ("offset"@, Source::OrDefault("offset"@, "0"@))],
            ""@,
            ""@,
        ),
{
    let parts = vec![ParamRule::Required("uid")];
    let table = vec![("limit", ParamRule::OrDefault("limit", "30")), ("offset", ParamRule::OrDefault("offset", "0"))];
    proof {
        assert(part_sources(parts@) =~= seq![Source::Required("uid"@)]);
        assert(table_sources(table@) =~= seq![("limit"@, Source::OrDefault("limit"@, "30"@)), ("offset"@, Source::OrDefault("offset"@, "0"@))]);
    }
    call_endpoint(&options, "https://music.163.com/weapi/dj/program/", parts, CryptoScheme::WeApi, table, "", "")
}

/// The endpoint served at `/user/event`.
pub fn index_user_event(options: Options) -> (r: Result<FormatParams, RequestError>)
    ensures
        endpoint_call(
            r,
            str_pairs(options.params@),
            options.cookie@,
            "https://music.163.com/weapi/event/get/"@,
            seq![Source::Required("uid"@)],
            CryptoScheme::WeApi,
            seq![("getcounts"@, Source::Fixed("true"@)), ("time"@, Source::OrDefault("lasttime"@, "-1"@)), ("limit"@, Source::OrDefault("limit"@, "30"@)), ("total"@, Source::Fixed("true"@))],
            ""@,
            ""@,
        ),
{
    let parts = vec![ParamRule::Required("uid")];
    let table = vec![("getcounts", ParamRule::Fixed("true")), ("time", ParamRule::OrDefault("lasttime", "-1")), ("limit", ParamRule::OrDefault("limit", "30")), ("total", ParamRule::Fixed("true"))];
    proof {
        assert(part_sources(parts@) =~= seq![Source::Required("uid"@)]);
        assert(table_sources(table@) =~= seq![("getcounts"@, Source::Fixed("true"@)), ("time"@, Source::OrDefault("lasttime"@, "-1"@)), ("limit"@, Source::OrDefault("limit"@, "30"@)), ("total"@, Source::Fixed("true"@))]);
    }
    call_endpoint(&options, "https://music.163.com/weapi/event/get/", parts, CryptoScheme::WeApi, table, "", "")
}

/// The endpoint served at `/user/followeds`.
pub fn index_user_followeds(options: Options) -> (r: Result<FormatParams, RequestError>)
    ensures
        endpoint_call(
            r,
            str_pairs(options.params@),
            options.cookie@,
            "https://music.163.com/eapi/user/getfolloweds/"@,
            seq![Source::Required("uid"@)],
            CryptoScheme::EApi,
            seq![("userId"@, Source::Required("uid"@)), ("time"@, Source::OrDefault("lasttime"@, "-1"@)), ("limit"@, Source::OrDefault("limit"@, "30"@))],
            ""@,
            ""@,
        ),
{
    let parts = vec![ParamRule::Required("uid")];
    let table = vec![("userId", ParamRule::Required("uid")), ("time", ParamRule::OrDefault("lasttime", "-1")), ("limit", ParamRule::OrDefault("limit", "30"))];
    proof {
        assert(part_sources(parts@) =~= seq![Source::Required("uid"@)]);
        assert(table_sources(table@) =~= seq![("userId"@, Source::Required("uid"@)), ("time"@, Source::OrDefault("lasttime"@, "-1"@)), ("limit"@, Source::OrDefault("limit"@, "30"@))]);
    }
    call_endpoint(&options, "https://music.163.com/eapi/user/getfolloweds/", parts, CryptoScheme::EApi, table, "", "")
}

/// The endpoint served at `/user/follows`.
pub fn index_user_follows(options: Options) -> (r: Result<FormatParams, RequestError>)
    ensures
        endpoint_call(
            r,
            str_pairs(options.params@),
            options.cookie@,
            "https://music.163.com/weapi/user/getfollows/"@,
            seq![Source::Required("uid"@)],
            CryptoScheme::WeApi,
            seq![("offset"@, Source::OrDefault("offset"@, "0"@)), ("limit"@, Source::OrDefault("limit"@, "30"@)), ("order"@, Source::Fixed("true"@))],
            ""@,
            ""@,
        ),
{
    let parts = vec![ParamRule::Required("uid")];
    let table = vec![("offset", ParamRule::OrDefault("offset", "0")), ("limit", ParamRule::OrDefault("limit", "30")), ("order", ParamRule::Fixed("true"))];
    proof {
        assert(part_sources(parts@) =~= seq![Source::Required("uid"@)]);
        assert(table_sources(table@) =~= seq![("offset"@, Source::OrDefault("offset"@, "0"@)), ("limit"@, Source::OrDefault("limit"@, "30"@)), ("order"@, Source::Fixed("true"@))]);
    }
    call_endpoint(&options, "https://music.163.com/weapi/user/getfollows/", parts, CryptoScheme::WeApi, table, "", "")
}

/// The endpoint served at `/user/playlist`.
pub fn index_user_playlist(options: Options) -> (r: Result<FormatParams, RequestError>)
    ensures
        endpoint_call(
            r,
            str_pairs(options.params@),
            options.cookie@,
            "https://music.163.com/weapi/user/playlist"@,
            Seq::empty(),
            CryptoScheme::WeApi,
            seq![("uid"@, Source::Required("uid"@)), ("limit"@, Source::OrDefault("limit"@, "30"@)), ("offset"@, Source::OrDefault("offset"@, "0"@))],
            ""@,
            ""@,
        ),
{
    let parts: Vec<ParamRule> = Vec::new();
    let table = vec![("uid", ParamRule::Required("uid")), ("limit", ParamRule::OrDefault("limit", "30")), ("offset", ParamRule::OrDefault("offset", "0"))];
    proof {
        assert(part_sources(parts@) =~= Seq::empty());
        assert(table_sources(table@) =~= seq![("uid"@, Source::Required("uid"@)), ("limit"@, Source::OrDefault("limit"@, "30"@)), ("offset"@, Source::OrDefault("offset"@, "0"@))]);
    }
    call_endpoint(&options, "https://music.163.com/weapi/user/playlist", parts, CryptoScheme::WeApi, table, "", "")
}

/// The endpoint served at `/user/record`.
pub fn index_user_record(options: Options) -> (r: Result<FormatParams, RequestError>)
    ensures
        endpoint_call(
            r,
            str_pairs(options.params@),
            options.cookie@,
            "https://music.163.com/weapi/v1/play/record"@,
            Seq::empty(),
            CryptoScheme::WeApi,
            seq![("uid"@, Source::Required("uid"@)), ("type"@, Source::OrDefault("type"@, "1"@))],
            ""@,
            ""@,
        ),
{
    let parts: Vec<ParamRule> = Vec::new();
    let table = vec![("uid", ParamRule::Required("uid")), ("type", ParamRule::OrDefault("type", "1"))];
    proof {
        assert(part_sources(parts@) =~= Seq::empty());
        assert(table_sources(table@) =~= seq![("uid"@, Source::Required("uid"@)), ("type"@, Source::OrDefault("type"@, "1"@))]);
    }
    call_endpoint(&options, "https://music.163.com/weapi/v1/play/record", parts, CryptoScheme::WeApi, table, "", "")
}

/// The endpoint served at `/user/update`.
pub fn index_user_update(options: Options) -> (r: Result<FormatParams, RequestError>)
    ensures
        endpoint_call(
            r,
            str_pairs(options.params@),
            options.cookie@,
            "https://music.163.com/weapi/user/profile/update"@,
            Seq::empty(),
            CryptoScheme::WeApi,
            seq![("avatarImgId"@, Source::Fixed("0"@)), ("birthday"@, Source::Required("birthday"@)), ("city"@, Source::Required("city"@)), ("gender"@, Source::Required("gender"@)), ("nickname"@, Source::Required("nickname"@)), ("province"@, Source::Required("province"@)), ("signature"@, Source::Required("signature"@))],
            ""@,
            ""@,
        ),
{
    let parts: Vec<ParamRule> = Vec::new();
    let table = vec![("avatarImgId", ParamRule::Fixed("0")), ("birthday", ParamRule::Required("birthday")), ("city", ParamRule::Required("city")), ("gender", ParamRule::Required("gender")), ("nickname", ParamRule::Required("nickname")), ("province", ParamRule::Required("province")), ("signature", ParamRule::Required("signature"))];
    proof {
        assert(part_sources(parts@) =~= Seq::empty());
        assert(table_sources(table@) =~= seq![("avatarImgId"@, Source::Fixed("0"@)), ("birthday"@, Source::Required("birthday"@)), ("city"@, Source::Required("city"@)), ("gender"@, Source::Required("gender"@)), ("nickname"@, Source::Required("nickname"@)), ("province"@, Source::Required("province"@)), ("signature"@, Source::Required("signature"@))]);
    }
    call_endpoint(&options, "https://music.163.com/weapi/user/profile/update", parts, CryptoScheme::WeApi, table, "", "")
}

/// The endpoint served at `/video/detail`.
pub fn index_video_detail(options: Options) -> (r: Result<FormatParams, RequestError>)
    ensures
        endpoint_call(
            r,
            str_pairs(options.params@),
            options.cookie@,
            "https://music.163.com/weapi/cloudvideo/v1/video/detail"@,
            Seq::empty(),
            CryptoScheme::WeApi,
            seq![("id"@, Source::Required("id"@))],
            ""@,
            ""@,
        ),
{
    let parts: Vec<ParamRule> = Vec::new();
    let table = vec![("id", ParamRule::Required("id"))];
    proof {
        assert(part_sources(parts@) =~= Seq::empty());
        assert(table_sources(table@) =~= seq![("id"@, Source::Required("id"@))]);
    }
    call_endpoint(&options, "https://music.163.com/weapi/cloudvideo/v1/video/detail", parts, CryptoScheme::WeApi, table, "", "")
}

/// The endpoint served at `/video/group`.
pub fn index_video_group(options: Options) -> (r: Result<FormatParams, RequestError>)
    ensures
        endpoint_call(
            r,
            str_pairs(options.params@),
            options.cookie@,
            "https://music.163.com/weapi/videotimeline/videogroup/get"@,
            Seq::empty(),
            CryptoScheme::WeApi,
            seq![("groupId"@, Source::Required("id"@)), ("offset"@, Source::OrDefault("offset"@, "0"@)), ("needUrl"@, Source::Fixed("true"@)), ("resolution"@, Source::OrDefault("res"@, "1080"@))],
            ""@,
            ""@,
        ),
{
    let parts: Vec<ParamRule> = Vec::new();
    let table = vec![("groupId", ParamRule::Required("id")), ("offset", ParamRule::OrDefault("offset", "0")), ("needUrl", ParamRule::Fixed("true")), ("resolution", ParamRule::OrDefault("res", "1080"))];
    proof {
        assert(part_sources(parts@) =~= Seq::empty());
        assert(table_sources(table@) =~= seq![("groupId"@, Source::Required("id"@)), ("offset"@, Source::OrDefault("offset"@, "0"@)), ("needUrl"@, Source::Fixed("true"@)), ("resolution"@, Source::OrDefault("res"@, "1080"@))]);
    }
    call_endpoint(&options, "https://music.163.com/weapi/videotimeline/videogroup/get", parts, CryptoScheme::WeApi, table, "", "")
}

/// The endpoint served at `/video/sub`.
pub fn index_video_sub(options: Options) -> (r: Result<FormatParams, RequestError>)
    ensures
        endpoint_call(
            r,
            str_pairs(options.params@),
            options.cookie@,
            "https://music.163.com/weapi/cloudvideo/video/"@,
            seq![Source::Choice("t"@, "0"@, "1"@, "sub"@, "unsub"@)],
            CryptoScheme::WeApi,
            seq![("id"@, Source::Required("id"@))],
            ""@,
            ""@,
        ),
{
    let parts = vec![ParamRule::Choice("t", "0", "1", "sub", "unsub")];
    let table = vec![("id", ParamRule::Required("id"))];
    proof {
        assert(part_sources(parts@) =~= seq![Source::Choice("t"@, "0"@, "1"@, "sub"@, "unsub"@)]);
        assert(table_sources(table@) =~= seq![("id"@, Source::Required("id"@))]);
    }
    call_endpoint(&options, "https://music.163.com/weapi/cloudvideo/video/", parts, CryptoScheme::WeApi, table, "", "")
}

/// The endpoint served at `/video/url`.
pub fn index_video_url(options: Options) -> (r: Result<FormatParams, RequestError>)
    ensures
        endpoint_call(
            r,
            str_pairs(options.params@),
            options.cookie@,
            "https://music.163.com/weapi/cloudvideo/playurl"@,
            Seq::empty(),
            CryptoScheme::WeApi,
            seq![("ids"@, Source::Wrapped("[\\\""@, "id"@, "\\\"]"@)), ("resolution"@, Source::OrDefault("res"@, "1080"@))],
            ""@,
            ""@,
        ),
{
    let parts: Vec<ParamRule> = Vec::new();
    let table = vec![("ids", ParamRule::Wrapped("[\\\"", "id", "\\\"]")), ("resolution", ParamRule::OrDefault("res", "1080"))];
    proof {
        assert(part_sources(parts@) =~= Seq::empty());
        assert(table_sources(table@) =~= seq![("ids"@, Source::Wrapped("[\\\""@, "id"@, "\\\"]"@)), ("resolution"@, Source::OrDefault("res"@, "1080"@))]);
    }
    call_endpoint(&options, "https://music.163.com/weapi/cloudvideo/playurl", parts, CryptoScheme::WeApi, table, "", "")
}

} // verus!
