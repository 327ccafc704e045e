use aes::cipher::block_padding::Pkcs7;
use aes::cipher::{BlockDecryptMut, KeyInit};
use netease_request::music_api::{
    empty_query_params_handler, index_album_newest, index_comment, index_comment_hot,
    index_login_cellphone, index_logout, index_playlist_update, index_search_default,
    index_search_hot, index_top_list, index_toplist_artist, request_handler, index_song_url,
    index_mv_url, index_user_detail, index_playlist_detail, index_album, index_comment_music,
    index_user_followeds, index_album_sub, index_banner, index_like, index_song_detail,
    index_video_url, index_register_cellphone, index_song_url_v1, index_mv_all,
    index_comment_like, index_resource_like, index_playmode_intelligence_list, index_follow,
    index_dj_toplist, index_search_suggest,
};
use netease_request::request::{CryptoScheme, RequestError};
use netease_request::user_agent::user_agent_at;
use netease_request::Options;

fn options(cookie: &str) -> Options<'_> {
    Options { method: "", url: "", params: vec![], cookie }
}

fn header<'a>(h: &'a [(String, String)], name: &str) -> Option<&'a str> {
    h.iter().find(|(n, _)| n == name).map(|(_, v)| v.as_str())
}

#[test]
fn album_newest_is_a_weapi_post() {
    let r = index_album_newest(options("")).unwrap();
    assert_eq!(r.url, "https://music.163.com/api/discovery/newAlbum");
    assert_eq!(r.method, "POST");
    assert!(r.body.starts_with("params="));
    assert!(header(&r.headers, "cookie").unwrap().starts_with("NMTID="));
    assert_eq!(header(&r.headers, "referer"), Some("https://music.163.com"));
}

#[test]
fn logout_uses_desktop_agent() {
    let r = index_logout(options("MUSIC_U=1")).unwrap();
    let desktop: Vec<&str> = (8..13).map(user_agent_at).collect();
    assert!(desktop.contains(&header(&r.headers, "user-agent").unwrap()));
    assert_eq!(header(&r.headers, "cookie"), Some("MUSIC_U=1"));
}

#[test]
fn search_hot_uses_mobile_agent() {
    let r = index_search_hot(options("a=b")).unwrap();
    let mobile: Vec<&str> = (0..7).map(user_agent_at).collect();
    assert!(mobile.contains(&header(&r.headers, "user-agent").unwrap()));
}

#[test]
fn search_default_is_eapi_with_empty_body() {
    let r = index_search_default(options("a=b")).unwrap();
    assert_eq!(r.url, "http://interface3.music.163.com/eapi/search/defaultkeyword/get");
    assert_eq!(r.body, "");
    assert_eq!(header(&r.headers, "referer"), None);
}

#[test]
fn toplist_artist_carries_params() {
    let r = index_toplist_artist(options("")).unwrap();
    assert_eq!(r.url, "https://music.163.com/weapi/toplist/artist");
    assert!(r.body.contains("&encSecKey="));
}

#[test]
fn handlers_share_one_path() {
    let a = empty_query_params_handler("https://music.163.com/weapi/x", CryptoScheme::LinuxApi, "c=1").unwrap();
    assert_eq!(a.url, "https://music.163.com/api/linux/forward");
    let b = request_handler("https://music.163.com/weapi/x", CryptoScheme::WeApi, vec![("k".to_string(), "v".to_string())], "c=1")
        .unwrap();
    assert_eq!(b.url, "https://music.163.com/weapi/x");
    assert_eq!(header(&b.headers, "cookie"), Some("c=1"));
}

fn with_params<'a>(params: Vec<(&'a str, &'a str)>, cookie: &'a str) -> Options<'a> {
    Options { method: "", url: "", params, cookie }
}

fn linux_plain(body: &str) -> String {
    let hex_text = body.strip_prefix("eparams=").unwrap();
    let data = hex::decode(hex_text).unwrap();
    let plain = ecb::Decryptor::<aes::Aes128>::new_from_slice(b"rFgB&h#%2?^eDg:Q")
        .unwrap()
        .decrypt_padded_vec_mut::<Pkcs7>(&data)
        .unwrap();
    String::from_utf8(plain).unwrap()
}

#[test]
fn test_index_top_list() {
    let options = Options {
        params: vec![("idx", "0")],
        cookie: &"".to_string(),
        url: &"".to_string(),
        method: &"".to_string(),
    };
    let result = index_top_list(options);
    println!("{:?}", result);
}

#[test]
fn top_list_picks_chart_by_position() {
    let r = index_top_list(with_params(vec![("idx", "3")], "c=1")).unwrap();
    assert_eq!(r.url, "https://music.163.com/api/linux/forward");
    assert_eq!(
        linux_plain(&r.body),
        r#"{"method":"POST","url":"https://music.163.com/api/v3/playlist/detail","params":{"id":"19723756","n":"10000"}}"#
    );
    let first = index_top_list(with_params(vec![], "c=1")).unwrap();
    assert!(linux_plain(&first.body).contains(r#""id":"3779629""#));
    let last = index_top_list(with_params(vec![("idx", "36")], "c=1")).unwrap();
    assert!(linux_plain(&last.body).contains(r#""id":"3001890046""#));
}

#[test]
fn top_list_rejects_bad_position() {
    assert!(matches!(index_top_list(with_params(vec![("idx", "37")], "")), Err(RequestError::InvalidParameter)));
    assert!(matches!(index_top_list(with_params(vec![("idx", "x")], "")), Err(RequestError::InvalidParameter)));
    assert!(matches!(index_top_list(with_params(vec![("idx", "-1")], "")), Err(RequestError::InvalidParameter)));
    assert!(index_top_list(with_params(vec![("idx", "+2")], "")).is_ok());
}

#[test]
fn comment_hot_needs_id() {
    let r = index_comment_hot(with_params(vec![("type", "1")], ""));
    assert!(matches!(r, Err(RequestError::MissingRequiredParameter)));
    let r = index_comment_hot(with_params(vec![("type", "6"), ("id", "1")], ""));
    assert!(matches!(r, Err(RequestError::InvalidParameter)));
    let r = index_comment_hot(with_params(vec![("type", "1"), ("id", "42")], "")).unwrap();
    assert_eq!(r.url, "https://music.163.com/weapi/v1/resource/hotcomments/R_MV_5_42");
}

#[test]
fn comment_reply_goes_out_as_desktop_client() {
    let r = index_comment(with_params(
        vec![("t", "2"), ("type", "0"), ("id", "5"), ("commentId", "9"), ("content", "hi")],
        "MUSIC_U=x",
    ))
    .unwrap();
    assert_eq!(r.url, "https://music.163.com/weapi/resource/comments/reply");
    assert_eq!(header(&r.headers, "cookie"), Some("MUSIC_U=x;os=pc;"));
}

#[test]
fn comment_requires_fields_of_its_operation() {
    let missing_content = index_comment(with_params(vec![("t", "0"), ("id", "5")], ""));
    assert!(matches!(missing_content, Err(RequestError::MissingRequiredParameter)));
    let missing_thread = index_comment(with_params(vec![("t", "1"), ("type", "6"), ("id", "5"), ("commentId", "1")], ""));
    assert!(matches!(missing_thread, Err(RequestError::MissingRequiredParameter)));
    let event = index_comment(with_params(
        vec![("t", "1"), ("type", "6"), ("id", "5"), ("threadId", "A_EV_2_7"), ("commentId", "1")],
        "",
    ));
    assert_eq!(event.unwrap().url, "https://music.163.com/weapi/resource/comments/delete");
    let bad_op = index_comment(with_params(vec![("t", "3"), ("id", "5")], ""));
    assert!(matches!(bad_op, Err(RequestError::InvalidParameter)));
}

#[test]
fn login_needs_password_and_phone() {
    assert!(matches!(
        index_login_cellphone(with_params(vec![("phone", "1")], "")),
        Err(RequestError::MissingRequiredParameter)
    ));
    assert!(matches!(
        index_login_cellphone(with_params(vec![("password", "p")], "")),
        Err(RequestError::MissingRequiredParameter)
    ));
    let r = index_login_cellphone(with_params(vec![("phone", "1"), ("password", "p")], "")).unwrap();
    assert_eq!(r.url, "https://music.163.com/weapi/login/cellphone");
}

#[test]
fn playlist_update_needs_id() {
    assert!(matches!(
        index_playlist_update(with_params(vec![("name", "n")], "")),
        Err(RequestError::MissingRequiredParameter)
    ));
    let r = index_playlist_update(with_params(vec![("id", "7"), ("name", "n")], "k=v;")).unwrap();
    assert_eq!(header(&r.headers, "cookie"), Some("k=v;os=pc;"));
}

#[test]
fn song_url_lists_ids_and_defaults_bitrate() {
    let r = index_song_url(with_params(vec![("id", "33894312")], "u=1")).unwrap();
    assert_eq!(r.url, "https://music.163.com/api/linux/forward");
    assert_eq!(header(&r.headers, "cookie"), Some("u=1;os=pc;"));
    assert_eq!(
        linux_plain(&r.body),
        r#"{"method":"POST","url":"https://music.163.com/api/song/enhance/player/url","params":{"ids":"[33894312]","br":"999000"}}"#
    );
}

#[test]
fn playlist_detail_takes_given_and_default_values() {
    let r = index_playlist_detail(with_params(vec![("id", "24381616")], "")).unwrap();
    assert_eq!(
        linux_plain(&r.body),
        r#"{"method":"POST","url":"https://music.163.com/api/v6/playlist/detail","params":{"id":"24381616","n":"100000","s":"8"}}"#
    );
    let r = index_playlist_detail(with_params(vec![("s", "2"), ("id", "1")], "")).unwrap();
    assert!(linux_plain(&r.body).ends_with(r#""params":{"id":"1","n":"100000","s":"2"}}"#));
}

#[test]
fn missing_required_parameter_is_reported() {
    assert!(matches!(index_mv_url(with_params(vec![("res", "720")], "")), Err(RequestError::MissingRequiredParameter)));
    assert!(matches!(index_user_detail(with_params(vec![], "")), Err(RequestError::MissingRequiredParameter)));
    assert!(matches!(index_song_url(with_params(vec![], "")), Err(RequestError::MissingRequiredParameter)));
    assert!(matches!(index_comment_music(with_params(vec![], "")), Err(RequestError::MissingRequiredParameter)));
}

#[test]
fn url_takes_parameter_tail() {
    let r = index_user_detail(with_params(vec![("uid", "32953014")], "")).unwrap();
    assert_eq!(r.url, "https://music.163.com/weapi/v1/user/detail/32953014");
    let r = index_album(with_params(vec![], "")).unwrap();
    assert_eq!(r.url, "https://music.163.com/weapi/v1/album/0");
    let r = index_comment_music(with_params(vec![("id", "186016")], "")).unwrap();
    assert_eq!(r.url, "https://music.163.com/api/v1/resource/comments/R_SO_4_186016");
}

#[test]
fn eapi_endpoint_keeps_url_and_sends_no_body() {
    let r = index_user_followeds(with_params(vec![("uid", "7")], "")).unwrap();
    assert_eq!(r.url, "https://music.163.com/eapi/user/getfolloweds/7");
    assert_eq!(r.body, "");
    assert_eq!(r.method, "POST");
}

fn linux_params(body: &str) -> String {
    let plain = linux_plain(body);
    plain[plain.find(r#""params":"#).unwrap() + 9..plain.len() - 1].to_string()
}

#[test]
fn album_sub_flag_reads_an_integer() {
    let r = index_album_sub(with_params(vec![("t", "1"), ("id", "3")], "")).unwrap();
    assert_eq!(r.url, "https://music.163.com/api/album/sub");
    let r = index_album_sub(with_params(vec![("id", "3")], "")).unwrap();
    assert_eq!(r.url, "https://music.163.com/api/album/unsub");
    let r = index_album_sub(with_params(vec![("t", "+1"), ("id", "3")], "")).unwrap();
    assert_eq!(r.url, "https://music.163.com/api/album/sub");
    assert!(matches!(index_album_sub(with_params(vec![("t", "yes"), ("id", "3")], "")), Err(RequestError::InvalidParameter)));
    assert!(matches!(index_album_sub(with_params(vec![("t", "1")], "")), Err(RequestError::MissingRequiredParameter)));
    assert!(matches!(index_album_sub(with_params(vec![("t", "x")], "")), Err(RequestError::InvalidParameter)));
}

#[test]
fn banner_client_kind_by_position() {
    let r = index_banner(with_params(vec![("type", "2")], "")).unwrap();
    assert_eq!(linux_params(&r.body), r#"{"clientType":"iphone"}"#);
    let r = index_banner(with_params(vec![], "")).unwrap();
    assert_eq!(linux_params(&r.body), r#"{"clientType":"pc"}"#);
    assert!(matches!(index_banner(with_params(vec![("type", "4")], "")), Err(RequestError::InvalidParameter)));
}

#[test]
fn url_parts_join_in_order() {
    let r = index_like(with_params(vec![("id", "9")], "")).unwrap();
    assert_eq!(r.url, "https://music.163.com/weapi/radio/like?alg=itembased&trackId=9&time=25");
    let r = index_follow(with_params(vec![("t", "1"), ("id", "4")], "")).unwrap();
    assert_eq!(r.url, "https://music.163.com/weapi/user/follow/4");
    assert_eq!(header(&r.headers, "cookie").map(|c| c.ends_with(";os=pc;")), Some(true));
    let r = index_search_suggest(with_params(vec![("type", "pc")], "")).unwrap();
    assert_eq!(r.url, "https://music.163.com/weapi/search/suggest/web");
    assert!(index_dj_toplist(with_params(vec![], "")).is_ok());
}

#[test]
fn wrapped_and_hashed_values() {
    assert!(matches!(index_song_detail(with_params(vec![], "")), Err(RequestError::MissingRequiredParameter)));
    assert!(index_song_detail(with_params(vec![("ids", "1")], "")).is_ok());
    assert!(index_video_url(with_params(vec![("id", "v")], "")).is_ok());
    assert!(matches!(
        index_register_cellphone(with_params(vec![("captcha", "1"), ("phone", "2"), ("nickname", "n")], "")),
        Err(RequestError::MissingRequiredParameter)
    ));
    assert!(index_register_cellphone(with_params(vec![("captcha", "1"), ("phone", "2"), ("nickname", "n"), ("password", "p")], "")).is_ok());
}

#[test]
fn song_url_v1_goes_out_as_android_client() {
    let r = index_song_url_v1(with_params(vec![("id", "1"), ("level", "sky")], "a=b")).unwrap();
    assert_eq!(header(&r.headers, "cookie"), Some("a=b;os=android;appver=8.10.05;"));
    assert_eq!(r.body, "");
    assert!(matches!(index_song_url_v1(with_params(vec![], "")), Err(RequestError::MissingRequiredParameter)));
}

#[test]
fn comment_and_resource_likes() {
    let r = index_comment_like(with_params(vec![("t", "1"), ("type", "2"), ("id", "8"), ("cid", "5")], "")).unwrap();
    assert_eq!(r.url, "https://music.163.com/weapi/v1/comment/like");
    assert!(matches!(
        index_comment_like(with_params(vec![("type", "2"), ("id", "8")], "")),
        Err(RequestError::MissingRequiredParameter)
    ));
    assert!(matches!(index_comment_like(with_params(vec![("type", "9")], "")), Err(RequestError::InvalidParameter)));
    let r = index_resource_like(with_params(vec![("type", "1"), ("id", "8")], "")).unwrap();
    assert_eq!(r.url, "https://music.163.com/weapi/resource/unlike");
}

#[test]
fn mv_all_and_playmode() {
    assert!(index_mv_all(with_params(vec![("area", "内地")], "")).is_ok());
    assert!(matches!(
        index_playmode_intelligence_list(with_params(vec![("id", "1"), ("pid", "2")], "")),
        Err(RequestError::MissingRequiredParameter)
    ));
    assert!(index_playmode_intelligence_list(with_params(vec![("id", "1"), ("pid", "2"), ("trakcs", "1")], "")).is_ok());
}
