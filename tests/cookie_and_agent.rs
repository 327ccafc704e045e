use netease_request::cookie::{extract_csrf, get_cookie_string};
use netease_request::crypto::weapi_key_from;
use netease_request::user_agent::{agent_for_draw, choose_user_agent, user_agent_at, USER_AGENT_COUNT};

fn is_lower_hex(s: &str) -> bool {
    s.chars().all(|c| c.is_ascii_digit() || ('a'..='f').contains(&c))
}

#[test]
fn empty_cookie_becomes_anonymous_marker() {
    for _ in 0..20 {
        let c = get_cookie_string("");
        assert!(c.starts_with("NMTID="));
        assert!(c.ends_with(';'));
        let hex = &c[6..c.len() - 1];
        assert_eq!(hex.len(), 32);
        assert!(is_lower_hex(hex));
    }
}

#[test]
fn anonymous_markers_differ() {
    assert_ne!(get_cookie_string(""), get_cookie_string(""));
}

#[test]
fn supplied_cookie_passes_through() {
    assert_eq!(get_cookie_string("MUSIC_U=abc; _csrf=1"), "MUSIC_U=abc; _csrf=1");
    assert_eq!(get_cookie_string("x"), "x");
}

#[test]
fn csrf_found_between_attributes() {
    assert_eq!(extract_csrf("a=1; _csrf=XYZ123; b=2"), "XYZ123");
}

#[test]
fn csrf_absent() {
    assert_eq!(extract_csrf("a=1;b=2"), "");
    assert_eq!(extract_csrf(""), "");
}

#[test]
fn csrf_at_end_of_cookie() {
    assert_eq!(extract_csrf("MUSIC_U=u; _csrf=abc"), "abc");
}

#[test]
fn csrf_empty_value_is_skipped() {
    assert_eq!(extract_csrf("_csrf=; _csrf=def; x=1"), "def");
    assert_eq!(extract_csrf("_csrf=;"), "");
}

#[test]
fn csrf_first_one_wins() {
    assert_eq!(extract_csrf("_csrf=one;_csrf=two"), "one");
}

#[test]
fn csrf_value_may_hold_non_ascii() {
    assert_eq!(extract_csrf("_csrf=é1;z"), "é1");
}

#[test]
fn mobile_agent_is_one_of_seven() {
    let mobile: Vec<&str> = (0..7).map(user_agent_at).collect();
    for _ in 0..300 {
        let ua = choose_user_agent("mobile");
        assert!(mobile.contains(&ua), "{}", ua);
    }
}

#[test]
fn pc_agent_is_one_of_five_desktop() {
    let desktop: Vec<&str> = (8..13).map(user_agent_at).collect();
    for _ in 0..300 {
        let ua = choose_user_agent("pc");
        assert!(desktop.contains(&ua), "{}", ua);
    }
}

#[test]
fn unset_agent_is_from_whole_corpus() {
    let all: Vec<&str> = (0..USER_AGENT_COUNT).map(user_agent_at).collect();
    assert_eq!(all.len(), 14);
    for _ in 0..300 {
        assert!(all.contains(&choose_user_agent("")));
    }
}

#[test]
fn literal_agent_is_returned_unchanged() {
    assert_eq!(choose_user_agent("custom-ua"), "custom-ua");
}

#[test]
fn agent_for_draw_picks_by_position() {
    assert_eq!(agent_for_draw("mobile", 9), user_agent_at(2));
    assert_eq!(agent_for_draw("pc", 7), user_agent_at(10));
    assert_eq!(agent_for_draw("", 15), user_agent_at(1));
    assert_eq!(agent_for_draw("custom-ua", 3), "custom-ua");
    assert_eq!(agent_for_draw("mobile", usize::MAX), user_agent_at(usize::MAX % 7));
}

#[test]
fn weapi_key_spells_bytes_in_base62() {
    assert_eq!(weapi_key_from(&vec![0, 25, 26, 51, 52, 61, 62, 255]), b"azAZ09ah".to_vec());
}
