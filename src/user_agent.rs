use vstd::prelude::*;

verus! {

broadcast use vstd::string::group_string_axioms;

/// Number of entries in the browser User-Agent corpus.
pub const USER_AGENT_COUNT: usize = 14;

/// The browser User-Agent corpus: entries 0 to 6 are mobile, 8 to 12 desktop.
pub open spec fn user_agent_text(i: int) -> Seq<char> {
    if i == 0 {
        "Mozilla/5.0 (iPhone; CPU iPhone OS 9_1 like Mac OS X) AppleWebKit/601.1.46 (KHTML, like Gecko) Version/9.0 Mobile/13B143 Safari/601.1"@
    } else if i == 1 {
        "Mozilla/5.0 (iPhone; CPU iPhone OS 9_1 like Mac OS X) AppleWebKit/601.1.46 (KHTML, like Gecko) Version/9.0 Mobile/13B143 Safari/601.1"@
    } else if i == 2 {
        "Mozilla/5.0 (Linux; Android 5.0; SM-G900P Build/LRX21T) AppleWebKit/537.36 (KHTML, like Gecko) Chrome/59.0.3071.115 Mobile Safari/537.36"@
    } else if i == 3 {
        "Mozilla/5.0 (Linux; Android 6.0; Nexus 5 Build/MRA58N) AppleWebKit/537.36 (KHTML, like Gecko) Chrome/59.0.3071.115 Mobile Safari/537.36"@
    } else if i == 4 {
        "Mozilla/5.0 (Linux; Android 5.1.1; Nexus 6 Build/LYZ28E) AppleWebKit/537.36 (KHTML, like Gecko) Chrome/59.0.3071.115 Mobile Safari/537.36"@
    } else if i == 5 {
        "Mozilla/5.0 (iPhone; CPU iPhone OS 10_3_2 like Mac OS X) AppleWebKit/603.2.4 (KHTML, like Gecko) Mobile/14F89;GameHelper"@
    } else if i == 6 {
        "Mozilla/5.0 (iPhone; CPU iPhone OS 10_0 like Mac OS X) AppleWebKit/602.1.38 (KHTML, like Gecko) Version/10.0 Mobile/14A300 Safari/602.1"@
    } else if i == 7 {
        "Mozilla/5.0 (iPad; CPU OS 10_0 like Mac OS X) AppleWebKit/602.1.38 (KHTML, like Gecko) Version/10.0 Mobile/14A300 Safari/602.1"@
    } else if i == 8 {
        "Mozilla/5.0 (Macintosh; Intel Mac OS X 10.12; rv:46.0) Gecko/20100101 Firefox/46.0"@
    } else if i == 9 {
        "Mozilla/5.0 (Macintosh; Intel Mac OS X 10_12_5) AppleWebKit/537.36 (KHTML, like Gecko) Chrome/59.0.3071.115 Safari/537.36"@
    } else if i == 10 {
        "Mozilla/5.0 (Macintosh; Intel Mac OS X 10_12_5) AppleWebKit/603.2.4 (KHTML, like Gecko) Version/10.1.1 Safari/603.2.4"@
    } else if i == 11 {
        "Mozilla/5.0 (Windows NT 10.0; Win64; x64; rv:46.0) Gecko/20100101 Firefox/46.0"@
    } else if i == 12 {
        "Mozilla/5.0 (Windows NT 10.0; Win64; x64) AppleWebKit/537.36 (KHTML, like Gecko) Chrome/51.0.2704.103 Safari/537.36"@
    } else {
        "Mozilla/5.0 (Windows NT 10.0; Win64; x64) AppleWebKit/537.36 (KHTML, like Gecko) Chrome/42.0.2311.135 Safari/537.36 Edge/13.1058"@
    }
}

/// The one User-Agent of the LinuxApi scheme.
pub open spec fn linux_user_agent_text() -> Seq<char> {
    "Mozilla/5.0 (X11; Linux x86_64) AppleWebKit/537.36 (KHTML, like Gecko) Chrome/60.0.3112.90 Safari/537.36"@
}

pub fn user_agent_at(i: usize) -> (r: &'static str)
    requires
        i < USER_AGENT_COUNT,
    ensures
        r@ == user_agent_text(i as int),
{
    if i == 0 {
        "Mozilla/5.0 (iPhone; CPU iPhone OS 9_1 like Mac OS X) AppleWebKit/601.1.46 (KHTML, like Gecko) Version/9.0 Mobile/13B143 Safari/601.1"
    } else if i == 1 {
        "Mozilla/5.0 (iPhone; CPU iPhone OS 9_1 like Mac OS X) AppleWebKit/601.1.46 (KHTML, like Gecko) Version/9.0 Mobile/13B143 Safari/601.1"
    } else if i == 2 {
        "Mozilla/5.0 (Linux; Android 5.0; SM-G900P Build/LRX21T) AppleWebKit/537.36 (KHTML, like Gecko) Chrome/59.0.3071.115 Mobile Safari/537.36"
    } else if i == 3 {
        "Mozilla/5.0 (Linux; Android 6.0; Nexus 5 Build/MRA58N) AppleWebKit/537.36 (KHTML, like Gecko) Chrome/59.0.3071.115 Mobile Safari/537.36"
    } else if i == 4 {
        "Mozilla/5.0 (Linux; Android 5.1.1; Nexus 6 Build/LYZ28E) AppleWebKit/537.36 (KHTML, like Gecko) Chrome/59.0.3071.115 Mobile Safari/537.36"
    } else if i == 5 {
        "Mozilla/5.0 (iPhone; CPU iPhone OS 10_3_2 like Mac OS X) AppleWebKit/603.2.4 (KHTML, like Gecko) Mobile/14F89;GameHelper"
    } else if i == 6 {
        "Mozilla/5.0 (iPhone; CPU iPhone OS 10_0 like Mac OS X) AppleWebKit/602.1.38 (KHTML, like Gecko) Version/10.0 Mobile/14A300 Safari/602.1"
    } else if i == 7 {
        "Mozilla/5.0 (iPad; CPU OS 10_0 like Mac OS X) AppleWebKit/602.1.38 (KHTML, like Gecko) Version/10.0 Mobile/14A300 Safari/602.1"
    } else if i == 8 {
        "Mozilla/5.0 (Macintosh; Intel Mac OS X 10.12; rv:46.0) Gecko/20100101 Firefox/46.0"
    } else if i == 9 {
        "Mozilla/5.0 (Macintosh; Intel Mac OS X 10_12_5) AppleWebKit/537.36 (KHTML, like Gecko) Chrome/59.0.3071.115 Safari/537.36"
    } else if i == 10 {
        "Mozilla/5.0 (Macintosh; Intel Mac OS X 10_12_5) AppleWebKit/603.2.4 (KHTML, like Gecko) Version/10.1.1 Safari/603.2.4"
    } else if i == 11 {
        "Mozilla/5.0 (Windows NT 10.0; Win64; x64; rv:46.0) Gecko/20100101 Firefox/46.0"
    } else if i == 12 {
        "Mozilla/5.0 (Windows NT 10.0; Win64; x64) AppleWebKit/537.36 (KHTML, like Gecko) Chrome/51.0.2704.103 Safari/537.36"
    } else {
        "Mozilla/5.0 (Windows NT 10.0; Win64; x64) AppleWebKit/537.36 (KHTML, like Gecko) Chrome/42.0.2311.135 Safari/537.36 Edge/13.1058"
    }
}

pub fn linux_user_agent() -> (r: &'static str)
    ensures
        r@ == linux_user_agent_text(),
{
    "Mozilla/5.0 (X11; Linux x86_64) AppleWebKit/537.36 (KHTML, like Gecko) Chrome/60.0.3112.90 Safari/537.36"
}

/// One of the mobile entries of the corpus.
pub open spec fn is_mobile_agent(s: Seq<char>) -> bool {
    exists|i: int| 0 <= i < 7 && s == user_agent_text(i)
}

/// One of the desktop entries of the corpus.
pub open spec fn is_desktop_agent(s: Seq<char>) -> bool {
    exists|i: int| 8 <= i < 13 && s == user_agent_text(i)
}

/// Any entry of the corpus.
pub open spec fn is_corpus_agent(s: Seq<char>) -> bool {
    exists|i: int| 0 <= i < USER_AGENT_COUNT && s == user_agent_text(i)
}

/// What the class tag `ua` admits: a mobile entry for `mobile`, a desktop entry
/// for `pc`, any entry when the tag is empty, the tag itself otherwise.
pub open spec fn agent_for_class(ua: Seq<char>, r: Seq<char>) -> bool {
    if ua == "mobile"@ {
        is_mobile_agent(r)
    } else if ua == "pc"@ {
        is_desktop_agent(r)
    } else if ua.len() == 0 {
        is_corpus_agent(r)
    } else {
        r == ua
    }
}

pub fn same_text(a: &str, b: &str) -> (r: bool)
    ensures
        r == (a@ == b@),
{
    String::from_str(a) == String::from_str(b)
}

/// The User-Agent that class tag `ua` gives for the drawn number `n`: mobile
/// entry `n % 7`, desktop entry `n % 5 + 8`, entry `n % 14` of the whole corpus
/// for an empty tag, or the tag itself.
pub open spec fn drawn_agent(ua: Seq<char>, n: int) -> Seq<char> {
    if ua == "mobile"@ {
        user_agent_text(n % 7)
    } else if ua == "pc"@ {
        user_agent_text(n % 5 + 8)
    } else if ua.len() == 0 {
        user_agent_text(n % 14)
    } else {
        ua
    }
}

/// The User-Agent for class tag `ua` and the drawn number `n`.
pub fn agent_for_draw<'a>(ua: &'a str, n: usize) -> (r: &'a str)
    ensures
        r@ == drawn_agent(ua@, n as int),
        agent_for_class(ua@, r@),
{
    if same_text(ua, "mobile") {
        user_agent_at(n % 7)
    } else if same_text(ua, "pc") {
        user_agent_at(n % 5 + 8)
    } else if !ua.is_empty() {
        ua
    } else {
        user_agent_at(n % USER_AGENT_COUNT)
    }
}

/// Picks a User-Agent for the class tag `ua`: uniformly among the mobile entries
/// for `mobile`, among the desktop entries for `pc`, among all entries when the tag
/// is empty; any other tag is taken as the User-Agent itself.
pub fn choose_user_agent<'a>(ua: &'a str) -> (r: &'a str)
    ensures
        agent_for_class(ua@, r@),
        exists|n: usize| r@ == drawn_agent(ua@, n as int),
{
    let n: usize = rand::random::<usize>();
    agent_for_draw(ua, n)
}

} // verus!
