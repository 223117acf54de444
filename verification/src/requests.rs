use vstd::prelude::*;
use vstd::string::*;

use crate::error::ApiError;
use crate::profile::UserInfos;

verus! {

/// The script that names the query hash of the posts query.
pub const QUERY_HASH_SCRIPT_URL: &'static str =
    "https://www.instagram.com/static/bundles/es6/ProfilePageContainer.js/76d5c065446f.js";

/// The query hash of the reels-media query.
pub const HIGHLIGHT_REEL_QUERY_HASH: &'static str = "0d2a558130b34ee7f7d1e5a3cddc52c2";

/// The session that the mobile API is called with.
pub const SESSION_ID: &'static str = "10109976513%3AjCh6P6OrQC9k5n%3A12";

/// The browser that the web pages are asked for as.
pub const USER_AGENT: &'static str = "Mozilla/5.0 (Windows NT 10.0; Win64; x64) AppleWebKit/537.36 (KHTML, like Gecko) Chrome/79.0.3945.130 Safari/537.36";

/// The app that the mobile API is called as.
pub const USER_AGENT_MOBILE: &'static str = "Instagram 9.5.2 (iPhone7,2; iPhone OS 9_3_3; en_US; en-US; scale=2.00; 750x1334) AppleWebKit/420+";

/// The application id that the search is made with.
pub const APP_ID: &'static str = "936619743392459";

/// What a browser accepts when it asks for a page.
pub const ACCEPT_PAGE: &'static str = "text/html,application/xhtml+xml,application/xml;q=0.9,image/webp,image/apng,*/*;q=0.8,application/signed-exchange;v=b3;q=0.9";

/// A GET request: the url and the headers to send, in order.
#[derive(Debug, PartialEq)]
pub struct HttpRequest {
    pub url: String,
    pub headers: Vec<(String, String)>,
}

/// A request by its characters.
pub struct HttpRequestView {
    pub url: Seq<char>,
    pub headers: Seq<(Seq<char>, Seq<char>)>,
}

impl View for HttpRequest {
    type V = HttpRequestView;

    open spec fn view(&self) -> HttpRequestView {
        HttpRequestView {
            url: self.url@,
            headers: self.headers@.map_values(|h: (String, String)| (h.0@, h.1@)),
        }
    }
}

/// The headers of a browser asking for a page.
pub open spec fn page_headers() -> Seq<(Seq<char>, Seq<char>)> {
    seq![
        ("Accept"@, ACCEPT_PAGE@),
        ("Accept-Language"@, "en-US;q=0.8,en;q=0.7"@),
        ("Sec-Fetch-Mode"@, "navigate"@),
        ("Sec-Fetch-Site"@, "none"@),
        ("Sec-Fetch-User"@, "?1"@),
        ("Upgrade-Insecure-Requests"@, "1"@),
        ("User-Agent"@, USER_AGENT@),
    ]
}

/// The headers of the profile-page script request.
pub open spec fn script_headers() -> Seq<(Seq<char>, Seq<char>)> {
    seq![
        ("Accept"@, ACCEPT_PAGE@),
        ("Accept-Language"@, "en-US;q=0.8,en;q=0.7"@),
        ("Cache-Control"@, "max-age=0"@),
        ("Sec-Fetch-Mode"@, "navigate"@),
        ("Sec-Fetch-Site"@, "none"@),
        ("Sec-Fetch-User"@, "?1"@),
        ("Upgrade-Insecure-Requests"@, "1"@),
        ("User-Agent"@, USER_AGENT@),
    ]
}

/// The headers of a post-page request.
pub open spec fn post_page_headers() -> Seq<(Seq<char>, Seq<char>)> {
    seq![
        ("Accept"@, ACCEPT_PAGE@),
        ("Accept-Language"@, "en-US;q=0.8,en;q=0.7"@),
        ("Cache-Control"@, "max-age=0"@),
        ("Referer"@, "https://www.google.com/"@),
        ("Sec-Fetch-Dest"@, "document"@),
        ("Sec-Fetch-Mode"@, "navigate"@),
        ("Sec-Fetch-Site"@, "same-origin"@),
        ("Sec-Fetch-Mode-User"@, "?1"@),
        ("Upgrade-Insecure-Requests"@, "1"@),
        ("User-Agent"@, USER_AGENT@),
    ]
}

/// The headers of a search.
pub open spec fn search_headers() -> Seq<(Seq<char>, Seq<char>)> {
    seq![
        ("Accept"@, "*/*"@),
        ("Accept-Language"@, "en-US;q=0.8,en;q=0.7"@),
        ("Referer"@, "https://www.instagram.com/instagram/"@),
        ("Sec-Fetch-Dest"@, "empty"@),
        ("Sec-Fetch-Mode"@, "cors"@),
        ("Sec-Fetch-Site"@, "same-origin"@),
        ("User-Agent"@, USER_AGENT@),
        ("X-Ig-App-Id"@, APP_ID@),
        ("X-Ig-Www-Claim"@, "0"@),
        ("X-Requested-With"@, "XMLHttpRequest"@),
    ]
}

/// The headers of a call of the mobile API.
pub open spec fn mobile_headers() -> Seq<(Seq<char>, Seq<char>)> {
    seq![
        ("X-Ig-Capabilities"@, "3w=="@),
        ("Accept-Language"@, "en-GB,en-US;q=0.8,en;q=0.6"@),
        ("User-Agent"@, USER_AGENT_MOBILE@),
        ("Accept"@, "*/*"@),
        ("Authority"@, "i.instagram.com/"@),
        ("Cookie"@, "sessionid="@ + SESSION_ID@),
        ("Host"@, "i.instagram.com"@),
        ("Connection"@, "Keep-Alive"@),
    ]
}

/// The headers of a posts query for a profile whose page is `referer`.
pub open spec fn posts_headers(referer: Seq<char>) -> Seq<(Seq<char>, Seq<char>)> {
    seq![
        ("Accept"@, "*/*"@),
        ("Accept-Language"@, "en-US;q=0.8,en;q=0.7"@),
        ("Referer"@, referer),
        ("Sec-Fetch-Mode"@, "cors"@),
        ("Sec-Fetch-Site"@, "same-origin"@),
        ("User-Agent"@, USER_AGENT@),
        ("X-Ig-Www-Claim"@, "0"@),
        ("X-Requested-With"@, "XMLHttpRequest"@),
    ]
}

/// The cursor that a posts query names: the empty one when none is given.
pub open spec fn cursor_text(cursor: Option<Seq<char>>) -> Seq<char> {
    match cursor {
        Some(c) => c,
        None => ""@,
    }
}

/// Asking for posts with no cursor is asking with the empty cursor: both
/// name the same cursor, so `posts_request` builds the same url and headers
/// for them.
pub proof fn lemma_no_cursor_is_empty_cursor()
    ensures
        cursor_text(None) == cursor_text(Some(""@)),
{
}

/// Adds a header to a list.
fn push_header(headers: &mut Vec<(String, String)>, name: &str, value: &str)
    ensures
        final(headers)@.map_values(|h: (String, String)| (h.0@, h.1@)) == old(headers)@.map_values(
            |h: (String, String)| (h.0@, h.1@),
        ).push((name@, value@)),
{
    let ghost before = headers@;
    headers.push((String::from_str(name), String::from_str(value)));
    assert(headers@.map_values(|h: (String, String)| (h.0@, h.1@)) =~= before.map_values(
        |h: (String, String)| (h.0@, h.1@),
    ).push((name@, value@)));
}

/// The headers of a browser asking for a page.
fn page_header_list() -> (r: Vec<(String, String)>)
    ensures
        r@.map_values(|h: (String, String)| (h.0@, h.1@)) == page_headers(),
{
    let mut h: Vec<(String, String)> = Vec::new();
    push_header(&mut h, "Accept", ACCEPT_PAGE);
    push_header(&mut h, "Accept-Language", "en-US;q=0.8,en;q=0.7");
    push_header(&mut h, "Sec-Fetch-Mode", "navigate");
    push_header(&mut h, "Sec-Fetch-Site", "none");
    push_header(&mut h, "Sec-Fetch-User", "?1");
    push_header(&mut h, "Upgrade-Insecure-Requests", "1");
    push_header(&mut h, "User-Agent", USER_AGENT);
    assert(h@.map_values(|h: (String, String)| (h.0@, h.1@)) =~= page_headers());
    h
}

/// The headers of a call of the mobile API.
fn mobile_header_list() -> (r: Vec<(String, String)>)
    ensures
        r@.map_values(|h: (String, String)| (h.0@, h.1@)) == mobile_headers(),
{
    let mut h: Vec<(String, String)> = Vec::new();
    push_header(&mut h, "X-Ig-Capabilities", "3w==");
    push_header(&mut h, "Accept-Language", "en-GB,en-US;q=0.8,en;q=0.6");
    push_header(&mut h, "User-Agent", USER_AGENT_MOBILE);
    push_header(&mut h, "Accept", "*/*");
    push_header(&mut h, "Authority", "i.instagram.com/");
    let cookie = String::from_str("sessionid=").concat(SESSION_ID);
    push_header(&mut h, "Cookie", cookie.as_str());
    push_header(&mut h, "Host", "i.instagram.com");
    push_header(&mut h, "Connection", "Keep-Alive");
    assert(h@.map_values(|h: (String, String)| (h.0@, h.1@)) =~= mobile_headers());
    h
}

/// The request for the script that names the query hash of the posts query.
pub fn query_hash_script_request() -> (r: HttpRequest)
    ensures
        r@.url == QUERY_HASH_SCRIPT_URL@,
        r@.headers == script_headers(),
{
    let mut h: Vec<(String, String)> = Vec::new();
    push_header(&mut h, "Accept", ACCEPT_PAGE);
    push_header(&mut h, "Accept-Language", "en-US;q=0.8,en;q=0.7");
    push_header(&mut h, "Cache-Control", "max-age=0");
    push_header(&mut h, "Sec-Fetch-Mode", "navigate");
    push_header(&mut h, "Sec-Fetch-Site", "none");
    push_header(&mut h, "Sec-Fetch-User", "?1");
    push_header(&mut h, "Upgrade-Insecure-Requests", "1");
    push_header(&mut h, "User-Agent", USER_AGENT);
    assert(h@.map_values(|h: (String, String)| (h.0@, h.1@)) =~= script_headers());
    HttpRequest { url: String::from_str(QUERY_HASH_SCRIPT_URL), headers: h }
}

/// The request that searches for profiles matching `query`.
pub fn users_search_request(query: &str) -> (r: HttpRequest)
    ensures
        r@.url == "https://www.instagram.com/web/search/topsearch/?context=blended&query="@ + query@
            + "&rank_token=0.37795423543635787&include_reel=true"@,
        r@.headers == search_headers(),
{
    let url = String::from_str("https://www.instagram.com/web/search/topsearch/?context=blended&query=").concat(
        query,
    ).concat("&rank_token=0.37795423543635787&include_reel=true");
    let mut h: Vec<(String, String)> = Vec::new();
    push_header(&mut h, "Accept", "*/*");
    push_header(&mut h, "Accept-Language", "en-US;q=0.8,en;q=0.7");
    push_header(&mut h, "Referer", "https://www.instagram.com/instagram/");
    push_header(&mut h, "Sec-Fetch-Dest", "empty");
    push_header(&mut h, "Sec-Fetch-Mode", "cors");
    push_header(&mut h, "Sec-Fetch-Site", "same-origin");
    push_header(&mut h, "User-Agent", USER_AGENT);
    push_header(&mut h, "X-Ig-App-Id", APP_ID);
    push_header(&mut h, "X-Ig-Www-Claim", "0");
    push_header(&mut h, "X-Requested-With", "XMLHttpRequest");
    assert(h@.map_values(|h: (String, String)| (h.0@, h.1@)) =~= search_headers());
    HttpRequest { url, headers: h }
}

/// The request for the highlights of the reel `reel_id`.
pub fn highlights_request(reel_id: &str) -> (r: HttpRequest)
    ensures
        r@.url == "https://www.instagram.com/graphql/query?query_hash="@ + HIGHLIGHT_REEL_QUERY_HASH@
            + "&variables=%7B%22highlight_reel_ids%22%3A%5B%22"@ + reel_id@
            + "%22%5D%2C%22precomposed_overlay%22%3Afalse%2C%22story_viewer_fetch_count%22%3A50%7D"@,
        r@.headers == mobile_headers(),
{
    let url = String::from_str("https://www.instagram.com/graphql/query?query_hash=").concat(
        HIGHLIGHT_REEL_QUERY_HASH,
    ).concat("&variables=%7B%22highlight_reel_ids%22%3A%5B%22").concat(reel_id).concat(
        "%22%5D%2C%22precomposed_overlay%22%3Afalse%2C%22story_viewer_fetch_count%22%3A50%7D",
    );
    HttpRequest { url, headers: mobile_header_list() }
}

/// The request for the page of the profile `username`.
pub fn profile_page_request(username: &str) -> (r: HttpRequest)
    ensures
        r@.url == "https://www.instagram.com/"@ + username@ + "/"@,
        r@.headers == page_headers(),
{
    let url = String::from_str("https://www.instagram.com/").concat(username).concat("/");
    HttpRequest { url, headers: page_header_list() }
}

/// The request for the page of the post `post_id`.
pub fn post_page_request(post_id: &str) -> (r: HttpRequest)
    ensures
        r@.url == "https://www.instagram.com/p/"@ + post_id@ + "/"@,
        r@.headers == post_page_headers(),
{
    let url = String::from_str("https://www.instagram.com/p/").concat(post_id).concat("/");
    let mut h: Vec<(String, String)> = Vec::new();
    push_header(&mut h, "Accept", ACCEPT_PAGE);
    push_header(&mut h, "Accept-Language", "en-US;q=0.8,en;q=0.7");
    push_header(&mut h, "Cache-Control", "max-age=0");
    push_header(&mut h, "Referer", "https://www.google.com/");
    push_header(&mut h, "Sec-Fetch-Dest", "document");
    push_header(&mut h, "Sec-Fetch-Mode", "navigate");
    push_header(&mut h, "Sec-Fetch-Site", "same-origin");
    push_header(&mut h, "Sec-Fetch-Mode-User", "?1");
    push_header(&mut h, "Upgrade-Insecure-Requests", "1");
    push_header(&mut h, "User-Agent", USER_AGENT);
    assert(h@.map_values(|h: (String, String)| (h.0@, h.1@)) =~= post_page_headers());
    HttpRequest { url, headers: h }
}

impl UserInfos {
    /// The request for the highlight reels of this profile; only a profile
    /// whose id is known has one.
    pub fn highlight_reels_request(&self) -> (r: Result<HttpRequest, ApiError>)
        ensures
            match self.id {
                Some(id) => r matches Ok(req) && req@.url == "https://i.instagram.com/api/v1/highlights/"@
                    + id@ + "/highlights_tray/"@ && req@.headers == mobile_headers(),
                None => r == Err::<HttpRequest, ApiError>(ApiError::NoIdForHighlightReels),
            },
    {
        match &self.id {
            Some(id) => {
                let url = String::from_str("https://i.instagram.com/api/v1/highlights/").concat(
                    id.as_str(),
                ).concat("/highlights_tray/");
                Ok(HttpRequest { url, headers: mobile_header_list() })
            },
            None => Err(ApiError::NoIdForHighlightReels),
        }
    }

    /// The request for the stories of this profile; only a profile whose id
    /// is known has one.
    pub fn stories_request(&self) -> (r: Result<HttpRequest, ApiError>)
        ensures
            match self.id {
                Some(id) => r matches Ok(req) && req@.url == "https://i.instagram.com/api/v1/feed/user/"@
                    + id@ + "/reel_media/"@ && req@.headers == mobile_headers(),
                None => r == Err::<HttpRequest, ApiError>(ApiError::NoIdForStories),
            },
    {
        match &self.id {
            Some(id) => {
                let url = String::from_str("https://i.instagram.com/api/v1/feed/user/").concat(
                    id.as_str(),
                ).concat("/reel_media/");
                Ok(HttpRequest { url, headers: mobile_header_list() })
            },
            None => Err(ApiError::NoIdForStories),
        }
    }

    /// The request for the page of posts of this profile that starts at
    /// `cursor` (at the first post when there is none), made with the query
    /// hash `query_hash`; only a profile whose id is known has one. The
    /// profile's page is given as the referer (that of `instagram` when its
    /// username is unknown).
    pub fn posts_request(&self, query_hash: &str, cursor: Option<&str>) -> (r: Result<
        HttpRequest,
        ApiError,
    >)
        ensures
            match self.id {
                Some(id) => r matches Ok(req) && req@.url
                    == "https://www.instagram.com/graphql/query/?query_hash="@ + query_hash@
                    + "&variables=%7B%22id%22%3A%22"@ + id@ + "%22%2C%22first%22%3A12%2C%22after%22%3A%22"@
                    + cursor_text(
                    match cursor {
                        Some(c) => Some(c@),
                        None => None,
                    },
                ) + "%22%7D"@ && req@.headers == posts_headers(
                    "https://www.instagram.com/"@ + (match self.username {
                        Some(u) => u@,
                        None => "instagram"@,
                    }) + "/"@,
                ),
                None => r == Err::<HttpRequest, ApiError>(ApiError::NoIdForPosts),
            },
    {
        let cursor = match cursor {
            Some(c) => c,
            None => "",
        };
        let id = match &self.id {
            Some(id) => id,
            None => return Err(ApiError::NoIdForPosts),
        };
        let url = String::from_str("https://www.instagram.com/graphql/query/?query_hash=").concat(
            query_hash,
        ).concat("&variables=%7B%22id%22%3A%22").concat(id.as_str()).concat(
            "%22%2C%22first%22%3A12%2C%22after%22%3A%22",
        ).concat(cursor).concat("%22%7D");
        let name = match &self.username {
            Some(u) => u.as_str(),
            None => "instagram",
        };
        let referer = String::from_str("https://www.instagram.com/").concat(name).concat("/");
        let mut h: Vec<(String, String)> = Vec::new();
        push_header(&mut h, "Accept", "*/*");
        push_header(&mut h, "Accept-Language", "en-US;q=0.8,en;q=0.7");
        push_header(&mut h, "Referer", referer.as_str());
        push_header(&mut h, "Sec-Fetch-Mode", "cors");
        push_header(&mut h, "Sec-Fetch-Site", "same-origin");
        push_header(&mut h, "User-Agent", USER_AGENT);
        push_header(&mut h, "X-Ig-Www-Claim", "0");
        push_header(&mut h, "X-Requested-With", "XMLHttpRequest");
        assert(h@.map_values(|h: (String, String)| (h.0@, h.1@)) =~= posts_headers(referer@));
        Ok(HttpRequest { url, headers: h })
    }
}

} // verus!
