use instagram_cli::error::ApiError;
use instagram_cli::paging::{iterations_limit, PageAction, PageEvent, PostPager};
use instagram_cli::profile::UserInfos;
use instagram_cli::requests::{
    highlights_request, post_page_request, profile_page_request, query_hash_script_request,
    users_search_request, USER_AGENT, USER_AGENT_MOBILE,
};

fn profile(id: Option<&str>, username: Option<&str>) -> UserInfos {
    UserInfos {
        biography: None,
        external_url: None,
        external_url_link_shimmed: None,
        followers: None,
        following: None,
        full_name: None,
        id: id.map(|x| x.to_string()),
        is_business_account: None,
        is_joined_recently: None,
        business_category_name: None,
        is_private: None,
        is_verified: None,
        profile_picture_url: None,
        profile_picture_url_hd: None,
        username: username.map(|x| x.to_string()),
        connected_fb_page: None,
        collections_count: None,
        saved_media_count: None,
        videos_count: None,
        medias_count: None,
    }
}

fn header<'a>(headers: &'a [(String, String)], name: &str) -> Option<&'a str> {
    headers.iter().find(|(n, _)| n == name).map(|(_, v)| v.as_str())
}

#[test]
fn search_request() {
    let r = users_search_request("fabrizio");
    assert_eq!(
        r.url,
        "https://www.instagram.com/web/search/topsearch/?context=blended&query=fabrizio&rank_token=0.37795423543635787&include_reel=true"
    );
    assert_eq!(r.headers.len(), 10);
    assert_eq!(header(&r.headers, "X-Ig-App-Id"), Some("936619743392459"));
    assert_eq!(header(&r.headers, "User-Agent"), Some(USER_AGENT));
}

#[test]
fn mobile_requests() {
    let r = highlights_request("17890");
    assert_eq!(
        r.url,
        "https://www.instagram.com/graphql/query?query_hash=0d2a558130b34ee7f7d1e5a3cddc52c2&variables=%7B%22highlight_reel_ids%22%3A%5B%2217890%22%5D%2C%22precomposed_overlay%22%3Afalse%2C%22story_viewer_fetch_count%22%3A50%7D"
    );
    assert_eq!(header(&r.headers, "Cookie"), Some("sessionid=10109976513%3AjCh6P6OrQC9k5n%3A12"));
    assert_eq!(header(&r.headers, "User-Agent"), Some(USER_AGENT_MOBILE));
    assert_eq!(r.headers.len(), 8);
    let p = profile(Some("25025320"), None);
    assert_eq!(
        p.highlight_reels_request().unwrap().url,
        "https://i.instagram.com/api/v1/highlights/25025320/highlights_tray/"
    );
    assert_eq!(p.stories_request().unwrap().url, "https://i.instagram.com/api/v1/feed/user/25025320/reel_media/");
}

#[test]
fn page_requests() {
    assert_eq!(profile_page_request("instagram").url, "https://www.instagram.com/instagram/");
    assert_eq!(profile_page_request("instagram").headers.len(), 7);
    let r = post_page_request("B_GDqtggNwa");
    assert_eq!(r.url, "https://www.instagram.com/p/B_GDqtggNwa/");
    assert_eq!(header(&r.headers, "Referer"), Some("https://www.google.com/"));
    let r = query_hash_script_request();
    assert_eq!(
        r.url,
        "https://www.instagram.com/static/bundles/es6/ProfilePageContainer.js/76d5c065446f.js"
    );
    assert_eq!(header(&r.headers, "Cache-Control"), Some("max-age=0"));
}

#[test]
fn posts_request_uses_cursor_and_referer() {
    let p = profile(Some("1"), Some("nasa"));
    let r = p.posts_request("hash", Some("QVFD")).unwrap();
    assert_eq!(
        r.url,
        "https://www.instagram.com/graphql/query/?query_hash=hash&variables=%7B%22id%22%3A%221%22%2C%22first%22%3A12%2C%22after%22%3A%22QVFD%22%7D"
    );
    assert_eq!(header(&r.headers, "Referer"), Some("https://www.instagram.com/nasa/"));
    let p = profile(Some("1"), None);
    let r = p.posts_request("hash", None).unwrap();
    assert!(r.url.ends_with("%22after%22%3A%22%22%7D"));
    assert_eq!(header(&r.headers, "Referer"), Some("https://www.instagram.com/instagram/"));
}

#[test]
fn requests_need_a_profile_id() {
    let p = profile(None, Some("x"));
    assert_eq!(p.highlight_reels_request(), Err(ApiError::NoIdForHighlightReels));
    assert_eq!(p.stories_request(), Err(ApiError::NoIdForStories));
    assert_eq!(p.posts_request("h", None), Err(ApiError::NoIdForPosts));
}

#[test]
fn error_messages() {
    assert_eq!(ApiError::InvalidSharedData.message(), "Instagram sent a page with an invalid window._sharedData");
    assert_eq!(ApiError::UsersNotArray.message(), "While parsing 'users', expected array, got something else");
    assert_eq!(ApiError::NoIdForHighlightReels.message(), "id is None, can't fetch highlight reels");
    assert_eq!(ApiError::NoIdForStories.message(), "id is None, can't fetch stories");
    assert_eq!(ApiError::NoIdForPosts.message(), "id is None, can't fetch highlights");
    assert_eq!(ApiError::PostNotFound.message(), "Masiero");
    assert_eq!(ApiError::NotJson("expected value at line 1 column 2".to_string()).message(), "expected value at line 1 column 2");
}

#[test]
fn pager_follows_cursors_until_none() {
    let mut p = PostPager::new(Some("c0".to_string()), u64::MAX);
    assert_eq!(p.next_action(), PageAction::Fetch(Some("c0".to_string())));
    p.record(PageEvent::Fetched(Some("c1".to_string())));
    assert_eq!(p.next_action(), PageAction::Fetch(Some("c1".to_string())));
    p.record(PageEvent::Fetched(None));
    assert_eq!(p.next_action(), PageAction::Stop);
    assert_eq!(p.fetched, 2);
}

#[test]
fn pager_stops_after_iterations_or_failure() {
    let mut p = PostPager::new(None, 1);
    assert_eq!(p.next_action(), PageAction::Fetch(None));
    p.record(PageEvent::Fetched(Some("c".to_string())));
    assert_eq!(p.next_action(), PageAction::Stop);
    let p = PostPager::new(None, 0);
    assert_eq!(p.next_action(), PageAction::Stop);
    let mut p = PostPager::new(None, 5);
    p.record(PageEvent::Failed);
    assert_eq!(p.next_action(), PageAction::Stop);
}

#[test]
fn iterations_argument() {
    assert_eq!(iterations_limit(None), Some(u64::MAX));
    assert_eq!(iterations_limit(Some("3")), Some(3));
    assert_eq!(iterations_limit(Some("+3")), Some(3));
    assert_eq!(iterations_limit(Some("18446744073709551615")), Some(u64::MAX));
    assert_eq!(iterations_limit(Some("18446744073709551616")), None);
    assert_eq!(iterations_limit(Some("")), None);
    assert_eq!(iterations_limit(Some("+")), None);
    assert_eq!(iterations_limit(Some("-1")), None);
    assert_eq!(iterations_limit(Some("1 ")), None);
    assert_eq!(iterations_limit(Some("0x10")), None);
    for t in ["0", "007", "+12", "99999999999999999999", "12a", "", "+", "-0"] {
        assert_eq!(iterations_limit(Some(t)), t.parse::<u64>().ok());
    }
}

#[test]
fn posts_request_without_cursor_is_that_of_the_empty_cursor() {
    let p = profile(Some("1"), Some("nasa"));
    assert_eq!(p.posts_request("hash", None), p.posts_request("hash", Some("")));
}
