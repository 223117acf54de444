// Each command's steps, run on answers shaped like those Instagram gives.
use instagram_cli::highlights::HighlightReel;
use instagram_cli::json::{parse_json, Json};
use instagram_cli::post::Post;
use instagram_cli::profile::UserInfos;
use instagram_cli::requests::{post_page_request, profile_page_request, users_search_request};
use instagram_cli::text::{extract_json_str, has_query_id, query_hash_from_script};
use instagram_cli::users::Users;

fn parse(text: &str) -> Json {
    parse_json(text).unwrap()
}

#[test]
fn query_hash() {
    let script = r#"e.ProfilePageContainer=function(){},e.a={},queryId:"7c8a1055f69ff97dc201e752cf6f0093"},n={},queryId:"c9100bf9110dd6361671f113dd02e7d6"};"#;
    assert!(has_query_id(script));
    let query_hash = query_hash_from_script(script);
    println!("{}", query_hash);
    assert_eq!(query_hash, "c9100bf9110dd6361671f113dd02e7d6");
}

#[test]
fn user_infos() {
    assert_eq!(profile_page_request("instagram").url, "https://www.instagram.com/instagram/");
    let page = r#"<script>window._sharedData = {"entry_data":{"ProfilePage":[{"graphql":{"user":{"id":"25025320","username":"instagram","edge_followed_by":{"count":400000000}}}}]}};</script>"#;
    let shared = parse(&extract_json_str(page).unwrap());
    let user_infos = UserInfos::new(&shared);
    println!("{:#?}", user_infos);
    assert_eq!(user_infos.id.as_deref(), Some("25025320"));

    let reels_answer = parse(r#"{"tray":[{"id":"highlight:17890000000000000","title":"IGTV"}]}"#);
    assert!(UserInfos::highlight_reels_readable(&reels_answer));
    let hi_reels = UserInfos::fetch_highlight_reels(&reels_answer);
    println!("{:#?}", hi_reels);
    let reel_id = hi_reels[0].id.clone().unwrap();
    assert_eq!(reel_id, "17890000000000000");
    assert!(user_infos.highlight_reels_request().is_ok());

    let highlights_answer = parse(r#"{"data":{"reels_media":[{"items":[{"is_video":false,"display_resources":[{"src":"http://h","config_width":1,"config_height":1}]}]}]}}"#);
    assert!(HighlightReel::highlights_readable(&highlights_answer));
    let highlights = HighlightReel::fetch_highlights(&highlights_answer);
    println!("{:#?}", highlights);
    assert_eq!(highlights.len(), 1);

    assert!(user_infos.stories_request().is_ok());
    let stories = UserInfos::fetch_stories(&parse(r#"{"items":[]}"#));
    println!("{:#?}", stories);
    assert!(stories.is_empty());

    assert!(user_infos.posts_request("hash", None).is_ok());
    let posts = UserInfos::fetch_posts(&parse(r#"{"data":{"user":{"edge_owner_to_timeline_media":{"edges":[]}}}}"#));
    println!("{:#?}", posts);
    assert!(posts.posts.is_empty());
}

#[test]
fn users() {
    let request = users_search_request("fabrizio");
    assert!(request.url.contains("query=fabrizio&"));
    let answer = parse(r#"{"users":[{"user":{"pk":"1","username":"fabrizio"}}]}"#);
    let users = Users::new("fabrizio", &answer);
    println!("{:#?}", users);
    assert_eq!(users.unwrap().users.len(), 1);
}

#[test]
fn post() {
    let request = post_page_request("B_GDqtggNwa");
    assert_eq!(request.url, "https://www.instagram.com/p/B_GDqtggNwa/");
    let page = r#"window._sharedData = {"entry_data":{"PostPage":[{"graphql":{"shortcode_media":{"id":"1","dimensions":{"height":1,"width":1},"is_video":false,"edge_media_to_caption":{"edges":[]},"shortcode":"B_GDqtggNwa","comments_disabled":false,"taken_at_timestamp":1,"edge_media_preview_like":{"count":1},"location":null,"display_url":"http://d"}}}]}};"#;
    let shared = parse(&extract_json_str(page).unwrap());
    assert!(Post::post_page_readable(&shared));
    let post = Post::from_id(&shared);
    println!("{:#?}", post);
    assert_eq!(post.unwrap().short_code.as_deref(), Some("B_GDqtggNwa"));
}
