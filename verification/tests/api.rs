use instagram_cli::error::ApiError;
use instagram_cli::highlights::HighlightReel;
use instagram_cli::json::{parse_json, Json, JsonNumber};
use instagram_cli::model::Size;
use instagram_cli::post::Post;
use instagram_cli::profile::UserInfos;
use instagram_cli::text::{extract_json_str, shared_data};
use instagram_cli::users::Users;

fn parse(text: &str) -> Json {
    parse_json(text).unwrap()
}

#[test]
fn users_keeps_decodable_users_in_order() {
    let resp = parse(
        r#"{"users":[
            {"position":0,"user":{"pk":"1","username":"fabrizio","full_name":"Fab","is_private":false,"is_verified":true,"profile_pic_url":"http://a"}},
            {"position":1,"user":{"pk":2,"username":"bad"}},
            {"position":2},
            {"position":3,"user":{"pk":"3","username":"fabrizio_c"}}
        ],"places":[]}"#,
    );
    let users = Users::new("fabrizio", &resp).unwrap();
    assert_eq!(users.query, "fabrizio");
    assert_eq!(users.users.len(), 2);
    assert_eq!(users.users[0].id.as_deref(), Some("1"));
    assert_eq!(users.users[0].is_verified, Some(true));
    assert_eq!(users.users[0].profile_picture_url.as_deref(), Some("http://a"));
    assert_eq!(users.users[1].username.as_deref(), Some("fabrizio_c"));
    assert_eq!(users.users[1].full_name, None);
}

#[test]
fn users_without_array_fails() {
    let resp = parse(r#"{"users":{"a":1}}"#);
    assert_eq!(Users::new("q", &resp), Err(ApiError::UsersNotArray));
    assert_eq!(Users::new("q", &parse("{}")), Err(ApiError::UsersNotArray));
    assert_eq!(Users::new("q", &parse(r#"{"users":[]}"#)).unwrap().users.len(), 0);
}

#[test]
fn highlights_take_the_last_resource() {
    let resp = parse(
        r#"{"data":{"reels_media":[{"items":[
            {"is_video":true,"has_audio":true,"video_duration":12.5,"taken_at_timestamp":10,"expiring_at_timestamp":20,
             "video_resources":[{"config_width":1,"config_height":2,"src":"v-small"},{"config_width":640,"config_height":480,"src":"v-big"}],
             "display_resources":[{"config_width":9,"config_height":9,"src":"d"}]},
            {"is_video":false,"display_resources":[{"config_width":1080,"config_height":1920,"src":"img"}]},
            {"taken_at_timestamp":5}
        ]}]}}"#,
    );
    assert!(HighlightReel::highlights_readable(&resp));
    let hs = HighlightReel::fetch_highlights(&resp);
    assert_eq!(hs.len(), 3);
    assert_eq!(hs[0].size, Size { width: Some(640), height: Some(480) });
    assert_eq!(hs[0].media_url.as_deref(), Some("v-big"));
    assert_eq!(hs[0].is_video, Some(true));
    assert_eq!(hs[0].has_audio, Some(true));
    assert_eq!(hs[0].video_duration, Some(JsonNumber::Float(12.5f64.to_bits())));
    assert_eq!(hs[0].taken_at_timestamp, Some(10));
    assert_eq!(hs[0].expiring_at_timestamp, Some(20));
    assert_eq!(hs[1].media_url.as_deref(), Some("img"));
    assert_eq!(hs[1].size, Size { width: Some(1080), height: Some(1920) });
    assert_eq!(hs[1].video_duration, None);
    assert_eq!(hs[2].size, Size { width: None, height: None });
    assert_eq!(hs[2].media_url, None);
    assert_eq!(hs[2].is_video, None);
}

#[test]
fn highlights_with_an_empty_resource_list_are_unreadable() {
    let resp = parse(r#"{"data":{"reels_media":[{"items":[{"is_video":true,"video_resources":[]}]}]}}"#);
    assert!(!HighlightReel::highlights_readable(&resp));
    let resp = parse(r#"{"data":{"reels_media":[{"items":[{"is_video":true,"display_resources":[]}]}]}}"#);
    assert!(HighlightReel::highlights_readable(&resp));
}

#[test]
fn highlights_of_an_odd_answer_are_none() {
    assert!(HighlightReel::fetch_highlights(&parse("{}")).is_empty());
    assert!(HighlightReel::fetch_highlights(&parse(r#"{"data":{"reels_media":[]}}"#)).is_empty());
}

#[test]
fn highlight_reels_from_tray() {
    let resp = parse(
        r#"{"tray":[
            {"id":"highlight:17890","title":"Trip","media_count":4,
             "cover_media":{"cropped_image_version":{"width":150,"height":150,"url":"http://c"}}},
            3,
            {"id":"17","title":null,"cover_media":{"cropped_image_version":{"width":"x"}}},
            {"id":5}
        ]}"#,
    );
    assert!(UserInfos::highlight_reels_readable(&resp));
    let reels = UserInfos::fetch_highlight_reels(&resp);
    assert_eq!(reels.len(), 3);
    assert_eq!(reels[0].id.as_deref(), Some("17890"));
    assert_eq!(reels[0].title.as_deref(), Some("Trip"));
    assert_eq!(reels[0].media_count, Some(4));
    assert_eq!(reels[0].cover_image.size, Some(Size { width: Some(150), height: Some(150) }));
    assert_eq!(reels[0].cover_image.url.as_deref(), Some("http://c"));
    assert_eq!(reels[1].id.as_deref(), Some("17"));
    assert_eq!(reels[1].title, None);
    assert_eq!(reels[1].cover_image.size, None);
    assert_eq!(reels[2].id, None);
}

#[test]
fn highlight_reel_without_id_is_unreadable() {
    assert!(!UserInfos::highlight_reels_readable(&parse(r#"{"tray":[{"title":"t"}]}"#)));
    assert!(UserInfos::highlight_reels_readable(&parse(r#"{"tray":["x"]}"#)));
    assert!(UserInfos::fetch_highlight_reels(&parse(r#"{"tray":{}}"#)).is_empty());
}

#[test]
fn stories_read_video_and_image_items() {
    let resp = parse(
        r#"{"items":[
            {"taken_at":100,"device_timestamp":200,"original_width":720,"original_height":1280,"has_audio":false,
             "video_duration":5,"expiring_at":300,"caption":"hi",
             "video_versions":[{"url":"http://v0"},{"url":"http://v1"}]},
            "skip",
            {"original_width":1080,"original_height":1920,
             "image_versions2":{"candidates":[{"url":"http://i0"}]}}
        ]}"#,
    );
    let stories = UserInfos::fetch_stories(&resp);
    assert_eq!(stories.len(), 2);
    assert!(stories[0].is_video);
    assert_eq!(stories[0].display_url.as_deref(), Some("http://v0"));
    assert_eq!(stories[0].original_size, Size { width: Some(720), height: Some(720) });
    assert_eq!(stories[0].video_duration, Some(JsonNumber::PosInt(5)));
    assert_eq!(stories[0].caption.as_deref(), Some("hi"));
    assert_eq!(stories[0].taken_at, Some(100));
    assert_eq!(stories[0].device_timestamp, Some(200));
    assert_eq!(stories[0].expiring_at, Some(300));
    assert_eq!(stories[0].has_audio, Some(false));
    assert!(!stories[1].is_video);
    assert_eq!(stories[1].display_url.as_deref(), Some("http://i0"));
    assert_eq!(stories[1].original_size, Size { width: Some(1080), height: Some(1080) });
    assert!(UserInfos::fetch_stories(&parse(r#"{"items":null}"#)).is_empty());
}

fn profile_page() -> &'static str {
    r#"<html><head><script type="text/javascript">window._sharedData = {"entry_data":{"ProfilePage":[{"graphql":{"user":{
        "biography":"Bring me closer","external_url":"http://ext","external_url_link_shimmed":"http://shim",
        "edge_followed_by":{"count":1000},"edge_follow":{"count":10},"full_name":"Instagram","id":"25025320",
        "is_business_account":true,"is_joined_recently":false,"business_category_name":"Media",
        "is_private":false,"is_verified":true,"profile_pic_url":"http://p","profile_pic_url_hd":"http://phd",
        "username":"instagram","connected_fb_page":null,"edge_media_collections":{"count":0},
        "edge_saved_media":{"count":1},"edge_felix_video_timeline":{"count":2},"edge_owner_to_timeline_media":{"count":7000}
    }}}]}};</script></head></html>"#
}

#[test]
fn user_infos_reads_the_profile_page() {
    let shared = parse(&extract_json_str(profile_page()).unwrap());
    let infos = UserInfos::new(&shared);
    assert_eq!(infos.biography.as_deref(), Some("Bring me closer"));
    assert_eq!(infos.external_url.as_deref(), Some("http://ext"));
    assert_eq!(infos.external_url_link_shimmed.as_deref(), Some("http://shim"));
    assert_eq!(infos.followers, Some(1000));
    assert_eq!(infos.following, Some(10));
    assert_eq!(infos.full_name.as_deref(), Some("Instagram"));
    assert_eq!(infos.id.as_deref(), Some("25025320"));
    assert_eq!(infos.is_business_account, Some(true));
    assert_eq!(infos.is_joined_recently, Some(false));
    assert_eq!(infos.business_category_name.as_deref(), Some("Media"));
    assert_eq!(infos.is_private, Some(false));
    assert_eq!(infos.is_verified, Some(true));
    assert_eq!(infos.profile_picture_url.as_deref(), Some("http://p"));
    assert_eq!(infos.profile_picture_url_hd.as_deref(), Some("http://phd"));
    assert_eq!(infos.username.as_deref(), Some("instagram"));
    assert_eq!(infos.connected_fb_page, None);
    assert_eq!(infos.collections_count, Some(0));
    assert_eq!(infos.saved_media_count, Some(1));
    assert_eq!(infos.videos_count, Some(2));
    assert_eq!(infos.medias_count, Some(7000));
}

#[test]
fn user_infos_of_an_empty_page_is_empty() {
    let infos = UserInfos::new(&parse("{}"));
    assert_eq!(infos.id, None);
    assert_eq!(infos.followers, None);
    assert_eq!(infos.username, None);
}

fn root_node(extra: &str) -> Json {
    parse(&format!(
        r#"{{"id":"2","dimensions":{{"height":1080,"width":1080}},"is_video":false,
            "edge_media_to_caption":{{"edges":[{{"node":{{"text":"Caption!"}}}}]}},
            "shortcode":"B_GDqtggNwa","comments_disabled":false,"taken_at_timestamp":1586000000,
            "edge_media_preview_like":{{"count":55}},"location":null{}}}"#,
        extra
    ))
}

#[test]
fn post_from_single_node() {
    let v = root_node(r#","display_url":"http://d","accessibility_caption":"Photo by x""#);
    let root = v.as_object().unwrap();
    assert!(Post::root_node_readable(root));
    let post = Post::from_root_node(root).unwrap();
    assert_eq!(post.id.as_deref(), Some("2"));
    assert_eq!(post.dimensions, Some(Size { width: Some(1080), height: Some(1080) }));
    assert_eq!(post.is_video, Some(false));
    assert_eq!(post.accessibility_caption.as_deref(), Some("Photo by x"));
    assert_eq!(post.caption.as_deref(), Some("Caption!"));
    assert_eq!(post.short_code.as_deref(), Some("B_GDqtggNwa"));
    assert_eq!(post.comments_disabled, Some(false));
    assert_eq!(post.taken_at_timestamp, Some(1586000000));
    assert_eq!(post.likes, Some(55));
    assert_eq!(post.location, None);
    assert_eq!(post.media_urls, vec!["http://d".to_string()]);
}

#[test]
fn post_prefers_the_video_url() {
    let v = root_node(r#","display_url":"http://d","video_url":"http://v""#);
    let post = Post::from_root_node(v.as_object().unwrap()).unwrap();
    assert_eq!(post.media_urls, vec!["http://v".to_string()]);
    assert_eq!(post.accessibility_caption, None);
}

#[test]
fn post_with_children_lists_their_urls() {
    let v = root_node(
        r#","display_url":"http://root","edge_sidecar_to_children":{"edges":[
            {"node":{"display_url":"http://a"}},
            {"node":{"display_url":"http://b","video_url":"http://bv"}},
            {"node":"not an object"},
            {"node":{"display_url":7}}
        ]}"#,
    );
    let root = v.as_object().unwrap();
    assert!(Post::root_node_readable(root));
    let post = Post::from_root_node(root).unwrap();
    assert_eq!(post.media_urls, vec!["http://a".to_string(), "http://bv".to_string()]);
}

#[test]
fn post_with_missing_members_is_unreadable() {
    let v = parse(r#"{"id":"1","display_url":"u"}"#);
    assert!(!Post::root_node_readable(v.as_object().unwrap()));
    let v = root_node("");
    assert!(!Post::root_node_readable(v.as_object().unwrap()));
    let v = root_node(r#","edge_sidecar_to_children":{"edges":[{"node":{"x":1}}]}"#);
    assert!(!Post::root_node_readable(v.as_object().unwrap()));
    let v = root_node(r#","edge_sidecar_to_children":{"edges":null}"#);
    let root = v.as_object().unwrap();
    assert!(Post::root_node_readable(root));
    assert!(Post::from_root_node(root).unwrap().media_urls.is_empty());
}

#[test]
fn post_from_its_page() {
    let page = r#"window._sharedData = {"entry_data":{"PostPage":[{"graphql":{"shortcode_media":{
        "id":"9","dimensions":{"height":1,"width":2},"is_video":true,"edge_media_to_caption":{"edges":[]},
        "shortcode":"abc","comments_disabled":true,"taken_at_timestamp":3,"edge_media_preview_like":{"count":4},
        "location":"Rome","video_url":"http://v","display_url":"http://d"}}}]}};"#;
    let shared = parse(&extract_json_str(page).unwrap());
    assert!(Post::post_page_readable(&shared));
    let post = Post::from_id(&shared).unwrap();
    assert_eq!(post.id.as_deref(), Some("9"));
    assert_eq!(post.caption, None);
    assert_eq!(post.location.as_deref(), Some("Rome"));
    assert_eq!(post.media_urls, vec!["http://v".to_string()]);
}

#[test]
fn post_page_without_post() {
    let shared = parse(r#"{"entry_data":{"PostPage":[]}}"#);
    assert!(Post::post_page_readable(&shared));
    assert_eq!(Post::from_id(&shared), Err(ApiError::PostNotFound));
    let shared = parse(r#"{"entry_data":{"PostPage":[{"graphql":{"shortcode_media":{"id":"1"}}}]}}"#);
    assert!(!Post::post_page_readable(&shared));
}

#[test]
fn posts_page_has_one_post_per_edge() {
    let node = r#"{"id":"1","dimensions":null,"is_video":false,"edge_media_to_caption":{},
        "shortcode":"s","comments_disabled":null,"taken_at_timestamp":1,"edge_media_preview_like":{},
        "location":null,"display_url":"http://x"}"#;
    let resp = parse(&format!(
        r#"{{"data":{{"user":{{"edge_owner_to_timeline_media":{{
            "page_info":{{"has_next_page":true,"end_cursor":"QVFD"}},
            "edges":[{{"node":{}}},{{"node":{}}}]}}}}}}}}"#,
        node, node
    ));
    assert!(UserInfos::posts_readable(&resp));
    let posts = UserInfos::fetch_posts(&resp);
    assert_eq!(posts.cursor.as_deref(), Some("QVFD"));
    assert_eq!(posts.posts.len(), 2);
    assert_eq!(posts.posts[1].dimensions, None);
    assert_eq!(posts.posts[1].media_urls, vec!["http://x".to_string()]);
}

#[test]
fn posts_page_without_cursor_or_edges() {
    let resp = parse(r#"{"data":{"user":{"edge_owner_to_timeline_media":{"page_info":{"end_cursor":null}}}}}"#);
    assert!(UserInfos::posts_readable(&resp));
    let posts = UserInfos::fetch_posts(&resp);
    assert_eq!(posts.cursor, None);
    assert!(posts.posts.is_empty());
    let resp = parse(r#"{"data":{"user":{"edge_owner_to_timeline_media":{"edges":[{"node":1}]}}}}"#);
    assert!(!UserInfos::posts_readable(&resp));
}

#[test]
fn parse_json_reads_documents() {
    let doc = parse(r#"{"b":[1,-2,2.5,"x",true,null],"a":{}}"#);
    let entries = doc.as_object().unwrap();
    assert_eq!(entries.len(), 2);
    assert_eq!(entries[0].0, "a");
    let items = doc.index_key("b").as_array().unwrap();
    assert_eq!(items[0].as_number(), Some(JsonNumber::PosInt(1)));
    assert_eq!(items[1].as_number(), Some(JsonNumber::NegInt(-2)));
    assert_eq!(items[2].as_number(), Some(JsonNumber::Float(2.5f64.to_bits())));
    assert_eq!(items[3].as_string().as_deref(), Some("x"));
    assert_eq!(items[4].as_bool(), Some(true));
    assert!(matches!(items[5], Json::Null));
    assert_eq!(
        parse_json("{not json").err(),
        Some(serde_json::from_str::<serde_json::Value>("{not json").unwrap_err().to_string())
    );
    assert!(parse_json("").is_err());
    assert!(matches!(parse_json("\"{}\""), Ok(Json::Str(_))));
}

#[test]
fn shared_data_parses_the_page_script() {
    let doc = shared_data(r#"<script>window._sharedData = {"config":{"viewer":null}};</script>"#).unwrap();
    assert!(doc.index_key("config").as_object().is_some());
    assert_eq!(shared_data("<html></html>").err(), Some(ApiError::InvalidSharedData));
    let expected = serde_json::from_str::<serde_json::Value>("{oops}").unwrap_err().to_string();
    assert_eq!(shared_data("window._sharedData = {oops};").err(), Some(ApiError::NotJson(expected)));
}

#[test]
fn user_infos_from_profile_page() {
    let infos = UserInfos::from_profile_page(profile_page()).unwrap();
    assert_eq!(infos.username.as_deref(), Some("instagram"));
    assert_eq!(infos.medias_count, Some(7000));
    assert_eq!(UserInfos::from_profile_page("nothing").err(), Some(ApiError::InvalidSharedData));
    assert_eq!(
        UserInfos::from_profile_page("window._sharedData = [;").err(),
        Some(ApiError::NotJson(serde_json::from_str::<serde_json::Value>("[;}").unwrap_err().to_string()))
    );
}

#[test]
fn post_from_post_page() {
    let page = r#"window._sharedData = {"entry_data":{"PostPage":[{"graphql":{"shortcode_media":{
        "id":"9","dimensions":null,"is_video":false,"edge_media_to_caption":{},"shortcode":"abc",
        "comments_disabled":false,"taken_at_timestamp":3,"edge_media_preview_like":{},"location":null,
        "display_url":"http://d"}}}]}};"#;
    let post = Post::from_post_page(page).unwrap().unwrap();
    assert_eq!(post.short_code.as_deref(), Some("abc"));
    assert_eq!(post.media_urls, vec!["http://d".to_string()]);
    assert_eq!(Post::from_post_page("none").unwrap().err(), Some(ApiError::InvalidSharedData));
    assert!(matches!(Post::from_post_page("window._sharedData = x};"), Some(Err(ApiError::NotJson(_)))));
    assert_eq!(
        Post::from_post_page(r#"window._sharedData = {"entry_data":{}};"#).unwrap().err(),
        Some(ApiError::PostNotFound)
    );
    let unreadable = r#"window._sharedData = {"entry_data":{"PostPage":[{"graphql":{"shortcode_media":{"id":"1"}}}]}};"#;
    assert!(Post::from_post_page(unreadable).is_none());
}
