use vstd::prelude::*;

use crate::error::ApiError;
use crate::text::{shared_data, shared_data_error, shared_doc};
use crate::json::{contains_key, entry_lookup, index_entry, opt_str_view, Json, JsonNumber};
use crate::model::{lemma_size_from, member, size_from, Size};
use crate::profile::UserInfos;

verus! {

/// A post of a profile.
#[derive(Debug, PartialEq)]
pub struct Post {
    pub id: Option<String>,
    pub dimensions: Option<Size>,
    pub is_video: Option<bool>,
    pub accessibility_caption: Option<String>,
    pub caption: Option<String>,
    pub short_code: Option<String>,
    pub comments_disabled: Option<bool>,
    pub taken_at_timestamp: Option<u64>,
    pub likes: Option<u64>,
    pub location: Option<String>,
    pub media_urls: Vec<String>,
}

/// The fields of a [`Post`], strings by their characters.
pub struct PostView {
    pub id: Option<Seq<char>>,
    pub dimensions: Option<Size>,
    pub is_video: Option<bool>,
    pub accessibility_caption: Option<Seq<char>>,
    pub caption: Option<Seq<char>>,
    pub short_code: Option<Seq<char>>,
    pub comments_disabled: Option<bool>,
    pub taken_at_timestamp: Option<u64>,
    pub likes: Option<u64>,
    pub location: Option<Seq<char>>,
    pub media_urls: Seq<Seq<char>>,
}

impl View for Post {
    type V = PostView;

    open spec fn view(&self) -> PostView {
        PostView {
            id: opt_str_view(self.id),
            dimensions: self.dimensions,
            is_video: self.is_video,
            accessibility_caption: opt_str_view(self.accessibility_caption),
            caption: opt_str_view(self.caption),
            short_code: opt_str_view(self.short_code),
            comments_disabled: self.comments_disabled,
            taken_at_timestamp: self.taken_at_timestamp,
            likes: self.likes,
            location: opt_str_view(self.location),
            media_urls: self.media_urls@.map_values(|u: String| u@),
        }
    }
}

/// A page of the posts of a profile, with the cursor of the next page.
#[derive(Debug, PartialEq)]
pub struct Posts {
    pub cursor: Option<String>,
    pub posts: Vec<Post>,
}

/// The fields of [`Posts`], strings by their characters.
pub struct PostsView {
    pub cursor: Option<Seq<char>>,
    pub posts: Seq<PostView>,
}

impl View for Posts {
    type V = PostsView;

    open spec fn view(&self) -> PostsView {
        PostsView { cursor: opt_str_view(self.cursor), posts: self.posts@.map_values(|p: Post| p@) }
    }
}

/// An object has a member `key`.
pub open spec fn has(entries: Seq<(String, Json)>, key: Seq<char>) -> bool {
    entry_lookup(entries, key) is Some
}

/// The `node` members of some edges that are objects, in order.
pub open spec fn edge_nodes(edges: Seq<Json>) -> Seq<Seq<(String, Json)>>
    decreases edges.len(),
{
    if edges.len() == 0 {
        seq![]
    } else {
        let before = edge_nodes(edges.drop_last());
        match edges.last().field("node"@) {
            Json::Object(entries) => before.push(entries@),
            _ => before,
        }
    }
}

/// The nodes that hold the media of a post: the `node` objects of the edges
/// of its `edge_sidecar_to_children` member when it has one (none when those
/// edges are not an array), the post itself otherwise.
pub open spec fn media_nodes(root: Seq<(String, Json)>) -> Seq<Seq<(String, Json)>> {
    if has(root, "edge_sidecar_to_children"@) {
        match member(root, "edge_sidecar_to_children"@).field("edges"@).array_of() {
            Some(edges) => edge_nodes(edges),
            None => seq![],
        }
    } else {
        seq![root]
    }
}

/// A media node names a `video_url` or a `display_url` (reading the url of
/// one that names neither fails).
pub open spec fn node_readable(node: Seq<(String, Json)>) -> bool {
    has(node, "video_url"@) || has(node, "display_url"@)
}

/// The url value of a media node: its `video_url` if it has one, else its
/// `display_url`.
pub open spec fn node_url(node: Seq<(String, Json)>) -> Json {
    if has(node, "video_url"@) {
        member(node, "video_url"@)
    } else {
        member(node, "display_url"@)
    }
}

/// The urls of some media nodes, in order, leaving out those that are not
/// strings.
pub open spec fn urls_of(nodes: Seq<Seq<(String, Json)>>) -> Seq<Seq<char>>
    decreases nodes.len(),
{
    if nodes.len() == 0 {
        seq![]
    } else {
        let before = urls_of(nodes.drop_last());
        match node_url(nodes.last()).str_of() {
            Some(url) => before.push(url),
            None => before,
        }
    }
}

/// A post object that can be read: it has every member that is read from it
/// directly, and each of its media nodes names a url.
pub open spec fn root_node_readable(root: Seq<(String, Json)>) -> bool {
    &&& has(root, "id"@)
    &&& has(root, "dimensions"@)
    &&& has(root, "is_video"@)
    &&& has(root, "edge_media_to_caption"@)
    &&& has(root, "shortcode"@)
    &&& has(root, "comments_disabled"@)
    &&& has(root, "taken_at_timestamp"@)
    &&& has(root, "edge_media_preview_like"@)
    &&& has(root, "location"@)
    &&& forall|i: int|
        0 <= i < media_nodes(root).len() ==> #[trigger] node_readable(media_nodes(root)[i])
}

/// The post that a post object describes.
pub open spec fn post_of(root: Seq<(String, Json)>) -> PostView {
    PostView {
        id: member(root, "id"@).str_of(),
        dimensions: size_from(member(root, "dimensions"@)),
        is_video: member(root, "is_video"@).bool_of(),
        accessibility_caption: if has(root, "accessibility_caption"@) {
            member(root, "accessibility_caption"@).str_of()
        } else {
            None
        },
        caption: member(root, "edge_media_to_caption"@).field("edges"@).item(0).field(
            "node"@,
        ).field("text"@).str_of(),
        short_code: member(root, "shortcode"@).str_of(),
        comments_disabled: member(root, "comments_disabled"@).bool_of(),
        taken_at_timestamp: member(root, "taken_at_timestamp"@).u64_of(),
        likes: member(root, "edge_media_preview_like"@).field("count"@).u64_of(),
        location: member(root, "location"@).str_of(),
        media_urls: urls_of(media_nodes(root)),
    }
}

/// What a post read from a post object holds: each field from the member of
/// the object that names it (the size of the member `dimensions`, its width
/// from `width` and its height from `height`; the caption from the text of
/// the node of the first edge of `edge_media_to_caption`; the likes from the
/// count of `edge_media_preview_like`), and, for a post that is not a
/// carousel, the one url of the post itself, its video url first.
pub proof fn lemma_post_of(root: Seq<(String, Json)>, w: u64, h: u64, url: Seq<char>)
    ensures
        post_of(root).id == member(root, "id"@).str_of(),
        post_of(root).dimensions == size_from(member(root, "dimensions"@)),
        member(root, "dimensions"@) is Object && member(root, "dimensions"@).field("width"@)
            == Json::Number(JsonNumber::PosInt(w)) && member(root, "dimensions"@).field("height"@)
            == Json::Number(JsonNumber::PosInt(h)) ==> post_of(root).dimensions == Some(
            Size { width: Some(w), height: Some(h) },
        ),
        post_of(root).is_video == member(root, "is_video"@).bool_of(),
        post_of(root).accessibility_caption == member(root, "accessibility_caption"@).str_of(),
        post_of(root).caption == member(root, "edge_media_to_caption"@).field("edges"@).item(
            0,
        ).field("node"@).field("text"@).str_of(),
        post_of(root).short_code == member(root, "shortcode"@).str_of(),
        post_of(root).comments_disabled == member(root, "comments_disabled"@).bool_of(),
        post_of(root).taken_at_timestamp == member(root, "taken_at_timestamp"@).u64_of(),
        post_of(root).likes == member(root, "edge_media_preview_like"@).field("count"@).u64_of(),
        post_of(root).location == member(root, "location"@).str_of(),
        !(has(root, "edge_sidecar_to_children"@)) && member(root, "video_url"@).str_of() == Some(url)
            ==> post_of(root).media_urls == seq![url],
        !(has(root, "edge_sidecar_to_children"@)) && !(has(root, "video_url"@)) && member(
            root,
            "display_url"@,
        ).str_of() == Some(url) ==> post_of(root).media_urls == seq![url],
        !(has(root, "edge_sidecar_to_children"@)) && !(has(root, "video_url"@)) && !(has(
            root,
            "display_url"@,
        )) ==> post_of(root).media_urls.len() == 0,
{
    lemma_size_from(member(root, "dimensions"@));
    let nodes = seq![root];
    assert(nodes.drop_last() =~= Seq::<Seq<(String, Json)>>::empty());
    assert(nodes.last() == root);
    assert(urls_of(nodes.drop_last()) =~= Seq::<Seq<char>>::empty());
    if !(has(root, "video_url"@)) {
        assert(member(root, "video_url"@) == Json::Null);
    }
    if !(has(root, "edge_sidecar_to_children"@)) {
        assert(media_nodes(root) == nodes);
        if member(root, "video_url"@).str_of() == Some(url) {
            assert(urls_of(nodes) =~= seq![url]);
        }
        if !(has(root, "video_url"@)) && member(root, "display_url"@).str_of() == Some(url) {
            assert(urls_of(nodes) =~= seq![url]);
        }
        if !(has(root, "video_url"@)) && !(has(root, "display_url"@)) {
            assert(member(root, "display_url"@) == Json::Null);
            assert(urls_of(nodes) =~= Seq::<Seq<char>>::empty());
        }
    }
}

/// The url of a media node, if it is a string.
fn read_node_url(node: &Vec<(String, Json)>) -> (r: Option<String>)
    requires
        node_readable(node@),
    ensures
        opt_str_view(r) == node_url(node@).str_of(),
{
    if contains_key(node, "video_url") {
        index_entry(node, "video_url").as_string()
    } else {
        index_entry(node, "display_url").as_string()
    }
}

/// The edges that list the media of a post with several of them.
fn sidecar_edges(root: &Vec<(String, Json)>) -> (r: Option<&Vec<Json>>)
    requires
        has(root@, "edge_sidecar_to_children"@),
    ensures
        match r {
            Some(edges) => member(root@, "edge_sidecar_to_children"@).field("edges"@).array_of()
                == Some(edges@),
            None => member(root@, "edge_sidecar_to_children"@).field("edges"@).array_of() is None,
        },
{
    index_entry(root, "edge_sidecar_to_children").index_key("edges").as_array()
}

/// Whether the media nodes listed by some edges all name a url, and the
/// urls of those nodes.
fn scan_edges(edges: &Vec<Json>, read: bool) -> (r: (bool, Vec<String>))
    ensures
        r.0 == (forall|i: int|
            0 <= i < edge_nodes(edges@).len()
                ==> #[trigger] node_readable(
                edge_nodes(edges@)[i],
            )),
        read && r.0 ==> r.1@.map_values(|u: String| u@) == urls_of(
            edge_nodes(edges@),
        ),
{
    let mut urls: Vec<String> = Vec::new();
    let mut i: usize = 0;
    while i < edges.len()
        invariant
            i <= edges@.len(),
            forall|k: int|
                0 <= k < edge_nodes(edges@.take(i as int)).len()
                    ==> #[trigger] node_readable(
                    edge_nodes(edges@.take(i as int))[k],
                ),
            read ==> urls@.map_values(|u: String| u@) == urls_of(
                edge_nodes(edges@.take(i as int)),
            ),
        decreases edges@.len() - i,
    {
        let ghost before = urls@;
        assert(edges@.take(i + 1).drop_last() =~= edges@.take(i as int));
        let ghost prev = edge_nodes(edges@.take(i as int));
        let ghost next = edge_nodes(edges@.take(i + 1));
        match edges[i].index_key("node").as_object() {
            Some(node) => {
                assert(next == prev.push(node@));
                if !(contains_key(node, "video_url") || contains_key(node, "display_url")) {
                    assert(!node_readable(next[prev.len() as int]));
                    proof {
                        lemma_edge_nodes_prefix(edges@, i as int + 1);
                    }
                    return (false, urls);
                }
                if read {
                    match read_node_url(node) {
                        Some(url) => {
                            urls.push(url);
                            assert(urls@.map_values(|u: String| u@) =~= before.map_values(
                                |u: String| u@,
                            ).push(url@));
                        },
                        None => {},
                    }
                    assert(next.drop_last() =~= prev);
                }
            },
            None => {
                assert(next == prev);
            },
        }
        i = i + 1;
    }
    assert(edges@.take(edges@.len() as int) =~= edges@);
    (true, urls)
}

/// The `node` objects of the first `n` edges come first among those of all
/// the edges.
proof fn lemma_edge_nodes_prefix(edges: Seq<Json>, n: int)
    requires
        0 <= n <= edges.len(),
    ensures
        edge_nodes(edges.take(n)).len() <= edge_nodes(edges).len(),
        forall|k: int|
            0 <= k < edge_nodes(edges.take(n)).len() ==> #[trigger] edge_nodes(edges.take(n))[k]
                == edge_nodes(edges)[k],
    decreases edges.len() - n,
{
    if n < edges.len() {
        lemma_edge_nodes_prefix(edges, n + 1);
        assert(edges.take(n + 1).drop_last() =~= edges.take(n));
        let a = edge_nodes(edges.take(n));
        let b = edge_nodes(edges.take(n + 1));
        assert forall|k: int| 0 <= k < a.len() implies #[trigger] a[k] == edge_nodes(edges)[k] by {
            assert(a[k] == b[k]);
        }
    } else {
        assert(edges.take(n) =~= edges);
    }
}

impl Post {
    /// Whether a post object can be read.
    pub fn root_node_readable(root_node: &Vec<(String, Json)>) -> (r: bool)
        ensures
            r == root_node_readable(root_node@),
    {
        let members = contains_key(root_node, "id") && contains_key(root_node, "dimensions")
            && contains_key(root_node, "is_video") && contains_key(
            root_node,
            "edge_media_to_caption",
        ) && contains_key(root_node, "shortcode") && contains_key(root_node, "comments_disabled")
            && contains_key(root_node, "taken_at_timestamp") && contains_key(
            root_node,
            "edge_media_preview_like",
        ) && contains_key(root_node, "location");
        if !members {
            return false;
        }
        if contains_key(root_node, "edge_sidecar_to_children") {
            match sidecar_edges(root_node) {
                Some(edges) => scan_edges(edges, false).0,
                None => true,
            }
        } else {
            assert(media_nodes(root_node@) =~= seq![root_node@]);
            let ok = contains_key(root_node, "video_url") || contains_key(root_node, "display_url");
            assert(ok == node_readable(media_nodes(root_node@)[0]));
            ok
        }
    }

    /// The post that a post object describes.
    pub fn from_root_node(root_node: &Vec<(String, Json)>) -> (r: Result<Post, ApiError>)
        requires
            root_node_readable(root_node@),
        ensures
            r matches Ok(post) && post@ == post_of(root_node@),
    {
        let media_urls = if contains_key(root_node, "edge_sidecar_to_children") {
            match sidecar_edges(root_node) {
                Some(edges) => {
                    let (_, urls) = scan_edges(edges, true);
                    urls
                },
                None => {
                    let urls: Vec<String> = Vec::new();
                    assert(urls@.map_values(|u: String| u@) =~= urls_of(media_nodes(root_node@)));
                    urls
                },
            }
        } else {
            let mut urls: Vec<String> = Vec::new();
            let ghost nodes = seq![root_node@];
            assert(media_nodes(root_node@) =~= nodes);
            assert(node_readable(media_nodes(root_node@)[0]));
            assert(nodes.drop_last() =~= Seq::<Seq<(String, Json)>>::empty());
            assert(urls_of(nodes.drop_last()) =~= Seq::<Seq<char>>::empty());
            assert(nodes.last() == root_node@);
            match read_node_url(root_node) {
                Some(url) => {
                    urls.push(url);
                    assert(urls_of(nodes) =~= seq![url@]);
                },
                None => {
                    assert(urls_of(nodes) =~= Seq::<Seq<char>>::empty());
                },
            }
            assert(urls@.map_values(|u: String| u@) =~= urls_of(media_nodes(root_node@)));
            urls
        };
        assert(media_urls@.map_values(|u: String| u@) == urls_of(media_nodes(root_node@)));
        let accessibility_caption = if contains_key(root_node, "accessibility_caption") {
            index_entry(root_node, "accessibility_caption").as_string()
        } else {
            None
        };
        Ok(
            Post {
                media_urls,
                id: index_entry(root_node, "id").as_string(),
                dimensions: Size::from_json(index_entry(root_node, "dimensions")),
                is_video: index_entry(root_node, "is_video").as_bool(),
                accessibility_caption,
                caption: index_entry(root_node, "edge_media_to_caption").index_key(
                    "edges",
                ).index_pos(0).index_key("node").index_key("text").as_string(),
                short_code: index_entry(root_node, "shortcode").as_string(),
                comments_disabled: index_entry(root_node, "comments_disabled").as_bool(),
                taken_at_timestamp: index_entry(root_node, "taken_at_timestamp").as_u64(),
                likes: index_entry(root_node, "edge_media_preview_like").index_key(
                    "count",
                ).as_u64(),
                location: index_entry(root_node, "location").as_string(),
            },
        )
    }
}

/// The post object of a post page's shared data.
pub open spec fn post_page_node(shared_data: Json) -> Json {
    shared_data.field("entry_data"@).field("PostPage"@).item(0).field("graphql"@).field(
        "shortcode_media"@,
    )
}

/// Shared data of a post page whose post, if it has one, can be read.
pub open spec fn post_page_readable(shared_data: Json) -> bool {
    match post_page_node(shared_data) {
        Json::Object(entries) => root_node_readable(entries@),
        _ => true,
    }
}

/// The post that a post page's shared data describes; `None` when it holds
/// no post object.
pub open spec fn post_page_post(shared_data: Json) -> Option<PostView> {
    match post_page_node(shared_data) {
        Json::Object(entries) => Some(post_of(entries@)),
        _ => None,
    }
}

/// The timeline of a profile in an answer to a posts query.
pub open spec fn timeline_media(response: Json) -> Json {
    response.field("data"@).field("user"@).field("edge_owner_to_timeline_media"@)
}

/// The edges of that timeline (none when they are not an array).
pub open spec fn timeline_edges(response: Json) -> Seq<Json> {
    match timeline_media(response).field("edges"@).array_of() {
        Some(edges) => edges,
        None => seq![],
    }
}

/// An edge whose node is a post object that can be read (reading the post
/// of an edge whose node is not an object fails).
pub open spec fn edge_readable(edge: Json) -> bool {
    match edge.field("node"@) {
        Json::Object(entries) => root_node_readable(entries@),
        _ => false,
    }
}

/// An answer to a posts query whose posts can all be read.
pub open spec fn posts_readable(response: Json) -> bool {
    forall|i: int|
        0 <= i < timeline_edges(response).len() ==> #[trigger] edge_readable(
            timeline_edges(response)[i],
        )
}

/// The post that an edge's node describes.
pub open spec fn edge_post(edge: Json) -> PostView {
    match edge.field("node"@) {
        Json::Object(entries) => post_of(entries@),
        _ => post_of(seq![]),
    }
}

/// The page of posts in an answer to a posts query: one post for each edge,
/// in order, and the cursor of the next page.
pub open spec fn posts_of(response: Json) -> PostsView {
    PostsView {
        cursor: timeline_media(response).field("page_info"@).field("end_cursor"@).str_of(),
        posts: timeline_edges(response).map_values(|e: Json| edge_post(e)),
    }
}

/// The edges of the timeline in a posts answer.
fn timeline_edges_of(response: &Json) -> (r: Option<&Vec<Json>>)
    ensures
        match r {
            Some(edges) => timeline_edges(*response) == edges@,
            None => timeline_edges(*response) == Seq::<Json>::empty(),
        },
{
    response.index_key("data").index_key("user").index_key("edge_owner_to_timeline_media").index_key(
        "edges",
    ).as_array()
}

impl Post {
    /// Whether the post of a post page's shared data can be read.
    pub fn post_page_readable(shared_data: &Json) -> (r: bool)
        ensures
            r == post_page_readable(*shared_data),
    {
        let node = shared_data.index_key("entry_data").index_key("PostPage").index_pos(
            0,
        ).index_key("graphql").index_key("shortcode_media");
        match node.as_object() {
            Some(entries) => Post::root_node_readable(entries),
            None => true,
        }
    }

    /// The post described by the shared data of its page.
    pub fn from_id(shared_data: &Json) -> (r: Result<Post, ApiError>)
        requires
            post_page_readable(*shared_data),
        ensures
            match post_page_post(*shared_data) {
                Some(post) => r matches Ok(p) && p@ == post,
                None => r == Err::<Post, ApiError>(ApiError::PostNotFound),
            },
    {
        let node = shared_data.index_key("entry_data").index_key("PostPage").index_pos(
            0,
        ).index_key("graphql").index_key("shortcode_media");
        match node.as_object() {
            Some(entries) => Post::from_root_node(entries),
            None => Err(ApiError::PostNotFound),
        }
    }
}

impl UserInfos {
    /// Whether every post of a posts answer can be read.
    pub fn posts_readable(response: &Json) -> (r: bool)
        ensures
            r == posts_readable(*response),
    {
        let edges = match timeline_edges_of(response) {
            Some(edges) => edges,
            None => return true,
        };
        let mut i: usize = 0;
        while i < edges.len()
            invariant
                timeline_edges(*response) == edges@,
                i <= edges@.len(),
                forall|j: int| 0 <= j < i ==> #[trigger] edge_readable(edges@[j]),
            decreases edges@.len() - i,
        {
            let ok = match edges[i].index_key("node").as_object() {
                Some(entries) => Post::root_node_readable(entries),
                None => false,
            };
            if !ok {
                assert(!edge_readable(edges@[i as int]));
                return false;
            }
            i = i + 1;
        }
        true
    }

    /// A page of the posts of a profile, read out of the answer to the posts
    /// query.
    pub fn fetch_posts(response: &Json) -> (r: Posts)
        requires
            posts_readable(*response),
        ensures
            r@ == posts_of(*response),
    {
        let cursor = response.index_key("data").index_key("user").index_key(
            "edge_owner_to_timeline_media",
        ).index_key("page_info").index_key("end_cursor").as_string();
        let mut posts: Vec<Post> = Vec::new();
        let edges = match timeline_edges_of(response) {
            Some(edges) => edges,
            None => {
                assert(posts@.map_values(|p: Post| p@) =~= timeline_edges(*response).map_values(
                    |e: Json| edge_post(e),
                ));
                return Posts { cursor, posts };
            },
        };
        let mut i: usize = 0;
        while i < edges.len()
            invariant
                timeline_edges(*response) == edges@,
                posts_readable(*response),
                i <= edges@.len(),
                posts@.map_values(|p: Post| p@) == edges@.take(i as int).map_values(
                    |e: Json| edge_post(e),
                ),
            decreases edges@.len() - i,
        {
            assert(edge_readable(edges@[i as int]));
            let ghost before = posts@;
            match edges[i].index_key("node").as_object() {
                Some(entries) => {
                    match Post::from_root_node(entries) {
                        Ok(post) => {
                            assert(post@ == edge_post(edges@[i as int]));
                            posts.push(post);
                            assert(posts@.map_values(|p: Post| p@) =~= before.map_values(
                                |p: Post| p@,
                            ).push(post@));
                        },
                        Err(_) => {},
                    }
                },
                None => {},
            }
            assert(edges@.take(i + 1).map_values(|e: Json| edge_post(e)) =~= edges@.take(
                i as int,
            ).map_values(|e: Json| edge_post(e)).push(edge_post(edges@[i as int])));
            i = i + 1;
        }
        assert(edges@.take(edges@.len() as int) =~= edges@);
        Posts { cursor, posts }
    }
}

/// The media urls of a carousel are those of the `node` objects of the edges
/// of its `edge_sidecar_to_children.edges`, in order; a carousel whose edges
/// are not an array has none.
pub proof fn lemma_carousel_urls(root: Seq<(String, Json)>)
    ensures
        has(root, "edge_sidecar_to_children"@) ==> post_of(root).media_urls == match member(
            root,
            "edge_sidecar_to_children"@,
        ).field("edges"@).array_of() {
            Some(edges) => urls_of(edge_nodes(edges)),
            None => Seq::<Seq<char>>::empty(),
        },
{
    assert(urls_of(Seq::<Seq<(String, Json)>>::empty()) =~= Seq::<Seq<char>>::empty());
}

/// The media nodes of one edge: its `node` member, if that is an object.
pub proof fn lemma_edge_nodes_one(edge: Json)
    ensures
        edge_nodes(seq![edge]) == match edge.field("node"@) {
            Json::Object(entries) => seq![entries@],
            _ => Seq::<Seq<(String, Json)>>::empty(),
        },
{
    assert(seq![edge].drop_last() =~= Seq::<Json>::empty());
    assert(seq![edge].last() == edge);
    assert(edge_nodes(seq![edge].drop_last()) =~= Seq::<Seq<(String, Json)>>::empty());
    if let Json::Object(entries) = edge.field("node"@) {
        assert(Seq::<Seq<(String, Json)>>::empty().push(entries@) =~= seq![entries@]);
    }
}

/// The media nodes of two runs of edges one after the other are those of
/// the first run, then those of the second.
pub proof fn lemma_edge_nodes_append(a: Seq<Json>, b: Seq<Json>)
    ensures
        edge_nodes(a + b) == edge_nodes(a) + edge_nodes(b),
    decreases b.len(),
{
    if b.len() == 0 {
        assert(a + b =~= a);
        assert(edge_nodes(a) + edge_nodes(b) =~= edge_nodes(a));
    } else {
        lemma_edge_nodes_append(a, b.drop_last());
        assert((a + b).drop_last() =~= a + b.drop_last());
        assert((a + b).last() == b.last());
        match b.last().field("node"@) {
            Json::Object(entries) => {
                assert(edge_nodes(a) + edge_nodes(b) =~= (edge_nodes(a) + edge_nodes(
                    b.drop_last(),
                )).push(entries@));
            },
            _ => {},
        }
    }
}

/// The url of one media node: its `video_url` when it has that member, its
/// `display_url` otherwise; none when that member is not a string.
pub proof fn lemma_urls_of_one(node: Seq<(String, Json)>, url: Seq<char>)
    ensures
        has(node, "video_url"@) && member(node, "video_url"@).str_of() == Some(url) ==> urls_of(
            seq![node],
        ) == seq![url],
        has(node, "video_url"@) && (member(node, "video_url"@).str_of() is None) ==> urls_of(
            seq![node],
        ).len() == 0,
        !(has(node, "video_url"@)) && member(node, "display_url"@).str_of() == Some(url)
            ==> urls_of(seq![node]) == seq![url],
        !(has(node, "video_url"@)) && (member(node, "display_url"@).str_of() is None) ==> urls_of(
            seq![node],
        ).len() == 0,
{
    assert(seq![node].drop_last() =~= Seq::<Seq<(String, Json)>>::empty());
    assert(seq![node].last() == node);
    assert(urls_of(seq![node].drop_last()) =~= Seq::<Seq<char>>::empty());
    assert(Seq::<Seq<char>>::empty().push(url) =~= seq![url]);
}

/// The urls of two runs of media nodes one after the other are those of the
/// first run, then those of the second.
pub proof fn lemma_urls_of_append(a: Seq<Seq<(String, Json)>>, b: Seq<Seq<(String, Json)>>)
    ensures
        urls_of(a + b) == urls_of(a) + urls_of(b),
    decreases b.len(),
{
    if b.len() == 0 {
        assert(a + b =~= a);
        assert(urls_of(a) + urls_of(b) =~= urls_of(a));
    } else {
        lemma_urls_of_append(a, b.drop_last());
        assert((a + b).drop_last() =~= a + b.drop_last());
        assert((a + b).last() == b.last());
        match node_url(b.last()).str_of() {
            Some(url) => {
                assert(urls_of(a) + urls_of(b) =~= (urls_of(a) + urls_of(b.drop_last())).push(url));
            },
            None => {},
        }
    }
}

/// Where the posts are read from. The post of a post page is the object at
/// `entry_data.PostPage[0].graphql.shortcode_media` of its shared data (none
/// when that is not an object). A page of posts has one post for each edge
/// of `data.user.edge_owner_to_timeline_media.edges`, read from the edge's
/// `node`, in order, and the cursor `page_info.end_cursor` of that timeline.
pub proof fn lemma_post_sources(shared_data: Json, response: Json)
    ensures
        post_page_post(shared_data) == match shared_data.field("entry_data"@).field(
            "PostPage"@,
        ).item(0).field("graphql"@).field("shortcode_media"@) {
            Json::Object(entries) => Some(post_of(entries@)),
            _ => None,
        },
        ({
            let timeline = response.field("data"@).field("user"@).field(
                "edge_owner_to_timeline_media"@,
            );
            &&& posts_of(response).cursor == timeline.field("page_info"@).field(
                "end_cursor"@,
            ).str_of()
            &&& timeline.field("edges"@).array_of() matches Some(edges) ==> {
                &&& posts_of(response).posts.len() == edges.len()
                &&& forall|k: int|
                    0 <= k < edges.len() ==> #[trigger] posts_of(response).posts[k] == match edges[k].field(
                        "node"@,
                    ) {
                        Json::Object(entries) => post_of(entries@),
                        _ => post_of(Seq::<(String, Json)>::empty()),
                    }
            }
            &&& (timeline.field("edges"@).array_of() is None) ==> posts_of(response).posts.len()
                == 0
        }),
{
}

/// A post has at most one media url per media node, so a post without
/// children has at most one.
pub proof fn lemma_urls_at_most_nodes(nodes: Seq<Seq<(String, Json)>>)
    ensures
        urls_of(nodes).len() <= nodes.len(),
    decreases nodes.len(),
{
    if nodes.len() > 0 {
        lemma_urls_at_most_nodes(nodes.drop_last());
    }
}

impl Post {
    /// The post on its page; `None` where the page's post cannot be read.
    pub fn from_post_page(html: &str) -> (r: Option<Result<Post, ApiError>>)
        ensures
            match shared_doc(html@) {
                None => r matches Some(Err(e)) && shared_data_error(html@, e),
                Some(doc) => if post_page_readable(doc) {
                    match post_page_post(doc) {
                        Some(post) => r matches Some(Ok(p)) && p@ == post,
                        None => r == Some(Err::<Post, ApiError>(ApiError::PostNotFound)),
                    }
                } else {
                    r is None
                },
            },
    {
        let doc = match shared_data(html) {
            Ok(doc) => doc,
            Err(e) => return Some(Err(e)),
        };
        if Post::post_page_readable(&doc) {
            Some(Post::from_id(&doc))
        } else {
            None
        }
    }
}

} // verus!
