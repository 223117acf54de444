use vstd::prelude::*;

use crate::error::ApiError;
use crate::text::{shared_data, shared_data_error, shared_doc};
use crate::json::{contains_key, entry_lookup, lemma_lookup_found, opt_str_view, Json, JsonNumber};
use crate::model::Size;

verus! {

/// What a profile page tells about a profile.
#[derive(Debug, PartialEq)]
pub struct UserInfos {
    pub biography: Option<String>,
    pub external_url: Option<String>,
    pub external_url_link_shimmed: Option<String>,
    pub followers: Option<u64>,
    pub following: Option<u64>,
    pub full_name: Option<String>,
    pub id: Option<String>,
    pub is_business_account: Option<bool>,
    pub is_joined_recently: Option<bool>,
    pub business_category_name: Option<String>,
    pub is_private: Option<bool>,
    pub is_verified: Option<bool>,
    pub profile_picture_url: Option<String>,
    pub profile_picture_url_hd: Option<String>,
    pub username: Option<String>,
    pub connected_fb_page: Option<String>,
    pub collections_count: Option<u64>,
    pub saved_media_count: Option<u64>,
    pub videos_count: Option<u64>,
    pub medias_count: Option<u64>,
}

/// The fields of [`UserInfos`], strings by their characters.
pub struct UserInfosView {
    pub biography: Option<Seq<char>>,
    pub external_url: Option<Seq<char>>,
    pub external_url_link_shimmed: Option<Seq<char>>,
    pub followers: Option<u64>,
    pub following: Option<u64>,
    pub full_name: Option<Seq<char>>,
    pub id: Option<Seq<char>>,
    pub is_business_account: Option<bool>,
    pub is_joined_recently: Option<bool>,
    pub business_category_name: Option<Seq<char>>,
    pub is_private: Option<bool>,
    pub is_verified: Option<bool>,
    pub profile_picture_url: Option<Seq<char>>,
    pub profile_picture_url_hd: Option<Seq<char>>,
    pub username: Option<Seq<char>>,
    pub connected_fb_page: Option<Seq<char>>,
    pub collections_count: Option<u64>,
    pub saved_media_count: Option<u64>,
    pub videos_count: Option<u64>,
    pub medias_count: Option<u64>,
}

impl View for UserInfos {
    type V = UserInfosView;

    open spec fn view(&self) -> UserInfosView {
        UserInfosView {
            biography: opt_str_view(self.biography),
            external_url: opt_str_view(self.external_url),
            external_url_link_shimmed: opt_str_view(self.external_url_link_shimmed),
            followers: self.followers,
            following: self.following,
            full_name: opt_str_view(self.full_name),
            id: opt_str_view(self.id),
            is_business_account: self.is_business_account,
            is_joined_recently: self.is_joined_recently,
            business_category_name: opt_str_view(self.business_category_name),
            is_private: self.is_private,
            is_verified: self.is_verified,
            profile_picture_url: opt_str_view(self.profile_picture_url),
            profile_picture_url_hd: opt_str_view(self.profile_picture_url_hd),
            username: opt_str_view(self.username),
            connected_fb_page: opt_str_view(self.connected_fb_page),
            collections_count: self.collections_count,
            saved_media_count: self.saved_media_count,
            videos_count: self.videos_count,
            medias_count: self.medias_count,
        }
    }
}

/// The user object in the shared data of a profile page.
pub open spec fn profile_user(shared_data: Json) -> Json {
    shared_data.field("entry_data"@).field("ProfilePage"@).item(0).field("graphql"@).field("user"@)
}

/// What the shared data of a profile page tells about the profile.
pub open spec fn user_infos_of(shared_data: Json) -> UserInfosView {
    let user = profile_user(shared_data);
    UserInfosView {
        biography: user.field("biography"@).str_of(),
        external_url: user.field("external_url"@).str_of(),
        external_url_link_shimmed: user.field("external_url_link_shimmed"@).str_of(),
        followers: user.field("edge_followed_by"@).field("count"@).u64_of(),
        following: user.field("edge_follow"@).field("count"@).u64_of(),
        full_name: user.field("full_name"@).str_of(),
        id: user.field("id"@).str_of(),
        is_business_account: user.field("is_business_account"@).bool_of(),
        is_joined_recently: user.field("is_joined_recently"@).bool_of(),
        business_category_name: user.field("business_category_name"@).str_of(),
        is_private: user.field("is_private"@).bool_of(),
        is_verified: user.field("is_verified"@).bool_of(),
        profile_picture_url: user.field("profile_pic_url"@).str_of(),
        profile_picture_url_hd: user.field("profile_pic_url_hd"@).str_of(),
        username: user.field("username"@).str_of(),
        connected_fb_page: user.field("connected_fb_page"@).str_of(),
        collections_count: user.field("edge_media_collections"@).field("count"@).u64_of(),
        saved_media_count: user.field("edge_saved_media"@).field("count"@).u64_of(),
        videos_count: user.field("edge_felix_video_timeline"@).field("count"@).u64_of(),
        medias_count: user.field("edge_owner_to_timeline_media"@).field("count"@).u64_of(),
    }
}

/// What profile information read from a page's shared data holds: each field
/// from the member that names it of the user at
/// `entry_data.ProfilePage[0].graphql.user` (the counts from the `count` of
/// the edge lists of the user, the picture urls from `profile_pic_url` and
/// `profile_pic_url_hd`).
pub proof fn lemma_user_infos_of(shared_data: Json)
    ensures
        ({
            let user = shared_data.field("entry_data"@).field("ProfilePage"@).item(0).field(
                "graphql"@,
            ).field("user"@);
            let infos = user_infos_of(shared_data);
            &&& infos.biography == user.field("biography"@).str_of()
            &&& infos.external_url == user.field("external_url"@).str_of()
            &&& infos.external_url_link_shimmed == user.field(
                "external_url_link_shimmed"@,
            ).str_of()
            &&& infos.followers == user.field("edge_followed_by"@).field("count"@).u64_of()
            &&& infos.following == user.field("edge_follow"@).field("count"@).u64_of()
            &&& infos.full_name == user.field("full_name"@).str_of()
            &&& infos.id == user.field("id"@).str_of()
            &&& infos.is_business_account == user.field("is_business_account"@).bool_of()
            &&& infos.is_joined_recently == user.field("is_joined_recently"@).bool_of()
            &&& infos.business_category_name == user.field("business_category_name"@).str_of()
            &&& infos.is_private == user.field("is_private"@).bool_of()
            &&& infos.is_verified == user.field("is_verified"@).bool_of()
            &&& infos.profile_picture_url == user.field("profile_pic_url"@).str_of()
            &&& infos.profile_picture_url_hd == user.field("profile_pic_url_hd"@).str_of()
            &&& infos.username == user.field("username"@).str_of()
            &&& infos.connected_fb_page == user.field("connected_fb_page"@).str_of()
            &&& infos.collections_count == user.field("edge_media_collections"@).field(
                "count"@,
            ).u64_of()
            &&& infos.saved_media_count == user.field("edge_saved_media"@).field(
                "count"@,
            ).u64_of()
            &&& infos.videos_count == user.field("edge_felix_video_timeline"@).field(
                "count"@,
            ).u64_of()
            &&& infos.medias_count == user.field("edge_owner_to_timeline_media"@).field(
                "count"@,
            ).u64_of()
        }),
{
}

/// A story of a profile.
#[derive(Debug, PartialEq)]
pub struct Story {
    pub taken_at: Option<u64>,
    pub device_timestamp: Option<u64>,
    pub original_size: Size,
    pub has_audio: Option<bool>,
    /// The length of a video in seconds, as the number that the answer gave.
    pub video_duration: Option<JsonNumber>,
    pub expiring_at: Option<u64>,
    pub caption: Option<String>,
    pub is_video: bool,
    pub display_url: Option<String>,
}

/// The fields of a [`Story`], strings by their characters.
pub struct StoryView {
    pub taken_at: Option<u64>,
    pub device_timestamp: Option<u64>,
    pub original_size: Size,
    pub has_audio: Option<bool>,
    pub video_duration: Option<JsonNumber>,
    pub expiring_at: Option<u64>,
    pub caption: Option<Seq<char>>,
    pub is_video: bool,
    pub display_url: Option<Seq<char>>,
}

impl View for Story {
    type V = StoryView;

    open spec fn view(&self) -> StoryView {
        StoryView {
            taken_at: self.taken_at,
            device_timestamp: self.device_timestamp,
            original_size: self.original_size,
            has_audio: self.has_audio,
            video_duration: self.video_duration,
            expiring_at: self.expiring_at,
            caption: opt_str_view(self.caption),
            is_video: self.is_video,
            display_url: opt_str_view(self.display_url),
        }
    }
}

/// The items of an answer to a stories query (none when there is no array).
pub open spec fn story_items(response: Json) -> Seq<Json> {
    match response.field("items"@).array_of() {
        Some(items) => items,
        None => seq![],
    }
}

/// The story that an item describes; `None` for an item that is not an
/// object. An item is a video when it has a `video_versions` member; both
/// sides of its size are read from `original_width`.
pub open spec fn story_of(item: Json) -> Option<StoryView> {
    match item {
        Json::Object(entries) => {
            let is_video = entry_lookup(entries@, "video_versions"@) is Some;
            let width = item.field("original_width"@).u64_of();
            let url = if is_video {
                item.field("video_versions"@).item(0).field("url"@)
            } else {
                item.field("image_versions2"@).field("candidates"@).item(0).field("url"@)
            };
            Some(
                StoryView {
                    taken_at: item.field("taken_at"@).u64_of(),
                    device_timestamp: item.field("device_timestamp"@).u64_of(),
                    original_size: Size { width, height: width },
                    has_audio: item.field("has_audio"@).bool_of(),
                    video_duration: item.field("video_duration"@).number_of(),
                    expiring_at: item.field("expiring_at"@).u64_of(),
                    caption: item.field("caption"@).str_of(),
                    is_video,
                    display_url: url.str_of(),
                },
            )
        },
        _ => None,
    }
}

/// What a story read from an item holds. An item that is not an object
/// gives none. Of an object: it is a video exactly when some entry of it is
/// named `video_versions`; its display url is the `url` of element 0 of
/// `video_versions` for a video and of element 0 of
/// `image_versions2.candidates` for any other; both sides of its size come
/// from `original_width`; the other fields from the members that name them.
pub proof fn lemma_story_of(item: Json, entries: Seq<(String, Json)>)
    ensures
        !(item is Object) ==> (story_of(item) is None),
        item.object_of() == Some(entries) ==> (story_of(item) is Some),
        item.object_of() == Some(entries) ==> (story_of(item).unwrap().is_video <==> exists|j: int|
            0 <= j < entries.len() && #[trigger] entries[j].0@ == "video_versions"@),
        item is Object && !story_of(item).unwrap().is_video ==> story_of(item).unwrap().display_url
            == item.field("image_versions2"@).field("candidates"@).item(0).field("url"@).str_of(),
        item is Object && story_of(item).unwrap().is_video ==> story_of(item).unwrap().display_url
            == item.field("video_versions"@).item(0).field("url"@).str_of(),
        item is Object ==> story_of(item).unwrap().original_size == (Size {
            width: item.field("original_width"@).u64_of(),
            height: item.field("original_width"@).u64_of(),
        }),
        item is Object ==> story_of(item).unwrap().taken_at == item.field("taken_at"@).u64_of(),
        item is Object ==> story_of(item).unwrap().device_timestamp == item.field(
            "device_timestamp"@,
        ).u64_of(),
        item is Object ==> story_of(item).unwrap().has_audio == item.field("has_audio"@).bool_of(),
        item is Object ==> story_of(item).unwrap().video_duration == item.field(
            "video_duration"@,
        ).number_of(),
        item is Object ==> story_of(item).unwrap().expiring_at == item.field(
            "expiring_at"@,
        ).u64_of(),
        item is Object ==> story_of(item).unwrap().caption == item.field("caption"@).str_of(),
{
    lemma_lookup_found(entries, "video_versions"@);
}

/// The stories of some items, in order, leaving out items that are not
/// objects.
pub open spec fn stories_of(items: Seq<Json>) -> Seq<StoryView>
    decreases items.len(),
{
    if items.len() == 0 {
        seq![]
    } else {
        let before = stories_of(items.drop_last());
        match story_of(items.last()) {
            Some(story) => before.push(story),
            None => before,
        }
    }
}

/// The story that an item describes.
fn read_story(item: &Json) -> (r: Option<Story>)
    ensures
        match r {
            Some(story) => story_of(*item) == Some(story@),
            None => story_of(*item) is None,
        },
{
    let entries = match item.as_object() {
        Some(entries) => entries,
        None => return None,
    };
    let is_video = contains_key(entries, "video_versions");
    let url = if is_video {
        item.index_key("video_versions").index_pos(0).index_key("url")
    } else {
        item.index_key("image_versions2").index_key("candidates").index_pos(0).index_key("url")
    };
    Some(
        Story {
            taken_at: item.index_key("taken_at").as_u64(),
            device_timestamp: item.index_key("device_timestamp").as_u64(),
            original_size: Size {
                width: item.index_key("original_width").as_u64(),
                height: item.index_key("original_width").as_u64(),
            },
            has_audio: item.index_key("has_audio").as_bool(),
            video_duration: item.index_key("video_duration").as_number(),
            expiring_at: item.index_key("expiring_at").as_u64(),
            caption: item.index_key("caption").as_string(),
            is_video,
            display_url: url.as_string(),
        },
    )
}

impl UserInfos {
    /// What the shared data of a profile page tells about the profile.
    pub fn new(shared_data: &Json) -> (r: UserInfos)
        ensures
            r@ == user_infos_of(*shared_data),
    {
        let user = shared_data.index_key("entry_data").index_key("ProfilePage").index_pos(
            0,
        ).index_key("graphql").index_key("user");
        UserInfos {
            biography: user.index_key("biography").as_string(),
            external_url: user.index_key("external_url").as_string(),
            external_url_link_shimmed: user.index_key("external_url_link_shimmed").as_string(),
            followers: user.index_key("edge_followed_by").index_key("count").as_u64(),
            following: user.index_key("edge_follow").index_key("count").as_u64(),
            full_name: user.index_key("full_name").as_string(),
            id: user.index_key("id").as_string(),
            is_business_account: user.index_key("is_business_account").as_bool(),
            is_joined_recently: user.index_key("is_joined_recently").as_bool(),
            business_category_name: user.index_key("business_category_name").as_string(),
            is_private: user.index_key("is_private").as_bool(),
            is_verified: user.index_key("is_verified").as_bool(),
            profile_picture_url: user.index_key("profile_pic_url").as_string(),
            profile_picture_url_hd: user.index_key("profile_pic_url_hd").as_string(),
            username: user.index_key("username").as_string(),
            connected_fb_page: user.index_key("connected_fb_page").as_string(),
            collections_count: user.index_key("edge_media_collections").index_key("count").as_u64(),
            saved_media_count: user.index_key("edge_saved_media").index_key("count").as_u64(),
            videos_count: user.index_key("edge_felix_video_timeline").index_key("count").as_u64(),
            medias_count: user.index_key("edge_owner_to_timeline_media").index_key(
                "count",
            ).as_u64(),
        }
    }

    /// The stories of a profile, read out of the answer to the stories query.
    pub fn fetch_stories(response: &Json) -> (r: Vec<Story>)
        ensures
            r@.map_values(|s: Story| s@) == stories_of(story_items(*response)),
    {
        let mut out: Vec<Story> = Vec::new();
        let items = match response.index_key("items").as_array() {
            Some(items) => items,
            None => {
                assert(out@.map_values(|s: Story| s@) =~= stories_of(story_items(*response)));
                return out;
            },
        };
        let mut i: usize = 0;
        while i < items.len()
            invariant
                story_items(*response) == items@,
                i <= items@.len(),
                out@.map_values(|s: Story| s@) == stories_of(items@.take(i as int)),
            decreases items@.len() - i,
        {
            let ghost before = out@;
            assert(items@.take(i + 1).drop_last() =~= items@.take(i as int));
            match read_story(&items[i]) {
                Some(story) => {
                    out.push(story);
                    assert(out@.map_values(|s: Story| s@) =~= before.map_values(|s: Story| s@).push(
                        story@,
                    ));
                },
                None => {},
            }
            i = i + 1;
        }
        assert(items@.take(items@.len() as int) =~= items@);
        out
    }
}

/// The stories of one item: its story, if it is an object.
pub proof fn lemma_stories_of_one(item: Json)
    ensures
        stories_of(seq![item]) == match story_of(item) {
            Some(story) => seq![story],
            None => Seq::<StoryView>::empty(),
        },
{
    assert(seq![item].drop_last() =~= Seq::<Json>::empty());
    assert(seq![item].last() == item);
    assert(stories_of(seq![item].drop_last()) =~= Seq::<StoryView>::empty());
    if let Some(story) = story_of(item) {
        assert(Seq::<StoryView>::empty().push(story) =~= seq![story]);
    }
}

/// Reading keeps the order of the items: the stories of two runs of items
/// one after the other are those of the first run, then those of the second.
pub proof fn lemma_stories_of_append(a: Seq<Json>, b: Seq<Json>)
    ensures
        stories_of(a + b) == stories_of(a) + stories_of(b),
    decreases b.len(),
{
    if b.len() == 0 {
        assert(a + b =~= a);
        assert(stories_of(a) + stories_of(b) =~= stories_of(a));
    } else {
        lemma_stories_of_append(a, b.drop_last());
        assert((a + b).drop_last() =~= a + b.drop_last());
        assert((a + b).last() == b.last());
        match story_of(b.last()) {
            Some(story) => {
                assert(stories_of(a) + stories_of(b) =~= (stories_of(a) + stories_of(
                    b.drop_last(),
                )).push(story));
            },
            None => {},
        }
    }
}

/// The stories of an answer are read from its `items` array; an answer
/// without one has no stories.
pub proof fn lemma_story_items(response: Json)
    ensures
        response.field("items"@).array_of() matches Some(items) ==> story_items(response)
            == items,
        response.field("items"@).array_of() is None ==> story_items(response).len() == 0,
{
}

/// Both sides of a story's size are read from its width, so they agree.
pub proof fn lemma_story_size_square(item: Json)
    ensures
        story_of(item) matches Some(story) ==> story.original_size.width
            == story.original_size.height,
{
}

/// A profile never has more stories than the answer has items.
pub proof fn lemma_stories_at_most_items(items: Seq<Json>)
    ensures
        stories_of(items).len() <= items.len(),
    decreases items.len(),
{
    if items.len() > 0 {
        lemma_stories_at_most_items(items.drop_last());
    }
}

impl UserInfos {
    /// What the page of a profile tells about it.
    pub fn from_profile_page(html: &str) -> (r: Result<UserInfos, ApiError>)
        ensures
            match shared_doc(html@) {
                Some(doc) => r matches Ok(infos) && infos@ == user_infos_of(doc),
                None => r matches Err(e) && shared_data_error(html@, e),
            },
    {
        let doc = shared_data(html)?;
        Ok(UserInfos::new(&doc))
    }
}

} // verus!
