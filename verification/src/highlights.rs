use vstd::prelude::*;

use crate::json::{contains_key, entry_lookup, index_entry, opt_str_view, Json, JsonNumber};
use crate::model::{size_from, Size};
use crate::profile::UserInfos;
use crate::text::{reel_id, spec_reel_id};

verus! {

/// One picture or video of a highlight reel.
#[derive(Debug, PartialEq)]
pub struct Highlight {
    pub size: Size,
    pub media_url: Option<String>,
    pub taken_at_timestamp: Option<u64>,
    pub expiring_at_timestamp: Option<u64>,
    pub is_video: Option<bool>,
    pub has_audio: Option<bool>,
    /// The length of a video in seconds, as the number that the answer gave.
    pub video_duration: Option<JsonNumber>,
}

/// The fields of a [`Highlight`], strings by their characters.
pub struct HighlightView {
    pub size: Size,
    pub media_url: Option<Seq<char>>,
    pub taken_at_timestamp: Option<u64>,
    pub expiring_at_timestamp: Option<u64>,
    pub is_video: Option<bool>,
    pub has_audio: Option<bool>,
    pub video_duration: Option<JsonNumber>,
}

impl View for Highlight {
    type V = HighlightView;

    open spec fn view(&self) -> HighlightView {
        HighlightView {
            size: self.size,
            media_url: opt_str_view(self.media_url),
            taken_at_timestamp: self.taken_at_timestamp,
            expiring_at_timestamp: self.expiring_at_timestamp,
            is_video: self.is_video,
            has_audio: self.has_audio,
            video_duration: self.video_duration,
        }
    }
}

/// The cover of a highlight reel.
#[derive(Debug, PartialEq)]
pub struct HighlightReelCoverImage {
    pub size: Option<Size>,
    pub url: Option<String>,
}

/// A highlight reel of a profile.
#[derive(Debug, PartialEq)]
pub struct HighlightReel {
    pub id: Option<String>,
    pub title: Option<String>,
    pub media_count: Option<u64>,
    pub cover_image: HighlightReelCoverImage,
}

/// The fields of a [`HighlightReel`], strings by their characters.
pub struct HighlightReelView {
    pub id: Option<Seq<char>>,
    pub title: Option<Seq<char>>,
    pub media_count: Option<u64>,
    pub cover_size: Option<Size>,
    pub cover_url: Option<Seq<char>>,
}

impl View for HighlightReel {
    type V = HighlightReelView;

    open spec fn view(&self) -> HighlightReelView {
        HighlightReelView {
            id: opt_str_view(self.id),
            title: opt_str_view(self.title),
            media_count: self.media_count,
            cover_size: self.cover_image.size,
            cover_url: opt_str_view(self.cover_image.url),
        }
    }
}

/// The items of the first reel in an answer to a reels-media query (none
/// when there is no such array).
pub open spec fn reel_media_items(response: Json) -> Seq<Json> {
    match response.field("data"@).field("reels_media"@).item(0).field("items"@).array_of() {
        Some(items) => items,
        None => seq![],
    }
}

/// Where a highlight lists the versions of its media: videos under
/// `video_resources`, everything else under `display_resources`.
pub open spec fn resources_key(item: Json) -> Seq<char> {
    if item.field("is_video"@).bool_of() == Some(true) {
        "video_resources"@
    } else {
        "display_resources"@
    }
}

/// A highlight whose list of media versions, if it has one, is not empty.
pub open spec fn has_media_version(item: Json) -> bool {
    match item.field(resources_key(item)).array_of() {
        Some(versions) => versions.len() > 0,
        None => true,
    }
}

/// An answer whose highlights can all be read (for a highlight with an empty
/// list of media versions there is no last version to take).
pub open spec fn highlights_readable(response: Json) -> bool {
    forall|i: int|
        0 <= i < reel_media_items(response).len() ==> #[trigger] has_media_version(
            reel_media_items(response)[i],
        )
}

/// The highlight that an item describes: size and url of the last version
/// in its list of media versions, the rest from the item itself.
pub open spec fn highlight_of(item: Json) -> HighlightView {
    let media = match item.field(resources_key(item)).array_of() {
        Some(versions) => Some(versions.last()),
        None => None,
    };
    let size = match media {
        Some(m) => Size {
            width: m.field("config_width"@).u64_of(),
            height: m.field("config_height"@).u64_of(),
        },
        None => Size { width: None, height: None },
    };
    let media_url = match media {
        Some(m) => m.field("src"@).str_of(),
        None => None,
    };
    HighlightView {
        size,
        media_url,
        taken_at_timestamp: item.field("taken_at_timestamp"@).u64_of(),
        expiring_at_timestamp: item.field("expiring_at_timestamp"@).u64_of(),
        is_video: item.field("is_video"@).bool_of(),
        has_audio: item.field("has_audio"@).bool_of(),
        video_duration: item.field("video_duration"@).number_of(),
    }
}

/// What a highlight read from an item holds. Its size and url come from the
/// last element of its list of resources, whether or not it is a video: the
/// list `video_resources` for an item whose `is_video` is `true`, the list
/// `display_resources` for any other; the width from that element's
/// `config_width`, the height from its `config_height`, the url from its
/// `src`. With no such list it has neither size nor url. The other fields
/// come from the members of the item that name them.
pub proof fn lemma_highlight_of(item: Json, versions: Seq<Json>)
    ensures
        item.field("is_video"@) == Json::Bool(true) && item.field("video_resources"@).array_of()
            == Some(versions) && versions.len() > 0 ==> highlight_of(item).media_url
            == versions[versions.len() - 1].field("src"@).str_of(),
        item.field("is_video"@) == Json::Bool(true) && item.field("video_resources"@).array_of()
            == Some(versions) && versions.len() > 0 ==> highlight_of(item).size == (Size {
            width: versions[versions.len() - 1].field("config_width"@).u64_of(),
            height: versions[versions.len() - 1].field("config_height"@).u64_of(),
        }),
        item.field("is_video"@) != Json::Bool(true) && item.field("display_resources"@).array_of()
            == Some(versions) && versions.len() > 0 ==> highlight_of(item).media_url
            == versions[versions.len() - 1].field("src"@).str_of(),
        item.field("is_video"@) != Json::Bool(true) && item.field("display_resources"@).array_of()
            == Some(versions) && versions.len() > 0 ==> highlight_of(item).size == (Size {
            width: versions[versions.len() - 1].field("config_width"@).u64_of(),
            height: versions[versions.len() - 1].field("config_height"@).u64_of(),
        }),
        item.field("is_video"@) == Json::Bool(true) && (item.field("video_resources"@).array_of()
            is None) ==> (highlight_of(item).media_url is None) && highlight_of(item).size == (Size {
            width: None,
            height: None,
        }),
        item.field("is_video"@) != Json::Bool(true) && (item.field("display_resources"@).array_of()
            is None) ==> (highlight_of(item).media_url is None) && highlight_of(item).size == (Size {
            width: None,
            height: None,
        }),
        highlight_of(item).taken_at_timestamp == item.field("taken_at_timestamp"@).u64_of(),
        highlight_of(item).expiring_at_timestamp == item.field("expiring_at_timestamp"@).u64_of(),
        highlight_of(item).is_video == item.field("is_video"@).bool_of(),
        highlight_of(item).has_audio == item.field("has_audio"@).bool_of(),
        highlight_of(item).video_duration == item.field("video_duration"@).number_of(),
{
}

/// What a highlight reel read from a tray entry holds: its id from the
/// entry's `id` (the part before any `:`), its title and media count from
/// the members of those names, and its cover's size and url from the
/// entry's `cover_media.cropped_image_version`. An entry that is not an
/// object gives no reel.
pub proof fn lemma_reel_of(item: Json, raw: Seq<char>)
    ensures
        !(item is Object) ==> (reel_of(item) is None),
        item is Object ==> (reel_of(item) is Some),
        item is Object ==> reel_of(item).unwrap().title == item.field("title"@).str_of(),
        item is Object ==> reel_of(item).unwrap().media_count == item.field(
            "media_count"@,
        ).u64_of(),
        item is Object ==> reel_of(item).unwrap().cover_size == size_from(
            item.field("cover_media"@).field("cropped_image_version"@),
        ),
        item is Object ==> reel_of(item).unwrap().cover_url == item.field("cover_media"@).field(
            "cropped_image_version"@,
        ).field("url"@).str_of(),
        item is Object && item.field("id"@).str_of() == Some(raw) ==> reel_of(item).unwrap().id
            == Some(spec_reel_id(raw)),
        item is Object && (item.field("id"@).str_of() is None) ==> (reel_of(item).unwrap().id is None),
{
}

/// Where an item lists the versions of its media.
fn resources_key_of(item: &Json) -> (r: &'static str)
    ensures
        r@ == resources_key(*item),
{
    match item.index_key("is_video").as_bool() {
        Some(true) => "video_resources",
        _ => "display_resources",
    }
}

/// Whether the item's list of media versions, if any, is not empty.
fn item_has_media_version(item: &Json) -> (r: bool)
    ensures
        r == has_media_version(*item),
{
    match item.index_key(resources_key_of(item)).as_array() {
        Some(versions) => versions.len() > 0,
        None => true,
    }
}

/// The items of the first reel in a reels-media answer.
fn reel_items_of(response: &Json) -> (r: Option<&Vec<Json>>)
    ensures
        match r {
            Some(items) => reel_media_items(*response) == items@,
            None => reel_media_items(*response) == Seq::<Json>::empty(),
        },
{
    response.index_key("data").index_key("reels_media").index_pos(0).index_key("items").as_array()
}

/// The highlight that an item describes.
fn read_highlight(item: &Json) -> (r: Highlight)
    requires
        has_media_version(*item),
    ensures
        r@ == highlight_of(*item),
{
    let is_video = item.index_key("is_video").as_bool();
    let (size, media_url) = match item.index_key(resources_key_of(item)).as_array() {
        Some(versions) => {
            let m = &versions[versions.len() - 1];
            (
                Size {
                    width: m.index_key("config_width").as_u64(),
                    height: m.index_key("config_height").as_u64(),
                },
                m.index_key("src").as_string(),
            )
        },
        None => (Size { width: None, height: None }, None),
    };
    Highlight {
        size,
        media_url,
        taken_at_timestamp: item.index_key("taken_at_timestamp").as_u64(),
        expiring_at_timestamp: item.index_key("expiring_at_timestamp").as_u64(),
        is_video,
        has_audio: item.index_key("has_audio").as_bool(),
        video_duration: item.index_key("video_duration").as_number(),
    }
}

/// The tray of highlight reels in an answer (none when there is no array).
pub open spec fn tray_items(response: Json) -> Seq<Json> {
    match response.field("tray"@).array_of() {
        Some(items) => items,
        None => seq![],
    }
}

/// A tray entry that is an object has an `id` member (reading an object's
/// `id` where it has none fails).
pub open spec fn tray_item_readable(item: Json) -> bool {
    match item {
        Json::Object(entries) => entry_lookup(entries@, "id"@) is Some,
        _ => true,
    }
}

/// An answer whose tray entries can all be read.
pub open spec fn tray_readable(response: Json) -> bool {
    forall|i: int|
        0 <= i < tray_items(response).len() ==> #[trigger] tray_item_readable(
            tray_items(response)[i],
        )
}

/// The reel that a tray entry describes; `None` for an entry that is not an
/// object.
pub open spec fn reel_of(item: Json) -> Option<HighlightReelView> {
    match item {
        Json::Object(entries) => {
            let cover = item.field("cover_media"@).field("cropped_image_version"@);
            let id = match entry_lookup(entries@, "id"@) {
                Some(v) => match v.str_of() {
                    Some(raw) => Some(spec_reel_id(raw)),
                    None => None,
                },
                None => None,
            };
            Some(
                HighlightReelView {
                    id,
                    title: item.field("title"@).str_of(),
                    media_count: item.field("media_count"@).u64_of(),
                    cover_size: size_from(cover),
                    cover_url: cover.field("url"@).str_of(),
                },
            )
        },
        _ => None,
    }
}

/// The reels of a tray, in order, leaving out entries that are not objects.
pub open spec fn reels_of(items: Seq<Json>) -> Seq<HighlightReelView>
    decreases items.len(),
{
    if items.len() == 0 {
        seq![]
    } else {
        let before = reels_of(items.drop_last());
        match reel_of(items.last()) {
            Some(reel) => before.push(reel),
            None => before,
        }
    }
}

/// The tray of highlight reels in an answer.
fn tray_items_of(response: &Json) -> (r: Option<&Vec<Json>>)
    ensures
        match r {
            Some(items) => tray_items(*response) == items@,
            None => tray_items(*response) == Seq::<Json>::empty(),
        },
{
    response.index_key("tray").as_array()
}

/// Whether a tray entry can be read.
fn tray_item_ok(item: &Json) -> (r: bool)
    ensures
        r == tray_item_readable(*item),
{
    match item.as_object() {
        Some(entries) => contains_key(entries, "id"),
        None => true,
    }
}

/// The reel that a tray entry describes.
fn read_reel(item: &Json) -> (r: Option<HighlightReel>)
    requires
        tray_item_readable(*item),
    ensures
        match r {
            Some(reel) => reel_of(*item) == Some(reel@),
            None => reel_of(*item) is None,
        },
{
    let entries = match item.as_object() {
        Some(entries) => entries,
        None => return None,
    };
    let id = match index_entry(entries, "id") {
        Json::Str(raw) => Some(reel_id(raw.as_str())),
        _ => None,
    };
    let cover = item.index_key("cover_media").index_key("cropped_image_version");
    Some(
        HighlightReel {
            id,
            title: item.index_key("title").as_string(),
            media_count: item.index_key("media_count").as_u64(),
            cover_image: HighlightReelCoverImage {
                size: Size::from_json(cover),
                url: cover.index_key("url").as_string(),
            },
        },
    )
}

impl UserInfos {
    /// Whether every entry of the tray in a highlight-reels answer can be read.
    pub fn highlight_reels_readable(response: &Json) -> (r: bool)
        ensures
            r == tray_readable(*response),
    {
        let items = match tray_items_of(response) {
            Some(items) => items,
            None => return true,
        };
        let mut i: usize = 0;
        while i < items.len()
            invariant
                tray_items(*response) == items@,
                i <= items@.len(),
                forall|j: int| 0 <= j < i ==> #[trigger] tray_item_readable(items@[j]),
            decreases items@.len() - i,
        {
            if !tray_item_ok(&items[i]) {
                return false;
            }
            i = i + 1;
        }
        true
    }

    /// The highlight reels of a profile, read out of the answer to the
    /// highlight-reels query.
    pub fn fetch_highlight_reels(response: &Json) -> (r: Vec<HighlightReel>)
        requires
            tray_readable(*response),
        ensures
            r@.map_values(|reel: HighlightReel| reel@) == reels_of(tray_items(*response)),
    {
        let mut out: Vec<HighlightReel> = Vec::new();
        let items = match tray_items_of(response) {
            Some(items) => items,
            None => return out,
        };
        let mut i: usize = 0;
        while i < items.len()
            invariant
                tray_items(*response) == items@,
                tray_readable(*response),
                i <= items@.len(),
                out@.map_values(|reel: HighlightReel| reel@) == reels_of(items@.take(i as int)),
            decreases items@.len() - i,
        {
            let ghost before = out@;
            assert(items@.take(i + 1).drop_last() =~= items@.take(i as int));
            assert(tray_item_readable(items@[i as int]));
            match read_reel(&items[i]) {
                Some(reel) => {
                    out.push(reel);
                    assert(out@.map_values(|reel: HighlightReel| reel@) =~= before.map_values(
                        |reel: HighlightReel| reel@,
                    ).push(reel@));
                },
                None => {},
            }
            i = i + 1;
        }
        assert(items@.take(items@.len() as int) =~= items@);
        out
    }
}

impl HighlightReel {
    /// Whether every highlight of a reels-media answer can be read.
    pub fn highlights_readable(response: &Json) -> (r: bool)
        ensures
            r == highlights_readable(*response),
    {
        let items = match reel_items_of(response) {
            Some(items) => items,
            None => return true,
        };
        let mut i: usize = 0;
        while i < items.len()
            invariant
                reel_media_items(*response) == items@,
                i <= items@.len(),
                forall|j: int| 0 <= j < i ==> #[trigger] has_media_version(items@[j]),
            decreases items@.len() - i,
        {
            if !item_has_media_version(&items[i]) {
                return false;
            }
            i = i + 1;
        }
        true
    }

    /// The highlights of a reel, read out of the answer to the reels-media
    /// query for it.
    pub fn fetch_highlights(response: &Json) -> (r: Vec<Highlight>)
        requires
            highlights_readable(*response),
        ensures
            r@.map_values(|h: Highlight| h@) == reel_media_items(*response).map_values(
                |item: Json| highlight_of(item),
            ),
    {
        let mut out: Vec<Highlight> = Vec::new();
        let items = match reel_items_of(response) {
            Some(items) => items,
            None => {
                assert(out@.map_values(|h: Highlight| h@) =~= reel_media_items(*response).map_values(
                    |item: Json| highlight_of(item),
                ));
                return out;
            },
        };
        let mut i: usize = 0;
        while i < items.len()
            invariant
                reel_media_items(*response) == items@,
                highlights_readable(*response),
                i <= items@.len(),
                out@.map_values(|h: Highlight| h@) == items@.take(i as int).map_values(
                    |item: Json| highlight_of(item),
                ),
            decreases items@.len() - i,
        {
            assert(has_media_version(items@[i as int]));
            let ghost before = out@;
            let h = read_highlight(&items[i]);
            out.push(h);
            assert(out@.map_values(|h: Highlight| h@) =~= before.map_values(|h: Highlight| h@).push(
                h@,
            ));
            assert(items@.take(i + 1).map_values(|item: Json| highlight_of(item)) =~= items@.take(
                i as int,
            ).map_values(|item: Json| highlight_of(item)).push(highlight_of(items@[i as int])));
            i = i + 1;
        }
        assert(items@.take(items@.len() as int) =~= items@);
        out
    }
}

/// The reels of one tray entry: its reel, if it is an object.
pub proof fn lemma_reels_of_one(item: Json)
    ensures
        reels_of(seq![item]) == match reel_of(item) {
            Some(reel) => seq![reel],
            None => Seq::<HighlightReelView>::empty(),
        },
{
    assert(seq![item].drop_last() =~= Seq::<Json>::empty());
    assert(seq![item].last() == item);
    assert(reels_of(seq![item].drop_last()) =~= Seq::<HighlightReelView>::empty());
    if let Some(reel) = reel_of(item) {
        assert(Seq::<HighlightReelView>::empty().push(reel) =~= seq![reel]);
    }
}

/// Reading keeps the order of the tray: the reels of two runs of entries one
/// after the other are those of the first run, then those of the second.
pub proof fn lemma_reels_of_append(a: Seq<Json>, b: Seq<Json>)
    ensures
        reels_of(a + b) == reels_of(a) + reels_of(b),
    decreases b.len(),
{
    if b.len() == 0 {
        assert(a + b =~= a);
        assert(reels_of(a) + reels_of(b) =~= reels_of(a));
    } else {
        lemma_reels_of_append(a, b.drop_last());
        assert((a + b).drop_last() =~= a + b.drop_last());
        assert((a + b).last() == b.last());
        match reel_of(b.last()) {
            Some(reel) => {
                assert(reels_of(a) + reels_of(b) =~= (reels_of(a) + reels_of(b.drop_last())).push(
                    reel,
                ));
            },
            None => {},
        }
    }
}

/// Where the answers are read from: the highlights from the `items` of the
/// first element of `data.reels_media`, the reels from the `tray` array;
/// either is empty where there is no such array.
pub proof fn lemma_answer_items(response: Json)
    ensures
        response.field("data"@).field("reels_media"@).item(0).field("items"@).array_of() matches Some(
            items,
        ) ==> reel_media_items(response) == items,
        (response.field("data"@).field("reels_media"@).item(0).field("items"@).array_of() is None)
            ==> reel_media_items(response).len() == 0,
        response.field("tray"@).array_of() matches Some(items) ==> tray_items(response) == items,
        (response.field("tray"@).array_of() is None) ==> tray_items(response).len() == 0,
{
}

/// A profile never has more highlight reels than its tray has entries.
pub proof fn lemma_reels_at_most_entries(items: Seq<Json>)
    ensures
        reels_of(items).len() <= items.len(),
    decreases items.len(),
{
    if items.len() > 0 {
        lemma_reels_at_most_entries(items.drop_last());
    }
}

} // verus!
