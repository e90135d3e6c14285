//! Workshop items in the two shapes the API answers with.
//!
//! Detail lookups describe an item as a [`WorkshopItem`], whose file size is
//! text; searches describe it as a [`WorkshopSearchItem`], whose file size is a
//! number and whose description and app-id fields carry other names. The
//! conversions between the two keep every field and differ only in how the
//! size is written.

use vstd::prelude::*;

use crate::decimal::{decimal_string, decimal_text, is_u64_text, parse_u64, u64_text_value};

verus! {

/// A tag attached to a workshop item.
#[derive(Clone, Debug, PartialEq)]
pub struct WorkshopItemTag {
    pub tag: String,
}

/// A published file as a detail lookup describes it.
#[derive(Clone, Debug, PartialEq)]
pub struct WorkshopItem {
    pub result: i8,
    pub publishedfileid: String,
    pub creator: String,
    pub creator_app_id: u32,
    pub consumer_app_id: u32,
    pub filename: String,
    pub file_size: String,
    pub file_url: Option<String>,
    pub preview_url: String,
    pub hcontent_file: String,
    pub hcontent_preview: String,
    pub title: String,
    pub description: String,
    pub time_created: usize,
    pub time_updated: usize,
    pub subscriptions: u32,
    pub favorited: u32,
    pub views: u32,
    pub tags: Vec<WorkshopItemTag>,
    pub visibility: u8,
}

/// A published file as a search describes it.
#[derive(Clone, Debug, PartialEq)]
pub struct WorkshopSearchItem {
    pub result: i8,
    pub publishedfileid: String,
    pub creator: String,
    pub creator_appid: u32,
    pub consumer_appid: u32,
    pub filename: String,
    pub file_size: u64,
    pub file_url: Option<String>,
    pub preview_url: String,
    pub hcontent_file: String,
    pub hcontent_preview: String,
    pub title: String,
    pub file_description: String,
    pub time_created: usize,
    pub time_updated: usize,
    pub subscriptions: u32,
    pub favorited: u32,
    pub views: u32,
    pub tags: Vec<WorkshopItemTag>,
    pub visibility: u8,
}

/// The status part of one entry of a detail answer.
#[derive(Clone, Debug, PartialEq)]
pub struct ItemResponse {
    pub result: i8,
    pub publishedfileid: String,
}

/// `d` and `s` hold the same values in every field but the file size.
pub open spec fn fields_agree(d: WorkshopItem, s: WorkshopSearchItem) -> bool {
    &&& d.result == s.result
    &&& d.publishedfileid == s.publishedfileid
    &&& d.creator == s.creator
    &&& d.creator_app_id == s.creator_appid
    &&& d.consumer_app_id == s.consumer_appid
    &&& d.filename == s.filename
    &&& d.file_url == s.file_url
    &&& d.preview_url == s.preview_url
    &&& d.hcontent_file == s.hcontent_file
    &&& d.hcontent_preview == s.hcontent_preview
    &&& d.title == s.title
    &&& d.description == s.file_description
    &&& d.time_created == s.time_created
    &&& d.time_updated == s.time_updated
    &&& d.subscriptions == s.subscriptions
    &&& d.favorited == s.favorited
    &&& d.views == s.views
    &&& d.tags@ == s.tags@
    &&& d.visibility == s.visibility
}

/// `s` is the search shape of `d`: the size text of `d` read as a number.
pub open spec fn is_search_shape_of(d: WorkshopItem, s: WorkshopSearchItem) -> bool {
    &&& fields_agree(d, s)
    &&& is_u64_text(d.file_size@)
    &&& s.file_size as nat == u64_text_value(d.file_size@)
}

/// `d` is the detail shape of `s`: the size of `s` written in canonical decimal.
pub open spec fn is_detail_shape_of(s: WorkshopSearchItem, d: WorkshopItem) -> bool {
    &&& fields_agree(d, s)
    &&& d.file_size@ == decimal_text(s.file_size as nat)
}

/// Two detail-shape items agree in every field but the file size.
pub open spec fn same_but_size(a: WorkshopItem, b: WorkshopItem) -> bool {
    &&& a.result == b.result
    &&& a.publishedfileid == b.publishedfileid
    &&& a.creator == b.creator
    &&& a.creator_app_id == b.creator_app_id
    &&& a.consumer_app_id == b.consumer_app_id
    &&& a.filename == b.filename
    &&& a.file_url == b.file_url
    &&& a.preview_url == b.preview_url
    &&& a.hcontent_file == b.hcontent_file
    &&& a.hcontent_preview == b.hcontent_preview
    &&& a.title == b.title
    &&& a.description == b.description
    &&& a.time_created == b.time_created
    &&& a.time_updated == b.time_updated
    &&& a.subscriptions == b.subscriptions
    &&& a.favorited == b.favorited
    &&& a.views == b.views
    &&& a.tags@ == b.tags@
    &&& a.visibility == b.visibility
}

/// Two search-shape items hold the same values in every field.
pub open spec fn same_search_item(a: WorkshopSearchItem, b: WorkshopSearchItem) -> bool {
    &&& a.result == b.result
    &&& a.publishedfileid == b.publishedfileid
    &&& a.creator == b.creator
    &&& a.creator_appid == b.creator_appid
    &&& a.consumer_appid == b.consumer_appid
    &&& a.filename == b.filename
    &&& a.file_size == b.file_size
    &&& a.file_url == b.file_url
    &&& a.preview_url == b.preview_url
    &&& a.hcontent_file == b.hcontent_file
    &&& a.hcontent_preview == b.hcontent_preview
    &&& a.title == b.title
    &&& a.file_description == b.file_description
    &&& a.time_created == b.time_created
    &&& a.time_updated == b.time_updated
    &&& a.subscriptions == b.subscriptions
    &&& a.favorited == b.favorited
    &&& a.views == b.views
    &&& a.tags@ == b.tags@
    &&& a.visibility == b.visibility
}

fn clone_tags(tags: &Vec<WorkshopItemTag>) -> (r: Vec<WorkshopItemTag>)
    ensures
        r@ == tags@,
{
    let mut r: Vec<WorkshopItemTag> = Vec::new();
    let mut i: usize = 0;
    while i < tags.len()
        invariant
            i <= tags@.len(),
            r@ == tags@.subrange(0, i as int),
        decreases tags@.len() - i,
    {
        let t = WorkshopItemTag { tag: tags[i].tag.clone() };
        r.push(t);
        i = i + 1;
        assert(r@ =~= tags@.subrange(0, i as int));
    }
    assert(tags@.subrange(0, i as int) =~= tags@);
    r
}

fn clone_opt_string(s: &Option<String>) -> (r: Option<String>)
    ensures
        r == *s,
{
    match s {
        Some(t) => Some(t.clone()),
        None => None,
    }
}

impl WorkshopItem {
    /// The item's title and identifier, as `"<title> - <publishedfileid>"`.
    pub fn to_string(&self) -> (r: String)
        ensures
            r@ == self.title@ + " - "@ + self.publishedfileid@,
    {
        let mut r = self.title.clone();
        r.append(" - ");
        r.append(self.publishedfileid.as_str());
        r
    }

    /// The search shape of this item; `None` when the size text is not a
    /// `u64`.
    pub fn to_search_item(&self) -> (r: Option<WorkshopSearchItem>)
        ensures
            r is Some <==> is_u64_text(self.file_size@),
            r matches Some(s) ==> is_search_shape_of(*self, s),
    {
        match parse_u64(self.file_size.as_str()) {
            None => None,
            Some(size) => Some(
                WorkshopSearchItem {
                    result: self.result,
                    publishedfileid: self.publishedfileid.clone(),
                    creator: self.creator.clone(),
                    creator_appid: self.creator_app_id,
                    consumer_appid: self.consumer_app_id,
                    filename: self.filename.clone(),
                    file_size: size,
                    file_url: clone_opt_string(&self.file_url),
                    preview_url: self.preview_url.clone(),
                    hcontent_file: self.hcontent_file.clone(),
                    hcontent_preview: self.hcontent_preview.clone(),
                    title: self.title.clone(),
                    file_description: self.description.clone(),
                    time_created: self.time_created,
                    time_updated: self.time_updated,
                    subscriptions: self.subscriptions,
                    favorited: self.favorited,
                    views: self.views,
                    tags: clone_tags(&self.tags),
                    visibility: self.visibility,
                },
            ),
        }
    }
}

impl WorkshopSearchItem {
    /// The detail shape of this item, with the size in canonical decimal.
    pub fn to_workshop_item(&self) -> (r: WorkshopItem)
        ensures
            is_detail_shape_of(*self, r),
    {
        WorkshopItem {
            result: self.result,
            publishedfileid: self.publishedfileid.clone(),
            creator: self.creator.clone(),
            creator_app_id: self.creator_appid,
            consumer_app_id: self.consumer_appid,
            filename: self.filename.clone(),
            file_size: decimal_string(self.file_size),
            file_url: clone_opt_string(&self.file_url),
            preview_url: self.preview_url.clone(),
            hcontent_file: self.hcontent_file.clone(),
            hcontent_preview: self.hcontent_preview.clone(),
            title: self.title.clone(),
            description: self.file_description.clone(),
            time_created: self.time_created,
            time_updated: self.time_updated,
            subscriptions: self.subscriptions,
            favorited: self.favorited,
            views: self.views,
            tags: clone_tags(&self.tags),
            visibility: self.visibility,
        }
    }
}

/// A search-shape item taken to the detail shape and back is the item it
/// started as, field for field.
pub proof fn lemma_search_shape_round_trip(
    s: WorkshopSearchItem,
    d: WorkshopItem,
    back: WorkshopSearchItem,
)
    requires
        is_detail_shape_of(s, d),
        is_search_shape_of(d, back),
    ensures
        same_search_item(s, back),
{
    crate::decimal::lemma_decimal_text_round_trip(s.file_size);
}

/// A detail-shape item taken to the search shape and back agrees with the item
/// it started as in every field; its size text is the canonical decimal of the
/// same number.
pub proof fn lemma_detail_shape_round_trip(
    d: WorkshopItem,
    s: WorkshopSearchItem,
    back: WorkshopItem,
)
    requires
        is_search_shape_of(d, s),
        is_detail_shape_of(s, back),
    ensures
        same_but_size(d, back),
        is_u64_text(back.file_size@),
        u64_text_value(back.file_size@) == u64_text_value(d.file_size@),
        back.file_size@ == decimal_text(u64_text_value(d.file_size@)),
{
    crate::decimal::lemma_decimal_text_round_trip(s.file_size);
}

} // verus!
