//! The news-article catalog resource.
//!
//! News is the one catalog that lists newest first: its store is built with
//! `news_store`, so List returns records in descending identifier order.

use vstd::prelude::*;

use crate::store::Fields;
use crate::store::ResourceStore;
use crate::store::Stored;

verus! {

/// A news article as persisted: store-assigned identifier plus fields.
pub struct NewsItem {
    pub id: i32,
    pub title: String,
    pub category: String,
    pub image_url: String,
    pub content: String,
    pub date: String,
    pub read_minutes: i32,
}

/// The submitted fields of a news article; every field is required.
pub struct NewsPayload {
    pub title: String,
    pub category: String,
    pub image_url: String,
    pub content: String,
    pub date: String,
    pub read_minutes: i32,
}

impl Fields for NewsPayload {
    fn dup(&self) -> (r: Self) {
        NewsPayload {
            title: self.title.clone(),
            category: self.category.clone(),
            image_url: self.image_url.clone(),
            content: self.content.clone(),
            date: self.date.clone(),
            read_minutes: self.read_minutes,
        }
    }
}

impl NewsItem {
    /// The persisted record as one flat value.
    pub fn from_stored(s: Stored<NewsPayload>) -> (r: Self)
        ensures
            r.id == s.id,
            r.title == s.fields.title,
            r.category == s.fields.category,
            r.image_url == s.fields.image_url,
            r.content == s.fields.content,
            r.date == s.fields.date,
            r.read_minutes == s.fields.read_minutes,
    {
        NewsItem {
            id: s.id,
            title: s.fields.title,
            category: s.fields.category,
            image_url: s.fields.image_url,
            content: s.fields.content,
            date: s.fields.date,
            read_minutes: s.fields.read_minutes,
        }
    }
}

/// An empty news store; unlike every other catalog it lists newest first.
pub fn news_store() -> (r: ResourceStore<NewsPayload>)
    ensures
        r.inv(),
        r.entries() == Seq::<Stored<NewsPayload>>::empty(),
        r.spec_next_id() == 1,
        r.newest_first(),
{
    ResourceStore::new_newest_first()
}

} // verus!
