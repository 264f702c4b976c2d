//! Data model of the catalog: posts as the remote API describes them, and
//! the named spinner animations used while a request is outstanding.

use vstd::prelude::*;

verus! {

/// One named spinner animation: how long each frame stays on screen, and
/// the frames themselves, shown in order and repeated.
#[derive(Debug, Clone, PartialEq, Eq)]
pub struct SpinnersValue {
    pub interval: i64,
    pub frames: Vec<String>,
}

impl SpinnersValue {
    /// A usable animation has a positive interval and at least one frame.
    pub open spec fn wf(self) -> bool {
        0 < self.interval && 0 < self.frames@.len()
    }
}

/// The catalog's response: a list of posts (possibly empty).
#[derive(Debug, Clone, PartialEq, Eq)]
pub struct E621Posts {
    pub posts: Vec<Post>,
}

/// One catalog entry describing a single piece of media and its metadata.
#[derive(Debug, Clone, PartialEq, Eq)]
pub struct Post {
    pub id: i64,
    pub created_at: String,
    pub updated_at: String,
    pub file: File,
    pub preview: Preview,
    pub sample: Sample,
    pub score: Score,
    pub tags: Tags,
    pub locked_tags: Vec<String>,
    pub change_seq: i64,
    pub flags: Flags,
    pub rating: Rating,
    pub fav_count: i64,
    pub sources: Vec<String>,
    pub pools: Vec<i64>,
    pub relationships: Relationships,
    pub approver_id: Option<i64>,
    pub uploader_id: i64,
    pub description: String,
    pub comment_count: i64,
    pub is_favorited: bool,
    pub has_notes: bool,
    /// Playing time in whole milliseconds, where the media has one.
    pub duration_ms: Option<u64>,
}

/// The binary content behind a post: where to get it, how large it is,
/// and which media type it carries.
#[derive(Debug, Clone, PartialEq, Eq)]
pub struct File {
    pub width: i64,
    pub height: i64,
    pub ext: Ext,
    pub size: i64,
    pub md5: String,
    pub url: String,
}

/// The closed set of media types the catalog serves.
#[derive(Debug, Clone, Copy, PartialEq, Eq, Structural)]
pub enum Ext {
    Gif,
    Jpg,
    Png,
    Swf,
    Webm,
}

#[derive(Debug, Clone, Copy, PartialEq, Eq, Structural)]
pub struct Flags {
    pub pending: bool,
    pub flagged: bool,
    pub note_locked: bool,
    pub status_locked: bool,
    pub rating_locked: bool,
    pub deleted: bool,
}

/// A tag whose presence on a post is locked by the catalog.
#[derive(Debug, Clone, Copy, PartialEq, Eq, Structural)]
pub enum LockedTag {
    ConditionalDnp,
}

#[derive(Debug, Clone, PartialEq, Eq)]
pub struct Preview {
    pub width: i64,
    pub height: i64,
    pub url: String,
}

/// The catalog's content rating for a post.
#[derive(Debug, Clone, Copy, PartialEq, Eq, Structural)]
pub enum Rating {
    E,
    Q,
    S,
}

#[derive(Debug, Clone, PartialEq, Eq)]
pub struct Relationships {
    pub parent_id: Option<i64>,
    pub has_children: bool,
    pub has_active_children: bool,
    pub children: Vec<i64>,
}

#[derive(Debug, Clone, PartialEq, Eq)]
pub struct Sample {
    pub has: bool,
    pub height: i64,
    pub width: i64,
    pub url: String,
    pub alternates: Alternates,
}

#[derive(Debug, Clone, PartialEq, Eq)]
pub struct Alternates {
    pub the_720_p: Option<The0_P>,
    pub the_480_p: Option<The0_P>,
    pub original: Option<Original>,
}

#[derive(Debug, Clone, PartialEq, Eq)]
pub struct Original {
    pub original_type: String,
    pub height: i64,
    pub width: i64,
    pub urls: Vec<Option<String>>,
}

#[derive(Debug, Clone, PartialEq, Eq)]
pub struct The0_P {
    pub the_0__p_type: String,
    pub height: i64,
    pub width: i64,
    pub urls: Vec<String>,
}

#[derive(Debug, Clone, Copy, PartialEq, Eq, Structural)]
pub struct Score {
    pub up: i64,
    pub down: i64,
    pub total: i64,
}

#[derive(Debug, Clone, PartialEq, Eq)]
pub struct Tags {
    pub general: Vec<String>,
    pub artist: Vec<String>,
    pub copyright: Vec<String>,
    pub character: Vec<String>,
    pub species: Vec<String>,
    pub invalid: Vec<String>,
    pub meta: Vec<String>,
    pub lore: Vec<String>,
}

} // verus!
