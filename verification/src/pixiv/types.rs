//! Request and response data of the pixiv integration.

use vstd::prelude::*;

verus! {

/// How a downloaded gallery is handed back to the user.
#[derive(Debug, Clone, Copy, PartialEq, Eq, Structural)]
pub enum SendMode {
    /// Compressed photo messages.
    Photos,
    /// Original files as documents.
    Files,
    /// One archive with every page.
    Archive,
}

/// A parsed illustration download request.
#[derive(Debug, Clone)]
pub struct IllustRequest {
    pub id: u64,
    pub no_page_limit: bool,
    pub silent_page_limit: bool,
    pub send_mode: SendMode,
}

/// The image URLs the API offers for one illustration, by quality.
#[derive(Debug, Clone)]
pub struct ImageUrls {
    pub mini: Option<String>,
    pub thumb: Option<String>,
    pub small: Option<String>,
    pub regular: Option<String>,
    pub original: Option<String>,
}

/// One tag of an illustration, with an optional romanization and optional
/// translations as language/text pairs.
#[derive(Debug, Clone)]
pub struct Tag {
    pub tag: String,
    pub romaji: Option<String>,
    pub translation: Option<Vec<(String, String)>>,
}

/// The tag list of an illustration.
#[derive(Debug, Clone)]
pub struct Tags {
    pub tags: Vec<Tag>,
}

/// Tag `t` occurs in the tag list.
pub open spec fn has_tag(tags: Seq<Tag>, t: Seq<char>) -> bool {
    exists|i: int| 0 <= i < tags.len() && tags[i].tag@ == t
}

impl Tags {
    /// Whether any tag equals `tag` exactly.
    pub fn contains_tag(&self, tag: &str) -> (r: bool)
        ensures
            r == has_tag(self.tags@, tag@),
    {
        let n = self.tags.len();
        let mut i: usize = 0;
        while i < n
            invariant
                0 <= i <= n,
                n == self.tags@.len(),
                forall|k: int| 0 <= k < i ==> (#[trigger] self.tags@[k]).tag@ != tag@,
            decreases n - i,
        {
            if crate::strutil::str_eq(self.tags[i].tag.as_str(), tag) {
                return true;
            }
            i = i + 1;
        }
        false
    }
}

/// The core fields of one illustration.
#[derive(Debug, Clone)]
pub struct IllustInfo {
    pub id: String,
    pub title: String,
    pub description: String,
    pub author_id: String,
    pub author_name: String,
    pub page_count: u64,
    pub urls: ImageUrls,
    pub tags: Tags,
}

/// One frame of an animation: its file name inside the frame archive and
/// its display duration in milliseconds.
#[derive(Debug, Clone)]
pub struct FrameTimestamp {
    pub file: String,
    pub delay: u64,
}

/// The animation's frame archive location, content type and frame list.
#[derive(Debug, Clone)]
pub struct UgoiraMeta {
    pub src: String,
    pub original_src: String,
    pub mime_type: String,
    pub frames: Vec<FrameTimestamp>,
}

} // verus!
