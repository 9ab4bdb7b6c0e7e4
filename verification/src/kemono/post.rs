//! Post data returned by the kemono API.

use vstd::prelude::*;

verus! {

/// One downloadable file of a post: its display name and its path below
/// the site's base URL.
#[derive(Debug)]
pub struct KemonoFile {
    pub name: String,
    pub path: String,
}

impl Clone for KemonoFile {
    fn clone(&self) -> (r: Self)
        ensures
            r == *self,
    {
        KemonoFile { name: self.name.clone(), path: self.path.clone() }
    }
}

/// One post: its identity, title, optional banner file and attachments.
#[derive(Debug, Clone)]
pub struct KemonoPost {
    pub service: String,
    pub id: String,
    pub user: String,
    pub title: String,
    pub content: String,
    pub file: Option<KemonoFile>,
    pub attachments: Vec<KemonoFile>,
}

/// The API's envelope around a post.
#[derive(Debug, Clone)]
pub struct KemonoPostResponse {
    pub post: KemonoPost,
}

} // verus!
