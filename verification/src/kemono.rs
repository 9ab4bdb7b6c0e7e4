//! Support for pulling creator archives from the kemono mirror site:
//! request/link parsing, response data, and download task construction.

pub mod config;
pub mod creator;
pub mod parser;
pub mod telegraph;
pub mod post;

use vstd::prelude::*;

use crate::kemono::post::KemonoFile;

verus! {

/// One queued download: the absolute source URL and the file name the
/// payload is stored under.
#[derive(Debug, Clone)]
pub struct DownloadTask {
    pub url: String,
    pub save_name: String,
}

impl DownloadTask {
    /// Builds the task for one attachment: the site's base URL glued to the
    /// attachment path, and the save name prefixed so that archive members
    /// keep the post's ordering.
    pub fn from_kemono_file(file: KemonoFile, prefix: String) -> (t: DownloadTask)
        ensures
            t.url@ == "https://kemono.cr"@ + file.path@,
            t.save_name@ == prefix@ + file.name@,
    {
        let mut url = String::from_str("https://kemono.cr");
        url.append(file.path.as_str());
        let mut save_name = prefix;
        save_name.append(file.name.as_str());
        DownloadTask { url, save_name }
    }
}

/// The archive's file name for a post: service, creator and post id glued
/// with underscores, so every invocation of the same post archives under
/// one name.
pub fn archive_name(service: &str, user: &str, post_id: &str) -> (r: String)
    ensures
        r@ == service@ + "_"@ + user@ + "_"@ + post_id@ + ".zip"@,
{
    let mut out = String::from_str(service);
    out.append("_");
    out.append(user);
    out.append("_");
    out.append(post_id);
    out.append(".zip");
    proof {
        assert(out@ =~= service@ + "_"@ + user@ + "_"@ + post_id@ + ".zip"@);
    }
    out
}

} // verus!
