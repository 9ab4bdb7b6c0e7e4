//! File descriptions for downloads through the messaging API.

use vstd::prelude::*;

verus! {

/// A served file: its path on the API file server, the file name inside
/// that path, and its size in bytes.
#[derive(Debug, Clone, Default)]
pub struct TelegramFileInfo {
    pub file_path: String,
    pub file_name: String,
    pub file_size: u64,
}

impl TelegramFileInfo {
    /// Builds the description from the served path and size; the file name
    /// is the path's last segment.
    pub fn new(path: String, size: u64) -> (r: Self)
        ensures
            r.file_path == path,
            r.file_size == size,
            (exists|j: int|
                0 <= j < path@.len() && path@[j] == '/' && (forall|k: int|
                    j < k < path@.len() ==> path@[k] != '/') && r.file_name@ == path@.skip(j + 1))
                || ((forall|k: int| 0 <= k < path@.len() ==> path@[k] != '/') && r.file_name@
                == path@),
    {
        let file_name = crate::download::path_to_filename(path.as_str());
        TelegramFileInfo { file_name, file_path: path, file_size: size }
    }
}

/// The URL a served file is fetched from: the API file endpoint with the
/// bot's token and the served path.
pub fn get_telegram_file_link(token: &str, file_path: &str) -> (r: String)
    ensures
        r@ == "https://api.telegram.org/file/bot"@ + token@ + "/"@ + file_path@,
{
    let mut out = String::from_str("https://api.telegram.org/file/bot");
    out.append(token);
    out.append("/");
    out.append(file_path);
    proof {
        assert(out@ =~= "https://api.telegram.org/file/bot"@ + token@ + "/"@ + file_path@);
    }
    out
}

} // verus!
