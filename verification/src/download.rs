//! Names and payloads of downloaded files.

use vstd::prelude::*;

verus! {

/// A file name split into its base and its extension.
#[derive(Debug, Clone, Default)]
pub struct FileBaseExt {
    pub basename: String,
    pub extension: String,
}

impl FileBaseExt {
    pub fn new(basename: String, extension: String) -> (r: FileBaseExt)
        ensures
            r.basename == basename,
            r.extension == extension,
    {
        FileBaseExt { basename, extension }
    }
}

/// A fully downloaded payload under the name it was served as.
#[derive(Debug, Clone, Default)]
pub struct DownloadedFile {
    pub file_name: String,
    pub data: Vec<u8>,
}

impl DownloadedFile {
    pub fn new(file_name: String, data: Vec<u8>) -> (r: Self)
        ensures
            r.file_name == file_name,
            r.data == data,
    {
        DownloadedFile { file_name, data }
    }
}

/// The part of `path` after its last `/`, or all of it when it has none —
/// the file name of a served path.
pub fn path_to_filename(path: &str) -> (r: String)
    ensures
        (exists|j: int|
            0 <= j < path@.len() && path@[j] == '/' && (forall|k: int|
                j < k < path@.len() ==> path@[k] != '/') && r@ == path@.skip(j + 1)) || ((
        forall|k: int| 0 <= k < path@.len() ==> path@[k] != '/') && r@ == path@),
{
    let n = path.unicode_len();
    let mut j: usize = n;
    while j > 0
        invariant
            0 <= j <= n,
            n == path@.len(),
            forall|k: int| j <= k < n ==> path@[k] != '/',
        decreases j,
    {
        if path.get_char(j - 1) == '/' {
            let rest = path.substring_char(j, n);
            proof {
                assert(rest@ =~= path@.skip(j as int));
                assert(path@[j - 1] == '/');
            }
            return String::from_str(rest);
        }
        j = j - 1;
    }
    String::from_str(path)
}

} // verus!
