//! Classification of post attachments for the page preview.

use vstd::prelude::*;

use crate::types::FileName;

verus! {

/// What a preview can embed an attachment as.
#[derive(Debug, Clone, Copy, PartialEq, Eq, Structural)]
pub enum FileType {
    Image,
    Video,
    Other,
}

/// A character's code with an ASCII capital letter folded to lower case.
pub open spec fn lower_code(c: char) -> int {
    if 65 <= c as u32 <= 90 {
        c as u32 + 32
    } else {
        c as u32 as int
    }
}

/// The two sequences are equal ignoring ASCII letter case. Folding is
/// ASCII only: a non-ASCII uppercase letter (such as the Kelvin sign) is
/// compared verbatim, so it never matches the ASCII extension lists.
pub open spec fn ascii_ci_eq(a: Seq<char>, b: Seq<char>) -> bool {
    a.len() == b.len() && forall|i: int| 0 <= i < a.len() ==> lower_code(#[trigger] a[i])
        == lower_code(b[i])
}

/// Compares two strings ignoring ASCII letter case.
fn eq_ascii_ci(a: &str, b: &str) -> (r: bool)
    ensures
        r == ascii_ci_eq(a@, b@),
{
    let an = a.unicode_len();
    let bn = b.unicode_len();
    if an != bn {
        return false;
    }
    let mut i: usize = 0;
    while i < an
        invariant
            0 <= i <= an,
            an == a@.len(),
            an == b@.len(),
            forall|k: int| 0 <= k < i ==> lower_code(#[trigger] a@[k]) == lower_code(b@[k]),
        decreases an - i,
    {
        let ca = a.get_char(i) as u32;
        let cb = b.get_char(i) as u32;
        let la = if 65 <= ca && ca <= 90 {
            ca + 32
        } else {
            ca
        };
        let lb = if 65 <= cb && cb <= 90 {
            cb + 32
        } else {
            cb
        };
        if la != lb {
            return false;
        }
        i = i + 1;
    }
    true
}

/// The embedding for one extension, compared ignoring ASCII case: the
/// known image extensions, the known video extensions, anything else.
pub open spec fn file_type_of(ext: Seq<char>) -> FileType {
    if ascii_ci_eq(ext, "png"@) || ascii_ci_eq(ext, "jpg"@) || ascii_ci_eq(ext, "gif"@)
        || ascii_ci_eq(ext, "tiff"@) || ascii_ci_eq(ext, "tga"@) || ascii_ci_eq(ext, "webp"@) {
        FileType::Image
    } else if ascii_ci_eq(ext, "mp4"@) || ascii_ci_eq(ext, "mov"@) || ascii_ci_eq(ext, "mkv"@) {
        FileType::Video
    } else {
        FileType::Other
    }
}

/// Classifies a file name by its extension — the part after its last dot,
/// or nothing when it has no dot — compared against the known extension
/// lists ignoring ASCII letter case (and only ASCII case; see
/// `ascii_ci_eq`).
pub fn check_file_type(file_name: &str) -> (r: FileType)
    ensures
        (exists|j: int|
            0 <= j < file_name@.len() && file_name@[j] == '.' && (forall|k: int|
                j < k < file_name@.len() ==> file_name@[k] != '.') && r == file_type_of(
                file_name@.skip(j + 1),
            )) || ((forall|k: int| 0 <= k < file_name@.len() ==> file_name@[k] != '.') && r
            == file_type_of(Seq::<char>::empty())),
{
    let parsed = FileName::from_name(file_name);
    let ext = parsed.extension_str();
    proof {
        reveal_strlit("");
    }
    if eq_ascii_ci(ext, "png") || eq_ascii_ci(ext, "jpg") || eq_ascii_ci(ext, "gif")
        || eq_ascii_ci(ext, "tiff") || eq_ascii_ci(ext, "tga") || eq_ascii_ci(ext, "webp") {
        FileType::Image
    } else if eq_ascii_ci(ext, "mp4") || eq_ascii_ci(ext, "mov") || eq_ascii_ci(ext, "mkv") {
        FileType::Video
    } else {
        FileType::Other
    }
}

} // verus!
