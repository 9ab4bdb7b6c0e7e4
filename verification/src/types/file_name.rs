//! A file name split into base and extension.

use vstd::prelude::*;

verus! {

/// A file name: its base and, when known, its extension.
#[derive(Debug, Clone, Default)]
pub struct FileName {
    pub basename: String,
    pub extension: Option<String>,
}

impl FileName {
    pub fn new(basename: String, extension: Option<String>) -> (r: FileName)
        ensures
            r.basename == basename,
            r.extension == extension,
    {
        FileName { basename, extension }
    }

    /// The extension, or the empty string when none is known.
    pub fn extension_str(&self) -> (r: &str)
        ensures
            match self.extension {
                Some(ref e) => r@ == e@,
                None => r@.len() == 0,
            },
    {
        proof {
            reveal_strlit("");
        }
        match &self.extension {
            Some(ext) => ext.as_str(),
            None => "",
        }
    }

    /// Splits a name at its last dot: everything before it is the base,
    /// everything after it the extension. A name without a dot keeps its
    /// whole text as the base, with an empty extension recorded.
    pub fn from_name(name: &str) -> (r: FileName)
        ensures
            (exists|j: int|
                0 <= j < name@.len() && name@[j] == '.' && (forall|k: int|
                    j < k < name@.len() ==> name@[k] != '.') && r.basename@ == name@.take(j)
                    && (match r.extension {
                    Some(ref e) => e@ == name@.skip(j + 1),
                    None => false,
                })) || ((forall|k: int| 0 <= k < name@.len() ==> name@[k] != '.')
                && r.basename@ == name@ && (match r.extension {
                Some(ref e) => e@.len() == 0,
                None => false,
            })),
    {
        let n = name.unicode_len();
        let mut j: usize = n;
        while j > 0
            invariant
                0 <= j <= n,
                n == name@.len(),
                forall|k: int| j <= k < n ==> name@[k] != '.',
            decreases j,
        {
            if name.get_char(j - 1) == '.' {
                let base = name.substring_char(0, j - 1);
                let ext = name.substring_char(j, n);
                proof {
                    assert(base@ =~= name@.take(j - 1));
                    assert(ext@ =~= name@.skip(j as int));
                    assert(name@[j - 1] == '.');
                }
                return FileName {
                    basename: String::from_str(base),
                    extension: Some(String::from_str(ext)),
                };
            }
            j = j - 1;
        }
        proof {
            reveal_strlit("");
        }
        FileName { basename: String::from_str(name), extension: Some(String::from_str("")) }
    }
}

} // verus!
