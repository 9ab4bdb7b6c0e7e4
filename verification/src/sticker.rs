//! Sticker conversion and sticker-set download commands.

pub mod config;

use vstd::prelude::*;

verus! {

/// The sticker modal a chat has entered.
#[derive(Debug, Clone, Copy, PartialEq, Eq, Structural)]
pub enum StickerModalState {
    StickerConvert,
    StickerSetDownload,
}

/// The sticker modal a chat has entered, as the older handler tracked it.
#[derive(Debug, Clone, Copy, PartialEq, Eq, Structural)]
pub enum ChatStickerState {
    StickerConvert,
    StickerSetDownload,
}

/// The sticker commands a user can issue.
#[derive(Debug, Clone, Copy, PartialEq, Eq, Structural)]
pub enum StickerCommand {
    StickerConvert,
    StickerSetDownload,
}

impl StickerCommand {
    /// Parses a command word.
    pub fn parse(s: &str) -> (r: Result<StickerCommand, ()>)
        ensures
            s@ == "sticker_convert"@ ==> r == Ok::<StickerCommand, ()>(
                StickerCommand::StickerConvert,
            ),
            s@ == "sticker_set_download"@ ==> r == Ok::<StickerCommand, ()>(
                StickerCommand::StickerSetDownload,
            ),
            s@ != "sticker_convert"@ && s@ != "sticker_set_download"@ ==> r == Err::<
                StickerCommand,
                (),
            >(()),
    {
        proof {
            reveal_strlit("sticker_convert");
            reveal_strlit("sticker_set_download");
            assert("sticker_convert"@.len() == 15);
            assert("sticker_set_download"@.len() == 20);
        }
        if crate::strutil::str_eq(s, "sticker_convert") {
            Ok(StickerCommand::StickerConvert)
        } else if crate::strutil::str_eq(s, "sticker_set_download") {
            Ok(StickerCommand::StickerSetDownload)
        } else {
            Err(())
        }
    }
}

/// The saved file name of one member of a set: the set's name, a suffix
/// telling the members apart, and the served file's extension.
pub fn sticker_member_name(set_name: &str, suffix: &str, extension: &str) -> (r: String)
    ensures
        r@ == set_name@ + "_"@ + suffix@ + "."@ + extension@,
{
    let mut out = String::from_str(set_name);
    out.append("_");
    out.append(suffix);
    out.append(".");
    out.append(extension);
    proof {
        assert(out@ =~= set_name@ + "_"@ + suffix@ + "."@ + extension@);
    }
    out
}

/// The saved file name of one sticker of a set: the member name with the
/// sticker's zero-padded position as the suffix — an ordering that keeps
/// the archive members in sticker order.
pub fn sticker_file_name(set_name: &str, index: u64, extension: &str) -> (r: String)
    ensures
        r@ == set_name@ + "_"@ + crate::numfmt::zero_pad(
            crate::numfmt::dec_rep(index as nat),
            3,
        ) + "."@ + extension@,
{
    let num = crate::numfmt::u64_to_dec3_string(index);
    sticker_member_name(set_name, num.as_str(), extension)
}

/// The saved file name of a set's thumbnail: the member name with the
/// fixed `thumbnail` suffix.
pub fn sticker_thumbnail_name(set_name: &str, extension: &str) -> (r: String)
    ensures
        r@ == set_name@ + "_thumbnail."@ + extension@,
{
    let out = sticker_member_name(set_name, "thumbnail", extension);
    proof {
        reveal_strlit("_");
        reveal_strlit(".");
        reveal_strlit("thumbnail");
        reveal_strlit("_thumbnail.");
        assert(out@ =~= set_name@ + "_thumbnail."@ + extension@);
    }
    out
}

impl core::str::FromStr for StickerCommand {
    type Err = ();

    /// Parses a command word, as `parse` does.
    fn from_str(s: &str) -> (r: Result<StickerCommand, ()>) {
        StickerCommand::parse(s)
    }
}

} // verus!
