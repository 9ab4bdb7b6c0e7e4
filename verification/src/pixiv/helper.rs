//! Spoiler decisions and caption building for illustrations.

use vstd::prelude::*;

use crate::numfmt::{dec_rep, u64_to_dec_string};
use crate::pixiv::config::PixivConfig;
use crate::pixiv::types::{has_tag, IllustInfo, IllustRequest, ImageUrls, SendMode, Tag};
use crate::strutil::{replace_str, spec_replace};

verus! {

/// Whether an illustration is spoiler-marked: grotesque content when the
/// grotesque switch is on, or any adult content when the adult switch is
/// on.
pub fn have_spoiler(pixiv_config: &PixivConfig, info: &IllustInfo) -> (r: bool)
    ensures
        r == ({
            let nsfw = has_tag(info.tags.tags@, "R-18"@);
            let r18g = has_tag(info.tags.tags@, "R-18G"@);
            (pixiv_config.spoiler_r18g && r18g) || (pixiv_config.spoiler_nsfw && (nsfw || r18g))
        }),
{
    let nsfw = info.tags.contains_tag("R-18");
    let r18g = info.tags.contains_tag("R-18G");
    (pixiv_config.spoiler_r18g && r18g) || (pixiv_config.spoiler_nsfw && (nsfw || r18g))
}

/// Whether a gallery request is rejected by the page limit: outside
/// archive mode, without the explicit no-limit word, at most ten pages are
/// served.
pub fn page_limit_rejects(req: &IllustRequest, page_count: u64) -> (r: bool)
    ensures
        r == (req.send_mode != SendMode::Archive && !req.no_page_limit && page_count > 10),
{
    req.send_mode != SendMode::Archive && !req.no_page_limit && page_count > 10
}

/// The image URL a request downloads from: photo mode takes the regular
/// quality, every other mode the original.
pub fn pick_reference_url<'a>(urls: &'a ImageUrls, mode: SendMode) -> (r: &'a Option<String>)
    ensures
        mode == SendMode::Photos ==> r == &urls.regular,
        mode != SendMode::Photos ==> r == &urls.original,
{
    if mode == SendMode::Photos {
        &urls.regular
    } else {
        &urls.original
    }
}

/// The file name of one gallery page: the reference name with its `p0`
/// page marker replaced by the page number.
pub fn page_file_name(ref_name: &str, page: u64) -> (r: String)
    ensures
        r@ == spec_replace(ref_name@, "p0"@, "p"@ + dec_rep(page as nat)),
{
    let mut marker = String::from_str("p");
    let digits = u64_to_dec_string(page);
    marker.append(digits.as_str());
    proof {
        reveal_strlit("p0");
        assert(marker@ =~= "p"@ + dec_rep(page as nat));
    }
    replace_str(ref_name, "p0", marker.as_str())
}

/// The content-warning hashtags a caption starts with.
pub open spec fn nsfw_prefix(nsfw: bool, r18g: bool) -> Seq<char> {
    if r18g {
        "#NSFW #R18G "@
    } else if nsfw {
        "#NSFW "@
    } else {
        ""@
    }
}

/// The ` (page/count)` suffix of a multi-page caption.
pub open spec fn page_suffix(page: Option<u64>, count: u64) -> Seq<char> {
    match page {
        Some(p) => " ("@ + dec_rep(p as nat) + "/"@ + dec_rep(count as nat) + ")"@,
        None => Seq::empty(),
    }
}

/// The short caption of an illustration: content warnings, a link to the
/// work titled by its name, a link to its author, and an optional page
/// marker.
pub open spec fn caption_text(info: IllustInfo, page: Option<u64>) -> Seq<char> {
    nsfw_prefix(has_tag(info.tags.tags@, "R-18"@), has_tag(info.tags.tags@, "R-18G"@))
        + "<a href=\"https://www.pixiv.net/artworks/"@ + info.id@ + "\">"@ + info.title@
        + "</a> / <a href=\"https://www.pixiv.net/users/"@ + info.author_id@ + "\">"@
        + info.author_name@ + "</a>"@ + page_suffix(page, info.page_count)
}

/// Builds the short caption of an illustration.
pub fn illust_caption(info: &IllustInfo, page: Option<u64>) -> (r: String)
    ensures
        r@ == caption_text(*info, page),
{
    let nsfw = info.tags.contains_tag("R-18");
    let r18g = info.tags.contains_tag("R-18G");
    let prefix: &str = if r18g {
        "#NSFW #R18G "
    } else if nsfw {
        "#NSFW "
    } else {
        ""
    };
    let mut out = String::from_str(prefix);
    out.append("<a href=\"https://www.pixiv.net/artworks/");
    out.append(info.id.as_str());
    out.append("\">");
    out.append(info.title.as_str());
    out.append("</a> / <a href=\"https://www.pixiv.net/users/");
    out.append(info.author_id.as_str());
    out.append("\">");
    out.append(info.author_name.as_str());
    out.append("</a>");
    match page {
        Some(p) => {
            out.append(" (");
            let pnum = u64_to_dec_string(p);
            out.append(pnum.as_str());
            out.append("/");
            let cnum = u64_to_dec_string(info.page_count);
            out.append(cnum.as_str());
            out.append(")");
        },
        None => {},
    }
    proof {
        assert(out@ =~= caption_text(*info, page));
    }
    out
}

/// The first `en` entry of a tag's translation list, if any.
pub open spec fn en_translation(pairs: Seq<(String, String)>) -> Option<Seq<char>>
    decreases pairs.len(),
{
    if pairs.len() == 0 {
        None
    } else if pairs.first().0@ == "en"@ {
        Some(pairs.first().1@)
    } else {
        en_translation(pairs.drop_first())
    }
}

/// One tag's hashtag text: the tag with dashes removed, with the English
/// translation in parentheses when one is known.
pub open spec fn tag_entry_text(tag: Tag) -> Seq<char> {
    let ts = spec_replace(tag.tag@, "-"@, ""@);
    let en = match tag.translation {
        Some(pairs) => en_translation(pairs@),
        None => None,
    };
    match en {
        Some(e) => "#"@ + ts + " ("@ + e + ")  "@,
        None => "#"@ + ts + "  "@,
    }
}

/// The hashtag list of a caption, one entry per tag, in order.
pub open spec fn tag_list_text(tags: Seq<Tag>) -> Seq<char>
    decreases tags.len(),
{
    if tags.len() == 0 {
        Seq::empty()
    } else {
        tag_list_text(tags.drop_last()) + tag_entry_text(tags.last())
    }
}

/// The detailed caption of an illustration: title, expandable description
/// with its HTML line breaks turned into real ones, artist link, tag list
/// and source link.
pub open spec fn detailed_caption_text(info: IllustInfo) -> Seq<char> {
    "<b>"@ + info.title@ + "</b>\n"@ + (if info.description@.len() > 0 {
        "<blockquote expandable>"@ + spec_replace(info.description@, "<br />"@, "\n"@)
            + "</blockquote>\n\n"@
    } else {
        Seq::empty()
    }) + "Artist: <a href=\"https://www.pixiv.net/users/"@ + info.author_id@ + "\">"@
        + info.author_name@ + "</a>\n"@ + "Tags: "@ + tag_list_text(info.tags.tags@) + "\n"@
        + "Source: https://www.pixiv.net/artworks/"@ + info.id@ + "\n"@
}

/// Finds a tag's English translation, if its translation list has one.
fn find_en_translation(pairs: &Vec<(String, String)>) -> (r: Option<&String>)
    ensures
        ({
            let en = en_translation(pairs@);
            match r {
                Some(e) => en == Some(e@),
                None => en is None,
            }
        }),
{
    let n = pairs.len();
    let mut i: usize = 0;
    proof {
        assert(pairs@.skip(0) =~= pairs@);
    }
    while i < n
        invariant
            0 <= i <= n,
            n == pairs@.len(),
            en_translation(pairs@) == en_translation(pairs@.skip(i as int)),
        decreases n - i,
    {
        proof {
            assert(pairs@.skip(i as int).first() == pairs@[i as int]);
            assert(pairs@.skip(i as int).drop_first() =~= pairs@.skip(i as int + 1));
        }
        if crate::strutil::str_eq(pairs[i].0.as_str(), "en") {
            return Some(&pairs[i].1);
        }
        i = i + 1;
    }
    proof {
        assert(pairs@.skip(n as int).len() == 0);
    }
    None
}

/// Builds the detailed caption of an illustration.
pub fn illust_caption_detailed(info: &IllustInfo) -> (r: String)
    ensures
        r@ == detailed_caption_text(*info),
{
    let mut text = String::new();
    text.append("<b>");
    text.append(info.title.as_str());
    text.append("</b>\n");
    if info.description.as_str().unicode_len() > 0 {
        text.append("<blockquote expandable>");
        proof {
            reveal_strlit("<br />");
        }
        let replaced = replace_str(info.description.as_str(), "<br />", "\n");
        text.append(replaced.as_str());
        text.append("</blockquote>\n\n");
    }
    text.append("Artist: <a href=\"https://www.pixiv.net/users/");
    text.append(info.author_id.as_str());
    text.append("\">");
    text.append(info.author_name.as_str());
    text.append("</a>\n");
    text.append("Tags: ");
    let tag_count = info.tags.tags.len();
    let mut ti: usize = 0;
    let mut tag_list = String::new();
    proof {
        assert(tag_list@ =~= tag_list_text(info.tags.tags@.take(0)));
    }
    while ti < tag_count
        invariant
            0 <= ti <= tag_count,
            tag_count == info.tags.tags@.len(),
            tag_list@ == tag_list_text(info.tags.tags@.take(ti as int)),
        decreases tag_count - ti,
    {
        let tag = &info.tags.tags[ti];
        proof {
            reveal_strlit("-");
        }
        let ts = replace_str(tag.tag.as_str(), "-", "");
        let ghost pre = tag_list@;
        tag_list.append("#");
        tag_list.append(ts.as_str());
        match &tag.translation {
            Some(pairs) => {
                match find_en_translation(pairs) {
                    Some(e) => {
                        tag_list.append(" (");
                        tag_list.append(e.as_str());
                        tag_list.append(")  ");
                    },
                    None => {
                        tag_list.append("  ");
                    },
                }
            },
            None => {
                tag_list.append("  ");
            },
        }
        ti = ti + 1;
        proof {
            reveal_strlit("");
            assert(""@.len() == 0);
            assert(info.tags.tags@.take(ti as int).drop_last() =~= info.tags.tags@.take(
                ti as int - 1,
            ));
            assert(info.tags.tags@.take(ti as int).last() == info.tags.tags@[ti as int - 1]);
            assert(tag_list@ =~= pre + tag_entry_text(info.tags.tags@[ti as int - 1]));
            assert(tag_list@ =~= tag_list_text(info.tags.tags@.take(ti as int)));
        }
    }
    proof {
        assert(info.tags.tags@.take(tag_count as int) =~= info.tags.tags@);
    }
    text.append(tag_list.as_str());
    text.append("\n");
    text.append("Source: https://www.pixiv.net/artworks/");
    text.append(info.id.as_str());
    text.append("\n");
    proof {
        assert(text@ =~= detailed_caption_text(*info));
    }
    text
}

} // verus!
