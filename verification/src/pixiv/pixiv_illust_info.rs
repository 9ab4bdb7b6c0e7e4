//! Illustration metadata as the gallery endpoint returns it.

use vstd::prelude::*;

pub use crate::pixiv::types::{ImageUrls, Tag, Tags};

use crate::numfmt::u64_to_dec_string;
use crate::pixiv::config::PixivConfig;
use crate::pixiv::helper::{nsfw_prefix, page_suffix};
use crate::pixiv::types::has_tag;

verus! {

/// The core fields of one illustration, as the gallery endpoint names
/// them.
#[derive(Debug, Clone)]
pub struct PixivIllustInfo {
    pub id: String,
    pub title: String,
    pub description: String,
    pub author_id: String,
    pub author_name: String,
    pub page_count: u64,
    pub urls: ImageUrls,
    pub tags: Tags,
}

/// Whether an illustration is spoiler-marked, by the same rule as the
/// shared helper: grotesque content when the grotesque switch is on, any
/// adult content when the adult switch is on.
pub fn have_spoiler(pixiv_config: &PixivConfig, info: &PixivIllustInfo) -> (r: bool)
    ensures
        r == ({
            let nsfw = has_tag(info.tags.tags@, "R-18"@);
            let r18g = has_tag(info.tags.tags@, "R-18G"@);
            (pixiv_config.spoiler_r18g && r18g) || (pixiv_config.spoiler_nsfw && (nsfw || r18g))
        }),
{
    let nsfw = info.tags.contains_tag("R-18");
    let r18g = info.tags.contains_tag("R-18G");
    (pixiv_config.spoiler_r18g && r18g) || (pixiv_config.spoiler_nsfw && (nsfw || r18g))
}

/// The short caption of an illustration: content warnings, a link to the
/// work titled by its name, a link to its author, and an optional page
/// marker.
pub open spec fn pixiv_caption_text(info: PixivIllustInfo, page: Option<u64>) -> Seq<char> {
    nsfw_prefix(has_tag(info.tags.tags@, "R-18"@), has_tag(info.tags.tags@, "R-18G"@))
        + "<a href=\"https://www.pixiv.net/artworks/"@ + info.id@ + "\">"@ + info.title@
        + "</a> / <a href=\"https://www.pixiv.net/users/"@ + info.author_id@ + "\">"@
        + info.author_name@ + "</a>"@ + page_suffix(page, info.page_count)
}

/// Builds the short caption of an illustration.
pub fn pixiv_illust_caption(info: &PixivIllustInfo, page: Option<u64>) -> (r: String)
    ensures
        r@ == pixiv_caption_text(*info, page),
{
    let nsfw = info.tags.contains_tag("R-18");
    let r18g = info.tags.contains_tag("R-18G");
    let prefix: &str = if r18g {
        "#NSFW #R18G "
    } else if nsfw {
        "#NSFW "
    } else {
        ""
    };
    let mut out = String::from_str(prefix);
    out.append("<a href=\"https://www.pixiv.net/artworks/");
    out.append(info.id.as_str());
    out.append("\">");
    out.append(info.title.as_str());
    out.append("</a> / <a href=\"https://www.pixiv.net/users/");
    out.append(info.author_id.as_str());
    out.append("\">");
    out.append(info.author_name.as_str());
    out.append("</a>");
    match page {
        Some(p) => {
            out.append(" (");
            let pnum = u64_to_dec_string(p);
            out.append(pnum.as_str());
            out.append("/");
            let cnum = u64_to_dec_string(info.page_count);
            out.append(cnum.as_str());
            out.append(")");
        },
        None => {},
    }
    proof {
        assert(out@ =~= pixiv_caption_text(*info, page));
    }
    out
}

} // verus!
