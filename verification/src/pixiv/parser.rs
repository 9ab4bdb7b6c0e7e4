//! Parsing of the `/pixiv` command and of pixiv / fanbox links.
//!
//! As with the kemono shapes, the accepted link shapes are spec functions
//! over character sequences, and each parser returns exactly what its spec
//! function denotes. The fanbox shape is shared with the kemono command,
//! except that this one accepts no lone trailing slash.

use vstd::prelude::*;

use crate::kemono::parser::{fanbox_captures, parse_fanbox_parts, token_present};
use crate::numfmt::{dec_val, parse_u64_dec};
use crate::pixiv::types::{IllustRequest, SendMode};
use crate::strutil::{
    has_prefix, run_len, scan_run, strip_prefix_str, strip_scheme, strip_scheme_spec, str_eq,
    spec_tokens, tokenize, CharClass,
};

verus! {

/// What the `/pixiv` command text asks for.
pub enum PixivCommandParseResult {
    Success(IllustRequest),
    InvalidId,
    ShowHelp,
}

/// What a candidate pixiv link denotes.
pub enum PixivLinkParseResult {
    Success(u64),
    InvalidId,
    NotMatch,
}

/// What a candidate fanbox link denotes.
pub enum FanboxLinkParseResult {
    Success { name: String, post_id: Option<u64> },
    EmptyName,
    InvalidPostId,
    NotMatch,
}

/// The pixiv gallery URL prefix: an optional scheme, an optional `www.`,
/// the pixiv host, and one of its gallery path forms. Denotes what follows
/// the prefix, or `None` when the prefix shape is not present.
pub open spec fn pixiv_prefix_spec(s: Seq<char>) -> Option<Seq<char>> {
    let t = strip_scheme_spec(s);
    let t2 = if has_prefix(t, "www."@) {
        t.skip("www."@.len() as int)
    } else {
        t
    };
    if !has_prefix(t2, "pixiv.net/"@) {
        None
    } else {
        let u = t2.skip("pixiv.net/"@.len() as int);
        if has_prefix(u, "en/artworks/"@) {
            Some(u.skip("en/artworks/"@.len() as int))
        } else if has_prefix(u, "artworks/"@) {
            Some(u.skip("artworks/"@.len() as int))
        } else if has_prefix(u, "i/"@) {
            Some(u.skip("i/"@.len() as int))
        } else if has_prefix(u, "member_illust.php?illust_id="@) {
            Some(u.skip("member_illust.php?illust_id="@.len() as int))
        } else {
            None
        }
    }
}

/// The digits of a pixiv id given with the URL prefix. Denotes the id
/// digits, or `None` for a non-link.
pub open spec fn pixiv_link_digits(s: Seq<char>) -> Option<Seq<char>> {
    match pixiv_prefix_spec(s) {
        Some(u) => {
            let d = run_len(u, CharClass::Digit);
            if d > 0 {
                Some(u.take(d))
            } else {
                None
            }
        },
        None => None,
    }
}

/// The digits of a pixiv id given either with the URL prefix or bare.
pub open spec fn pixiv_id_digits(s: Seq<char>) -> Option<Seq<char>> {
    match pixiv_prefix_spec(s) {
        Some(u) => {
            let d = run_len(u, CharClass::Digit);
            if d > 0 {
                Some(u.take(d))
            } else {
                None
            }
        },
        None => {
            let d = run_len(s, CharClass::Digit);
            if d > 0 {
                Some(s.take(d))
            } else {
                None
            }
        },
    }
}

/// Finds the remainder after the pixiv URL prefix, if the prefix is there.
fn match_pixiv_prefix(s: &str) -> (r: Option<&str>)
    ensures
        match r {
            Some(rest) => pixiv_prefix_spec(s@) == Some(rest@),
            None => pixiv_prefix_spec(s@) is None,
        },
{
    let t = strip_scheme(s);
    let t2 = match strip_prefix_str(t, "www.") {
        Some(rest) => rest,
        None => t,
    };
    let u = match strip_prefix_str(t2, "pixiv.net/") {
        Some(u) => u,
        None => {
            return None;
        },
    };
    if let Some(rest) = strip_prefix_str(u, "en/artworks/") {
        return Some(rest);
    }
    if let Some(rest) = strip_prefix_str(u, "artworks/") {
        return Some(rest);
    }
    if let Some(rest) = strip_prefix_str(u, "i/") {
        return Some(rest);
    }
    if let Some(rest) = strip_prefix_str(u, "member_illust.php?illust_id=") {
        return Some(rest);
    }
    None
}

/// The leading digit run of `s`, as a substring.
fn leading_digits(s: &str) -> (r: Option<&str>)
    ensures
        ({
            let d = run_len(s@, CharClass::Digit);
            match r {
                Some(digits) => d > 0 && digits@ == s@.take(d)
                    && crate::numfmt::all_dec_digits(digits@) && digits@.len() > 0,
                None => d == 0,
            }
        }),
{
    proof {
        assert(s@.skip(0) =~= s@);
    }
    let d = scan_run(s, 0, CharClass::Digit);
    if d == 0 {
        return None;
    }
    let digits = s.substring_char(0, d);
    proof {
        assert(digits@ =~= s@.take(d as int));
        crate::strutil::lemma_run_len(s@, CharClass::Digit);
        assert forall|i: int| 0 <= i < digits@.len() implies crate::numfmt::is_dec_digit(
            #[trigger] digits@[i],
        ) by {
            assert(digits@[i] == s@[i]);
        }
    }
    Some(digits)
}

/// Parses a pixiv gallery link into its numeric id.
pub fn parse_pixiv_link(text: &str) -> (r: PixivLinkParseResult)
    ensures
        match r {
            PixivLinkParseResult::Success(id) => pixiv_link_digits(text@) is Some && dec_val(
                pixiv_link_digits(text@)->0,
            ) == id,
            PixivLinkParseResult::InvalidId => pixiv_link_digits(text@) is Some && dec_val(
                pixiv_link_digits(text@)->0,
            ) > u64::MAX,
            PixivLinkParseResult::NotMatch => pixiv_link_digits(text@) is None,
        },
{
    let u = match match_pixiv_prefix(text) {
        Some(u) => u,
        None => {
            return PixivLinkParseResult::NotMatch;
        },
    };
    let digits = match leading_digits(u) {
        Some(d) => d,
        None => {
            return PixivLinkParseResult::NotMatch;
        },
    };
    match parse_u64_dec(digits) {
        Some(v) => PixivLinkParseResult::Success(v),
        None => PixivLinkParseResult::InvalidId,
    }
}

/// Parses the `/pixiv` command text: the word after the command is a pixiv
/// link or a bare id, the words after it select the page limit and the
/// delivery mode.
pub fn parse_pixiv_command(text: &str) -> (r: PixivCommandParseResult)
    ensures
        ({
            let toks = spec_tokens(text@);
            match r {
                PixivCommandParseResult::ShowHelp => toks.len() < 2 || toks[1] == "help"@,
                PixivCommandParseResult::InvalidId => toks.len() >= 2 && toks[1] != "help"@ && (
                pixiv_id_digits(toks[1]) is None || dec_val(pixiv_id_digits(toks[1])->0)
                    > u64::MAX),
                PixivCommandParseResult::Success(req) => toks.len() >= 2 && toks[1] != "help"@
                    && pixiv_id_digits(toks[1]) is Some && dec_val(pixiv_id_digits(toks[1])->0)
                    == req.id && req.no_page_limit == token_present(toks, 2, "nolim"@)
                    && req.silent_page_limit == false && req.send_mode == send_mode_of(
                    token_present(toks, 2, "files"@),
                    token_present(toks, 2, "archive"@),
                ),
            }
        }),
{
    let toks = tokenize(text);
    let ghost tv = spec_tokens(text@);
    if toks.len() < 2 {
        return PixivCommandParseResult::ShowHelp;
    }
    let raw = toks[1];
    proof {
        assert(tv[1] == raw@);
    }
    if str_eq(raw, "help") {
        return PixivCommandParseResult::ShowHelp;
    }
    let digits = match match_pixiv_prefix(raw) {
        Some(u) => {
            match leading_digits(u) {
                Some(d) => d,
                None => {
                    return PixivCommandParseResult::InvalidId;
                },
            }
        },
        None => {
            match leading_digits(raw) {
                Some(d) => d,
                None => {
                    return PixivCommandParseResult::InvalidId;
                },
            }
        },
    };
    let id = match parse_u64_dec(digits) {
        Some(v) => v,
        None => {
            return PixivCommandParseResult::InvalidId;
        },
    };
    let mut no_page_limit = false;
    let mut files_mode = false;
    let mut archive_mode = false;
    let mut k: usize = 2;
    while k < toks.len()
        invariant
            2 <= k <= toks@.len(),
            toks@.map_values(|t: &str| t@) == tv,
            tv.len() == toks@.len(),
            no_page_limit == exists|q: int| 2 <= q < k && tv[q] == "nolim"@,
            files_mode == exists|q: int| 2 <= q < k && tv[q] == "files"@,
            archive_mode == exists|q: int| 2 <= q < k && tv[q] == "archive"@,
        decreases toks@.len() - k,
    {
        let word = toks[k];
        proof {
            assert(tv[k as int] == word@);
        }
        if str_eq(word, "nolim") {
            no_page_limit = true;
        }
        if str_eq(word, "files") {
            files_mode = true;
        }
        if str_eq(word, "archive") {
            archive_mode = true;
        }
        k = k + 1;
    }
    let send_mode = if archive_mode {
        SendMode::Archive
    } else if files_mode {
        SendMode::Files
    } else {
        SendMode::Photos
    };
    PixivCommandParseResult::Success(
        IllustRequest { id, no_page_limit, silent_page_limit: false, send_mode },
    )
}

/// The delivery mode the `files` and `archive` words select: `archive`
/// wins, `files` alone sends documents, neither sends photos.
pub open spec fn send_mode_of(files_mode: bool, archive_mode: bool) -> SendMode {
    if archive_mode {
        SendMode::Archive
    } else if files_mode {
        SendMode::Files
    } else {
        SendMode::Photos
    }
}

/// Parses a fanbox link into the creator name and an optional numeric
/// post id.
pub fn parse_fanbox_link(text: &str) -> (r: FanboxLinkParseResult)
    ensures
        ({
            match fanbox_captures(text@, false) {
                None => r is NotMatch,
                Some(cap) => match r {
                    FanboxLinkParseResult::NotMatch => false,
                    FanboxLinkParseResult::EmptyName => cap.0 is None,
                    FanboxLinkParseResult::InvalidPostId => cap.0 is Some && cap.1 is Some
                        && dec_val(cap.1->0) > u64::MAX,
                    FanboxLinkParseResult::Success { name, post_id } => cap.0 == Some(name@)
                        && (match post_id {
                        Some(v) => cap.1 is Some && dec_val(cap.1->0) == v,
                        None => cap.1 is None,
                    }),
                },
            }
        }),
{
    let parts = match parse_fanbox_parts(text, false) {
        Some(parts) => parts,
        None => {
            return FanboxLinkParseResult::NotMatch;
        },
    };
    let (name_opt, post_opt) = parts;
    let name = match name_opt {
        Some(nm) => nm,
        None => {
            return FanboxLinkParseResult::EmptyName;
        },
    };
    let post_id = match post_opt {
        Some(digits) => {
            match parse_u64_dec(digits.as_str()) {
                Some(v) => Some(v),
                None => {
                    return FanboxLinkParseResult::InvalidPostId;
                },
            }
        },
        None => None,
    };
    FanboxLinkParseResult::Success { name, post_id }
}

} // verus!
