//! Parsing of the `/kemono` command and of kemono / fanbox links.
//!
//! The accepted link shapes are written down as spec functions over
//! character sequences; each parser returns exactly what its spec function
//! denotes. Runs of letters or digits are maximal, which coincides with the
//! greedy matching the shapes call for, since every run is followed by a
//! delimiter outside its class.

use vstd::prelude::*;

use crate::strutil::{
    has_prefix, run_len, scan_run, strip_prefix_str, strip_scheme, strip_scheme_spec, str_eq,
    spec_tokens, tokenize, CharClass,
};

verus! {

/// Delivery options of a kemono request.
#[derive(Debug, Clone)]
pub struct KemonoCommandParam {
    pub as_telegraph: bool,
    pub as_media: bool,
    pub as_archive: bool,
}

impl KemonoCommandParam {
    /// The options used when a bare link is detected in an ordinary
    /// message: preview only, no downloads.
    pub fn link_default() -> (p: KemonoCommandParam)
        ensures
            p.as_telegraph == true,
            p.as_media == false,
            p.as_archive == false,
    {
        KemonoCommandParam { as_telegraph: true, as_media: false, as_archive: false }
    }
}

/// A parsed kemono post request.
#[derive(Debug, Clone)]
pub struct KemonoRequest {
    pub service: String,
    pub user_id: String,
    pub post_id: String,
    pub param: KemonoCommandParam,
}

/// A parsed fanbox creator/post request.
#[derive(Debug, Clone)]
pub struct FanboxRequest {
    pub username: String,
    pub post_id: Option<String>,
    pub param: KemonoCommandParam,
}

/// What the `/kemono` command text asks for.
pub enum KemonoCommandParseResult {
    Kemono(KemonoRequest),
    Fanbox(FanboxRequest),
    InvalidLink,
    ShowHelp,
}

/// A `#fragment` or `?query` tail (or nothing) may follow a link; a line
/// break inside it is not part of a link.
pub open spec fn link_tail_ok(tail: Seq<char>) -> bool {
    tail.len() == 0 || ((tail[0] == '#' || tail[0] == '?') && (forall|k: int|
        1 <= k < tail.len() ==> tail[k] != '\n'))
}

/// The accepted kemono post link shape: an optional scheme, the kemono
/// host, then `service/user/<id>/post/<id>`, then an optional tail. Denotes
/// the `(service, user_id, post_id)` capture, or `None` for a non-link.
pub open spec fn kemono_link_spec(s: Seq<char>) -> Option<(Seq<char>, Seq<char>, Seq<char>)> {
    let t = strip_scheme_spec(s);
    if !has_prefix(t, "kemono.cr/"@) {
        None
    } else {
        let u = t.skip("kemono.cr/"@.len() as int);
        let a = run_len(u, CharClass::Alpha);
        let v = u.skip(a);
        if a == 0 || !has_prefix(v, "/user/"@) {
            None
        } else {
            let v2 = v.skip("/user/"@.len() as int);
            let d1 = run_len(v2, CharClass::Digit);
            let v3 = v2.skip(d1);
            if d1 == 0 || !has_prefix(v3, "/post/"@) {
                None
            } else {
                let v4 = v3.skip("/post/"@.len() as int);
                let d2 = run_len(v4, CharClass::Digit);
                if d2 == 0 || !link_tail_ok(v4.skip(d2)) {
                    None
                } else {
                    Some((u.take(a), v2.take(d1), v4.take(d2)))
                }
            }
        }
    }
}

/// Checks that what follows position `from` is an acceptable link tail.
fn check_link_tail(s: &str, from: usize) -> (r: bool)
    requires
        from <= s@.len(),
    ensures
        r == link_tail_ok(s@.skip(from as int)),
{
    let n = s.unicode_len();
    if from == n {
        return true;
    }
    let c0 = s.get_char(from);
    proof {
        assert(s@.skip(from as int)[0] == s@[from as int]);
    }
    if !(c0 == '#' || c0 == '?') {
        return false;
    }
    let has_break = crate::strutil::contains_char_from(s, from + 1, '\n');
    proof {
        let tail = s@.skip(from as int);
        assert forall|k: int| 1 <= k < tail.len() implies tail[k] == s@[from + k] by {}
        if has_break {
            let k0 = choose|k: int| from + 1 <= k < s@.len() && s@[k] == '\n';
            assert(tail[k0 - from] == '\n');
        }
    }
    !has_break
}

/// Parses a kemono post link into `(service, user_id, post_id)`.
pub fn parse_kemono_link(text: &str) -> (r: Option<(String, String, String)>)
    ensures
        match r {
            Some(parts) => kemono_link_spec(text@) == Some((parts.0@, parts.1@, parts.2@)),
            None => kemono_link_spec(text@) is None,
        },
{
    let t = strip_scheme(text);
    let u = match strip_prefix_str(t, "kemono.cr/") {
        Some(u) => u,
        None => {
            return None;
        },
    };
    proof {
        assert(u@.skip(0) =~= u@);
    }
    let a = scan_run(u, 0, CharClass::Alpha);
    if a == 0 {
        return None;
    }
    let service = u.substring_char(0, a);
    let v = u.substring_char(a, u.unicode_len());
    proof {
        assert(v@ =~= u@.skip(a as int));
        assert(service@ =~= u@.take(a as int));
    }
    let v2 = match strip_prefix_str(v, "/user/") {
        Some(v2) => v2,
        None => {
            return None;
        },
    };
    proof {
        assert(v2@.skip(0) =~= v2@);
    }
    let d1 = scan_run(v2, 0, CharClass::Digit);
    if d1 == 0 {
        return None;
    }
    let user = v2.substring_char(0, d1);
    let v3 = v2.substring_char(d1, v2.unicode_len());
    proof {
        assert(v3@ =~= v2@.skip(d1 as int));
        assert(user@ =~= v2@.take(d1 as int));
    }
    let v4 = match strip_prefix_str(v3, "/post/") {
        Some(v4) => v4,
        None => {
            return None;
        },
    };
    proof {
        assert(v4@.skip(0) =~= v4@);
    }
    let d2 = scan_run(v4, 0, CharClass::Digit);
    if d2 == 0 {
        return None;
    }
    if !check_link_tail(v4, d2) {
        return None;
    }
    let post = v4.substring_char(0, d2);
    proof {
        assert(post@ =~= v4@.take(d2 as int));
    }
    Some((String::from_str(service), String::from_str(user), String::from_str(post)))
}

/// Splits the host part of a fanbox link: an optional subdomain (a
/// letter/digit/dash run before a dot) and the `fanbox.cc` host. Denotes
/// the subdomain capture and what follows the host.
pub open spec fn fanbox_host_split(t: Seq<char>) -> Option<(Option<Seq<char>>, Seq<char>)> {
    let r = run_len(t, CharClass::AlnumDash);
    if r > 0 && r < t.len() && t[r] == '.' && has_prefix(t.skip(r + 1), "fanbox.cc"@) {
        Some((Some(t.take(r)), t.skip(r + 1 + "fanbox.cc"@.len() as int)))
    } else if has_prefix(t, "fanbox.cc"@) {
        Some((None, t.skip("fanbox.cc"@.len() as int)))
    } else {
        None
    }
}

/// An optional `#`/`?`/`&` tail without a line break, or nothing at all.
pub open spec fn query_tail_ok(y: Seq<char>) -> bool {
    y.len() == 0 || ((y[0] == '#' || y[0] == '?' || y[0] == '&') && (forall|k: int|
        1 <= k < y.len() ==> y[k] != '\n'))
}

/// The end of a fanbox link: optionally one `/` (where the shape allows
/// it), then an optional `#`/`?`/`&` tail without a line break.
pub open spec fn fanbox_end_ok(x: Seq<char>, allow_slash: bool) -> bool {
    if allow_slash && has_prefix(x, "/"@) {
        query_tail_ok(x.skip(1))
    } else {
        query_tail_ok(x)
    }
}

/// The `/posts` part of a fanbox link: nothing, or `/posts`, `/posts/`,
/// optionally followed by a post id, then an acceptable end. Denotes the
/// post id capture, or `None` when the shape is not matched at all.
pub open spec fn fanbox_posts_spec(v: Seq<char>, allow_slash: bool) -> Option<Option<Seq<char>>> {
    if has_prefix(v, "/posts"@) {
        let w = v.skip("/posts"@.len() as int);
        let w2 = if has_prefix(w, "/"@) {
            w.skip(1)
        } else {
            w
        };
        let d = run_len(w2, CharClass::Digit);
        if fanbox_end_ok(w2.skip(d), allow_slash) {
            Some(
                if d > 0 {
                    Some(w2.take(d))
                } else {
                    None
                },
            )
        } else {
            None
        }
    } else {
        if fanbox_end_ok(v, allow_slash) {
            Some(None)
        } else {
            None
        }
    }
}

/// What follows the fanbox host: an optional `/@name`, then the optional
/// `/posts` part. Denotes the `(name, post_id)` captures.
pub open spec fn fanbox_after_host(u: Seq<char>, allow_slash: bool) -> Option<
    (Option<Seq<char>>, Option<Seq<char>>),
> {
    if has_prefix(u, "/@"@) {
        let r2 = run_len(u.skip(2), CharClass::AlnumDash);
        if r2 == 0 {
            None
        } else {
            match fanbox_posts_spec(u.skip(2 + r2), allow_slash) {
                Some(post) => Some((Some(u.skip(2).take(r2)), post)),
                None => None,
            }
        }
    } else {
        match fanbox_posts_spec(u, allow_slash) {
            Some(post) => Some((None, post)),
            None => None,
        }
    }
}

/// The accepted fanbox link shape. Denotes the creator name the link
/// identifies — the `@name` path segment when present, otherwise the
/// subdomain unless that is the generic `www` or `api` — and the post id:
/// `Some((None, _))` is a fanbox link that names no creator.
pub open spec fn fanbox_captures(s: Seq<char>, allow_slash: bool) -> Option<
    (Option<Seq<char>>, Option<Seq<char>>),
> {
    let t = strip_scheme_spec(s);
    match fanbox_host_split(t) {
        None => None,
        Some(host) => match fanbox_after_host(host.1, allow_slash) {
            None => None,
            Some(captures) => {
                let name = if captures.0 is Some {
                    captures.0
                } else if host.0 is Some && host.0->0 != "www"@ && host.0->0 != "api"@ {
                    host.0
                } else {
                    None
                };
                Some((name, captures.1))
            },
        },
    }
}

/// The fanbox link shape with a creator name resolved; a link that names
/// no creator is no match.
pub open spec fn fanbox_link_spec(s: Seq<char>) -> Option<(Seq<char>, Option<Seq<char>>)> {
    match fanbox_captures(s, true) {
        Some(captures) => match captures.0 {
            Some(nm) => Some((nm, captures.1)),
            None => None,
        },
        None => None,
    }
}

/// Checks a fanbox link end starting at `from`.
fn check_fanbox_end(s: &str, from: usize, allow_slash: bool) -> (r: bool)
    requires
        from <= s@.len(),
    ensures
        r == fanbox_end_ok(s@.skip(from as int), allow_slash),
{
    let n = s.unicode_len();
    let start = if allow_slash && from < n && s.get_char(from) == '/' {
        from + 1
    } else {
        from
    };
    proof {
        reveal_strlit("/");
        let x = s@.skip(from as int);
        if from < n {
            assert(x[0] == s@[from as int]);
        }
        if start == from + 1 {
            assert(x.take(1) =~= "/"@);
            assert(has_prefix(x, "/"@));
            assert(x.skip(1) =~= s@.skip(start as int));
            assert(fanbox_end_ok(x, allow_slash) == query_tail_ok(s@.skip(start as int)));
        } else {
            if allow_slash && has_prefix(x, "/"@) {
                assert(x[0] == x.take(1)[0]);
                assert(false);
            }
            assert(x =~= s@.skip(start as int));
            assert(fanbox_end_ok(x, allow_slash) == query_tail_ok(s@.skip(start as int)));
        }
    }
    if start == n {
        return true;
    }
    let c0 = s.get_char(start);
    proof {
        assert(s@.skip(start as int)[0] == s@[start as int]);
    }
    if !(c0 == '#' || c0 == '?' || c0 == '&') {
        return false;
    }
    let has_break = crate::strutil::contains_char_from(s, start + 1, '\n');
    proof {
        let y = s@.skip(start as int);
        assert(y[0] == s@[start as int]);
        assert forall|k: int| 1 <= k < y.len() implies y[k] == s@[start + k] by {}
        if has_break {
            let k0 = choose|k: int| start + 1 <= k < s@.len() && s@[k] == '\n';
            assert(1 <= k0 - start < y.len());
            assert(y[k0 - start] == '\n');
            assert(!query_tail_ok(y));
        } else {
            assert forall|k: int| 1 <= k < y.len() implies y[k] != '\n' by {
                assert(y[k] == s@[start + k]);
            }
            assert(query_tail_ok(y));
        }
    }
    !has_break
}

/// Parses a fanbox link into its captures: the resolved creator name, if
/// the link names one, and the optional post id.
#[verifier::rlimit(80)]
#[verifier::spinoff_prover]
pub fn parse_fanbox_parts(text: &str, allow_slash: bool) -> (r: Option<
    (Option<String>, Option<String>),
>)
    ensures
        match r {
            Some(parts) => fanbox_captures(text@, allow_slash) == Some(
                (
                    crate::strutil::opt_str_view(parts.0),
                    crate::strutil::opt_str_view(parts.1),
                ),
            ) && (parts.1 is Some ==> crate::numfmt::all_dec_digits(parts.1->0@)
                && parts.1->0@.len() > 0),
            None => fanbox_captures(text@, allow_slash) is None,
        },
{
    let t = strip_scheme(text);
    proof {
        assert(t@.skip(0) =~= t@);
    }
    // Host: optional subdomain, then "fanbox.cc".
    let rr = scan_run(t, 0, CharClass::AlnumDash);
    let tn = t.unicode_len();
    let mut subdomain: Option<&str> = None;
    let u: &str;
    if rr > 0 && rr < tn && t.get_char(rr) == '.' && {
        let after_dot = t.substring_char(rr + 1, tn);
        proof {
            assert(after_dot@ =~= t@.skip(rr + 1));
        }
        strip_prefix_str(after_dot, "fanbox.cc").is_some()
    } {
        let after_dot = t.substring_char(rr + 1, tn);
        proof {
            assert(after_dot@ =~= t@.skip(rr + 1));
        }
        let rest = match strip_prefix_str(after_dot, "fanbox.cc") {
            Some(rest) => rest,
            None => {
                proof {
                    assert(false);
                }
                return None;
            },
        };
        let sub = t.substring_char(0, rr);
        proof {
            assert(sub@ =~= t@.take(rr as int));
            assert(rest@ =~= t@.skip(rr + 1 + "fanbox.cc"@.len() as int));
        }
        subdomain = Some(sub);
        u = rest;
    } else {
        match strip_prefix_str(t, "fanbox.cc") {
            Some(rest) => {
                u = rest;
            },
            None => {
                return None;
            },
        }
    }
    // Optional "/@name".
    let mut at_name: Option<&str> = None;
    let v: &str;
    match strip_prefix_str(u, "/@") {
        Some(after_at) => {
            proof {
                reveal_strlit("/@");
                assert(after_at@.skip(0) =~= after_at@);
                assert(after_at@ =~= u@.skip(2));
            }
            let r2 = scan_run(after_at, 0, CharClass::AlnumDash);
            if r2 == 0 {
                return None;
            }
            let nm = after_at.substring_char(0, r2);
            let rest = after_at.substring_char(r2, after_at.unicode_len());
            proof {
                assert(nm@ =~= u@.skip(2).take(r2 as int));
                assert(rest@ =~= u@.skip(2 + r2));
            }
            at_name = Some(nm);
            v = rest;
        },
        None => {
            v = u;
        },
    }
    // Optional "/posts" with an optional id.
    let mut post_id: Option<&str> = None;
    match strip_prefix_str(v, "/posts") {
        Some(w) => {
            let w2 = match strip_prefix_str(w, "/") {
                Some(w2) => w2,
                None => w,
            };
            proof {
                reveal_strlit("/");
                assert(w2@.skip(0) =~= w2@);
                if has_prefix(w@, "/"@) {
                    assert(w2@ =~= w@.skip(1));
                }
            }
            let d = scan_run(w2, 0, CharClass::Digit);
            if !check_fanbox_end(w2, d, allow_slash) {
                return None;
            }
            if d > 0 {
                let digits = w2.substring_char(0, d);
                proof {
                    assert(digits@ =~= w2@.take(d as int));
                    crate::strutil::lemma_run_len(w2@, CharClass::Digit);
                    assert forall|i: int| 0 <= i < digits@.len() implies crate::numfmt::is_dec_digit(
                        #[trigger] digits@[i],
                    ) by {
                        assert(digits@[i] == w2@[i]);
                    }
                }
                post_id = Some(digits);
            }
        },
        None => {
            proof {
                assert(v@.skip(0) =~= v@);
            }
            if !check_fanbox_end(v, 0, allow_slash) {
                return None;
            }
        },
    }
    // Resolve the creator name.
    let name: Option<&str> = match at_name {
        Some(nm) => Some(nm),
        None => {
            match subdomain {
                Some(sub) => {
                    if str_eq(sub, "www") || str_eq(sub, "api") {
                        None
                    } else {
                        Some(sub)
                    }
                },
                None => None,
            }
        },
    };
    let name_owned = match name {
        Some(nm) => Some(String::from_str(nm)),
        None => None,
    };
    let post = match post_id {
        Some(p) => Some(String::from_str(p)),
        None => None,
    };
    Some((name_owned, post))
}

/// Parses a fanbox link into the creator name and an optional post id.
pub fn parse_fanbox_link(text: &str) -> (r: Option<(String, Option<String>)>)
    ensures
        match r {
            Some(parts) => fanbox_link_spec(text@) == Some(
                (parts.0@, crate::strutil::opt_str_view(parts.1)),
            ),
            None => fanbox_link_spec(text@) is None,
        },
{
    match parse_fanbox_parts(text, true) {
        Some(parts) => {
            let (name, post) = parts;
            match name {
                Some(nm) => Some((nm, post)),
                None => None,
            }
        },
        None => None,
    }
}

/// Word `w` occurs among the tokens at or after position `from`.
pub open spec fn token_present(toks: Seq<Seq<char>>, from: int, w: Seq<char>) -> bool {
    exists|q: int| from <= q < toks.len() && toks[q] == w
}

/// The delivery options a command's trailing words select: explicit
/// `telegraph` / `media` / `archive` words; with no trailing words at all,
/// an archive is the default.
pub open spec fn param_matches(p: KemonoCommandParam, toks: Seq<Seq<char>>) -> bool {
    &&& p.as_telegraph == token_present(toks, 2, "telegraph"@)
    &&& p.as_media == token_present(toks, 2, "media"@)
    &&& p.as_archive == if toks.len() > 2 {
        token_present(toks, 2, "archive"@)
    } else {
        true
    }
}

/// Parses the `/kemono` command text: the word after the command is a
/// kemono or fanbox link, the words after it select delivery options.
pub fn parse_kemono_command(text: &str) -> (r: KemonoCommandParseResult)
    ensures
        ({
            let toks = spec_tokens(text@);
            match r {
                KemonoCommandParseResult::ShowHelp => toks.len() < 2 || toks[1] == "help"@,
                KemonoCommandParseResult::InvalidLink => toks.len() >= 2 && toks[1] != "help"@
                    && kemono_link_spec(toks[1]) is None && fanbox_link_spec(toks[1]) is None,
                KemonoCommandParseResult::Kemono(req) => toks.len() >= 2 && toks[1] != "help"@
                    && kemono_link_spec(toks[1]) == Some(
                    (req.service@, req.user_id@, req.post_id@),
                ) && param_matches(req.param, toks),
                KemonoCommandParseResult::Fanbox(req) => toks.len() >= 2 && toks[1] != "help"@
                    && kemono_link_spec(toks[1]) is None && fanbox_link_spec(toks[1]) == Some(
                    (req.username@, crate::strutil::opt_str_view(req.post_id)),
                ) && param_matches(req.param, toks),
            }
        }),
{
    let toks = tokenize(text);
    let ghost tv = spec_tokens(text@);
    if toks.len() < 2 {
        return KemonoCommandParseResult::ShowHelp;
    }
    let raw = toks[1];
    proof {
        assert(tv[1] == raw@);
    }
    if str_eq(raw, "help") {
        return KemonoCommandParseResult::ShowHelp;
    }
    let mut as_telegraph = false;
    let mut as_media = false;
    let mut as_archive = toks.len() == 2;
    let mut k: usize = 2;
    while k < toks.len()
        invariant
            2 <= k <= toks@.len(),
            toks@.map_values(|t: &str| t@) == tv,
            tv.len() == toks@.len(),
            as_telegraph == exists|q: int| 2 <= q < k && tv[q] == "telegraph"@,
            as_media == exists|q: int| 2 <= q < k && tv[q] == "media"@,
            as_archive == (toks@.len() == 2 || exists|q: int| 2 <= q < k && tv[q] == "archive"@),
        decreases toks@.len() - k,
    {
        let word = toks[k];
        proof {
            assert(tv[k as int] == word@);
        }
        if str_eq(word, "telegraph") {
            as_telegraph = true;
        }
        if str_eq(word, "media") {
            as_media = true;
        }
        if str_eq(word, "archive") {
            as_archive = true;
        }
        k = k + 1;
    }
    let param = KemonoCommandParam { as_telegraph, as_media, as_archive };
    proof {
        assert(param_matches(param, tv));
    }
    match parse_kemono_link(raw) {
        Some(parts) => {
            let (service, user_id, post_id) = parts;
            return KemonoCommandParseResult::Kemono(
                KemonoRequest { service, user_id, post_id, param },
            );
        },
        None => {},
    }
    match parse_fanbox_link(raw) {
        Some(parts) => {
            let (username, post_id) = parts;
            KemonoCommandParseResult::Fanbox(FanboxRequest { username, post_id, param })
        },
        None => KemonoCommandParseResult::InvalidLink,
    }
}

} // verus!
