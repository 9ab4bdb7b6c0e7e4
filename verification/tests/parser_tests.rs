use bulkfetch::kemono::parser::{
    parse_fanbox_link as kemono_parse_fanbox_link, parse_kemono_command, parse_kemono_link,
    KemonoCommandParseResult,
};
use bulkfetch::pixiv::parser::{
    parse_fanbox_link, parse_pixiv_command, parse_pixiv_link, FanboxLinkParseResult,
    PixivCommandParseResult, PixivLinkParseResult,
};
use bulkfetch::numfmt::{parse_u64_dec, u64_to_dec_string};
use bulkfetch::strutil::{contains_sub, replace_str, str_eq, tokenize};

#[test]
fn kemono_link_accepts_plain_and_schemed() {
    let want = Some(("fanbox".to_string(), "123".to_string(), "456".to_string()));
    assert_eq!(parse_kemono_link("kemono.cr/fanbox/user/123/post/456"), want);
    assert_eq!(parse_kemono_link("https://kemono.cr/fanbox/user/123/post/456"), want);
    assert_eq!(parse_kemono_link("http://kemono.cr/fanbox/user/123/post/456"), want);
    assert_eq!(parse_kemono_link("https://kemono.cr/fanbox/user/123/post/456?f=1"), want);
    assert_eq!(parse_kemono_link("https://kemono.cr/fanbox/user/123/post/456#frag"), want);
}

#[test]
fn kemono_link_rejects_wrong_shapes() {
    assert_eq!(parse_kemono_link("kemono.cr/fanbox/user/123/post/"), None);
    assert_eq!(parse_kemono_link("kemono.cr/fanbox/user//post/456"), None);
    assert_eq!(parse_kemono_link("kemono.cr//user/123/post/456"), None);
    assert_eq!(parse_kemono_link("kemono.cr/fan2box/user/123/post/456"), None);
    assert_eq!(parse_kemono_link("kemono.cr/fanbox/user/12a/post/456"), None);
    assert_eq!(parse_kemono_link("kemono.cr/fanbox/user/123/post/456x"), None);
    assert_eq!(parse_kemono_link("example.org/fanbox/user/123/post/456"), None);
    assert_eq!(parse_kemono_link("kemono.cr/fanbox/user/123/post/456#a\nb"), None);
}

#[test]
fn fanbox_link_variants() {
    assert_eq!(
        kemono_parse_fanbox_link("https://creator.fanbox.cc/posts/123"),
        Some(("creator".to_string(), Some("123".to_string())))
    );
    assert_eq!(
        kemono_parse_fanbox_link("https://www.fanbox.cc/@creator/posts/123"),
        Some(("creator".to_string(), Some("123".to_string())))
    );
    assert_eq!(
        kemono_parse_fanbox_link("fanbox.cc/@creator"),
        Some(("creator".to_string(), None))
    );
    assert_eq!(
        kemono_parse_fanbox_link("creator.fanbox.cc/posts"),
        Some(("creator".to_string(), None))
    );
    // The kemono shape tolerates one trailing slash.
    assert_eq!(
        kemono_parse_fanbox_link("creator.fanbox.cc/posts/123/"),
        Some(("creator".to_string(), Some("123".to_string())))
    );
    // The generic subdomains name no creator.
    assert_eq!(kemono_parse_fanbox_link("www.fanbox.cc"), None);
    assert_eq!(kemono_parse_fanbox_link("api.fanbox.cc"), None);
    assert_eq!(kemono_parse_fanbox_link("example.org/@creator"), None);
}

#[test]
fn pixiv_fanbox_link_variants() {
    match parse_fanbox_link("creator.fanbox.cc/posts/98") {
        FanboxLinkParseResult::Success { name, post_id } => {
            assert_eq!(name, "creator");
            assert_eq!(post_id, Some(98));
        }
        _ => panic!("expected a parsed link"),
    }
    assert!(matches!(parse_fanbox_link("www.fanbox.cc"), FanboxLinkParseResult::EmptyName));
    assert!(matches!(parse_fanbox_link("example.org"), FanboxLinkParseResult::NotMatch));
    assert!(matches!(
        parse_fanbox_link("creator.fanbox.cc/posts/99999999999999999999"),
        FanboxLinkParseResult::InvalidPostId
    ));
    // The pixiv shape does not tolerate the trailing slash the kemono one does.
    assert!(matches!(
        parse_fanbox_link("creator.fanbox.cc/posts/123/"),
        FanboxLinkParseResult::NotMatch
    ));
}

#[test]
fn pixiv_link_forms() {
    assert!(matches!(
        parse_pixiv_link("https://www.pixiv.net/artworks/123456"),
        PixivLinkParseResult::Success(123456)
    ));
    assert!(matches!(
        parse_pixiv_link("pixiv.net/en/artworks/42"),
        PixivLinkParseResult::Success(42)
    ));
    assert!(matches!(parse_pixiv_link("pixiv.net/i/7"), PixivLinkParseResult::Success(7)));
    assert!(matches!(
        parse_pixiv_link("pixiv.net/member_illust.php?illust_id=99"),
        PixivLinkParseResult::Success(99)
    ));
    // A bare number is not a link.
    assert!(matches!(parse_pixiv_link("123456"), PixivLinkParseResult::NotMatch));
    assert!(matches!(
        parse_pixiv_link("pixiv.net/artworks/99999999999999999999"),
        PixivLinkParseResult::InvalidId
    ));
    assert!(matches!(parse_pixiv_link("pixiv.net/artworks/"), PixivLinkParseResult::NotMatch));
}

#[test]
fn pixiv_command_forms() {
    assert!(matches!(parse_pixiv_command("/pixiv"), PixivCommandParseResult::ShowHelp));
    assert!(matches!(parse_pixiv_command("/pixiv help"), PixivCommandParseResult::ShowHelp));
    match parse_pixiv_command("/pixiv 123456") {
        PixivCommandParseResult::Success(req) => {
            assert_eq!(req.id, 123456);
            assert!(!req.no_page_limit);
            assert!(!req.silent_page_limit);
            assert_eq!(req.send_mode, bulkfetch::pixiv::types::SendMode::Photos);
        }
        _ => panic!("expected a parsed command"),
    }
    match parse_pixiv_command("/pixiv https://www.pixiv.net/artworks/55 nolim files") {
        PixivCommandParseResult::Success(req) => {
            assert_eq!(req.id, 55);
            assert!(req.no_page_limit);
            assert_eq!(req.send_mode, bulkfetch::pixiv::types::SendMode::Files);
        }
        _ => panic!("expected a parsed command"),
    }
    match parse_pixiv_command("/pixiv 55 files archive") {
        PixivCommandParseResult::Success(req) => {
            assert_eq!(req.send_mode, bulkfetch::pixiv::types::SendMode::Archive);
        }
        _ => panic!("expected a parsed command"),
    }
    assert!(matches!(parse_pixiv_command("/pixiv nonsense"), PixivCommandParseResult::InvalidId));
    assert!(matches!(
        parse_pixiv_command("/pixiv 99999999999999999999"),
        PixivCommandParseResult::InvalidId
    ));
}

#[test]
fn kemono_command_forms() {
    assert!(matches!(parse_kemono_command("/kemono"), KemonoCommandParseResult::ShowHelp));
    assert!(matches!(parse_kemono_command("/kemono help"), KemonoCommandParseResult::ShowHelp));
    match parse_kemono_command("/kemono kemono.cr/fanbox/user/1/post/2") {
        KemonoCommandParseResult::Kemono(req) => {
            assert_eq!(req.service, "fanbox");
            assert_eq!(req.user_id, "1");
            assert_eq!(req.post_id, "2");
            // With no trailing words an archive is the default.
            assert!(req.param.as_archive);
            assert!(!req.param.as_telegraph);
            assert!(!req.param.as_media);
        }
        _ => panic!("expected a kemono request"),
    }
    match parse_kemono_command("/kemono kemono.cr/fanbox/user/1/post/2 telegraph") {
        KemonoCommandParseResult::Kemono(req) => {
            // An explicit word list drops the archive default.
            assert!(req.param.as_telegraph);
            assert!(!req.param.as_archive);
        }
        _ => panic!("expected a kemono request"),
    }
    match parse_kemono_command("/kemono creator.fanbox.cc/posts/9 media archive") {
        KemonoCommandParseResult::Fanbox(req) => {
            assert_eq!(req.username, "creator");
            assert_eq!(req.post_id, Some("9".to_string()));
            assert!(req.param.as_media);
            assert!(req.param.as_archive);
        }
        _ => panic!("expected a fanbox request"),
    }
    assert!(matches!(
        parse_kemono_command("/kemono example.org/nothing"),
        KemonoCommandParseResult::InvalidLink
    ));
}

#[test]
fn link_default_previews_only() {
    let p = bulkfetch::kemono::parser::KemonoCommandParam::link_default();
    assert!(p.as_telegraph);
    assert!(!p.as_media);
    assert!(!p.as_archive);
}

#[test]
fn decimal_round_trip_and_overflow() {
    assert_eq!(u64_to_dec_string(0), "0");
    assert_eq!(u64_to_dec_string(907), "907");
    assert_eq!(u64_to_dec_string(u64::MAX), "18446744073709551615");
    assert_eq!(parse_u64_dec("0"), Some(0));
    assert_eq!(parse_u64_dec("18446744073709551615"), Some(u64::MAX));
    assert_eq!(parse_u64_dec("18446744073709551616"), None);
    assert_eq!(parse_u64_dec(""), None);
    assert_eq!(parse_u64_dec("12a"), None);
}

#[test]
fn string_helpers() {
    assert!(str_eq("abc", "abc"));
    assert!(!str_eq("abc", "abd"));
    assert_eq!(tokenize("  a  bb\tccc\n"), vec!["a", "bb", "ccc"]);
    assert_eq!(tokenize(""), Vec::<&str>::new());
    // Word splitting follows the Unicode White_Space property, so a
    // no-break space or an em space separates words too.
    assert_eq!(tokenize("a\u{a0}b\u{2003}c"), vec!["a", "b", "c"]);
    assert_eq!(
        tokenize("/kemono\u{a0}kemono.cr/fanbox/user/1/post/2"),
        vec!["/kemono", "kemono.cr/fanbox/user/1/post/2"]
    );
    assert!(contains_sub("hello world", "lo wo"));
    assert!(!contains_sub("hello world", "low"));
    assert!(contains_sub("anything", ""));
    assert_eq!(replace_str("a<br />b<br />c", "<br />", "\n"), "a\nb\nc");
    assert_eq!(replace_str("R-18-G", "-", ""), "R18G");
}
