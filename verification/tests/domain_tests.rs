use bulkfetch::download::{path_to_filename, DownloadedFile, FileBaseExt};
use bulkfetch::helper::download::{get_telegram_file_link, TelegramFileInfo};
use bulkfetch::helper::log::{MessageTimestampDisplay, MessageTimestampFormat};
use bulkfetch::helper::name_utils::{chat_name, user_name};
use bulkfetch::kemono::post::KemonoFile;
use bulkfetch::kemono::telegraph::{check_file_type, FileType};
use bulkfetch::kemono::DownloadTask;
use bulkfetch::monitor::rules::FilterRule;
use bulkfetch::pixiv::helper::{
    have_spoiler, illust_caption, illust_caption_detailed, page_file_name, page_limit_rejects,
    pick_reference_url,
};
use bulkfetch::pixiv::types::{IllustRequest, SendMode};
use bulkfetch::pixiv::config::PixivConfig;
use bulkfetch::pixiv::types::{IllustInfo, ImageUrls, Tag, Tags};
use bulkfetch::sticker::StickerCommand;
use bulkfetch::telegraph::types::{Node, NodeElement};
use bulkfetch::types::{ChatSender, FileName};

fn info_with_tags(tags: Vec<&str>) -> IllustInfo {
    IllustInfo {
        id: "123".into(),
        title: "Work".into(),
        description: String::new(),
        author_id: "77".into(),
        author_name: "Artist".into(),
        page_count: 3,
        urls: ImageUrls { mini: None, thumb: None, small: None, regular: None, original: None },
        tags: Tags {
            tags: tags
                .into_iter()
                .map(|t| Tag { tag: t.to_string(), romaji: None, translation: None })
                .collect(),
        },
    }
}

fn pixiv_config(nsfw: bool, r18g: bool) -> PixivConfig {
    PixivConfig {
        client_user_agent: None,
        php_sessid: None,
        enable_link_detection: false,
        spoiler_nsfw: nsfw,
        spoiler_r18g: r18g,
    }
}

#[test]
fn spoiler_rules() {
    let plain = info_with_tags(vec!["scenery"]);
    let nsfw = info_with_tags(vec!["R-18"]);
    let r18g = info_with_tags(vec!["R-18G"]);
    assert!(!have_spoiler(&pixiv_config(true, true), &plain));
    assert!(have_spoiler(&pixiv_config(true, false), &nsfw));
    assert!(!have_spoiler(&pixiv_config(false, true), &nsfw));
    assert!(have_spoiler(&pixiv_config(false, true), &r18g));
    assert!(have_spoiler(&pixiv_config(true, false), &r18g));
}

#[test]
fn caption_exact_text() {
    let info = info_with_tags(vec!["scenery"]);
    assert_eq!(
        illust_caption(&info, Some(2)),
        "<a href=\"https://www.pixiv.net/artworks/123\">Work</a> / \
         <a href=\"https://www.pixiv.net/users/77\">Artist</a> (2/3)"
    );
    let nsfw = info_with_tags(vec!["R-18"]);
    assert_eq!(
        illust_caption(&nsfw, None),
        "#NSFW <a href=\"https://www.pixiv.net/artworks/123\">Work</a> / \
         <a href=\"https://www.pixiv.net/users/77\">Artist</a>"
    );
}

#[test]
fn detailed_caption_exact_text() {
    let mut info = info_with_tags(vec![]);
    info.description = "line one<br />line two".into();
    info.tags = Tags {
        tags: vec![
            Tag {
                tag: "R-18".into(),
                romaji: None,
                translation: Some(vec![("en".into(), "adult".into())]),
            },
            Tag { tag: "fan-art".into(), romaji: None, translation: None },
        ],
    };
    let text = illust_caption_detailed(&info);
    assert_eq!(
        text,
        "<b>Work</b>\n\
         <blockquote expandable>line one\nline two</blockquote>\n\n\
         Artist: <a href=\"https://www.pixiv.net/users/77\">Artist</a>\n\
         Tags: #R18 (adult)  #fanart  \n\
         Source: https://www.pixiv.net/artworks/123\n"
    );
}

#[test]
fn file_names() {
    let f = FileName::new("doc".to_string(), Some("pdf".to_string()));
    assert_eq!(f.extension_str(), "pdf");
    let none = FileName::new("doc".to_string(), None);
    assert_eq!(none.extension_str(), "");
    let parsed = FileName::from_name("archive.tar.gz");
    assert_eq!(parsed.basename, "archive.tar");
    assert_eq!(parsed.extension_str(), "gz");
    let bare = FileName::from_name("README");
    assert_eq!(bare.basename, "README");
    assert_eq!(bare.extension_str(), "");
}

#[test]
fn path_helpers() {
    assert_eq!(path_to_filename("photos/2024/cat.jpg"), "cat.jpg");
    assert_eq!(path_to_filename("cat.jpg"), "cat.jpg");
    assert_eq!(path_to_filename("dir/"), "");
    let info = TelegramFileInfo::new("documents/file_7.webp".to_string(), 512);
    assert_eq!(info.file_name, "file_7.webp");
    assert_eq!(info.file_path, "documents/file_7.webp");
    assert_eq!(info.file_size, 512);
    assert_eq!(
        get_telegram_file_link("TOKEN", "documents/file_7.webp"),
        "https://api.telegram.org/file/botTOKEN/documents/file_7.webp"
    );
}

#[test]
fn names() {
    assert_eq!(user_name(Some("Ada"), None, None), Some("Ada".to_string()));
    assert_eq!(user_name(Some("Ada"), Some("L"), Some("ada")), Some("Ada L".to_string()));
    assert_eq!(user_name(None, None, Some("ada")), Some("ada".to_string()));
    assert_eq!(user_name(None, Some("L"), None), None);
    assert_eq!(chat_name(Some("Group"), Some("grp")), Some("Group".to_string()));
    assert_eq!(chat_name(None, Some("grp")), Some("grp".to_string()));
    assert_eq!(chat_name(None, None), None);
}

#[test]
fn download_task_from_kemono_file() {
    let file = KemonoFile { name: "page.png".into(), path: "/data/ab/page.png".into() };
    let t = DownloadTask::from_kemono_file(file, "01_".to_string());
    assert_eq!(t.url, "https://kemono.cr/data/ab/page.png");
    assert_eq!(t.save_name, "01_page.png");
}

#[test]
fn gallery_request_rules() {
    let req = |mode: SendMode, nolim: bool| IllustRequest {
        id: 1,
        no_page_limit: nolim,
        silent_page_limit: false,
        send_mode: mode,
    };
    assert!(page_limit_rejects(&req(SendMode::Photos, false), 11));
    assert!(!page_limit_rejects(&req(SendMode::Photos, false), 10));
    assert!(!page_limit_rejects(&req(SendMode::Photos, true), 11));
    assert!(!page_limit_rejects(&req(SendMode::Archive, false), 11));
    let urls = ImageUrls {
        mini: None,
        thumb: None,
        small: None,
        regular: Some("r".into()),
        original: Some("o".into()),
    };
    assert_eq!(pick_reference_url(&urls, SendMode::Photos).as_deref(), Some("r"));
    assert_eq!(pick_reference_url(&urls, SendMode::Files).as_deref(), Some("o"));
    assert_eq!(pick_reference_url(&urls, SendMode::Archive).as_deref(), Some("o"));
    assert_eq!(page_file_name("123_p0_master.jpg", 7), "123_p7_master.jpg");
    assert_eq!(page_file_name("123_p0.png", 0), "123_p0.png");
}

#[test]
fn file_type_classification() {
    assert_eq!(check_file_type("photo.png"), FileType::Image);
    assert_eq!(check_file_type("PHOTO.JPG"), FileType::Image);
    assert_eq!(check_file_type("clip.mp4"), FileType::Video);
    assert_eq!(check_file_type("clip.MkV"), FileType::Video);
    assert_eq!(check_file_type("notes.txt"), FileType::Other);
    assert_eq!(check_file_type("no_extension"), FileType::Other);
    assert_eq!(check_file_type("archive.tar.gz"), FileType::Other);
}

#[test]
fn filter_rules() {
    let rule = FilterRule { sender_id: Some(5), chat_id: None, keywords: vec!["alert".into()] };
    let text = "an alert fired".to_string();
    assert!(rule.check_fields(Some(5), 1, Some(&text), None));
    assert!(!rule.check_fields(Some(6), 1, Some(&text), None));
    assert!(!rule.check_fields(None, 1, Some(&text), None));
    let other = "nothing here".to_string();
    assert!(!rule.check_fields(Some(5), 1, Some(&other), None));
    assert!(rule.check_fields(Some(5), 1, None, Some(&text)));
    assert!(!rule.check_fields(Some(5), 1, None, None));
    let open_rule = FilterRule { sender_id: None, chat_id: Some(9), keywords: Vec::new() };
    assert!(open_rule.check_fields(None, 9, None, None));
    assert!(!open_rule.check_fields(None, 8, None, None));
}

#[test]
fn telegraph_nodes() {
    let p = NodeElement::paragraph_text("hello");
    assert_eq!(p.tag, "p");
    assert!(p.attrs.is_none());
    match p.children.as_deref() {
        Some([Node::Text(t)]) => assert_eq!(t, "hello"),
        _ => panic!("expected one text child"),
    }
    let link = NodeElement::link("here", Some("https://example.org"));
    assert_eq!(link.tag, "a");
    let attrs = link.attrs.expect("href attribute");
    assert_eq!(attrs[0].0, "href");
    assert_eq!(attrs[0].1, "https://example.org");
    let img = NodeElement::image("https://example.org/a.png");
    assert_eq!(img.tag, "img");
    assert!(img.children.is_none());
    let video = NodeElement::video("https://example.org/a.mp4");
    assert_eq!(video.tag, "video");
    assert_eq!(NodeElement::h3("t").tag, "h3");
    assert_eq!(NodeElement::h4("t").tag, "h4");
    assert_eq!(NodeElement::paragraph(Vec::new()).tag, "p");
}

#[test]
fn deterministic_names() {
    assert_eq!(bulkfetch::kemono::archive_name("fanbox", "77", "123"), "fanbox_77_123.zip");
    assert_eq!(bulkfetch::sticker::sticker_member_name("pack", "extra", "png"), "pack_extra.png");
    assert_eq!(bulkfetch::sticker::sticker_thumbnail_name("pack", "webp"), "pack_thumbnail.webp");
    assert_eq!(bulkfetch::sticker::sticker_file_name("pack", 0, "webp"), "pack_000.webp");
    assert_eq!(bulkfetch::sticker::sticker_file_name("pack", 12, "png"), "pack_012.png");
    assert_eq!(bulkfetch::sticker::sticker_file_name("pack", 1234, "png"), "pack_1234.png");
    assert_eq!(bulkfetch::numfmt::u64_to_dec3_string(7), "007");
    assert_eq!(bulkfetch::numfmt::u64_to_dec3_string(45), "045");
    assert_eq!(bulkfetch::numfmt::u64_to_dec3_string(456), "456");
    assert_eq!(bulkfetch::numfmt::u64_to_dec3_string(4567), "4567");
}

#[test]
fn small_types() {
    let s = ChatSender::of(10, 20);
    assert_eq!(s.chat_id, 10);
    assert_eq!(s.sender_id, 20);
    let base = FileBaseExt::new("a".into(), "png".into());
    assert_eq!(base.basename, "a");
    assert_eq!(base.extension, "png");
    let file = DownloadedFile::new("a.png".into(), vec![1, 2]);
    assert_eq!(file.file_name, "a.png");
    assert_eq!(file.data, vec![1, 2]);
    assert_eq!(StickerCommand::parse("sticker_convert"), Ok(StickerCommand::StickerConvert));
    assert_eq!(
        StickerCommand::parse("sticker_set_download"),
        Ok(StickerCommand::StickerSetDownload)
    );
    assert_eq!(StickerCommand::parse("other"), Err(()));
    let ts = MessageTimestampDisplay::time(99);
    assert_eq!(ts.timestamp, 99);
    assert_eq!(ts.format, MessageTimestampFormat::Time);
    assert_eq!(MessageTimestampDisplay::date_time(5).format, MessageTimestampFormat::DateTime);
    assert_eq!(bulkfetch::sticker::config::size_limit_kb_default(), 512);
    assert!(!bulkfetch::kemono::config::default_enable_kemono_link_detection());
    assert!(!bulkfetch::kemono::config::default_enable_fanbox_link_detection());
    assert!(!bulkfetch::pixiv::config::default_enable_link_detection());
    assert!(bulkfetch::pixiv::config::default_spoiler_nsfw());
    assert!(bulkfetch::pixiv::config::default_spoiler_r18g());
}
