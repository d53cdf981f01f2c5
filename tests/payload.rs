use shikenmatrix::payload::{build_data, build_media_update, build_report, choose_icon,
    choose_thumbnail, display_process_name, encode_as_base64, hides_inline_cover, report_uploads,
    sniff_mime, IconField, MediaUpdate, ReportInputs};
use shikenmatrix::{MainConfig, Replace, Rule, S3Config, ServerConfig};

fn server(skip: bool, upload: bool, s3: bool) -> ServerConfig {
    ServerConfig {
        endpoint: "https://api.example.com/update".to_string(),
        token: "apikey".to_string(),
        report_time: 5,
        report_smtc: true,
        skip_smtc_cover: skip,
        upload_smtc_cover: upload,
        log_base64: false,
        s3_config: S3Config {
            s3_enable: s3,
            upload_path: String::new(),
            endpoint: String::new(),
            region: String::new(),
            bucket_name: String::new(),
            access_key: String::new(),
            secret_key: String::new(),
            custom_url: String::new(),
        },
    }
}

fn rules() -> Vec<Rule> {
    vec![
        Rule {
            match_application: "WeChat".to_string(),
            replace: Replace { application: "Weixin".to_string(), description: "chat".to_string() },
        },
        Rule {
            match_application: "Netease Cloud Music".to_string(),
            replace: Replace { application: "NCM".to_string(), description: "music".to_string() },
        },
    ]
}

fn update(title: &str) -> MediaUpdate {
    build_media_update(title, "Artist", "Player", "", 200, 30, &Vec::new())
}

#[test]
fn data_uri_png() {
    let png = [0x89u8, 0x50, 0x4E, 0x47, 0x0D, 0x0A, 0x1A, 0x0A];
    assert_eq!(encode_as_base64(&png), "data:image/png;base64,iVBORw0KGgo=");
}

#[test]
fn data_uri_jpeg_gif_webp_and_default() {
    assert_eq!(encode_as_base64(&[0xFF, 0xD8, 0xFF]), "data:image/jpeg;base64,/9j/");
    assert_eq!(encode_as_base64(b"GIF89a"), "data:image/gif;base64,R0lGODlh");
    assert_eq!(sniff_mime(b"GIF87a"), "image/gif");
    assert_eq!(sniff_mime(b"RIFF\0\0\0\0WEBPVP8 "), "image/webp");
    assert_eq!(sniff_mime(b"RIFF\0\0\0\0WEBP"), "image/jpeg");
    assert_eq!(encode_as_base64(b"abc"), "data:image/jpeg;base64,YWJj");
    assert_eq!(encode_as_base64(b""), "data:image/jpeg;base64,");
}

#[test]
fn media_update_applies_first_matching_rule() {
    let m = build_media_update("T", "A", "Netease Cloud Music", "thumb", 10, 3, &rules());
    assert_eq!(m.process_name, "NCM");
    assert_eq!(m.title, "T");
    assert_eq!(m.artist, "A");
    assert_eq!(m.album_thumbnail, "thumb");
    assert_eq!((m.duration, m.elapsed_time), (10, 3));
    let other = build_media_update("T", "A", "Spotify", "", 0, 0, &rules());
    assert_eq!(other.process_name, "Spotify");
}

#[test]
fn report_icon_field_kinds() {
    let d = build_data("chrome\0\0", update("Song"), "key", "https://cdn/x.png", 100);
    assert!(matches!(d.process.icon, IconField::Url(ref u) if u == "https://cdn/x.png"));
    assert_eq!(d.process.name, "chrome");
    assert_eq!(d.process.description, "chrome");
    assert_eq!(d.key, Some("key".to_string()));
    assert_eq!(d.timestamp, 100);
    let inline = build_data("p", update("Song"), "k", "data:image/png;base64,AA==", 1);
    assert!(matches!(inline.process.icon, IconField::Inline(_)));
    let http = build_data("p", update("Song"), "k", "http://x", 1);
    assert!(matches!(http.process.icon, IconField::Url(_)));
    let none = build_data("p", update("Song"), "k", "", 1);
    assert!(matches!(none.process.icon, IconField::Absent));
}

#[test]
fn empty_title_omits_media() {
    let d = build_data("p", update(""), "k", "", 1);
    assert!(d.media.is_none());
    let with = build_data("p", update("Song"), "k", "", 1);
    assert_eq!(with.media.unwrap().title, "Song");
}

#[test]
fn display_form_drops_key_adds_window() {
    let d = build_data("p", update("Song"), "k", "", 1).for_display("Editor\0");
    assert!(d.key.is_none());
    assert_eq!(d.window_name, Some("Editor".to_string()));
}

#[test]
fn exe_suffix_is_removed() {
    assert_eq!(display_process_name("chrome.exe"), "chrome");
    assert_eq!(display_process_name("Code"), "Code");
}

#[test]
fn thumbnail_choice_by_config() {
    let inline = "data:image/png;base64,AA==".to_string();
    assert_eq!(choose_thumbnail(&server(true, true, true), Some("https://u".into()), &inline), "");
    assert_eq!(choose_thumbnail(&server(false, true, true), Some("https://u".into()), &inline), "https://u");
    assert_eq!(choose_thumbnail(&server(false, true, true), Some(String::new()), &inline), inline);
    assert_eq!(choose_thumbnail(&server(false, true, true), None, &inline), inline);
    assert_eq!(choose_thumbnail(&server(false, false, true), Some("https://u".into()), &inline), inline);
    assert_eq!(choose_icon(&server(false, false, true), Some("https://i".into()), &inline), "https://i");
    assert_eq!(choose_icon(&server(false, false, false), Some("https://i".into()), &inline), inline);
}

#[test]
fn inline_cover_hidden_from_log() {
    assert!(hides_inline_cover(&server(false, false, false)));
    assert!(!hides_inline_cover(&server(true, false, false)));
    assert!(!hides_inline_cover(&server(false, true, false)));
}

#[test]
fn full_report_assembly() {
    let cfg = MainConfig { server_config: server(false, true, true), rules: rules() };
    assert_eq!(report_uploads(&cfg), (true, true));
    let inputs = ReportInputs {
        process_name_raw: "WeChat.exe".to_string(),
        window_name: "Chat\0".to_string(),
        icon_bytes: vec![0x89, 0x50, 0x4E, 0x47, 0x0D, 0x0A, 0x1A, 0x0A],
        title: "Song".to_string(),
        artist: "Singer".to_string(),
        source_app_name: "WeChat".to_string(),
        thumbnail_bytes: vec![0xFF, 0xD8, 0xFF],
        duration: 240,
        elapsed_time: 60,
    };
    let b = build_report(&cfg, "secret", &inputs, Some("https://cdn/t.webp".into()), None, 9);
    assert_eq!(b.thumbnail_base64, "data:image/jpeg;base64,/9j/");
    assert_eq!(b.icon_base64, "data:image/png;base64,iVBORw0KGgo=");
    assert_eq!(b.media_update.album_thumbnail, "https://cdn/t.webp");
    assert_eq!(b.media_update.process_name, "Weixin");
    assert_eq!(b.update_data.process.name, "WeChat");
    assert!(matches!(b.update_data.process.icon, IconField::Inline(ref s) if s == "data:image/png;base64,iVBORw0KGgo="));
    assert_eq!(b.update_data.media.as_ref().unwrap().album_thumbnail, "https://cdn/t.webp");
    let shown = b.update_data.for_display(&inputs.window_name);
    assert_eq!(shown.window_name, Some("Chat".to_string()));
}
