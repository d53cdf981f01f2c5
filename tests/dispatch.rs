use shikenmatrix::media::{MediaMetadata, PlaybackState};
use shikenmatrix::reporter::media_update_for;
use shikenmatrix::{Reporter, ReporterConfig, WindowInfo};

fn config(enabled: bool, media: bool) -> ReporterConfig {
    ReporterConfig {
        enabled,
        ws_url: "wss://collector.example.com/ws".to_string(),
        token: "t".to_string(),
        enable_media_reporting: media,
    }
}

fn window(title: &str) -> WindowInfo {
    WindowInfo {
        title: title.to_string(),
        process_name: "editor".to_string(),
        pid: 42,
        app_id: Some("editor".to_string()),
        icon_data: Some(vec![1, 2, 3]),
    }
}

fn metadata(id: &str, art: Option<Vec<u8>>) -> MediaMetadata {
    MediaMetadata {
        bundle_identifier: Some("player".to_string()),
        title: Some("Song".to_string()),
        artist: Some("Singer".to_string()),
        album: None,
        duration_ms: 200_500,
        artwork_data: art,
        artwork_mime_type: Some("image/png".to_string()),
        content_item_identifier: Some(id.to_string()),
    }
}

fn playing() -> PlaybackState {
    PlaybackState { playing: true, playback_rate_milli: 1000, elapsed_ms: 1_499 }
}

#[test]
fn identical_window_sent_once() {
    let mut r: Reporter<u32> = Reporter::new(config(true, true));
    r.set_window_callback(Some(7));
    let first = r.send_window_info(&window("a"));
    let second = r.send_window_info(&window("a"));
    assert!(first.send);
    assert_eq!(first.callback, Some(7));
    assert!(!second.send);
    assert_eq!(second.callback, None);
    assert!(r.send_window_info(&window("b")).send);
    let mut changed_icon = window("b");
    changed_icon.icon_data = None;
    assert!(r.send_window_info(&changed_icon).send);
}

#[test]
fn disabled_reporter_sends_nothing() {
    let mut r: Reporter<u32> = Reporter::new(config(false, true));
    assert!(!r.send_window_info(&window("a")).send);
    assert!(!r.send_media_playback(&metadata("x", None), &playing()).send);
    let id = "x".to_string();
    assert!(!r.claim_artwork_upload(&id));
    let rep = r.report_playback(&Some(playing()), &Some(metadata("x", Some(vec![1]))));
    assert!(rep.upload.is_none());
    assert!(!rep.media.send);
}

#[test]
fn media_reporting_switch() {
    let mut r: Reporter<u32> = Reporter::new(config(true, false));
    assert!(!r.send_media_playback(&metadata("x", None), &playing()).send);
    r.update_config(config(true, true));
    assert!(r.config().enable_media_reporting);
    assert!(r.send_media_playback(&metadata("x", None), &playing()).send);
    assert!(!r.send_media_playback(&metadata("x", None), &playing()).send);
    let later = PlaybackState { elapsed_ms: 5_000, ..playing() };
    assert!(r.send_media_playback(&metadata("x", None), &later).send);
}

#[test]
fn playing_sample_with_new_artwork_uploads_once() {
    let mut r: Reporter<u32> = Reporter::new(config(true, true));
    r.set_media_callback(Some(3));
    let m = Some(metadata("track", Some(vec![9, 9])));
    let first = r.report_playback(&Some(playing()), &m);
    let up = first.upload.expect("one upload");
    assert_eq!(up.content_id, "track");
    assert_eq!(up.data, vec![9, 9]);
    assert_eq!(up.mime_type, "image/png");
    assert!(first.media.send);
    assert_eq!(first.media.callback, Some(3));
    let second = r.report_playback(&Some(playing()), &m);
    assert!(second.upload.is_none());
    assert!(!second.media.send);
    let id = "track".to_string();
    assert!(r.was_uploaded(&id));
}

#[test]
fn paused_or_empty_sample_is_not_reported() {
    let mut r: Reporter<u32> = Reporter::new(config(true, true));
    let paused = PlaybackState { playing: false, ..playing() };
    let rep = r.report_playback(&Some(paused), &Some(metadata("t", Some(vec![1]))));
    assert!(rep.upload.is_none() && !rep.media.send);
    let rep = r.report_playback(&None, &Some(metadata("t", Some(vec![1]))));
    assert!(rep.upload.is_none() && !rep.media.send);
    let rep = r.report_playback(&Some(playing()), &None);
    assert!(rep.upload.is_none() && !rep.media.send);
}

#[test]
fn media_thumbnail_is_the_uploaded_url() {
    let m = metadata("track", Some(vec![1]));
    let u = media_update_for(&m, &playing(), "https://cdn.example.com/a.webp");
    assert_eq!(u.album_thumbnail, "https://cdn.example.com/a.webp");
    assert_eq!(u.duration, 201);
    assert_eq!(u.elapsed_time, 1);
    assert_eq!(u.title, "Song");
    assert_eq!(u.process_name, "player");
}

#[test]
fn callbacks_replace_each_other() {
    let mut r: Reporter<u32> = Reporter::new(config(true, true));
    r.set_log_callback(Some(1));
    r.set_log_callback(Some(2));
    assert_eq!(r.log_callback(), Some(2));
    r.set_log_callback(None);
    assert_eq!(r.log_callback(), None);
    assert!(!r.is_connected());
    r.set_connected(true);
    assert!(r.is_connected());
}
