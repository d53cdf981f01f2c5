use shikenmatrix::media::{content_key_of, count_artist_separators, should_keep_cached_artist,
    update_cache_from_info};
use shikenmatrix::{MediaCache, NowPlayingInfo, SensorReading};
use std::cell::Cell;

fn sample(artist: Option<&str>, album: Option<&str>, artwork: Option<&str>) -> NowPlayingInfo {
    NowPlayingInfo {
        bundle_identifier: "com.example.player".to_string(),
        title: "Song".to_string(),
        artist: artist.map(|a| a.to_string()),
        album: album.map(|a| a.to_string()),
        duration_ms: Some(180_000),
        elapsed_ms: Some(12_000),
        playback_rate_milli: None,
        playing: true,
        artwork_data: artwork.map(|a| a.to_string()),
        artwork_mime_type: artwork.map(|_| "image/png".to_string()),
    }
}

fn artist_of(cache: &MediaCache) -> Option<String> {
    cache.metadata.as_ref().and_then(|m| m.artist.clone())
}

#[test]
fn rapid_sample_keeps_multi_artist() {
    let mut cache = MediaCache::new();
    update_cache_from_info(&sample(Some("A / B"), Some("Album"), None), &mut cache, 10_000);
    update_cache_from_info(&sample(Some("A"), Some("Album"), None), &mut cache, 11_000);
    assert_eq!(artist_of(&cache), Some("A / B".to_string()));
}

#[test]
fn late_sample_takes_new_artist() {
    let mut cache = MediaCache::new();
    update_cache_from_info(&sample(Some("A / B"), Some("Album"), None), &mut cache, 10_000);
    update_cache_from_info(&sample(Some("A"), Some("Album"), None), &mut cache, 13_500);
    assert_eq!(artist_of(&cache), Some("A".to_string()));
}

#[test]
fn rapid_sample_of_other_track_takes_new_artist() {
    let mut cache = MediaCache::new();
    update_cache_from_info(&sample(Some("A / B"), Some("Album"), None), &mut cache, 10_000);
    update_cache_from_info(&sample(Some("A"), Some("Other"), None), &mut cache, 10_500);
    assert_eq!(artist_of(&cache), Some("A".to_string()));
}

#[test]
fn rapid_sample_with_much_shorter_artist_keeps_cached() {
    let mut cache = MediaCache::new();
    update_cache_from_info(&sample(Some("Long Artist Name"), None, None), &mut cache, 0);
    update_cache_from_info(&sample(Some("Long"), None, None), &mut cache, 100);
    assert_eq!(artist_of(&cache), Some("Long Artist Name".to_string()));
}

#[test]
fn separator_counts() {
    assert_eq!(count_artist_separators("A / B"), 1);
    assert_eq!(count_artist_separators("A feat. B & C"), 2);
    assert_eq!(count_artist_separators("A ft. B"), 1);
    assert_eq!(count_artist_separators("A ft B"), 1);
    assert_eq!(count_artist_separators("X\u{3001}Y\u{3001}Z"), 2);
    assert_eq!(count_artist_separators("Solo"), 0);
    assert_eq!(count_artist_separators(""), 0);
}

#[test]
fn artist_preservation_rule() {
    assert!(should_keep_cached_artist("A / B", "A"));
    assert!(!should_keep_cached_artist("A / B", "A / C"));
    assert!(should_keep_cached_artist("Abcdefghij", "Abcde"));
    assert!(!should_keep_cached_artist("Abcdefghij", "Abcdef"));
    assert!(!should_keep_cached_artist("Abcdefghij", ""));
}

#[test]
fn content_key_joins_app_title_album() {
    assert_eq!(content_key_of(&sample(None, Some("Album"), None)), "com.example.player:Song:Album");
    assert_eq!(content_key_of(&sample(None, None, None)), "com.example.player:Song:");
}

#[test]
fn same_track_reuses_artwork_without_decoding() {
    let mut cache = MediaCache::new();
    update_cache_from_info(&sample(Some("A"), Some("Album"), Some("iVBORw0KGgo=")), &mut cache, 0);
    let first = cache.metadata.as_ref().unwrap().artwork_data.clone();
    assert_eq!(first, Some(vec![0x89, 0x50, 0x4E, 0x47, 0x0D, 0x0A, 0x1A, 0x0A]));
    // The second sample carries undecodable artwork; the cached bytes stay.
    update_cache_from_info(&sample(Some("A"), Some("Album"), Some("not base64!")), &mut cache, 5_000);
    assert_eq!(cache.metadata.as_ref().unwrap().artwork_data, first);
    assert_eq!(cache.metadata.as_ref().unwrap().artwork_mime_type, Some("image/png".to_string()));
}

#[test]
fn new_track_without_artwork_clears_it() {
    let mut cache = MediaCache::new();
    update_cache_from_info(&sample(Some("A"), Some("Album"), Some("iVBORw0KGgo=")), &mut cache, 0);
    update_cache_from_info(&sample(Some("A"), Some("Other"), None), &mut cache, 5_000);
    assert_eq!(cache.metadata.as_ref().unwrap().artwork_data, None);
    assert_eq!(cache.artwork_key, Some("com.example.player:Song:Other".to_string()));
}

#[test]
fn undecodable_artwork_is_dropped() {
    let mut cache = MediaCache::new();
    update_cache_from_info(&sample(Some("A"), None, Some("@@@")), &mut cache, 0);
    assert_eq!(cache.metadata.as_ref().unwrap().artwork_data, None);
    assert_eq!(cache.metadata.as_ref().unwrap().artwork_mime_type, None);
}

#[test]
fn sample_fills_defaults() {
    let mut cache = MediaCache::new();
    let mut info = sample(Some("A"), None, None);
    info.bundle_identifier = String::new();
    info.duration_ms = None;
    info.elapsed_ms = None;
    update_cache_from_info(&info, &mut cache, 42);
    let m = cache.metadata.as_ref().unwrap();
    assert_eq!(m.bundle_identifier, None);
    assert_eq!(m.title, Some("Song".to_string()));
    assert_eq!(m.duration_ms, 0);
    assert_eq!(m.content_item_identifier, Some(":Song:".to_string()));
    let s = cache.playback_state.unwrap();
    assert!(s.playing);
    assert_eq!(s.playback_rate_milli, 1000);
    assert_eq!(s.elapsed_ms, 0);
    assert_eq!(cache.last_update_ms, Some(42));
    let mut paused = sample(Some("A"), None, None);
    paused.playing = false;
    update_cache_from_info(&paused, &mut cache, 50);
    assert_eq!(cache.playback_state.unwrap().playback_rate_milli, 0);
}

#[test]
fn reads_within_ttl_skip_the_sensor() {
    let mut cache = MediaCache::new();
    let calls = Cell::new(0u32);
    let sense = || {
        calls.set(calls.get() + 1);
        SensorReading::Session(sample(Some("A"), Some("Album"), Some("iVBORw0KGgo=")))
    };
    let first = cache.get_media_metadata(1_000, sense).unwrap();
    assert_eq!(calls.get(), 1);
    let second = cache
        .get_media_metadata(1_150, || {
            calls.set(calls.get() + 1);
            SensorReading::NoSession
        })
        .unwrap();
    assert_eq!(calls.get(), 1);
    assert_eq!(first.artwork_data, second.artwork_data);
    assert_eq!(second.title, Some("Song".to_string()));
    assert!(cache.is_cache_valid(1_199));
    assert!(!cache.is_cache_valid(1_200));
}

#[test]
fn stale_read_asks_the_sensor() {
    let mut cache = MediaCache::new();
    cache.get_playback_state(0, || SensorReading::Session(sample(Some("A"), None, None)));
    let calls = Cell::new(0u32);
    let state = cache.get_playback_state(500, || {
        calls.set(calls.get() + 1);
        SensorReading::NoSession
    });
    assert_eq!(calls.get(), 1);
    assert_eq!(state, None);
    assert!(cache.metadata.is_none());
    assert_eq!(cache.last_update_ms, Some(500));
}

#[test]
fn sensor_fault_leaves_cache_untouched() {
    let mut cache = MediaCache::new();
    update_cache_from_info(&sample(Some("A"), Some("Album"), None), &mut cache, 0);
    let r = cache.get_media_metadata(10_000, || SensorReading::Fault);
    assert!(r.is_none());
    assert_eq!(cache.last_update_ms, Some(0));
    assert_eq!(artist_of(&cache), Some("A".to_string()));
}

#[test]
fn first_read_is_never_fresh() {
    let cache = MediaCache::new();
    assert!(!cache.is_cache_valid(0));
}
