//! The media-state cache: a short-lived view of the latest media session that
//! merges consecutive samples of one track so that transient, truncated
//! fields do not flicker through to reports.
//!
//! Times are milliseconds on a monotonic clock supplied by the caller; the
//! playback rate is in thousandths (1000 is normal speed).

use vstd::prelude::*;
use crate::codec::{base64_decode, base64_decoded};
use crate::text::{chars_of, count_matches, count_occurrences};

verus! {

/// How long a sample stays fresh, in milliseconds.
pub const CACHE_DURATION_MS: u64 = 200;

/// How long after a full sample a same-track sample counts as rapid.
pub const RAPID_UPDATE_MS: u64 = 3000;

/// One raw reading of the host's now-playing session.
pub struct NowPlayingInfo {
    pub bundle_identifier: String,
    pub title: String,
    pub artist: Option<String>,
    pub album: Option<String>,
    pub duration_ms: Option<u64>,
    pub elapsed_ms: Option<u64>,
    pub playback_rate_milli: Option<u64>,
    pub playing: bool,
    /// Artwork as standard base64 text.
    pub artwork_data: Option<String>,
    pub artwork_mime_type: Option<String>,
}

/// Track metadata as reported to consumers.
pub struct MediaMetadata {
    pub bundle_identifier: Option<String>,
    pub title: Option<String>,
    pub artist: Option<String>,
    pub album: Option<String>,
    pub duration_ms: u64,
    /// Decoded artwork bytes.
    pub artwork_data: Option<Vec<u8>>,
    pub artwork_mime_type: Option<String>,
    pub content_item_identifier: Option<String>,
}

/// Transport state of the session.
#[derive(Clone, Copy, PartialEq, Eq, Debug, Structural)]
pub struct PlaybackState {
    pub playing: bool,
    pub playback_rate_milli: u64,
    pub elapsed_ms: u64,
}

/// What the sensor answered when asked for the session.
pub enum SensorReading {
    /// A session is active.
    Session(NowPlayingInfo),
    /// No media session exists.
    NoSession,
    /// The sensor failed or faulted.
    Fault,
}

/// The single cache entry.
pub struct MediaCache {
    pub metadata: Option<MediaMetadata>,
    pub playback_state: Option<PlaybackState>,
    /// When the entry was last written; `None` before the first sample.
    pub last_update_ms: Option<u64>,
    /// Content key of the track whose artwork the entry holds.
    pub artwork_key: Option<String>,
    /// When a sample last brought a new track or a non-empty artist.
    pub last_full_metadata_ms: Option<u64>,
}

pub open spec fn opt_view(o: Option<String>) -> Option<Seq<char>> {
    match o {
        Some(s) => Some(s@),
        None => None,
    }
}

pub open spec fn opt_bytes(o: Option<Vec<u8>>) -> Option<Seq<u8>> {
    match o {
        Some(v) => Some(v@),
        None => None,
    }
}

pub struct NowPlayingView {
    pub bundle_identifier: Seq<char>,
    pub title: Seq<char>,
    pub artist: Option<Seq<char>>,
    pub album: Option<Seq<char>>,
    pub duration_ms: Option<u64>,
    pub elapsed_ms: Option<u64>,
    pub playback_rate_milli: Option<u64>,
    pub playing: bool,
    pub artwork_data: Option<Seq<char>>,
    pub artwork_mime_type: Option<Seq<char>>,
}

pub struct MetadataView {
    pub bundle_identifier: Option<Seq<char>>,
    pub title: Option<Seq<char>>,
    pub artist: Option<Seq<char>>,
    pub album: Option<Seq<char>>,
    pub duration_ms: u64,
    pub artwork_data: Option<Seq<u8>>,
    pub artwork_mime_type: Option<Seq<char>>,
    pub content_item_identifier: Option<Seq<char>>,
}

pub struct CacheView {
    pub metadata: Option<MetadataView>,
    pub playback_state: Option<PlaybackState>,
    pub last_update_ms: Option<u64>,
    pub artwork_key: Option<Seq<char>>,
    pub last_full_metadata_ms: Option<u64>,
}

impl View for NowPlayingInfo {
    type V = NowPlayingView;

    open spec fn view(&self) -> NowPlayingView {
        NowPlayingView {
            bundle_identifier: self.bundle_identifier@,
            title: self.title@,
            artist: opt_view(self.artist),
            album: opt_view(self.album),
            duration_ms: self.duration_ms,
            elapsed_ms: self.elapsed_ms,
            playback_rate_milli: self.playback_rate_milli,
            playing: self.playing,
            artwork_data: opt_view(self.artwork_data),
            artwork_mime_type: opt_view(self.artwork_mime_type),
        }
    }
}

impl View for MediaMetadata {
    type V = MetadataView;

    open spec fn view(&self) -> MetadataView {
        MetadataView {
            bundle_identifier: opt_view(self.bundle_identifier),
            title: opt_view(self.title),
            artist: opt_view(self.artist),
            album: opt_view(self.album),
            duration_ms: self.duration_ms,
            artwork_data: opt_bytes(self.artwork_data),
            artwork_mime_type: opt_view(self.artwork_mime_type),
            content_item_identifier: opt_view(self.content_item_identifier),
        }
    }
}

pub open spec fn opt_metadata_view(o: Option<MediaMetadata>) -> Option<MetadataView> {
    match o {
        Some(m) => Some(m@),
        None => None,
    }
}

impl View for MediaCache {
    type V = CacheView;

    open spec fn view(&self) -> CacheView {
        CacheView {
            metadata: opt_metadata_view(self.metadata),
            playback_state: self.playback_state,
            last_update_ms: self.last_update_ms,
            artwork_key: opt_view(self.artwork_key),
            last_full_metadata_ms: self.last_full_metadata_ms,
        }
    }
}

/// Time since `t`, or zero when the clock reads earlier than `t`.
pub open spec fn elapsed_since(now: u64, t: u64) -> nat {
    if now >= t {
        (now - t) as nat
    } else {
        0
    }
}

/// The content key of a track: app id, title and album joined by `:`.
pub open spec fn content_key(bundle: Seq<char>, title: Seq<char>, album: Option<Seq<char>>) -> Seq<char> {
    bundle + seq![':'] + title + seq![':'] + match album {
        Some(a) => a,
        None => Seq::empty(),
    }
}

pub open spec fn key_of(info: NowPlayingView) -> Seq<char> {
    content_key(info.bundle_identifier, info.title, info.album)
}

/// Joiner markers counted in an artist string.
pub open spec fn artist_separators(a: Seq<char>) -> nat {
    count_matches(a, seq!['/']) + count_matches(a, seq!['&']) + count_matches(
        a,
        seq![' ', 'f', 'e', 'a', 't'],
    ) + count_matches(a, seq![' ', 'f', 't', '.']) + count_matches(a, seq![' ', 'f', 't', ' '])
        + count_matches(a, seq!['\u{3001}'])
}

/// Whether a rapid same-track sample with artist `new` looks like a degraded
/// form of the cached artist `old`: fewer joiner markers, or well under its
/// length.
pub open spec fn keeps_cached_artist(old: Seq<char>, new: Seq<char>) -> bool {
    (artist_separators(old) > 0 && artist_separators(new) < artist_separators(old)) || (new.len()
        > 0 && new.len() < old.len() * 3 / 5)
}

pub open spec fn is_rapid(c: CacheView, key: Seq<char>, now: u64) -> bool {
    c.artwork_key == Some(key) && c.last_full_metadata_ms.is_some() && elapsed_since(
        now,
        c.last_full_metadata_ms.unwrap(),
    ) < RAPID_UPDATE_MS
}

pub open spec fn cached_artist(c: CacheView) -> Option<Seq<char>> {
    match c.metadata {
        Some(m) => m.artist,
        None => None,
    }
}

pub open spec fn merged_artist(c: CacheView, info: NowPlayingView, now: u64) -> Option<Seq<char>> {
    let preserve = is_rapid(c, key_of(info), now) && cached_artist(c).is_some()
        && info.artist.is_some() && keeps_cached_artist(
        cached_artist(c).unwrap(),
        info.artist.unwrap(),
    );
    if preserve {
        cached_artist(c)
    } else {
        info.artist
    }
}

pub open spec fn cached_artwork(c: CacheView) -> Option<Seq<u8>> {
    match c.metadata {
        Some(m) => m.artwork_data,
        None => None,
    }
}

pub open spec fn cached_mime(c: CacheView) -> Option<Seq<char>> {
    match c.metadata {
        Some(m) => m.artwork_mime_type,
        None => None,
    }
}

/// Artwork bytes and MIME type after a sample: the cached pair when the
/// track is unchanged and artwork is cached, else the sample's decoded
/// artwork (none when absent or undecodable).
pub open spec fn merged_artwork(c: CacheView, info: NowPlayingView) -> (Option<Seq<u8>>, Option<Seq<char>>) {
    if c.artwork_key == Some(key_of(info)) && cached_artwork(c).is_some() {
        (cached_artwork(c), cached_mime(c))
    } else if info.artwork_data.is_some() {
        match base64_decoded(info.artwork_data.unwrap()) {
            Some(b) => (Some(b), info.artwork_mime_type),
            None => (None, None),
        }
    } else {
        (None, None)
    }
}

pub open spec fn non_empty(s: Seq<char>) -> Option<Seq<char>> {
    if s.len() == 0 {
        None
    } else {
        Some(s)
    }
}

pub open spec fn merged_metadata(c: CacheView, info: NowPlayingView, now: u64) -> MetadataView {
    MetadataView {
        bundle_identifier: non_empty(info.bundle_identifier),
        title: non_empty(info.title),
        artist: merged_artist(c, info, now),
        album: info.album,
        duration_ms: match info.duration_ms {
            Some(d) => d,
            None => 0,
        },
        artwork_data: merged_artwork(c, info).0,
        artwork_mime_type: merged_artwork(c, info).1,
        content_item_identifier: Some(key_of(info)),
    }
}

pub open spec fn playback_of(info: NowPlayingView) -> PlaybackState {
    PlaybackState {
        playing: info.playing,
        playback_rate_milli: match info.playback_rate_milli {
            Some(r) => r,
            None => if info.playing {
                1000
            } else {
                0
            },
        },
        elapsed_ms: match info.elapsed_ms {
            Some(e) => e,
            None => 0,
        },
    }
}

/// The cache after taking in one session sample at time `now`.
pub open spec fn cache_after_sample(c: CacheView, info: NowPlayingView, now: u64) -> CacheView {
    let full = c.artwork_key != Some(key_of(info)) || (info.artist.is_some()
        && info.artist.unwrap().len() > 0);
    CacheView {
        metadata: Some(merged_metadata(c, info, now)),
        playback_state: Some(playback_of(info)),
        last_update_ms: Some(now),
        artwork_key: Some(key_of(info)),
        last_full_metadata_ms: if full {
            Some(now)
        } else {
            c.last_full_metadata_ms
        },
    }
}

/// The cache after the sensor reported that no session exists.
pub open spec fn cache_after_no_session(c: CacheView, now: u64) -> CacheView {
    CacheView { metadata: None, playback_state: None, last_update_ms: Some(now), ..c }
}

pub open spec fn cache_after_reading(c: CacheView, r: SensorReading, now: u64) -> CacheView {
    match r {
        SensorReading::Session(info) => cache_after_sample(c, info@, now),
        SensorReading::NoSession => cache_after_no_session(c, now),
        SensorReading::Fault => c,
    }
}

pub open spec fn is_fresh(c: CacheView, now: u64) -> bool {
    c.last_update_ms.is_some() && elapsed_since(now, c.last_update_ms.unwrap()) < CACHE_DURATION_MS
}

pub fn copy_text(o: &Option<String>) -> (r: Option<String>)
    ensures
        opt_view(r) == opt_view(*o),
{
    match o {
        Some(s) => Some(s.clone()),
        None => None,
    }
}

pub fn copy_bytes(v: &Vec<u8>) -> (r: Vec<u8>)
    ensures
        r@ == v@,
{
    let mut out: Vec<u8> = Vec::new();
    let mut i: usize = 0;
    while i < v.len()
        invariant
            i <= v.len(),
            out@ == v@.subrange(0, i as int),
        decreases v.len() - i,
    {
        out.push(v[i]);
        i = i + 1;
    }
    assert(out@ =~= v@);
    out
}

fn copy_opt_bytes(o: &Option<Vec<u8>>) -> (r: Option<Vec<u8>>)
    ensures
        opt_bytes(r) == opt_bytes(*o),
{
    match o {
        Some(v) => Some(copy_bytes(v)),
        None => None,
    }
}

impl MediaMetadata {
    /// An independent copy with the same contents.
    pub fn copied(&self) -> (r: MediaMetadata)
        ensures
            r@ == self@,
    {
        MediaMetadata {
            bundle_identifier: copy_text(&self.bundle_identifier),
            title: copy_text(&self.title),
            artist: copy_text(&self.artist),
            album: copy_text(&self.album),
            duration_ms: self.duration_ms,
            artwork_data: copy_opt_bytes(&self.artwork_data),
            artwork_mime_type: copy_text(&self.artwork_mime_type),
            content_item_identifier: copy_text(&self.content_item_identifier),
        }
    }
}

fn copy_opt_metadata(o: &Option<MediaMetadata>) -> (r: Option<MediaMetadata>)
    ensures
        opt_metadata_view(r) == opt_metadata_view(*o),
{
    match o {
        Some(m) => Some(m.copied()),
        None => None,
    }
}

fn elapsed_ms(now: u64, t: u64) -> (r: u64)
    ensures
        r == elapsed_since(now, t),
{
    if now >= t {
        now - t
    } else {
        0
    }
}

/// The text, or empty when there is none.
pub fn text_or_empty(o: &Option<String>) -> (r: String)
    ensures
        r@ == match opt_view(*o) {
            Some(a) => a,
            None => Seq::<char>::empty(),
        },
{
    match o {
        Some(a) => a.clone(),
        None => String::new(),
    }
}

/// The content key of a sample: `app:title:album`.
pub fn content_key_of(info: &NowPlayingInfo) -> (r: String)
    ensures
        r@ == key_of(info@),
{
    let sep = ":";
    proof {
        reveal_strlit(":");
    }
    assert(sep@ =~= seq![':']);
    let mut k = info.bundle_identifier.clone();
    k.append(sep);
    k.append(info.title.as_str());
    k.append(sep);
    let album = text_or_empty(&info.album);
    k.append(album.as_str());
    k
}

/// Counts the joiner markers in an artist string.
pub fn count_artist_separators(artist: &str) -> (r: u128)
    ensures
        r == artist_separators(artist@),
{
    let a = chars_of(artist);
    let p1 = vec!['/'];
    let p2 = vec!['&'];
    let p3 = vec![' ', 'f', 'e', 'a', 't'];
    let p4 = vec![' ', 'f', 't', '.'];
    let p5 = vec![' ', 'f', 't', ' '];
    let p6 = vec!['\u{3001}'];
    assert(p1@ =~= seq!['/']);
    assert(p2@ =~= seq!['&']);
    assert(p3@ =~= seq![' ', 'f', 'e', 'a', 't']);
    assert(p4@ =~= seq![' ', 'f', 't', '.']);
    assert(p5@ =~= seq![' ', 'f', 't', ' ']);
    assert(p6@ =~= seq!['\u{3001}']);
    let n1 = count_occurrences(&a, &p1);
    let n2 = count_occurrences(&a, &p2);
    let n3 = count_occurrences(&a, &p3);
    let n4 = count_occurrences(&a, &p4);
    let n5 = count_occurrences(&a, &p5);
    let n6 = count_occurrences(&a, &p6);
    n1 as u128 + n2 as u128 + n3 as u128 + n4 as u128 + n5 as u128 + n6 as u128
}

/// Whether a rapid same-track sample should keep the cached artist.
pub fn should_keep_cached_artist(old: &str, new: &str) -> (r: bool)
    ensures
        r == keeps_cached_artist(old@, new@),
{
    let old_sep = count_artist_separators(old);
    let new_sep = count_artist_separators(new);
    let old_len = old.unicode_len() as u128;
    let new_len = new.unicode_len() as u128;
    (old_sep > 0 && new_sep < old_sep) || (new_len > 0 && new_len < old_len * 3 / 5)
}

/// Merges one session sample into the cache entry.
pub fn update_cache_from_info(info: &NowPlayingInfo, cache: &mut MediaCache, now: u64)
    ensures
        final(cache)@ == cache_after_sample(old(cache)@, info@, now),
{
    let new_key = content_key_of(info);
    let key_changed = match &cache.artwork_key {
        Some(k) => !k.eq(&new_key),
        None => true,
    };
    assert(key_changed == (old(cache)@.artwork_key != Some(key_of(info@))));
    let rapid = !key_changed && match cache.last_full_metadata_ms {
        Some(t) => elapsed_ms(now, t) < RAPID_UPDATE_MS,
        None => false,
    };
    let preserve = rapid && match (&cache.metadata, &info.artist) {
        (Some(m), Some(new_artist)) => match &m.artist {
            Some(old_artist) => should_keep_cached_artist(old_artist.as_str(), new_artist.as_str()),
            None => false,
        },
        _ => false,
    };
    let artist = if preserve {
        match &cache.metadata {
            Some(m) => copy_text(&m.artist),
            None => None,
        }
    } else {
        copy_text(&info.artist)
    };
    let has_cached_art = match &cache.metadata {
        Some(m) => m.artwork_data.is_some(),
        None => false,
    };
    let (artwork_data, artwork_mime_type) = if !key_changed && has_cached_art {
        match &cache.metadata {
            Some(m) => (copy_opt_bytes(&m.artwork_data), copy_text(&m.artwork_mime_type)),
            None => (None, None),
        }
    } else {
        match &info.artwork_data {
            Some(b64) => match base64_decode(b64.as_str()) {
                Some(bytes) => (Some(bytes), copy_text(&info.artwork_mime_type)),
                None => (None, None),
            },
            None => (None, None),
        }
    };
    let bundle_identifier = if info.bundle_identifier.unicode_len() == 0 {
        None
    } else {
        Some(info.bundle_identifier.clone())
    };
    let title = if info.title.unicode_len() == 0 {
        None
    } else {
        Some(info.title.clone())
    };
    let full = key_changed || match &info.artist {
        Some(a) => a.unicode_len() > 0,
        None => false,
    };
    let playing = info.playing;
    cache.metadata = Some(
        MediaMetadata {
            bundle_identifier,
            title,
            artist,
            album: copy_text(&info.album),
            duration_ms: match info.duration_ms {
                Some(d) => d,
                None => 0,
            },
            artwork_data,
            artwork_mime_type,
            content_item_identifier: Some(new_key.clone()),
        },
    );
    cache.playback_state = Some(
        PlaybackState {
            playing,
            playback_rate_milli: match info.playback_rate_milli {
                Some(r) => r,
                None => if playing {
                    1000
                } else {
                    0
                },
            },
            elapsed_ms: match info.elapsed_ms {
                Some(e) => e,
                None => 0,
            },
        },
    );
    cache.artwork_key = Some(new_key);
    cache.last_update_ms = Some(now);
    if full {
        cache.last_full_metadata_ms = Some(now);
    }
}

/// What a read returns after the sensor was asked: nothing on a fault.
pub open spec fn metadata_read(r: SensorReading, after: CacheView) -> Option<MetadataView> {
    match r {
        SensorReading::Fault => None,
        _ => after.metadata,
    }
}

pub open spec fn playback_read(r: SensorReading, after: CacheView) -> Option<PlaybackState> {
    match r {
        SensorReading::Fault => None,
        _ => after.playback_state,
    }
}

impl MediaCache {
    /// An empty entry that no read finds fresh.
    pub fn new() -> (r: MediaCache)
        ensures
            r@ == (CacheView {
                metadata: None,
                playback_state: None,
                last_update_ms: None,
                artwork_key: None,
                last_full_metadata_ms: None,
            }),
    {
        MediaCache {
            metadata: None,
            playback_state: None,
            last_update_ms: None,
            artwork_key: None,
            last_full_metadata_ms: None,
        }
    }

    /// Whether the entry was written less than the cache duration ago.
    pub fn is_cache_valid(&self, now: u64) -> (r: bool)
        ensures
            r == is_fresh(self@, now),
    {
        match self.last_update_ms {
            Some(t) => elapsed_ms(now, t) < CACHE_DURATION_MS,
            None => false,
        }
    }

    /// Takes in what the sensor answered. A fault leaves the entry untouched.
    pub fn record_reading(&mut self, reading: SensorReading, now: u64)
        ensures
            final(self)@ == cache_after_reading(old(self)@, reading, now),
    {
        match reading {
            SensorReading::Session(info) => update_cache_from_info(&info, self, now),
            SensorReading::NoSession => {
                self.metadata = None;
                self.playback_state = None;
                self.last_update_ms = Some(now);
            },
            SensorReading::Fault => {},
        }
    }

    /// The current metadata. A fresh entry answers without calling `sense`;
    /// otherwise `sense` is called once and its reading taken in.
    pub fn get_media_metadata<F: FnOnce() -> SensorReading>(&mut self, now: u64, sense: F) -> (r:
        Option<MediaMetadata>)
        requires
            sense.requires(()),
        ensures
            is_fresh(old(self)@, now) ==> final(self)@ == old(self)@ && opt_metadata_view(r)
                == old(self)@.metadata,
            !is_fresh(old(self)@, now) ==> exists|reading: SensorReading|
                #[trigger] sense.ensures((), reading) && final(self)@ == cache_after_reading(
                    old(self)@,
                    reading,
                    now,
                ) && opt_metadata_view(r) == metadata_read(reading, final(self)@),
    {
        if self.is_cache_valid(now) {
            return copy_opt_metadata(&self.metadata);
        }
        let reading = sense();
        let fault = match reading {
            SensorReading::Fault => true,
            _ => false,
        };
        self.record_reading(reading, now);
        if fault {
            None
        } else {
            copy_opt_metadata(&self.metadata)
        }
    }

    /// The current playback state, read as `get_media_metadata` reads.
    pub fn get_playback_state<F: FnOnce() -> SensorReading>(&mut self, now: u64, sense: F) -> (r:
        Option<PlaybackState>)
        requires
            sense.requires(()),
        ensures
            is_fresh(old(self)@, now) ==> final(self)@ == old(self)@ && r == old(
                self,
            )@.playback_state,
            !is_fresh(old(self)@, now) ==> exists|reading: SensorReading|
                #[trigger] sense.ensures((), reading) && final(self)@ == cache_after_reading(
                    old(self)@,
                    reading,
                    now,
                ) && r == playback_read(reading, final(self)@),
    {
        if self.is_cache_valid(now) {
            return self.playback_state;
        }
        let reading = sense();
        let fault = match reading {
            SensorReading::Fault => true,
            _ => false,
        };
        self.record_reading(reading, now);
        if fault {
            None
        } else {
            self.playback_state
        }
    }
}

/// A rapid sample of the same track whose artist looks degraded keeps the
/// cached artist.
pub proof fn lemma_rapid_sample_keeps_artist(c: CacheView, info: NowPlayingView, now: u64)
    requires
        is_rapid(c, key_of(info), now),
        cached_artist(c).is_some(),
        info.artist.is_some(),
        keeps_cached_artist(cached_artist(c).unwrap(), info.artist.unwrap()),
    ensures
        cache_after_sample(c, info, now).metadata.unwrap().artist == cached_artist(c),
{
}

/// A sample taken when the last full sample is three seconds old or more
/// (or of another track) reports the sampled artist as it is.
pub proof fn lemma_late_sample_takes_artist(c: CacheView, info: NowPlayingView, now: u64)
    requires
        !is_rapid(c, key_of(info), now),
    ensures
        cache_after_sample(c, info, now).metadata.unwrap().artist == info.artist,
{
}

/// Sampling the same track again reuses the cached artwork and MIME type,
/// whatever artwork the sample carries, so nothing is decoded anew.
pub proof fn lemma_same_track_reuses_artwork(c: CacheView, info: NowPlayingView, now: u64)
    requires
        c.artwork_key == Some(key_of(info)),
        cached_artwork(c).is_some(),
    ensures
        cache_after_sample(c, info, now).metadata.unwrap().artwork_data == cached_artwork(c),
        cache_after_sample(c, info, now).metadata.unwrap().artwork_mime_type == cached_mime(c),
{
}

/// After a sample at `t1`, a read at `t2` less than the cache duration later
/// is a hit: it returns the sample's metadata, artwork included, and leaves
/// the entry as it was.
pub proof fn lemma_sample_stays_fresh(c: CacheView, info: NowPlayingView, t1: u64, t2: u64)
    requires
        t1 <= t2,
        t2 - t1 < CACHE_DURATION_MS,
    ensures
        is_fresh(cache_after_sample(c, info, t1), t2),
{
}

} // verus!
