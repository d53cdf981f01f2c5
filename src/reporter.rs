//! The report dispatcher. It remembers what it last sent on each channel and
//! lets through only changes; it tracks which tracks' artwork was already
//! handed to the uploader; and it holds at most one host callback per kind.
//!
//! A `Delivery` says what the caller is to do with a snapshot: push it to
//! the remote channel, hand it to a callback, or both. Callbacks are opaque
//! to the dispatcher (`C` is whatever the host registers, such as a function
//! pointer with its user data).

use vstd::prelude::*;
use crate::config::ReporterConfig;
use crate::media::{copy_bytes, copy_text, opt_bytes, opt_view, text_or_empty, MediaMetadata,
    MetadataView, PlaybackState};
use crate::payload::MediaUpdate;
use crate::text::string_from_chars;

verus! {

/// The foreground window as the sensor saw it.
pub struct WindowInfo {
    pub title: String,
    pub process_name: String,
    pub pid: i32,
    pub app_id: Option<String>,
    /// PNG icon bytes.
    pub icon_data: Option<Vec<u8>>,
}

pub struct WindowView {
    pub title: Seq<char>,
    pub process_name: Seq<char>,
    pub pid: i32,
    pub app_id: Option<Seq<char>>,
    pub icon_data: Option<Seq<u8>>,
}

impl View for WindowInfo {
    type V = WindowView;

    open spec fn view(&self) -> WindowView {
        WindowView {
            title: self.title@,
            process_name: self.process_name@,
            pid: self.pid,
            app_id: opt_view(self.app_id),
            icon_data: opt_bytes(self.icon_data),
        }
    }
}

fn same_bytes(a: &Vec<u8>, b: &Vec<u8>) -> (r: bool)
    ensures
        r == (a@ == b@),
{
    if a.len() != b.len() {
        return false;
    }
    let mut i: usize = 0;
    while i < a.len()
        invariant
            a.len() == b.len(),
            i <= a.len(),
            forall|k: int| 0 <= k < i ==> a@[k] == b@[k],
        decreases a.len() - i,
    {
        if a[i] != b[i] {
            return false;
        }
        i = i + 1;
    }
    assert(a@ =~= b@);
    true
}

fn same_opt_bytes(a: &Option<Vec<u8>>, b: &Option<Vec<u8>>) -> (r: bool)
    ensures
        r == (opt_bytes(*a) == opt_bytes(*b)),
{
    match (a, b) {
        (Some(x), Some(y)) => same_bytes(x, y),
        (None, None) => true,
        _ => false,
    }
}

fn same_opt_text(a: &Option<String>, b: &Option<String>) -> (r: bool)
    ensures
        r == (opt_view(*a) == opt_view(*b)),
{
    match (a, b) {
        (Some(x), Some(y)) => x.eq(y),
        (None, None) => true,
        _ => false,
    }
}

impl WindowInfo {
    /// Whether two snapshots are equal field by field.
    pub fn same_as(&self, other: &WindowInfo) -> (r: bool)
        ensures
            r == (self@ == other@),
    {
        self.title.eq(&other.title) && self.process_name.eq(&other.process_name) && self.pid
            == other.pid && same_opt_text(&self.app_id, &other.app_id) && same_opt_bytes(
            &self.icon_data,
            &other.icon_data,
        )
    }

    /// An independent copy with the same contents.
    pub fn copied(&self) -> (r: WindowInfo)
        ensures
            r@ == self@,
    {
        WindowInfo {
            title: self.title.clone(),
            process_name: self.process_name.clone(),
            pid: self.pid,
            app_id: copy_text(&self.app_id),
            icon_data: match &self.icon_data {
                Some(v) => Some(copy_bytes(v)),
                None => None,
            },
        }
    }
}

fn same_metadata(a: &MediaMetadata, b: &MediaMetadata) -> (r: bool)
    ensures
        r == (a@ == b@),
{
    same_opt_text(&a.bundle_identifier, &b.bundle_identifier) && same_opt_text(&a.title, &b.title)
        && same_opt_text(&a.artist, &b.artist) && same_opt_text(&a.album, &b.album) && a.duration_ms
        == b.duration_ms && same_opt_bytes(&a.artwork_data, &b.artwork_data) && same_opt_text(
        &a.artwork_mime_type,
        &b.artwork_mime_type,
    ) && same_opt_text(&a.content_item_identifier, &b.content_item_identifier)
}

/// What to do with one snapshot.
pub struct Delivery<C> {
    /// Push it to the remote channel.
    pub send: bool,
    /// Hand it to this callback.
    pub callback: Option<C>,
}

/// The dispatcher state.
pub struct Reporter<C> {
    config: ReporterConfig,
    last_window: Option<WindowInfo>,
    last_media: Option<(MediaMetadata, PlaybackState)>,
    uploaded: Vec<String>,
    log_callback: Option<C>,
    window_callback: Option<C>,
    media_callback: Option<C>,
    connected: bool,
}

pub struct ReporterView<C> {
    pub config: ReporterConfig,
    pub last_window: Option<WindowView>,
    pub last_media: Option<(MetadataView, PlaybackState)>,
    pub uploaded: Set<Seq<char>>,
    pub log_callback: Option<C>,
    pub window_callback: Option<C>,
    pub media_callback: Option<C>,
    pub connected: bool,
}

pub open spec fn opt_window_view(o: Option<WindowInfo>) -> Option<WindowView> {
    match o {
        Some(w) => Some(w@),
        None => None,
    }
}

pub open spec fn opt_media_view(o: Option<(MediaMetadata, PlaybackState)>) -> Option<(MetadataView, PlaybackState)> {
    match o {
        Some(p) => Some((p.0@, p.1)),
        None => None,
    }
}

pub open spec fn text_set(s: Seq<String>) -> Set<Seq<char>> {
    Set::new(|t: Seq<char>| exists|i: int| 0 <= i < s.len() && #[trigger] s[i]@ == t)
}

impl<C> View for Reporter<C> {
    type V = ReporterView<C>;

    closed spec fn view(&self) -> ReporterView<C> {
        ReporterView {
            config: self.config,
            last_window: opt_window_view(self.last_window),
            last_media: opt_media_view(self.last_media),
            uploaded: text_set(self.uploaded@),
            log_callback: self.log_callback,
            window_callback: self.window_callback,
            media_callback: self.media_callback,
            connected: self.connected,
        }
    }
}

/// The dispatcher after offering a window snapshot, and what it delivers.
/// Nothing happens while reporting is disabled; a snapshot equal to the last
/// one sent is dropped.
pub open spec fn window_step<C>(r: ReporterView<C>, w: WindowView) -> (ReporterView<C>, bool, Option<C>) {
    if !r.config.enabled || r.last_window == Some(w) {
        (r, false, None)
    } else {
        (ReporterView { last_window: Some(w), ..r }, true, r.window_callback)
    }
}

/// The dispatcher after offering a media snapshot, and what it delivers.
/// Nothing happens while reporting or media reporting is disabled; a
/// snapshot equal to the last one sent is dropped.
pub open spec fn media_step<C>(r: ReporterView<C>, m: MetadataView, s: PlaybackState) -> (ReporterView<C>, bool, Option<C>) {
    if !r.config.enabled || !r.config.enable_media_reporting || r.last_media == Some((m, s)) {
        (r, false, None)
    } else {
        (ReporterView { last_media: Some((m, s)), ..r }, true, r.media_callback)
    }
}

/// The dispatcher after asking to upload a track's artwork, and whether the
/// upload is to be made: once per content identifier, and never while
/// reporting is disabled.
pub open spec fn claim_step<C>(r: ReporterView<C>, id: Seq<char>) -> (ReporterView<C>, bool) {
    if !r.config.enabled || r.uploaded.contains(id) {
        (r, false)
    } else {
        (ReporterView { uploaded: r.uploaded.insert(id), ..r }, true)
    }
}

impl<C: Copy> Reporter<C> {
    /// A dispatcher that has sent nothing and has no callbacks.
    pub fn new(config: ReporterConfig) -> (r: Reporter<C>)
        ensures
            r@.config == config,
            r@.last_window.is_none(),
            r@.last_media.is_none(),
            r@.uploaded == Set::<Seq<char>>::empty(),
            r@.log_callback.is_none(),
            r@.window_callback.is_none(),
            r@.media_callback.is_none(),
            !r@.connected,
    {
        let r = Reporter {
            config,
            last_window: None,
            last_media: None,
            uploaded: Vec::new(),
            log_callback: None,
            window_callback: None,
            media_callback: None,
            connected: false,
        };
        assert(text_set(r.uploaded@) =~= Set::<Seq<char>>::empty());
        r
    }

    /// The current settings.
    pub fn config(&self) -> (r: &ReporterConfig)
        ensures
            *r == self@.config,
    {
        &self.config
    }

    /// Offers a window snapshot.
    pub fn send_window_info(&mut self, info: &WindowInfo) -> (d: Delivery<C>)
        ensures
            (final(self)@, d.send, d.callback) == window_step(old(self)@, info@),
    {
        if !self.config.enabled {
            return Delivery { send: false, callback: None };
        }
        let same = match &self.last_window {
            Some(w) => w.same_as(info),
            None => false,
        };
        if same {
            return Delivery { send: false, callback: None };
        }
        self.last_window = Some(info.copied());
        Delivery { send: true, callback: self.window_callback }
    }

    /// Offers a media snapshot.
    pub fn send_media_playback(&mut self, metadata: &MediaMetadata, state: &PlaybackState) -> (d:
        Delivery<C>)
        ensures
            (final(self)@, d.send, d.callback) == media_step(old(self)@, metadata@, *state),
    {
        if !self.config.enabled || !self.config.enable_media_reporting {
            return Delivery { send: false, callback: None };
        }
        let same = match &self.last_media {
            Some(p) => same_metadata(&p.0, metadata) && p.1 == *state,
            None => false,
        };
        if same {
            return Delivery { send: false, callback: None };
        }
        self.last_media = Some((metadata.copied(), *state));
        Delivery { send: true, callback: self.media_callback }
    }

    /// Whether artwork of this track was already claimed for upload.
    pub fn was_uploaded(&self, content_id: &String) -> (r: bool)
        ensures
            r == self@.uploaded.contains(content_id@),
    {
        let mut i: usize = 0;
        while i < self.uploaded.len()
            invariant
                i <= self.uploaded.len(),
                forall|k: int| 0 <= k < i ==> self.uploaded@[k]@ != content_id@,
            decreases self.uploaded.len() - i,
        {
            if self.uploaded[i].eq(content_id) {
                assert(text_set(self.uploaded@).contains(content_id@));
                return true;
            }
            i = i + 1;
        }
        false
    }

    /// Checks and marks a track's artwork as uploaded in one step; true when
    /// the caller is to upload it.
    pub fn claim_artwork_upload(&mut self, content_id: &String) -> (r: bool)
        ensures
            (final(self)@, r) == claim_step(old(self)@, content_id@),
    {
        if !self.config.enabled || self.was_uploaded(content_id) {
            return false;
        }
        let ghost before = self.uploaded@;
        self.uploaded.push(content_id.clone());
        assert(text_set(self.uploaded@) =~= text_set(before).insert(content_id@)) by {
            assert forall|t: Seq<char>| text_set(before).insert(content_id@).contains(t) implies text_set(self.uploaded@).contains(t) by {
                if t == content_id@ {
                    assert(self.uploaded@[before.len() as int]@ == t);
                } else {
                    let i = choose|i: int| 0 <= i < before.len() && before[i]@ == t;
                    assert(self.uploaded@[i]@ == t);
                }
            }
            assert forall|t: Seq<char>| text_set(self.uploaded@).contains(t) implies text_set(before).insert(content_id@).contains(t) by {
                let i = choose|i: int| 0 <= i < self.uploaded@.len() && self.uploaded@[i]@ == t;
                if i < before.len() {
                    assert(before[i]@ == t);
                }
            }
        }
        true
    }

    /// Replaces the settings; what was sent and the callbacks stay.
    pub fn update_config(&mut self, config: ReporterConfig)
        ensures
            final(self)@ == (ReporterView { config, ..old(self)@ }),
    {
        self.config = config;
    }

    /// Whether the remote channel is connected.
    pub fn is_connected(&self) -> (r: bool)
        ensures
            r == self@.connected,
    {
        self.connected
    }

    /// Records the transport's connection state.
    pub fn set_connected(&mut self, connected: bool)
        ensures
            final(self)@ == (ReporterView { connected, ..old(self)@ }),
    {
        self.connected = connected;
    }

    /// Registers the log callback, replacing any earlier one.
    pub fn set_log_callback(&mut self, callback: Option<C>)
        ensures
            final(self)@ == (ReporterView { log_callback: callback, ..old(self)@ }),
    {
        self.log_callback = callback;
    }

    /// Registers the window callback, replacing any earlier one.
    pub fn set_window_callback(&mut self, callback: Option<C>)
        ensures
            final(self)@ == (ReporterView { window_callback: callback, ..old(self)@ }),
    {
        self.window_callback = callback;
    }

    /// Registers the media callback, replacing any earlier one.
    pub fn set_media_callback(&mut self, callback: Option<C>)
        ensures
            final(self)@ == (ReporterView { media_callback: callback, ..old(self)@ }),
    {
        self.media_callback = callback;
    }

    /// The log callback, if one is registered.
    pub fn log_callback(&self) -> (r: Option<C>)
        ensures
            r == self@.log_callback,
    {
        self.log_callback
    }
}

/// Sending the same window snapshot twice sends it at most once: the second
/// offer delivers nothing, and from a dispatcher that is enabled and last
/// sent something else the first offer is sent.
pub proof fn lemma_window_sent_once<C>(r: ReporterView<C>, w: WindowView)
    ensures
        !window_step(window_step(r, w).0, w).1,
        window_step(window_step(r, w).0, w).2.is_none(),
        r.config.enabled && r.last_window != Some(w) ==> window_step(r, w).1,
{
}

/// With reporting disabled no snapshot is sent and no upload is made,
/// whatever is offered, and the dispatcher stays as it was.
pub proof fn lemma_disabled_sends_nothing<C>(
    r: ReporterView<C>,
    w: WindowView,
    m: MetadataView,
    s: PlaybackState,
    id: Seq<char>,
)
    requires
        !r.config.enabled,
    ensures
        window_step(r, w) == (r, false, None::<C>),
        media_step(r, m, s) == (r, false, None::<C>),
        claim_step(r, id) == (r, false),
{
}

/// A track's artwork is claimed for upload at most once.
pub proof fn lemma_artwork_claimed_once<C>(r: ReporterView<C>, id: Seq<char>)
    ensures
        !claim_step(claim_step(r, id).0, id).1,
{
}

/// Artwork to hand to the uploader for one track.
pub struct ArtworkUpload {
    pub content_id: String,
    pub data: Vec<u8>,
    pub mime_type: String,
}

/// What to do after a playback sample: maybe upload the track's artwork
/// first, then deliver the media snapshot.
pub struct PlaybackReport<C> {
    pub upload: Option<ArtworkUpload>,
    pub media: Delivery<C>,
}

/// Whether a metadata view carries artwork that can be uploaded.
pub open spec fn has_uploadable_artwork(m: MetadataView) -> bool {
    m.content_item_identifier.is_some() && m.artwork_data.is_some() && m.artwork_mime_type.is_some()
}

/// The dispatcher after a playback sample, whether artwork is to be
/// uploaded, and what is delivered. Only a playing session with metadata is
/// reported.
pub open spec fn playback_step<C>(
    r: ReporterView<C>,
    state: Option<PlaybackState>,
    m: Option<MetadataView>,
) -> (ReporterView<C>, bool, bool, Option<C>) {
    if state.is_some() && state.unwrap().playing && m.is_some() {
        let md = m.unwrap();
        let (r1, upload) = if has_uploadable_artwork(md) {
            claim_step(r, md.content_item_identifier.unwrap())
        } else {
            (r, false)
        };
        let (r2, send, cb) = media_step(r1, md, state.unwrap());
        (r2, upload, send, cb)
    } else {
        (r, false, false, None)
    }
}

pub open spec fn opt_meta_view(o: Option<MediaMetadata>) -> Option<MetadataView> {
    match o {
        Some(m) => Some(m@),
        None => None,
    }
}

impl<C: Copy> Reporter<C> {
    /// Handles one playback sample: claims the track's artwork for upload
    /// when it was not uploaded yet, then offers the media snapshot.
    pub fn report_playback(&mut self, state: &Option<PlaybackState>, metadata: &Option<MediaMetadata>) -> (r:
        PlaybackReport<C>)
        ensures
            (final(self)@, r.upload.is_some(), r.media.send, r.media.callback) == playback_step(
                old(self)@,
                *state,
                opt_meta_view(*metadata),
            ),
            r.upload.is_some() ==> {
                let md = metadata.unwrap()@;
                &&& r.upload.unwrap().content_id@ == md.content_item_identifier.unwrap()
                &&& Some(r.upload.unwrap().data@) == md.artwork_data
                &&& Some(r.upload.unwrap().mime_type@) == md.artwork_mime_type
            },
    {
        let s = match state {
            Some(s) => *s,
            None => {
                return PlaybackReport { upload: None, media: Delivery { send: false, callback: None } };
            },
        };
        let m = match metadata {
            Some(m) => m,
            None => {
                return PlaybackReport { upload: None, media: Delivery { send: false, callback: None } };
            },
        };
        if !s.playing {
            return PlaybackReport { upload: None, media: Delivery { send: false, callback: None } };
        }
        let upload = match (&m.content_item_identifier, &m.artwork_data, &m.artwork_mime_type) {
            (Some(id), Some(data), Some(mime)) => {
                if self.claim_artwork_upload(id) {
                    Some(ArtworkUpload { content_id: id.clone(), data: copy_bytes(data), mime_type: mime.clone() })
                } else {
                    None
                }
            },
            _ => None,
        };
        let media = self.send_media_playback(m, &s);
        PlaybackReport { upload, media }
    }
}

impl<C: Copy> Reporter<C> {
    /// An out-of-band artwork upload, apart from playback reporting; none
    /// while reporting is disabled.
    pub fn upload_artwork(&self, content_id: String, data: Vec<u8>, mime_type: String) -> (r: Option<
        ArtworkUpload,
    >)
        ensures
            r.is_some() == self@.config.enabled,
            r.is_some() ==> r.unwrap().content_id == content_id && r.unwrap().data == data
                && r.unwrap().mime_type == mime_type,
    {
        if self.config.enabled {
            Some(ArtworkUpload { content_id, data, mime_type })
        } else {
            None
        }
    }
}

/// Milliseconds rounded to the nearest second, halves up.
pub open spec fn rounded_seconds(ms: u64) -> int {
    (ms / 1000) as int + if ms % 1000 >= 500 { 1int } else { 0int }
}

fn seconds_of(ms: u64) -> (r: i64)
    ensures
        r == rounded_seconds(ms),
{
    let whole = ms / 1000;
    let up: u64 = if ms % 1000 >= 500 { 1 } else { 0 };
    (whole + up) as i64
}

pub open spec fn or_empty(o: Option<Seq<char>>) -> Seq<char> {
    match o {
        Some(t) => t,
        None => Seq::empty(),
    }
}

/// The media section for a metadata snapshot, with the given thumbnail (an
/// uploaded URL, a `data:` URI, or empty) and times in whole seconds.
pub fn media_update_for(metadata: &MediaMetadata, state: &PlaybackState, thumbnail: &str) -> (r:
    MediaUpdate)
    ensures
        r.title@ == or_empty(metadata@.title),
        r.artist@ == or_empty(metadata@.artist),
        r.process_name@ == or_empty(metadata@.bundle_identifier),
        r.album_thumbnail@ == thumbnail@,
        r.duration == rounded_seconds(metadata.duration_ms),
        r.elapsed_time == rounded_seconds(state.elapsed_ms),
{
    MediaUpdate {
        title: text_or_empty(&metadata.title),
        artist: text_or_empty(&metadata.artist),
        process_name: text_or_empty(&metadata.bundle_identifier),
        album_thumbnail: string_from_chars(&crate::text::chars_of(thumbnail)),
        duration: seconds_of(metadata.duration_ms),
        elapsed_time: seconds_of(state.elapsed_ms),
    }
}

/// With reporting enabled, a playing sample whose artwork was not uploaded
/// yet asks for exactly one upload; the same sample again asks for none.
pub proof fn lemma_new_artwork_uploaded_once<C>(r: ReporterView<C>, s: PlaybackState, m: MetadataView)
    requires
        r.config.enabled,
        s.playing,
        has_uploadable_artwork(m),
        !r.uploaded.contains(m.content_item_identifier.unwrap()),
    ensures
        playback_step(r, Some(s), Some(m)).1,
        !playback_step(playback_step(r, Some(s), Some(m)).0, Some(s), Some(m)).1,
{
}

/// With reporting disabled, no playback sample leads to an upload or a send.
pub proof fn lemma_disabled_playback_silent<C>(
    r: ReporterView<C>,
    s: Option<PlaybackState>,
    m: Option<MetadataView>,
)
    requires
        !r.config.enabled,
    ensures
        !playback_step(r, s, m).1,
        !playback_step(r, s, m).2,
{
}

} // verus!
