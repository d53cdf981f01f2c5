//! The report body sent to the collector: process information, an optional
//! media section, and images as URLs or inline `data:` URIs.

use vstd::prelude::*;
use crate::codec::{base64_encode, base64_of};
use crate::config::{MainConfig, Rule, ServerConfig};
use crate::text::{chars_of, occurs_at, string_from_chars, trim_end_char, trim_end_chars};

verus! {

pub open spec fn starts_with_bytes(d: Seq<u8>, p: Seq<u8>) -> bool {
    d.len() >= p.len() && d.subrange(0, p.len() as int) == p
}

pub open spec fn png_signature() -> Seq<u8> {
    seq![0x89u8, 0x50u8, 0x4Eu8, 0x47u8, 0x0Du8, 0x0Au8, 0x1Au8, 0x0Au8]
}

/// The MIME type of image bytes, judged by their signature; JPEG when none
/// is recognised.
pub open spec fn sniffed_mime(d: Seq<u8>) -> Seq<char> {
    if starts_with_bytes(d, seq![0xFFu8, 0xD8u8, 0xFFu8]) {
        "image/jpeg"@
    } else if starts_with_bytes(d, png_signature()) {
        "image/png"@
    } else if starts_with_bytes(d, seq![0x47u8, 0x49u8, 0x46u8, 0x38u8, 0x37u8, 0x61u8])
        || starts_with_bytes(d, seq![0x47u8, 0x49u8, 0x46u8, 0x38u8, 0x39u8, 0x61u8]) {
        "image/gif"@
    } else if starts_with_bytes(d, seq![0x52u8, 0x49u8, 0x46u8, 0x46u8]) && d.len() > 12
        && d.subrange(8, 12) == seq![0x57u8, 0x45u8, 0x42u8, 0x50u8] {
        "image/webp"@
    } else {
        "image/jpeg"@
    }
}

/// `data:<mime>;base64,<data>` for some image bytes.
pub open spec fn data_uri(d: Seq<u8>) -> Seq<char> {
    "data:"@ + sniffed_mime(d) + ";base64,"@ + base64_of(d)
}

fn bytes_start_with(d: &[u8], p: &[u8]) -> (r: bool)
    ensures
        r == starts_with_bytes(d@, p@),
{
    if d.len() < p.len() {
        return false;
    }
    let mut i: usize = 0;
    while i < p.len()
        invariant
            p.len() <= d.len(),
            i <= p.len(),
            forall|k: int| 0 <= k < i ==> d@[k] == p@[k],
        decreases p.len() - i,
    {
        if d[i] != p[i] {
            assert(d@.subrange(0, p.len() as int)[i as int] != p@[i as int]);
            return false;
        }
        i = i + 1;
    }
    assert(d@.subrange(0, p.len() as int) =~= p@);
    true
}

/// The MIME type of image bytes, by signature.
pub fn sniff_mime(d: &[u8]) -> (r: &'static str)
    ensures
        r@ == sniffed_mime(d@),
{
    let jpeg: [u8; 3] = [0xFF, 0xD8, 0xFF];
    let png: [u8; 8] = [0x89, 0x50, 0x4E, 0x47, 0x0D, 0x0A, 0x1A, 0x0A];
    let gif7: [u8; 6] = [0x47, 0x49, 0x46, 0x38, 0x37, 0x61];
    let gif9: [u8; 6] = [0x47, 0x49, 0x46, 0x38, 0x39, 0x61];
    let riff: [u8; 4] = [0x52, 0x49, 0x46, 0x46];
    assert(jpeg@ =~= seq![0xFFu8, 0xD8u8, 0xFFu8]);
    assert(png@ =~= png_signature());
    assert(gif7@ =~= seq![0x47u8, 0x49u8, 0x46u8, 0x38u8, 0x37u8, 0x61u8]);
    assert(gif9@ =~= seq![0x47u8, 0x49u8, 0x46u8, 0x38u8, 0x39u8, 0x61u8]);
    assert(riff@ =~= seq![0x52u8, 0x49u8, 0x46u8, 0x46u8]);
    if bytes_start_with(d, jpeg.as_slice()) {
        "image/jpeg"
    } else if bytes_start_with(d, png.as_slice()) {
        "image/png"
    } else if bytes_start_with(d, gif7.as_slice()) || bytes_start_with(d, gif9.as_slice()) {
        "image/gif"
    } else if bytes_start_with(d, riff.as_slice()) && d.len() > 12 && d[8] == 0x57 && d[9] == 0x45
        && d[10] == 0x42 && d[11] == 0x50 {
        assert(d@.subrange(8, 12) =~= seq![0x57u8, 0x45u8, 0x42u8, 0x50u8]);
        "image/webp"
    } else {
        proof {
            if d@.len() > 12 && d@.subrange(8, 12) == seq![0x57u8, 0x45u8, 0x42u8, 0x50u8] {
                assert(d@[8] == d@.subrange(8, 12)[0]);
                assert(d@[9] == d@.subrange(8, 12)[1]);
                assert(d@[10] == d@.subrange(8, 12)[2]);
                assert(d@[11] == d@.subrange(8, 12)[3]);
            }
        }
        "image/jpeg"
    }
}

/// Image bytes as a `data:` URI with the sniffed MIME type.
pub fn encode_as_base64(data: &[u8]) -> (r: String)
    requires
        data@.len() <= usize::MAX / 2,
    ensures
        r@ == data_uri(data@),
{
    let b64 = base64_encode(data);
    let mut out = String::from_str("data:");
    out.append(sniff_mime(data));
    out.append(";base64,");
    out.append(b64.as_str());
    out
}

/// How the process icon travels in a report.
pub enum IconField {
    /// An `http://` or `https://` URL.
    Url(String),
    /// Inline data.
    Inline(String),
    /// No icon.
    Absent,
}

pub struct ProcessInfo {
    pub name: String,
    pub description: String,
    pub icon: IconField,
}

/// The media section of a report.
pub struct MediaUpdate {
    pub title: String,
    pub artist: String,
    pub process_name: String,
    /// A URL, a `data:` URI, or empty.
    pub album_thumbnail: String,
    pub duration: i64,
    pub elapsed_time: i64,
}

/// One report. `key` carries the token while the report is sent;
/// `window_name` is filled in for local display afterwards.
pub struct ReportData {
    pub timestamp: i64,
    pub key: Option<String>,
    pub process: ProcessInfo,
    pub media: Option<MediaUpdate>,
    pub window_name: Option<String>,
}

pub open spec fn has_prefix(s: Seq<char>, p: Seq<char>) -> bool {
    s.len() >= p.len() && s.subrange(0, p.len() as int) == p
}

pub open spec fn is_web_url(s: Seq<char>) -> bool {
    has_prefix(s, "http://"@) || has_prefix(s, "https://"@)
}

fn starts_with_text(s: &str, p: &str) -> (r: bool)
    ensures
        r == has_prefix(s@, p@),
{
    let sc = chars_of(s);
    let pc = chars_of(p);
    occurs_at(&sc, 0, &pc)
}

/// The name rules give an application, or the name itself when no rule
/// matches; the first matching rule wins.
pub open spec fn renamed(rules: Seq<Rule>, app: Seq<char>) -> Seq<char>
    decreases rules.len(),
{
    if rules.len() == 0 {
        app
    } else if rules[0].match_application@ == app {
        rules[0].replace.application@
    } else {
        renamed(rules.subrange(1, rules.len() as int), app)
    }
}

/// Applies the renaming rules to an application name.
pub fn apply_rules(rules: &Vec<Rule>, app: &String) -> (r: String)
    ensures
        r@ == renamed(rules@, app@),
{
    let mut i: usize = 0;
    assert(rules@.subrange(0, rules.len() as int) =~= rules@);
    while i < rules.len()
        invariant
            i <= rules.len(),
            renamed(rules@.subrange(i as int, rules.len() as int), app@) == renamed(rules@, app@),
        decreases rules.len() - i,
    {
        assert(rules@.subrange(i as int, rules.len() as int).subrange(1, rules.len() - i)
            =~= rules@.subrange(i + 1, rules.len() as int));
        if rules[i].match_application.eq(app) {
            return rules[i].replace.application.clone();
        }
        i = i + 1;
    }
    app.clone()
}

/// Builds the media section, renaming the source application by the rules.
pub fn build_media_update(
    title: &str,
    artist: &str,
    source_app_name: &str,
    thumbnail: &str,
    duration: i64,
    elapsed_time: i64,
    rules: &Vec<Rule>,
) -> (r: MediaUpdate)
    ensures
        r.title@ == title@,
        r.artist@ == artist@,
        r.process_name@ == renamed(rules@, source_app_name@),
        r.album_thumbnail@ == thumbnail@,
        r.duration == duration,
        r.elapsed_time == elapsed_time,
{
    let app = String::from_str(source_app_name);
    MediaUpdate {
        title: String::from_str(title),
        artist: String::from_str(artist),
        process_name: apply_rules(rules, &app),
        album_thumbnail: String::from_str(thumbnail),
        duration,
        elapsed_time,
    }
}

/// The icon field for an icon string: a URL, inline data, or nothing.
pub open spec fn icon_field_matches(f: IconField, icon: Seq<char>) -> bool {
    if is_web_url(icon) {
        f is Url && f->Url_0@ == icon
    } else if icon.len() > 0 {
        f is Inline && f->Inline_0@ == icon
    } else {
        f is Absent
    }
}

/// Builds a report: process name and description with trailing NULs cut,
/// the icon as URL or inline data, and the media section only when its title
/// is not empty.
pub fn build_data(
    process_name: &str,
    media_update: MediaUpdate,
    token: &str,
    icon: &str,
    timestamp: i64,
) -> (r: ReportData)
    ensures
        r.timestamp == timestamp,
        r.key.is_some() && r.key.unwrap()@ == token@,
        r.process.name@ == trim_end_char(process_name@, '\0'),
        r.process.description@ == trim_end_char(process_name@, '\0'),
        icon_field_matches(r.process.icon, icon@),
        r.media.is_some() == (media_update.title@.len() > 0),
        r.media.is_some() ==> r.media.unwrap() == media_update,
        r.window_name.is_none(),
{
    let name_chars = trim_end_chars(&chars_of(process_name), '\0');
    let name = string_from_chars(&name_chars);
    let description = name.clone();
    let icon_field = if starts_with_text(icon, "http://") || starts_with_text(icon, "https://") {
        IconField::Url(String::from_str(icon))
    } else if icon.unicode_len() > 0 {
        IconField::Inline(String::from_str(icon))
    } else {
        IconField::Absent
    };
    let media = if media_update.title.unicode_len() > 0 {
        Some(media_update)
    } else {
        None
    };
    ReportData {
        timestamp,
        key: Some(String::from_str(token)),
        process: ProcessInfo { name, description, icon: icon_field },
        media,
        window_name: None,
    }
}

impl ReportData {
    /// The report as shown locally: the token removed and the window name,
    /// without trailing NULs, added.
    pub fn for_display(self, window_name: &str) -> (r: ReportData)
        ensures
            r.key.is_none(),
            r.window_name.is_some(),
            r.window_name.unwrap()@ == trim_end_char(window_name@, '\0'),
            r.timestamp == self.timestamp,
            r.process == self.process,
            r.media == self.media,
    {
        let w = string_from_chars(&trim_end_chars(&chars_of(window_name), '\0'));
        ReportData {
            timestamp: self.timestamp,
            key: None,
            process: self.process,
            media: self.media,
            window_name: Some(w),
        }
    }
}

/// The thumbnail a report carries: nothing when covers are skipped; the
/// uploaded URL when covers go to the object store and the upload gave a
/// non-empty URL; the inline data otherwise.
pub open spec fn thumbnail_choice(cfg: ServerConfig, uploaded: Option<Seq<char>>, inline: Seq<char>) -> Seq<char> {
    if cfg.skip_smtc_cover {
        Seq::empty()
    } else if cfg.upload_smtc_cover && cfg.s3_config.s3_enable {
        match uploaded {
            Some(u) => if u.len() > 0 {
                u
            } else {
                inline
            },
            None => inline,
        }
    } else {
        inline
    }
}

/// Whether the cover is to be uploaded at all.
pub open spec fn uploads_cover(cfg: ServerConfig) -> bool {
    !cfg.skip_smtc_cover && cfg.upload_smtc_cover && cfg.s3_config.s3_enable
}

/// Whether the cover goes to the object store.
pub fn wants_cover_upload(cfg: &ServerConfig) -> (r: bool)
    ensures
        r == uploads_cover(*cfg),
{
    !cfg.skip_smtc_cover && cfg.upload_smtc_cover && cfg.s3_config.s3_enable
}

/// Picks the thumbnail text from the upload outcome and the inline data.
pub fn choose_thumbnail(cfg: &ServerConfig, uploaded: Option<String>, inline: &String) -> (r: String)
    ensures
        r@ == thumbnail_choice(*cfg, match uploaded {
            Some(u) => Some(u@),
            None => None,
        }, inline@),
{
    if cfg.skip_smtc_cover {
        String::new()
    } else if cfg.upload_smtc_cover && cfg.s3_config.s3_enable {
        match uploaded {
            Some(u) => if u.unicode_len() > 0 {
                u
            } else {
                inline.clone()
            },
            None => inline.clone(),
        }
    } else {
        inline.clone()
    }
}

/// The icon text: the uploaded URL when the object store is enabled and the
/// upload gave a non-empty URL, the inline data otherwise.
pub fn choose_icon(cfg: &ServerConfig, uploaded: Option<String>, inline: &String) -> (r: String)
    ensures
        r@ == icon_choice(*cfg, match uploaded {
            Some(u) => Some(u@),
            None => None,
        }, inline@),
{
    match uploaded {
        Some(u) => if cfg.s3_config.s3_enable && u.unicode_len() > 0 {
            u
        } else {
            inline.clone()
        },
        None => inline.clone(),
    }
}

/// Whether inline covers in the collector's answer are hidden from the log:
/// when covers are reported inline and logging them is not asked for.
pub fn hides_inline_cover(cfg: &ServerConfig) -> (r: bool)
    ensures
        r == (!cfg.log_base64 && cfg.report_smtc && !cfg.skip_smtc_cover && !cfg.upload_smtc_cover),
{
    !cfg.log_base64 && cfg.report_smtc && !cfg.skip_smtc_cover && !cfg.upload_smtc_cover
}

/// A process name as reported: a trailing `.exe` removed.
pub fn display_process_name(raw: &str) -> (r: String)
    ensures
        r@ == replace_exe(raw@),
{
    let c = chars_of(raw);
    let exe = vec!['.', 'e', 'x', 'e'];
    assert(exe@ =~= exe_suffix());
    let none: Vec<char> = Vec::new();
    assert(none@ =~= Seq::<char>::empty());
    let out = crate::text::replace_chars(&c, &exe, &none);
    string_from_chars(&out)
}

pub open spec fn exe_suffix() -> Seq<char> {
    seq!['.', 'e', 'x', 'e']
}

/// Every `.exe` removed from a name.
pub open spec fn replace_exe(s: Seq<char>) -> Seq<char> {
    crate::text::replace_all(s, exe_suffix(), Seq::empty())
}

pub open spec fn icon_choice(cfg: ServerConfig, uploaded: Option<Seq<char>>, inline: Seq<char>) -> Seq<char> {
    match uploaded {
        Some(u) => if cfg.s3_config.s3_enable && u.len() > 0 {
            u
        } else {
            inline
        },
        None => inline,
    }
}

impl MediaUpdate {
    /// An independent copy with the same contents.
    pub fn copied(&self) -> (r: MediaUpdate)
        ensures
            r == *self,
    {
        MediaUpdate {
            title: self.title.clone(),
            artist: self.artist.clone(),
            process_name: self.process_name.clone(),
            album_thumbnail: self.album_thumbnail.clone(),
            duration: self.duration,
            elapsed_time: self.elapsed_time,
        }
    }
}

/// What the host gathered for one collector report.
pub struct ReportInputs {
    pub process_name_raw: String,
    pub window_name: String,
    pub icon_bytes: Vec<u8>,
    pub title: String,
    pub artist: String,
    pub source_app_name: String,
    pub thumbnail_bytes: Vec<u8>,
    pub duration: i64,
    pub elapsed_time: i64,
}

/// A collector report and the pieces the host shows alongside it.
pub struct ReportBundle {
    pub update_data: ReportData,
    pub icon_base64: String,
    pub media_update: MediaUpdate,
    pub thumbnail_base64: String,
}

/// Which images go to the object store before a report: the cover when
/// covers are uploaded, the icon whenever the store is enabled.
pub fn report_uploads(cfg: &MainConfig) -> (r: (bool, bool))
    ensures
        r.0 == uploads_cover(cfg.server_config),
        r.1 == cfg.server_config.s3_config.s3_enable,
{
    (wants_cover_upload(&cfg.server_config), cfg.server_config.s3_config.s3_enable)
}

/// Assembles a collector report from the gathered inputs and the outcome of
/// the uploads that `report_uploads` asked for: the thumbnail as uploaded
/// URL, inline data or nothing, the icon as uploaded URL or inline data, the
/// process name without `.exe`, and the media section only for a non-empty
/// title.
pub fn build_report(
    cfg: &MainConfig,
    token: &str,
    inputs: &ReportInputs,
    thumbnail_upload: Option<String>,
    icon_upload: Option<String>,
    timestamp: i64,
) -> (r: ReportBundle)
    requires
        inputs.thumbnail_bytes@.len() <= usize::MAX / 2,
        inputs.icon_bytes@.len() <= usize::MAX / 2,
    ensures
        r.thumbnail_base64@ == data_uri(inputs.thumbnail_bytes@),
        r.icon_base64@ == data_uri(inputs.icon_bytes@),
        r.media_update.title@ == inputs.title@,
        r.media_update.artist@ == inputs.artist@,
        r.media_update.process_name@ == renamed(cfg.rules@, inputs.source_app_name@),
        r.media_update.album_thumbnail@ == thumbnail_choice(
            cfg.server_config,
            match thumbnail_upload {
                Some(u) => Some(u@),
                None => None,
            },
            data_uri(inputs.thumbnail_bytes@),
        ),
        r.media_update.duration == inputs.duration,
        r.media_update.elapsed_time == inputs.elapsed_time,
        r.update_data.timestamp == timestamp,
        r.update_data.key.is_some() && r.update_data.key.unwrap()@ == token@,
        r.update_data.process.name@ == trim_end_char(replace_exe(inputs.process_name_raw@), '\0'),
        r.update_data.process.description@ == r.update_data.process.name@,
        icon_field_matches(
            r.update_data.process.icon,
            icon_choice(
                cfg.server_config,
                match icon_upload {
                    Some(u) => Some(u@),
                    None => None,
                },
                data_uri(inputs.icon_bytes@),
            ),
        ),
        r.update_data.media.is_some() == (inputs.title@.len() > 0),
        r.update_data.media.is_some() ==> r.update_data.media.unwrap() == r.media_update,
        r.update_data.window_name.is_none(),
{
    let process_name = display_process_name(inputs.process_name_raw.as_str());
    let thumbnail_base64 = encode_as_base64(inputs.thumbnail_bytes.as_slice());
    let icon_base64 = encode_as_base64(inputs.icon_bytes.as_slice());
    let thumbnail = choose_thumbnail(&cfg.server_config, thumbnail_upload, &thumbnail_base64);
    let icon = choose_icon(&cfg.server_config, icon_upload, &icon_base64);
    let media_update = build_media_update(
        inputs.title.as_str(),
        inputs.artist.as_str(),
        inputs.source_app_name.as_str(),
        thumbnail.as_str(),
        inputs.duration,
        inputs.elapsed_time,
        &cfg.rules,
    );
    let update_data = build_data(
        process_name.as_str(),
        media_update.copied(),
        token,
        icon.as_str(),
        timestamp,
    );
    ReportBundle { update_data, icon_base64, media_update, thumbnail_base64 }
}

/// The cover a report carries: with uploads on and a non-empty URL back, that
/// URL; with uploads off (and covers not skipped), the inline data.
pub proof fn lemma_cover_is_url_or_inline(cfg: ServerConfig, url: Seq<char>, inline: Seq<char>)
    ensures
        uploads_cover(cfg) && url.len() > 0 ==> thumbnail_choice(cfg, Some(url), inline) == url,
        !cfg.skip_smtc_cover && !cfg.upload_smtc_cover ==> thumbnail_choice(cfg, Some(url), inline)
            == inline,
{
}

} // verus!
