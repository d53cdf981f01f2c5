//! Content-addressed artwork uploads: an image is stored once per SHA-256
//! digest, under a dated directory of the object store, and its public URL is
//! remembered durably so that the same bytes are never uploaded twice.
//!
//! The host performs the transfer and persists the records; the functions
//! here decide whether a transfer is needed and what it is.

use vstd::prelude::*;
use chrono::Datelike;
use crate::codec::{sha256_hex, sha256_of, hex_of};
use crate::config::S3Config;
use crate::text::{chars_of, replace_all, replace_chars, string_from_chars, trim_char,
    trim_chars, trim_end_char, trim_end_chars};

verus! {

/// The WebP encoding of an image in any format the converter recognises, or
/// `None` when the bytes are not such an image.
pub uninterp spec fn webp_of(b: Seq<u8>) -> Option<Seq<u8>>;

/// Relies on `image::ImageReader` (format guessed from the bytes, then
/// decoded) and `DynamicImage::write_to` with `ImageFormat::WebP`: the
/// result depends on the bytes alone.
#[verifier::external_body]
pub(crate) fn convert_to_webp(image_data: &[u8]) -> (r: Option<Vec<u8>>)
    ensures
        r.is_some() == webp_of(image_data@).is_some(),
        r.is_some() ==> r.unwrap()@ == webp_of(image_data@).unwrap(),
{
    let img = image::ImageReader::new(std::io::Cursor::new(image_data))
        .with_guessed_format().ok()?.decode().ok()?;
    let mut out: Vec<u8> = Vec::new();
    img.write_to(std::io::Cursor::new(&mut out), image::ImageFormat::WebP).ok()?;
    Some(out)
}

/// A local calendar date.
#[derive(Clone, Copy, PartialEq, Eq, Debug, Structural)]
pub struct CalendarDate {
    pub year: i32,
    pub month: u32,
    pub day: u32,
}

/// Relies on `chrono::Local::now` and `Datelike`: today's local date, whose
/// month lies in 1..=12 and day in 1..=31.
#[verifier::external_body]
pub(crate) fn today() -> (r: CalendarDate)
    ensures
        1 <= r.month <= 12,
        1 <= r.day <= 31,
{
    let now = chrono::Local::now();
    CalendarDate { year: now.year(), month: now.month(), day: now.day() }
}

/// One remembered upload: the hex digest of the unconverted bytes and the
/// public URL of the stored copy.
pub struct UploadRecord {
    pub digest: String,
    pub url: String,
}

/// The durable digest-to-URL map. Records are kept in the order they were
/// made; a later record for a digest overrides an earlier one.
pub struct UploadCache {
    pub records: Vec<UploadRecord>,
}

pub open spec fn map_of(records: Seq<UploadRecord>) -> Map<Seq<char>, Seq<char>>
    decreases records.len(),
{
    if records.len() == 0 {
        Map::empty()
    } else {
        let last = records[records.len() - 1];
        map_of(records.drop_last()).insert(last.digest@, last.url@)
    }
}

impl View for UploadCache {
    type V = Map<Seq<char>, Seq<char>>;

    open spec fn view(&self) -> Map<Seq<char>, Seq<char>> {
        map_of(self.records@)
    }
}

impl UploadCache {
    /// A cache with no records.
    pub fn new() -> (r: UploadCache)
        ensures
            r@ == Map::<Seq<char>, Seq<char>>::empty(),
    {
        UploadCache { records: Vec::new() }
    }

    /// The URL remembered for a digest.
    pub fn lookup(&self, digest: &String) -> (r: Option<String>)
        ensures
            r.is_some() == self@.contains_key(digest@),
            r.is_some() ==> r.unwrap()@ == self@[digest@],
    {
        let mut i: usize = self.records.len();
        assert(self.records@.subrange(0, i as int) =~= self.records@);
        while i > 0
            invariant
                i <= self.records.len(),
                forall|j: int| i <= j < self.records.len() ==> self.records@[j].digest@ != digest@,
                map_of(self.records@).contains_key(digest@) == map_of(
                    self.records@.subrange(0, i as int),
                ).contains_key(digest@),
                map_of(self.records@).contains_key(digest@) ==> map_of(self.records@)[digest@]
                    == map_of(self.records@.subrange(0, i as int))[digest@],
            decreases i,
        {
            let rec = &self.records[i - 1];
            assert(self.records@.subrange(0, i as int).drop_last() =~= self.records@.subrange(
                0,
                i - 1,
            ));
            if rec.digest.eq(digest) {
                return Some(rec.url.clone());
            }
            i = i - 1;
        }
        None
    }

    /// Remembers the URL of a digest.
    pub fn insert(&mut self, digest: String, url: String)
        ensures
            final(self)@ == old(self)@.insert(digest@, url@),
    {
        self.records.push(UploadRecord { digest, url });
        assert(final(self).records@.drop_last() =~= old(self).records@);
    }
}

/// Decimal digits of `n`, most significant first.
pub open spec fn decimal(n: nat) -> Seq<char>
    decreases n,
{
    if n < 10 {
        seq![digit_char(n)]
    } else {
        decimal(n / 10).push(digit_char(n % 10))
    }
}

pub open spec fn digit_char(d: nat) -> char {
    crate::codec::hex_digits()[d as int]
}

/// Decimal digits of `n`, left-padded with `0` to at least `width`.
pub open spec fn padded(n: nat, width: nat) -> Seq<char> {
    let d = decimal(n);
    if d.len() < width {
        Seq::new((width - d.len()) as nat, |i: int| '0') + d
    } else {
        d
    }
}

/// How a year is written in a path: four digits at least, and a minus sign
/// before the years before 0.
pub open spec fn year_text(y: i32) -> Seq<char> {
    if y >= 0 {
        padded(y as nat, 4)
    } else {
        seq!['-'] + padded((-(y as int)) as nat, 4)
    }
}

fn digit(d: u64) -> (r: char)
    requires
        d < 10,
    ensures
        r == digit_char(d as nat),
{
    let table = "0123456789";
    proof {
        reveal_strlit("0123456789");
    }
    table.get_char(d as usize)
}

fn decimal_vec(n: u64) -> (r: Vec<char>)
    ensures
        r@ == decimal(n as nat),
    decreases n,
{
    if n < 10 {
        let mut v: Vec<char> = Vec::new();
        v.push(digit(n));
        assert(v@ =~= seq![digit_char(n as nat)]);
        v
    } else {
        let mut v = decimal_vec(n / 10);
        v.push(digit(n % 10));
        v
    }
}

/// Decimal text of `n`, left-padded with `0` to `width` characters.
fn decimal_chars(n: u64, width: usize) -> (r: Vec<char>)
    ensures
        r@ == padded(n as nat, width as nat),
{
    let d = decimal_vec(n);
    if d.len() >= width {
        return d;
    }
    let mut out: Vec<char> = Vec::new();
    while out.len() < width - d.len()
        invariant
            d.len() < width,
            out.len() <= width - d.len(),
            forall|i: int| 0 <= i < out.len() ==> out@[i] == '0',
        decreases width - d.len() - out.len(),
    {
        out.push('0');
    }
    let mut i: usize = 0;
    let ghost zeros = out@;
    while i < d.len()
        invariant
            i <= d.len(),
            out@ == zeros + d@.subrange(0, i as int),
        decreases d.len() - i,
    {
        out.push(d[i]);
        assert(out@ =~= zeros + d@.subrange(0, i + 1));
        i = i + 1;
    }
    assert(zeros =~= Seq::new((width - d.len()) as nat, |i: int| '0'));
    assert(d@.subrange(0, d@.len() as int) =~= d@);
    out
}

fn year_chars(y: i32) -> (r: Vec<char>)
    ensures
        r@ == year_text(y),
{
    if y >= 0 {
        decimal_chars(y as u64, 4)
    } else {
        let magnitude: u64 = (-(y as i64)) as u64;
        let digits = decimal_chars(magnitude, 4);
        let mut out: Vec<char> = Vec::new();
        out.push('-');
        let mut i: usize = 0;
        while i < digits.len()
            invariant
                i <= digits.len(),
                out@ == seq!['-'] + digits@.subrange(0, i as int),
            decreases digits.len() - i,
        {
            out.push(digits[i]);
            assert(out@ =~= seq!['-'] + digits@.subrange(0, i + 1));
            i = i + 1;
        }
        assert(digits@.subrange(0, digits@.len() as int) =~= digits@);
        out
    }
}

pub open spec fn year_token() -> Seq<char> {
    seq!['{', 'y', 'e', 'a', 'r', '}']
}

pub open spec fn month_token() -> Seq<char> {
    seq!['{', 'm', 'o', 'n', 't', 'h', '}']
}

pub open spec fn day_token() -> Seq<char> {
    seq!['{', 'd', 'a', 'y', '}']
}

/// A path template with its date tokens filled in: the year, then the
/// two-digit month, then the two-digit day.
pub open spec fn filled_template(t: Seq<char>, date: CalendarDate) -> Seq<char> {
    replace_all(
        replace_all(
            replace_all(t, year_token(), year_text(date.year)),
            month_token(),
            padded(date.month as nat, 2),
        ),
        day_token(),
        padded(date.day as nat, 2),
    )
}

/// Fills `{year}`, `{month}` and `{day}` in an upload path template.
pub fn replace_bucket_path_template(template: &str, date: CalendarDate) -> (r: Vec<char>)
    ensures
        r@ == filled_template(template@, date),
{
    let t = chars_of(template);
    let year_tok = vec!['{', 'y', 'e', 'a', 'r', '}'];
    let month_tok = vec!['{', 'm', 'o', 'n', 't', 'h', '}'];
    let day_tok = vec!['{', 'd', 'a', 'y', '}'];
    assert(year_tok@ =~= year_token());
    assert(month_tok@ =~= month_token());
    assert(day_tok@ =~= day_token());
    let with_year = replace_chars(&t, &year_tok, &year_chars(date.year));
    let with_month = replace_chars(&with_year, &month_tok, &decimal_chars(date.month as u64, 2));
    replace_chars(&with_month, &day_tok, &decimal_chars(date.day as u64, 2))
}

pub open spec fn webp_ext() -> Seq<char> {
    seq!['.', 'w', 'e', 'b', 'p']
}

/// The object key of an image: `<hex digest>.webp`, under the trimmed prefix
/// when the filled template is not empty.
pub open spec fn object_key(prefix: Seq<char>, hex: Seq<char>) -> Seq<char> {
    if prefix.len() == 0 {
        hex + webp_ext()
    } else {
        trim_char(prefix, '/') + seq!['/'] + hex + webp_ext()
    }
}

/// The public URL of an object: under the custom URL when one is set, else
/// `endpoint/bucket/key`.
pub open spec fn public_url(cfg: S3Config, key: Seq<char>) -> Seq<char> {
    if cfg.custom_url@.len() > 0 {
        trim_end_char(cfg.custom_url@, '/') + seq!['/'] + key
    } else {
        trim_end_char(cfg.endpoint@, '/') + seq!['/'] + cfg.bucket_name@ + seq!['/'] + key
    }
}

fn concat_chars(a: &Vec<char>, b: &Vec<char>) -> (r: Vec<char>)
    ensures
        r@ == a@ + b@,
{
    let mut out: Vec<char> = Vec::new();
    let mut i: usize = 0;
    while i < a.len()
        invariant
            i <= a.len(),
            out@ == a@.subrange(0, i as int),
        decreases a.len() - i,
    {
        out.push(a[i]);
        i = i + 1;
    }
    let mut j: usize = 0;
    while j < b.len()
        invariant
            j <= b.len(),
            a.len() == out.len() - j,
            out@ == a@ + b@.subrange(0, j as int),
        decreases b.len() - j,
    {
        out.push(b[j]);
        assert(out@ =~= a@ + b@.subrange(0, j + 1));
        j = j + 1;
    }
    assert(a@.subrange(0, a@.len() as int) =~= a@);
    assert(b@.subrange(0, b@.len() as int) =~= b@);
    out
}

fn object_key_chars(prefix: &Vec<char>, hex: &Vec<char>) -> (r: Vec<char>)
    ensures
        r@ == object_key(prefix@, hex@),
{
    let ext = vec!['.', 'w', 'e', 'b', 'p'];
    assert(ext@ =~= webp_ext());
    let file = concat_chars(hex, &ext);
    if prefix.len() == 0 {
        file
    } else {
        let mut dir = trim_chars(prefix, '/');
        dir.push('/');
        let r = concat_chars(&dir, &file);
        assert(r@ =~= object_key(prefix@, hex@));
        r
    }
}

fn public_url_chars(cfg: &S3Config, key: &Vec<char>) -> (r: Vec<char>)
    ensures
        r@ == public_url(*cfg, key@),
{
    if cfg.custom_url.unicode_len() > 0 {
        let mut base = trim_end_chars(&chars_of(cfg.custom_url.as_str()), '/');
        base.push('/');
        let r = concat_chars(&base, key);
        assert(r@ =~= public_url(*cfg, key@));
        r
    } else {
        let mut base = trim_end_chars(&chars_of(cfg.endpoint.as_str()), '/');
        base.push('/');
        let mut with_bucket = concat_chars(&base, &chars_of(cfg.bucket_name.as_str()));
        with_bucket.push('/');
        let r = concat_chars(&with_bucket, key);
        assert(r@ =~= public_url(*cfg, key@));
        r
    }
}

/// An upload to make: the converted bytes go to `object_key`, and once they
/// are stored `url` is remembered for `digest`.
pub struct PendingUpload {
    pub digest: String,
    pub object_key: String,
    pub url: String,
    pub body: Vec<u8>,
}

/// What to do with an image.
pub enum UploadPlan {
    /// The object store is not enabled.
    Disabled,
    /// These bytes were uploaded before; here is their URL.
    Cached(String),
    /// The bytes are not an image the converter can read.
    Unconvertible,
    /// Upload, then call `UploadCache::complete`.
    Upload(PendingUpload),
}

pub open spec fn digest_hex(image: Seq<u8>) -> Seq<char> {
    hex_of(sha256_of(image))
}

/// The key an image is stored under on a given date.
pub open spec fn key_for(cfg: S3Config, image: Seq<u8>, date: CalendarDate) -> Seq<char> {
    object_key(filled_template(cfg.upload_path@, date), digest_hex(image))
}

impl UploadPlan {
    /// Whether the plan is to upload.
    pub open spec fn is_upload(&self) -> bool {
        match self {
            UploadPlan::Upload(_) => true,
            _ => false,
        }
    }
}

/// The plan for `image` given the remembered uploads `cache`, in the form
/// `plan_upload` promises.
pub open spec fn plan_matches(
    r: UploadPlan,
    cache: Map<Seq<char>, Seq<char>>,
    cfg: S3Config,
    image: Seq<u8>,
    date: CalendarDate,
) -> bool {
    let d = digest_hex(image);
    if !cfg.s3_enable {
        r is Disabled
    } else if cache.contains_key(d) {
        r is Cached && r->Cached_0@ == cache[d]
    } else if webp_of(image).is_none() {
        r is Unconvertible
    } else {
        r is Upload && r->Upload_0.digest@ == d && r->Upload_0.object_key@ == key_for(
            cfg,
            image,
            date,
        ) && r->Upload_0.url@ == public_url(cfg, key_for(cfg, image, date))
            && r->Upload_0.body@ == webp_of(image).unwrap()
    }
}

/// Decides how to obtain a URL for `image`: nothing when the store is
/// disabled, the remembered URL when these bytes were uploaded before,
/// otherwise the converted bytes and where they go.
pub fn plan_upload(cache: &UploadCache, cfg: &S3Config, image: &[u8], date: CalendarDate) -> (r:
    UploadPlan)
    ensures
        plan_matches(r, cache@, *cfg, image@, date),
{
    let digest = sha256_hex(image);
    if !cfg.s3_enable {
        return UploadPlan::Disabled;
    }
    let prefix = replace_bucket_path_template(cfg.upload_path.as_str(), date);
    if let Some(url) = cache.lookup(&digest) {
        return UploadPlan::Cached(url);
    }
    let body = match convert_to_webp(image) {
        Some(b) => b,
        None => {
            return UploadPlan::Unconvertible;
        },
    };
    let key = object_key_chars(&prefix, &chars_of(digest.as_str()));
    let url = public_url_chars(cfg, &key);
    UploadPlan::Upload(
        PendingUpload {
            digest,
            object_key: string_from_chars(&key),
            url: string_from_chars(&url),
            body,
        },
    )
}

/// `plan_upload` on today's local date.
pub fn plan_upload_today(cache: &UploadCache, cfg: &S3Config, image: &[u8]) -> (r: UploadPlan)
    ensures
        exists|date: CalendarDate| plan_matches(r, cache@, *cfg, image@, date),
{
    let date = today();
    plan_upload(cache, cfg, image, date)
}

impl UploadCache {
    /// Records a finished upload and returns its URL.
    pub fn complete(&mut self, upload: PendingUpload) -> (r: String)
        ensures
            final(self)@ == old(self)@.insert(upload.digest@, upload.url@),
            r@ == upload.url@,
    {
        let url = upload.url.clone();
        self.insert(upload.digest, upload.url);
        url
    }
}

/// Byte-identical images are uploaded once: after the upload planned for the
/// first is recorded, the plan for the same bytes, whichever track they
/// belong to and on whatever date, is the remembered URL.
pub proof fn lemma_identical_bytes_upload_once(
    cache: Map<Seq<char>, Seq<char>>,
    cfg: S3Config,
    image: Seq<u8>,
    first: UploadPlan,
    date1: CalendarDate,
    second: UploadPlan,
    date2: CalendarDate,
)
    requires
        plan_matches(first, cache, cfg, image, date1),
        first.is_upload(),
        plan_matches(
            second,
            cache.insert(first->Upload_0.digest@, first->Upload_0.url@),
            cfg,
            image,
            date2,
        ),
    ensures
        !second.is_upload(),
        second is Cached,
        second->Cached_0@ == first->Upload_0.url@,
{
}

} // verus!
