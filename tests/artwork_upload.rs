use shikenmatrix::artwork::{plan_upload, plan_upload_today, replace_bucket_path_template,
    CalendarDate, UploadCache, UploadPlan};
use shikenmatrix::codec::{hex_lower, sha256_hex};
use shikenmatrix::S3Config;

fn store(custom_url: &str, upload_path: &str) -> S3Config {
    S3Config {
        s3_enable: true,
        upload_path: upload_path.to_string(),
        endpoint: "https://s3.example.com/".to_string(),
        region: "auto".to_string(),
        bucket_name: "covers".to_string(),
        access_key: "ak".to_string(),
        secret_key: "sk".to_string(),
        custom_url: custom_url.to_string(),
    }
}

fn date() -> CalendarDate {
    CalendarDate { year: 2024, month: 3, day: 7 }
}

fn png_bytes(seed: u8) -> Vec<u8> {
    let img = image::RgbaImage::from_pixel(2, 2, image::Rgba([seed, 20, 30, 255]));
    let mut out = Vec::new();
    image::DynamicImage::ImageRgba8(img)
        .write_to(std::io::Cursor::new(&mut out), image::ImageFormat::Png)
        .unwrap();
    out
}

#[test]
fn sha256_hex_of_abc() {
    assert_eq!(
        sha256_hex(b"abc"),
        "ba7816bf8f01cfea414140de5dae2223b00361a396177a9cb410ff61f20015ad"
    );
}

#[test]
fn hex_is_lower_case_two_digits_per_byte() {
    assert_eq!(hex_lower(&[0x00, 0xff, 0x1a]), "00ff1a");
    assert_eq!(hex_lower(&[]), "");
}

#[test]
fn template_tokens_are_filled() {
    let r: String = replace_bucket_path_template("img/{year}/{month}/{day}/{year}", date())
        .into_iter()
        .collect();
    assert_eq!(r, "img/2024/03/07/2024");
    let plain: String = replace_bucket_path_template("static", date()).into_iter().collect();
    assert_eq!(plain, "static");
    let early: String = replace_bucket_path_template("{year}", CalendarDate { year: 987, month: 12, day: 31 })
        .into_iter()
        .collect();
    assert_eq!(early, "0987");
}

#[test]
fn disabled_store_plans_nothing() {
    let mut cfg = store("", "");
    cfg.s3_enable = false;
    let plan = plan_upload(&UploadCache::new(), &cfg, &png_bytes(1), date());
    assert!(matches!(plan, UploadPlan::Disabled));
}

#[test]
fn unreadable_image_is_not_uploaded() {
    let plan = plan_upload(&UploadCache::new(), &store("", ""), b"not an image", date());
    assert!(matches!(plan, UploadPlan::Unconvertible));
}

#[test]
fn first_upload_builds_key_and_custom_url() {
    let bytes = png_bytes(1);
    let hex = sha256_hex(&bytes);
    match plan_upload(&UploadCache::new(), &store("https://cdn.example.com/", "/img/{year}/{month}/"), &bytes, date()) {
        UploadPlan::Upload(p) => {
            assert_eq!(p.digest, hex);
            assert_eq!(p.object_key, format!("img/2024/03/{}.webp", hex));
            assert_eq!(p.url, format!("https://cdn.example.com/img/2024/03/{}.webp", hex));
            assert_eq!(&p.body[0..4], b"RIFF");
            assert_eq!(&p.body[8..12], b"WEBP");
        }
        _ => panic!("expected an upload"),
    }
}

#[test]
fn url_without_custom_base_uses_endpoint_and_bucket() {
    let bytes = png_bytes(2);
    let hex = sha256_hex(&bytes);
    match plan_upload(&UploadCache::new(), &store("", ""), &bytes, date()) {
        UploadPlan::Upload(p) => {
            assert_eq!(p.object_key, format!("{}.webp", hex));
            assert_eq!(p.url, format!("https://s3.example.com/covers/{}.webp", hex));
        }
        _ => panic!("expected an upload"),
    }
}

#[test]
fn identical_bytes_of_two_tracks_upload_once() {
    let mut cache = UploadCache::new();
    let cfg = store("https://cdn.example.com", "{year}");
    let bytes = png_bytes(3);
    let mut uploads = 0;
    let mut urls = Vec::new();
    for _track in ["track-one", "track-two"] {
        match plan_upload(&cache, &cfg, &bytes, date()) {
            UploadPlan::Upload(p) => {
                uploads += 1;
                urls.push(cache.complete(p));
            }
            UploadPlan::Cached(url) => urls.push(url),
            _ => panic!("unexpected plan"),
        }
    }
    assert_eq!(uploads, 1);
    assert_eq!(urls[0], urls[1]);
    assert_eq!(urls[0], format!("https://cdn.example.com/2024/{}.webp", sha256_hex(&bytes)));
}

#[test]
fn remembered_url_is_returned() {
    let mut cache = UploadCache::new();
    let bytes = png_bytes(4);
    cache.insert(sha256_hex(&bytes), "https://old.example.com/x.webp".to_string());
    cache.insert("ffff".to_string(), "https://other".to_string());
    assert_eq!(cache.lookup(&sha256_hex(&bytes)), Some("https://old.example.com/x.webp".to_string()));
    assert_eq!(cache.lookup(&"0000".to_string()), None);
    match plan_upload(&cache, &store("", ""), &bytes, date()) {
        UploadPlan::Cached(url) => assert_eq!(url, "https://old.example.com/x.webp"),
        _ => panic!("expected the cached URL"),
    }
}

#[test]
fn later_record_overrides_earlier() {
    let mut cache = UploadCache::new();
    cache.insert("aa".to_string(), "first".to_string());
    cache.insert("aa".to_string(), "second".to_string());
    assert_eq!(cache.lookup(&"aa".to_string()), Some("second".to_string()));
}

#[test]
fn todays_plan_uploads_webp() {
    match plan_upload_today(&UploadCache::new(), &store("", "{year}-{month}-{day}"), &png_bytes(5)) {
        UploadPlan::Upload(p) => {
            assert!(p.object_key.ends_with(".webp"));
            assert_eq!(p.object_key.len(), "2024-03-07/".len() + 64 + ".webp".len());
        }
        _ => panic!("expected an upload"),
    }
}
