use shikenmatrix::text::{count_occurrences, replace_chars, string_from_chars, trim_chars};
use shikenmatrix::{check_permissions, get_all_windows, get_media_info, get_window_icon,
    request_permissions, AppConfig, ReporterConfig, WindowInfo};

#[test]
fn windows_permissions_always_granted() {
    assert_eq!(request_permissions(), Ok(true));
    assert!(check_permissions());
}

#[test]
fn all_windows_from_sensor_result() {
    let w = WindowInfo {
        title: "t".to_string(),
        process_name: "p".to_string(),
        pid: 3,
        app_id: None,
        icon_data: None,
    };
    let all = get_all_windows(Ok(w)).unwrap();
    assert_eq!(all.len(), 1);
    assert_eq!(all[0].title, "t");
    assert!(get_all_windows(Err("No foreground window".to_string())).unwrap().is_empty());
}

#[test]
fn media_info_without_sensor_is_empty() {
    let (t, a, s, th, d, e) = get_media_info();
    assert!(t.is_empty() && a.is_empty() && s.is_empty() && th.is_empty());
    assert_eq!((d, e), (0, 0));
    assert!(get_window_icon("any").is_empty());
}

#[test]
fn text_helpers() {
    let s: Vec<char> = "aXbXXc".chars().collect();
    assert_eq!(count_occurrences(&s, &vec!['X']), 3);
    assert_eq!(count_occurrences(&"aaaa".chars().collect(), &vec!['a', 'a']), 2);
    let r = replace_chars(&s, &vec!['X', 'X'], &vec!['-']);
    assert_eq!(string_from_chars(&r), "aXb-c");
    assert_eq!(string_from_chars(&trim_chars(&"//a/b//".chars().collect(), '/')), "a/b");
}

#[test]
fn default_configs_are_disabled() {
    let c = ReporterConfig::default();
    assert!(!c.enabled && c.ws_url.is_empty() && c.token.is_empty());
    let app = AppConfig::default().with_reporter(ReporterConfig { enabled: true, ..c });
    assert!(app.reporter.enabled);
}
