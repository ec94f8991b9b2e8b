use ntfy_sender::config::{
    database_url, listen_address, listen_port, parse_port_flag, sqlite_file_path,
};
use ntfy_sender::handlers::{
    apply_settings_form, clock_text, current_level, max_class, new_topic, static_asset,
    test_request, theme_colors, topic_from_draws, PeriodQuery, SettingsForm,
};
use ntfy_sender::models::{Co2Reading, Period, Settings};
use ntfy_sender::ntfy::prepare;
use ntfy_sender::text::parse_u16;

fn empty_form() -> SettingsForm {
    SettingsForm {
        theme: None,
        warn_threshold: None,
        danger_threshold: None,
        ntfy_server: None,
        ntfy_topic: None,
        send_on_warn: None,
        send_on_danger: None,
    }
}

#[test]
fn settings_form_roundtrip() {
    let form = SettingsForm {
        theme: Some("dark".to_string()),
        warn_threshold: Some(0.08f64.to_bits()),
        danger_threshold: Some(0.14f64.to_bits()),
        ntfy_server: Some("https://ntfy.sh".to_string()),
        ntfy_topic: Some("co2-detector-abcde".to_string()),
        send_on_warn: Some("1".to_string()),
        send_on_danger: Some("1".to_string()),
    };
    let s = apply_settings_form(Settings::default(), form);
    assert!((f64::from_bits(s.warn_threshold) - 0.08).abs() < 1e-9);
    assert_eq!(f64::from_bits(s.danger_threshold), 0.14);
    assert_eq!(s.ntfy_topic, "co2-detector-abcde");
    assert!(s.send_on_warn && s.send_on_danger);
}

#[test]
fn settings_form_rejects_unknown_theme_and_clears_checkboxes() {
    let mut start = Settings::default();
    start.theme = "light".to_string();
    let mut form = empty_form();
    form.theme = Some("neon".to_string());
    let s = apply_settings_form(start.clone(), form);
    assert_eq!(s.theme, "light");
    assert!(!s.send_on_warn && !s.send_on_danger);
    assert_eq!(s.warn_threshold, start.warn_threshold);
    assert_eq!(s.ntfy_server, start.ntfy_server);
    let mut form = empty_form();
    form.theme = Some("dark".to_string());
    assert_eq!(apply_settings_form(start, form).theme, "dark");
}

#[test]
fn period_query_defaults_to_one_hour() {
    assert_eq!(PeriodQuery { period: None }.period(), Period::H1);
    assert_eq!(PeriodQuery { period: Some("1w".to_string()) }.period(), Period::W1);
    assert_eq!(PeriodQuery { period: Some("bogus".to_string()) }.period(), Period::H24);
}

#[test]
fn clock_text_pads_each_field() {
    assert_eq!(clock_text(0), "00:00:00");
    assert_eq!(clock_text(86_400 + 3 * 3600 + 7 * 60 + 9), "03:07:09");
    assert_eq!(clock_text(1_700_000_000), "22:13:20");
}

#[test]
fn max_class_marks_warn_level() {
    assert_eq!(max_class(0.10f64.to_bits(), 0.10f64.to_bits()), "text-warn");
    assert_eq!(max_class(0.09f64.to_bits(), 0.10f64.to_bits()), "text-ink");
}

#[test]
fn current_level_is_newest_or_zero() {
    assert_eq!(current_level(&vec![]), 0);
    let rs = vec![
        Co2Reading { co2: 0.05f64.to_bits(), time: 1.0f64.to_bits() },
        Co2Reading { co2: 0.07f64.to_bits(), time: 2.0f64.to_bits() },
    ];
    assert_eq!(f64::from_bits(current_level(&rs)), 0.07);
}

#[test]
fn theme_colors_pick_palette() {
    assert_eq!(theme_colors("light").accent, "#3a8a98");
    assert_eq!(theme_colors("light").bg, "#f6f5f1");
    assert_eq!(theme_colors("dark").accent, "#5fb8c4");
    assert_eq!(theme_colors("anything").panel2, "#1a1f24");
}

#[test]
fn topic_shape() {
    assert_eq!(topic_from_draws(&vec![0, 9, 10, 35, 21]), "co2-detector-09azl");
    for _ in 0..20 {
        let t = new_topic();
        assert!(t.starts_with("co2-detector-"));
        let suffix = &t["co2-detector-".len()..];
        assert_eq!(suffix.len(), 5);
        assert!(suffix.chars().all(|c| c.is_ascii_digit() || c.is_ascii_lowercase()));
    }
}

#[test]
fn ntfy_url_trims_server_slashes() {
    let r = prepare("https://ntfy.sh//", "abc", "t", "p", "b").unwrap();
    assert_eq!(r.url, "https://ntfy.sh/abc");
    assert!(prepare("https://ntfy.sh", "", "t", "p", "b").is_none());
    let mut s = Settings::default();
    s.ntfy_topic = "x".to_string();
    let t = test_request(&s).unwrap();
    assert_eq!(t.body, "Hello from co2dashboard.");
    assert_eq!(t.title, "CO\u{2082} test");
    assert_eq!(t.url, "https://ntfy.sh/x");
}

#[test]
fn static_assets() {
    let a = static_asset("output.css").unwrap();
    assert_eq!(a.path, "static/output.css");
    assert_eq!(a.content_type, "text/css; charset=utf-8");
    assert!(static_asset("secret.txt").is_none());
}

#[test]
fn port_parsing_matches_std() {
    for s in ["", "+", "-1", "+80", "0", "65535", "65536", "8080x", "0008080", "99999999999", "١"] {
        assert_eq!(parse_u16(s), s.parse::<u16>().ok(), "{s:?}");
    }
}

#[test]
fn port_flag_and_fallbacks() {
    let args = |v: &[&str]| v.iter().map(|s| s.to_string()).collect::<Vec<String>>();
    assert_eq!(parse_port_flag(&args(&["bin", "-p", "8080"])), Some(8080));
    assert_eq!(parse_port_flag(&args(&["bin", "--port", "81", "-p", "82"])), Some(81));
    assert_eq!(parse_port_flag(&args(&["bin", "-p"])), None);
    assert_eq!(parse_port_flag(&args(&["bin", "-p", "http"])), None);
    assert_eq!(parse_port_flag(&args(&["bin"])), None);
    assert_eq!(listen_port(Some(1), Some("2")), 1);
    assert_eq!(listen_port(None, Some("2")), 2);
    assert_eq!(listen_port(None, Some("x")), 3000);
    assert_eq!(listen_port(None, None), 3000);
    assert_eq!(listen_address(3000), "0.0.0.0:3000");
}

#[test]
fn database_location() {
    assert_eq!(database_url(None), "sqlite://./data/co2.db");
    assert_eq!(database_url(Some("sqlite::memory:".to_string())), "sqlite::memory:");
    assert_eq!(sqlite_file_path("sqlite://./data/co2.db"), Some("./data/co2.db"));
    assert_eq!(sqlite_file_path("sqlite::memory:"), None);
    assert_eq!(sqlite_file_path("sql"), None);
}
