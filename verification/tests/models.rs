use ntfy_sender::level::ge;
use ntfy_sender::models::{compute_status, Period, Settings, Status};

fn bits(x: f64) -> u64 {
    x.to_bits()
}

#[test]
fn compute_status_below_warn() {
    assert_eq!(compute_status(bits(0.05), bits(0.10), bits(0.15)), Status::Good);
}

#[test]
fn compute_status_at_warn_boundary() {
    assert_eq!(compute_status(bits(0.10), bits(0.10), bits(0.15)), Status::Okay);
}

#[test]
fn compute_status_between_thresholds() {
    assert_eq!(compute_status(bits(0.12), bits(0.10), bits(0.15)), Status::Okay);
}

#[test]
fn compute_status_at_danger_boundary() {
    assert_eq!(compute_status(bits(0.15), bits(0.10), bits(0.15)), Status::Bad);
}

#[test]
fn compute_status_above_danger() {
    assert_eq!(compute_status(bits(0.20), bits(0.10), bits(0.15)), Status::Bad);
}

#[test]
fn period_from_str_all_keys() {
    assert_eq!(Period::from_str("1h").as_str(), "1h");
    assert_eq!(Period::from_str("12h").as_str(), "12h");
    assert_eq!(Period::from_str("24h").as_str(), "24h");
    assert_eq!(Period::from_str("1w").as_str(), "1w");
    assert_eq!(Period::from_str("1mo").as_str(), "1mo");
    assert_eq!(Period::from_str("1y").as_str(), "1y");
}

#[test]
fn period_from_str_unknown_defaults_to_24h() {
    assert_eq!(Period::from_str("garbage").as_str(), "24h");
    assert_eq!(Period::from_str("").as_str(), "24h");
}

#[test]
fn period_window_secs() {
    assert_eq!(Period::H1.window_secs() as f64, 3_600.0);
    assert_eq!(Period::H24.window_secs() as f64, 86_400.0);
    assert_eq!(Period::W1.window_secs() as f64, 604_800.0);
}

#[test]
fn status_from_str_roundtrip() {
    assert_eq!(Status::Good.as_str(), "good");
    assert_eq!(Status::Okay.as_str(), "okay");
    assert_eq!(Status::Bad.as_str(), "bad");
    assert_eq!(Status::from_str("good").as_str(), "good");
    assert_eq!(Status::from_str("okay").as_str(), "okay");
    assert_eq!(Status::from_str("bad").as_str(), "bad");
}

#[test]
fn status_from_str_unknown_defaults_to_good() {
    assert_eq!(Status::from_str("").as_str(), "good");
    assert_eq!(Status::from_str("unknown").as_str(), "good");
}

#[test]
fn status_labels_and_classes() {
    assert_eq!(Status::Good.label(), "GOOD");
    assert_eq!(Status::Okay.label(), "OKAY");
    assert_eq!(Status::Bad.label(), "BAD");
    assert_eq!(Status::Good.class(), "ok");
    assert_eq!(Status::Okay.class(), "warn");
    assert_eq!(Status::Bad.class(), "danger");
}

#[test]
fn period_labels_and_windows() {
    let all = Period::all();
    let keys: Vec<&str> = all.iter().map(|p| p.as_str()).collect();
    assert_eq!(keys, vec!["1h", "12h", "24h", "1w", "1mo", "1y"]);
    let labels: Vec<&str> = all.iter().map(|p| p.label()).collect();
    assert_eq!(labels, vec!["1 hour", "12 hours", "24 hours", "1 week", "1 month", "1 year"]);
    assert_eq!(Period::H12.window_secs(), 43_200);
    assert_eq!(Period::Mo1.window_secs(), 2_592_000);
    assert_eq!(Period::Y1.window_secs(), 31_536_000);
    assert_eq!(Period::H1.window_ms(), 3_600_000);
}

#[test]
fn period_key_roundtrip_on_every_period() {
    for p in Period::all() {
        assert_eq!(Period::from_str(p.as_str()), p);
    }
}

#[test]
fn status_name_roundtrip_on_every_status() {
    for s in [Status::Good, Status::Okay, Status::Bad] {
        assert_eq!(Status::from_str(s.as_str()), s);
    }
}

#[test]
fn level_comparison_follows_floats() {
    let values = [
        -f64::INFINITY, -1.5, -0.0, 0.0, 1e-300, 0.1, 0.15, 2.0, f64::INFINITY, f64::NAN,
    ];
    for a in values {
        for b in values {
            assert_eq!(ge(a.to_bits(), b.to_bits()), a >= b, "{a} >= {b}");
        }
    }
}

#[test]
fn nan_reading_is_good() {
    assert_eq!(compute_status(bits(f64::NAN), bits(0.10), bits(0.15)), Status::Good);
}

#[test]
fn default_settings_values() {
    let s = Settings::default();
    assert_eq!(s.theme, "dark");
    assert_eq!(f64::from_bits(s.warn_threshold), 0.10);
    assert_eq!(f64::from_bits(s.danger_threshold), 0.15);
    assert_eq!(s.ntfy_server, "https://ntfy.sh");
    assert_eq!(s.ntfy_topic, "");
    assert!(s.send_on_warn);
    assert!(s.send_on_danger);
}

#[test]
fn status_never_milder_for_higher_level() {
    fn rank(s: Status) -> u8 {
        match s {
            Status::Good => 0,
            Status::Okay => 1,
            Status::Bad => 2,
        }
    }
    let levels = [0.0, 0.05, 0.0999, 0.10, 0.12, 0.15, 0.3, f64::INFINITY];
    for w in levels.windows(2) {
        let lo = compute_status(bits(w[0]), bits(0.10), bits(0.15));
        let hi = compute_status(bits(w[1]), bits(0.10), bits(0.15));
        assert!(rank(lo) <= rank(hi), "{} vs {}", w[0], w[1]);
    }
}
